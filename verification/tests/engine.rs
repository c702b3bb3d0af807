use bowerbird_downloader::engine::{Action, Execution, Phase};
use bowerbird_downloader::headers::{content_range_total, range_header_value};
use bowerbird_downloader::task::{Task, TaskError, TaskHooks, TaskOptions, TaskStatus};

fn running_task(path: Option<&[u8]>, dir: Option<&[u8]>, skip_exists: bool, retries: usize) -> Task {
    let options = TaskOptions {
        path: path.map(|p| p.to_vec()),
        dir: dir.map(|d| d.to_vec()),
        skip_exists,
        retries,
    };
    let mut t = Task::new(b"http://h/file".to_vec(), options, TaskHooks::default());
    t.status = TaskStatus::Running;
    t
}

#[test]
fn relative_explicit_path_fails_immediately() {
    let (e, a) = Execution::start(running_task(Some(b"out/f.bin"), None, true, 5));
    assert!(matches!(a, Action::Finish));
    assert!(matches!(e.phase, Phase::Done));
    assert!(matches!(e.task.status, TaskStatus::Error(TaskError::PathNotAbsolute)));
}

#[test]
fn no_path_and_no_dir_fails_immediately() {
    let (e, a) = Execution::start(running_task(None, None, true, 5));
    assert!(matches!(a, Action::Finish));
    assert!(matches!(e.task.status, TaskStatus::Error(TaskError::PathNotSet)));
}

#[test]
fn existing_destination_with_skip_exists_is_skipped_without_transfer() {
    let (mut e, a) = Execution::start(running_task(Some(b"/out/f.bin"), None, true, 5));
    match a {
        Action::CheckExists { path } => assert_eq!(path, b"/out/f.bin".to_vec()),
        _ => panic!("must check existence first"),
    }
    let a = e.on_exists(true);
    assert!(matches!(a, Action::Finish));
    assert!(matches!(e.task.status, TaskStatus::Skipped));
    assert!(!e.transfer_started);
}

#[test]
fn missing_destination_opens_temp_artifact() {
    let (mut e, _) = Execution::start(running_task(Some(b"/out/f.bin"), None, true, 5));
    let a = e.on_exists(false);
    match a {
        Action::OpenTemp { path } => assert_eq!(path, b"/out/f.bin.part".to_vec()),
        _ => panic!("must open the temp artifact"),
    }
}

#[test]
fn resume_offset_is_the_temp_length() {
    let (mut e, a) = Execution::start(running_task(Some(b"/out/f.bin"), None, false, 5));
    match a {
        Action::OpenTemp { path } => assert_eq!(path, b"/out/f.bin.part".to_vec()),
        _ => panic!("skip_exists off goes straight to the temp artifact"),
    }
    let a = e.on_temp_opened(17);
    assert!(matches!(a, Action::Transfer { from: Some(17) }));
    assert_eq!(range_header_value(17), b"bytes=17-".to_vec());
}

#[test]
fn fresh_temp_transfers_without_range() {
    let (mut e, _) = Execution::start(running_task(Some(b"/out/f.bin"), None, false, 5));
    let a = e.on_temp_opened(0);
    assert!(matches!(a, Action::Transfer { from: None }));
}

#[test]
fn completed_transfer_commits_and_succeeds() {
    let (mut e, _) = Execution::start(running_task(Some(b"/out/f.bin"), None, false, 5));
    let _ = e.on_temp_opened(0);
    let a = e.on_transfer_complete(42);
    match a {
        Action::Commit { temp, path } => {
            assert_eq!(temp, b"/out/f.bin.part".to_vec());
            assert_eq!(path, b"/out/f.bin".to_vec());
        },
        _ => panic!("a full transfer must commit"),
    }
    assert_eq!(e.task.file_size, Some(42));
    let a = e.on_committed();
    assert!(matches!(a, Action::Finish));
    assert!(matches!(e.task.status, TaskStatus::Success));
}

#[test]
fn http_error_budget_exhausts_with_status_500() {
    let (mut e, _) = Execution::start(running_task(Some(b"/out/f.bin"), None, false, 2));
    let _ = e.on_temp_opened(0);
    let a = e.on_transfer_http_status(500, b"server broke".to_vec(), 0);
    assert!(matches!(a, Action::Backoff { seconds: 5 }));
    let a = e.on_backoff_elapsed();
    assert!(matches!(a, Action::Transfer { from: None }));
    let a = e.on_transfer_http_status(500, b"server broke".to_vec(), 6);
    assert!(matches!(a, Action::Backoff { seconds: 5 }));
    let _ = e.on_backoff_elapsed();
    let a = e.on_transfer_http_status(500, b"server broke".to_vec(), 12);
    assert!(matches!(a, Action::Finish));
    match &e.task.status {
        TaskStatus::Error(TaskError::HttpStatus { status, body }) => {
            assert_eq!(*status, 500);
            assert_eq!(body, &b"server broke".to_vec());
        },
        other => panic!("expected an HTTP-status error, got {:?}", other),
    }
}

#[test]
fn failures_older_than_the_window_are_forgotten() {
    let (mut e, _) = Execution::start(running_task(Some(b"/out/f.bin"), None, false, 1));
    let _ = e.on_temp_opened(0);
    let a = e.on_transfer_http_status(503, Vec::new(), 0);
    assert!(matches!(a, Action::Backoff { seconds: 5 }));
    let _ = e.on_backoff_elapsed();
    // 61 seconds later the first failure has left the window: the budget
    // of one retryable failure per window is not yet exceeded.
    let a = e.on_transfer_http_status(503, Vec::new(), 61);
    assert!(matches!(a, Action::Backoff { seconds: 5 }));
    let _ = e.on_backoff_elapsed();
    // A second failure inside the same window exceeds it.
    let a = e.on_transfer_http_status(503, Vec::new(), 70);
    assert!(matches!(a, Action::Finish));
    assert!(matches!(e.task.status, TaskStatus::Error(TaskError::HttpStatus { .. })));
}

#[test]
fn transport_failure_keeps_partial_bytes_and_resumes_there() {
    let (mut e, _) = Execution::start(running_task(Some(b"/out/f.bin"), None, false, 5));
    let _ = e.on_temp_opened(0);
    let a = e.on_transfer_transport(100, 0);
    assert!(matches!(a, Action::Backoff { seconds: 5 }));
    let a = e.on_backoff_elapsed();
    assert!(matches!(a, Action::Transfer { from: Some(100) }));
    assert_eq!(range_header_value(100), b"bytes=100-".to_vec());
}

#[test]
fn transport_budget_exhausts_into_transport_error() {
    let (mut e, _) = Execution::start(running_task(Some(b"/out/f.bin"), None, false, 0));
    let _ = e.on_temp_opened(0);
    let a = e.on_transfer_transport(0, 3);
    assert!(matches!(a, Action::Finish));
    assert!(matches!(e.task.status, TaskStatus::Error(TaskError::Transport)));
}

#[test]
fn few_failures_then_success_ends_in_success() {
    let (mut e, _) = Execution::start(running_task(Some(b"/out/f.bin"), None, false, 3));
    let _ = e.on_temp_opened(0);
    let _ = e.on_transfer_transport(10, 0);
    let _ = e.on_backoff_elapsed();
    let _ = e.on_transfer_http_status(502, Vec::new(), 6);
    let a = e.on_backoff_elapsed();
    assert!(matches!(a, Action::Transfer { from: Some(10) }));
    let _ = e.on_transfer_complete(32);
    let a = e.on_committed();
    assert!(matches!(a, Action::Finish));
    assert!(matches!(e.task.status, TaskStatus::Success));
    assert_eq!(e.task.file_size, Some(42));
}

#[test]
fn filesystem_fault_is_permanent() {
    let (mut e, _) = Execution::start(running_task(Some(b"/out/f.bin"), None, false, 5));
    let a = e.on_fault(TaskError::Io);
    assert!(matches!(a, Action::Finish));
    assert!(matches!(e.task.status, TaskStatus::Error(TaskError::Io)));
}

#[test]
fn http_error_body_is_truncated_to_100_kib() {
    let (mut e, _) = Execution::start(running_task(Some(b"/out/f.bin"), None, false, 0));
    let _ = e.on_temp_opened(0);
    let big = vec![7u8; 200_000];
    let _ = e.on_transfer_http_status(500, big, 0);
    match &e.task.status {
        TaskStatus::Error(TaskError::HttpStatus { body, .. }) => {
            assert_eq!(body.len(), 102_400);
            assert!(body.iter().all(|b| *b == 7));
        },
        other => panic!("expected an HTTP-status error, got {:?}", other),
    }
}

#[test]
fn content_range_total_is_recorded() {
    let (mut e, _) = Execution::start(running_task(Some(b"/out/f.bin"), None, false, 5));
    let _ = e.on_temp_opened(5);
    e.on_content_range(b"bytes 5-99/1234");
    assert_eq!(e.task.file_size, Some(1234));
    // An unreadable value changes nothing.
    e.on_content_range(b"bytes 5-99/12x4");
    assert_eq!(e.task.file_size, Some(1234));
    e.on_content_range(b"no slash here");
    assert_eq!(e.task.file_size, Some(1234));
}

#[test]
fn content_range_parsing_is_exact() {
    assert_eq!(content_range_total(b"bytes 0-0/0"), Some(0));
    assert_eq!(content_range_total(b"bytes 0-99/18446744073709551615"), Some(u64::MAX));
    assert_eq!(content_range_total(b"bytes 0-99/18446744073709551616"), None);
    assert_eq!(content_range_total(b"bytes 0-99/"), None);
    assert_eq!(content_range_total(b"*/77"), Some(77));
}

#[test]
fn range_header_is_exact() {
    assert_eq!(range_header_value(0), b"bytes=0-".to_vec());
    assert_eq!(range_header_value(90), b"bytes=90-".to_vec());
    assert_eq!(range_header_value(u64::MAX), b"bytes=18446744073709551615-".to_vec());
}
