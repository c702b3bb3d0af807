use bowerbird_downloader::engine::{Action, Execution, Phase};
use bowerbird_downloader::headers::content_disposition_name;
use bowerbird_downloader::paths::{is_absolute, join_path, part_path, url_filename};
use bowerbird_downloader::task::{Task, TaskError, TaskHooks, TaskOptions, TaskStatus};

fn dir_task(dir: &[u8], skip_exists: bool) -> Task {
    let options = TaskOptions {
        path: None,
        dir: Some(dir.to_vec()),
        skip_exists,
        retries: 5,
    };
    let mut t = Task::new(b"http://h/x/y.bin".to_vec(), options, TaskHooks::default());
    t.status = TaskStatus::Running;
    t
}

#[test]
fn content_disposition_filename_lands_in_the_directory() {
    let (mut e, a) = Execution::start(dir_task(b"/out", true));
    assert!(matches!(a, Action::Probe));
    assert!(matches!(e.phase, Phase::Probing));
    let header = b"attachment; filename=\"a.bin\"".to_vec();
    let a = e.on_probe(true, Some(&header), b"/x/y.bin");
    match a {
        Action::CheckExists { path } => assert_eq!(path, b"/out/a.bin".to_vec()),
        _ => panic!("resolution must go on to the skip check"),
    }
    assert_eq!(e.task.options.path, Some(b"/out/a.bin".to_vec()));
}

#[test]
fn header_filename_is_sanitised() {
    // The sanitiser must strip the separator: a header naming `a/b.bin`
    // must not escape the destination directory.
    let (mut e, _) = Execution::start(dir_task(b"/out", true));
    let header = b"attachment; filename=\"a/b.bin\"".to_vec();
    let _ = e.on_probe(true, Some(&header), b"/x/y.bin");
    assert_eq!(e.task.options.path, Some(b"/out/ab.bin".to_vec()));
}

#[test]
fn unparseable_header_falls_back_to_the_url_name() {
    let (mut e, _) = Execution::start(dir_task(b"/out", true));
    let header = b"inline; filename=\"a.bin\"".to_vec();
    let _ = e.on_probe(true, Some(&header), b"/x/y.bin");
    assert_eq!(e.task.options.path, Some(b"/out/y.bin".to_vec()));
}

#[test]
fn failed_probe_ignores_the_header() {
    let (mut e, _) = Execution::start(dir_task(b"/out", true));
    let header = b"attachment; filename=\"a.bin\"".to_vec();
    let _ = e.on_probe(false, Some(&header), b"/x/y.bin");
    assert_eq!(e.task.options.path, Some(b"/out/y.bin".to_vec()));
}

#[test]
fn url_name_is_sanitised_too() {
    let (mut e, _) = Execution::start(dir_task(b"/out", true));
    let _ = e.on_probe(true, None, b"/x/we?ird:name.bin");
    assert_eq!(e.task.options.path, Some(b"/out/weirdname.bin".to_vec()));
}

#[test]
fn no_derivable_filename_fails_resolution() {
    let (mut e, a) = Execution::start(dir_task(b"/out", true));
    let a2 = e.on_probe(true, None, b"/");
    assert!(matches!(a, Action::Probe));
    assert!(matches!(a2, Action::Finish));
    assert!(matches!(e.task.status, TaskStatus::Error(TaskError::PathNotSet)));
}

#[test]
fn resolution_without_skip_check_opens_the_temp_artifact() {
    let (mut e, _) = Execution::start(dir_task(b"/out", false));
    let a = e.on_probe(true, None, b"/x/y.bin");
    match a {
        Action::OpenTemp { path } => assert_eq!(path, b"/out/y.bin.part".to_vec()),
        _ => panic!("resolution must open the temp artifact"),
    }
}

#[test]
fn content_disposition_grammar_is_exact() {
    assert_eq!(
        content_disposition_name(b"attachment; filename=\"a.bin\""),
        Some(b"a.bin".to_vec())
    );
    // The name may hold quotes; the closing quote is the last byte.
    assert_eq!(
        content_disposition_name(b"attachment; filename=\"a\"b.bin\""),
        Some(b"a\"b.bin".to_vec())
    );
    assert_eq!(content_disposition_name(b"attachment; filename=\"\""), Some(b"".to_vec()));
    assert_eq!(content_disposition_name(b"attachment; filename=a.bin"), None);
    assert_eq!(content_disposition_name(b"attachment; filename=\"a.bin"), None);
    assert_eq!(content_disposition_name(b"attachment; filename=\"a\nb\""), None);
    assert_eq!(content_disposition_name(b""), None);
}

#[test]
fn url_filename_takes_the_last_real_segment() {
    assert_eq!(url_filename(b"/a/b/c.jpg"), Some(b"c.jpg".to_vec()));
    assert_eq!(url_filename(b"/a/b/"), Some(b"b".to_vec()));
    assert_eq!(url_filename(b"/a/./"), Some(b"a".to_vec()));
    assert_eq!(url_filename(b"/a/.."), None);
    assert_eq!(url_filename(b"/"), None);
    assert_eq!(url_filename(b""), None);
    assert_eq!(url_filename(b"name.bin"), Some(b"name.bin".to_vec()));
}

#[test]
fn path_helpers_are_exact() {
    assert!(is_absolute(b"/out"));
    assert!(!is_absolute(b"out"));
    assert!(!is_absolute(b""));
    assert_eq!(join_path(b"/out", b"a.bin"), b"/out/a.bin".to_vec());
    assert_eq!(join_path(b"/out/", b"a.bin"), b"/out/a.bin".to_vec());
    assert_eq!(part_path(b"/out/a.bin"), b"/out/a.bin.part".to_vec());
}
