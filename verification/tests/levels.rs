use bowerbird_downloader::log::{should_log, LogLevel};
use bowerbird_downloader::task::{TaskError, TaskStatus};
use bowerbird_downloader::waitgroup::WaitGroup;

#[test]
fn messages_at_or_above_the_set_level_are_logged() {
    assert!(should_log(LogLevel::Debug, LogLevel::Debug));
    assert!(should_log(LogLevel::Debug, LogLevel::Error));
    assert!(should_log(LogLevel::Warn, LogLevel::Error));
    assert!(should_log(LogLevel::Error, LogLevel::Line));
    assert!(!should_log(LogLevel::Info, LogLevel::Debug));
    assert!(!should_log(LogLevel::Line, LogLevel::Error));
}

#[test]
fn waitgroup_counts_down_to_a_single_wake() {
    let mut wg = WaitGroup::new();
    assert!(wg.is_ready());
    wg.add(2);
    assert!(!wg.is_ready());
    assert_eq!(wg.count(), 2);
    assert!(!wg.done());
    assert!(wg.done());
    assert!(wg.is_ready());
    wg.add(1);
    assert!(!wg.is_ready());
    assert!(wg.done());
    assert!(wg.is_ready());
}

#[test]
fn error_taxonomy_separates_retryable_from_permanent() {
    assert!(TaskError::Transport.is_retryable());
    assert!(TaskError::HttpStatus { status: 500, body: Vec::new() }.is_retryable());
    assert!(!TaskError::Io.is_retryable());
    assert!(!TaskError::PathNotAbsolute.is_retryable());
    assert!(!TaskError::PathNotSet.is_retryable());
    assert!(TaskStatus::Success.is_terminal());
    assert!(TaskStatus::Skipped.is_terminal());
    assert!(TaskStatus::Error(TaskError::Io).is_terminal());
    assert!(!TaskStatus::Pending.is_terminal());
    assert!(!TaskStatus::Running.is_terminal());
}
