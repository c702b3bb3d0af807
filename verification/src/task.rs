//! The task model: one transfer, its destination options, its status, and
//! the presence of its terminal callbacks.
//!
//! Paths, URLs and header values are carried as bytes (`Vec<u8>`), so the
//! contracts can speak of them as `Seq<u8>`.

use vstd::prelude::*;

verus! {

/// Why a task failed.
///
/// `PathNotAbsolute` and `PathNotSet` are path-resolution errors and
/// `Io` is a filesystem error: all three are permanent. `Transport` and
/// `HttpStatus` are transfer failures and are retried against the
/// sliding-window policy; `HttpStatus` carries the status code and a
/// truncated response body for diagnostics.
#[derive(Debug, Clone)]
pub enum TaskError {
    PathNotAbsolute,
    PathNotSet,
    Io,
    Transport,
    HttpStatus { status: u16, body: Vec<u8> },
}

impl TaskError {
    /// A retryable failure may be tried again under the retry policy;
    /// a permanent one ends the task at once.
    pub open spec fn spec_is_retryable(self) -> bool {
        self is Transport || self is HttpStatus
    }

    /// Decides whether this failure is retryable.
    pub fn is_retryable(&self) -> (r: bool)
        ensures
            r == self.spec_is_retryable(),
    {
        match self {
            TaskError::Transport => true,
            TaskError::HttpStatus { .. } => true,
            _ => false,
        }
    }
}

/// Where a task stands. Transitions are single-directional:
/// `Pending` to `Running` to one of the terminal states
/// `Success`, `Skipped` or `Error`.
#[derive(Debug, Clone)]
pub enum TaskStatus {
    Pending,
    Running,
    Error(TaskError),
    Success,
    Skipped,
}

impl TaskStatus {
    /// A terminal status is never left again.
    pub open spec fn spec_is_terminal(self) -> bool {
        self is Error || self is Success || self is Skipped
    }

    /// Decides whether this status is terminal.
    pub fn is_terminal(&self) -> (r: bool)
        ensures
            r == self.spec_is_terminal(),
    {
        match self {
            TaskStatus::Error(_) => true,
            TaskStatus::Success => true,
            TaskStatus::Skipped => true,
            _ => false,
        }
    }
}

impl Default for TaskStatus {
    /// A task starts out pending.
    fn default() -> (r: Self)
        ensures
            r is Pending,
    {
        TaskStatus::Pending
    }
}

/// Which terminal callbacks a task carries. The engine consumes a hook
/// when it fires, so each fires at most once; the caller keeps the
/// callback bodies and runs the one the engine names.
#[derive(Debug, Clone, PartialEq, Eq, Structural)]
pub struct TaskHooks {
    pub on_success: bool,
    pub on_error: bool,
}

impl Default for TaskHooks {
    /// By default a task carries no callbacks.
    fn default() -> (r: Self)
        ensures
            !r.on_success,
            !r.on_error,
    {
        TaskHooks { on_success: false, on_error: false }
    }
}

/// Destination options of a task. If `path` is set it is used as the
/// final absolute path; otherwise the engine derives a filename (from the
/// `Content-Disposition` header of a probe, or from the URL) and joins it
/// with `dir`. If neither is set, resolution fails.
#[derive(Debug, Clone)]
pub struct TaskOptions {
    pub path: Option<Vec<u8>>,
    pub dir: Option<Vec<u8>>,
    /// Skip the transfer when the resolved path already exists.
    pub skip_exists: bool,
    /// Largest number of retryable failures tolerated within the rolling
    /// sixty-second window; one more ends the task in `Error`.
    pub retries: usize,
}

impl Default for TaskOptions {
    /// No destination, five retries, skip existing files.
    fn default() -> (r: Self)
        ensures
            r.path is None,
            r.dir is None,
            r.skip_exists,
            r.retries == 5,
    {
        TaskOptions { path: None, dir: None, skip_exists: true, retries: 5 }
    }
}

/// One transfer: its engine-assigned id, destination options, status,
/// observed size in bytes, source URL, and callback presence.
///
/// The request itself is rebuilt by the caller on every attempt (so
/// time-sensitive headers stay fresh); the engine only decides when an
/// attempt is made and whether it carries a range offset.
#[derive(Debug, Clone)]
pub struct Task {
    /// Scheduler-assigned id: never changed once submitted.
    pub id: u64,
    pub options: TaskOptions,
    pub status: TaskStatus,
    pub file_size: Option<u64>,
    pub url: Vec<u8>,
    pub hooks: TaskHooks,
}

impl Task {
    /// Returns the task's id.
    pub fn id(&self) -> (r: u64)
        ensures
            r == self.id,
    {
        self.id
    }

    /// A fresh, unsubmitted task: pending, unsized, with id zero until the
    /// scheduler assigns the real one.
    pub fn new(url: Vec<u8>, options: TaskOptions, hooks: TaskHooks) -> (t: Task)
        ensures
            t.id == 0,
            t.status is Pending,
            t.file_size is None,
            t.url == url,
            t.options == options,
            t.hooks == hooks,
    {
        Task { id: 0, options, status: TaskStatus::Pending, file_size: None, url, hooks }
    }

    /// The same task under a scheduler-assigned id.
    pub(crate) fn with_id(self, id: u64) -> (t: Task)
        ensures
            t.id == id,
            t.options == self.options,
            t.status == self.status,
            t.file_size == self.file_size,
            t.url == self.url,
            t.hooks == self.hooks,
    {
        Task { id, ..self }
    }
}

} // verus!
