//! The execution engine: one task's attempt loop as a state machine.
//!
//! The engine never touches the network, the filesystem or a clock. Each
//! method consumes one outside event and returns the next [`Action`] for
//! the caller to perform: resolve the destination (probing for a
//! filename when none is given), skip an existing file, open the temp
//! artifact, transfer with a resume offset, back off and retry under the
//! sliding-window policy, and commit by atomic rename. Every decision is
//! verified for every possible event value.

use vstd::prelude::*;

use crate::headers::{spec_content_disposition_name, spec_content_range_total, content_disposition_name, content_range_total};
use crate::paths::{
    copy_bytes, is_absolute, join_path, part_path, sanitize_name, sanitized_of, spec_is_absolute,
    spec_join, spec_part_path, spec_url_filename, url_filename,
};
use crate::task::{Task, TaskError, TaskStatus};

verus! {

/// The timestamps (in seconds, from a monotonic clock) of the recent
/// retryable failures of one task.
#[derive(Debug, Clone)]
pub struct RetryWindow {
    pub times: Vec<u64>,
}

/// The failure times among `s` still within the sixty-second window
/// ending at `now`, in order.
pub open spec fn spec_kept(s: Seq<u64>, now: u64) -> Seq<u64>
    decreases s.len(),
{
    if s.len() == 0 {
        Seq::empty()
    } else if s.last() + 60 >= now {
        spec_kept(s.drop_last(), now).push(s.last())
    } else {
        spec_kept(s.drop_last(), now)
    }
}

impl RetryWindow {
    /// Every recorded time is at or before `now`: the clock is monotonic.
    pub open spec fn all_le(self, now: u64) -> bool {
        forall|i: int| 0 <= i < self.times@.len() ==> #[trigger] self.times@[i] <= now
    }

    /// An empty window.
    pub fn new() -> (w: RetryWindow)
        ensures
            w.times@.len() == 0,
    {
        RetryWindow { times: Vec::new() }
    }

    /// Records a failure at `now`: times older than sixty seconds are
    /// discarded and `now` is appended.
    pub fn record(&mut self, now: u64)
        requires
            old(self).all_le(now),
        ensures
            final(self).times@ == spec_kept(old(self).times@, now).push(now),
            final(self).all_le(now),
    {
        let ghost orig = self.times@;
        let mut kept: Vec<u64> = Vec::new();
        let mut i: usize = 0;
        proof {
            assert(orig.subrange(0, 0) =~= Seq::<u64>::empty());
            assert(kept@ =~= spec_kept(orig.subrange(0, 0), now));
        }
        while i < self.times.len()
            invariant
                i <= orig.len(),
                self.times@ == orig,
                old(self).all_le(now),
                kept@ == spec_kept(orig.subrange(0, i as int), now),
                forall|k: int| 0 <= k < kept@.len() ==> #[trigger] kept@[k] <= now,
            decreases orig.len() - i,
        {
            let t = self.times[i];
            proof {
                assert(orig[i as int] <= now);
                assert(orig.subrange(0, i as int + 1).drop_last() =~= orig.subrange(0, i as int));
                assert(orig.subrange(0, i as int + 1).last() == orig[i as int]);
            }
            if now - t <= 60 {
                kept.push(t);
            }
            i = i + 1;
        }
        proof {
            assert(orig.subrange(0, orig.len() as int) =~= orig);
        }
        kept.push(now);
        self.times = kept;
    }

    /// How many failures the window holds.
    pub fn count(&self) -> (n: usize)
        ensures
            n == self.times@.len(),
    {
        self.times.len()
    }
}

/// Where one execution stands between events.
#[derive(Debug, Clone, Copy, PartialEq, Eq, Structural)]
pub enum Phase {
    /// Waiting for the answer to `CheckExists` on the resolved path.
    CheckingExists,
    /// Waiting for the filename probe's response.
    Probing,
    /// Waiting for the temp artifact to be opened.
    OpeningTemp,
    /// A transfer request is in flight.
    Transferring,
    /// Sleeping before the next attempt.
    BackingOff,
    /// Waiting for the rename of the temp artifact onto the final path.
    Committing,
    /// The task is terminal.
    Done,
}

/// What the caller must do next. Network, filesystem and timing all
/// happen outside; the engine only decides.
#[derive(Debug)]
pub enum Action {
    /// Ask whether a file exists at `path`, then report through
    /// [`Execution::on_exists`].
    CheckExists { path: Vec<u8> },
    /// Issue the lightweight filename probe (a HEAD-equivalent of the
    /// task's request), then report through [`Execution::on_probe`].
    Probe,
    /// Create the parent directories, open (creating if absent) the temp
    /// artifact at `path`, and report its current length through
    /// [`Execution::on_temp_opened`].
    OpenTemp { path: Vec<u8> },
    /// Rebuild the task's request and stream the body into the open temp
    /// artifact. When `from` is set, first add the `Range` header
    /// [`crate::headers::range_header_value`]`(from)` so the transfer
    /// resumes at that offset. Report the outcome through
    /// `on_transfer_complete`, `on_transfer_http_status`,
    /// `on_transfer_transport`, or `on_content_range` for the response's
    /// `Content-Range` header.
    Transfer { from: Option<u64> },
    /// Sleep this many seconds, then report through
    /// [`Execution::on_backoff_elapsed`].
    Backoff { seconds: u64 },
    /// Atomically rename the temp artifact `temp` onto `path`, then
    /// report through [`Execution::on_committed`].
    Commit { temp: Vec<u8>, path: Vec<u8> },
    /// The task is terminal: hand it to the scheduler's `finish`.
    Finish,
}

/// One task's attempt loop: the task being transferred, the phase, the
/// temp artifact's length, and the recent-failure window.
#[derive(Debug)]
pub struct Execution {
    pub task: Task,
    pub phase: Phase,
    /// Bytes currently in the temp artifact: the resume offset.
    pub temp_len: u64,
    pub window: RetryWindow,
    /// Whether any body-transfer request was issued.
    pub transfer_started: bool,
}

impl Execution {
    /// The engine invariant: the destination is resolved before any
    /// filesystem or transfer step; existence is only checked when
    /// `skip_exists` asks for it; probing happens only for tasks with a
    /// directory and no explicit path; the status stays `Running` until
    /// the terminal phase; and — the skip guarantee — no transfer is ever
    /// started before the existence check, so a `Skipped` task never
    /// issued a body request.
    pub open spec fn wf(self) -> bool {
        &&& (self.phase is CheckingExists || self.phase is OpeningTemp
            || self.phase is Transferring || self.phase is BackingOff
            || self.phase is Committing ==> self.task.options.path is Some)
        &&& (self.phase is CheckingExists ==> self.task.options.skip_exists)
        &&& (self.phase is Probing ==> self.task.options.path is None
            && self.task.options.dir is Some)
        &&& (self.phase is Done ==> self.task.status.spec_is_terminal())
        &&& (!(self.phase is Done) ==> self.task.status is Running)
        &&& (self.phase is CheckingExists || self.phase is Probing
            || self.phase is OpeningTemp ==> !self.transfer_started)
        &&& (self.task.status is Skipped ==> !self.transfer_started)
    }

    /// Identity and configuration that every event leaves untouched.
    pub open spec fn same_task_core(a: Task, b: Task) -> bool {
        &&& a.id == b.id
        &&& a.url == b.url
        &&& a.hooks == b.hooks
        &&& a.options.dir == b.options.dir
        &&& a.options.skip_exists == b.options.skip_exists
        &&& a.options.retries == b.options.retries
    }

    /// Begins executing an admitted task: fails unresolvable or relative
    /// destinations at once, checks an explicit destination for skipping
    /// when asked, and otherwise probes for a filename or opens the temp
    /// artifact directly.
    pub fn start(task: Task) -> (r: (Execution, Action))
        requires
            task.status is Running,
        ensures
            ({
                let (e, a) = r;
                &&& e.wf()
                &&& Self::same_task_core(e.task, task)
                &&& e.task.file_size == task.file_size
                &&& e.temp_len == 0
                &&& e.window.times@.len() == 0
                &&& !e.transfer_started
                &&& match task.options.path {
                    Some(p) => {
                        if !spec_is_absolute(p@) {
                            &&& e.phase is Done
                            &&& e.task.status matches TaskStatus::Error(TaskError::PathNotAbsolute)
                            &&& a is Finish
                        } else if task.options.skip_exists {
                            &&& e.phase is CheckingExists
                            &&& e.task.options.path == task.options.path
                            &&& (a matches Action::CheckExists { path } && path@ == p@)
                        } else {
                            &&& e.phase is OpeningTemp
                            &&& e.task.options.path == task.options.path
                            &&& (a matches Action::OpenTemp { path } && path@ == spec_part_path(
                                p@,
                            ))
                        }
                    },
                    None => match task.options.dir {
                        Some(_) => {
                            &&& e.phase is Probing
                            &&& e.task.options.path is None
                            &&& a is Probe
                        },
                        None => {
                            &&& e.phase is Done
                            &&& e.task.status matches TaskStatus::Error(TaskError::PathNotSet)
                            &&& a is Finish
                        },
                    },
                }
            }),
    {
        let mut t = task;
        if t.options.path.is_some() {
            let p_copy = copy_bytes(t.options.path.as_ref().unwrap().as_slice());
            if !is_absolute(p_copy.as_slice()) {
                t.status = TaskStatus::Error(TaskError::PathNotAbsolute);
                (
                    Execution {
                        task: t,
                        phase: Phase::Done,
                        temp_len: 0,
                        window: RetryWindow::new(),
                        transfer_started: false,
                    },
                    Action::Finish,
                )
            } else if t.options.skip_exists {
                (
                    Execution {
                        task: t,
                        phase: Phase::CheckingExists,
                        temp_len: 0,
                        window: RetryWindow::new(),
                        transfer_started: false,
                    },
                    Action::CheckExists { path: p_copy },
                )
            } else {
                let temp = part_path(p_copy.as_slice());
                (
                    Execution {
                        task: t,
                        phase: Phase::OpeningTemp,
                        temp_len: 0,
                        window: RetryWindow::new(),
                        transfer_started: false,
                    },
                    Action::OpenTemp { path: temp },
                )
            }
        } else if t.options.dir.is_some() {
            (
                Execution {
                    task: t,
                    phase: Phase::Probing,
                    temp_len: 0,
                    window: RetryWindow::new(),
                    transfer_started: false,
                },
                Action::Probe,
            )
        } else {
            t.status = TaskStatus::Error(TaskError::PathNotSet);
            (
                Execution {
                    task: t,
                    phase: Phase::Done,
                    temp_len: 0,
                    window: RetryWindow::new(),
                    transfer_started: false,
                },
                Action::Finish,
            )
        }
    }

    /// Consumes the existence check: an existing destination (the check
    /// only runs under `skip_exists`) ends the task `Skipped` with no
    /// transfer ever issued; otherwise the temp artifact is opened.
    pub fn on_exists(&mut self, found: bool) -> (a: Action)
        requires
            old(self).wf(),
            old(self).phase is CheckingExists,
        ensures
            final(self).wf(),
            Self::same_task_core(final(self).task, old(self).task),
            final(self).task.options.path == old(self).task.options.path,
            final(self).task.file_size == old(self).task.file_size,
            final(self).temp_len == old(self).temp_len,
            final(self).window == old(self).window,
            !final(self).transfer_started,
            if found {
                &&& final(self).phase is Done
                &&& final(self).task.status is Skipped
                &&& a is Finish
            } else {
                &&& final(self).phase is OpeningTemp
                &&& final(self).task.status is Running
                &&& (a matches Action::OpenTemp { path }
                    && old(self).task.options.path matches Some(p) && path@ == spec_part_path(p@))
            },
    {
        if found {
            self.task.status = TaskStatus::Skipped;
            self.phase = Phase::Done;
            Action::Finish
        } else {
            let temp = part_path(self.task.options.path.as_ref().unwrap().as_slice());
            self.phase = Phase::OpeningTemp;
            Action::OpenTemp { path: temp }
        }
    }
}

/// The filename the probe yields: the `Content-Disposition` filename of
/// a successful probe when the value has the recognised shape, else the
/// URL path's final segment, each made filesystem-safe; none when
/// neither source names a file.
pub open spec fn spec_probe_name(ok: bool, cd: Option<Seq<u8>>, url_path: Seq<u8>) -> Option<
    Seq<u8>,
> {
    let from_header = match cd {
        Some(h) => if ok {
            spec_content_disposition_name(h)
        } else {
            None
        },
        None => None,
    };
    match from_header {
        Some(raw) => Some(sanitized_of(raw)),
        None => match spec_url_filename(url_path) {
            Some(seg) => Some(sanitized_of(seg)),
            None => None,
        },
    }
}

impl Execution {
    /// Consumes the probe's response: `ok` says it was 2xx,
    /// `content_disposition` carries that header's bytes if readable, and
    /// `url_path` is the path of the URL the response ended at. Resolves
    /// the destination by joining the derived filename with the task's
    /// directory, then proceeds to the skip check or the temp artifact;
    /// with no derivable filename the task fails.
    pub fn on_probe(&mut self, ok: bool, content_disposition: Option<&Vec<u8>>, url_path: &[u8]) -> (a:
        Action)
        requires
            old(self).wf(),
            old(self).phase is Probing,
        ensures
            final(self).wf(),
            Self::same_task_core(final(self).task, old(self).task),
            final(self).task.file_size == old(self).task.file_size,
            final(self).temp_len == old(self).temp_len,
            final(self).window == old(self).window,
            !final(self).transfer_started,
            ({
                let cdv = match content_disposition {
                    Some(h) => Some(h@),
                    None => None,
                };
                match spec_probe_name(ok, cdv, url_path@) {
                    None => {
                        &&& final(self).phase is Done
                        &&& final(self).task.status matches TaskStatus::Error(
                            TaskError::PathNotSet,
                        )
                        &&& a is Finish
                    },
                    Some(name) => {
                        let dir = old(self).task.options.dir;
                        &&& (dir matches Some(d) && {
                            let full = spec_join(d@, name);
                            &&& (final(self).task.options.path matches Some(p) && p@ == full)
                            &&& final(self).task.status is Running
                            &&& if old(self).task.options.skip_exists {
                                &&& final(self).phase is CheckingExists
                                &&& (a matches Action::CheckExists { path } && path@ == full)
                            } else {
                                &&& final(self).phase is OpeningTemp
                                &&& (a matches Action::OpenTemp { path } && path@
                                    == spec_part_path(full))
                            }
                        })
                    },
                }
            }),
    {
        let from_header: Option<Vec<u8>> = if ok {
            match content_disposition {
                Some(h) => content_disposition_name(h.as_slice()),
                None => None,
            }
        } else {
            None
        };
        let name: Option<Vec<u8>> = match from_header {
            Some(raw) => Some(sanitize_name(raw.as_slice())),
            None => match url_filename(url_path) {
                Some(seg) => Some(sanitize_name(seg.as_slice())),
                None => None,
            },
        };
        match name {
            None => {
                self.task.status = TaskStatus::Error(TaskError::PathNotSet);
                self.phase = Phase::Done;
                Action::Finish
            },
            Some(name) => {
                let full = join_path(self.task.options.dir.as_ref().unwrap().as_slice(), name.as_slice());
                if self.task.options.skip_exists {
                    let for_action = copy_bytes(full.as_slice());
                    self.task.options.path = Some(full);
                    self.phase = Phase::CheckingExists;
                    Action::CheckExists { path: for_action }
                } else {
                    let temp = part_path(full.as_slice());
                    self.task.options.path = Some(full);
                    self.phase = Phase::OpeningTemp;
                    Action::OpenTemp { path: temp }
                }
            },
        }
    }

    /// Consumes the temp artifact's length: the transfer starts there,
    /// resuming with a byte-range offset exactly when the artifact is
    /// non-empty.
    pub fn on_temp_opened(&mut self, len: u64) -> (a: Action)
        requires
            old(self).wf(),
            old(self).phase is OpeningTemp,
        ensures
            final(self).wf(),
            final(self).task == old(self).task,
            final(self).window == old(self).window,
            final(self).temp_len == len,
            final(self).transfer_started,
            final(self).phase is Transferring,
            a matches Action::Transfer { from } && from == (if len > 0 {
                Some(len)
            } else {
                None::<u64>
            }),
    {
        self.temp_len = len;
        self.transfer_started = true;
        self.phase = Phase::Transferring;
        Action::Transfer { from: if len > 0 { Some(len) } else { None } }
    }

    /// Consumes a `Content-Range` response header seen during the
    /// transfer: the total size after `/` is recorded as the task's
    /// observed size; an unreadable value changes nothing.
    pub fn on_content_range(&mut self, header: &[u8])
        requires
            old(self).wf(),
            old(self).phase is Transferring,
        ensures
            final(self).wf(),
            Self::same_task_core(final(self).task, old(self).task),
            final(self).task.options.path == old(self).task.options.path,
            final(self).task.status == old(self).task.status,
            final(self).phase == old(self).phase,
            final(self).temp_len == old(self).temp_len,
            final(self).window == old(self).window,
            final(self).transfer_started == old(self).transfer_started,
            final(self).task.file_size == match spec_content_range_total(header@) {
                Some(total) => Some(total),
                None => old(self).task.file_size,
            },
    {
        match content_range_total(header) {
            Some(total) => {
                self.task.file_size = Some(total);
            },
            None => {},
        }
    }

    /// Consumes a finished body stream of `n` new bytes: the observed
    /// size becomes the whole artifact's length and the commit rename is
    /// requested.
    pub fn on_transfer_complete(&mut self, n: u64) -> (a: Action)
        requires
            old(self).wf(),
            old(self).phase is Transferring,
            old(self).temp_len + n <= u64::MAX,
        ensures
            final(self).wf(),
            Self::same_task_core(final(self).task, old(self).task),
            final(self).task.options.path == old(self).task.options.path,
            final(self).task.status is Running,
            final(self).temp_len == old(self).temp_len + n,
            final(self).task.file_size == Some(final(self).temp_len),
            final(self).window == old(self).window,
            final(self).phase is Committing,
            a matches Action::Commit { temp, path } && (old(self).task.options.path matches Some(
                p,
            ) && temp@ == spec_part_path(p@) && path@ == p@),
    {
        self.temp_len = self.temp_len + n;
        self.task.file_size = Some(self.temp_len);
        self.phase = Phase::Committing;
        let dest = copy_bytes(self.task.options.path.as_ref().unwrap().as_slice());
        let temp = part_path(dest.as_slice());
        Action::Commit { temp, path: dest }
    }

    /// Consumes the commit: the artifact now sits at the final path and
    /// the task succeeded.
    pub fn on_committed(&mut self) -> (a: Action)
        requires
            old(self).wf(),
            old(self).phase is Committing,
        ensures
            final(self).wf(),
            Self::same_task_core(final(self).task, old(self).task),
            final(self).task.options.path == old(self).task.options.path,
            final(self).task.file_size == old(self).task.file_size,
            final(self).temp_len == old(self).temp_len,
            final(self).window == old(self).window,
            final(self).phase is Done,
            final(self).task.status is Success,
            a is Finish,
    {
        self.task.status = TaskStatus::Success;
        self.phase = Phase::Done;
        Action::Finish
    }

    /// Consumes a non-2xx response: a retryable HTTP-status failure
    /// carrying the status code and at most 100 KiB of the response
    /// body. The failure is recorded at `now`; counting it, more than
    /// `retries` failures within the last sixty seconds end the task in
    /// `Error`, and otherwise the engine backs off five seconds.
    pub fn on_transfer_http_status(&mut self, status: u16, body: Vec<u8>, now: u64) -> (a: Action)
        requires
            old(self).wf(),
            old(self).phase is Transferring,
            old(self).window.all_le(now),
        ensures
            final(self).wf(),
            Self::same_task_core(final(self).task, old(self).task),
            final(self).task.options.path == old(self).task.options.path,
            final(self).task.file_size == old(self).task.file_size,
            final(self).temp_len == old(self).temp_len,
            final(self).window.times@ == spec_kept(old(self).window.times@, now).push(now),
            ({
                let failures = spec_kept(old(self).window.times@, now).len() + 1;
                let kept_body = if body@.len() > 102400 {
                    body@.subrange(0, 102400)
                } else {
                    body@
                };
                if failures > old(self).task.options.retries {
                    &&& final(self).phase is Done
                    &&& (final(self).task.status matches TaskStatus::Error(e)
                        && e matches TaskError::HttpStatus { status: s, body: b } && s == status
                        && b@ == kept_body)
                    &&& a is Finish
                } else {
                    &&& final(self).phase is BackingOff
                    &&& final(self).task.status is Running
                    &&& (a matches Action::Backoff { seconds } && seconds == 5)
                }
            }),
    {
        let mut body = body;
        body.truncate(102400);
        let err = TaskError::HttpStatus { status, body };
        self.fail_retryable(err, now)
    }

    /// Consumes a transport-level failure after `partial` new bytes
    /// reached the temp artifact (they stay for the next resume). The
    /// same sliding-window policy as for HTTP-status failures decides
    /// between giving up and backing off.
    pub fn on_transfer_transport(&mut self, partial: u64, now: u64) -> (a: Action)
        requires
            old(self).wf(),
            old(self).phase is Transferring,
            old(self).window.all_le(now),
            old(self).temp_len + partial <= u64::MAX,
        ensures
            final(self).wf(),
            Self::same_task_core(final(self).task, old(self).task),
            final(self).task.options.path == old(self).task.options.path,
            final(self).task.file_size == old(self).task.file_size,
            final(self).temp_len == old(self).temp_len + partial,
            final(self).window.times@ == spec_kept(old(self).window.times@, now).push(now),
            ({
                let failures = spec_kept(old(self).window.times@, now).len() + 1;
                if failures > old(self).task.options.retries {
                    &&& final(self).phase is Done
                    &&& (final(self).task.status matches TaskStatus::Error(TaskError::Transport))
                    &&& a is Finish
                } else {
                    &&& final(self).phase is BackingOff
                    &&& final(self).task.status is Running
                    &&& (a matches Action::Backoff { seconds } && seconds == 5)
                }
            }),
    {
        self.temp_len = self.temp_len + partial;
        self.fail_retryable(TaskError::Transport, now)
    }

    /// Records a retryable failure and applies the window policy.
    fn fail_retryable(&mut self, err: TaskError, now: u64) -> (a: Action)
        requires
            old(self).wf(),
            old(self).phase is Transferring,
            old(self).window.all_le(now),
        ensures
            final(self).wf(),
            Self::same_task_core(final(self).task, old(self).task),
            final(self).task.options.path == old(self).task.options.path,
            final(self).task.file_size == old(self).task.file_size,
            final(self).temp_len == old(self).temp_len,
            final(self).transfer_started == old(self).transfer_started,
            final(self).window.times@ == spec_kept(old(self).window.times@, now).push(now),
            ({
                let failures = spec_kept(old(self).window.times@, now).len() + 1;
                if failures > old(self).task.options.retries {
                    &&& final(self).phase is Done
                    &&& (final(self).task.status matches TaskStatus::Error(e) && e == err)
                    &&& a is Finish
                } else {
                    &&& final(self).phase is BackingOff
                    &&& final(self).task.status is Running
                    &&& (a matches Action::Backoff { seconds } && seconds == 5)
                }
            }),
    {
        self.window.record(now);
        let failures = self.window.count();
        if failures > self.task.options.retries {
            self.task.status = TaskStatus::Error(err);
            self.phase = Phase::Done;
            Action::Finish
        } else {
            self.phase = Phase::BackingOff;
            Action::Backoff { seconds: 5 }
        }
    }

    /// Consumes the end of the backoff sleep: the caller must rebuild
    /// the request (so time-sensitive headers are fresh) and transfer
    /// again, resuming at the bytes already written.
    pub fn on_backoff_elapsed(&mut self) -> (a: Action)
        requires
            old(self).wf(),
            old(self).phase is BackingOff,
        ensures
            final(self).wf(),
            final(self).task == old(self).task,
            final(self).temp_len == old(self).temp_len,
            final(self).window == old(self).window,
            final(self).phase is Transferring,
            a matches Action::Transfer { from } && from == (if old(self).temp_len > 0 {
                Some(old(self).temp_len)
            } else {
                None::<u64>
            }),
    {
        self.phase = Phase::Transferring;
        Action::Transfer { from: if self.temp_len > 0 { Some(self.temp_len) } else { None } }
    }

    /// Consumes a permanent failure — a request that could not be built,
    /// a probe that could not be sent, or a filesystem error — at any
    /// point before the task is terminal: the task ends in `Error` at
    /// once, with no retry.
    pub fn on_fault(&mut self, err: TaskError) -> (a: Action)
        requires
            old(self).wf(),
            !(old(self).phase is Done),
        ensures
            final(self).wf(),
            Self::same_task_core(final(self).task, old(self).task),
            final(self).task.options.path == old(self).task.options.path,
            final(self).task.file_size == old(self).task.file_size,
            final(self).temp_len == old(self).temp_len,
            final(self).window == old(self).window,
            final(self).phase is Done,
            final(self).task.status matches TaskStatus::Error(e) && e == err,
            a is Finish,
    {
        self.task.status = TaskStatus::Error(err);
        self.phase = Phase::Done;
        Action::Finish
    }
}

/// Law: a task that reached `Skipped` never issued a body-transfer
/// request; at most the filename probe went out. The skip decision is
/// made strictly before the first transfer is started, and the engine
/// invariant carries that fact to the terminal state.
pub proof fn lemma_skipped_without_transfer(e: Execution)
    requires
        e.wf(),
        e.task.status is Skipped,
    ensures
        !e.transfer_started,
{
}

} // verus!
