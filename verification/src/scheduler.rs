//! The admission controller and status store: a bounded-concurrency
//! scheduler that admits queued tasks as permits free, preserving
//! lowest-id-first order among waiting tasks, together with the three
//! queryable partitions (pending, running, finished) and the completion
//! tracker behind drain.
//!
//! The scheduler is a pure state machine. The caller owns the event
//! loop: it executes the tasks this scheduler hands out and reports each
//! terminal task back through [`Downloader::finish`], which immediately
//! admits the lowest-id pending task into the freed slot.

use vstd::prelude::*;

use crate::task::{Task, TaskStatus};
use crate::waitgroup::WaitGroup;

verus! {

/// What became of one submitted task.
pub enum SubmitOutcome {
    /// A permit was free: the task was admitted at once. The caller must
    /// start executing the returned task, which is already `Running`.
    Started(Task),
    /// All permits are taken: the task waits in the pending partition
    /// under the returned id.
    Queued(u64),
    /// The scheduler is shut down; the task is handed back unchanged.
    Refused(Task),
}

/// What a terminal transition caused.
pub struct FinishOutcome {
    /// The caller must run the task's success callback (it was present
    /// and the task succeeded). Consumed: it will never fire again.
    pub fire_success: bool,
    /// The caller must run the task's error callback.
    pub fire_error: bool,
    /// The lowest-id pending task, admitted into the freed permit; the
    /// caller must start executing it.
    pub started: Option<Task>,
    /// The outstanding count reached zero: every registered drain caller
    /// must be woken now.
    pub wake: bool,
}

/// Which partition holds a task id.
pub enum QueryKind {
    Pending,
    Running,
    Finished,
    NotFound,
}

/// The scheduler: three partitions of tasks by id, a permit limit, the
/// id source, and the completion tracker.
pub struct Downloader {
    /// Permit count: at most this many tasks run at once.
    pub limit: usize,
    /// Next id to assign; ids are unique and rise with submission order.
    pub next_id: u64,
    /// Tasks waiting for a permit, in ascending id order.
    pub pending: Vec<Task>,
    /// Ids of tasks currently executing.
    pub running: Vec<u64>,
    /// Terminal tasks, retained for the scheduler's lifetime.
    pub finished: Vec<Task>,
    /// Counts submitted tasks that are not yet terminal.
    pub wg: WaitGroup,
    /// Once set, submissions are refused.
    pub shutdown: bool,
}

impl Downloader {
    /// Ids of the waiting tasks, in queue order.
    pub open spec fn pending_ids(self) -> Seq<u64> {
        self.pending@.map_values(|t: Task| t.id)
    }

    /// Ids of the terminal tasks.
    pub open spec fn finished_ids(self) -> Seq<u64> {
        self.finished@.map_values(|t: Task| t.id)
    }

    /// Submitted tasks not yet terminal.
    pub open spec fn outstanding(self) -> nat {
        self.wg.spec_count()
    }

    /// The scheduler invariant:
    /// - the running partition never exceeds the permit limit;
    /// - the outstanding count equals pending plus running;
    /// - a task only waits while every permit is taken;
    /// - pending tasks are queued in strictly ascending id order and are
    ///   `Pending`; finished tasks are terminal; all ids are below
    ///   `next_id`;
    /// - every id occupies at most one partition, at most once.
    pub open spec fn wf(self) -> bool {
        &&& self.running@.len() <= self.limit
        &&& self.outstanding() == self.pending@.len() + self.running@.len()
        &&& (self.pending@.len() > 0 ==> self.running@.len() == self.limit)
        &&& (forall|i: int, j: int|
            0 <= i < j < self.pending@.len() ==> #[trigger] self.pending_ids()[i]
                < #[trigger] self.pending_ids()[j])
        &&& (forall|i: int|
            0 <= i < self.pending@.len() ==> (#[trigger] self.pending@[i]).id < self.next_id
                && self.pending@[i].status is Pending)
        &&& (forall|i: int|
            0 <= i < self.running@.len() ==> #[trigger] self.running@[i] < self.next_id)
        &&& (forall|i: int|
            0 <= i < self.finished@.len() ==> (#[trigger] self.finished@[i]).id < self.next_id
                && self.finished@[i].status.spec_is_terminal())
        &&& (forall|i: int|
            0 <= i < self.pending@.len() ==> !self.running@.contains(
                (#[trigger] self.pending@[i]).id,
            ) && !self.finished_ids().contains(self.pending@[i].id))
        &&& (forall|i: int|
            0 <= i < self.running@.len() ==> !self.finished_ids().contains(
                #[trigger] self.running@[i],
            ))
        &&& (forall|i: int, j: int|
            0 <= i < j < self.running@.len() ==> #[trigger] self.running@[i]
                != #[trigger] self.running@[j])
        &&& (forall|i: int, j: int|
            0 <= i < j < self.finished@.len() ==> #[trigger] self.finished_ids()[i]
                != #[trigger] self.finished_ids()[j])
    }

    /// A fresh scheduler with `limit` permits and nothing submitted.
    pub fn new(limit: usize) -> (d: Downloader)
        ensures
            d.wf(),
            d.limit == limit,
            d.next_id == 0,
            d.pending@.len() == 0,
            d.running@.len() == 0,
            d.finished@.len() == 0,
            d.outstanding() == 0,
            !d.shutdown,
    {
        Downloader {
            limit,
            next_id: 0,
            pending: Vec::new(),
            running: Vec::new(),
            finished: Vec::new(),
            wg: WaitGroup::new(),
            shutdown: false,
        }
    }

    /// Submits one task. Unless the scheduler is shut down, the task gets
    /// the next id and counts as outstanding; it starts at once when a
    /// permit is free (which, by `wf`, means nothing is waiting), and
    /// queues otherwise.
    pub fn send_one(&mut self, task: Task) -> (r: SubmitOutcome)
        requires
            old(self).wf(),
            old(self).next_id < u64::MAX,
            old(self).outstanding() + 1 <= usize::MAX,
        ensures
            final(self).wf(),
            final(self).limit == old(self).limit,
            final(self).shutdown == old(self).shutdown,
            final(self).finished == old(self).finished,
            old(self).shutdown ==> *final(self) == *old(self) && (r matches SubmitOutcome::Refused(
                t,
            ) && t == task),
            !old(self).shutdown ==> {
                &&& final(self).next_id == old(self).next_id + 1
                &&& final(self).outstanding() == old(self).outstanding() + 1
                &&& if old(self).running@.len() < old(self).limit {
                    &&& (r matches SubmitOutcome::Started(t)
                        && t.id == old(self).next_id
                        && t.status is Running
                        && t.url == task.url
                        && t.options == task.options
                        && t.hooks == task.hooks
                        && t.file_size == task.file_size)
                    &&& final(self).running@ == old(self).running@.push(old(self).next_id)
                    &&& final(self).pending == old(self).pending
                } else {
                    &&& (r matches SubmitOutcome::Queued(id) && id == old(self).next_id)
                    &&& final(self).running == old(self).running
                    &&& final(self).pending@.len() == old(self).pending@.len() + 1
                    &&& final(self).pending@.subrange(0, old(self).pending@.len() as int)
                        == old(self).pending@
                    &&& final(self).pending@.last().id == old(self).next_id
                    &&& final(self).pending@.last().status is Pending
                    &&& final(self).pending@.last().url == task.url
                    &&& final(self).pending@.last().options == task.options
                    &&& final(self).pending@.last().hooks == task.hooks
                    &&& final(self).pending@.last().file_size == task.file_size
                }
            },
    {
        if self.shutdown {
            return SubmitOutcome::Refused(task);
        }
        let ghost prev = *old(self);
        let id = self.next_id;
        self.next_id = self.next_id + 1;
        self.wg.add(1);
        let mut t = task.with_id(id);
        if self.running.len() < self.limit {
            t.status = TaskStatus::Running;
            self.running.push(id);
            proof {
                lemma_not_contains_ge(prev.running@, id);
                lemma_push_contains(prev.running@, id);
                lemma_push_unique(prev.running@, id);
                assert forall|i: int|
                    0 <= i < self.pending@.len() implies !self.running@.contains(
                    (#[trigger] self.pending@[i]).id,
                ) && !self.finished_ids().contains(self.pending@[i].id) by {
                    assert(prev.pending@[i] == self.pending@[i]);
                    assert(!prev.running@.contains(prev.pending@[i].id));
                    assert(self.pending@[i].id < id);
                }
                assert(self.finished_ids() =~= prev.finished_ids());
            }
            SubmitOutcome::Started(t)
        } else {
            t.status = TaskStatus::Pending;
            self.pending.push(t);
            proof {
                assert(self.pending@.subrange(0, prev.pending@.len() as int) =~= prev.pending@);
                assert(self.finished_ids() =~= prev.finished_ids());
                lemma_not_contains_ge(prev.running@, id);
                assert forall|i: int|
                    0 <= i < prev.finished_ids().len() implies #[trigger] prev.finished_ids()[i]
                    < id by {
                    assert(prev.finished@[i].id < id);
                }
                lemma_not_contains_ge(prev.finished_ids(), id);
                assert forall|i: int, j: int|
                    0 <= i < j < self.pending@.len() implies #[trigger] self.pending_ids()[i]
                    < #[trigger] self.pending_ids()[j] by {
                    if j < prev.pending@.len() {
                        assert(prev.pending_ids()[i] < prev.pending_ids()[j]);
                    } else {
                        assert(self.pending_ids()[j] == id);
                        assert(prev.pending@[i].id < id);
                    }
                }
                assert forall|i: int|
                    0 <= i < self.pending@.len() implies !self.running@.contains(
                    (#[trigger] self.pending@[i]).id,
                ) && !self.finished_ids().contains(self.pending@[i].id) by {
                    if i < prev.pending@.len() {
                        assert(prev.pending@[i] == self.pending@[i]);
                        assert(!prev.running@.contains(prev.pending@[i].id));
                        assert(!prev.finished_ids().contains(prev.pending@[i].id));
                    } else {
                        assert(self.pending@[i].id == id);
                    }
                }
            }
            SubmitOutcome::Queued(id)
        }
    }

    /// Submits a whole batch in vector order, assigning consecutive ids,
    /// so the queue keeps submission order. While permits are free the
    /// leading tasks start at once (the returned vector, in order, must
    /// each be started by the caller); the rest queue. After shutdown the
    /// whole batch is refused and handed back.
    pub fn send(&mut self, tasks: Vec<Task>) -> (r: Result<Vec<Task>, Vec<Task>>)
        requires
            old(self).wf(),
            old(self).next_id + tasks@.len() <= u64::MAX,
            old(self).outstanding() + tasks@.len() <= usize::MAX,
        ensures
            final(self).wf(),
            final(self).limit == old(self).limit,
            final(self).shutdown == old(self).shutdown,
            final(self).finished == old(self).finished,
            old(self).shutdown ==> *final(self) == *old(self) && (r matches Err(v) && v == tasks),
            !old(self).shutdown ==> (r matches Ok(started) && {
                let n = tasks@.len() as int;
                let free = old(self).limit - old(self).running@.len();
                let k = if n <= free {
                    n
                } else {
                    free
                };
                &&& final(self).next_id == old(self).next_id + n
                &&& final(self).outstanding() == old(self).outstanding() + n
                &&& started@.len() == k
                &&& (forall|i: int|
                    0 <= i < k ==> {
                        let t = #[trigger] started@[i];
                        &&& t.id == old(self).next_id + i
                        &&& t.status is Running
                        &&& t.url == tasks@[i].url
                        &&& t.options == tasks@[i].options
                        &&& t.hooks == tasks@[i].hooks
                        &&& t.file_size == tasks@[i].file_size
                    })
                &&& final(self).running@ == old(self).running@ + Seq::new(
                    k as nat,
                    |i: int| (old(self).next_id + i) as u64,
                )
                &&& final(self).pending@.len() == old(self).pending@.len() + (n - k)
                &&& final(self).pending@.subrange(0, old(self).pending@.len() as int) == old(
                    self,
                ).pending@
                &&& (forall|m: int|
                    0 <= m < n - k ==> {
                        let t = #[trigger] final(self).pending@[old(self).pending@.len() + m];
                        &&& t.id == old(self).next_id + k + m
                        &&& t.status is Pending
                        &&& t.url == tasks@[k + m].url
                        &&& t.options == tasks@[k + m].options
                        &&& t.hooks == tasks@[k + m].hooks
                        &&& t.file_size == tasks@[k + m].file_size
                    })
            }),
    {
        if self.shutdown {
            return Err(tasks);
        }
        let ghost prev = *old(self);
        let ghost orig = tasks@;
        let ghost free = prev.limit - prev.running@.len();
        let mut tasks = tasks;
        let mut started: Vec<Task> = Vec::new();
        let mut j: usize = 0;
        let n = tasks.len();
        while j < n
            invariant
                n == orig.len(),
                j <= n,
                tasks@ == orig.subrange(j as int, n as int),
                self.wf(),
                !self.shutdown,
                self.limit == prev.limit,
                self.finished == prev.finished,
                free == prev.limit - prev.running@.len(),
                prev.next_id + n <= u64::MAX,
                prev.outstanding() + n <= usize::MAX,
                self.next_id == prev.next_id + j,
                self.outstanding() == prev.outstanding() + j,
                started@.len() == if j <= free {
                    j as int
                } else {
                    free
                },
                forall|i: int|
                    0 <= i < started@.len() ==> {
                        let t = #[trigger] started@[i];
                        &&& t.id == prev.next_id + i
                        &&& t.status is Running
                        &&& t.url == orig[i].url
                        &&& t.options == orig[i].options
                        &&& t.hooks == orig[i].hooks
                        &&& t.file_size == orig[i].file_size
                    },
                self.running@ == prev.running@ + Seq::new(
                    started@.len(),
                    |i: int| (prev.next_id + i) as u64,
                ),
                self.pending@.len() == prev.pending@.len() + (j - started@.len()),
                self.pending@.subrange(0, prev.pending@.len() as int) == prev.pending@,
                forall|m: int|
                    0 <= m < j - started@.len() ==> {
                        let t = #[trigger] self.pending@[prev.pending@.len() + m];
                        &&& t.id == prev.next_id + started@.len() + m
                        &&& t.status is Pending
                        &&& t.url == orig[started@.len() + m].url
                        &&& t.options == orig[started@.len() + m].options
                        &&& t.hooks == orig[started@.len() + m].hooks
                        &&& t.file_size == orig[started@.len() + m].file_size
                    },
            decreases n - j,
        {
            let ghost pre = *self;
            let ghost started_pre = started@;
            let task = tasks.remove(0);
            assert(task == orig[j as int]);
            assert(tasks@ =~= orig.subrange(j as int + 1, n as int));
            let outcome = self.send_one(task);
            match outcome {
                SubmitOutcome::Started(t) => {
                    proof {
                        assert(pre.running@.len() < pre.limit);
                        assert(pre.pending@.len() == prev.pending@.len() + (j
                            - started_pre.len()));
                        if started_pre.len() < j {
                            assert(pre.pending@.len() > 0);
                            assert(pre.running@.len() == pre.limit);
                        }
                        assert(started_pre.len() == j);
                        assert(j < free);
                    }
                    started.push(t);
                    proof {
                        assert(self.running@ =~= prev.running@ + Seq::new(
                            started@.len(),
                            |i: int| (prev.next_id + i) as u64,
                        ));
                        assert(self.pending@.subrange(0, prev.pending@.len() as int) =~= prev
                            .pending@);
                    }
                },
                SubmitOutcome::Queued(id) => {
                    proof {
                        assert(pre.running@.len() >= pre.limit);
                        assert(started_pre.len() >= free) by {
                            assert(pre.running@.len() == prev.running@.len()
                                + started_pre.len());
                        }
                        assert(started@.len() == free);
                        assert(self.running@ =~= prev.running@ + Seq::new(
                            started@.len(),
                            |i: int| (prev.next_id + i) as u64,
                        ));
                        assert(self.pending@.subrange(0, prev.pending@.len() as int) =~= prev
                            .pending@) by {
                            assert(self.pending@.subrange(0, pre.pending@.len() as int) == pre
                                .pending@);
                            assert forall|w: int| 0 <= w < prev.pending@.len() implies self
                                .pending@[w] == prev.pending@[w] by {
                                assert(pre.pending@[w] == prev.pending@[w]);
                                assert(self.pending@.subrange(0, pre.pending@.len() as int)[w]
                                    == pre.pending@[w]);
                            }
                        }
                        assert forall|m: int| 0 <= m < j + 1 - started@.len() implies {
                            let t = #[trigger] self.pending@[prev.pending@.len() + m];
                            &&& t.id == prev.next_id + started@.len() + m
                            &&& t.status is Pending
                            &&& t.url == orig[started@.len() + m].url
                            &&& t.options == orig[started@.len() + m].options
                            &&& t.hooks == orig[started@.len() + m].hooks
                            &&& t.file_size == orig[started@.len() + m].file_size
                        } by {
                            if m < j - started@.len() {
                                assert(self.pending@.subrange(0, pre.pending@.len() as int)[prev
                                    .pending@.len() + m] == pre.pending@[prev.pending@.len()
                                    + m]);
                            } else {
                                assert(self.pending@.last() == self.pending@[prev.pending@.len()
                                    + m]);
                            }
                        }
                    }
                },
                SubmitOutcome::Refused(_) => {
                    proof {
                        assert(false);
                    }
                },
            }
            j = j + 1;
        }
        proof {
            assert(self.running@ == prev.running@ + Seq::new(
                started@.len(),
                |i: int| (prev.next_id + i) as u64,
            ));
        }
        Ok(started)
    }

    /// Reports that an executing task reached a terminal status. The task
    /// moves to the finished partition with its matching hook consumed;
    /// its permit frees, and the lowest-id pending task (if any) is
    /// admitted on the spot. `wake` says the outstanding count hit zero.
    pub fn finish(&mut self, task: Task) -> (r: FinishOutcome)
        requires
            old(self).wf(),
            old(self).running@.contains(task.id),
            task.status.spec_is_terminal(),
        ensures
            final(self).wf(),
            final(self).limit == old(self).limit,
            final(self).next_id == old(self).next_id,
            final(self).shutdown == old(self).shutdown,
            final(self).outstanding() == old(self).outstanding() - 1,
            r.wake == (final(self).outstanding() == 0),
            r.fire_success == (task.status is Success && task.hooks.on_success),
            r.fire_error == (task.status is Error && task.hooks.on_error),
            final(self).finished@.len() == old(self).finished@.len() + 1,
            final(self).finished@.subrange(0, old(self).finished@.len() as int) == old(
                self,
            ).finished@,
            ({
                let stored = final(self).finished@.last();
                &&& stored.id == task.id
                &&& stored.status == task.status
                &&& stored.url == task.url
                &&& stored.options == task.options
                &&& stored.file_size == task.file_size
                &&& stored.hooks.on_success == (task.hooks.on_success && !(task.status is Success))
                &&& stored.hooks.on_error == (task.hooks.on_error && !(task.status is Error))
            }),
            old(self).pending@.len() > 0 ==> {
                &&& (r.started matches Some(t)
                    && t.id == old(self).pending@[0].id
                    && t.status is Running
                    && t.url == old(self).pending@[0].url
                    && t.options == old(self).pending@[0].options
                    && t.hooks == old(self).pending@[0].hooks
                    && t.file_size == old(self).pending@[0].file_size)
                &&& final(self).pending@ == old(self).pending@.subrange(
                    1,
                    old(self).pending@.len() as int,
                )
                &&& final(self).running@.len() == old(self).running@.len()
            },
            old(self).pending@.len() == 0 ==> {
                &&& r.started is None
                &&& final(self).pending@ == old(self).pending@
                &&& final(self).running@.len() == old(self).running@.len() - 1
            },
            forall|x: u64| #[trigger]
                final(self).running@.contains(x) <==> ((old(self).running@.contains(x) && x
                    != task.id) || (old(self).pending@.len() > 0 && x == old(
                    self,
                ).pending@[0].id)),
    {
        let ghost prev = *old(self);
        let idx = find_id(&self.running, task.id);
        self.running.remove(idx);
        proof {
            lemma_remove_unique(prev.running@, idx as int);
        }
        let ghost mid = self.running@;
        let fire_success = match task.status {
            TaskStatus::Success => task.hooks.on_success,
            _ => false,
        };
        let fire_error = match task.status {
            TaskStatus::Error(_) => task.hooks.on_error,
            _ => false,
        };
        let mut stored = task;
        if fire_success {
            stored.hooks.on_success = false;
        }
        if fire_error {
            stored.hooks.on_error = false;
        }
        self.finished.push(stored);
        proof {
            assert(self.finished@.subrange(0, prev.finished@.len() as int) =~= prev.finished@);
            assert(self.finished_ids() =~= prev.finished_ids().push(task.id));
            assert(!prev.finished_ids().contains(task.id)) by {
                if prev.finished_ids().contains(task.id) {
                    let w = choose|w: int|
                        0 <= w < prev.finished_ids().len() && prev.finished_ids()[w] == task.id;
                    assert(prev.finished_ids()[w] == prev.finished@[w].id);
                    let v = choose|v: int|
                        0 <= v < prev.running@.len() && prev.running@[v] == task.id;
                    assert(!prev.finished_ids().contains(prev.running@[v]));
                }
            }
            lemma_push_contains(prev.finished_ids(), task.id);
            lemma_push_unique(prev.finished_ids(), task.id);
            assert forall|i: int, j: int|
                0 <= i < j < self.finished@.len() implies #[trigger] self.finished_ids()[i]
                != #[trigger] self.finished_ids()[j] by {
                assert(prev.finished_ids().push(task.id)[i] != prev.finished_ids().push(
                    task.id,
                )[j]);
            }
        }
        let wake = self.wg.done();
        let started = if self.pending.len() > 0 {
            let mut t = self.pending.remove(0);
            t.status = TaskStatus::Running;
            proof {
                assert(!mid.contains(t.id)) by {
                    assert(!prev.running@.contains(prev.pending@[0].id));
                }
                lemma_push_contains(mid, t.id);
                lemma_push_unique(mid, t.id);
            }
            self.running.push(t.id);
            proof {
                assert(self.pending@ =~= prev.pending@.subrange(1, prev.pending@.len() as int));
                assert forall|i: int, j: int|
                    0 <= i < j < self.pending@.len() implies #[trigger] self.pending_ids()[i]
                    < #[trigger] self.pending_ids()[j] by {
                    assert(prev.pending_ids()[i + 1] < prev.pending_ids()[j + 1]);
                }
                assert forall|i: int|
                    0 <= i < self.pending@.len() implies !self.running@.contains(
                    (#[trigger] self.pending@[i]).id,
                ) && !self.finished_ids().contains(self.pending@[i].id) by {
                    assert(self.pending@[i] == prev.pending@[i + 1]);
                    assert(!prev.running@.contains(prev.pending@[i + 1].id));
                    assert(!prev.finished_ids().contains(prev.pending@[i + 1].id));
                    assert(prev.pending_ids()[0] < prev.pending_ids()[i + 1]);
                    assert(prev.pending@[i + 1].id != prev.pending@[0].id);
                }
                assert forall|i: int|
                    0 <= i < self.running@.len() implies !self.finished_ids().contains(
                    #[trigger] self.running@[i],
                ) by {
                    assert(self.running@.contains(self.running@[i]));
                    assert(!prev.finished_ids().contains(prev.pending@[0].id));
                    if self.running@[i] != prev.pending@[0].id {
                        assert(prev.running@.contains(self.running@[i]));
                        let w = choose|w: int|
                            0 <= w < prev.running@.len() && prev.running@[w] == self.running@[i];
                        assert(!prev.finished_ids().contains(prev.running@[w]));
                    }
                }
            }
            Some(t)
        } else {
            proof {
                assert forall|i: int|
                    0 <= i < self.running@.len() implies !self.finished_ids().contains(
                    #[trigger] self.running@[i],
                ) by {
                    assert(self.running@.contains(self.running@[i]));
                    assert(prev.running@.contains(self.running@[i]));
                    let w = choose|w: int|
                        0 <= w < prev.running@.len() && prev.running@[w] == self.running@[i];
                    assert(!prev.finished_ids().contains(prev.running@[w]));
                }
            }
            None
        };
        FinishOutcome { fire_success, fire_error, started, wake }
    }

    /// The drain decision: true exactly when every submitted task has
    /// reached a terminal status. A drain caller returns when this holds,
    /// either immediately on registration or on the wake that `finish`
    /// reports; it never returns earlier.
    pub fn wait(&self) -> (done: bool)
        ensures
            done == (self.outstanding() == 0),
    {
        self.wg.is_ready()
    }

    /// Names the partition holding `id`.
    pub fn query(&self, id: u64) -> (r: QueryKind)
        requires
            self.wf(),
        ensures
            r is Running <==> self.running@.contains(id),
            r is Pending <==> self.pending_ids().contains(id),
            r is Finished <==> self.finished_ids().contains(id),
    {
        proof {
            if self.pending_ids().contains(id) {
                let w = choose|w: int|
                    0 <= w < self.pending_ids().len() && self.pending_ids()[w] == id;
                assert(self.pending@[w].id == id);
                assert(!self.running@.contains(self.pending@[w].id));
                assert(!self.finished_ids().contains(self.pending@[w].id));
            }
            if self.finished_ids().contains(id) && self.running@.contains(id) {
                let v = choose|v: int| 0 <= v < self.running@.len() && self.running@[v] == id;
                assert(!self.finished_ids().contains(self.running@[v]));
            }
        }
        if contains_id(&self.running, id) {
            QueryKind::Running
        } else if let Some(i) = find_task(&self.pending, id) {
            proof {
                assert(self.pending_ids()[i as int] == id);
                assert(self.pending_ids().contains(id));
            }
            QueryKind::Pending
        } else if let Some(i) = find_task(&self.finished, id) {
            proof {
                assert(self.finished_ids()[i as int] == id);
                assert(self.finished_ids().contains(id));
            }
            QueryKind::Finished
        } else {
            QueryKind::NotFound
        }
    }

    /// Position of the finished task with this id, if it is finished.
    pub fn finished_index(&self, id: u64) -> (r: Option<usize>)
        ensures
            r matches Some(i) ==> i < self.finished@.len() && self.finished@[i as int].id == id,
            r is None ==> !self.finished_ids().contains(id),
    {
        find_task(&self.finished, id)
    }

    /// Enters shutdown: every later submission is refused. Returns the
    /// ids of the in-flight executions, which the caller must abort; no
    /// completion guarantee is given for them.
    pub fn shutdown(&mut self) -> (aborted: Vec<u64>)
        ensures
            final(self).shutdown,
            final(self).limit == old(self).limit,
            final(self).next_id == old(self).next_id,
            final(self).pending == old(self).pending,
            final(self).running == old(self).running,
            final(self).finished == old(self).finished,
            final(self).wg == old(self).wg,
            aborted@ == old(self).running@,
    {
        self.shutdown = true;
        copy_ids(&self.running)
    }
}

/// Law: the running partition never holds more tasks than the permit
/// limit fixed at construction.
pub proof fn lemma_running_within_limit(d: Downloader)
    requires
        d.wf(),
    ensures
        d.running@.len() <= d.limit,
{
}

/// Law: when the outstanding count has reached zero, nothing is pending
/// and nothing is running — every submitted task sits in the finished
/// partition, and every finished task bears a terminal status. This is
/// why a drain caller released at count zero sees only terminal tasks.
pub proof fn lemma_drain_complete(d: Downloader)
    requires
        d.wf(),
        d.outstanding() == 0,
    ensures
        d.pending@.len() == 0,
        d.running@.len() == 0,
        forall|i: int|
            0 <= i < d.finished@.len() ==> (#[trigger] d.finished@[i]).status.spec_is_terminal(),
{
}

/// Law: an id occupies at most one partition at a time — a task is
/// never simultaneously pending and running, pending and finished, or
/// running and finished.
pub proof fn lemma_partitions_disjoint(d: Downloader, id: u64)
    requires
        d.wf(),
    ensures
        !(d.pending_ids().contains(id) && d.running@.contains(id)),
        !(d.pending_ids().contains(id) && d.finished_ids().contains(id)),
        !(d.running@.contains(id) && d.finished_ids().contains(id)),
{
    if d.pending_ids().contains(id) {
        let w = choose|w: int| 0 <= w < d.pending_ids().len() && d.pending_ids()[w] == id;
        assert(d.pending@[w].id == id);
        assert(!d.running@.contains(d.pending@[w].id));
        assert(!d.finished_ids().contains(d.pending@[w].id));
    }
    if d.running@.contains(id) {
        let v = choose|v: int| 0 <= v < d.running@.len() && d.running@[v] == id;
        assert(!d.finished_ids().contains(d.running@[v]));
    }
}

/// Index of `id` in `v`, which must contain it.
fn find_id(v: &Vec<u64>, id: u64) -> (r: usize)
    requires
        v@.contains(id),
    ensures
        r < v@.len(),
        v@[r as int] == id,
{
    let mut i: usize = 0;
    while i < v.len()
        invariant
            i <= v@.len(),
            v@.contains(id),
            forall|j: int| 0 <= j < i ==> v@[j] != id,
        decreases v@.len() - i,
    {
        if v[i] == id {
            return i;
        }
        i = i + 1;
    }
    proof {
        let w = choose|w: int| 0 <= w < v@.len() && v@[w] == id;
        assert(v@[w] != id);
    }
    unreached()
}

/// Whether `v` contains `id`.
fn contains_id(v: &Vec<u64>, id: u64) -> (r: bool)
    ensures
        r == v@.contains(id),
{
    let mut i: usize = 0;
    while i < v.len()
        invariant
            i <= v@.len(),
            forall|j: int| 0 <= j < i ==> v@[j] != id,
        decreases v@.len() - i,
    {
        if v[i] == id {
            assert(v@.contains(id));
            return true;
        }
        i = i + 1;
    }
    false
}

/// A copy of an id list.
fn copy_ids(v: &Vec<u64>) -> (r: Vec<u64>)
    ensures
        r@ == v@,
{
    let mut r: Vec<u64> = Vec::new();
    let mut i: usize = 0;
    assert(r@ =~= v@.subrange(0, 0));
    while i < v.len()
        invariant
            i <= v@.len(),
            r@ == v@.subrange(0, i as int),
        decreases v@.len() - i,
    {
        r.push(v[i]);
        assert(r@ =~= v@.subrange(0, i as int + 1));
        i = i + 1;
    }
    assert(r@ =~= v@);
    r
}

/// Position of the task with this id, if present.
fn find_task(v: &Vec<Task>, id: u64) -> (r: Option<usize>)
    ensures
        r matches Some(i) ==> i < v@.len() && v@[i as int].id == id,
        r is None ==> !v@.map_values(|t: Task| t.id).contains(id),
{
    let mut i: usize = 0;
    while i < v.len()
        invariant
            i <= v@.len(),
            forall|j: int| 0 <= j < i ==> v@[j].id != id,
        decreases v@.len() - i,
    {
        if v[i].id() == id {
            return Some(i);
        }
        i = i + 1;
    }
    proof {
        let ids = v@.map_values(|t: Task| t.id);
        if ids.contains(id) {
            let w = choose|w: int| 0 <= w < ids.len() && ids[w] == id;
            assert(v@[w].id != id);
        }
    }
    None
}

/// A value above every element of a sequence is not in it.
proof fn lemma_not_contains_ge(s: Seq<u64>, b: u64)
    requires
        forall|i: int| 0 <= i < s.len() ==> #[trigger] s[i] < b,
    ensures
        !s.contains(b),
{
    if s.contains(b) {
        let w = choose|w: int| 0 <= w < s.len() && s[w] == b;
        assert(s[w] < b);
    }
}

/// Membership in a sequence extended by one value.
proof fn lemma_push_contains(s: Seq<u64>, a: u64)
    ensures
        forall|x: u64| #[trigger] s.push(a).contains(x) <==> s.contains(x) || x == a,
{
    assert forall|x: u64| #[trigger] s.push(a).contains(x) <==> s.contains(x) || x == a by {
        if s.push(a).contains(x) {
            let w = choose|w: int| 0 <= w < s.push(a).len() && s.push(a)[w] == x;
            if w < s.len() {
                assert(s[w] == x);
            }
        }
        if s.contains(x) {
            let w = choose|w: int| 0 <= w < s.len() && s[w] == x;
            assert(s.push(a)[w] == x);
        }
        assert(s.push(a)[s.len() as int] == a);
    }
}

/// Pushing a fresh value onto a duplicate-free sequence keeps it
/// duplicate-free.
proof fn lemma_push_unique(s: Seq<u64>, a: u64)
    requires
        forall|i: int, j: int| 0 <= i < j < s.len() ==> #[trigger] s[i] != #[trigger] s[j],
        !s.contains(a),
    ensures
        forall|i: int, j: int|
            0 <= i < j < s.push(a).len() ==> #[trigger] s.push(a)[i] != #[trigger] s.push(a)[j],
{
    assert forall|i: int, j: int|
        0 <= i < j < s.push(a).len() implies #[trigger] s.push(a)[i] != #[trigger] s.push(
        a,
    )[j] by {
        if j < s.len() {
            assert(s[i] != s[j]);
        } else {
            assert(s.contains(s[i]));
        }
    }
}

/// Removing the only occurrence of a value from a duplicate-free
/// sequence leaves exactly the other values.
proof fn lemma_remove_unique(s: Seq<u64>, idx: int)
    requires
        0 <= idx < s.len(),
        forall|i: int, j: int| 0 <= i < j < s.len() ==> #[trigger] s[i] != #[trigger] s[j],
    ensures
        forall|x: u64| #[trigger]
            s.remove(idx).contains(x) <==> (s.contains(x) && x != s[idx]),
        forall|i: int, j: int|
            0 <= i < j < s.len() - 1 ==> #[trigger] s.remove(idx)[i] != #[trigger] s.remove(idx)[j],
{
    let t = s.remove(idx);
    assert forall|x: u64| #[trigger] t.contains(x) <==> (s.contains(x) && x != s[idx]) by {
        if t.contains(x) {
            let w = choose|w: int| 0 <= w < t.len() && t[w] == x;
            if w < idx {
                assert(s[w] == x);
            } else {
                assert(s[w + 1] == x);
            }
        }
        if s.contains(x) && x != s[idx] {
            let w = choose|w: int| 0 <= w < s.len() && s[w] == x;
            if w < idx {
                assert(t[w] == x);
            } else {
                assert(t[w - 1] == x);
            }
        }
    }
}

} // verus!
