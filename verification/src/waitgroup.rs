//! The completion tracker: an outstanding-task counter in the style of a
//! waitgroup. The count rises by the size of every submitted batch and
//! falls once per task reaching a terminal status; a drain caller is
//! released exactly when the count is zero.

use vstd::prelude::*;

verus! {

/// Counts tasks submitted but not yet terminal.
#[derive(Debug, Clone)]
pub struct WaitGroup {
    /// Tasks submitted but not yet terminal.
    pub count: usize,
}

impl WaitGroup {
    /// How many tasks are still outstanding.
    pub open spec fn spec_count(self) -> nat {
        self.count as nat
    }

    /// A tracker with nothing outstanding.
    pub fn new() -> (wg: WaitGroup)
        ensures
            wg.spec_count() == 0,
    {
        WaitGroup { count: 0 }
    }

    /// Returns the current outstanding count.
    pub fn count(&self) -> (r: usize)
        ensures
            r == self.spec_count(),
    {
        self.count
    }

    /// Records `n` newly submitted tasks.
    pub fn add(&mut self, n: usize)
        requires
            old(self).spec_count() + n <= usize::MAX,
        ensures
            final(self).spec_count() == old(self).spec_count() + n,
    {
        self.count = self.count + n;
    }

    /// Records one task reaching a terminal status. Returns true exactly
    /// when the count reached zero, the moment every registered drain
    /// caller must be woken.
    pub fn done(&mut self) -> (wake: bool)
        requires
            old(self).spec_count() > 0,
        ensures
            final(self).spec_count() == old(self).spec_count() - 1,
            wake == (final(self).spec_count() == 0),
    {
        self.count = self.count - 1;
        self.count == 0
    }

    /// The drain decision: a waiter registering now completes immediately
    /// exactly when this returns true; otherwise it completes on the
    /// wake that `done` signals when the count reaches zero.
    pub fn is_ready(&self) -> (r: bool)
        ensures
            r == (self.spec_count() == 0),
    {
        self.count == 0
    }
}

} // verus!
