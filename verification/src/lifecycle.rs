//! The scheduler's lifetime as a state machine.
//!
//! One scheduler instance moves through `Built → Starting → Running →
//! ShuttingDown → Stopped`, in that order and no other.  Work may be
//! dispatched only while it runs; `Stopped` has no way out, so after a
//! completed shutdown no invocation of any scheduled task can follow.
//! The runtime shell keeps a [`Lifecycle`] beside its handles and steps
//! it at each phase.

use vstd::prelude::*;

verus! {

/// The phases of one scheduler instance, in order.
#[derive(Debug, Clone, Copy, PartialEq, Eq, Structural)]
pub enum SchedulerState {
    /// Descriptors may still be added.
    Built,
    /// Descriptors are being planned and registered.
    Starting,
    /// Timer loops and the cron capability are live.
    Running,
    /// Shutdown has begun: loops are being cancelled.
    ShuttingDown,
    /// Everything is cancelled; the instance is spent.
    Stopped,
}

/// Work may be dispatched only while the scheduler runs.
pub open spec fn may_dispatch(s: SchedulerState) -> bool {
    s is Running
}

/// The step relation of the machine: each phase has exactly one
/// successor, and `Stopped` has none.
pub open spec fn spec_transition(pre: SchedulerState, post: SchedulerState) -> bool {
    ||| (pre is Built && post is Starting)
    ||| (pre is Starting && post is Running)
    ||| (pre is Running && post is ShuttingDown)
    ||| (pre is ShuttingDown && post is Stopped)
}

/// A run of the machine: consecutive states are related by the step
/// relation.
pub open spec fn spec_run(tr: Seq<SchedulerState>) -> bool {
    forall|i: int| 0 <= i < tr.len() - 1 ==> spec_transition(#[trigger] tr[i], tr[i + 1])
}

/// Once stopped, stopped: in any run of the machine, every state at or
/// after a `Stopped` state is `Stopped` itself and dispatches nothing.
/// This is the shutdown guarantee — after `shutdown()` returns, no
/// further invocation of any previously scheduled task occurs.
pub proof fn lemma_shutdown_is_final(tr: Seq<SchedulerState>, i: int, j: int)
    requires
        spec_run(tr),
        0 <= i <= j < tr.len(),
        tr[i] is Stopped,
    ensures
        tr[j] is Stopped,
        !may_dispatch(tr[j]),
    decreases j - i,
{
    if j > i {
        assert(spec_transition(tr[i], tr[i + 1]));
        assert(tr[i + 1] is Stopped);
        lemma_shutdown_is_final(tr, i + 1, j);
    }
}

/// The live lifecycle of one scheduler instance.  The state is private:
/// the four transitions below are the only way to move it, and each
/// demands the phase it continues from.
#[derive(Debug, Clone, Copy)]
pub struct Lifecycle {
    state: SchedulerState,
}

impl Lifecycle {
    /// The current phase.
    pub closed spec fn phase(&self) -> SchedulerState {
        self.state
    }

    /// A fresh instance: descriptors may be added.
    pub fn new() -> (r: Self)
        ensures
            r.phase() is Built,
    {
        Lifecycle { state: SchedulerState::Built }
    }

    /// The current phase, readable at run time.
    pub fn current(&self) -> (r: SchedulerState)
        ensures
            r == self.phase(),
    {
        self.state
    }

    /// Registration begins; no more descriptors may be added.
    pub fn begin_start(&mut self)
        requires
            old(self).phase() is Built,
        ensures
            final(self).phase() is Starting,
            spec_transition(old(self).phase(), final(self).phase()),
    {
        self.state = SchedulerState::Starting;
    }

    /// Registration is done; loops and the cron capability are live.
    pub fn complete_start(&mut self)
        requires
            old(self).phase() is Starting,
        ensures
            final(self).phase() is Running,
            may_dispatch(final(self).phase()),
            spec_transition(old(self).phase(), final(self).phase()),
    {
        self.state = SchedulerState::Running;
    }

    /// Shutdown begins; nothing may be dispatched from here on.
    pub fn begin_shutdown(&mut self)
        requires
            old(self).phase() is Running,
        ensures
            final(self).phase() is ShuttingDown,
            !may_dispatch(final(self).phase()),
            spec_transition(old(self).phase(), final(self).phase()),
    {
        self.state = SchedulerState::ShuttingDown;
    }

    /// Shutdown is done; the instance is spent for good.
    pub fn complete_shutdown(&mut self)
        requires
            old(self).phase() is ShuttingDown,
        ensures
            final(self).phase() is Stopped,
            !may_dispatch(final(self).phase()),
            spec_transition(old(self).phase(), final(self).phase()),
    {
        self.state = SchedulerState::Stopped;
    }
}

} // verus!
