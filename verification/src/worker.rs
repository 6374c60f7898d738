//! The background task protocol.
//!
//! The input task and each view's refresh task run the same loop: on
//! every iteration they observe either the cancellation signal or their
//! own trigger (a timer tick, a readable input event), and decide to
//! exit or to do one round of work. The decision is made here; the
//! surrounding binary owns the timers, the channel and the spawned
//! tasks, and feeds every observation through `step`.

use vstd::prelude::*;

verus! {

/// What a background task observes on one loop iteration.
#[derive(Clone, Copy, Debug, PartialEq, Eq, Structural)]
pub enum WorkerEvent {
    /// The process-wide cancellation token fired.
    Cancelled,
    /// The task's own trigger fired (the refresh interval elapsed, or
    /// an input event arrived).
    Tick,
}

/// What the task does next.
#[derive(Clone, Copy, Debug, PartialEq, Eq, Structural)]
pub enum WorkerAction {
    /// Leave the loop; the task issues no further work.
    Exit,
    /// Do one round of work (issue the query, forward the event).
    Work,
}

/// The loop state of one background task: whether it has observed
/// cancellation, and whether its last round of work failed. A failure
/// is remembered only for diagnosis — it never stops the loop.
#[derive(Clone, Copy, Debug, PartialEq, Eq, Structural)]
pub struct WorkerState {
    pub stopped: bool,
    pub last_work_failed: bool,
}

impl WorkerState {
    /// One observation: cancellation stops the task for good; a trigger
    /// means one round of work — whatever earlier rounds did.
    pub open spec fn spec_step(self, ev: WorkerEvent) -> (WorkerState, WorkerAction) {
        if self.stopped {
            (self, WorkerAction::Exit)
        } else if ev == WorkerEvent::Cancelled {
            (WorkerState { stopped: true, ..self }, WorkerAction::Exit)
        } else {
            (self, WorkerAction::Work)
        }
    }

    /// The state after a whole sequence of observations.
    pub open spec fn spec_run(self, evs: Seq<WorkerEvent>) -> WorkerState
        decreases evs.len(),
    {
        if evs.len() == 0 {
            self
        } else {
            self.spec_step(evs[0]).0.spec_run(evs.drop_first())
        }
    }

    /// A fresh task: running, nothing failed yet.
    pub fn new() -> (r: WorkerState)
        ensures
            !r.stopped,
            !r.last_work_failed,
    {
        WorkerState { stopped: false, last_work_failed: false }
    }

    /// Decide on one observation; the transition is exactly
    /// `spec_step`.
    pub fn step(&mut self, ev: WorkerEvent) -> (a: WorkerAction)
        ensures
            (*final(self), a) == old(self).spec_step(ev),
    {
        if self.stopped {
            WorkerAction::Exit
        } else if ev == WorkerEvent::Cancelled {
            self.stopped = true;
            WorkerAction::Exit
        } else {
            WorkerAction::Work
        }
    }

    /// Record how the round of work went. Only the diagnostic flag
    /// changes: a failed query never stops the task.
    pub fn record_outcome(&mut self, failed: bool)
        ensures
            *final(self) == (WorkerState { last_work_failed: failed, ..*old(self) }),
    {
        self.last_work_failed = failed;
    }
}

/// A failed round of work never terminates the task's loop: however the
/// last round went, a running task still does one round of work on its
/// next trigger.
pub proof fn lemma_failure_never_stops(w: WorkerState, failed: bool)
    requires
        !w.stopped,
    ensures
        ({
            let after = WorkerState { last_work_failed: failed, ..w };
            &&& after.spec_step(WorkerEvent::Tick).1 == WorkerAction::Work
            &&& !after.spec_step(WorkerEvent::Tick).0.stopped
        }),
{
}

/// Once cancellation has been observed, the very next observation — and
/// every one after it — yields `Exit`: a cancelled task never works
/// again, whatever else it observes.
pub proof fn lemma_cancelled_stays_stopped(w: WorkerState, evs: Seq<WorkerEvent>)
    requires
        w.stopped,
    ensures
        w.spec_run(evs).stopped,
        forall|i: int|
            0 <= i < evs.len() ==> w.spec_run(evs.take(i)).spec_step(evs[i]).1
                == WorkerAction::Exit,
    decreases evs.len(),
{
    if evs.len() > 0 {
        assert(evs.take(0) =~= Seq::<WorkerEvent>::empty());
        lemma_cancelled_stays_stopped(w, evs.drop_first());
        assert forall|i: int| 0 <= i < evs.len() implies w.spec_run(evs.take(i)).spec_step(
            evs[i],
        ).1 == WorkerAction::Exit by {
            if i > 0 {
                assert(evs.take(i).drop_first() =~= evs.drop_first().take(i - 1));
                assert(w.spec_run(evs.take(i)) == w.spec_step(evs.take(i)[0]).0.spec_run(
                    evs.take(i).drop_first(),
                ));
                assert(evs.drop_first()[i - 1] == evs[i]);
            }
        }
    }
}

/// Observing the cancellation signal makes the task exit at once, and
/// `lemma_cancelled_stays_stopped` applies to everything after: the
/// task stops issuing work within one observation of the signal.
pub proof fn lemma_cancellation_is_prompt(w: WorkerState)
    requires
        !w.stopped,
    ensures
        w.spec_step(WorkerEvent::Cancelled).1 == WorkerAction::Exit,
        w.spec_step(WorkerEvent::Cancelled).0.stopped,
{
}

/// Whether a view's periodic refresh is due: `interval` seconds must
/// have elapsed since `last`, on a clock that never runs backwards.
pub fn tick_due(last: u64, now: u64, interval: u64) -> (r: bool)
    ensures
        r == (last <= now && now - last >= interval),
{
    last <= now && now - last >= interval
}

} // verus!
