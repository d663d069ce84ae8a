//! The recycling policy of the worker that owns the redo process: how many
//! requests one process instance serves before it is replaced.
use vstd::prelude::*;

verus! {

/// Deadline of each single I/O operation with the process, in seconds.
pub const IO_TIMEOUT_SECS: u64 = 20;

/// Requests served by one process instance before it is replaced.
pub const REUSE_BOUND: u32 = 100;

/// What the worker does after a request.
#[derive(Clone, Copy, Debug, PartialEq, Eq, Structural)]
pub enum WorkerAction {
    /// Keep the current process and wait for the next request.
    ServeNext,
    /// Tear the current process down and launch a fresh one.
    Relaunch,
}

/// The worker's state for the process instance it currently owns.
#[derive(Clone, Copy, Debug, PartialEq, Eq, Structural)]
pub struct WorkerState {
    /// Requests that this instance has served so far.
    pub served: u32,
    /// Number of the instance, counted from zero across launches.
    pub instance: u64,
}

impl WorkerState {
    pub open spec fn wf(&self) -> bool {
        self.served < REUSE_BOUND
    }

    /// The state right after the first launch.
    pub fn new() -> (r: WorkerState)
        ensures
            r.wf(),
            r.served == 0,
            r.instance == 0,
    {
        WorkerState { served: 0, instance: 0 }
    }
}

/// The state after a fresh launch that replaces the instance of `s`.
pub open spec fn relaunched(s: WorkerState) -> WorkerState {
    WorkerState { served: 0, instance: (s.instance + 1) as u64 }
}

/// The decision after one request: the action, and the state that follows it.
pub open spec fn step(s: WorkerState, ok: bool) -> (WorkerAction, WorkerState) {
    if !ok || s.served + 1 >= REUSE_BOUND {
        (WorkerAction::Relaunch, relaunched(s))
    } else {
        (WorkerAction::ServeNext, WorkerState { served: (s.served + 1) as u32, instance: s.instance })
    }
}

/// Decides what follows a request that succeeded (`ok`) or failed on the
/// instance of `s`: a failed request, or one that brings the instance to
/// the reuse bound, has it replaced; any other keeps it.
pub fn after_request(s: WorkerState, ok: bool) -> (r: (WorkerAction, WorkerState))
    requires
        s.wf(),
        s.instance < u64::MAX,
    ensures
        r == step(s, ok),
        r.1.wf(),
        !ok ==> r.0 == WorkerAction::Relaunch && r.1.served == 0 && r.1.instance != s.instance,
{
    if !ok || s.served + 1 >= REUSE_BOUND {
        (WorkerAction::Relaunch, WorkerState { served: 0, instance: s.instance + 1 })
    } else {
        (WorkerAction::ServeNext, WorkerState { served: s.served + 1, instance: s.instance })
    }
}

/// The state after `k` requests that all succeeded, from `s`.
pub open spec fn after_successes(s: WorkerState, k: nat) -> WorkerState
    decreases k,
{
    if k == 0 {
        s
    } else {
        step(after_successes(s, (k - 1) as nat), true).1
    }
}

/// A request that fails always moves the worker to a freshly launched
/// instance for the next request.
pub proof fn lemma_failure_relaunches(s: WorkerState)
    requires
        s.wf(),
    ensures
        step(s, false).0 == WorkerAction::Relaunch,
        step(s, false).1 == relaunched(s),
        step(s, false).1.served == 0,
{
}

/// From a fresh instance, with no failures, the instance is kept through
/// the first `REUSE_BOUND - 1` requests and replaced by exactly the
/// `REUSE_BOUND`-th.
pub proof fn lemma_relaunch_after_reuse_bound(s: WorkerState, k: nat)
    requires
        s.served == 0,
        1 <= k <= REUSE_BOUND,
    ensures
        k < REUSE_BOUND ==> step(after_successes(s, (k - 1) as nat), true).0 == WorkerAction::ServeNext,
        k == REUSE_BOUND ==> step(after_successes(s, (k - 1) as nat), true).0 == WorkerAction::Relaunch,
        k == REUSE_BOUND ==> after_successes(s, k) == relaunched(s),
{
    lemma_successes_count(s, (k - 1) as nat);
}

proof fn lemma_successes_count(s: WorkerState, k: nat)
    requires
        s.served == 0,
        k < REUSE_BOUND,
    ensures
        after_successes(s, k) == (WorkerState { served: k as u32, instance: s.instance }),
    decreases k,
{
    if k > 0 {
        lemma_successes_count(s, (k - 1) as nat);
    }
}

} // verus!
