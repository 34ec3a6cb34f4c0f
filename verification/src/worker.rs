//! The model of one unit of work: what a worker logs, and the decision a
//! cooperatively cancellable worker makes at its suspension point.
//!
//! A worker logs its start, waits (a delay in the demo workloads, I/O in real
//! ones), and then performs its post-delay side effect: logging its
//! completion. A cooperative worker races its wait against the cancellation
//! signal and, when cancellation wins, exits early without that side effect.
//! A non-cooperative worker runs to completion regardless: that is intentional
//! degraded behaviour, not an error.

use crate::signal::CancellationSignal;
use vstd::prelude::*;

verus! {

/// How a worker ended: by running to completion, or by honouring a
/// cancellation request before its post-delay side effect.
#[derive(Clone, Copy, Debug, PartialEq, Eq, Structural)]
pub enum WorkerOutcome {
    Completed,
    CancelledEarly,
}

/// One observable log message of a worker, tagged with the worker's id.
#[derive(Clone, Copy, Debug, PartialEq, Eq, Structural)]
pub enum LogEvent {
    Started(u32),
    Completed(u32),
}

/// The decision a worker makes once its wait has been decided: a worker exits
/// early exactly when it is cooperative and cancellation won its race.
pub open spec fn spec_worker_outcome(cooperative: bool, cancel_won: bool) -> WorkerOutcome {
    if cooperative && cancel_won {
        WorkerOutcome::CancelledEarly
    } else {
        WorkerOutcome::Completed
    }
}

/// Everything a worker logs, in order, given how it ended: the start message
/// always comes first, and the completion message follows exactly when the
/// worker ran to completion.
pub open spec fn spec_worker_trace(task_id: u32, outcome: WorkerOutcome) -> Seq<LogEvent> {
    match outcome {
        WorkerOutcome::Completed => seq![LogEvent::Started(task_id), LogEvent::Completed(task_id)],
        WorkerOutcome::CancelledEarly => seq![LogEvent::Started(task_id)],
    }
}

/// Decide how a worker ends, from whether it is cooperative and whether
/// cancellation won the race against its own wait.
pub fn worker_decision(cooperative: bool, cancel_won: bool) -> (outcome: WorkerOutcome)
    ensures
        outcome == spec_worker_outcome(cooperative, cancel_won),
        outcome == WorkerOutcome::CancelledEarly <==> cooperative && cancel_won,
{
    if cooperative && cancel_won {
        WorkerOutcome::CancelledEarly
    } else {
        WorkerOutcome::Completed
    }
}

/// Decide how a cooperative worker ends when it checks the signal directly at
/// its suspension point instead of awaiting it: it exits early exactly when
/// the signal has already been triggered.
pub fn cooperative_poll(signal: &CancellationSignal) -> (outcome: WorkerOutcome)
    ensures
        outcome == spec_worker_outcome(true, signal.triggered()),
        outcome == WorkerOutcome::CancelledEarly <==> signal.triggered(),
{
    worker_decision(true, signal.is_triggered())
}

/// The log messages a worker emits, in order, given how it ended.
pub fn worker_trace(task_id: u32, outcome: WorkerOutcome) -> (trace: Vec<LogEvent>)
    ensures
        trace@ == spec_worker_trace(task_id, outcome),
{
    let mut trace: Vec<LogEvent> = Vec::new();
    trace.push(LogEvent::Started(task_id));
    if matches!(outcome, WorkerOutcome::Completed) {
        trace.push(LogEvent::Completed(task_id));
    }
    proof {
        assert(trace@ =~= spec_worker_trace(task_id, outcome));
    }
    trace
}

/// Cooperative early-exit law: a cooperative worker whose race is won by
/// cancellation ends in `CancelledEarly`, and its trace is the start message
/// alone — in particular, its completion side effect never appears.
pub proof fn lemma_cooperative_early_exit(task_id: u32)
    ensures
        spec_worker_outcome(true, true) == WorkerOutcome::CancelledEarly,
        spec_worker_trace(task_id, spec_worker_outcome(true, true)) =~= seq![
            LogEvent::Started(task_id),
        ],
        !spec_worker_trace(task_id, spec_worker_outcome(true, true)).contains(
            LogEvent::Completed(task_id),
        ),
{
    let t = spec_worker_trace(task_id, spec_worker_outcome(true, true));
    assert forall|i: int| 0 <= i < t.len() implies t[i] != LogEvent::Completed(task_id) by {
        assert(t[i] == LogEvent::Started(task_id));
    }
}

/// Start-before-completion law: in every worker trace the first entry is the
/// start message, and any completion entry comes after it.
pub proof fn lemma_start_before_completion(task_id: u32, outcome: WorkerOutcome)
    ensures
        spec_worker_trace(task_id, outcome).len() >= 1,
        spec_worker_trace(task_id, outcome)[0] == LogEvent::Started(task_id),
        forall|i: int|
            0 <= i < spec_worker_trace(task_id, outcome).len()
                && spec_worker_trace(task_id, outcome)[i] == LogEvent::Completed(task_id) ==> i
                > 0,
{
}

} // verus!
