//! The orchestration state machine: run a fixed set of tasks to completion
//! unless externally cancelled first, and report which outcome occurred.
//!
//! The machine races two conditions: every task in the closed group has
//! completed, and a cancellation has been requested by the interrupt watcher.
//! Whichever is met first decides the run; a failure to install or await the
//! external interrupt mechanism is fatal. The asynchronous runtime around the
//! library performs the spawns and waits and feeds one [`Event`] per observed
//! fact; the machine itself is purely a function of the events it is fed.

use vstd::prelude::*;

verus! {

/// The decided outcome of a run: the whole group finished on its own, or a
/// cancellation request won the race while tasks were still in flight.
#[derive(Clone, Copy, Debug, PartialEq, Eq, Structural)]
pub enum Outcome {
    AllCompleted,
    CancelRequested,
}

/// The one fatal condition: the external interrupt mechanism could not be
/// installed or awaited, so cancellation could never be requested reliably.
#[derive(Clone, Copy, Debug, PartialEq, Eq, Structural)]
pub enum RunError {
    InterruptUnavailable,
}

/// One fact observed by the runtime and fed to the state machine.
#[derive(Clone, Copy, Debug, PartialEq, Eq, Structural)]
pub enum Event {
    /// One task of the group was seen to complete (normally or not: only
    /// completion is observable through a task handle).
    TaskCompleted,
    /// The external interrupt event arrived and the signal was triggered.
    InterruptFired,
    /// The wait for the external interrupt itself failed.
    InterruptFailed,
}

/// The phase of a run: still racing, decided, or fatally failed. Both decided
/// phases are terminal: no retries, no re-entry.
#[derive(Clone, Copy, Debug, PartialEq, Eq, Structural)]
pub enum Status {
    Running,
    Done(Outcome),
    Failed(RunError),
}

/// One orchestration run over a closed group of `total` tasks, of which
/// `completed` have been observed to finish. Membership is fixed when the run
/// is constructed: no task is ever added afterwards.
#[derive(Clone, Copy, Debug, PartialEq, Eq, Structural)]
pub struct Orchestration {
    pub total: usize,
    pub completed: usize,
    pub status: Status,
}

impl Orchestration {
    /// Well-formedness: no more completions than tasks, and the race is still
    /// open only while some task is still in flight.
    pub open spec fn wf(self) -> bool {
        &&& self.completed <= self.total
        &&& (self.status == Status::Running ==> self.completed < self.total)
    }

    /// The state a fresh run starts in: no completions yet, and — as a race
    /// over an empty group is decided at once — running exactly when the
    /// group is non-empty.
    pub open spec fn spec_new(total: usize) -> Orchestration {
        Orchestration {
            total: total,
            completed: 0,
            status: if total == 0 {
                Status::Done(Outcome::AllCompleted)
            } else {
                Status::Running
            },
        }
    }

    /// The transition of a running machine on one event. The race resolves as
    /// soon as either branch's condition is met, and not before: a completion
    /// decides the run exactly when it is the last one, an interrupt decides
    /// it at once, and an interrupt failure is fatal at once.
    pub open spec fn spec_step(self, event: Event) -> Orchestration {
        match event {
            Event::TaskCompleted => Orchestration {
                total: self.total,
                completed: (self.completed + 1) as usize,
                status: if self.completed + 1 == self.total {
                    Status::Done(Outcome::AllCompleted)
                } else {
                    Status::Running
                },
            },
            Event::InterruptFired => Orchestration {
                total: self.total,
                completed: self.completed,
                status: Status::Done(Outcome::CancelRequested),
            },
            Event::InterruptFailed => Orchestration {
                total: self.total,
                completed: self.completed,
                status: Status::Failed(RunError::InterruptUnavailable),
            },
        }
    }

    /// Begin a run over a closed group of `total` tasks.
    pub fn new(total: usize) -> (orch: Orchestration)
        ensures
            orch == Orchestration::spec_new(total),
            orch.wf(),
    {
        if total == 0 {
            Orchestration { total, completed: 0, status: Status::Done(Outcome::AllCompleted) }
        } else {
            Orchestration { total, completed: 0, status: Status::Running }
        }
    }

    /// Whether the race is still open.
    pub fn is_running(&self) -> (r: bool)
        ensures
            r == (self.status == Status::Running),
    {
        matches!(self.status, Status::Running)
    }

    /// Feed one observed event to a running machine.
    pub fn step(&mut self, event: Event)
        requires
            old(self).wf(),
            old(self).status == Status::Running,
        ensures
            final(self).wf(),
            *final(self) == old(self).spec_step(event),
            final(self).total == old(self).total,
            event == Event::TaskCompleted ==> final(self).completed == old(self).completed + 1
                && (final(self).status == Status::Done(Outcome::AllCompleted) <==> final(
                self).completed == final(self).total),
            event == Event::InterruptFired ==> final(self).status == Status::Done(
                Outcome::CancelRequested,
            ) && final(self).completed == old(self).completed,
            event == Event::InterruptFailed ==> final(self).status == Status::Failed(
                RunError::InterruptUnavailable,
            ) && final(self).completed == old(self).completed,
    {
        match event {
            Event::TaskCompleted => {
                self.completed = self.completed + 1;
                if self.completed == self.total {
                    self.status = Status::Done(Outcome::AllCompleted);
                }
            },
            Event::InterruptFired => {
                self.status = Status::Done(Outcome::CancelRequested);
            },
            Event::InterruptFailed => {
                self.status = Status::Failed(RunError::InterruptUnavailable);
            },
        }
    }
}

/// The state a run ends in after the events arrive in the given order: events
/// are applied while the race is open, and everything after the deciding
/// event is ignored.
pub open spec fn spec_resolve(s: Orchestration, events: Seq<Event>) -> Orchestration
    decreases events.len(),
{
    if events.len() == 0 || s.status != Status::Running {
        s
    } else {
        spec_resolve(s.spec_step(events[0]), events.drop_first())
    }
}

/// Once a run is decided, later events change nothing.
pub proof fn lemma_resolve_terminal(s: Orchestration, events: Seq<Event>)
    requires
        s.status != Status::Running,
    ensures
        spec_resolve(s, events) == s,
{
}

/// The sequence of `n` task-completion events.
pub open spec fn spec_completions(n: nat) -> Seq<Event> {
    Seq::new(n, |i: int| Event::TaskCompleted)
}

/// Liveness without cancellation: a running machine that is fed one
/// completion event for each task still in flight — and no interrupt — ends
/// decided as `AllCompleted`, with the whole group accounted for.
pub proof fn lemma_liveness_no_cancel(s: Orchestration)
    requires
        s.wf(),
        s.status == Status::Running,
    ensures
        spec_resolve(s, spec_completions((s.total - s.completed) as nat)).status == Status::Done(
            Outcome::AllCompleted,
        ),
        spec_resolve(s, spec_completions((s.total - s.completed) as nat)).completed == s.total,
    decreases s.total - s.completed,
{
    let n = (s.total - s.completed) as nat;
    let s1 = s.spec_step(Event::TaskCompleted);
    assert(spec_completions(n)[0] == Event::TaskCompleted);
    assert(spec_completions(n).drop_first() =~= spec_completions((n - 1) as nat));
    if s1.status == Status::Running {
        lemma_liveness_no_cancel(s1);
    } else {
        lemma_resolve_terminal(s1, spec_completions((n - 1) as nat));
    }
}

/// Liveness without cancellation, from the start of a run: a group of `k`
/// tasks whose completions all arrive, with no interrupt, ends `AllCompleted`.
pub proof fn lemma_run_completes(k: usize)
    ensures
        spec_resolve(Orchestration::spec_new(k), spec_completions(k as nat)).status == Status::Done(
            Outcome::AllCompleted,
        ),
        spec_resolve(Orchestration::spec_new(k), spec_completions(k as nat)).completed == k,
{
    if k > 0 {
        lemma_liveness_no_cancel(Orchestration::spec_new(k));
    }
}

/// Liveness under cancellation: the moment the interrupt fires, a running
/// machine is decided as `CancelRequested` with the completion count frozen —
/// it does not wait for any still-running task, and whatever events those
/// tasks would have produced later change nothing.
pub proof fn lemma_cancel_immediate(s: Orchestration, later_events: Seq<Event>)
    requires
        s.status == Status::Running,
    ensures
        s.spec_step(Event::InterruptFired).status == Status::Done(Outcome::CancelRequested),
        s.spec_step(Event::InterruptFired).completed == s.completed,
        spec_resolve(s.spec_step(Event::InterruptFired), later_events) == s.spec_step(
            Event::InterruptFired,
        ),
{
    lemma_resolve_terminal(s.spec_step(Event::InterruptFired), later_events);
}

/// The run's final state, together with the time of the deciding event when
/// one of the given events — each paired with the time it was observed, fed
/// in order of arrival — decides the race. `None` means these events leave
/// the race open (or the run was already decided before them).
pub open spec fn spec_resolve_timed(s: Orchestration, events: Seq<(nat, Event)>) -> (
    Orchestration,
    Option<nat>,
)
    decreases events.len(),
{
    if events.len() == 0 || s.status != Status::Running {
        (s, None)
    } else {
        let s1 = s.spec_step(events[0].1);
        if s1.status != Status::Running {
            (s1, Some(events[0].0))
        } else {
            spec_resolve_timed(s1, events.drop_first())
        }
    }
}

/// One completion event at each of the given times.
pub open spec fn spec_completion_schedule(times: Seq<nat>) -> Seq<(nat, Event)> {
    times.map(|i: int, t: nat| (t, Event::TaskCompleted))
}

/// Timed liveness without cancellation: when the tasks still in flight
/// complete at the given times and no interrupt occurs, the run is decided
/// `AllCompleted` by the event at the last of those times — the run resolves
/// the moment the final task finishes, with no further waiting.
pub proof fn lemma_completion_decides_at_last_time(s: Orchestration, times: Seq<nat>)
    requires
        s.wf(),
        s.status == Status::Running,
        times.len() == s.total - s.completed,
    ensures
        spec_resolve_timed(s, spec_completion_schedule(times)).0.status == Status::Done(
            Outcome::AllCompleted,
        ),
        spec_resolve_timed(s, spec_completion_schedule(times)).1 == Some(times.last()),
    decreases times.len(),
{
    let sched = spec_completion_schedule(times);
    assert(sched[0] == (times[0], Event::TaskCompleted));
    let s1 = s.spec_step(Event::TaskCompleted);
    if s1.status == Status::Running {
        assert(sched.drop_first() =~= spec_completion_schedule(times.drop_first()));
        lemma_completion_decides_at_last_time(s1, times.drop_first());
        assert(times.drop_first().last() == times.last());
    } else {
        assert(times.len() == 1);
    }
}

/// With completion times listed in arrival order, the last is the largest:
/// together with [`lemma_completion_decides_at_last_time`], a run of tasks
/// with bounded runtimes resolves at the maximum of those runtimes.
pub proof fn lemma_last_time_is_max(times: Seq<nat>)
    requires
        times.len() > 0,
        forall|i: int, j: int| 0 <= i <= j < times.len() ==> times[i] <= times[j],
    ensures
        forall|i: int| 0 <= i < times.len() ==> times[i] <= times.last(),
{
    assert forall|i: int| 0 <= i < times.len() implies times[i] <= times.last() by {
        assert(times[i] <= times[times.len() - 1]);
    }
}

/// Timed liveness under cancellation: an interrupt firing at time `t` decides
/// a running machine as `CancelRequested` at `t` itself, whatever completions
/// the still-running tasks would have delivered later — the run does not wait
/// for them before reporting its outcome.
pub proof fn lemma_interrupt_decides_at_its_time(
    s: Orchestration,
    t: nat,
    later_events: Seq<(nat, Event)>,
)
    requires
        s.status == Status::Running,
    ensures
        spec_resolve_timed(s, seq![(t, Event::InterruptFired)] + later_events).0.status
            == Status::Done(Outcome::CancelRequested),
        spec_resolve_timed(s, seq![(t, Event::InterruptFired)] + later_events).1 == Some(t),
{
    let sched = seq![(t, Event::InterruptFired)] + later_events;
    assert(sched[0] == (t, Event::InterruptFired));
}

/// Run a whole orchestration from the recorded arrival order of its events:
/// the executable counterpart of [`spec_resolve`], starting from a fresh run
/// over `total` tasks.
pub fn resolve_run(total: usize, events: &Vec<Event>) -> (orch: Orchestration)
    ensures
        orch == spec_resolve(Orchestration::spec_new(total), events@),
        orch.wf(),
{
    let mut orch = Orchestration::new(total);
    let mut i: usize = 0;
    proof {
        assert(events@.skip(0) =~= events@);
    }
    while i < events.len() && orch.is_running()
        invariant
            i <= events.len(),
            orch.wf(),
            spec_resolve(Orchestration::spec_new(total), events@) == spec_resolve(
                orch,
                events@.skip(i as int),
            ),
        decreases events.len() - i,
    {
        let event = events[i];
        orch.step(event);
        proof {
            assert(events@.skip(i as int)[0] == event);
            assert(events@.skip(i as int).drop_first() =~= events@.skip(i as int + 1));
        }
        i = i + 1;
    }
    proof {
        if orch.status != Status::Running {
            lemma_resolve_terminal(orch, events@.skip(i as int));
        } else {
            assert(events@.skip(i as int).len() == 0);
        }
    }
    orch
}

} // verus!
