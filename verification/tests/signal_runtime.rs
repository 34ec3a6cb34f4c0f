use std::time::Duration;
use task_supervisor::orchestrator::{Event, Orchestration, Outcome, RunError, Status};
use task_supervisor::signal::CancellationSignal;
use task_supervisor::worker::{cooperative_poll, worker_decision, LogEvent, WorkerOutcome};

#[test]
fn trigger_is_idempotent_and_never_reverts() {
    let mut signal = CancellationSignal::new();
    assert!(!signal.is_triggered());
    signal.trigger();
    assert!(signal.is_triggered());
    signal.trigger();
    signal.trigger();
    assert!(signal.is_triggered());
}

#[test]
fn subscription_shares_the_cancellation_state() {
    let mut signal = CancellationSignal::new();
    let token = signal.subscribe();
    assert!(!token.is_cancelled());
    signal.trigger();
    assert!(token.is_cancelled());
}

#[test]
fn waiter_arriving_after_trigger_resolves_at_once() {
    let mut signal = CancellationSignal::new();
    signal.trigger();
    let token = signal.subscribe();
    let rt = tokio::runtime::Runtime::new().unwrap();
    let woke = rt.block_on(async {
        tokio::time::timeout(Duration::from_secs(5), token.cancelled()).await.is_ok()
    });
    assert!(woke);
}

#[test]
fn waiter_parked_before_trigger_is_released() {
    let mut signal = CancellationSignal::new();
    let token = signal.subscribe();
    let rt = tokio::runtime::Runtime::new().unwrap();
    let released = rt.block_on(async {
        let waiter = tokio::spawn(async move {
            token.cancelled().await;
        });
        tokio::time::sleep(Duration::from_millis(5)).await;
        signal.trigger();
        tokio::time::timeout(Duration::from_secs(5), waiter).await.is_ok()
    });
    assert!(released);
}

#[test]
fn cooperative_poll_follows_the_signal() {
    let mut signal = CancellationSignal::new();
    assert_eq!(cooperative_poll(&signal), WorkerOutcome::Completed);
    signal.trigger();
    assert_eq!(cooperative_poll(&signal), WorkerOutcome::CancelledEarly);
}

#[test]
fn cooperative_task_exits_early_when_cancellation_wins_its_race() {
    // The interrupt fires at ~5 time units while the cooperative task still
    // has ~60 units of delay left: cancellation wins the task's own race and
    // the task ends without its completion side effect.
    let mut signal = CancellationSignal::new();
    let token = signal.subscribe();
    let rt = tokio::runtime::Runtime::new().unwrap();
    let mut orch = Orchestration::new(1);
    let cancel_won = rt.block_on(async {
        let watcher = tokio::spawn(async move {
            tokio::time::sleep(Duration::from_millis(5)).await;
        });
        watcher.await.unwrap();
        signal.trigger();
        tokio::time::timeout(Duration::from_millis(60), token.cancelled()).await.is_ok()
    });
    assert!(cancel_won);
    if orch.is_running() {
        orch.step(Event::InterruptFired);
    }
    assert_eq!(orch.status, Status::Done(Outcome::CancelRequested));
    let outcome = worker_decision(true, cancel_won);
    assert_eq!(outcome, WorkerOutcome::CancelledEarly);
    assert_eq!(
        task_supervisor::worker::worker_trace(2, outcome),
        vec![LogEvent::Started(2)]
    );
}

#[test]
fn three_concurrent_tasks_complete_naturally() {
    // Three tasks with equal delays, no interrupt: every handle resolves, and
    // feeding the three completions decides the run as AllCompleted.
    let rt = tokio::runtime::Runtime::new().unwrap();
    let mut orch = Orchestration::new(3);
    let mut finished: usize = 0;
    rt.block_on(async {
        let mut handles = Vec::new();
        for id in 1..=3u32 {
            handles.push(tokio::spawn(async move {
                tokio::time::sleep(Duration::from_millis(30)).await;
                id
            }));
        }
        for handle in handles {
            if handle.await.is_ok() {
                finished += 1;
            }
        }
    });
    assert_eq!(finished, 3);
    for _ in 0..finished {
        if orch.is_running() && orch.completed < orch.total {
            orch.step(Event::TaskCompleted);
        }
    }
    assert_eq!(orch.status, Status::Done(Outcome::AllCompleted));
    assert_eq!(orch.completed, 3);
}

#[test]
fn failed_interrupt_mechanism_aborts_without_any_cancellation() {
    // The interrupt mechanism cannot be installed: the run fails fatally and
    // no task was ever observed as cancelled through the signal.
    let signal = CancellationSignal::new();
    let mut orch = Orchestration::new(3);
    orch.step(Event::InterruptFailed);
    assert_eq!(orch.status, Status::Failed(RunError::InterruptUnavailable));
    assert!(!signal.is_triggered());
    assert_eq!(cooperative_poll(&signal), WorkerOutcome::Completed);
}
