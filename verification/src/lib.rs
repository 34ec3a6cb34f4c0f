//! A supervised task group with broadcast cancellation.
//!
//! The crate provides the decision core of a cooperative task-orchestration
//! system: a [`signal::CancellationSignal`] that broadcasts a one-way,
//! idempotent shutdown request, a [`worker::WorkerOutcome`] model of what a
//! cooperatively cancellable unit of work does at its suspension point, and an
//! [`orchestrator::Orchestration`] state machine that races "all tasks
//! finished" against "cancellation requested" and decides the outcome of a
//! run. An asynchronous runtime drives the state machine from outside: it
//! performs the spawns, delays and interrupt waits, and feeds the resulting
//! events back in.

pub mod orchestrator;
pub mod signal;
pub mod worker;
