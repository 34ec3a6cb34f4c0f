//! The cancellation signal: a shared, one-way, idempotent flag that any task
//! can observe to detect a shutdown request.
//!
//! The executable type wraps `tokio_util::sync::CancellationToken`; its ghost
//! state records whether `trigger` has run. All cancellations of the token go
//! through `trigger`: clones handed out by `subscribe` are awaited by tasks,
//! never cancelled by them.

use vstd::prelude::*;

verus! {

/// Declares tokio_util's `CancellationToken` so that it can stand in
/// signatures and fields; a value of it is opaque to the verifier.
#[verifier::external_type_specification]
#[verifier::external_body]
pub struct ExCancellationToken(tokio_util::sync::CancellationToken);

/// A broadcastable, idempotent, observable cancellation flag.
///
/// The state is a single boolean, initially false; the transition false→true
/// is one-way. Exactly one `CancellationSignal` exists per orchestration run;
/// tasks that want cooperative cancellation hold a subscription to it.
pub struct CancellationSignal {
    token: tokio_util::sync::CancellationToken,
    state: Ghost<bool>,
}

impl CancellationSignal {
    /// Whether a shutdown request has been broadcast through this signal.
    pub closed spec fn triggered(&self) -> bool {
        self.state@
    }

    /// Relies on `CancellationToken::new`: it returns a token in the
    /// non-cancelled state.
    #[verifier::external_body]
    pub fn new() -> (s: CancellationSignal)
        ensures
            !s.triggered(),
    {
        CancellationSignal {
            token: tokio_util::sync::CancellationToken::new(),
            state: Ghost(false),
        }
    }

    /// Broadcast the shutdown request. Safe to call any number of times: the
    /// first call wakes every waiter, later calls are pure no-ops, and the
    /// state after the call does not depend on the state before it.
    ///
    /// Relies on `CancellationToken::cancel`: it cancels the token and every
    /// clone of it, and wakes all tasks waiting for cancellation.
    #[verifier::external_body]
    pub fn trigger(&mut self)
        ensures
            final(self).triggered(),
    {
        self.token.cancel();
    }

    /// Observe the current state of the flag.
    ///
    /// Relies on `CancellationToken::is_cancelled`: it returns true exactly
    /// when the token has been cancelled, and the token is cancelled only by
    /// `trigger`.
    #[verifier::external_body]
    pub fn is_triggered(&self) -> (r: bool)
        ensures
            r == self.triggered(),
    {
        self.token.is_cancelled()
    }

    /// A handle for a task to await cancellation on
    /// (`CancellationToken::cancelled().await` resolves when `trigger` runs,
    /// immediately if it already has).
    ///
    /// Relies on `CancellationToken::clone`: the clone shares the cancellation
    /// state with this signal's token, in both directions.
    #[verifier::external_body]
    pub fn subscribe(&self) -> tokio_util::sync::CancellationToken {
        self.token.clone()
    }
}

/// The signal together with its registered waiters, as a ghost state machine.
///
/// The flag of a [`CancellationSignal`] corresponds to `triggered`; the waiter
/// set stands for the tasks currently suspended in a wait for the signal,
/// which at run time live inside the token's wake list. A waiter is
/// identified by an arbitrary integer.
#[verifier::ext_equal]
pub struct SignalModel {
    pub triggered: bool,
    pub waiters: Set<int>,
}

/// The effect of `trigger` on the signal and its waiters: the flag is set and
/// every registered waiter is released, whatever the state before — so a
/// second trigger finds nothing left to do.
pub open spec fn spec_trigger(m: SignalModel) -> SignalModel {
    SignalModel { triggered: true, waiters: Set::empty() }
}

/// The effect of one waiter `w` starting a wait for the signal: on a
/// triggered signal the wait resolves at once and nothing is registered;
/// otherwise the waiter is parked until the trigger releases it.
pub open spec fn spec_register(m: SignalModel, w: int) -> SignalModel {
    if m.triggered {
        m
    } else {
        SignalModel { triggered: m.triggered, waiters: m.waiters.insert(w) }
    }
}

/// Whether a wait started in state `m` resolves without suspending.
pub open spec fn spec_wait_resolves_at_once(m: SignalModel) -> bool {
    m.triggered
}

/// Idempotence law: triggering any number of times N >= 1 has the same effect
/// as triggering once — the state after a trigger does not depend on the
/// state before it, so every trigger after the first is a pure no-op.
pub proof fn lemma_trigger_idempotent(m1: SignalModel, m2: SignalModel)
    ensures
        spec_trigger(spec_trigger(m1)) == spec_trigger(m1),
        spec_trigger(m1) == spec_trigger(m2),
{
    assert(spec_trigger(spec_trigger(m1)) =~= spec_trigger(m1));
    assert(spec_trigger(m1) =~= spec_trigger(m2));
}

/// Monotonicity law: the flag only ever goes false→true and never reverts —
/// no transition of the signal clears it.
pub proof fn lemma_triggered_is_stable(m: SignalModel, w: int)
    requires
        m.triggered,
    ensures
        spec_trigger(m).triggered,
        spec_register(m, w).triggered,
{
}

/// No-missed-wakeup law: a trigger releases every registered waiter, and a
/// waiter that starts its wait after the trigger has run resolves at once,
/// without ever being parked.
pub proof fn lemma_no_missed_wakeup(m: SignalModel, w: int)
    ensures
        spec_trigger(m).waiters.is_empty(),
        spec_wait_resolves_at_once(spec_trigger(m)),
        spec_register(spec_trigger(m), w) == spec_trigger(m),
{
}

} // verus!
