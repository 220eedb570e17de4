//! The request lock: the decisions a model request goes through before it may
//! be sent.
//!
//! While slow mode is on, model requests of a session share one request lock. A
//! request queues for the request lock, then waits, holding it, until the pacing
//! decision says the next request may start; the permit it is handed keeps
//! the request lock until the response stream ends. The runtime performs the waiting
//! and the locking; `gate_step` decides, from what the runtime observed, what
//! it does next.

use vstd::prelude::*;

use tokio_util::sync::CancellationToken;

use crate::time::{Nanos, NANOS_PER_MILLI, NANOS_PER_SEC};

verus! {

// ---------------------------------------------------------------------------
// Cancellation signals
// ---------------------------------------------------------------------------

/// `tokio_util::sync::CancellationToken`, carried as an opaque value.
#[verifier::external_type_specification]
#[verifier::external_body]
pub struct ExCancellationToken(CancellationToken);

/// `CancellationToken::new`: a token in the non-cancelled state, on a node of
/// its own. The source allocates a fresh `Arc` for it, and the crate's
/// `PartialEq` compares tokens by that `Arc`, so the new token differs from
/// `live`, a token that is still held while the new one is made. Whether a
/// token is cancelled later depends on every clone of it, so no contract
/// speaks of that.
#[verifier::external_body]
fn new_token(live: Option<&CancellationToken>) -> (res: CancellationToken)
    ensures
        live matches Some(other) ==> res != *other,
{
    CancellationToken::new()
}

/// `CancellationToken::cancel`: cancels the token, its clones and its
/// children, and wakes the tasks waiting on them.
#[verifier::external_body]
fn cancel_token(token: &CancellationToken) {
    token.cancel()
}

/// `CancellationToken::is_cancelled`. The answer depends on cancellations
/// made through any clone, by any task; no contract speaks of it.
#[verifier::external_body]
fn token_is_cancelled(token: &CancellationToken) -> bool {
    token.is_cancelled()
}

/// `<CancellationToken as Clone>::clone`: a handle on the same
/// cancellation node as `token` (the source clones the inner `Arc`, and the
/// crate's `PartialEq` calls such tokens equal), so it is cancelled whenever
/// `token` is, and the other way round.
#[verifier::external_body]
fn clone_token(token: &CancellationToken) -> (res: CancellationToken)
    ensures
        res == *token,
{
    token.clone()
}

/// The cancellation that a turn interrupt (Ctrl-C) sends to the pacing waits
/// of a session. Interrupting cancels the waits that hold the current token
/// and installs a fresh one, so slow mode stays on for the next request.
pub struct TurnCancel {
    token: CancellationToken,
}

impl TurnCancel {
    pub fn new() -> Self {
        TurnCancel { token: new_token(None) }
    }

    /// Cancels the waits under way and starts a fresh token for the
    /// requests that follow: the token handed out from now on is not the one
    /// that was cancelled.
    pub fn interrupt(&mut self)
        ensures
            final(self).current_token() != old(self).current_token(),
    {
        cancel_token(&self.token);
        let fresh = new_token(Some(&self.token));
        self.token = fresh;
    }

    /// The token of the current turn.
    pub closed spec fn current_token(&self) -> CancellationToken {
        self.token
    }

    /// The token a request takes before it starts to wait: the current
    /// turn's token, cancelled together with it.
    pub fn token(&self) -> (t: CancellationToken)
        ensures
            t == self.current_token(),
    {
        clone_token(&self.token)
    }
}

/// Whether a waiting request must stop, from the three cancellation
/// readings: its caller cancelled it, its turn was interrupted, or the
/// session is shutting down. Any one of them is enough.
pub fn any_cancelled(external: bool, turn: bool, shutdown: bool) -> (r: bool)
    ensures
        r == (external || turn || shutdown),
{
    external || turn || shutdown
}

/// Whether a waiting request must stop: `any_cancelled` of the readings of
/// the caller's token, the turn token and the shutdown token. The tokens are
/// shared with other tasks, so the readings are whatever they hold at the
/// call.
pub fn cancel_requested(
    external: &CancellationToken,
    turn: &CancellationToken,
    shutdown: &CancellationToken,
) -> bool {
    let external_cancelled = token_is_cancelled(external);
    let turn_cancelled = token_is_cancelled(turn);
    let shutdown_cancelled = token_is_cancelled(shutdown);
    any_cancelled(external_cancelled, turn_cancelled, shutdown_cancelled)
}

/// Shuts the session's request lock: every wait under `shutdown` ends cancelled.
pub fn request_shutdown(shutdown: &CancellationToken) {
    cancel_token(shutdown)
}

/// When one paced request started waiting, when it was granted, and how long
/// it waited, in milliseconds.
#[derive(Debug, Clone, PartialEq, Eq)]
pub struct GateTrace {
    pub wait_started_unix_ms: i64,
    pub granted_unix_ms: i64,
    pub waited_ms: u64,
}

/// Why a request did not get a permit.
#[derive(Debug)]
pub enum GateError {
    /// The wait was cancelled: by the caller, by a turn interrupt, or by the
    /// session shutting down.
    Cancelled,
}

/// Where a request stands on its way through the request lock.
#[derive(Debug, Clone, PartialEq, Eq)]
pub enum GateStage {
    /// Registered as in flight; the request lock has not been asked for.
    Arrived,
    /// Waiting for exclusive use of the request lock.
    Queued,
    /// Holding the request lock, pacing since `started_ms`.
    Pacing { started_ms: i64 },
    /// The pacing wait is over after `waited`; the grant is to be confirmed.
    Ready { started_ms: i64, waited: Nanos },
    /// A permit was handed out or the request failed.
    Finished,
}

/// What the runtime observed.
#[derive(Debug, Clone, PartialEq, Eq)]
pub enum GateEvent {
    /// Whether slow mode is on as the request arrives.
    Arrive { enabled: bool },
    /// The wait for the request lock ended, holding it unless `cancelled`; whether
    /// slow mode is still on; the clock.
    Locked { cancelled: bool, enabled: bool, now_ms: i64 },
    /// A fresh pacing decision asks for `wait`; cancellation and enablement
    /// as seen just before it; the clock just after it.
    Decided { cancelled: bool, enabled: bool, wait: Nanos, now_ms: i64 },
    /// Whether slow mode is still on as the grant is made; the clock.
    Confirm { enabled: bool, now_ms: i64 },
}

/// What the runtime does next.
#[derive(Debug, Clone, PartialEq, Eq)]
pub enum GateAction {
    /// Hand out a permit that holds no request lock and waited nothing, releasing the
    /// request lock if it is held: slow mode is off.
    PassThrough,
    /// Wait for exclusive use of the request lock, or for a cancellation.
    Lock,
    /// Fail with `GateError::Cancelled`, releasing the request lock if it is held.
    Cancel,
    /// Ask the rate controller for a pacing decision.
    Decide,
    /// Show the pacing message, then sleep for `slice` or until woken, and
    /// decide again.
    Sleep { slice: Nanos },
    /// Check whether slow mode is still on before granting.
    Confirm,
    /// Mark the grant, record `trace`, and hand out a permit holding the request lock
    /// that waited `waited`.
    Grant { trace: GateTrace, waited: Nanos },
    /// The event does not belong to this stage; nothing changes.
    Ignore,
}

/// One sleep between two pacing decisions: waits over a minute are re-checked
/// every 15 seconds, shorter ones every second, and no sleep outlasts the
/// wait.
pub open spec fn sleep_slice_spec(wait: int) -> int {
    if wait > 60_000_000_000 {
        15_000_000_000
    } else if wait < 1_000_000_000 {
        wait
    } else {
        1_000_000_000
    }
}

/// How long a request that started pacing at `started_ms` has waited at
/// `now_ms`: the elapsed milliseconds, never negative.
pub open spec fn waited_spec(started_ms: int, now_ms: int) -> int {
    let d = now_ms - started_ms;
    let sat = if d > i64::MAX {
        i64::MAX as int
    } else if d < i64::MIN {
        i64::MIN as int
    } else {
        d
    };
    if sat > 0 {
        sat * 1_000_000
    } else {
        0
    }
}

/// The transition function of the request lock.
pub open spec fn gate_spec(stage: GateStage, event: GateEvent) -> (GateStage, GateAction) {
    match (stage, event) {
        (GateStage::Arrived, GateEvent::Arrive { enabled }) => if enabled {
            (GateStage::Queued, GateAction::Lock)
        } else {
            (GateStage::Finished, GateAction::PassThrough)
        },
        (GateStage::Queued, GateEvent::Locked { cancelled, enabled, now_ms }) => if cancelled {
            (GateStage::Finished, GateAction::Cancel)
        } else if !enabled {
            (GateStage::Finished, GateAction::PassThrough)
        } else {
            (GateStage::Pacing { started_ms: now_ms }, GateAction::Decide)
        },
        (GateStage::Pacing { started_ms }, GateEvent::Decided { cancelled, enabled, wait, now_ms }) => {
            if cancelled {
                (GateStage::Finished, GateAction::Cancel)
            } else if !enabled {
                (GateStage::Ready { started_ms, waited: 0 }, GateAction::Confirm)
            } else if wait == 0 {
                (
                    GateStage::Ready {
                        started_ms,
                        waited: waited_spec(started_ms as int, now_ms as int) as u128,
                    },
                    GateAction::Confirm,
                )
            } else {
                (
                    GateStage::Pacing { started_ms },
                    GateAction::Sleep { slice: sleep_slice_spec(wait as int) as u128 },
                )
            }
        },
        (GateStage::Ready { started_ms, waited }, GateEvent::Confirm { enabled, now_ms }) => {
            if enabled {
                (
                    GateStage::Finished,
                    GateAction::Grant {
                        trace: GateTrace {
                            wait_started_unix_ms: started_ms,
                            granted_unix_ms: now_ms,
                            waited_ms: (waited / 1_000_000) as u64,
                        },
                        waited,
                    },
                )
            } else {
                (GateStage::Finished, GateAction::PassThrough)
            }
        },
        _ => (stage, GateAction::Ignore),
    }
}

/// The sleep between two pacing decisions for a wait of `wait`.
pub fn sleep_slice(wait: Nanos) -> (s: Nanos)
    ensures
        s as int == sleep_slice_spec(wait as int),
{
    if wait > 60 * NANOS_PER_SEC {
        let fifteen = 15 * NANOS_PER_SEC;
        if fifteen < wait {
            fifteen
        } else {
            wait
        }
    } else if wait < NANOS_PER_SEC {
        wait
    } else {
        NANOS_PER_SEC
    }
}

fn waited_since(started_ms: i64, now_ms: i64) -> (w: Nanos)
    ensures
        w as int == waited_spec(started_ms as int, now_ms as int),
{
    let d = now_ms as i128 - started_ms as i128;
    let sat: i64 = if d > i64::MAX as i128 {
        i64::MAX
    } else if d < i64::MIN as i128 {
        i64::MIN
    } else {
        d as i64
    };
    if sat > 0 {
        let s = sat as u128;
        assert(s * 1_000_000 <= 0x8000_0000_0000_0000 * 1_000_000) by (nonlinear_arith)
            requires
                s <= 0x8000_0000_0000_0000,
        ;
        s * NANOS_PER_MILLI
    } else {
        0
    }
}

/// Advances a request toward its permit on what the runtime observed.
pub fn gate_step(stage: GateStage, event: GateEvent) -> (r: (GateStage, GateAction))
    ensures
        r == gate_spec(stage, event),
{
    match (stage, event) {
        (GateStage::Arrived, GateEvent::Arrive { enabled }) => {
            if enabled {
                (GateStage::Queued, GateAction::Lock)
            } else {
                (GateStage::Finished, GateAction::PassThrough)
            }
        },
        (GateStage::Queued, GateEvent::Locked { cancelled, enabled, now_ms }) => {
            if cancelled {
                (GateStage::Finished, GateAction::Cancel)
            } else if !enabled {
                (GateStage::Finished, GateAction::PassThrough)
            } else {
                (GateStage::Pacing { started_ms: now_ms }, GateAction::Decide)
            }
        },
        (GateStage::Pacing { started_ms }, GateEvent::Decided { cancelled, enabled, wait, now_ms }) => {
            if cancelled {
                (GateStage::Finished, GateAction::Cancel)
            } else if !enabled {
                (GateStage::Ready { started_ms, waited: 0 }, GateAction::Confirm)
            } else if wait == 0 {
                (
                    GateStage::Ready { started_ms, waited: waited_since(started_ms, now_ms) },
                    GateAction::Confirm,
                )
            } else {
                (GateStage::Pacing { started_ms }, GateAction::Sleep { slice: sleep_slice(wait) })
            }
        },
        (GateStage::Ready { started_ms, waited }, GateEvent::Confirm { enabled, now_ms }) => {
            if enabled {
                (
                    GateStage::Finished,
                    GateAction::Grant {
                        trace: GateTrace {
                            wait_started_unix_ms: started_ms,
                            granted_unix_ms: now_ms,
                            waited_ms: (waited / NANOS_PER_MILLI) as u64,
                        },
                        waited,
                    },
                )
            } else {
                (GateStage::Finished, GateAction::PassThrough)
            }
        },
        (stage, _) => (stage, GateAction::Ignore),
    }
}

/// Requests queued behind the one in flight: everything in flight but one.
pub fn queued_behind(inflight: usize) -> (q: usize)
    ensures
        q == (if inflight > 0 { inflight - 1 } else { 0 }),
{
    inflight.saturating_sub(1)
}

// ---------------------------------------------------------------------------
// Laws
// ---------------------------------------------------------------------------

/// A cancellation seen while queued or pacing always ends the request with
/// `Cancelled`, whatever else was observed.
pub proof fn lemma_cancellation_wins(stage: GateStage, event: GateEvent)
    requires
        stage is Queued || stage is Pacing,
        event matches GateEvent::Locked { cancelled, .. } ==> cancelled,
        event matches GateEvent::Decided { cancelled, .. } ==> cancelled,
        stage is Queued ==> event is Locked,
        stage is Pacing ==> event is Decided,
    ensures
        gate_spec(stage, event) == (GateStage::Finished, GateAction::Cancel),
{
}

/// Turning slow mode off during a pacing wait ends the wait and lets the
/// request through without the request lock.
pub proof fn lemma_disable_during_wait_lets_request_through(
    started_ms: i64,
    wait: Nanos,
    now_ms: i64,
    confirm_ms: i64,
)
    ensures
        ({
            let (stage, action) = gate_spec(
                GateStage::Pacing { started_ms },
                GateEvent::Decided { cancelled: false, enabled: false, wait, now_ms },
            );
            &&& action == GateAction::Confirm
            &&& gate_spec(stage, GateEvent::Confirm { enabled: false, now_ms: confirm_ms }) == (
                GateStage::Finished,
                GateAction::PassThrough,
            )
        }),
{
}

/// With slow mode off, a request is let through at once and never queues for
/// the request lock.
pub proof fn lemma_disabled_gate_does_not_serialize()
    ensures
        gate_spec(GateStage::Arrived, GateEvent::Arrive { enabled: false }) == (
            GateStage::Finished,
            GateAction::PassThrough,
        ),
{
}

/// A permit that holds the request lock is granted only once the pacing decision
/// asked for no further wait, and its trace records the wait from the start
/// of pacing to the grant.
pub proof fn lemma_grant_follows_zero_wait(
    started_ms: i64,
    now_ms: i64,
    confirm_ms: i64,
    wait: Nanos,
)
    requires
        wait != 0,
    ensures
        !(gate_spec(
            GateStage::Pacing { started_ms },
            GateEvent::Decided { cancelled: false, enabled: true, wait, now_ms },
        ).1 is Confirm),
        ({
            let (stage, _) = gate_spec(
                GateStage::Pacing { started_ms },
                GateEvent::Decided { cancelled: false, enabled: true, wait: 0, now_ms },
            );
            let waited = waited_spec(started_ms as int, now_ms as int);
            gate_spec(stage, GateEvent::Confirm { enabled: true, now_ms: confirm_ms }) == (
                GateStage::Finished,
                GateAction::Grant {
                    trace: GateTrace {
                        wait_started_unix_ms: started_ms,
                        granted_unix_ms: confirm_ms,
                        waited_ms: (waited / 1_000_000) as u64,
                    },
                    waited: waited as u128,
                },
            )
        }),
{
}

/// Every sleep is positive while a wait remains, never outlasts the wait,
/// and is at most 15 seconds (one second for waits of a minute or less), so
/// the request lock re-checks the decision regularly.
pub proof fn lemma_sleep_slice_bounds(wait: int)
    requires
        wait > 0,
    ensures
        0 < sleep_slice_spec(wait) <= wait,
        sleep_slice_spec(wait) <= 15_000_000_000,
        wait <= 60_000_000_000 ==> sleep_slice_spec(wait) <= 1_000_000_000,
{
}

/// Each action names the event the runtime reports next, and the stage it
/// leaves behind accepts exactly that event: a request driven through the
/// request lock never meets `Ignore`.
pub proof fn lemma_actions_lead_to_matching_stage(stage: GateStage, event: GateEvent)
    ensures
        ({
            let (next, action) = gate_spec(stage, event);
            &&& action is Lock ==> next is Queued
            &&& (action is Decide || action is Sleep) ==> next is Pacing
            &&& action is Confirm ==> next is Ready
            &&& (action is PassThrough || action is Cancel || action is Grant) ==> next is Finished
        }),
{
}

/// A request is refused only when a cancellation was observed: queued
/// requests (subagent calls among them) are delayed, never dropped.
pub proof fn lemma_cancel_only_on_cancellation(stage: GateStage, event: GateEvent)
    ensures
        gate_spec(stage, event).1 is Cancel ==> (event matches GateEvent::Locked { cancelled, .. }
            && cancelled) || (event matches GateEvent::Decided { cancelled, .. } && cancelled),
{
}

} // verus!
