use codex_slow_mode::gate::{
    any_cancelled, cancel_requested, gate_step, queued_behind, request_shutdown, sleep_slice, GateAction,
    GateEvent, GateStage, TurnCancel,
};
use codex_slow_mode::time::{NANOS_PER_MILLI, NANOS_PER_SEC};
use codex_slow_mode::GateTrace;
use tokio_util::sync::CancellationToken;

#[test]
fn disabled_gate_lets_requests_through_at_once() {
    let (stage, action) = gate_step(GateStage::Arrived, GateEvent::Arrive { enabled: false });
    assert_eq!(stage, GateStage::Finished);
    assert_eq!(action, GateAction::PassThrough);
}

#[test]
fn paced_request_waits_then_is_granted_with_a_trace() {
    let (stage, action) = gate_step(GateStage::Arrived, GateEvent::Arrive { enabled: true });
    assert_eq!(action, GateAction::Lock);
    let (stage, action) = gate_step(
        stage,
        GateEvent::Locked { cancelled: false, enabled: true, now_ms: 1_000 },
    );
    assert_eq!(stage, GateStage::Pacing { started_ms: 1_000 });
    assert_eq!(action, GateAction::Decide);
    let (stage, action) = gate_step(
        stage,
        GateEvent::Decided {
            cancelled: false,
            enabled: true,
            wait: 90 * NANOS_PER_SEC,
            now_ms: 1_000,
        },
    );
    assert_eq!(action, GateAction::Sleep { slice: 15 * NANOS_PER_SEC });
    let (stage, action) = gate_step(
        stage,
        GateEvent::Decided { cancelled: false, enabled: true, wait: 0, now_ms: 91_000 },
    );
    assert_eq!(stage, GateStage::Ready { started_ms: 1_000, waited: 90 * NANOS_PER_SEC });
    assert_eq!(action, GateAction::Confirm);
    let (stage, action) =
        gate_step(stage, GateEvent::Confirm { enabled: true, now_ms: 91_002 });
    assert_eq!(stage, GateStage::Finished);
    assert_eq!(
        action,
        GateAction::Grant {
            trace: GateTrace {
                wait_started_unix_ms: 1_000,
                granted_unix_ms: 91_002,
                waited_ms: 90_000,
            },
            waited: 90 * NANOS_PER_SEC,
        }
    );
}

#[test]
fn cancellation_ends_the_wait() {
    let (stage, action) = gate_step(
        GateStage::Queued,
        GateEvent::Locked { cancelled: true, enabled: true, now_ms: 0 },
    );
    assert_eq!((stage, action), (GateStage::Finished, GateAction::Cancel));
    let (stage, action) = gate_step(
        GateStage::Pacing { started_ms: 0 },
        GateEvent::Decided { cancelled: true, enabled: false, wait: 0, now_ms: 0 },
    );
    assert_eq!((stage, action), (GateStage::Finished, GateAction::Cancel));
}

#[test]
fn disabling_during_the_wait_lets_the_request_through() {
    let (stage, action) = gate_step(
        GateStage::Pacing { started_ms: 0 },
        GateEvent::Decided { cancelled: false, enabled: false, wait: 5 * NANOS_PER_SEC, now_ms: 10 },
    );
    assert_eq!(stage, GateStage::Ready { started_ms: 0, waited: 0 });
    assert_eq!(action, GateAction::Confirm);
    let (stage, action) = gate_step(stage, GateEvent::Confirm { enabled: false, now_ms: 10 });
    assert_eq!((stage, action), (GateStage::Finished, GateAction::PassThrough));
    let (_, action) = gate_step(
        GateStage::Queued,
        GateEvent::Locked { cancelled: false, enabled: false, now_ms: 0 },
    );
    assert_eq!(action, GateAction::PassThrough);
}

#[test]
fn out_of_order_events_are_ignored() {
    let (stage, action) = gate_step(GateStage::Finished, GateEvent::Arrive { enabled: true });
    assert_eq!((stage, action), (GateStage::Finished, GateAction::Ignore));
    let (stage, action) =
        gate_step(GateStage::Queued, GateEvent::Confirm { enabled: true, now_ms: 0 });
    assert_eq!((stage, action), (GateStage::Queued, GateAction::Ignore));
}

#[test]
fn clock_behind_the_start_waits_nothing() {
    let (stage, _) = gate_step(
        GateStage::Pacing { started_ms: 5_000 },
        GateEvent::Decided { cancelled: false, enabled: true, wait: 0, now_ms: 4_000 },
    );
    assert_eq!(stage, GateStage::Ready { started_ms: 5_000, waited: 0 });
}

#[test]
fn sleep_slices() {
    assert_eq!(sleep_slice(0), 0);
    assert_eq!(sleep_slice(300 * NANOS_PER_MILLI), 300 * NANOS_PER_MILLI);
    assert_eq!(sleep_slice(NANOS_PER_SEC), NANOS_PER_SEC);
    assert_eq!(sleep_slice(60 * NANOS_PER_SEC), NANOS_PER_SEC);
    assert_eq!(sleep_slice(60 * NANOS_PER_SEC + 1), 15 * NANOS_PER_SEC);
    assert_eq!(sleep_slice(3600 * NANOS_PER_SEC), 15 * NANOS_PER_SEC);
}

#[test]
fn queued_requests_exclude_the_one_in_flight() {
    assert_eq!(queued_behind(0), 0);
    assert_eq!(queued_behind(1), 0);
    assert_eq!(queued_behind(3), 2);
}

#[test]
fn turn_interrupt_cancels_current_waits_and_starts_fresh() {
    let mut turn = TurnCancel::new();
    let external = CancellationToken::new();
    let shutdown = CancellationToken::new();
    let before = turn.token();
    assert!(!cancel_requested(&external, &before, &shutdown));
    turn.interrupt();
    assert!(cancel_requested(&external, &before, &shutdown));
    let after = turn.token();
    assert!(!cancel_requested(&external, &after, &shutdown));
    request_shutdown(&shutdown);
    assert!(cancel_requested(&external, &after, &shutdown));
    external.cancel();
    assert!(external.is_cancelled());
}

#[test]
fn any_reading_cancels() {
    assert!(!any_cancelled(false, false, false));
    assert!(any_cancelled(true, false, false));
    assert!(any_cancelled(false, true, false));
    assert!(any_cancelled(false, false, true));
}

#[test]
fn shutdown_alone_cancels_a_wait() {
    let turn = TurnCancel::new();
    let external = CancellationToken::new();
    let shutdown = CancellationToken::new();
    let token = turn.token();
    request_shutdown(&shutdown);
    assert!(cancel_requested(&external, &token, &shutdown));
}
