use codex_slow_mode::pacing::{
    account_for_elapsed, pace, plan_window, reset_in, secs_to_ms, telemetry_is_stale,
    trajectory_progress, Cadence, DelayKind, Headroom, UsageReading, WindowPlan,
};
use codex_slow_mode::time::{NANOS_PER_MILLI, NANOS_PER_SEC};

const FALLBACK: u128 = 45 * NANOS_PER_SEC;
const STALE_AFTER: u128 = 180 * NANOS_PER_SEC;
const CAP: u128 = 15 * 60 * NANOS_PER_SEC;

fn keep_previous(previous: u128, _raw: u128) -> u128 {
    previous
}

#[test]
fn seconds_convert_with_overflow_check() {
    assert_eq!(secs_to_ms(10), Some(10_000));
    assert_eq!(secs_to_ms(-3), Some(-3_000));
    assert_eq!(secs_to_ms(i64::MAX / 1000), Some(i64::MAX / 1000 * 1000));
    assert_eq!(secs_to_ms(i64::MAX / 1000 + 1), None);
    assert_eq!(secs_to_ms(i64::MIN), None);
}

#[test]
fn reset_in_counts_down_to_zero() {
    assert_eq!(reset_in(0, None), None);
    assert_eq!(reset_in(0, Some(i64::MAX)), None);
    assert_eq!(reset_in(1_000, Some(61)), Some(60 * NANOS_PER_SEC));
    assert_eq!(reset_in(61_000, Some(61)), Some(0));
    assert_eq!(reset_in(90_000, Some(61)), Some(0));
}

#[test]
fn staleness_of_telemetry() {
    assert!(telemetry_is_stale(0, None, STALE_AFTER));
    assert!(!telemetry_is_stale(180_000, Some(0), STALE_AFTER));
    assert!(telemetry_is_stale(180_001, Some(0), STALE_AFTER));
    // Telemetry from the future is not trusted.
    assert!(telemetry_is_stale(0, Some(1), STALE_AFTER));
    assert!(telemetry_is_stale(i64::MAX, Some(i64::MIN), STALE_AFTER));
}

#[test]
fn plan_missing_telemetry_waits_fallback() {
    let primary = plan_window(0, true, UsageReading::Unavailable, FALLBACK);
    let secondary = plan_window(0, false, UsageReading::Unavailable, FALLBACK);
    assert_eq!(primary, WindowPlan { wait: FALLBACK, kind: DelayKind::Fallback });
    assert_eq!(secondary, WindowPlan { wait: 0, kind: DelayKind::Immediate });
    let mut cadence = Cadence::new();
    assert!(cadence.enable());
    cadence.mark_granted(0);
    let decision = cadence.decide(0, primary, secondary, true, CAP, keep_previous);
    assert_eq!(decision.wait, FALLBACK);
}

#[test]
fn plan_stale_telemetry_waits_fallback() {
    let now = 185_000;
    assert!(telemetry_is_stale(now, Some(0), STALE_AFTER));
    let plan = plan_window(now, true, UsageReading::Unavailable, FALLBACK);
    assert_eq!(plan.wait, FALLBACK);
}

#[test]
fn plan_unreadable_usage_falls_back_on_both_windows() {
    assert_eq!(
        plan_window(0, false, UsageReading::Unreadable, FALLBACK),
        WindowPlan { wait: FALLBACK, kind: DelayKind::Fallback }
    );
}

#[test]
fn plan_past_reset_does_not_block() {
    let reading = UsageReading::Known { reset_ms: Some(10_000), headroom: Headroom::Exhausted };
    let plan = plan_window(51_000, true, reading, FALLBACK);
    assert_eq!(plan, WindowPlan { wait: 0, kind: DelayKind::Immediate });
}

#[test]
fn plan_exhausted_primary_waits_until_reset() {
    let reading =
        UsageReading::Known { reset_ms: Some(30 * 60 * 1000), headroom: Headroom::Exhausted };
    let plan = plan_window(0, true, reading, FALLBACK);
    assert_eq!(plan.kind, DelayKind::UntilReset);
    assert_eq!(plan.wait, 30 * 60 * NANOS_PER_SEC);
    let mut cadence = Cadence::new();
    cadence.enable();
    let secondary = plan_window(0, false, UsageReading::Unavailable, FALLBACK);
    let decision = cadence.decide(0, plan, secondary, false, CAP, keep_previous);
    assert_eq!(decision.wait, 30 * 60 * NANOS_PER_SEC);
    assert!(!decision.update_smoothing);
}

#[test]
fn plan_interval_never_runs_past_reset() {
    let reading = UsageReading::Known {
        reset_ms: Some(100_000),
        headroom: Headroom::Interval { interval_ms: 500_000 },
    };
    assert_eq!(
        plan_window(40_000, true, reading, FALLBACK),
        WindowPlan { wait: 60 * NANOS_PER_SEC, kind: DelayKind::Interval }
    );
    let short = UsageReading::Known {
        reset_ms: Some(100_000),
        headroom: Headroom::Interval { interval_ms: 1_500 },
    };
    assert_eq!(plan_window(40_000, true, short, FALLBACK).wait, 1_500 * NANOS_PER_MILLI);
}

#[test]
fn plan_without_cost_estimate_or_reset() {
    let no_cost =
        UsageReading::Known { reset_ms: Some(100_000), headroom: Headroom::NoCostEstimate };
    assert_eq!(plan_window(0, true, no_cost, FALLBACK).kind, DelayKind::Fallback);
    assert_eq!(plan_window(0, false, no_cost, FALLBACK).kind, DelayKind::Immediate);
    let no_reset = UsageReading::Known { reset_ms: None, headroom: Headroom::Exhausted };
    assert_eq!(plan_window(0, true, no_reset, FALLBACK).wait, FALLBACK);
    let none_left =
        UsageReading::Known { reset_ms: Some(2_000), headroom: Headroom::NoRequestsLeft };
    assert_eq!(
        plan_window(0, true, none_left, FALLBACK),
        WindowPlan { wait: 2 * NANOS_PER_SEC, kind: DelayKind::UntilReset }
    );
}

#[test]
fn elapsed_time_counts_toward_the_gap() {
    let raw = 200 * NANOS_PER_SEC;
    // Before any grant, only a window waiting for its reset holds the request.
    assert_eq!(account_for_elapsed(0, raw, DelayKind::Interval, None, None), 0);
    assert_eq!(account_for_elapsed(0, raw, DelayKind::UntilReset, None, None), raw);
    // After a grant, the time already spent shortens the wait.
    assert_eq!(account_for_elapsed(1_000, raw, DelayKind::Interval, Some(1_000), None), raw);
    assert_eq!(
        account_for_elapsed(61_000, raw, DelayKind::Interval, Some(1_000), None),
        140 * NANOS_PER_SEC
    );
    assert_eq!(account_for_elapsed(601_000, raw, DelayKind::Interval, Some(1_000), None), 0);
    // The smoothed interval raises the target gap.
    assert_eq!(
        account_for_elapsed(1_000, raw, DelayKind::Interval, Some(1_000), Some(300 * NANOS_PER_SEC)),
        300 * NANOS_PER_SEC
    );
    // A clock behind the last grant counts nothing.
    assert_eq!(account_for_elapsed(0, raw, DelayKind::Interval, Some(1_000), None), raw);
}

#[test]
fn secondary_pressure_is_capped_while_primary_has_allowance() {
    let primary = WindowPlan { wait: 30 * NANOS_PER_SEC, kind: DelayKind::Interval };
    let secondary = WindowPlan { wait: 3 * 3600 * NANOS_PER_SEC, kind: DelayKind::Interval };
    let capped = pace(true, 0, primary, secondary, true, CAP, Some(0), None);
    assert!(capped.preserving_secondary);
    assert_eq!(capped.raw_wait, CAP);
    assert_eq!(capped.wait, CAP);
    assert!(capped.wait > 60 * NANOS_PER_SEC);
    // Without primary allowance the secondary wait is not capped.
    let uncapped = pace(true, 0, primary, secondary, false, CAP, Some(0), None);
    assert!(!uncapped.preserving_secondary);
    assert_eq!(uncapped.wait, 3 * 3600 * NANOS_PER_SEC);
    // A primary waiting for its reset is never overridden by the cap.
    let resetting = WindowPlan { wait: 60 * NANOS_PER_SEC, kind: DelayKind::UntilReset };
    let held = pace(true, 0, resetting, secondary, true, CAP, Some(0), None);
    assert!(!held.preserving_secondary);
    assert_eq!(held.wait, 3 * 3600 * NANOS_PER_SEC);
}

#[test]
fn disabled_pacer_does_not_wait() {
    let plan = WindowPlan { wait: 3600 * NANOS_PER_SEC, kind: DelayKind::UntilReset };
    let mut cadence = Cadence::new();
    cadence.enable();
    cadence.disable();
    let decision = cadence.decide(0, plan, plan, false, CAP, keep_previous);
    assert_eq!(decision.wait, 0);
    assert!(!cadence.is_enabled());
}

#[test]
fn cadence_learns_and_forgets_the_interval() {
    let primary = WindowPlan { wait: 100 * NANOS_PER_SEC, kind: DelayKind::Interval };
    let secondary = WindowPlan { wait: 0, kind: DelayKind::Immediate };
    let mut cadence = Cadence::new();
    assert!(cadence.enable());
    assert!(!cadence.enable());
    cadence.mark_granted(0);
    let first = cadence.decide(0, primary, secondary, true, CAP, |p, r| (p + r) / 2);
    assert_eq!(first.wait, 100 * NANOS_PER_SEC);
    assert_eq!(cadence.smoothed_interval(), Some(100 * NANOS_PER_SEC));
    let faster = WindowPlan { wait: 50 * NANOS_PER_SEC, kind: DelayKind::Interval };
    let second = cadence.decide(10_000, faster, secondary, true, CAP, |p, r| (p + r) / 2);
    // The target is the learned 100s, of which 10s already passed.
    assert_eq!(second.wait, 90 * NANOS_PER_SEC);
    assert_eq!(cadence.smoothed_interval(), Some(75 * NANOS_PER_SEC));
    cadence.restart_smoothing();
    assert_eq!(cadence.smoothed_interval(), None);
    assert_eq!(cadence.last_grant_ms(), Some(0));
    cadence.disable();
    assert!(cadence.enable());
    assert_eq!(cadence.last_grant_ms(), None);
}

#[test]
fn trajectory_progress_is_clamped_to_the_window() {
    assert_eq!(trajectory_progress(0, None, 5), None);
    assert_eq!(trajectory_progress(10, Some(10), 5), None);
    assert_eq!(trajectory_progress(0, Some(1_000), 250), Some((250, 1_000)));
    assert_eq!(trajectory_progress(0, Some(1_000), -5), Some((0, 1_000)));
    assert_eq!(trajectory_progress(0, Some(1_000), 5_000), Some((1_000, 1_000)));
}

#[test]
fn first_request_after_enable_goes_at_once_unless_spent() {
    let paced = WindowPlan { wait: 120 * NANOS_PER_SEC, kind: DelayKind::Interval };
    let quiet = WindowPlan { wait: 0, kind: DelayKind::Immediate };
    let mut cadence = Cadence::new();
    cadence.enable();
    assert_eq!(cadence.decide(0, paced, quiet, true, CAP, keep_previous).wait, 0);
    let spent = WindowPlan { wait: 120 * NANOS_PER_SEC, kind: DelayKind::UntilReset };
    assert_eq!(
        cadence.decide(0, spent, quiet, false, CAP, keep_previous).wait,
        120 * NANOS_PER_SEC
    );
}
