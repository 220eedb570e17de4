//! The integer side of the pacing rules.
//!
//! The rate controller estimates request cost and pacing intervals from
//! percentages; those estimates arrive here as discrete readings and whole
//! milliseconds. What is decided here: which schedule a usage window puts the
//! next request on, how long the secondary window may hold it, how the time
//! already spent since the previous grant shortens the wait, and whether the
//! telemetry is still fresh enough to trust.

use vstd::prelude::*;

use crate::time::{Nanos, NANOS_PER_MILLI};

verus! {

/// Which rule set a window's wait.
#[derive(Debug, Clone, Copy, PartialEq, Eq)]
pub enum DelayKind {
    /// No wait from this window.
    Immediate,
    /// Spread the remaining allowance over the time left in the window.
    Interval,
    /// The allowance is spent: wait for the window to reset.
    UntilReset,
    /// Telemetry cannot be used: wait the fallback interval.
    Fallback,
}

/// How much allowance a window has left, as the rate controller estimated it
/// from the usage percentage and the smoothed request cost.
#[derive(Debug, Clone, Copy, PartialEq, Eq)]
pub enum Headroom {
    /// The usable allowance (after the reserve) is at or below the floor.
    Exhausted,
    /// No request cost has been observed yet.
    NoCostEstimate,
    /// The allowance affords no further request at the estimated cost.
    NoRequestsLeft,
    /// The pacing interval between requests, in whole milliseconds, before it
    /// is bounded by the time left until the reset.
    Interval { interval_ms: u64 },
}

/// What the telemetry says about one usage window.
#[derive(Debug, Clone, Copy, PartialEq, Eq)]
pub enum UsageReading {
    /// The telemetry is stale, or the snapshot has no such window.
    Unavailable,
    /// The window's usage percentage is not a finite number.
    Unreadable,
    /// The usage is known; the reset instant is in unix milliseconds when the
    /// window reports one that fits.
    Known { reset_ms: Option<i64>, headroom: Headroom },
}

/// The wait one window asks for, and why.
#[derive(Debug, Clone, Copy, PartialEq, Eq)]
pub struct WindowPlan {
    pub wait: Nanos,
    pub kind: DelayKind,
}

/// The outcome of one pacing decision.
#[derive(Debug, Clone, Copy, PartialEq, Eq)]
pub struct Pace {
    /// How long the next request still has to wait.
    pub wait: Nanos,
    /// The wait the windows ask for before time already spent is counted.
    pub raw_wait: Nanos,
    /// The secondary window asked for more than the cap, and the cap applies.
    pub preserving_secondary: bool,
    /// The smoothed interval takes `raw_wait` as a new sample.
    pub update_smoothing: bool,
}

// ---------------------------------------------------------------------------
// Specifications
// ---------------------------------------------------------------------------

pub open spec fn clamp_i64(v: int) -> int {
    if v < i64::MIN {
        i64::MIN as int
    } else if v > i64::MAX {
        i64::MAX as int
    } else {
        v
    }
}

/// `i64::checked_mul(secs, 1000)`.
pub open spec fn secs_to_ms_spec(secs: int) -> Option<int> {
    let ms = secs * 1000;
    if i64::MIN <= ms && ms <= i64::MAX {
        Some(ms)
    } else {
        None
    }
}

/// Milliseconds from `now_ms` until `reset_ms`, as a duration.
pub open spec fn until_reset(now_ms: int, reset_ms: int) -> int {
    (reset_ms - now_ms) * 1_000_000
}

/// The wait and kind one window asks for at `now_ms`.
pub open spec fn plan_spec(now_ms: int, primary: bool, reading: UsageReading, fallback: int) -> (
    int,
    DelayKind,
) {
    let none_or_fallback = if primary {
        (fallback, DelayKind::Fallback)
    } else {
        (0, DelayKind::Immediate)
    };
    match reading {
        UsageReading::Unavailable => none_or_fallback,
        UsageReading::Unreadable => (fallback, DelayKind::Fallback),
        UsageReading::Known { reset_ms, headroom } => match reset_ms {
            None => none_or_fallback,
            Some(reset) => if now_ms >= reset {
                (0, DelayKind::Immediate)
            } else {
                match headroom {
                    Headroom::Exhausted => (until_reset(now_ms, reset as int), DelayKind::UntilReset),
                    Headroom::NoCostEstimate => none_or_fallback,
                    Headroom::NoRequestsLeft => (
                        until_reset(now_ms, reset as int),
                        DelayKind::UntilReset,
                    ),
                    Headroom::Interval { interval_ms } => {
                        let until = until_reset(now_ms, reset as int);
                        let interval = interval_ms * 1_000_000;
                        (if interval < until { interval } else { until }, DelayKind::Interval)
                    },
                }
            },
        },
    }
}

pub open spec fn max_int(a: int, b: int) -> int {
    if a >= b {
        a
    } else {
        b
    }
}

/// The wait that remains once the time since the previous grant is counted.
pub open spec fn elapsed_wait_spec(
    now_ms: int,
    raw_wait: int,
    primary_kind: DelayKind,
    last_grant_ms: Option<i64>,
    smoothed: Option<u128>,
) -> int {
    match last_grant_ms {
        None => if primary_kind == DelayKind::UntilReset {
            raw_wait
        } else {
            0
        },
        Some(last) => if now_ms < last {
            raw_wait
        } else {
            let elapsed = (now_ms - last) * 1_000_000;
            let target = max_int(
                match smoothed {
                    Some(s) => s as int,
                    None => raw_wait,
                },
                raw_wait,
            );
            if target - elapsed > 0 {
                target - elapsed
            } else {
                0
            }
        },
    }
}

/// Whether the secondary window's wait is held to the cap: it asks for more
/// than the cap from a real schedule, while the primary window still has
/// allowance and is not itself waiting for its reset.
pub open spec fn caps_secondary(
    primary: WindowPlan,
    secondary: WindowPlan,
    primary_has_headroom: bool,
    cap: int,
) -> bool {
    &&& (secondary.kind == DelayKind::UntilReset || secondary.kind == DelayKind::Interval)
    &&& secondary.wait > cap
    &&& primary_has_headroom
    &&& primary.kind != DelayKind::UntilReset
}

/// The wait both windows ask for together.
pub open spec fn raw_wait_spec(
    primary: WindowPlan,
    secondary: WindowPlan,
    primary_has_headroom: bool,
    cap: int,
) -> int {
    let secondary_wait = if caps_secondary(primary, secondary, primary_has_headroom, cap) {
        cap
    } else {
        secondary.wait as int
    };
    max_int(primary.wait as int, secondary_wait)
}

/// The decision `pace` makes.
pub open spec fn pace_spec(
    enabled: bool,
    now_ms: int,
    primary: WindowPlan,
    secondary: WindowPlan,
    primary_has_headroom: bool,
    cap: int,
    last_grant_ms: Option<i64>,
    smoothed: Option<u128>,
) -> Pace {
    if !enabled {
        Pace { wait: 0, raw_wait: 0, preserving_secondary: false, update_smoothing: false }
    } else {
        let raw = raw_wait_spec(primary, secondary, primary_has_headroom, cap);
        let wait = elapsed_wait_spec(now_ms, raw, primary.kind, last_grant_ms, smoothed);
        Pace {
            wait: wait as u128,
            raw_wait: raw as u128,
            preserving_secondary: caps_secondary(primary, secondary, primary_has_headroom, cap),
            update_smoothing: wait != 0 && primary.kind != DelayKind::UntilReset,
        }
    }
}

/// Whether the telemetry observed at `observed_ms` is too old at `now_ms`.
pub open spec fn stale_spec(now_ms: int, observed_ms: Option<i64>, stale_after: int) -> bool {
    match observed_ms {
        None => true,
        Some(obs) => {
            let age = clamp_i64(now_ms - obs);
            age < 0 || age * 1_000_000 > stale_after
        },
    }
}

// ---------------------------------------------------------------------------
// Functions
// ---------------------------------------------------------------------------

/// Seconds to milliseconds, `None` when the product leaves `i64`.
pub fn secs_to_ms(secs: i64) -> (r: Option<i64>)
    ensures
        match (r, secs_to_ms_spec(secs as int)) {
            (Some(a), Some(b)) => a == b,
            (None, None) => true,
            _ => false,
        },
{
    secs.checked_mul(1000)
}

/// Milliseconds from `now_ms` to `reset_ms` as a duration; callers pass
/// `now_ms < reset_ms`.
fn span_until(now_ms: i64, reset_ms: i64) -> (r: Nanos)
    requires
        now_ms < reset_ms,
    ensures
        r == until_reset(now_ms as int, reset_ms as int),
{
    let diff = (reset_ms as i128 - now_ms as i128) as u128;
    assert(diff < 0x1_0000_0000_0000_0000);
    assert(diff * 1_000_000 < 0x1_0000_0000_0000_0000 * 1_000_000) by (nonlinear_arith)
        requires
            diff < 0x1_0000_0000_0000_0000,
    ;
    diff * NANOS_PER_MILLI
}

/// Time left until a window resets: `None` without a usable reset
/// timestamp, zero once the reset has passed.
pub fn reset_in(now_ms: i64, resets_at_unix_secs: Option<i64>) -> (r: Option<Nanos>)
    ensures
        match resets_at_unix_secs {
            None => r is None,
            Some(secs) => match secs_to_ms_spec(secs as int) {
                None => r is None,
                Some(reset) => r == Some(
                    if reset <= now_ms {
                        0
                    } else {
                        until_reset(now_ms as int, reset) as u128
                    },
                ),
            },
        },
{
    let secs = match resets_at_unix_secs {
        Some(s) => s,
        None => return None,
    };
    let reset_ms = match secs_to_ms(secs) {
        Some(ms) => ms,
        None => return None,
    };
    if reset_ms <= now_ms {
        return Some(0);
    }
    Some(span_until(now_ms, reset_ms))
}

/// Whether telemetry observed at `observed_unix_ms` (`None`: never) is too
/// old at `now_ms`: it is stale when it lies in the future or is older than
/// `stale_after`.
pub fn telemetry_is_stale(now_ms: i64, observed_unix_ms: Option<i64>, stale_after: Nanos) -> (r:
    bool)
    ensures
        r == stale_spec(now_ms as int, observed_unix_ms, stale_after as int),
{
    let observed = match observed_unix_ms {
        Some(o) => o,
        None => return true,
    };
    let diff = now_ms as i128 - observed as i128;
    let age: i64 = if diff < i64::MIN as i128 {
        i64::MIN
    } else if diff > i64::MAX as i128 {
        i64::MAX
    } else {
        diff as i64
    };
    if age < 0 {
        return true;
    }
    let age_u = age as u128;
    assert(age_u * 1_000_000 <= 0x8000_0000_0000_0000 * 1_000_000) by (nonlinear_arith)
        requires
            age_u <= 0x8000_0000_0000_0000,
    ;
    age_u * NANOS_PER_MILLI > stale_after
}

/// The wait one usage window asks for at `now_ms`.
///
/// Unusable telemetry puts the primary window on the fallback interval and
/// leaves the secondary window out; a reset in the past asks for nothing; a
/// spent allowance waits for the reset; otherwise the pacing interval applies,
/// never beyond the reset.
pub fn plan_window(now_ms: i64, primary: bool, reading: UsageReading, fallback: Nanos) -> (p:
    WindowPlan)
    ensures
        (p.wait as int, p.kind) == plan_spec(now_ms as int, primary, reading, fallback as int),
{
    let none_or_fallback = if primary {
        WindowPlan { wait: fallback, kind: DelayKind::Fallback }
    } else {
        WindowPlan { wait: 0, kind: DelayKind::Immediate }
    };
    match reading {
        UsageReading::Unavailable => none_or_fallback,
        UsageReading::Unreadable => WindowPlan { wait: fallback, kind: DelayKind::Fallback },
        UsageReading::Known { reset_ms, headroom } => {
            let reset = match reset_ms {
                Some(r) => r,
                None => return none_or_fallback,
            };
            if now_ms >= reset {
                return WindowPlan { wait: 0, kind: DelayKind::Immediate };
            }
            let until = span_until(now_ms, reset);
            match headroom {
                Headroom::Exhausted => WindowPlan { wait: until, kind: DelayKind::UntilReset },
                Headroom::NoCostEstimate => none_or_fallback,
                Headroom::NoRequestsLeft => WindowPlan { wait: until, kind: DelayKind::UntilReset },
                Headroom::Interval { interval_ms } => {
                    let interval = (interval_ms as u128) * NANOS_PER_MILLI;
                    WindowPlan {
                        wait: if interval < until {
                            interval
                        } else {
                            until
                        },
                        kind: DelayKind::Interval,
                    }
                },
            }
        },
    }
}

/// The wait left once the time since the previous grant is counted.
///
/// Before any grant only a window waiting for its reset holds the request.
/// After a grant the target gap is the larger of the smoothed interval and
/// the current wait, and the time already spent since the grant counts
/// toward it. A clock that reads earlier than the grant counts nothing.
pub fn account_for_elapsed(
    now_ms: i64,
    raw_wait: Nanos,
    primary_kind: DelayKind,
    last_grant_ms: Option<i64>,
    smoothed_interval: Option<Nanos>,
) -> (w: Nanos)
    ensures
        w as int == elapsed_wait_spec(
            now_ms as int,
            raw_wait as int,
            primary_kind,
            last_grant_ms,
            smoothed_interval,
        ),
{
    let last = match last_grant_ms {
        None => {
            return if matches!(primary_kind, DelayKind::UntilReset) {
                raw_wait
            } else {
                0
            };
        },
        Some(l) => l,
    };
    if now_ms < last {
        return raw_wait;
    }
    let diff = (now_ms as i128 - last as i128) as u128;
    assert(diff * 1_000_000 < 0x1_0000_0000_0000_0000 * 1_000_000) by (nonlinear_arith)
        requires
            diff < 0x1_0000_0000_0000_0000,
    ;
    let elapsed = diff * NANOS_PER_MILLI;
    let interval = match smoothed_interval {
        Some(s) => s,
        None => raw_wait,
    };
    let target = if interval >= raw_wait {
        interval
    } else {
        raw_wait
    };
    target.saturating_sub(elapsed)
}

/// One pacing decision from the two windows' plans.
///
/// A disabled controller never waits. Otherwise the secondary window's wait
/// is held to `secondary_cap` when it would otherwise sleep longer while the
/// primary window still has allowance; the larger of the two waits is then
/// shortened by the time spent since the previous grant.
pub fn pace(
    enabled: bool,
    now_ms: i64,
    primary: WindowPlan,
    secondary: WindowPlan,
    primary_has_headroom: bool,
    secondary_cap: Nanos,
    last_grant_ms: Option<i64>,
    smoothed_interval: Option<Nanos>,
) -> (p: Pace)
    ensures
        p == pace_spec(
            enabled,
            now_ms as int,
            primary,
            secondary,
            primary_has_headroom,
            secondary_cap as int,
            last_grant_ms,
            smoothed_interval,
        ),
{
    if !enabled {
        return Pace { wait: 0, raw_wait: 0, preserving_secondary: false, update_smoothing: false };
    }
    let mut preserving_secondary = false;
    let mut secondary_wait = secondary.wait;
    let secondary_scheduled = matches!(secondary.kind, DelayKind::UntilReset)
        || matches!(secondary.kind, DelayKind::Interval);
    if secondary_scheduled && secondary.wait > secondary_cap && primary_has_headroom
        && !matches!(primary.kind, DelayKind::UntilReset) {
        preserving_secondary = true;
        secondary_wait = secondary_cap;
    }
    let raw_wait = if primary.wait >= secondary_wait {
        primary.wait
    } else {
        secondary_wait
    };
    let wait = account_for_elapsed(now_ms, raw_wait, primary.kind, last_grant_ms, smoothed_interval);
    let update_smoothing = wait != 0 && !matches!(primary.kind, DelayKind::UntilReset);
    Pace { wait, raw_wait, preserving_secondary, update_smoothing }
}

/// Progress along the usage trajectory of an anchored window: the
/// milliseconds elapsed since the anchor, held within the window, and the
/// window's length. `None` when there is no reset or the window is empty.
pub fn trajectory_progress(anchor_ms: i64, reset_ms: Option<i64>, now_ms: i64) -> (r: Option<
    (i64, i64),
>)
    ensures
        match reset_ms {
            None => r is None,
            Some(reset) => {
                let window = clamp_i64(reset - anchor_ms);
                if window <= 0 {
                    r is None
                } else {
                    let e = now_ms - anchor_ms;
                    r == Some(
                        (
                            (if e < 0 {
                                0
                            } else if e > window {
                                window
                            } else {
                                e
                            }) as i64,
                            window as i64,
                        ),
                    )
                }
            },
        },
{
    let reset = match reset_ms {
        Some(r) => r,
        None => return None,
    };
    let w = reset as i128 - anchor_ms as i128;
    let window: i64 = if w < i64::MIN as i128 {
        i64::MIN
    } else if w > i64::MAX as i128 {
        i64::MAX
    } else {
        w as i64
    };
    if window <= 0 {
        return None;
    }
    let e = now_ms as i128 - anchor_ms as i128;
    let elapsed: i64 = if e < 0 {
        0
    } else if e > window as i128 {
        window
    } else {
        e as i64
    };
    Some((elapsed, window))
}

// ---------------------------------------------------------------------------
// Grant history
// ---------------------------------------------------------------------------

/// What the pacer remembers between decisions: whether slow mode is on, when
/// the last request was granted, and the smoothed pacing interval.
#[derive(Debug, Clone, Copy)]
pub struct Cadence {
    enabled: bool,
    last_grant_ms: Option<i64>,
    smoothed_interval: Option<Nanos>,
}

pub struct CadenceView {
    pub enabled: bool,
    pub last_grant_ms: Option<i64>,
    pub smoothed_interval: Option<Nanos>,
}

impl View for Cadence {
    type V = CadenceView;

    closed spec fn view(&self) -> CadenceView {
        CadenceView {
            enabled: self.enabled,
            last_grant_ms: self.last_grant_ms,
            smoothed_interval: self.smoothed_interval,
        }
    }
}

impl Cadence {
    /// Slow mode off, no grant yet, no interval learned.
    pub fn new() -> (c: Self)
        ensures
            c@ == (CadenceView { enabled: false, last_grant_ms: None, smoothed_interval: None }),
    {
        Cadence { enabled: false, last_grant_ms: None, smoothed_interval: None }
    }

    pub fn is_enabled(&self) -> (b: bool)
        ensures
            b == self@.enabled,
    {
        self.enabled
    }

    pub fn last_grant_ms(&self) -> (g: Option<i64>)
        ensures
            g == self@.last_grant_ms,
    {
        self.last_grant_ms
    }

    pub fn smoothed_interval(&self) -> (s: Option<Nanos>)
        ensures
            s == self@.smoothed_interval,
    {
        self.smoothed_interval
    }

    /// Turns pacing on. Returns whether it was off: a fresh start forgets the
    /// previous grant and the learned interval; enabling again changes
    /// nothing.
    pub fn enable(&mut self) -> (started: bool)
        ensures
            started == !old(self)@.enabled,
            started ==> final(self)@ == (CadenceView {
                enabled: true,
                last_grant_ms: None,
                smoothed_interval: None,
            }),
            !started ==> final(self)@ == old(self)@,
    {
        if self.enabled {
            return false;
        }
        self.enabled = true;
        self.last_grant_ms = None;
        self.smoothed_interval = None;
        true
    }

    /// Turns pacing off and forgets the learned interval.
    pub fn disable(&mut self)
        ensures
            final(self)@ == (CadenceView {
                enabled: false,
                last_grant_ms: old(self)@.last_grant_ms,
                smoothed_interval: None,
            }),
    {
        self.enabled = false;
        self.smoothed_interval = None;
    }

    /// Forgets the learned interval, as when the usage window turns over.
    pub fn restart_smoothing(&mut self)
        ensures
            final(self)@ == (CadenceView {
                enabled: old(self)@.enabled,
                last_grant_ms: old(self)@.last_grant_ms,
                smoothed_interval: None,
            }),
    {
        self.smoothed_interval = None;
    }

    /// A request was granted at `now_ms`.
    pub fn mark_granted(&mut self, now_ms: i64)
        ensures
            final(self)@ == (CadenceView {
                enabled: old(self)@.enabled,
                last_grant_ms: Some(now_ms),
                smoothed_interval: old(self)@.smoothed_interval,
            }),
    {
        self.last_grant_ms = Some(now_ms);
    }

    /// One pacing decision at `now_ms` (see `pace`). When the decision says
    /// so, the raw wait becomes the learned interval, or is mixed into it by
    /// `smooth(previous, raw)`.
    pub fn decide<F: Fn(Nanos, Nanos) -> Nanos>(
        &mut self,
        now_ms: i64,
        primary: WindowPlan,
        secondary: WindowPlan,
        primary_has_headroom: bool,
        secondary_cap: Nanos,
        smooth: F,
    ) -> (p: Pace)
        requires
            forall|a: Nanos, b: Nanos| smooth.requires((a, b)),
        ensures
            p == pace_spec(
                old(self)@.enabled,
                now_ms as int,
                primary,
                secondary,
                primary_has_headroom,
                secondary_cap as int,
                old(self)@.last_grant_ms,
                old(self)@.smoothed_interval,
            ),
            final(self)@.enabled == old(self)@.enabled,
            final(self)@.last_grant_ms == old(self)@.last_grant_ms,
            !p.update_smoothing ==> final(self)@.smoothed_interval == old(self)@.smoothed_interval,
            p.update_smoothing ==> match old(self)@.smoothed_interval {
                None => final(self)@.smoothed_interval == Some(p.raw_wait),
                Some(prev) => final(self)@.smoothed_interval matches Some(s) && smooth.ensures(
                    (prev, p.raw_wait),
                    s,
                ),
            },
    {
        let p = pace(
            self.enabled,
            now_ms,
            primary,
            secondary,
            primary_has_headroom,
            secondary_cap,
            self.last_grant_ms,
            self.smoothed_interval,
        );
        if p.update_smoothing {
            self.smoothed_interval = match self.smoothed_interval {
                Some(prev) => Some(smooth(prev, p.raw_wait)),
                None => Some(p.raw_wait),
            };
        }
        p
    }
}

// ---------------------------------------------------------------------------
// Laws
// ---------------------------------------------------------------------------

/// Time spent since the previous grant only ever shortens the wait: with the
/// same schedule, a later decision waits no longer than an earlier one.
pub proof fn lemma_elapsed_time_shrinks_wait(
    earlier_ms: int,
    later_ms: int,
    raw_wait: int,
    primary_kind: DelayKind,
    last_grant_ms: Option<i64>,
    smoothed: Option<u128>,
)
    requires
        earlier_ms <= later_ms,
        raw_wait >= 0,
        last_grant_ms matches Some(last) ==> last <= earlier_ms,
    ensures
        elapsed_wait_spec(later_ms, raw_wait, primary_kind, last_grant_ms, smoothed)
            <= elapsed_wait_spec(earlier_ms, raw_wait, primary_kind, last_grant_ms, smoothed),
{
    assert((later_ms - earlier_ms) * 1_000_000 >= 0) by (nonlinear_arith)
        requires
            later_ms >= earlier_ms,
    ;
    assert(later_ms * 1_000_000 - earlier_ms * 1_000_000 == (later_ms - earlier_ms) * 1_000_000)
        by (nonlinear_arith);
    if let Some(last) = last_grant_ms {
        assert((later_ms - last) * 1_000_000 == (earlier_ms - last) * 1_000_000 + (later_ms
            - earlier_ms) * 1_000_000) by (nonlinear_arith);
    }
}

/// Once the gap since the previous grant covers the target interval (the
/// larger of the smoothed interval and the current wait), the request waits
/// no more: a long shell command already paced it.
pub proof fn lemma_elapsed_time_covers_wait(
    now_ms: int,
    raw_wait: int,
    primary_kind: DelayKind,
    last: i64,
    smoothed: Option<u128>,
)
    requires
        last <= now_ms,
        (now_ms - last) * 1_000_000 >= max_int(
            match smoothed {
                Some(s) => s as int,
                None => raw_wait,
            },
            raw_wait,
        ),
    ensures
        elapsed_wait_spec(now_ms, raw_wait, primary_kind, Some(last), smoothed) == 0,
{
}

/// The wait never exceeds the target gap: the larger of the wait the windows
/// ask for and the smoothed interval.
pub proof fn lemma_wait_bounded_by_target(
    now_ms: int,
    raw_wait: int,
    primary_kind: DelayKind,
    last_grant_ms: Option<i64>,
    smoothed: Option<u128>,
)
    requires
        raw_wait >= 0,
    ensures
        0 <= elapsed_wait_spec(now_ms, raw_wait, primary_kind, last_grant_ms, smoothed),
        elapsed_wait_spec(now_ms, raw_wait, primary_kind, last_grant_ms, smoothed) <= max_int(
            match smoothed {
                Some(s) => s as int,
                None => raw_wait,
            },
            raw_wait,
        ),
{
    if let Some(last) = last_grant_ms {
        if now_ms >= last {
            assert((now_ms - last) * 1_000_000 >= 0) by (nonlinear_arith)
                requires
                    now_ms >= last,
            ;
        }
    }
}

/// While the primary window still has allowance, a multi-day secondary
/// window never makes the request sleep longer than the cap beyond what the
/// primary window itself asks for.
pub proof fn lemma_secondary_sleep_is_capped(
    primary: WindowPlan,
    secondary: WindowPlan,
    cap: int,
)
    requires
        primary.kind != DelayKind::UntilReset,
        secondary.kind == DelayKind::Interval || secondary.kind == DelayKind::UntilReset,
        0 <= cap,
    ensures
        raw_wait_spec(primary, secondary, true, cap) <= max_int(primary.wait as int, cap),
        secondary.wait > cap ==> caps_secondary(primary, secondary, true, cap),
{
}

/// A window whose reset lies in the past never holds the request.
pub proof fn lemma_past_reset_does_not_block(
    now_ms: int,
    primary: bool,
    reset: i64,
    headroom: Headroom,
    fallback: int,
)
    requires
        now_ms >= reset,
    ensures
        plan_spec(now_ms, primary, UsageReading::Known { reset_ms: Some(reset), headroom }, fallback)
            == (0int, DelayKind::Immediate),
{
}

/// With stale or missing telemetry the primary window waits the fallback
/// interval and the secondary window adds nothing.
pub proof fn lemma_unusable_telemetry_falls_back(now_ms: int, fallback: int)
    ensures
        plan_spec(now_ms, true, UsageReading::Unavailable, fallback) == (
            fallback,
            DelayKind::Fallback,
        ),
        plan_spec(now_ms, false, UsageReading::Unavailable, fallback) == (0int, DelayKind::Immediate),
{
}

/// A spent allowance (nothing usable left, or not even one more request at
/// the estimated cost) waits exactly until the reset, and no pacing interval
/// ever runs past the reset.
pub proof fn lemma_plan_never_passes_reset(
    now_ms: int,
    primary: bool,
    reset: i64,
    headroom: Headroom,
    fallback: int,
)
    requires
        now_ms < reset,
        headroom != Headroom::NoCostEstimate,
    ensures
        plan_spec(
            now_ms,
            primary,
            UsageReading::Known { reset_ms: Some(reset), headroom },
            fallback,
        ).0 <= until_reset(now_ms, reset as int),
        headroom == Headroom::Exhausted || headroom == Headroom::NoRequestsLeft ==> plan_spec(
            now_ms,
            primary,
            UsageReading::Known { reset_ms: Some(reset), headroom },
            fallback,
        ) == (until_reset(now_ms, reset as int), DelayKind::UntilReset),
{
}

/// A disabled pacer never holds a request.
pub proof fn lemma_disabled_never_waits(
    now_ms: int,
    primary: WindowPlan,
    secondary: WindowPlan,
    primary_has_headroom: bool,
    cap: int,
    last_grant_ms: Option<i64>,
    smoothed: Option<u128>,
)
    ensures
        pace_spec(
            false,
            now_ms,
            primary,
            secondary,
            primary_has_headroom,
            cap,
            last_grant_ms,
            smoothed,
        ).wait == 0,
{
}

/// Right after slow mode is turned on nothing has been granted yet, so the
/// first request goes at once unless the primary allowance is spent, in
/// which case it waits for the reset.
pub proof fn lemma_first_request_after_enable(
    now_ms: int,
    primary: WindowPlan,
    secondary: WindowPlan,
    primary_has_headroom: bool,
    cap: int,
)
    requires
        cap >= 0,
    ensures
        pace_spec(true, now_ms, primary, secondary, primary_has_headroom, cap, None, None).wait == (
        if primary.kind == DelayKind::UntilReset {
            raw_wait_spec(primary, secondary, primary_has_headroom, cap) as u128
        } else {
            0
        }),
{
}

/// The secondary cap only ever shortens the secondary window's wait: the
/// raw wait is never below the primary wait nor below the smaller of the
/// secondary wait and the cap, never above the larger of the two windows'
/// waits, and a secondary wait within the cap stands as it is.
pub proof fn lemma_cap_only_shortens_secondary(
    now_ms: int,
    primary: WindowPlan,
    secondary: WindowPlan,
    primary_has_headroom: bool,
    cap: int,
    last_grant_ms: Option<i64>,
    smoothed: Option<u128>,
)
    requires
        0 <= cap,
    ensures
        ({
            let p = pace_spec(
                true,
                now_ms,
                primary,
                secondary,
                primary_has_headroom,
                cap,
                last_grant_ms,
                smoothed,
            );
            &&& p.raw_wait >= primary.wait
            &&& p.raw_wait >= secondary.wait || p.raw_wait >= cap
            &&& p.raw_wait <= primary.wait || p.raw_wait <= secondary.wait
            &&& p.preserving_secondary ==> secondary.wait > cap && p.raw_wait < secondary.wait
                || secondary.wait > cap && p.raw_wait == primary.wait
            &&& secondary.wait <= cap ==> !p.preserving_secondary && p.raw_wait == (if primary.wait
                >= secondary.wait {
                primary.wait
            } else {
                secondary.wait
            })
        }),
{
}

/// Right after a grant, with no time elapsed, nothing is discounted: the
/// wait is at least what the windows ask for and at least the learned
/// interval.
pub proof fn lemma_no_elapsed_time_no_discount(
    now: i64,
    raw_wait: int,
    primary_kind: DelayKind,
    smoothed: Option<u128>,
)
    requires
        raw_wait >= 0,
    ensures
        elapsed_wait_spec(now as int, raw_wait, primary_kind, Some(now), smoothed) >= raw_wait,
        smoothed matches Some(s) ==> elapsed_wait_spec(
            now as int,
            raw_wait,
            primary_kind,
            Some(now),
            smoothed,
        ) >= s,
{
}

/// A window's pacing interval applies the same way to the primary and the
/// secondary window: with a reset ahead and a known interval, either window
/// waits the interval, bounded by the time left until the reset. Only the
/// fallback for missing data tells the two windows apart.
pub proof fn lemma_interval_paces_both_windows(
    now_ms: int,
    reset: i64,
    interval_ms: u64,
    fallback: int,
)
    requires
        now_ms < reset,
    ensures
        ({
            let reading = UsageReading::Known {
                reset_ms: Some(reset),
                headroom: Headroom::Interval { interval_ms },
            };
            let until = (reset - now_ms) * 1_000_000;
            &&& plan_spec(now_ms, true, reading, fallback) == plan_spec(
                now_ms,
                false,
                reading,
                fallback,
            )
            &&& plan_spec(now_ms, false, reading, fallback).1 == DelayKind::Interval
            &&& plan_spec(now_ms, false, reading, fallback).0 == (if interval_ms * 1_000_000
                < until {
                interval_ms * 1_000_000
            } else {
                until
            })
        }),
{
}

/// Apart from the fallback for a window without usable data, the plan does
/// not depend on which window it is for.
pub proof fn lemma_plan_same_for_both_windows(
    now_ms: int,
    reset: i64,
    headroom: Headroom,
    fallback: int,
)
    requires
        headroom != Headroom::NoCostEstimate,
    ensures
        ({
            let reading = UsageReading::Known { reset_ms: Some(reset), headroom };
            plan_spec(now_ms, true, reading, fallback) == plan_spec(now_ms, false, reading, fallback)
        }),
{
}

/// Pacing takes the larger of the two windows' waits, the secondary one cut
/// to the cap exactly when the cap applies (and the cap only applies to a
/// secondary wait above it); it learns an interval only from a request that
/// really waits and is not merely waiting for the primary reset.
pub proof fn lemma_pace_takes_larger_wait(
    now_ms: int,
    primary: WindowPlan,
    secondary: WindowPlan,
    primary_has_headroom: bool,
    cap: int,
    last_grant_ms: Option<i64>,
    smoothed: Option<u128>,
)
    requires
        0 <= cap,
    ensures
        ({
            let p = pace_spec(
                true,
                now_ms,
                primary,
                secondary,
                primary_has_headroom,
                cap,
                last_grant_ms,
                smoothed,
            );
            let second: int = if p.preserving_secondary {
                cap
            } else {
                secondary.wait as int
            };
            &&& p.raw_wait == (if primary.wait >= second {
                primary.wait as int
            } else {
                second
            })
            &&& p.preserving_secondary ==> cap < secondary.wait
            &&& p.update_smoothing <==> (p.wait > 0 && primary.kind != DelayKind::UntilReset)
        }),
{
    let raw = raw_wait_spec(primary, secondary, primary_has_headroom, cap);
    let w = elapsed_wait_spec(now_ms, raw, primary.kind, last_grant_ms, smoothed);
    lemma_wait_bounded_by_target(now_ms, raw, primary.kind, last_grant_ms, smoothed);
    assert(w >= 0);
    if let Some(s) = smoothed {
        assert(w <= max_int(s as int, raw));
    }
    assert(w as u128 == w);
}

/// While a request is still waiting, every millisecond that passes takes
/// exactly a millisecond off its wait: the wait counts down with the clock
/// from the target gap set by the previous grant.
pub proof fn lemma_wait_counts_down(
    earlier_ms: int,
    later_ms: int,
    raw_wait: int,
    primary_kind: DelayKind,
    last: i64,
    smoothed: Option<u128>,
)
    requires
        last <= earlier_ms <= later_ms,
        raw_wait >= 0,
        elapsed_wait_spec(later_ms, raw_wait, primary_kind, Some(last), smoothed) > 0,
    ensures
        elapsed_wait_spec(earlier_ms, raw_wait, primary_kind, Some(last), smoothed)
            == elapsed_wait_spec(later_ms, raw_wait, primary_kind, Some(last), smoothed) + (
        later_ms - earlier_ms) * 1_000_000,
{
    assert((later_ms - last) * 1_000_000 == (earlier_ms - last) * 1_000_000 + (later_ms
        - earlier_ms) * 1_000_000) by (nonlinear_arith);
    assert((later_ms - earlier_ms) * 1_000_000 >= 0) by (nonlinear_arith)
        requires
            later_ms >= earlier_ms,
    ;
}

/// The cap holds only while the primary window still has usable allowance:
/// once the primary allowance is gone, or the primary window is itself
/// waiting for its reset, the secondary window's wait stands in full.
pub proof fn lemma_no_cap_without_primary_allowance(
    now_ms: int,
    primary: WindowPlan,
    secondary: WindowPlan,
    primary_has_headroom: bool,
    cap: int,
    last_grant_ms: Option<i64>,
    smoothed: Option<u128>,
)
    requires
        !primary_has_headroom || primary.kind == DelayKind::UntilReset,
    ensures
        ({
            let p = pace_spec(
                true,
                now_ms,
                primary,
                secondary,
                primary_has_headroom,
                cap,
                last_grant_ms,
                smoothed,
            );
            &&& !p.preserving_secondary
            &&& p.raw_wait == (if primary.wait >= secondary.wait {
                primary.wait
            } else {
                secondary.wait
            })
        }),
{
}

/// A clock that reads earlier than the previous grant discounts nothing:
/// the request waits what the windows ask for.
pub proof fn lemma_clock_behind_grant_discounts_nothing(
    now_ms: int,
    raw_wait: int,
    primary_kind: DelayKind,
    last: i64,
    smoothed: Option<u128>,
)
    requires
        now_ms < last,
    ensures
        elapsed_wait_spec(now_ms, raw_wait, primary_kind, Some(last), smoothed) == raw_wait,
{
}

} // verus!
