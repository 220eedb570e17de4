//! Session memory for the Fast/Slow conflict.
//!
//! Enabling slow mode forces the effective service tier off Fast for this
//! session only. The tier that was in effect is restored when slow mode is
//! turned off. Nothing here writes user configuration.

use vstd::prelude::*;

use crate::text::{ascii_lower_seq, to_ascii_lowercase};

verus! {

/// The view of an optional borrowed tier name.
pub open spec fn tier_view(tier: Option<&str>) -> Option<Seq<char>> {
    match tier {
        Some(t) => Some(t@),
        None => None,
    }
}

/// The view of an optional owned tier name.
pub open spec fn owned_tier_view(tier: Option<String>) -> Option<Seq<char>> {
    match tier {
        Some(t) => Some(t@),
        None => None,
    }
}

/// A tier is Fast when its name, ASCII-lowercased, is `fast` or `priority`.
pub open spec fn is_fast(tier: Option<Seq<char>>) -> bool {
    match tier {
        Some(t) => ascii_lower_seq(t) == "fast"@ || ascii_lower_seq(t) == "priority"@,
        None => false,
    }
}

pub open spec fn msg_already_enabled() -> Seq<char> {
    "Slow mode is already enabled for this session."@
}

pub open spec fn msg_fast_paused() -> Seq<char> {
    "Slow mode enabled for this session. Fast mode is paused until Slow mode is turned off."@
}

pub open spec fn msg_enabled() -> Seq<char> {
    "Slow mode enabled for this session."@
}

pub open spec fn msg_already_off() -> Seq<char> {
    "Slow mode is already off."@
}

pub open spec fn msg_disabled() -> Seq<char> {
    "Slow mode disabled for this session."@
}

pub open spec fn msg_fast_rejected() -> Seq<char> {
    "Fast mode stays off while Slow mode is on. Run /slow-mode off first."@
}

/// The latch state: whether slow mode is on and, when enabling it moved the
/// session off a Fast tier, the tier to put back.
pub struct LatchState {
    pub enabled: bool,
    pub saved_tier: Option<Option<Seq<char>>>,
}

/// A tier change asked of the session: `None` leaves the tier alone,
/// `Some(t)` applies tier `t` (`t == None` is the standard tier).
pub type TierChange = Option<Option<Seq<char>>>;

/// The observable part of a latch transition.
pub struct OutcomeView {
    pub directive: TierChange,
    pub message: Seq<char>,
    pub accepted: bool,
}

/// Session memory for the Fast/Slow conflict.
#[derive(Debug, PartialEq, Eq)]
pub struct FastSlowLatch {
    enabled: bool,
    /// Effective tier before slow mode, when it had to be changed.
    saved_tier: Option<Option<String>>,
}

#[derive(Debug, Clone, PartialEq, Eq)]
pub enum TierDirective {
    /// Leave the effective service tier alone.
    Unchanged,
    /// Apply this tier to the session without persisting config.
    /// `None` means the standard / default tier.
    SetSessionTier(Option<String>),
}

#[derive(Debug, Clone, PartialEq, Eq)]
pub struct LatchOutcome {
    pub directive: TierDirective,
    pub message: String,
    pub accepted: bool,
}

impl View for FastSlowLatch {
    type V = LatchState;

    closed spec fn view(&self) -> LatchState {
        LatchState {
            enabled: self.enabled,
            saved_tier: match self.saved_tier {
                Some(t) => Some(owned_tier_view(t)),
                None => None,
            },
        }
    }
}

impl View for TierDirective {
    type V = TierChange;

    open spec fn view(&self) -> TierChange {
        match self {
            TierDirective::Unchanged => None,
            TierDirective::SetSessionTier(t) => Some(owned_tier_view(*t)),
        }
    }
}

impl View for LatchOutcome {
    type V = OutcomeView;

    open spec fn view(&self) -> OutcomeView {
        OutcomeView { directive: self.directive@, message: self.message@, accepted: self.accepted }
    }
}

/// Every latch that can be reached: while off, it keeps no tier to restore.
pub open spec fn latch_ok(s: LatchState) -> bool {
    !s.enabled ==> s.saved_tier is None
}

/// The latch of a fresh session: off, nothing saved.
pub open spec fn initial_latch() -> LatchState {
    LatchState { enabled: false, saved_tier: None }
}

/// State after `/slow-mode` while the session runs at `current`.
pub open spec fn enable_state(s: LatchState, current: Option<Seq<char>>) -> LatchState {
    if s.enabled {
        s
    } else if is_fast(current) {
        LatchState { enabled: true, saved_tier: Some(current) }
    } else {
        LatchState { enabled: true, saved_tier: None }
    }
}

/// What `/slow-mode` answers while the session runs at `current`.
pub open spec fn enable_outcome(s: LatchState, current: Option<Seq<char>>) -> OutcomeView {
    if s.enabled {
        OutcomeView { directive: None, message: msg_already_enabled(), accepted: true }
    } else if is_fast(current) {
        OutcomeView { directive: Some(None), message: msg_fast_paused(), accepted: true }
    } else {
        OutcomeView { directive: None, message: msg_enabled(), accepted: true }
    }
}

/// State after `/slow-mode off`.
pub open spec fn disable_state(s: LatchState) -> LatchState {
    if s.enabled {
        LatchState { enabled: false, saved_tier: None }
    } else {
        s
    }
}

/// What `/slow-mode off` answers.
pub open spec fn disable_outcome(s: LatchState) -> OutcomeView {
    if !s.enabled {
        OutcomeView { directive: None, message: msg_already_off(), accepted: true }
    } else {
        OutcomeView { directive: s.saved_tier, message: msg_disabled(), accepted: true }
    }
}

/// What `/fast` answers: `None` lets it through, `Some` refuses it.
pub open spec fn reject_fast_outcome(s: LatchState) -> Option<OutcomeView> {
    if s.enabled {
        Some(OutcomeView { directive: None, message: msg_fast_rejected(), accepted: false })
    } else {
        None
    }
}

/// The tier the session runs at after applying `change` to `current`.
pub open spec fn apply_change(current: Option<Seq<char>>, change: TierChange) -> Option<
    Seq<char>,
> {
    match change {
        Some(t) => t,
        None => current,
    }
}

fn owned_tier(tier: Option<&str>) -> (r: Option<String>)
    ensures
        owned_tier_view(r) == tier_view(tier),
{
    match tier {
        Some(t) => Some(String::from_str(t)),
        None => None,
    }
}

impl Clone for FastSlowLatch {
    fn clone(&self) -> (c: Self)
        ensures
            c@ == self@,
    {
        proof {
            use_type_invariant(self);
        }
        let saved_tier = match &self.saved_tier {
            None => None,
            Some(tier) => Some(
                match tier {
                    None => None,
                    Some(name) => Some(name.clone()),
                },
            ),
        };
        FastSlowLatch { enabled: self.enabled, saved_tier }
    }
}

impl Default for FastSlowLatch {
    fn default() -> (l: Self)
        ensures
            l@ == initial_latch(),
    {
        FastSlowLatch { enabled: false, saved_tier: None }
    }
}

impl FastSlowLatch {
    /// A latch that is off keeps no tier to restore.
    #[verifier::type_invariant]
    spec fn nothing_saved_while_off(self) -> bool {
        !self.enabled ==> self.saved_tier is None
    }

    pub fn enabled(&self) -> (b: bool)
        ensures
            b == self@.enabled,
            latch_ok(self@),
    {
        proof {
            use_type_invariant(self);
        }
        self.enabled
    }

    /// `/slow-mode` while the session runs at `current_tier`.
    pub fn enable(&mut self, current_tier: Option<&str>) -> (out: LatchOutcome)
        ensures
            latch_ok(old(self)@),
            latch_ok(final(self)@),
            final(self)@ == enable_state(old(self)@, tier_view(current_tier)),
            out@ == enable_outcome(old(self)@, tier_view(current_tier)),
    {
        proof {
            use_type_invariant(&*self);
        }
        if self.enabled {
            return LatchOutcome {
                directive: TierDirective::Unchanged,
                message: String::from_str("Slow mode is already enabled for this session."),
                accepted: true,
            };
        }
        self.enabled = true;
        if is_fast_tier(current_tier) {
            self.saved_tier = Some(owned_tier(current_tier));
            LatchOutcome {
                directive: TierDirective::SetSessionTier(None),
                message: String::from_str(
                    "Slow mode enabled for this session. Fast mode is paused until Slow mode is turned off.",
                ),
                accepted: true,
            }
        } else {
            self.saved_tier = None;
            LatchOutcome {
                directive: TierDirective::Unchanged,
                message: String::from_str("Slow mode enabled for this session."),
                accepted: true,
            }
        }
    }

    /// `/slow-mode off`: restores the tier that enabling replaced.
    pub fn disable(&mut self) -> (out: LatchOutcome)
        ensures
            latch_ok(old(self)@),
            latch_ok(final(self)@),
            final(self)@ == disable_state(old(self)@),
            out@ == disable_outcome(old(self)@),
    {
        proof {
            use_type_invariant(&*self);
        }
        if !self.enabled {
            return LatchOutcome {
                directive: TierDirective::Unchanged,
                message: String::from_str("Slow mode is already off."),
                accepted: true,
            };
        }
        let mut saved: Option<Option<String>> = None;
        std::mem::swap(&mut saved, &mut self.saved_tier);
        self.enabled = false;
        let directive = match saved {
            Some(tier) => TierDirective::SetSessionTier(tier),
            None => TierDirective::Unchanged,
        };
        LatchOutcome {
            directive,
            message: String::from_str("Slow mode disabled for this session."),
            accepted: true,
        }
    }

    /// `/fast` while slow mode is on. This does not call a model.
    pub fn reject_fast(&self) -> (out: Option<LatchOutcome>)
        ensures
            latch_ok(self@),
            match (out, reject_fast_outcome(self@)) {
                (None, None) => true,
                (Some(o), Some(v)) => o@ == v,
                _ => false,
            },
    {
        proof {
            use_type_invariant(self);
        }
        if !self.enabled {
            return None;
        }
        Some(
            LatchOutcome {
                directive: TierDirective::Unchanged,
                message: String::from_str(
                    "Fast mode stays off while Slow mode is on. Run /slow-mode off first.",
                ),
                accepted: false,
            },
        )
    }
}

/// Whether `tier` names the Fast service tier (`fast` or `priority`, in any
/// ASCII case).
pub fn is_fast_tier(tier: Option<&str>) -> (b: bool)
    ensures
        b == is_fast(tier_view(tier)),
{
    match tier {
        Some(t) => {
            let lowered = to_ascii_lowercase(t);
            lowered == String::from_str("fast") || lowered == String::from_str("priority")
        },
        None => false,
    }
}

// ---------------------------------------------------------------------------
// Laws
// ---------------------------------------------------------------------------

/// Fast mode and slow mode are never active together: whatever tier the
/// session ran at, the tier it runs at after `/slow-mode` is not Fast.
pub proof fn lemma_enable_leaves_fast(s: LatchState, current: Option<Seq<char>>)
    requires
        !s.enabled,
    ensures
        !is_fast(apply_change(current, enable_outcome(s, current).directive)),
        enable_state(s, current).enabled,
{
}

/// `/slow-mode` followed by `/slow-mode off` puts back the tier the session
/// ran at, and leaves the latch as it was before.
pub proof fn lemma_enable_then_disable_restores(s: LatchState, current: Option<Seq<char>>)
    requires
        latch_ok(s),
        !s.enabled,
    ensures
        ({
            let on = enable_state(s, current);
            let after_on = apply_change(current, enable_outcome(s, current).directive);
            &&& apply_change(after_on, disable_outcome(on).directive) == current
            &&& disable_state(on) == s
            &&& s == initial_latch()
            &&& latch_ok(on)
        }),
{
}

/// A second `/slow-mode` changes nothing: the saved tier survives and no tier
/// change is asked.
pub proof fn lemma_enable_idempotent(s: LatchState, current: Option<Seq<char>>, again: Option<
    Seq<char>,
>)
    ensures
        enable_state(enable_state(s, current), again) == enable_state(s, current),
        enable_outcome(enable_state(s, current), again).directive is None,
{
}

/// `/fast` is refused exactly while slow mode is on, and a refusal never asks
/// for a tier change.
pub proof fn lemma_reject_fast_iff_enabled(s: LatchState)
    ensures
        reject_fast_outcome(s) is Some <==> s.enabled,
        reject_fast_outcome(s) matches Some(o) ==> o.directive is None && !o.accepted,
{
}

} // verus!
