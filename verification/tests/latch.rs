use codex_slow_mode::{is_fast_tier, FastSlowLatch, TierDirective};

#[test]
fn fast_is_paused_and_restored_without_a_second_mode() {
    let mut latch = FastSlowLatch::default();
    let enabled = latch.enable(Some("priority"));
    assert!(enabled.accepted);
    assert_eq!(enabled.directive, TierDirective::SetSessionTier(None));
    let rejected = latch.reject_fast().expect("fast conflicts");
    assert!(!rejected.accepted);
    assert_eq!(rejected.directive, TierDirective::Unchanged);
    assert!(latch.enabled());
    let disabled = latch.disable();
    assert_eq!(
        disabled.directive,
        TierDirective::SetSessionTier(Some("priority".to_string()))
    );
    assert!(!latch.enabled());
    assert!(latch.reject_fast().is_none());
}

#[test]
fn standard_tier_is_left_alone() {
    let mut latch = FastSlowLatch::default();
    let enabled = latch.enable(Some("default"));
    assert_eq!(enabled.directive, TierDirective::Unchanged);
    let disabled = latch.disable();
    assert_eq!(disabled.directive, TierDirective::Unchanged);
}

#[test]
fn fast_tier_names_ignore_ascii_case() {
    assert!(is_fast_tier(Some("fast")));
    assert!(is_fast_tier(Some("FAST")));
    assert!(is_fast_tier(Some("Priority")));
    assert!(!is_fast_tier(Some("default")));
    assert!(!is_fast_tier(Some("flex")));
    assert!(!is_fast_tier(Some(" fast")));
    assert!(!is_fast_tier(None));
}

#[test]
fn enable_messages_and_saved_tier() {
    let mut latch = FastSlowLatch::default();
    let first = latch.enable(Some("Fast"));
    assert_eq!(
        first.message,
        "Slow mode enabled for this session. Fast mode is paused until Slow mode is turned off."
    );
    let again = latch.enable(Some("default"));
    assert_eq!(again.directive, TierDirective::Unchanged);
    assert_eq!(again.message, "Slow mode is already enabled for this session.");
    assert!(again.accepted);
    let off = latch.disable();
    assert_eq!(off.directive, TierDirective::SetSessionTier(Some("Fast".to_string())));
    assert_eq!(off.message, "Slow mode disabled for this session.");
    let off_again = latch.disable();
    assert_eq!(off_again.directive, TierDirective::Unchanged);
    assert_eq!(off_again.message, "Slow mode is already off.");
}

#[test]
fn enable_without_tier_and_reject_message() {
    let mut latch = FastSlowLatch::default();
    let on = latch.enable(None);
    assert_eq!(on.directive, TierDirective::Unchanged);
    assert_eq!(on.message, "Slow mode enabled for this session.");
    let rejected = latch.reject_fast().expect("slow mode is on");
    assert_eq!(
        rejected.message,
        "Fast mode stays off while Slow mode is on. Run /slow-mode off first."
    );
    // Enable then disable returns to the fresh latch.
    latch.disable();
    assert_eq!(latch, FastSlowLatch::default());
}
