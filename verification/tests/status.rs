use codex_slow_mode::time::NANOS_PER_SEC;
use codex_slow_mode::{
    render_status, StatusText, format_duration, parse_slow_mode_args, SlowModeAction, ENABLES_FLEX_PROCESSING,
    PERSISTS_TO_GLOBAL_CONFIG,
};

#[test]
fn bare_and_on_enable() {
    assert_eq!(parse_slow_mode_args("").unwrap(), SlowModeAction::On);
    assert_eq!(parse_slow_mode_args("on").unwrap(), SlowModeAction::On);
    assert_eq!(parse_slow_mode_args("  ON ").unwrap(), SlowModeAction::On);
}

#[test]
fn off_and_status_parse() {
    assert_eq!(parse_slow_mode_args("off").unwrap(), SlowModeAction::Off);
    assert_eq!(
        parse_slow_mode_args("status").unwrap(),
        SlowModeAction::Status
    );
}

#[test]
fn unknown_args_do_not_default_to_enable() {
    assert!(parse_slow_mode_args("faster").is_err());
}

#[test]
fn session_enable_does_not_persist_global_config() {
    assert!(!PERSISTS_TO_GLOBAL_CONFIG);
    assert!(!ENABLES_FLEX_PROCESSING);
}

#[test]
fn synonyms_and_unicode_whitespace() {
    assert_eq!(parse_slow_mode_args("Enable").unwrap(), SlowModeAction::On);
    assert_eq!(parse_slow_mode_args("enabled").unwrap(), SlowModeAction::On);
    assert_eq!(parse_slow_mode_args("\t\n").unwrap(), SlowModeAction::On);
    assert_eq!(parse_slow_mode_args("DISABLE").unwrap(), SlowModeAction::Off);
    assert_eq!(parse_slow_mode_args("disabled\n").unwrap(), SlowModeAction::Off);
    assert_eq!(
        parse_slow_mode_args("\u{3000}status\u{a0}").unwrap(),
        SlowModeAction::Status
    );
}

#[test]
fn usage_error_names_the_normalised_argument() {
    assert_eq!(
        parse_slow_mode_args("  Faster ").unwrap_err(),
        "Usage: /slow-mode [on|off|status] (got `faster`)"
    );
    assert_eq!(
        parse_slow_mode_args("o n").unwrap_err(),
        "Usage: /slow-mode [on|off|status] (got `o n`)"
    );
}

#[test]
fn duration_wording() {
    let s = NANOS_PER_SEC;
    assert_eq!(format_duration(0), "0s");
    assert_eq!(format_duration(45 * s), "45s");
    assert_eq!(format_duration(45 * s + 999_999_999), "45s");
    assert_eq!(format_duration(73 * s), "1m 13s");
    assert_eq!(format_duration(60 * s), "1m");
    assert_eq!(format_duration((9 * 60 + 59) * s), "9m 59s");
    assert_eq!(format_duration((10 * 60 + 5) * s), "10m");
    assert_eq!(format_duration((2 * 3600 + 51 * 60) * s), "2h 51m");
    assert_eq!(format_duration(3 * 3600 * s), "3h");
    assert_eq!(format_duration((3 * 3600 + 20) * s), "3h");
}

fn status_text() -> StatusText {
    StatusText {
        enabled: true,
        model: Some("gpt-5.4".to_string()),
        fast_mode: Some(false),
        primary_used_percent: Some("43".to_string()),
        primary_resets_in: Some((2 * 3600 + 51 * 60) * NANOS_PER_SEC),
        secondary_used_percent: None,
        secondary_resets_in: None,
        estimated_request_cost_percent: Some("0.8".to_string()),
        next_eligible_in: Some(73 * NANOS_PER_SEC),
        queued_model_requests: 1,
        preserving_secondary: false,
        note: None,
    }
}

#[test]
fn status_omits_unknown_fields() {
    let rendered = render_status(&status_text());
    assert!(rendered.contains("Slow mode: ON"));
    assert!(rendered.contains("Model: gpt-5.4"));
    assert!(rendered.contains("Fast mode: OFF"));
    assert!(rendered.contains("Primary usage: 43%"));
    assert!(rendered.contains("Primary reset: 2h 51m"));
    assert!(rendered.contains("Estimated current request cost: 0.8%"));
    assert!(rendered.contains("Next eligible inference: ~1m 13s"));
    assert!(rendered.contains("Queued model requests: 1"));
    assert!(!rendered.contains("Secondary"));
}

#[test]
fn status_block_lines_in_order() {
    assert_eq!(
        render_status(&status_text()),
        "Slow mode: ON\nModel: gpt-5.4\nFast mode: OFF\nPrimary usage: 43%\nPrimary reset: 2h 51m\nEstimated current request cost: 0.8%\nNext eligible inference: ~1m 13s\nQueued model requests: 1"
    );
    let all = StatusText {
        enabled: false,
        model: None,
        fast_mode: None,
        primary_used_percent: None,
        primary_resets_in: None,
        secondary_used_percent: Some("91".to_string()),
        secondary_resets_in: Some(3 * 24 * 3600 * NANOS_PER_SEC),
        estimated_request_cost_percent: None,
        next_eligible_in: None,
        queued_model_requests: 12,
        preserving_secondary: true,
        note: Some("Fast mode is paused.".to_string()),
    };
    assert_eq!(
        render_status(&all),
        "Slow mode: OFF\nSecondary usage: 91%\nSecondary reset: 72h\nQueued model requests: 12\nSlow mode is preserving your longer-term allowance.\nFast mode is paused."
    );
}
