use codex_slow_mode::simulate::{
    fixed_wait, format_ms, mode_name, render_simulation_report, Mode, ReportRow, SimulationReport,
};
use codex_slow_mode::time::NANOS_PER_MILLI;

#[test]
fn mode_names() {
    assert_eq!(mode_name(Mode::Normal), "normal");
    assert_eq!(mode_name(Mode::Fixed), "fixed-delay");
    assert_eq!(mode_name(Mode::Adaptive), "adaptive");
}

#[test]
fn fixed_delay_counts_time_already_spent() {
    assert_eq!(fixed_wait(None, 1_000), 0);
    assert_eq!(fixed_wait(Some(1_000), 1_000), 45_000 * NANOS_PER_MILLI);
    assert_eq!(fixed_wait(Some(0), 10_000), 35_000 * NANOS_PER_MILLI);
    assert_eq!(fixed_wait(Some(0), 4 * 60 * 1000), 0);
    assert_eq!(fixed_wait(Some(5_000), 1_000), 45_000 * NANOS_PER_MILLI);
}

#[test]
fn simulated_time_wording() {
    assert_eq!(format_ms(0), "0s");
    assert_eq!(format_ms(8_999), "8s");
    assert_eq!(format_ms(59_999), "59s");
    assert_eq!(format_ms(60_000), "1m 00s");
    assert_eq!(format_ms(29 * 60_000 + 15_000), "29m 15s");
    assert_eq!(format_ms(3_600_000), "1h 00m");
    assert_eq!(format_ms(5 * 3_600_000 + 14 * 60_000 + 59_000), "5h 14m");
}

#[test]
fn report_holds_markdown() {
    let report = SimulationReport { markdown: render_simulation_report(&Vec::new()) };
    assert!(report.markdown.starts_with("# Slow Mode simulation\n\n"));
    assert!(report.markdown.ends_with("the first live rate-limit sample can take over."));
}

fn row(workload: &str, mode: Mode, completion_ms: u64, peak: &str, exhausted: bool, idle_ms: u64, requests: u64) -> ReportRow {
    ReportRow {
        workload: workload.to_string(),
        mode,
        completion_ms,
        peak_used: peak.to_string(),
        exhausted,
        idle_ms,
        requests,
        quality_changes: 0,
    }
}

#[test]
fn report_table_rows() {
    let rows = vec![
        row("many cheap turns", Mode::Normal, 8_000, "26.0", false, 0, 40),
        row("80% already consumed", Mode::Fixed, 18 * 60_000, "110.0", true, 17 * 60_000 + 55_000, 25),
        row("many cheap turns", Mode::Adaptive, 5 * 3_600_000 + 14 * 60_000, "18.0", false, 5 * 3_600_000 + 14 * 60_000, 40),
    ];
    let expected = [
        "# Slow Mode simulation",
        "",
        "Deterministic fake clock. Quality-affecting changes are model, reasoning, tool, and prompt changes. Slow Mode keeps that count at zero and only moves request start times.",
        "",
        "| Workload | Mode | Completion | Peak use before reset | Exhausted before reset | Inserted idle | Requests | Quality changes |",
        "| --- | --- | ---: | ---: | --- | ---: | ---: | ---: |",
        "| many cheap turns | normal | 8s | 26.0% | no | 0s | 40 | 0 |",
        "| 80% already consumed | fixed-delay | 18m 00s | 110.0% | yes | 17m 55s | 25 | 0 |",
        "| many cheap turns | adaptive | 5h 14m | 18.0% | no | 5h 14m | 40 | 0 |",
        "",
        "Fallback interval when telemetry is missing: 45s. That is long enough that a burst of follow-up turns no longer fits in a couple of seconds, and short enough that the first live rate-limit sample can take over.",
    ]
    .join("\n");
    assert_eq!(render_simulation_report(&rows), expected);
}
