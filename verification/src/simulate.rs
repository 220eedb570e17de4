//! The pacing simulation report: the fixed-delay baseline, the names of the
//! compared modes, the wording of simulated times, and the report table.

use vstd::prelude::*;

use crate::status::{join_lines, push_line};
use crate::text::{decimal, decimal_2, push_decimal, push_decimal_2};
use crate::time::{Nanos, NANOS_PER_MILLI};

verus! {

/// The simulation report, as markdown.
pub struct SimulationReport {
    pub markdown: String,
}

/// How the simulated requests are paced.
#[derive(Debug, Clone, Copy, PartialEq, Eq)]
pub enum Mode {
    /// No pacing.
    Normal,
    /// A fixed 45-second gap between grants.
    Fixed,
    /// The slow-mode pacer.
    Adaptive,
}

pub open spec fn mode_name_spec(mode: Mode) -> Seq<char> {
    match mode {
        Mode::Normal => "normal"@,
        Mode::Fixed => "fixed-delay"@,
        Mode::Adaptive => "adaptive"@,
    }
}

/// The name a mode has in the report.
pub fn mode_name(mode: Mode) -> (s: &'static str)
    ensures
        s@ == mode_name_spec(mode),
{
    match mode {
        Mode::Normal => "normal",
        Mode::Fixed => "fixed-delay",
        Mode::Adaptive => "adaptive",
    }
}

/// The gap the fixed-delay baseline inserts: 45 seconds between grants, less
/// the time already spent since the previous grant; nothing before the first
/// grant.
pub fn fixed_wait(last_grant_ms: Option<u64>, now_ms: u64) -> (w: Nanos)
    ensures
        w == match last_grant_ms {
            None => 0,
            Some(last) => {
                let since = if now_ms >= last {
                    now_ms - last
                } else {
                    0
                };
                (if since < 45_000 {
                    45_000 - since
                } else {
                    0
                }) * 1_000_000
            },
        },
{
    let last = match last_grant_ms {
        Some(l) => l,
        None => return 0,
    };
    let since = now_ms.saturating_sub(last);
    (45_000u64.saturating_sub(since) as u128) * NANOS_PER_MILLI
}

/// How a simulated time reads in the report: `1h 05m`, `3m 07s` or `42s`.
pub open spec fn ms_text(ms: nat) -> Seq<char> {
    let secs = ms / 1000;
    if secs >= 3600 {
        decimal(secs / 3600) + "h "@ + decimal_2((secs % 3600) / 60) + "m"@
    } else if secs >= 60 {
        decimal(secs / 60) + "m "@ + decimal_2(secs % 60) + "s"@
    } else {
        decimal(secs) + "s"@
    }
}

/// Renders a simulated time given in milliseconds.
pub fn format_ms(ms: u64) -> (s: String)
    ensures
        s@ == ms_text(ms as nat),
{
    let secs = ms / 1000;
    let mut s = String::new();
    if secs >= 3600 {
        push_decimal(&mut s, secs / 3600);
        s.append("h ");
        push_decimal_2(&mut s, (secs % 3600) / 60);
        s.append("m");
    } else if secs >= 60 {
        push_decimal(&mut s, secs / 60);
        s.append("m ");
        push_decimal_2(&mut s, secs % 60);
        s.append("s");
    } else {
        push_decimal(&mut s, secs);
        s.append("s");
    }
    proof {
        assert(s@ =~= ms_text(ms as nat));
    }
    s
}

// ---------------------------------------------------------------------------
// The report table
// ---------------------------------------------------------------------------

/// One row of the report: how one workload fared under one mode. The peak
/// usage comes already worded, to one decimal (it is a floating-point
/// percentage).
pub struct ReportRow {
    pub workload: String,
    pub mode: Mode,
    pub completion_ms: u64,
    pub peak_used: String,
    pub exhausted: bool,
    pub idle_ms: u64,
    pub requests: u64,
    pub quality_changes: u32,
}

pub open spec fn report_title() -> Seq<char> {
    "# Slow Mode simulation"@
}

pub open spec fn report_blurb() -> Seq<char> {
    "Deterministic fake clock. Quality-affecting changes are model, reasoning, tool, and prompt changes. Slow Mode keeps that count at zero and only moves request start times."@
}

pub open spec fn report_header() -> Seq<char> {
    "| Workload | Mode | Completion | Peak use before reset | Exhausted before reset | Inserted idle | Requests | Quality changes |"@
}

pub open spec fn report_separator() -> Seq<char> {
    "| --- | --- | ---: | ---: | --- | ---: | ---: | ---: |"@
}

pub open spec fn report_fallback_note() -> Seq<char> {
    "Fallback interval when telemetry is missing: 45s. That is long enough that a burst of follow-up turns no longer fits in a couple of seconds, and short enough that the first live rate-limit sample can take over."@
}

pub open spec fn yes_no(b: bool) -> Seq<char> {
    if b {
        "yes"@
    } else {
        "no"@
    }
}

/// The table line of one row.
pub open spec fn row_line(r: ReportRow) -> Seq<char> {
    "| "@ + r.workload@ + " | "@ + mode_name_spec(r.mode) + " | "@ + ms_text(r.completion_ms as nat)
        + " | "@ + r.peak_used@ + "% | "@ + yes_no(r.exhausted) + " | "@ + ms_text(
        r.idle_ms as nat,
    ) + " | "@ + decimal(r.requests as nat) + " | "@ + decimal(r.quality_changes as nat) + " |"@
}

/// The lines of the report: title, blank, explanation, blank, table header
/// and separator, one line per row in order, blank, and the note on the
/// fallback interval.
pub open spec fn report_lines(rows: Seq<ReportRow>) -> Seq<Seq<char>> {
    seq![report_title(), ""@, report_blurb(), ""@, report_header(), report_separator()]
        + rows.map_values(|r: ReportRow| row_line(r)) + seq![""@, report_fallback_note()]
}

fn row_text(r: &ReportRow) -> (s: String)
    ensures
        s@ == row_line(*r),
{
    let mut s = String::from_str("| ");
    s.append(r.workload.as_str());
    s.append(" | ");
    s.append(mode_name(r.mode));
    s.append(" | ");
    let completion = format_ms(r.completion_ms);
    s.append(completion.as_str());
    s.append(" | ");
    s.append(r.peak_used.as_str());
    s.append("% | ");
    s.append(
        if r.exhausted {
            "yes"
        } else {
            "no"
        },
    );
    s.append(" | ");
    let idle = format_ms(r.idle_ms);
    s.append(idle.as_str());
    s.append(" | ");
    push_decimal(&mut s, r.requests);
    s.append(" | ");
    push_decimal(&mut s, r.quality_changes as u64);
    s.append(" |");
    proof {
        assert(s@ =~= row_line(*r));
    }
    s
}

/// Renders the simulation report as markdown: a fixed preamble, a table
/// with one line per row in the order given, and the fallback note.
pub fn render_simulation_report(rows: &Vec<ReportRow>) -> (s: String)
    ensures
        s@ == join_lines(report_lines(rows@)),
{
    let ghost head: Seq<Seq<char>> = seq![
        report_title(),
        ""@,
        report_blurb(),
        ""@,
        report_header(),
        report_separator(),
    ];
    let mut out = String::from_str("# Slow Mode simulation");
    let ghost mut lines: Seq<Seq<char>> = seq![report_title()];
    push_line(&mut out, Ghost(lines), "");
    proof {
        lines = lines.push(""@);
    }
    push_line(
        &mut out,
        Ghost(lines),
        "Deterministic fake clock. Quality-affecting changes are model, reasoning, tool, and prompt changes. Slow Mode keeps that count at zero and only moves request start times.",
    );
    proof {
        lines = lines.push(report_blurb());
    }
    push_line(&mut out, Ghost(lines), "");
    proof {
        lines = lines.push(""@);
    }
    push_line(
        &mut out,
        Ghost(lines),
        "| Workload | Mode | Completion | Peak use before reset | Exhausted before reset | Inserted idle | Requests | Quality changes |",
    );
    proof {
        lines = lines.push(report_header());
    }
    push_line(&mut out, Ghost(lines), "| --- | --- | ---: | ---: | --- | ---: | ---: | ---: |");
    proof {
        lines = lines.push(report_separator());
        assert(lines =~= head);
    }
    let ghost all_rows = rows@.map_values(|r: ReportRow| row_line(r));
    let mut i: usize = 0;
    while i < rows.len()
        invariant
            i <= rows@.len(),
            head.len() == 6,
            all_rows == rows@.map_values(|r: ReportRow| row_line(r)),
            lines == head + all_rows.take(i as int),
            out@ == join_lines(lines),
        decreases rows@.len() - i,
    {
        let line = row_text(&rows[i]);
        push_line(&mut out, Ghost(lines), line.as_str());
        proof {
            assert(head + all_rows.take(i + 1) =~= (head + all_rows.take(i as int)).push(line@));
            lines = lines.push(line@);
        }
        i = i + 1;
    }
    proof {
        assert(all_rows.take(i as int) =~= all_rows);
    }
    push_line(&mut out, Ghost(lines), "");
    proof {
        lines = lines.push(""@);
    }
    push_line(
        &mut out,
        Ghost(lines),
        "Fallback interval when telemetry is missing: 45s. That is long enough that a burst of follow-up turns no longer fits in a couple of seconds, and short enough that the first live rate-limit sample can take over.",
    );
    proof {
        lines = lines.push(report_fallback_note());
        assert(lines =~= report_lines(rows@));
    }
    out
}

} // verus!

verus! {

/// Each table line names its workload and mode first and ends with that
/// row's count of quality-affecting changes, in decimal, before the closing
/// bar; the request count stands in the column before it.
pub proof fn lemma_row_line_columns(r: ReportRow)
    ensures
        ("| "@ + r.workload@ + " | "@ + mode_name_spec(r.mode) + " | "@).is_prefix_of(row_line(r)),
        (" | "@ + decimal(r.requests as nat) + " | "@ + decimal(r.quality_changes as nat)
            + " |"@).is_suffix_of(row_line(r)),
{
    let head = "| "@ + r.workload@ + " | "@ + mode_name_spec(r.mode) + " | "@;
    let middle = ms_text(r.completion_ms as nat) + " | "@ + r.peak_used@ + "% | "@ + yes_no(
        r.exhausted,
    ) + " | "@ + ms_text(r.idle_ms as nat);
    let tail = " | "@ + decimal(r.requests as nat) + " | "@ + decimal(r.quality_changes as nat)
        + " |"@;
    assert(row_line(r) =~= head + middle + tail);
    assert(head =~= (head + middle + tail).subrange(0, head.len() as int));
    let whole = head + middle + tail;
    assert(tail =~= whole.subrange(whole.len() - tail.len(), whole.len() as int));
}

/// The report lists the rows in the order given, one table line each,
/// between the six-line preamble and the two closing lines.
pub proof fn lemma_report_rows_in_order(rows: Seq<ReportRow>)
    ensures
        report_lines(rows).len() == rows.len() + 8,
        forall|i: int| 0 <= i < rows.len() ==> #[trigger] report_lines(rows)[6 + i] == row_line(rows[i]),
{
    let mapped = rows.map_values(|r: ReportRow| row_line(r));
    let head = seq![report_title(), ""@, report_blurb(), ""@, report_header(), report_separator()];
    assert(report_lines(rows) == head + mapped + seq![""@, report_fallback_note()]);
    assert forall|i: int| 0 <= i < rows.len() implies #[trigger] report_lines(rows)[6 + i] == row_line(
        rows[i],
    ) by {
        assert((head + mapped)[6 + i] == mapped[i]);
    }
}

} // verus!
