//! The `/slow-mode` command grammar and the duration wording used in status
//! text.

use vstd::prelude::*;

use crate::text::{ascii_lower_seq, decimal, push_decimal, to_ascii_lowercase, trim, trim_str};
use crate::time::{Nanos, NANOS_PER_SEC};

verus! {

/// Local slash-command arguments. None of these schedule a model request.
#[derive(Debug, Clone, Copy, PartialEq, Eq)]
pub enum SlowModeAction {
    On,
    Off,
    Status,
}

/// The word the command is keyed on: the argument text trimmed and
/// ASCII-lowercased.
pub open spec fn command_key(args: Seq<char>) -> Seq<char> {
    ascii_lower_seq(trim(args))
}

pub open spec fn usage_message(key: Seq<char>) -> Seq<char> {
    "Usage: /slow-mode [on|off|status] (got `"@ + key + "`)"@
}

/// What `/slow-mode <args>` means: bare, `on`, `enable` and `enabled` turn
/// slow mode on; `off`, `disable` and `disabled` turn it off; `status` shows
/// the status; anything else is refused with the usage text.
pub open spec fn parse_spec(args: Seq<char>) -> Result<SlowModeAction, Seq<char>> {
    let key = command_key(args);
    if key == ""@ || key == "on"@ || key == "enable"@ || key == "enabled"@ {
        Ok(SlowModeAction::On)
    } else if key == "off"@ || key == "disable"@ || key == "disabled"@ {
        Ok(SlowModeAction::Off)
    } else if key == "status"@ {
        Ok(SlowModeAction::Status)
    } else {
        Err(usage_message(key))
    }
}

/// Parses the argument text of `/slow-mode`.
pub fn parse_slow_mode_args(args: &str) -> (r: Result<SlowModeAction, String>)
    ensures
        match (r, parse_spec(args@)) {
            (Ok(a), Ok(b)) => a == b,
            (Err(m), Err(n)) => m@ == n,
            _ => false,
        },
{
    let key = to_ascii_lowercase(trim_str(args));
    if key == String::from_str("") || key == String::from_str("on") || key == String::from_str(
        "enable",
    ) || key == String::from_str("enabled") {
        Ok(SlowModeAction::On)
    } else if key == String::from_str("off") || key == String::from_str("disable") || key
        == String::from_str("disabled") {
        Ok(SlowModeAction::Off)
    } else if key == String::from_str("status") {
        Ok(SlowModeAction::Status)
    } else {
        let mut message = String::from_str("Usage: /slow-mode [on|off|status] (got `");
        message.append(key.as_str());
        message.append("`)");
        Err(message)
    }
}

/// How a duration reads in status text, from its whole seconds: hours and
/// minutes when both are set, whole hours, minutes and seconds under ten
/// minutes, whole minutes, or seconds.
pub open spec fn duration_text(duration: Nanos) -> Seq<char> {
    let total = duration / 1_000_000_000;
    let hours = total / 3600;
    let minutes = (total % 3600) / 60;
    let seconds = total % 60;
    if hours > 0 && minutes > 0 {
        decimal(hours as nat) + "h "@ + decimal(minutes as nat) + "m"@
    } else if hours > 0 {
        decimal(hours as nat) + "h"@
    } else if minutes > 0 && seconds > 0 && minutes < 10 {
        decimal(minutes as nat) + "m "@ + decimal(seconds as nat) + "s"@
    } else if minutes > 0 {
        decimal(minutes as nat) + "m"@
    } else {
        decimal(seconds as nat) + "s"@
    }
}

/// Renders a duration for status text, e.g. `2h 51m`, `1m 13s`, `45s`.
pub fn format_duration(duration: Nanos) -> (s: String)
    requires
        duration / NANOS_PER_SEC <= u64::MAX,
    ensures
        s@ == duration_text(duration),
{
    let total = (duration / NANOS_PER_SEC) as u64;
    let hours = total / 3600;
    let minutes = (total % 3600) / 60;
    let seconds = total % 60;
    let mut s = String::new();
    if hours > 0 && minutes > 0 {
        push_decimal(&mut s, hours);
        s.append("h ");
        push_decimal(&mut s, minutes);
        s.append("m");
    } else if hours > 0 {
        push_decimal(&mut s, hours);
        s.append("h");
    } else if minutes > 0 && seconds > 0 && hours == 0 && minutes < 10 {
        push_decimal(&mut s, minutes);
        s.append("m ");
        push_decimal(&mut s, seconds);
        s.append("s");
    } else if minutes > 0 {
        push_decimal(&mut s, minutes);
        s.append("m");
    } else {
        push_decimal(&mut s, seconds);
        s.append("s");
    }
    proof {
        assert(s@ =~= duration_text(duration));
    }
    s
}

// ---------------------------------------------------------------------------
// The status block
// ---------------------------------------------------------------------------

/// What `/slow-mode status` shows, with the percentages already worded (they
/// are computed in floating point by the rate controller) and the durations
/// as spans.
pub struct StatusText {
    pub enabled: bool,
    pub model: Option<String>,
    pub fast_mode: Option<bool>,
    pub primary_used_percent: Option<String>,
    pub primary_resets_in: Option<Nanos>,
    pub secondary_used_percent: Option<String>,
    pub secondary_resets_in: Option<Nanos>,
    pub estimated_request_cost_percent: Option<String>,
    pub next_eligible_in: Option<Nanos>,
    pub queued_model_requests: usize,
    pub preserving_secondary: bool,
    pub note: Option<String>,
}

pub open spec fn on_off(b: bool) -> Seq<char> {
    if b {
        "ON"@
    } else {
        "OFF"@
    }
}

/// One line when the value is present, none otherwise.
pub open spec fn text_line(value: Option<String>, prefix: Seq<char>, suffix: Seq<char>) -> Seq<
    Seq<char>,
> {
    match value {
        Some(v) => seq![prefix + v@ + suffix],
        None => seq![],
    }
}

pub open spec fn span_line(value: Option<Nanos>, prefix: Seq<char>) -> Seq<Seq<char>> {
    match value {
        Some(d) => seq![prefix + duration_text(d)],
        None => seq![],
    }
}

/// The lines of the status block, in order: the on/off line; the model,
/// Fast mode, usage, reset, cost and next-inference lines when known; the
/// queue length; the longer-term allowance note when it applies; the
/// free-form note.
pub open spec fn status_lines(s: StatusText) -> Seq<Seq<char>> {
    seq!["Slow mode: "@ + on_off(s.enabled)]
        + text_line(s.model, "Model: "@, ""@)
        + match s.fast_mode {
            Some(f) => seq!["Fast mode: "@ + on_off(f)],
            None => seq![],
        }
        + text_line(s.primary_used_percent, "Primary usage: "@, "%"@)
        + span_line(s.primary_resets_in, "Primary reset: "@)
        + text_line(s.secondary_used_percent, "Secondary usage: "@, "%"@)
        + span_line(s.secondary_resets_in, "Secondary reset: "@)
        + text_line(s.estimated_request_cost_percent, "Estimated current request cost: "@, "%"@)
        + span_line(s.next_eligible_in, "Next eligible inference: ~"@)
        + seq!["Queued model requests: "@ + decimal(s.queued_model_requests as nat)]
        + (if s.preserving_secondary {
            seq!["Slow mode is preserving your longer-term allowance."@]
        } else {
            seq![]
        })
        + text_line(s.note, ""@, ""@)
}

/// Lines joined with newlines, without a trailing one.
pub open spec fn join_lines(lines: Seq<Seq<char>>) -> Seq<char>
    decreases lines.len(),
{
    if lines.len() == 0 {
        Seq::empty()
    } else if lines.len() == 1 {
        lines[0]
    } else {
        join_lines(lines.drop_last()) + "\n"@ + lines.last()
    }
}

pub open spec fn span_fits(value: Option<Nanos>) -> bool {
    match value {
        Some(d) => d / 1_000_000_000 <= u64::MAX,
        None => true,
    }
}

/// Appends one more line to a block of at least one line.
pub(crate) fn push_line(out: &mut String, Ghost(lines): Ghost<Seq<Seq<char>>>, line: &str)
    requires
        lines.len() >= 1,
        old(out)@ == join_lines(lines),
    ensures
        final(out)@ == join_lines(lines.push(line@)),
{
    out.append("\n");
    out.append(line);
    assert(lines.push(line@).drop_last() =~= lines);
}

fn line_of(prefix: &str, body: &str, suffix: &str) -> (r: String)
    ensures
        r@ == prefix@ + body@ + suffix@,
{
    let mut line = String::from_str(prefix);
    line.append(body);
    line.append(suffix);
    line
}

/// Appends the line for `value`, when there is one.
fn push_text_line(
    out: &mut String,
    Ghost(lines): Ghost<Seq<Seq<char>>>,
    value: &Option<String>,
    prefix: &str,
    suffix: &str,
)
    requires
        lines.len() >= 1,
        old(out)@ == join_lines(lines),
    ensures
        final(out)@ == join_lines(lines + text_line(*value, prefix@, suffix@)),
{
    match value {
        Some(v) => {
            let line = line_of(prefix, v.as_str(), suffix);
            push_line(out, Ghost(lines), line.as_str());
            assert(lines.push(line@) =~= lines + text_line(*value, prefix@, suffix@));
        },
        None => {
            assert(lines + text_line(*value, prefix@, suffix@) =~= lines);
        },
    }
}

/// Appends the line for the span `value`, when there is one.
fn push_span_line(out: &mut String, Ghost(lines): Ghost<Seq<Seq<char>>>, value: Option<Nanos>, prefix: &str)
    requires
        lines.len() >= 1,
        old(out)@ == join_lines(lines),
        span_fits(value),
    ensures
        final(out)@ == join_lines(lines + span_line(value, prefix@)),
{
    match value {
        Some(d) => {
            let text = format_duration(d);
            let line = line_of(prefix, text.as_str(), "");
            push_line(out, Ghost(lines), line.as_str());
            proof {
                reveal_strlit("");
            }
            assert(line@ =~= prefix@ + duration_text(d));
            assert(lines.push(line@) =~= lines + span_line(value, prefix@));
        },
        None => {
            assert(lines + span_line(value, prefix@) =~= lines);
        },
    }
}

fn on_off_text(b: bool) -> (r: &'static str)
    ensures
        r@ == on_off(b),
{
    if b {
        "ON"
    } else {
        "OFF"
    }
}

/// Renders the `/slow-mode status` block: one line per known field, in a
/// fixed order, joined with newlines.
#[verifier::rlimit(40)]
pub fn render_status(s: &StatusText) -> (r: String)
    requires
        span_fits(s.primary_resets_in),
        span_fits(s.secondary_resets_in),
        span_fits(s.next_eligible_in),
    ensures
        r@ == join_lines(status_lines(*s)),
{
    proof {
        reveal_strlit("");
    }
    let mut out = line_of("Slow mode: ", on_off_text(s.enabled), "");
    let ghost mut lines: Seq<Seq<char>> = seq!["Slow mode: "@ + on_off(s.enabled)];
    assert(out@ =~= "Slow mode: "@ + on_off(s.enabled));
    assert(join_lines(lines) == out@);

    push_text_line(&mut out, Ghost(lines), &s.model, "Model: ", "");
    proof {
        lines = lines + text_line(s.model, "Model: "@, ""@);
    }
    let ghost fast_lines: Seq<Seq<char>> = match s.fast_mode {
        Some(f) => seq!["Fast mode: "@ + on_off(f)],
        None => seq![],
    };
    match s.fast_mode {
        Some(f) => {
            let line = line_of("Fast mode: ", on_off_text(f), "");
            push_line(&mut out, Ghost(lines), line.as_str());
            assert(line@ =~= "Fast mode: "@ + on_off(f));
            assert(lines.push(line@) =~= lines + fast_lines);
        },
        None => {
            assert(lines + fast_lines =~= lines);
        },
    }
    proof {
        lines = lines + fast_lines;
    }
    push_text_line(&mut out, Ghost(lines), &s.primary_used_percent, "Primary usage: ", "%");
    proof {
        lines = lines + text_line(s.primary_used_percent, "Primary usage: "@, "%"@);
    }
    push_span_line(&mut out, Ghost(lines), s.primary_resets_in, "Primary reset: ");
    proof {
        lines = lines + span_line(s.primary_resets_in, "Primary reset: "@);
    }
    push_text_line(&mut out, Ghost(lines), &s.secondary_used_percent, "Secondary usage: ", "%");
    proof {
        lines = lines + text_line(s.secondary_used_percent, "Secondary usage: "@, "%"@);
    }
    push_span_line(&mut out, Ghost(lines), s.secondary_resets_in, "Secondary reset: ");
    proof {
        lines = lines + span_line(s.secondary_resets_in, "Secondary reset: "@);
    }
    push_text_line(
        &mut out,
        Ghost(lines),
        &s.estimated_request_cost_percent,
        "Estimated current request cost: ",
        "%",
    );
    proof {
        lines = lines + text_line(
            s.estimated_request_cost_percent,
            "Estimated current request cost: "@,
            "%"@,
        );
    }
    push_span_line(&mut out, Ghost(lines), s.next_eligible_in, "Next eligible inference: ~");
    proof {
        lines = lines + span_line(s.next_eligible_in, "Next eligible inference: ~"@);
    }
    let mut queued = String::from_str("Queued model requests: ");
    push_decimal(&mut queued, s.queued_model_requests as u64);
    let ghost queued_lines: Seq<Seq<char>> = seq![
        "Queued model requests: "@ + decimal(s.queued_model_requests as nat),
    ];
    push_line(&mut out, Ghost(lines), queued.as_str());
    assert(lines.push(queued@) =~= lines + queued_lines);
    proof {
        lines = lines + queued_lines;
    }
    let ghost note_lines: Seq<Seq<char>> = if s.preserving_secondary {
        seq!["Slow mode is preserving your longer-term allowance."@]
    } else {
        seq![]
    };
    if s.preserving_secondary {
        let note = "Slow mode is preserving your longer-term allowance.";
        push_line(&mut out, Ghost(lines), note);
        assert(lines.push(note@) =~= lines + note_lines);
    } else {
        assert(lines + note_lines =~= lines);
    }
    proof {
        lines = lines + note_lines;
    }
    push_text_line(&mut out, Ghost(lines), &s.note, "", "");
    proof {
        lines = lines + text_line(s.note, ""@, ""@);
    }
    assert(lines == status_lines(*s));
    out
}

} // verus!

verus! {

/// The Fast mode line says what the Fast mode is, whatever else the state
/// holds: when it is known, the block's line after the on/off line (and after
/// the model line, when there is one) reads `Fast mode: ON` when it is on and
/// `Fast mode: OFF` when it is off, whether slow mode itself is on or off.
/// The block always opens with `Slow mode: ON` or `Slow mode: OFF`.
pub proof fn lemma_fast_mode_line(s: StatusText)
    ensures
        status_lines(s).len() >= 2,
        status_lines(s)[0] == "Slow mode: "@ + (if s.enabled {
            "ON"@
        } else {
            "OFF"@
        }),
        s.fast_mode is Some ==> status_lines(s)[if s.model is Some {
            2int
        } else {
            1int
        }] == "Fast mode: "@ + (if s.fast_mode->0 {
            "ON"@
        } else {
            "OFF"@
        }),
{
    let head = seq!["Slow mode: "@ + on_off(s.enabled)] + text_line(s.model, "Model: "@, ""@);
    let p1 = head + match s.fast_mode {
        Some(f) => seq!["Fast mode: "@ + on_off(f)],
        None => seq![],
    };
    let p2 = p1 + text_line(s.primary_used_percent, "Primary usage: "@, "%"@);
    let p3 = p2 + span_line(s.primary_resets_in, "Primary reset: "@);
    let p4 = p3 + text_line(s.secondary_used_percent, "Secondary usage: "@, "%"@);
    let p5 = p4 + span_line(s.secondary_resets_in, "Secondary reset: "@);
    let p6 = p5 + text_line(
        s.estimated_request_cost_percent,
        "Estimated current request cost: "@,
        "%"@,
    );
    let p7 = p6 + span_line(s.next_eligible_in, "Next eligible inference: ~"@);
    let p8 = p7 + seq!["Queued model requests: "@ + decimal(s.queued_model_requests as nat)];
    let p9 = p8 + (if s.preserving_secondary {
        seq!["Slow mode is preserving your longer-term allowance."@]
    } else {
        seq![]
    });
    let all = p9 + text_line(s.note, ""@, ""@);
    assert(all == status_lines(s));
    let k: int = head.len() as int;
    assert(k == if s.model is Some {
        2int
    } else {
        1int
    });
    assert(p8.len() >= p1.len() + 1);
    if s.fast_mode is Some {
        let line = p1[k];
        assert(p2[k] == line);
        assert(p3[k] == line);
        assert(p4[k] == line);
        assert(p5[k] == line);
        assert(p6[k] == line);
        assert(p7[k] == line);
        assert(p8[k] == line);
        assert(p9[k] == line);
        assert(all[k] == line);
    }
    let first = head[0];
    assert(p1[0] == first);
    assert(p2[0] == first);
    assert(p3[0] == first);
    assert(p4[0] == first);
    assert(p5[0] == first);
    assert(p6[0] == first);
    assert(p7[0] == first);
    assert(p8[0] == first);
    assert(p9[0] == first);
    assert(all[0] == first);
}

/// Every known field shows in the status block on a line of its own, under
/// its label: the model, the usage percentages and request cost followed by
/// `%`, the reset and next-inference spans, the queue length (always), the
/// allowance note when the secondary window is being preserved, and the
/// free-form note as it is.
#[verifier::rlimit(30)]
pub proof fn lemma_status_block_shows_each_field(s: StatusText)
    ensures
        status_lines(s).contains(
            "Queued model requests: "@ + decimal(s.queued_model_requests as nat),
        ),
        s.model matches Some(m) ==> status_lines(s).contains("Model: "@ + m@),
        s.primary_used_percent matches Some(u) ==> status_lines(s).contains(
            "Primary usage: "@ + u@ + "%"@,
        ),
        s.primary_resets_in matches Some(d) ==> status_lines(s).contains(
            "Primary reset: "@ + duration_text(d),
        ),
        s.secondary_used_percent matches Some(u) ==> status_lines(s).contains(
            "Secondary usage: "@ + u@ + "%"@,
        ),
        s.secondary_resets_in matches Some(d) ==> status_lines(s).contains(
            "Secondary reset: "@ + duration_text(d),
        ),
        s.estimated_request_cost_percent matches Some(c) ==> status_lines(s).contains(
            "Estimated current request cost: "@ + c@ + "%"@,
        ),
        s.next_eligible_in matches Some(d) ==> status_lines(s).contains(
            "Next eligible inference: ~"@ + duration_text(d),
        ),
        s.preserving_secondary ==> status_lines(s).contains(
            "Slow mode is preserving your longer-term allowance."@,
        ),
        s.note matches Some(n) ==> status_lines(s).contains(n@),
{
    let p0 = seq!["Slow mode: "@ + on_off(s.enabled)];
    let p1 = p0 + text_line(s.model, "Model: "@, ""@);
    let p2 = p1 + match s.fast_mode {
        Some(f) => seq!["Fast mode: "@ + on_off(f)],
        None => seq![],
    };
    let p3 = p2 + text_line(s.primary_used_percent, "Primary usage: "@, "%"@);
    let p4 = p3 + span_line(s.primary_resets_in, "Primary reset: "@);
    let p5 = p4 + text_line(s.secondary_used_percent, "Secondary usage: "@, "%"@);
    let p6 = p5 + span_line(s.secondary_resets_in, "Secondary reset: "@);
    let p7 = p6 + text_line(
        s.estimated_request_cost_percent,
        "Estimated current request cost: "@,
        "%"@,
    );
    let p8 = p7 + span_line(s.next_eligible_in, "Next eligible inference: ~"@);
    let p9 = p8 + seq!["Queued model requests: "@ + decimal(s.queued_model_requests as nat)];
    let p10 = p9 + (if s.preserving_secondary {
        seq!["Slow mode is preserving your longer-term allowance."@]
    } else {
        seq![]
    });
    let all = p10 + text_line(s.note, ""@, ""@);
    assert(all == status_lines(s));
    assert(all[p8.len() as int] == p9[p8.len() as int]);
    if let Some(m) = s.model {
        assert(all[p0.len() as int] == "Model: "@ + m@ + ""@);
        assert("Model: "@ + m@ + ""@ =~= "Model: "@ + m@) by {
            reveal_strlit("");
        }
    }
    if let Some(u) = s.primary_used_percent {
        assert(all[p2.len() as int] == p3[p2.len() as int]);
    }
    if let Some(d) = s.primary_resets_in {
        assert(all[p3.len() as int] == p4[p3.len() as int]);
    }
    if let Some(u) = s.secondary_used_percent {
        assert(all[p4.len() as int] == p5[p4.len() as int]);
    }
    if let Some(d) = s.secondary_resets_in {
        assert(all[p5.len() as int] == p6[p5.len() as int]);
    }
    if let Some(c) = s.estimated_request_cost_percent {
        assert(all[p6.len() as int] == p7[p6.len() as int]);
    }
    if let Some(d) = s.next_eligible_in {
        assert(all[p7.len() as int] == p8[p7.len() as int]);
    }
    if s.preserving_secondary {
        assert(all[p9.len() as int] == p10[p9.len() as int]);
    }
    if let Some(n) = s.note {
        assert(all[p10.len() as int] == ""@ + n@ + ""@);
        assert(""@ + n@ + ""@ =~= n@) by {
            reveal_strlit("");
        }
    }
}

} // verus!
