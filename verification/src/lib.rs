//! Session-scoped pacing for model inference requests.
//!
//! Slow mode decides when the next billable model request may start. It does
//! not change the model, the reasoning effort, the tools or the prompt. This
//! crate holds the decisions: the Fast/Slow latch, the slash-command grammar,
//! the integer side of the pacing rules, the thread registry that lets child
//! threads share their parent's pacer, and the request lock's state machine.

pub mod gate;
pub mod latch;
pub mod pacing;
pub mod registry;
pub mod simulate;
pub mod status;
pub mod text;
pub mod time;

pub use gate::{GateError, GateTrace};
pub use latch::{is_fast_tier, FastSlowLatch, LatchOutcome, TierDirective};
pub use registry::{cancel_waits, note_parent, reset_for_tests, shutdown_thread};
pub use simulate::{render_simulation_report, ReportRow, SimulationReport};
pub use status::{format_duration, parse_slow_mode_args, render_status, SlowModeAction, StatusText};

use vstd::prelude::*;

verus! {

/// Slow mode never writes Codex config. The next process starts unpaced.
pub const PERSISTS_TO_GLOBAL_CONFIG: bool = false;

/// Flex processing is not enabled by slow mode: subscription sessions stay on
/// standard routing plus pacing.
pub const ENABLES_FLEX_PROCESSING: bool = false;

} // verus!
