//! Time units. Durations are counted in nanoseconds, the resolution of
//! `std::time::Duration`, so every duration of the runtime has an exact value
//! here; instants are unix timestamps in milliseconds.

use vstd::prelude::*;

verus! {

/// A span of time in nanoseconds.
pub type Nanos = u128;

pub const NANOS_PER_MILLI: u128 = 1_000_000;

pub const NANOS_PER_SEC: u128 = 1_000_000_000;

/// The longest span a `std::time::Duration` can hold, in nanoseconds.
pub const MAX_DURATION_NANOS: u128 = 18_446_744_073_709_551_615_999_999_999;

/// `Duration::from_millis(ms)` in nanoseconds.
pub open spec fn millis(ms: int) -> int {
    ms * 1_000_000
}

} // verus!
