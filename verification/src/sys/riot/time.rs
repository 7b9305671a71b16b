//! The kernel's time stamps.
//!
//! The kernel counts the time since boot in whole seconds and microseconds,
//! 32 bits each.

use vstd::prelude::*;
use crate::time::{Instant, saturate};

verus! {

/// The number of microseconds in a second.
pub const US_PER_SEC: u32 = 1_000_000;

/// The number of nanoseconds in a microsecond.
pub const NS_PER_US: u32 = 1_000;

/// The nanoseconds since boot that a time stamp of the kernel tells.
pub open spec fn timex_nanos(seconds: u32, microseconds: u32) -> nat {
    ((seconds * 1_000_000 + microseconds) * 1_000) as nat
}

/// Reads a time stamp of the kernel, a pair of seconds and microseconds
/// since boot. Microseconds that make up whole seconds are carried over.
pub fn instant_from_timex(seconds: u32, microseconds: u32) -> (instant: Instant)
    ensures
        instant@ == timex_nanos(seconds, microseconds),
        instant == Instant::at(timex_nanos(seconds, microseconds)),
{
    let carry: u32 = microseconds / US_PER_SEC;
    let rest: u32 = microseconds % US_PER_SEC;
    assert(timex_nanos(seconds, microseconds) == saturate(
        (seconds as u64 + carry as u64) * 1_000_000_000 + rest * NS_PER_US,
    ));
    Instant::new(seconds as u64 + carry as u64, rest * NS_PER_US)
}

} // verus!
