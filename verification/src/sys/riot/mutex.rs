//! The kernel's mutex.
//!
//! A kernel mutex needs no initialisation beyond its zeroed state and no
//! teardown. Locking and unlocking are single kernel calls; only an attempt
//! to lock has an answer to read.

use vstd::prelude::*;
use vstd::pervasive::unreached;

verus! {

/// The kernel's answer to an attempt that acquired the mutex.
pub const MUTEX_ACQUIRED: i32 = 1;

/// The kernel's answer to an attempt on a mutex that is held.
pub const MUTEX_HELD: i32 = 0;

/// Reads the kernel's answer to an attempt to lock: whether the mutex was
/// acquired. The kernel answers with [`MUTEX_ACQUIRED`] or [`MUTEX_HELD`].
pub fn try_lock(status: i32) -> (acquired: bool)
    requires
        status == MUTEX_ACQUIRED || status == MUTEX_HELD,
    ensures
        acquired <==> status == MUTEX_ACQUIRED,
{
    if status == MUTEX_ACQUIRED {
        true
    } else if status == MUTEX_HELD {
        false
    } else {
        unreached()
    }
}

} // verus!
