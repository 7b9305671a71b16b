//! Mutual exclusion.
//!
//! A mutex is either unlocked or locked. Locking waits until the mutex is
//! unlocked; an attempt to lock never waits, and fails where it would have
//! had to.

use vstd::prelude::*;

verus! {

/// Why an attempt to acquire a lock failed.
#[derive(Debug, PartialEq, Eq, Structural, Clone, Copy)]
pub enum TryLock {
    /// The lock could not be acquired at this time because the operation
    /// would otherwise block.
    WouldBlock,
}

/// Concludes an attempt to acquire a lock without waiting: the lock is the
/// caller's where the backend acquired it, and the attempt fails with
/// `WouldBlock` where the backend found the lock held.
pub fn try_lock(acquired: bool) -> (result: Result<(), TryLock>)
    ensures
        result is Ok <==> acquired,
        !acquired ==> result == Err::<(), TryLock>(TryLock::WouldBlock),
{
    if acquired {
        Ok(())
    } else {
        Err(TryLock::WouldBlock)
    }
}

} // verus!
