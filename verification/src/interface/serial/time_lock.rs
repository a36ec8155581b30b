//! Time-locked serial access, for devices that do not end their answers.
//!
//! After each write the port is locked for a fixed duration: the next write
//! waits for the end of the lock.
use vstd::prelude::*;

verus! {

/// How long a write must still wait, in nanoseconds, when `elapsed`
/// nanoseconds have passed since the lock of `duration` nanoseconds started.
/// `None` when the lock is over.
pub fn remaining_lock_time(elapsed: u128, duration: u128) -> (r: Option<u128>)
    ensures
        elapsed < duration ==> r == Some((duration - elapsed) as u128),
        elapsed >= duration ==> r is None,
{
    if elapsed < duration {
        Some(duration - elapsed)
    } else {
        None
    }
}

} // verus!
