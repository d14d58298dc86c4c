//! Whether this process is the only running instance.

use vstd::prelude::*;
use crate::platform::ERROR_ALREADY_EXISTS;

verus! {

/// Tells, from the error that creating the single-instance mutex left
/// behind, whether no other instance holds the mutex: the mutex existed
/// before exactly when that error is `ERROR_ALREADY_EXISTS`.
pub fn instance_is_unique(last_error: u32) -> (unique: bool)
    ensures
        unique == (last_error != ERROR_ALREADY_EXISTS),
{
    last_error != ERROR_ALREADY_EXISTS
}

} // verus!
