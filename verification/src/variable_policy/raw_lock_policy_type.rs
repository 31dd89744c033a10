//! The lock policy types as the raw form of a variable policy numbers them.

use vstd::prelude::*;

verus! {

pub const NO_LOCK: u8 = 0;

pub const LOCK_NOW: u8 = 1;

pub const LOCK_ON_CREATE: u8 = 2;

pub const LOCK_ON_VAR_STATE: u8 = 3;

/// Tells whether the number stands for a lock policy type.
pub fn is_valid(raw_lock_type: u8) -> (r: bool)
    ensures
        r == (raw_lock_type == NO_LOCK || raw_lock_type == LOCK_NOW || raw_lock_type
            == LOCK_ON_CREATE || raw_lock_type == LOCK_ON_VAR_STATE),
{
    raw_lock_type == NO_LOCK || raw_lock_type == LOCK_NOW || raw_lock_type == LOCK_ON_CREATE
        || raw_lock_type == LOCK_ON_VAR_STATE
}

} // verus!
