//! Permission codec: a small fixed set of capability bits packed into one
//! compact `u16` mask, mirroring the Unix permission model.

use vstd::prelude::*;

verus! {

/// Can read resources.
pub const READ: u16 = 1;

/// Can create or update resources.
pub const WRITE: u16 = 2;

/// Can delete resources.
pub const DELETE: u16 = 4;

/// Can manage other keys.
pub const ADMIN: u16 = 8;

/// All defined capability bits ORed together.
pub const ALL: u16 = READ | WRITE | DELETE | ADMIN;

/// A mask is valid iff every set bit is a defined capability.
pub open spec fn spec_is_valid(mask: u16) -> bool {
    mask & !ALL == 0
}

/// A mask grants `required` iff every requested capability bit is present
/// (bitwise AND semantics, not equality).
pub open spec fn spec_check(mask: u16, required: u16) -> bool {
    mask & required == required
}

/// Check that a permission mask sets no bits outside the defined range.
pub fn is_valid(mask: u16) -> (r: bool)
    ensures
        r == spec_is_valid(mask),
{
    mask & !ALL == 0
}

/// Check whether a mask holds every capability in `required`.
pub fn check(mask: u16, required: u16) -> (r: bool)
    ensures
        r == spec_check(mask, required),
{
    mask & required == required
}

} // verus!
