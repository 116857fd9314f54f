//! Codes of the operation that a primitive op applies.
use vstd::prelude::*;

verus! {

pub const NOP: u32 = 0x00000000;
/// OR
pub const UNION: u32 = 0x00000001;
/// AND
pub const INTERSECTION: u32 = 0x00000002;
pub const SUBTRACTION: u32 = 0x00000003;
pub const INVALID: u32 = 0xFFFFFFFF;

} // verus!
