//! Units of the op storage buffer.
use vstd::prelude::*;

pub mod op_codes;

verus! {

pub type OpDataUnit = u32;
pub const OP_UNIT_LEN: usize = 3;
pub type OpDataSlice = [OpDataUnit; OP_UNIT_LEN];

} // verus!
