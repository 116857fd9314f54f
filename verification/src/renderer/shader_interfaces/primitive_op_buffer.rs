//! The primitive op storage buffer read by the geometry pass.
use vstd::prelude::*;

pub mod op_codes;

verus! {

/// The shaders store the primitive op index in the lower 16 bits of a u32
pub const MAX_PRIMITIVE_OP_COUNT: usize = 65535;

} // verus!
