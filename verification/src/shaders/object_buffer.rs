//! Units of the object storage buffer.
use vstd::prelude::*;

pub mod op_codes;
pub mod primitive_codes;

verus! {

pub type ObjectDataUnit = u32;

/// Each primitive is encoded into an array of length `PRIMITIVE_UNIT_LEN`. This value should match the one defined in `primitives.glsl`.
pub const PRIMITIVE_UNIT_LEN: usize = 8;

/// An array which a primitive can be encoded into. Corresponds to the decoding logic in `scene.comp`.
pub type PrimitiveDataSlice = [ObjectDataUnit; PRIMITIVE_UNIT_LEN];

} // verus!
