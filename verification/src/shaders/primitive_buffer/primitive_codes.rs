//! Each `PrimitiveDataSlice` begins with a primitive code defining the type of primitive that has been encoded.
//! The values defined here should match the ones defined in `primitives.glsl`.
use crate::shaders::primitive_buffer::PrimitiveDataUnit;
use vstd::prelude::*;

verus! {

pub const NULL: PrimitiveDataUnit = 0x00000000;
pub const SPHERE: PrimitiveDataUnit = 0x00000001;
pub const CUBE: PrimitiveDataUnit = 0x00000002;

} // verus!
