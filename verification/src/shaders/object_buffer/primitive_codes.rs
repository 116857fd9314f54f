//! Each `PrimitiveDataSlice` begins with a primitive code defining the type of primitive that has been encoded.
//! The values defined here should match the ones defined in `primitives.glsl`.
use crate::shaders::object_buffer::ObjectDataUnit;
use vstd::prelude::*;

verus! {

pub const NULL: ObjectDataUnit = 0x00000000;
pub const SPHERE: ObjectDataUnit = 0x00000001;
pub const CUBE: ObjectDataUnit = 0x00000002;

} // verus!
