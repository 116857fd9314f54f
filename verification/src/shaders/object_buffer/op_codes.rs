//! Codes of the operations that combine objects.
use crate::shaders::object_buffer::ObjectDataUnit;
use vstd::prelude::*;

verus! {

pub const NULL: ObjectDataUnit = 0x00000000;
/// OR
pub const UNION: ObjectDataUnit = 0x00000001;
/// AND
pub const INTERSECTION: ObjectDataUnit = 0x00000002;
pub const SUBTRACTION: ObjectDataUnit = 0x00000003;
/// better to fail noticably gpu side than fail subtly
pub const INVALID: ObjectDataUnit = 0xFFFFFFFF;

} // verus!
