//! Codes of the ops.
use crate::shaders::op_buffer::OpDataUnit;
use vstd::prelude::*;

verus! {

pub const NULL: OpDataUnit = 0x00000000;
pub const PRIMITIVE_1: OpDataUnit = 0x00000001;
pub const PRIMITIVE_2: OpDataUnit = 0x00000002;
pub const UNION: OpDataUnit = 0x00000003;
pub const SUBTRACTION: OpDataUnit = 0x00000004;
pub const INTERSECTION: OpDataUnit = 0x00000005;

} // verus!
