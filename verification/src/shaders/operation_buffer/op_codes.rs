//! Operation codes, the first unit of each `OperationDataSlice`.
use crate::shaders::operation_buffer::OperationDataUnit;
use vstd::prelude::*;

verus! {

pub const NULL: OperationDataUnit = 0x00000000;
pub const SINGLE: OperationDataUnit = 0x00000001;
pub const UNION: OperationDataUnit = 0x00000002;
pub const SUBTRACTION: OperationDataUnit = 0x00000003;
pub const INTERSECTION: OperationDataUnit = 0x00000004;
/// better to fail noticably gpu side than fail subtly
pub const INVALID: OperationDataUnit = 0xFFFFFFFF;

} // verus!
