//! The operation storage buffer defined in `scene.comp`.
use crate::operations::operation_collection::OperationCollection;
use crate::shaders::buffer_layout::{count_prefixed_buffer, count_prefixed_layout};
use vstd::prelude::*;

pub mod op_codes;

verus! {

pub type OperationDataUnit = u32;

pub const OPERATION_UNIT_LEN: usize = 3;

pub type OperationDataSlice = [OperationDataUnit; OPERATION_UNIT_LEN];

/// Returns a vector containing data that matches the operation storage buffer definition in `scene.comp`:
/// the number of operations followed by the units of every operation.
/// Fails when the number of operations exceeds `u32::MAX`.
pub fn to_raw_buffer(collection: &OperationCollection) -> (res: Result<Vec<OperationDataUnit>, OperationBufferError>)
    ensures
        match res {
            Ok(buffer) => collection@.len() <= u32::MAX && buffer@ == count_prefixed_layout(collection@),
            Err(e) => collection@.len() > u32::MAX && e == OperationBufferError::DataLengthOverflow,
        },
{
    let data = collection.buffer_data();
    let count = data.len();
    if count > u32::MAX as usize {
        return Err(OperationBufferError::DataLengthOverflow);
    }
    Ok(count_prefixed_buffer(data))
}

#[derive(Clone, Copy, Debug, PartialEq, Eq, Structural)]
pub enum OperationBufferError {
    /// The number of operations passed to [`to_raw_buffer`] exceeds u32::MAX meaning the count cannot
    /// be encoded accurately.
    DataLengthOverflow,
}

} // verus!
