//! The primitive storage buffer defined in `scene.comp`.
use crate::primitives::primitive_collection::PrimitiveCollection;
use crate::shaders::buffer_layout::{count_prefixed_buffer, count_prefixed_layout};
use vstd::prelude::*;

pub mod primitive_codes;

verus! {

/// Shorthand for the data type in the primitive storage buffer defined in `scene.comp`.
pub type PrimitiveDataUnit = u32;

/// Each primitive is encoded into an array of length `PRIMITIVE_UNIT_LEN`. This value should match the one defined in `primitives.glsl`.
pub const PRIMITIVE_UNIT_LEN: usize = 8;

/// An array which a primitive can be encoded into. Corresponds to the decoding logic in `scene.comp`.
pub type PrimitiveDataSlice = [PrimitiveDataUnit; PRIMITIVE_UNIT_LEN];

/// Returns a vector containing data that matches the primitive storage buffer definition in `scene.comp`:
/// the number of primitives followed by the units of every primitive.
/// Fails when the number of primitives exceeds `u32::MAX`.
pub fn to_raw_buffer(primitives: &PrimitiveCollection) -> (res: Result<Vec<PrimitiveDataUnit>, PrimitiveBufferError>)
    ensures
        match res {
            Ok(buffer) => primitives@.len() <= u32::MAX && buffer@ == count_prefixed_layout(primitives@),
            Err(e) => primitives@.len() > u32::MAX && e == PrimitiveBufferError::DataLengthOverflow,
        },
{
    let data = primitives.encoded_data();
    let count = data.len();
    if count > u32::MAX as usize {
        return Err(PrimitiveBufferError::DataLengthOverflow);
    }
    Ok(count_prefixed_buffer(data))
}

#[derive(Clone, Copy, Debug, PartialEq, Eq, Structural)]
pub enum PrimitiveBufferError {
    /// The number of primitives passed to [`to_raw_buffer`] exceeds u32::MAX meaning the count cannot
    /// be encoded accurately.
    DataLengthOverflow,
}

} // verus!
