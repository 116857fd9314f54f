//! Contains structs and descriptor set indices/bindings matching the interfaces in shaders.
use crate::primitives::primitive_collection::PrimitiveCollection;
use crate::shaders::buffer_layout::{count_prefixed_buffer, count_prefixed_layout};
use vstd::prelude::*;

pub mod primitive_codes;

verus! {

/// Function name of the entry point for shaders
pub const SHADER_ENTRY_POINT: &'static str = "main";

/// Shorthand for the data type in the primitive storage buffer defined in `scene.comp`.
pub type PrimitiveDataUnit = u32;

/// Each primitive is encoded into an array of length `PRIMITIVE_LEN`. This value should match the one defined in `primitives.glsl`.
pub const PRIMITIVE_LEN: usize = 8;

/// An array which a primitive can be encoded into. Corresponds to the decoding logic in `scene.comp`.
pub type PrimitiveDataSlice = [PrimitiveDataUnit; PRIMITIVE_LEN];

/// Matches the definition of the primitive storage buffer in `scene.comp`. In this case the members are purely for show.
/// Use [`PrimitiveData::combined_data`] when creating the storage buffer.
pub struct PrimitiveData {
    pub _count: PrimitiveDataUnit,
    pub _data: Vec<PrimitiveDataUnit>,
}

impl PrimitiveData {
    /// Returns a vector containing data that will match the primitive storage buffer definition in `scene.comp`:
    /// the number of primitives followed by the units of every primitive.
    /// Fails when the number of primitives exceeds `u32::MAX`.
    pub fn combined_data(primitives: &PrimitiveCollection) -> (res: Result<Vec<PrimitiveDataUnit>, PrimitiveDataError>)
        ensures
            match res {
                Ok(buffer) => primitives@.len() <= u32::MAX && buffer@ == count_prefixed_layout(primitives@),
                Err(e) => primitives@.len() > u32::MAX && e == PrimitiveDataError::DataLengthOverflow,
            },
    {
        let data = primitives.encoded_data();
        let count = data.len();
        if count > u32::MAX as usize {
            return Err(PrimitiveDataError::DataLengthOverflow);
        }
        Ok(count_prefixed_buffer(data))
    }
}

#[derive(Clone, Copy, Debug, PartialEq, Eq, Structural)]
pub enum PrimitiveDataError {
    /// The number of primitives passed to [`PrimitiveData::combined_data`] exceeds u32::MAX meaning the count cannot
    /// be encoded accurately.
    DataLengthOverflow,
}

} // verus!
