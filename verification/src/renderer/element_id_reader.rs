//! Decoding of the ids that the renderer writes for each pixel.
use crate::engine::object::{ObjectId, PrimitiveOpIndex};
use crate::renderer::shader_interfaces::id_buffer::{EncodedId, ID_BACKGROUND, ID_BLEND};
use vstd::prelude::*;

verus! {

/// What was rendered at a pixel.
#[derive(Debug, Clone, Copy, PartialEq, Eq, Structural)]
pub enum ElementAtPoint {
    Object { object_id: ObjectId, primitive_op_index: PrimitiveOpIndex },
    Background,
    BlendArea { object_id: ObjectId },
}

/// The id that the shaders write for primitive op `primitive_op_index` of object `object_id`:
/// the object id in the upper 16 bits, the op index in the lower 16 bits.
pub open spec fn encoded_element_id(object_id: u16, primitive_op_index: u16) -> EncodedId {
    (object_id * 0x10000 + primitive_op_index) as u32
}

/// What a rendered id stands for: the background id, else the object in the upper 16 bits,
/// with the blend marker or the primitive op index in the lower 16 bits.
pub open spec fn element_of_rendered_id(rendered_id: EncodedId) -> ElementAtPoint {
    if rendered_id == ID_BACKGROUND {
        ElementAtPoint::Background
    } else {
        let object_id = ObjectId((rendered_id / 0x10000) as u16);
        let low = rendered_id % 0x10000;
        if low == ID_BLEND {
            ElementAtPoint::BlendArea { object_id }
        } else {
            ElementAtPoint::Object { object_id, primitive_op_index: low as usize }
        }
    }
}

impl ElementAtPoint {
    /// Decodes an id read back from the id buffer.
    pub fn from_rendered_id(rendered_id: u32) -> (res: Self)
        ensures
            res == element_of_rendered_id(rendered_id),
    {
        if rendered_id == ID_BACKGROUND {
            Self::Background
        } else {
            let encoded_id = rendered_id;
            let object_id_u32 = encoded_id >> 16;
            let low = encoded_id & 0x0000FFFF;
            assert(object_id_u32 == encoded_id / 0x10000 && low == encoded_id % 0x10000
                && object_id_u32 < 0x10000) by (bit_vector)
                requires
                    object_id_u32 == encoded_id >> 16,
                    low == encoded_id & 0x0000FFFF,
            ;
            let object_id = ObjectId(object_id_u32 as u16);
            let primitive_op_index = low as usize;
            if primitive_op_index == ID_BLEND as usize {
                Self::BlendArea { object_id }
            } else {
                Self::Object { object_id, primitive_op_index }
            }
        }
    }
}

/// Decoding gives back the object id and primitive op index that the shaders encoded, for
/// every op index but the one reserved for blend areas; an id whose lower half is the blend
/// marker decodes as a blend area of its object, or as the background when it is the
/// background id.
pub proof fn lemma_decode_encoded_element(object_id: u16, primitive_op_index: u16)
    ensures
        primitive_op_index != ID_BLEND ==> element_of_rendered_id(
            encoded_element_id(object_id, primitive_op_index),
        ) == (ElementAtPoint::Object {
            object_id: ObjectId(object_id),
            primitive_op_index: primitive_op_index as usize,
        }),
        primitive_op_index == ID_BLEND ==> element_of_rendered_id(
            encoded_element_id(object_id, primitive_op_index),
        ) == if object_id == 0xFFFF {
            ElementAtPoint::Background
        } else {
            ElementAtPoint::BlendArea { object_id: ObjectId(object_id) }
        },
{
    let id = encoded_element_id(object_id, primitive_op_index);
    assert(id == object_id * 0x10000 + primitive_op_index);
    assert(id / 0x10000 == object_id && id % 0x10000 == primitive_op_index);
}

} // verus!
