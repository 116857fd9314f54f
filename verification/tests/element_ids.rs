use goshenite::engine::object::ObjectId;
use goshenite::renderer::element_id_reader::ElementAtPoint;
use goshenite::renderer::shader_interfaces::id_buffer::{ID_BACKGROUND, ID_BLEND, ID_GIZMO_X};

#[test]
fn background_id_decodes_as_background() {
    assert_eq!(ElementAtPoint::from_rendered_id(ID_BACKGROUND), ElementAtPoint::Background);
}

#[test]
fn object_and_op_index_decode_from_upper_and_lower_halves() {
    let encoded = (7u32 << 16) | 3;
    assert_eq!(
        ElementAtPoint::from_rendered_id(encoded),
        ElementAtPoint::Object { object_id: ObjectId(7), primitive_op_index: 3 }
    );
    assert_eq!(
        ElementAtPoint::from_rendered_id(0x1234_0000),
        ElementAtPoint::Object { object_id: ObjectId(0x1234), primitive_op_index: 0 }
    );
}

#[test]
fn blend_marker_decodes_as_blend_area() {
    let encoded = (42u32 << 16) | ID_BLEND;
    assert_eq!(ElementAtPoint::from_rendered_id(encoded), ElementAtPoint::BlendArea { object_id: ObjectId(42) });
}

#[test]
fn encode_then_decode_round_trips_for_every_op_index_but_the_blend_marker() {
    for object_id in [0u16, 1, 255, 0xFFFE, 0xFFFF] {
        for index in [0u16, 1, 100, 0xFFFD, 0xFFFF] {
            let encoded = ((object_id as u32) << 16) | index as u32;
            assert_eq!(
                ElementAtPoint::from_rendered_id(encoded),
                ElementAtPoint::Object { object_id: ObjectId(object_id), primitive_op_index: index as usize }
            );
        }
    }
}

#[test]
fn gizmo_ids_decode_as_ops_of_the_last_object() {
    assert_eq!(
        ElementAtPoint::from_rendered_id(ID_GIZMO_X),
        ElementAtPoint::Object { object_id: ObjectId(0xFFFF), primitive_op_index: 0xFFFD }
    );
    assert_eq!(ObjectId(5).raw_id(), 5);
}
