use goshenite::operations::operation_collection::OperationCollection;
use goshenite::primitives::primitive_collection::PrimitiveCollection;
use goshenite::shaders::operation_buffer;
use goshenite::shaders::primitive_buffer;
use goshenite::shaders::primitive_buffer::primitive_codes;
use goshenite::shaders::shader_interfaces::PrimitiveData;

fn sphere(radius_bits: u32) -> [u32; 8] {
    [primitive_codes::SPHERE, radius_bits, 1, 2, 3, 0, 0, 0]
}

#[test]
fn primitive_raw_buffer_of_empty_collection_is_count_only() {
    let collection = PrimitiveCollection::new();
    assert_eq!(primitive_buffer::to_raw_buffer(&collection).unwrap(), vec![0u32]);
}

#[test]
fn primitive_raw_buffer_holds_count_then_units() {
    let mut collection = PrimitiveCollection::new();
    collection.push_encoded(sphere(10));
    collection.push_encoded([primitive_codes::CUBE, 4, 5, 6, 7, 8, 9, 10]);
    let buffer = primitive_buffer::to_raw_buffer(&collection).unwrap();
    assert_eq!(buffer.len(), 1 + 2 * 8);
    assert_eq!(buffer[0], 2);
    assert_eq!(&buffer[1..9], &sphere(10));
    assert_eq!(&buffer[9..17], &[primitive_codes::CUBE, 4, 5, 6, 7, 8, 9, 10]);
}

#[test]
fn combined_data_matches_primitive_raw_buffer() {
    let mut collection = PrimitiveCollection::new();
    for i in 0..5u32 {
        collection.push_encoded(sphere(i));
    }
    let combined = PrimitiveData::combined_data(&collection).unwrap();
    assert_eq!(combined, primitive_buffer::to_raw_buffer(&collection).unwrap());
    assert_eq!(combined[0], 5);
    // unit j of primitive i stands at 1 + 8 * i + j
    assert_eq!(combined[1 + 8 * 3 + 1], 3);
    assert_eq!(combined.len(), 41);
}

#[test]
fn operation_raw_buffer_holds_count_then_units() {
    let mut collection = OperationCollection::new();
    collection.push_encoded([operation_buffer::op_codes::UNION, 0, 1]);
    collection.push_encoded([operation_buffer::op_codes::SUBTRACTION, 2, 3]);
    collection.push_encoded([operation_buffer::op_codes::SINGLE, 4, 0]);
    let buffer = operation_buffer::to_raw_buffer(&collection).unwrap();
    assert_eq!(buffer, vec![3, 2, 0, 1, 3, 2, 3, 1, 4, 0]);
}

#[test]
fn operation_raw_buffer_of_empty_collection_is_count_only() {
    let collection = OperationCollection::new();
    assert_eq!(operation_buffer::to_raw_buffer(&collection).unwrap(), vec![0u32]);
    assert_eq!(collection.len(), 0);
}
