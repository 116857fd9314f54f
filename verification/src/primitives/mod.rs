pub mod primitive_collection;
