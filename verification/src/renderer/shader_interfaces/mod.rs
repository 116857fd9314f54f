pub mod id_buffer;
pub mod primitive_op_buffer;
pub mod vertex_inputs;
