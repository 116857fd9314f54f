pub mod buffer_layout;
pub mod object_buffer;
pub mod op_buffer;
pub mod operation_buffer;
pub mod primitive_buffer;
pub mod shader_interfaces;
