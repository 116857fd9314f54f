pub mod common;
pub mod element_id_reader;
pub mod object_buffer_manager;
pub mod object_resource_manager;
pub mod scene_pass;
pub mod shader_interfaces;
pub mod vulkan_init;
pub mod config_renderer;
pub mod render_manager;
pub mod present_target;
pub mod vulkan_helper;
pub mod gui_pass;
pub mod gui_renderer;
pub mod primitives;
pub mod gizmo_pass;
pub mod pass_gizmo;
pub mod pass_geometry;
