//! Verified core of the Goshenite SDF renderer: the layouts of the data buffers that the
//! shaders read, the decoding of the ids that the shaders write, and the decisions that the
//! Vulkan renderer takes about devices, queues, swapchains, the render pass, frames,
//! per-object resources, gui textures and the synchronization of uploads.
pub mod engine;
pub mod operations;
pub mod primitives;
pub mod renderer;
pub mod shaders;
