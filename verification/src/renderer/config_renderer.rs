//! Renderer settings.
use vstd::prelude::*;

verus! {

pub const MAX_VULKAN_VER_MAJ: u32 = 1;
pub const MAX_VULKAN_VER_MIN: u32 = 3;

/// G-buffer formats (`VkFormat` values). Note that the combined bit total of these should be
/// under 128bits to fit in tile storage on many tile-based architectures.
///
/// `VK_FORMAT_R8G8B8A8_UNORM`
pub const FORMAT_NORMAL_BUFFER: i32 = 37;
/// `VK_FORMAT_R32_UINT`
pub const FORMAT_PRIMITIVE_ID_BUFFER: i32 = 98;

/// 1 second
pub const TIMEOUT_NANOSECS: u64 = 1_000_000_000;

/// Double-buffering
pub const MAX_FRAMES_IN_FLIGHT: usize = 2;

pub const CPU_ACCESS_BUFFER_SIZE: u64 = 1024;

} // verus!
