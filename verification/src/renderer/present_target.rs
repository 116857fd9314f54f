//! Choices made when creating a swapchain.
use vstd::prelude::*;

verus! {

/// `VK_PRESENT_MODE_MAILBOX_KHR`
pub const PRESENT_MODE_MAILBOX: i32 = 1;
/// `VK_PRESENT_MODE_FIFO_KHR`, which every surface supports.
pub const PRESENT_MODE_FIFO: i32 = 2;
/// `VK_SURFACE_TRANSFORM_IDENTITY_BIT_KHR`
pub const SURFACE_TRANSFORM_IDENTITY: u32 = 0x1;

/// Mailbox when the surface offers it, else fifo.
pub fn choose_present_mode(present_modes: &Vec<i32>) -> (res: i32)
    ensures
        res == if present_modes@.contains(PRESENT_MODE_MAILBOX) { PRESENT_MODE_MAILBOX } else { PRESENT_MODE_FIFO },
{
    let n = present_modes.len();
    let mut i: usize = 0;
    while i < n
        invariant
            n == present_modes@.len(),
            i <= n,
            forall|k: int| 0 <= k < i ==> present_modes@[k] != PRESENT_MODE_MAILBOX,
        decreases n - i,
    {
        if present_modes[i] == PRESENT_MODE_MAILBOX {
            return PRESENT_MODE_MAILBOX;
        }
        i += 1;
    }
    PRESENT_MODE_FIFO
}

/// One image more than the surface's minimum, limited by its maximum when it has one
/// (a maximum of 0 means no limit).
pub fn swapchain_image_count(min_image_count: u32, max_image_count: u32) -> (res: u32)
    requires
        min_image_count < u32::MAX,
    ensures
        res == if max_image_count > 0 && min_image_count + 1 > max_image_count { max_image_count } else { (min_image_count + 1) as u32 },
{
    let mut image_count = min_image_count + 1;
    if max_image_count > 0 && image_count > max_image_count {
        image_count = max_image_count;
    }
    image_count
}

/// The surface's current extent, or the window's size when the surface leaves the extent
/// to the swapchain (current width `u32::MAX`).
pub fn swapchain_resolution(current_extent: [u32; 2], window_size: [u32; 2]) -> (res: [u32; 2])
    ensures
        res == if current_extent[0] == u32::MAX { window_size } else { current_extent },
{
    if current_extent[0] == u32::MAX {
        window_size
    } else {
        current_extent
    }
}

/// The identity transform when the surface supports it, else its current transform.
pub fn swapchain_pre_transform(supported_transforms: u32, current_transform: u32) -> (res: u32)
    ensures
        res == if supported_transforms & SURFACE_TRANSFORM_IDENTITY == SURFACE_TRANSFORM_IDENTITY {
            SURFACE_TRANSFORM_IDENTITY
        } else {
            current_transform
        },
{
    if supported_transforms & SURFACE_TRANSFORM_IDENTITY == SURFACE_TRANSFORM_IDENTITY {
        SURFACE_TRANSFORM_IDENTITY
    } else {
        current_transform
    }
}


/// `VK_IMAGE_USAGE_COLOR_ATTACHMENT_BIT`
pub const IMAGE_USAGE_COLOR_ATTACHMENT: u32 = 0x10;
/// `VK_SHARING_MODE_EXCLUSIVE`
pub const SHARING_MODE_EXCLUSIVE: i32 = 0;
/// `VK_COMPOSITE_ALPHA_OPAQUE_BIT_KHR`
pub const COMPOSITE_ALPHA_OPAQUE: u32 = 0x1;

/// A format a surface offers: its `VkFormat` and `VkColorSpaceKHR`.
#[derive(Debug, Clone, Copy, PartialEq, Eq, Structural)]
pub struct SurfaceFormat {
    pub format: i32,
    pub color_space: i32,
}

/// The first format the surface offers.
pub fn choose_surface_format(surface_formats: &Vec<SurfaceFormat>) -> (res: SurfaceFormat)
    requires
        surface_formats@.len() > 0,
    ensures
        res == surface_formats@[0],
{
    surface_formats[0]
}

/// The parameters of a swapchain created for a window surface.
#[derive(Debug, Clone, Copy)]
pub struct SwapchainCreatePlan {
    pub present_mode: i32,
    pub format: SurfaceFormat,
    pub resolution: [u32; 2],
    pub image_count: u32,
    pub pre_transform: u32,
    /// The images are used as color attachments only.
    pub image_usage: u32,
    /// The images are owned by one queue family at a time.
    pub sharing_mode: i32,
    /// The images are composited as opaque.
    pub composite_alpha: u32,
    /// Pixels hidden by other windows may be discarded.
    pub clipped: bool,
    pub image_array_layers: u32,
}

/// The swapchain created for a surface offering `present_modes` and `surface_formats`, with
/// the given capabilities, for a window of `window_size`: mailbox presentation if offered,
/// the first format, the surface's extent, one image more than the minimum (within the
/// maximum), the identity transform if supported.
pub fn swapchain_create_plan(
    present_modes: &Vec<i32>,
    surface_formats: &Vec<SurfaceFormat>,
    min_image_count: u32,
    max_image_count: u32,
    current_extent: [u32; 2],
    window_size: [u32; 2],
    supported_transforms: u32,
    current_transform: u32,
) -> (res: SwapchainCreatePlan)
    requires
        surface_formats@.len() > 0,
        min_image_count < u32::MAX,
    ensures
        res.present_mode == if present_modes@.contains(PRESENT_MODE_MAILBOX) {
            PRESENT_MODE_MAILBOX
        } else {
            PRESENT_MODE_FIFO
        },
        res.format == surface_formats@[0],
        res.resolution == if current_extent[0] == u32::MAX { window_size } else { current_extent },
        res.image_count == if max_image_count > 0 && min_image_count + 1 > max_image_count {
            max_image_count
        } else {
            (min_image_count + 1) as u32
        },
        res.pre_transform == if supported_transforms & SURFACE_TRANSFORM_IDENTITY == SURFACE_TRANSFORM_IDENTITY {
            SURFACE_TRANSFORM_IDENTITY
        } else {
            current_transform
        },
        res.image_usage == IMAGE_USAGE_COLOR_ATTACHMENT,
        res.sharing_mode == SHARING_MODE_EXCLUSIVE,
        res.composite_alpha == COMPOSITE_ALPHA_OPAQUE,
        res.clipped,
        res.image_array_layers == 1,
{
    SwapchainCreatePlan {
        present_mode: choose_present_mode(present_modes),
        format: choose_surface_format(surface_formats),
        resolution: swapchain_resolution(current_extent, window_size),
        image_count: swapchain_image_count(min_image_count, max_image_count),
        pre_transform: swapchain_pre_transform(supported_transforms, current_transform),
        image_usage: IMAGE_USAGE_COLOR_ATTACHMENT,
        sharing_mode: SHARING_MODE_EXCLUSIVE,
        composite_alpha: COMPOSITE_ALPHA_OPAQUE,
        clipped: true,
        image_array_layers: 1,
    }
}

} // verus!
