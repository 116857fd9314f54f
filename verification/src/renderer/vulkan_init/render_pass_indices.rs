//! Positions of the attachments and subpasses in the render pass.
use vstd::prelude::*;

verus! {

pub const ATTACHMENT_SWAPCHAIN: usize = 0;
pub const ATTACHMENT_NORMAL: usize = 1;
pub const ATTACHMENT_PRIMITIVE_ID: usize = 2;
pub const ATTACHMENT_DEPTH_BUFFER: usize = 3;
pub const NUM_ATTACHMENTS: usize = 4;

pub const SUBPASS_GBUFFER: usize = 0;
pub const SUBPASS_DEFERRED: usize = 1;
pub const NUM_SUBPASSES: usize = 2;

/// The number of color attachments the g-buffer subpass writes.
pub const GBUFFER_COLOR_ATTACHMENT_COUNT: usize = 2;

} // verus!
