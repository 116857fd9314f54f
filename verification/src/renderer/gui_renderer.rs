//! Decisions of the gui renderer about texture deltas: what each delta does, the barriers
//! and copy it records, and when the recorded commands are submitted.
use crate::renderer::gui_pass::TextureCopyRegion;
use crate::renderer::vulkan_init::{
    ACCESS_SHADER_READ, IMAGE_LAYOUT_SHADER_READ_ONLY_OPTIMAL, IMAGE_LAYOUT_UNDEFINED, PIPELINE_STAGE_FRAGMENT_SHADER,
};
use vstd::prelude::*;

verus! {

/// What the gui renderer does with one image delta.
#[derive(Debug, Clone, Copy, PartialEq, Eq, Structural)]
pub enum TextureDeltaAction {
    /// Nothing: the color image's texel count does not match its size, or it holds no texels.
    Skip,
    /// Upload the data to a region of the existing texture.
    UpdateExisting,
    /// Stage the data only: the region belongs to a texture that does not exist.
    StageOnly,
    /// Create a new texture with the data.
    CreateNew,
}

/// The action for one image delta: a color image whose `width * height` differs from its
/// texel count, or an image with no bytes, is skipped; a delta with a position updates the
/// existing texture (or is only staged when there is none); a delta without one creates a
/// new texture.
pub fn texture_delta_action(
    is_color_image: bool,
    width: usize,
    height: usize,
    texel_count: usize,
    byte_count: usize,
    update_position_given: bool,
    texture_registered: bool,
) -> (res: TextureDeltaAction)
    ensures
        res == if is_color_image && width * height != texel_count {
            TextureDeltaAction::Skip
        } else if byte_count == 0 {
            TextureDeltaAction::Skip
        } else if update_position_given {
            if texture_registered { TextureDeltaAction::UpdateExisting } else { TextureDeltaAction::StageOnly }
        } else {
            TextureDeltaAction::CreateNew
        },
{
    if is_color_image {
        let size_matches = match width.checked_mul(height) {
            Some(area) => area == texel_count,
            None => false,
        };
        if !size_matches {
            return TextureDeltaAction::Skip;
        }
    }
    if byte_count == 0 {
        return TextureDeltaAction::Skip;
    }
    if update_position_given {
        if texture_registered {
            TextureDeltaAction::UpdateExisting
        } else {
            TextureDeltaAction::StageOnly
        }
    } else {
        TextureDeltaAction::CreateNew
    }
}


/// `VK_PIPELINE_STAGE_TRANSFER_BIT`
pub const PIPELINE_STAGE_TRANSFER: u32 = 0x1000;
/// `VK_ACCESS_TRANSFER_WRITE_BIT`
pub const ACCESS_TRANSFER_WRITE: u32 = 0x1000;
/// `VK_IMAGE_LAYOUT_GENERAL`
pub const IMAGE_LAYOUT_GENERAL: i32 = 1;

/// A layout transition of the whole texture image (`VkImageMemoryBarrier`).
#[derive(Debug, Clone, Copy, PartialEq, Eq, Structural)]
pub struct LayoutTransition {
    pub src_access_mask: u32,
    pub dst_access_mask: u32,
    pub old_layout: i32,
    pub new_layout: i32,
}

/// A pipeline barrier (`vkCmdPipelineBarrier`), with at most one image barrier.
#[derive(Debug, Clone, Copy, PartialEq, Eq, Structural)]
pub struct PipelineBarrier {
    pub src_stage_mask: u32,
    pub dst_stage_mask: u32,
    pub image_barrier: Option<LayoutTransition>,
}

/// The commands `create_texture` records for one image delta: a barrier, the copy from the
/// staging buffer into the image (in `copy_layout`), and a barrier.
#[derive(Debug, Clone, Copy, PartialEq, Eq, Structural)]
pub struct CreateTextureCommands {
    pub before_copy: PipelineBarrier,
    pub copy_layout: i32,
    pub copy_region: TextureCopyRegion,
    pub after_copy: PipelineBarrier,
}

/// The barrier after the copy: the image becomes readable by the fragment shader.
pub open spec fn to_shader_read_barrier() -> PipelineBarrier {
    PipelineBarrier {
        src_stage_mask: PIPELINE_STAGE_TRANSFER,
        dst_stage_mask: PIPELINE_STAGE_FRAGMENT_SHADER,
        image_barrier: Some(
            LayoutTransition {
                src_access_mask: ACCESS_TRANSFER_WRITE,
                dst_access_mask: ACCESS_SHADER_READ,
                old_layout: IMAGE_LAYOUT_GENERAL,
                new_layout: IMAGE_LAYOUT_SHADER_READ_ONLY_OPTIMAL,
            },
        ),
    }
}

/// The commands of a delta with `action`, a `width` by `height` image and, for a region
/// update, its position `update_pos` (numbers converted as `as` converts them): none when
/// the delta is skipped or only staged; for a region update, a transition of the image to
/// the general layout, the copy at the position, and the transition to the read layout; for
/// a new texture, a barrier without image barrier, the copy of the whole image, and the
/// transition to the read layout.
pub open spec fn create_texture_commands_of(
    action: TextureDeltaAction,
    update_pos: [usize; 2],
    width: usize,
    height: usize,
) -> Option<CreateTextureCommands> {
    match action {
        TextureDeltaAction::UpdateExisting => Some(
            CreateTextureCommands {
                before_copy: PipelineBarrier {
                    src_stage_mask: PIPELINE_STAGE_FRAGMENT_SHADER,
                    dst_stage_mask: PIPELINE_STAGE_TRANSFER,
                    image_barrier: Some(
                        LayoutTransition {
                            src_access_mask: ACCESS_SHADER_READ,
                            dst_access_mask: ACCESS_TRANSFER_WRITE,
                            old_layout: IMAGE_LAYOUT_UNDEFINED,
                            new_layout: IMAGE_LAYOUT_GENERAL,
                        },
                    ),
                },
                copy_layout: IMAGE_LAYOUT_GENERAL,
                copy_region: TextureCopyRegion {
                    offset_x: update_pos[0] as i32,
                    offset_y: update_pos[1] as i32,
                    width: width as u32,
                    height: height as u32,
                },
                after_copy: to_shader_read_barrier(),
            },
        ),
        TextureDeltaAction::CreateNew => Some(
            CreateTextureCommands {
                before_copy: PipelineBarrier {
                    src_stage_mask: PIPELINE_STAGE_FRAGMENT_SHADER,
                    dst_stage_mask: PIPELINE_STAGE_TRANSFER,
                    image_barrier: None,
                },
                copy_layout: IMAGE_LAYOUT_GENERAL,
                copy_region: TextureCopyRegion { offset_x: 0, offset_y: 0, width: width as u32, height: height as u32 },
                after_copy: to_shader_read_barrier(),
            },
        ),
        _ => None,
    }
}

/// The barriers and copy that `create_texture` records for a delta.
pub fn create_texture_commands(action: TextureDeltaAction, update_pos: [usize; 2], width: usize, height: usize) -> (res:
    Option<CreateTextureCommands>)
    ensures
        res == create_texture_commands_of(action, update_pos, width, height),
{
    let after_copy = PipelineBarrier {
        src_stage_mask: PIPELINE_STAGE_TRANSFER,
        dst_stage_mask: PIPELINE_STAGE_FRAGMENT_SHADER,
        image_barrier: Some(
            LayoutTransition {
                src_access_mask: ACCESS_TRANSFER_WRITE,
                dst_access_mask: ACCESS_SHADER_READ,
                old_layout: IMAGE_LAYOUT_GENERAL,
                new_layout: IMAGE_LAYOUT_SHADER_READ_ONLY_OPTIMAL,
            },
        ),
    };
    let width_u32: u32 = #[verifier::truncate] (width as u32);
    let height_u32: u32 = #[verifier::truncate] (height as u32);
    match action {
        TextureDeltaAction::UpdateExisting => Some(
            CreateTextureCommands {
                // transition the image layout to GENERAL
                before_copy: PipelineBarrier {
                    src_stage_mask: PIPELINE_STAGE_FRAGMENT_SHADER,
                    dst_stage_mask: PIPELINE_STAGE_TRANSFER,
                    image_barrier: Some(
                        LayoutTransition {
                            src_access_mask: ACCESS_SHADER_READ,
                            dst_access_mask: ACCESS_TRANSFER_WRITE,
                            old_layout: IMAGE_LAYOUT_UNDEFINED,
                            new_layout: IMAGE_LAYOUT_GENERAL,
                        },
                    ),
                },
                copy_layout: IMAGE_LAYOUT_GENERAL,
                copy_region: TextureCopyRegion {
                    offset_x: #[verifier::truncate] (update_pos[0] as i32),
                    offset_y: #[verifier::truncate] (update_pos[1] as i32),
                    width: width_u32,
                    height: height_u32,
                },
                // then transition back to SHADER_READ_ONLY_OPTIMAL
                after_copy,
            },
        ),
        TextureDeltaAction::CreateNew => Some(
            CreateTextureCommands {
                before_copy: PipelineBarrier {
                    src_stage_mask: PIPELINE_STAGE_FRAGMENT_SHADER,
                    dst_stage_mask: PIPELINE_STAGE_TRANSFER,
                    image_barrier: None,
                },
                copy_layout: IMAGE_LAYOUT_GENERAL,
                copy_region: TextureCopyRegion { offset_x: 0, offset_y: 0, width: width_u32, height: height_u32 },
                after_copy,
            },
        ),
        TextureDeltaAction::Skip => None,
        TextureDeltaAction::StageOnly => None,
    }
}

/// A region update copies a `width` by `height` region at `update_pos`, and a new texture is
/// written whole from its origin, both in the general layout they were moved to (or, for a
/// new texture, copied in).
pub proof fn lemma_created_texture_copy_regions(update_pos: [usize; 2], width: usize, height: usize)
    ensures
        ({
            let update = create_texture_commands_of(TextureDeltaAction::UpdateExisting, update_pos, width, height);
            &&& update is Some
            &&& update->0.copy_region == (TextureCopyRegion {
                offset_x: update_pos[0] as i32,
                offset_y: update_pos[1] as i32,
                width: width as u32,
                height: height as u32,
            })
            &&& update->0.copy_layout == IMAGE_LAYOUT_GENERAL
            &&& update->0.before_copy.image_barrier is Some
            &&& update->0.before_copy.image_barrier->0.new_layout == IMAGE_LAYOUT_GENERAL
        }),
        ({
            let new = create_texture_commands_of(TextureDeltaAction::CreateNew, update_pos, width, height);
            &&& new is Some
            &&& new->0.copy_region == (TextureCopyRegion { offset_x: 0, offset_y: 0, width: width as u32, height: height as u32 })
            &&& new->0.copy_layout == IMAGE_LAYOUT_GENERAL
        }),
{
}

/// Every texture the gui renderer writes ends in the layout the fragment shader reads.
pub proof fn lemma_created_textures_end_readable(action: TextureDeltaAction, update_pos: [usize; 2], width: usize, height: usize)
    ensures
        create_texture_commands_of(action, update_pos, width, height) is Some <==> (action == TextureDeltaAction::UpdateExisting
            || action == TextureDeltaAction::CreateNew),
        create_texture_commands_of(action, update_pos, width, height) matches Some(c) ==> c.after_copy.image_barrier
            matches Some(t) && t.old_layout == c.copy_layout && t.new_layout == IMAGE_LAYOUT_SHADER_READ_ONLY_OPTIMAL,
{
}

/// When the gui renderer's texture update submits its commands.
#[derive(Debug, Clone, Copy, PartialEq, Eq, Structural)]
pub struct GuiRendererUpdatePlan {
    /// A command buffer is created for the update.
    pub create_command_buffer: bool,
    /// The command buffer is submitted, waiting on each wait semaphore at
    /// `wait_stage` and signalling a new semaphore that is returned.
    pub submit: bool,
    pub wait_stage: u32,
}

/// The update of textures deltas whose `set` lists have `set_counts` entries: nothing for no
/// deltas; otherwise a command buffer, submitted when some delta sets an image (whether or
/// not that delta recorded commands), waiting at the transfer stage.
pub fn update_textures_plan(set_counts: &Vec<usize>) -> (res: GuiRendererUpdatePlan)
    ensures
        res.create_command_buffer == (set_counts@.len() > 0),
        res.submit == exists|k: int| 0 <= k < set_counts@.len() && #[trigger] set_counts@[k] > 0,
        res.wait_stage == PIPELINE_STAGE_TRANSFER,
{
    let n = set_counts.len();
    let mut commands_recorded = false;
    let mut i: usize = 0;
    while i < n
        invariant
            n == set_counts@.len(),
            i <= n,
            commands_recorded == exists|k: int| 0 <= k < i && #[trigger] set_counts@[k] > 0,
        decreases n - i,
    {
        if set_counts[i] > 0 {
            commands_recorded = true;
        }
        i += 1;
    }
    GuiRendererUpdatePlan { create_command_buffer: n > 0, submit: commands_recorded, wait_stage: PIPELINE_STAGE_TRANSFER }
}

} // verus!
