//! Decisions of the gui pass: which sampler a texture uses, what a texture update does, the
//! barriers and copy that upload texture data, the texel bytes uploaded for a color image,
//! and which pool the gui's vertex and index buffers come from.
use crate::renderer::gui_pass::texture_registry::TextureId;
use crate::renderer::object_resource_manager::{
    ACCESS_2_SHADER_READ, ACCESS_2_TRANSFER_WRITE, PIPELINE_STAGE_2_FRAGMENT_SHADER, PIPELINE_STAGE_2_TRANSFER,
};
use crate::renderer::vulkan_init::{
    IMAGE_LAYOUT_SHADER_READ_ONLY_OPTIMAL, IMAGE_LAYOUT_TRANSFER_DST_OPTIMAL, IMAGE_LAYOUT_UNDEFINED,
};
use vstd::prelude::*;

pub mod texture_registry;

verus! {

/// How a texture is filtered.
#[derive(Debug, Clone, Copy, PartialEq, Eq, Structural)]
pub enum TextureFilter {
    Nearest,
    Linear,
}

/// The filtering a gui texture asks for.
#[derive(Debug, Clone, Copy, PartialEq, Eq, Structural)]
pub struct TextureOptions {
    pub magnification: TextureFilter,
    pub minification: TextureFilter,
}

/// One sampler for each combination of magnification and minification filter.
pub struct SamplerVariations<S> {
    /// magnification = linear, minificaiton = linear
    pub l_mag_l_min: S,
    /// magnification = linear, minificaiton = nearest
    pub l_mag_n_min: S,
    /// magnification = nearest, minificaiton = linear
    pub n_mag_l_min: S,
    /// magnification = nearest, minificaiton = nearest
    pub n_mag_n_min: S,
}

/// The variation of `samplers` for `options`.
pub open spec fn sampler_for<S>(samplers: SamplerVariations<S>, options: TextureOptions) -> S {
    match (options.magnification, options.minification) {
        (TextureFilter::Linear, TextureFilter::Linear) => samplers.l_mag_l_min,
        (TextureFilter::Linear, TextureFilter::Nearest) => samplers.l_mag_n_min,
        (TextureFilter::Nearest, TextureFilter::Linear) => samplers.n_mag_l_min,
        (TextureFilter::Nearest, TextureFilter::Nearest) => samplers.n_mag_n_min,
    }
}

/// `VK_SAMPLER_ADDRESS_MODE_REPEAT`
pub const SAMPLER_ADDRESS_MODE_REPEAT: i32 = 0;
/// `VK_SAMPLER_MIPMAP_MODE_LINEAR`
pub const SAMPLER_MIPMAP_MODE_LINEAR: i32 = 1;

/// What a gui sampler is created with.
#[derive(Debug, Clone, Copy, PartialEq, Eq, Structural)]
pub struct SamplerProperties {
    /// The magnification and minification filters.
    pub options: TextureOptions,
    /// The `VkSamplerAddressMode` along u, v and w.
    pub address_mode_u: i32,
    pub address_mode_v: i32,
    pub address_mode_w: i32,
    pub mipmap_mode: i32,
}

/// A gui sampler with the filters of `options`: repeating along every axis, with linear
/// mipmapping.
pub open spec fn gui_sampler(options: TextureOptions) -> SamplerProperties {
    SamplerProperties {
        options,
        address_mode_u: SAMPLER_ADDRESS_MODE_REPEAT,
        address_mode_v: SAMPLER_ADDRESS_MODE_REPEAT,
        address_mode_w: SAMPLER_ADDRESS_MODE_REPEAT,
        mipmap_mode: SAMPLER_MIPMAP_MODE_LINEAR,
    }
}

/// What each sampler of the variations is created with.
pub open spec fn sampler_variation_properties_of() -> SamplerVariations<SamplerProperties> {
    SamplerVariations {
        l_mag_l_min: gui_sampler(TextureOptions { magnification: TextureFilter::Linear, minification: TextureFilter::Linear }),
        l_mag_n_min: gui_sampler(TextureOptions { magnification: TextureFilter::Linear, minification: TextureFilter::Nearest }),
        n_mag_l_min: gui_sampler(TextureOptions { magnification: TextureFilter::Nearest, minification: TextureFilter::Linear }),
        n_mag_n_min: gui_sampler(TextureOptions { magnification: TextureFilter::Nearest, minification: TextureFilter::Nearest }),
    }
}

fn gui_sampler_properties(magnification: TextureFilter, minification: TextureFilter) -> (res: SamplerProperties)
    ensures
        res == gui_sampler(TextureOptions { magnification, minification }),
{
    SamplerProperties {
        options: TextureOptions { magnification, minification },
        address_mode_u: SAMPLER_ADDRESS_MODE_REPEAT,
        address_mode_v: SAMPLER_ADDRESS_MODE_REPEAT,
        address_mode_w: SAMPLER_ADDRESS_MODE_REPEAT,
        mipmap_mode: SAMPLER_MIPMAP_MODE_LINEAR,
    }
}

/// What the samplers of the variations are created with: each with its filters, all
/// repeating along every axis with linear mipmapping.
pub fn sampler_variation_properties() -> (res: SamplerVariations<SamplerProperties>)
    ensures
        res == sampler_variation_properties_of(),
{
    SamplerVariations {
        l_mag_l_min: gui_sampler_properties(TextureFilter::Linear, TextureFilter::Linear),
        l_mag_n_min: gui_sampler_properties(TextureFilter::Linear, TextureFilter::Nearest),
        n_mag_l_min: gui_sampler_properties(TextureFilter::Nearest, TextureFilter::Linear),
        n_mag_n_min: gui_sampler_properties(TextureFilter::Nearest, TextureFilter::Nearest),
    }
}

/// Every texture gets a sampler created with exactly the filters its options ask for, which
/// repeats along every axis and mipmaps linearly; equal options get the same sampler.
pub proof fn lemma_sampler_has_requested_filters(options: TextureOptions)
    ensures
        sampler_for(sampler_variation_properties_of(), options) == gui_sampler(options),
        sampler_for(sampler_variation_properties_of(), options).options == options,
        sampler_for(sampler_variation_properties_of(), options).address_mode_u == SAMPLER_ADDRESS_MODE_REPEAT,
        sampler_for(sampler_variation_properties_of(), options).address_mode_v == SAMPLER_ADDRESS_MODE_REPEAT,
        sampler_for(sampler_variation_properties_of(), options).address_mode_w == SAMPLER_ADDRESS_MODE_REPEAT,
        sampler_for(sampler_variation_properties_of(), options).mipmap_mode == SAMPLER_MIPMAP_MODE_LINEAR,
{
}

impl<S> SamplerVariations<S> {
    /// The sampler whose filters are those of `options`.
    pub fn get_sampler(&self, options: TextureOptions) -> (res: &S)
        ensures
            *res == sampler_for(*self, options),
            *res == match (options.magnification, options.minification) {
                (TextureFilter::Linear, TextureFilter::Linear) => self.l_mag_l_min,
                (TextureFilter::Linear, TextureFilter::Nearest) => self.l_mag_n_min,
                (TextureFilter::Nearest, TextureFilter::Linear) => self.n_mag_l_min,
                (TextureFilter::Nearest, TextureFilter::Nearest) => self.n_mag_n_min,
            },
    {
        match options.magnification {
            TextureFilter::Linear => match options.minification {
                TextureFilter::Linear => &self.l_mag_l_min,
                TextureFilter::Nearest => &self.l_mag_n_min,
            },
            TextureFilter::Nearest => match options.minification {
                TextureFilter::Linear => &self.n_mag_l_min,
                TextureFilter::Nearest => &self.n_mag_n_min,
            },
        }
    }
}

/// What processing one image delta of a gui texture does.
#[derive(Debug, Clone, Copy, PartialEq, Eq, Structural)]
pub struct ProcessTextureDataReturn {
    /// The texel data is uploaded through a staging buffer that must live until the upload
    /// completes.
    pub uses_staging_buffer: bool,
    /// Commands creating a new image were recorded (on the transfer queue).
    pub new_image_commands_recorded: bool,
    /// Commands updating a region of an existing image were recorded (on the render queue).
    pub existing_image_commands_recorded: bool,
}

/// `process_texture_data_plan`'s result.
pub open spec fn process_texture_data_plan_of(image_byte_count: usize, update_position_given: bool, texture_registered: bool) -> ProcessTextureDataReturn {
    if image_byte_count == 0 || (update_position_given && !texture_registered) {
        ProcessTextureDataReturn { uses_staging_buffer: false, new_image_commands_recorded: false, existing_image_commands_recorded: false }
    } else if update_position_given {
        ProcessTextureDataReturn { uses_staging_buffer: true, new_image_commands_recorded: false, existing_image_commands_recorded: true }
    } else {
        ProcessTextureDataReturn { uses_staging_buffer: true, new_image_commands_recorded: true, existing_image_commands_recorded: false }
    }
}

/// The plan for one image delta: nothing when it holds no texels; a region update when it
/// gives a position and the texture exists; nothing when it gives a position of a texture
/// that does not exist (the update is skipped and no staging buffer is kept); a new image
/// when it gives no position. A staging buffer is kept exactly when commands are recorded.
pub fn process_texture_data_plan(image_byte_count: usize, update_position_given: bool, texture_registered: bool) -> (res: ProcessTextureDataReturn)
    ensures
        res == process_texture_data_plan_of(image_byte_count, update_position_given, texture_registered),
        res == if image_byte_count == 0 || (update_position_given && !texture_registered) {
            ProcessTextureDataReturn { uses_staging_buffer: false, new_image_commands_recorded: false, existing_image_commands_recorded: false }
        } else if update_position_given {
            ProcessTextureDataReturn { uses_staging_buffer: true, new_image_commands_recorded: false, existing_image_commands_recorded: true }
        } else {
            ProcessTextureDataReturn { uses_staging_buffer: true, new_image_commands_recorded: true, existing_image_commands_recorded: false }
        },
        res.uses_staging_buffer == (res.new_image_commands_recorded || res.existing_image_commands_recorded),
{
    let mut ret = ProcessTextureDataReturn {
        uses_staging_buffer: false,
        existing_image_commands_recorded: false,
        new_image_commands_recorded: false,
    };
    if image_byte_count == 0 {
        return ret;
    }
    if update_position_given {
        if texture_registered {
            // a subregion of an already allocated texture needs to be updated
            ret.existing_image_commands_recorded = true;
        } else {
            // nothing to update: the texture doesn't exist
            return ret;
        }
    } else {
        ret.new_image_commands_recorded = true;
    }
    ret.uses_staging_buffer = true;
    ret
}

/// Whether the commands recorded for a whole texture update must be submitted: creation
/// commands when any delta created an image, update commands when any delta updated one.
pub fn texture_submissions_required(plans: &Vec<ProcessTextureDataReturn>) -> (res: (bool, bool))
    ensures
        res.0 == exists|k: int| 0 <= k < plans@.len() && (#[trigger] plans@[k]).new_image_commands_recorded,
        res.1 == exists|k: int| 0 <= k < plans@.len() && (#[trigger] plans@[k]).existing_image_commands_recorded,
{
    let mut new_image_commands_recorded = false;
    let mut existing_image_commands_recorded = false;
    let n = plans.len();
    let mut i: usize = 0;
    while i < n
        invariant
            n == plans@.len(),
            i <= n,
            new_image_commands_recorded == exists|k: int| 0 <= k < i && (#[trigger] plans@[k]).new_image_commands_recorded,
            existing_image_commands_recorded == exists|k: int| 0 <= k < i && (#[trigger] plans@[k]).existing_image_commands_recorded,
        decreases n - i,
    {
        let plan = plans[i];
        new_image_commands_recorded = new_image_commands_recorded || plan.new_image_commands_recorded;
        existing_image_commands_recorded = existing_image_commands_recorded || plan.existing_image_commands_recorded;
        i += 1;
    }
    (new_image_commands_recorded, existing_image_commands_recorded)
}

/// The sampler of a registered texture must be rewritten when the options differ from those
/// it was created with.
pub fn sampler_update_required(registered_options: Option<TextureOptions>, texture_options: TextureOptions) -> (res: bool)
    ensures
        res == match registered_options {
            Some(previous) => previous != texture_options,
            None => false,
        },
{
    match registered_options {
        Some(previous) => !(previous == texture_options),
        None => false,
    }
}

/// The bytes of a color image: the red, green, blue and alpha bytes of each texel, in order.
pub fn color_image_bytes(pixels: &Vec<[u8; 4]>) -> (res: Vec<u8>)
    ensures
        res@ == pixels@.map_values(|p: [u8; 4]| p@).flatten(),
{
    let n = pixels.len();
    let mut bytes: Vec<u8> = Vec::new();
    let mut i: usize = 0;
    while i < n
        invariant
            n == pixels@.len(),
            i <= n,
            bytes@ == pixels@.take(i as int).map_values(|p: [u8; 4]| p@).flatten(),
        decreases n - i,
    {
        let pixel: [u8; 4] = pixels[i];
        let ghost before = bytes@;
        bytes.extend_from_slice(pixel.as_slice());
        proof {
            assert(bytes@ =~= before + pixel@);
            assert(pixels@.take(i + 1).map_values(|p: [u8; 4]| p@) =~= pixels@.take(i as int).map_values(
                |p: [u8; 4]| p@,
            ).push(pixel@));
            pixels@.take(i as int).map_values(|p: [u8; 4]| p@).lemma_flatten_push(pixel@);
        }
        i += 1;
    }
    proof {
        assert(pixels@.take(n as int) =~= pixels@);
    }
    bytes
}

/// `VK_ERROR_OUT_OF_POOL_MEMORY`
pub const ERROR_OUT_OF_POOL_MEMORY: i32 = -1000069000;
/// `VK_ERROR_FRAGMENTED_POOL`
pub const ERROR_FRAGMENTED_POOL: i32 = -12;

/// A failed font texture descriptor set allocation is retried in a new descriptor pool when
/// the last pool ran out of memory or is fragmented; other failures are errors.
pub fn allocate_in_new_descriptor_pool(allocation_error: i32) -> (res: bool)
    ensures
        res == (allocation_error == ERROR_OUT_OF_POOL_MEMORY || allocation_error == ERROR_FRAGMENTED_POOL),
{
    allocation_error == ERROR_OUT_OF_POOL_MEMORY || allocation_error == ERROR_FRAGMENTED_POOL
}

/// What recording one gui mesh does.
#[derive(Debug, Clone, Copy, PartialEq, Eq, Structural)]
pub enum MeshRecordAction {
    /// Nothing to draw without vertices and indices.
    Skip,
    /// Draw the mesh with its texture.
    Draw,
    /// Fail: the mesh requires a texture which doesn't exist.
    MissingTexture,
}

/// A mesh without vertices or indices is skipped; one whose texture is not registered fails
/// the recording; any other mesh is drawn.
pub fn mesh_record_action(vertex_count: usize, index_count: usize, texture_registered: bool) -> (res: MeshRecordAction)
    ensures
        res == if vertex_count == 0 || index_count == 0 {
            MeshRecordAction::Skip
        } else if !texture_registered {
            MeshRecordAction::MissingTexture
        } else {
            MeshRecordAction::Draw
        },
{
    if vertex_count == 0 || index_count == 0 {
        MeshRecordAction::Skip
    } else if !texture_registered {
        MeshRecordAction::MissingTexture
    } else {
        MeshRecordAction::Draw
    }
}

/// Errors of recording the gui's commands.
#[derive(Debug, Clone, Copy, PartialEq, Eq, Structural)]
pub enum GuiRendererError {
    /// Mesh requires a texture which doesn't exist (may have been prematurely destroyed or not yet created...)
    TextureDescSetMissing { id: TextureId },
}

/// The next step after a vertex or index buffer allocation ran out of memory in a pool.
#[derive(Debug, Clone, Copy, PartialEq, Eq, Structural)]
pub enum BufferPoolStep {
    /// Try the next existing pool, at this index.
    TryPool(usize),
    /// Every pool was tried: create a new one and try it a final time.
    CreatePool,
}

/// Which of the gui's vertex/index buffer pools is tried next. All the pools are tried in
/// order before a new one is created; the first pool is used again once the previous
/// frame's buffers are freed.
pub struct BufferPoolCursor {
    current_buffer_pool_index: usize,
    buffer_pool_count: usize,
}

impl BufferPoolCursor {
    #[verifier::type_invariant]
    closed spec fn index_in_range(self) -> bool {
        0 < self.buffer_pool_count && self.current_buffer_pool_index <= self.buffer_pool_count
    }

    pub closed spec fn current_index(self) -> int {
        self.current_buffer_pool_index as int
    }

    pub closed spec fn pool_count(self) -> int {
        self.buffer_pool_count as int
    }

    /// The cursor over the initial pool.
    pub fn new() -> (res: Self)
        ensures
            res.current_index() == 0,
            res.pool_count() == 1,
    {
        BufferPoolCursor { current_buffer_pool_index: 0, buffer_pool_count: 1 }
    }

    /// The pool to allocate from now.
    pub fn current_buffer_pool_index(&self) -> (res: usize)
        requires
            self.current_index() < self.pool_count(),
        ensures
            res == self.current_index(),
    {
        self.current_buffer_pool_index
    }

    /// The number of pools.
    pub fn buffer_pool_count(&self) -> (res: usize)
        ensures
            res == self.pool_count(),
    {
        self.buffer_pool_count
    }

    /// The allocation in the current pool ran out of memory: moves to the next pool.
    pub fn out_of_memory(&mut self) -> (res: BufferPoolStep)
        requires
            old(self).current_index() < old(self).pool_count(),
        ensures
            final(self).current_index() == old(self).current_index() + 1,
            final(self).pool_count() == old(self).pool_count(),
            res == if final(self).current_index() < final(self).pool_count() {
                BufferPoolStep::TryPool(final(self).current_index() as usize)
            } else {
                BufferPoolStep::CreatePool
            },
    {
        proof {
            use_type_invariant(&*self);
        }
        self.current_buffer_pool_index += 1;
        if self.current_buffer_pool_index < self.buffer_pool_count {
            BufferPoolStep::TryPool(self.current_buffer_pool_index)
        } else {
            BufferPoolStep::CreatePool
        }
    }

    /// A new pool was created after every pool was tried; it is the current one.
    pub fn pool_created(&mut self) -> (res: usize)
        requires
            old(self).current_index() == old(self).pool_count(),
            old(self).pool_count() < usize::MAX,
        ensures
            final(self).pool_count() == old(self).pool_count() + 1,
            final(self).current_index() == old(self).current_index(),
            res == final(self).current_index(),
            final(self).current_index() < final(self).pool_count(),
    {
        proof {
            use_type_invariant(&*self);
        }
        self.buffer_pool_count += 1;
        self.current_buffer_pool_index
    }

    /// The previous frame's buffers were freed: the first pool is used again.
    pub fn reset(&mut self)
        ensures
            final(self).current_index() == 0,
            final(self).pool_count() == old(self).pool_count(),
    {
        proof {
            use_type_invariant(&*self);
        }
        self.current_buffer_pool_index = 0;
    }
}


/// A layout transition of a whole texture image (`VkImageMemoryBarrier2`).
#[derive(Debug, Clone, Copy, PartialEq, Eq, Structural)]
pub struct ImageBarrier {
    pub src_stage_mask: u64,
    pub src_access_mask: u64,
    pub dst_stage_mask: u64,
    pub dst_access_mask: u64,
    pub old_layout: i32,
    pub new_layout: i32,
    pub src_queue_family_index: u32,
    pub dst_queue_family_index: u32,
}

/// The region of a texture image that a staging buffer is copied to (`VkBufferImageCopy`,
/// from offset 0 of the buffer, tightly packed, one layer deep).
#[derive(Debug, Clone, Copy, PartialEq, Eq, Structural)]
pub struct TextureCopyRegion {
    pub offset_x: i32,
    pub offset_y: i32,
    pub width: u32,
    pub height: u32,
}

/// The commands recorded to create a texture from a staging buffer.
#[derive(Debug, Clone, Copy, PartialEq, Eq, Structural)]
pub struct NewTextureCommands {
    /// On the transfer command buffer: the new image becomes a copy destination.
    pub before_transfer_barrier: ImageBarrier,
    /// The copy from the staging buffer, into the image in `IMAGE_LAYOUT_TRANSFER_DST_OPTIMAL`.
    pub copy_region: TextureCopyRegion,
    /// On the transfer command buffer: the image becomes readable by the gui fragment shader,
    /// or is released to the render queue family.
    pub after_transfer_barrier: ImageBarrier,
    /// On the render sync command buffer, when the queue families differ: the identical
    /// acquire operation that completes the layout transition.
    pub before_render_barrier: Option<ImageBarrier>,
}

/// The barrier that makes a written texture readable by the gui fragment shader, on the
/// transfer queue side (a release with no destination use when the families differ).
pub open spec fn texture_ready_barrier(transfer_queue_family_index: u32, render_queue_family_index: u32, release: bool) -> ImageBarrier {
    ImageBarrier {
        src_stage_mask: PIPELINE_STAGE_2_TRANSFER,
        src_access_mask: ACCESS_2_TRANSFER_WRITE,
        dst_stage_mask: if release { 0 } else { PIPELINE_STAGE_2_FRAGMENT_SHADER },
        dst_access_mask: if release { 0 } else { ACCESS_2_SHADER_READ },
        old_layout: IMAGE_LAYOUT_TRANSFER_DST_OPTIMAL,
        new_layout: IMAGE_LAYOUT_SHADER_READ_ONLY_OPTIMAL,
        src_queue_family_index: transfer_queue_family_index,
        dst_queue_family_index: render_queue_family_index,
    }
}

/// The commands that create a `width` by `height` texture from a staging buffer recorded for
/// `transfer_queue_family_index` and sampled on `render_queue_family_index`.
pub open spec fn create_new_texture_commands_of(
    transfer_queue_family_index: u32,
    render_queue_family_index: u32,
    width: usize,
    height: usize,
) -> NewTextureCommands {
    let different_queue_family_indices = render_queue_family_index != transfer_queue_family_index;
    NewTextureCommands {
        before_transfer_barrier: ImageBarrier {
            src_stage_mask: 0,
            src_access_mask: 0,
            dst_stage_mask: PIPELINE_STAGE_2_TRANSFER,
            dst_access_mask: ACCESS_2_TRANSFER_WRITE,
            old_layout: IMAGE_LAYOUT_UNDEFINED,
            new_layout: IMAGE_LAYOUT_TRANSFER_DST_OPTIMAL,
            src_queue_family_index: 0,
            dst_queue_family_index: 0,
        },
        copy_region: TextureCopyRegion { offset_x: 0, offset_y: 0, width: width as u32, height: height as u32 },
        after_transfer_barrier: texture_ready_barrier(
            transfer_queue_family_index,
            render_queue_family_index,
            different_queue_family_indices,
        ),
        before_render_barrier: if different_queue_family_indices {
            Some(
                ImageBarrier {
                    src_stage_mask: 0,
                    src_access_mask: 0,
                    ..texture_ready_barrier(transfer_queue_family_index, render_queue_family_index, false)
                },
            )
        } else {
            None
        },
    }
}

/// The barriers and copy that `create_new_texture` records for a `width` by `height` image
/// (each dimension converted to `u32`, truncating).
pub fn create_new_texture_commands(
    transfer_queue_family_index: u32,
    render_queue_family_index: u32,
    width: usize,
    height: usize,
) -> (res: NewTextureCommands)
    ensures
        res == create_new_texture_commands_of(transfer_queue_family_index, render_queue_family_index, width, height),
        res.copy_region == (TextureCopyRegion { offset_x: 0, offset_y: 0, width: width as u32, height: height as u32 }),
{
    let different_queue_family_indices = render_queue_family_index != transfer_queue_family_index;

    // we need to transition the image layout to TRANSFER_DST_OPTIMAL
    let before_transfer_barrier = ImageBarrier {
        src_stage_mask: 0,
        src_access_mask: 0,
        dst_stage_mask: PIPELINE_STAGE_2_TRANSFER,
        dst_access_mask: ACCESS_2_TRANSFER_WRITE,
        old_layout: IMAGE_LAYOUT_UNDEFINED,
        new_layout: IMAGE_LAYOUT_TRANSFER_DST_OPTIMAL,
        src_queue_family_index: 0,
        dst_queue_family_index: 0,
    };
    let copy_region = TextureCopyRegion {
        offset_x: 0,
        offset_y: 0,
        width: #[verifier::truncate] (width as u32),
        height: #[verifier::truncate] (height as u32),
    };

    // then transition to SHADER_READ_ONLY_OPTIMAL (and perform queue release if transfer and
    // render queue families are different)
    let mut dst_stage_mask = PIPELINE_STAGE_2_FRAGMENT_SHADER;
    let mut dst_access_mask = ACCESS_2_SHADER_READ;
    if different_queue_family_indices {
        // a queue release operation: these values are ignored by the driver, they are set to
        // none for the validation layers
        dst_stage_mask = 0;
        dst_access_mask = 0;
    }
    let after_transfer_barrier = ImageBarrier {
        src_stage_mask: PIPELINE_STAGE_2_TRANSFER,
        src_access_mask: ACCESS_2_TRANSFER_WRITE,
        dst_stage_mask,
        dst_access_mask,
        old_layout: IMAGE_LAYOUT_TRANSFER_DST_OPTIMAL,
        new_layout: IMAGE_LAYOUT_SHADER_READ_ONLY_OPTIMAL,
        src_queue_family_index: transfer_queue_family_index,
        dst_queue_family_index: render_queue_family_index,
    };

    // an identical queue acquire operation is required to complete the layout transition
    let before_render_barrier = if different_queue_family_indices {
        Some(
            ImageBarrier {
                src_stage_mask: 0,
                src_access_mask: 0,
                dst_stage_mask: PIPELINE_STAGE_2_FRAGMENT_SHADER,
                dst_access_mask: ACCESS_2_SHADER_READ,
                old_layout: IMAGE_LAYOUT_TRANSFER_DST_OPTIMAL,
                new_layout: IMAGE_LAYOUT_SHADER_READ_ONLY_OPTIMAL,
                src_queue_family_index: transfer_queue_family_index,
                dst_queue_family_index: render_queue_family_index,
            },
        )
    } else {
        None
    };
    NewTextureCommands { before_transfer_barrier, copy_region, after_transfer_barrier, before_render_barrier }
}

/// The commands recorded on the render queue to update a region of an existing texture.
#[derive(Debug, Clone, Copy, PartialEq, Eq, Structural)]
pub struct TextureUpdateCommands {
    /// The image leaves the fragment shader's read layout to be a copy destination.
    pub to_transfer_dst_barrier: ImageBarrier,
    /// The copy from the staging buffer, into the image in `IMAGE_LAYOUT_TRANSFER_DST_OPTIMAL`.
    pub copy_region: TextureCopyRegion,
    /// The image goes back to the fragment shader's read layout.
    pub to_shader_read_barrier: ImageBarrier,
}

/// The commands that update the `width` by `height` region at `update_pos` of an existing
/// texture.
pub open spec fn upload_existing_font_texture_commands_of(update_pos: [usize; 2], width: usize, height: usize) -> TextureUpdateCommands {
    TextureUpdateCommands {
        to_transfer_dst_barrier: ImageBarrier {
            src_stage_mask: PIPELINE_STAGE_2_FRAGMENT_SHADER,
            src_access_mask: ACCESS_2_SHADER_READ,
            dst_stage_mask: PIPELINE_STAGE_2_TRANSFER,
            dst_access_mask: ACCESS_2_TRANSFER_WRITE,
            old_layout: IMAGE_LAYOUT_SHADER_READ_ONLY_OPTIMAL,
            new_layout: IMAGE_LAYOUT_TRANSFER_DST_OPTIMAL,
            src_queue_family_index: 0,
            dst_queue_family_index: 0,
        },
        copy_region: TextureCopyRegion {
            offset_x: update_pos[0] as i32,
            offset_y: update_pos[1] as i32,
            width: width as u32,
            height: height as u32,
        },
        to_shader_read_barrier: ImageBarrier {
            src_stage_mask: PIPELINE_STAGE_2_TRANSFER,
            src_access_mask: ACCESS_2_TRANSFER_WRITE,
            dst_stage_mask: PIPELINE_STAGE_2_FRAGMENT_SHADER,
            dst_access_mask: ACCESS_2_SHADER_READ,
            old_layout: IMAGE_LAYOUT_TRANSFER_DST_OPTIMAL,
            new_layout: IMAGE_LAYOUT_SHADER_READ_ONLY_OPTIMAL,
            src_queue_family_index: 0,
            dst_queue_family_index: 0,
        },
    }
}

/// The barriers and copy that `upload_existing_font_texture` records for a `width` by
/// `height` region at `update_pos` (each number converted as `as` converts it, truncating).
pub fn upload_existing_font_texture_commands(update_pos: [usize; 2], width: usize, height: usize) -> (res:
    TextureUpdateCommands)
    ensures
        res == upload_existing_font_texture_commands_of(update_pos, width, height),
        res.copy_region == (TextureCopyRegion {
            offset_x: update_pos[0] as i32,
            offset_y: update_pos[1] as i32,
            width: width as u32,
            height: height as u32,
        }),
{
    TextureUpdateCommands {
        to_transfer_dst_barrier: ImageBarrier {
            src_stage_mask: PIPELINE_STAGE_2_FRAGMENT_SHADER,
            src_access_mask: ACCESS_2_SHADER_READ,
            dst_stage_mask: PIPELINE_STAGE_2_TRANSFER,
            dst_access_mask: ACCESS_2_TRANSFER_WRITE,
            old_layout: IMAGE_LAYOUT_SHADER_READ_ONLY_OPTIMAL,
            new_layout: IMAGE_LAYOUT_TRANSFER_DST_OPTIMAL,
            src_queue_family_index: 0,
            dst_queue_family_index: 0,
        },
        copy_region: TextureCopyRegion {
            offset_x: #[verifier::truncate] (update_pos[0] as i32),
            offset_y: #[verifier::truncate] (update_pos[1] as i32),
            width: #[verifier::truncate] (width as u32),
            height: #[verifier::truncate] (height as u32),
        },
        to_shader_read_barrier: ImageBarrier {
            src_stage_mask: PIPELINE_STAGE_2_TRANSFER,
            src_access_mask: ACCESS_2_TRANSFER_WRITE,
            dst_stage_mask: PIPELINE_STAGE_2_FRAGMENT_SHADER,
            dst_access_mask: ACCESS_2_SHADER_READ,
            old_layout: IMAGE_LAYOUT_TRANSFER_DST_OPTIMAL,
            new_layout: IMAGE_LAYOUT_SHADER_READ_ONLY_OPTIMAL,
            src_queue_family_index: 0,
            dst_queue_family_index: 0,
        },
    }
}

/// An upload writes exactly the delta's texels: a region update copies a `width` by
/// `height` region (in that order) at `update_pos`, a new texture is written whole from its
/// origin, for every position and size.
pub proof fn lemma_texture_copy_regions(
    transfer_queue_family_index: u32,
    render_queue_family_index: u32,
    update_pos: [usize; 2],
    width: usize,
    height: usize,
)
    ensures
        upload_existing_font_texture_commands_of(update_pos, width, height).copy_region.offset_x == update_pos[0] as i32,
        upload_existing_font_texture_commands_of(update_pos, width, height).copy_region.offset_y == update_pos[1] as i32,
        upload_existing_font_texture_commands_of(update_pos, width, height).copy_region.width == width as u32,
        upload_existing_font_texture_commands_of(update_pos, width, height).copy_region.height == height as u32,
        create_new_texture_commands_of(transfer_queue_family_index, render_queue_family_index, width, height).copy_region
            == (TextureCopyRegion { offset_x: 0, offset_y: 0, width: width as u32, height: height as u32 }),
{
}

/// Every texture upload leaves the image in the layout the gui fragment shader reads: a new
/// image goes from undefined to the copy layout to the read layout, the acquire (when the
/// queue families differ) repeats the release's transition and families and hands the image
/// to the fragment shader; an update goes from the read layout to the copy layout and back.
/// Each transition orders the transfer write after (or before) the fragment shader's read,
/// and a new image moves from the transfer to the render queue family. A new texture is
/// written whole, from its origin.
pub proof fn lemma_texture_uploads_end_readable(
    transfer_queue_family_index: u32,
    render_queue_family_index: u32,
    width: usize,
    height: usize,
    update_pos: [usize; 2],
)
    ensures
        ({
            let c = create_new_texture_commands_of(transfer_queue_family_index, render_queue_family_index, width, height);
            &&& c.before_transfer_barrier.old_layout == IMAGE_LAYOUT_UNDEFINED
            &&& c.before_transfer_barrier.new_layout == IMAGE_LAYOUT_TRANSFER_DST_OPTIMAL
            &&& c.after_transfer_barrier.old_layout == c.before_transfer_barrier.new_layout
            &&& c.after_transfer_barrier.new_layout == IMAGE_LAYOUT_SHADER_READ_ONLY_OPTIMAL
            &&& c.before_transfer_barrier.dst_stage_mask == PIPELINE_STAGE_2_TRANSFER
            &&& c.before_transfer_barrier.dst_access_mask == ACCESS_2_TRANSFER_WRITE
            &&& c.after_transfer_barrier.src_stage_mask == PIPELINE_STAGE_2_TRANSFER
            &&& c.after_transfer_barrier.src_access_mask == ACCESS_2_TRANSFER_WRITE
            &&& c.after_transfer_barrier.src_queue_family_index == transfer_queue_family_index
            &&& c.after_transfer_barrier.dst_queue_family_index == render_queue_family_index
            &&& c.copy_region.offset_x == 0 && c.copy_region.offset_y == 0
            &&& c.copy_region.width == width as u32 && c.copy_region.height == height as u32
            &&& (c.before_render_barrier is Some) == (transfer_queue_family_index != render_queue_family_index)
            &&& c.before_render_barrier matches Some(acquire) ==> {
                &&& acquire.old_layout == c.after_transfer_barrier.old_layout
                &&& acquire.new_layout == c.after_transfer_barrier.new_layout
                &&& acquire.src_queue_family_index == c.after_transfer_barrier.src_queue_family_index
                &&& acquire.dst_queue_family_index == c.after_transfer_barrier.dst_queue_family_index
                &&& acquire.dst_stage_mask == PIPELINE_STAGE_2_FRAGMENT_SHADER
                &&& acquire.dst_access_mask == ACCESS_2_SHADER_READ
                &&& c.after_transfer_barrier.dst_stage_mask == 0 && c.after_transfer_barrier.dst_access_mask == 0
            }
            &&& c.before_render_barrier is None ==> c.after_transfer_barrier.dst_stage_mask
                == PIPELINE_STAGE_2_FRAGMENT_SHADER && c.after_transfer_barrier.dst_access_mask == ACCESS_2_SHADER_READ
        }),
        ({
            let u = upload_existing_font_texture_commands_of(update_pos, width, height);
            &&& u.to_transfer_dst_barrier.old_layout == IMAGE_LAYOUT_SHADER_READ_ONLY_OPTIMAL
            &&& u.to_transfer_dst_barrier.new_layout == u.to_shader_read_barrier.old_layout
            &&& u.to_shader_read_barrier.old_layout == IMAGE_LAYOUT_TRANSFER_DST_OPTIMAL
            &&& u.to_shader_read_barrier.new_layout == u.to_transfer_dst_barrier.old_layout
            &&& u.to_transfer_dst_barrier.src_stage_mask == PIPELINE_STAGE_2_FRAGMENT_SHADER
            &&& u.to_transfer_dst_barrier.src_access_mask == ACCESS_2_SHADER_READ
            &&& u.to_transfer_dst_barrier.dst_stage_mask == PIPELINE_STAGE_2_TRANSFER
            &&& u.to_transfer_dst_barrier.dst_access_mask == ACCESS_2_TRANSFER_WRITE
            &&& u.to_shader_read_barrier.src_stage_mask == PIPELINE_STAGE_2_TRANSFER
            &&& u.to_shader_read_barrier.src_access_mask == ACCESS_2_TRANSFER_WRITE
            &&& u.to_shader_read_barrier.dst_stage_mask == PIPELINE_STAGE_2_FRAGMENT_SHADER
            &&& u.to_shader_read_barrier.dst_access_mask == ACCESS_2_SHADER_READ
        }),
{
}

} // verus!
