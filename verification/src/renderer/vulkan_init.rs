//! Choice of the physical device and of its queue families, and the layout of the render
//! pass.
use crate::renderer::config_renderer::{FORMAT_NORMAL_BUFFER, FORMAT_PRIMITIVE_ID_BUFFER};
use crate::renderer::vulkan_helper::{contains_name, lists_name};
use crate::renderer::vulkan_init::render_pass_indices::{
    ATTACHMENT_DEPTH_BUFFER, ATTACHMENT_NORMAL, ATTACHMENT_PRIMITIVE_ID, ATTACHMENT_SWAPCHAIN, NUM_ATTACHMENTS,
    NUM_SUBPASSES, SUBPASS_DEFERRED, SUBPASS_GBUFFER,
};
use vstd::prelude::*;

pub mod render_pass_indices;

verus! {

/// The device extensions the renderer requires.
pub fn required_device_extensions() -> (res: [&'static str; 2])
    ensures
        res[0]@ == "VK_KHR_swapchain"@,
        res[1]@ == "VK_EXT_descriptor_indexing"@,
{
    ["VK_KHR_swapchain", "VK_EXT_descriptor_indexing"]
}

/// The device offers every extension of `required_device_extensions`, among the names of
/// `available_extensions`.
pub fn supports_required_extensions(available_extensions: &Vec<String>) -> (res: bool)
    ensures
        res == (lists_name(available_extensions@, "VK_KHR_swapchain"@) && lists_name(
            available_extensions@,
            "VK_EXT_descriptor_indexing"@,
        )),
{
    let required = required_device_extensions();
    contains_name(available_extensions, required[0]) && contains_name(available_extensions, required[1])
}

/// The device supports the instance's api version: its own (packed) version is at least that.
pub fn supports_api_version(device_api_version: u32, instance_api_version: u32) -> (res: bool)
    ensures
        res == (device_api_version >= instance_api_version),
{
    device_api_version >= instance_api_version
}

/// The Vulkan 1.2 device features the renderer reads or requests.
#[derive(Debug, Clone, Copy, PartialEq, Eq, Structural)]
pub struct DeviceFeatures12 {
    pub descriptor_indexing: bool,
    pub runtime_descriptor_array: bool,
    pub descriptor_binding_variable_descriptor_count: bool,
    pub shader_storage_buffer_array_non_uniform_indexing: bool,
    pub descriptor_binding_partially_bound: bool,
}

/// `supported` offers every feature that `required` asks for.
pub open spec fn features_include(supported: DeviceFeatures12, required: DeviceFeatures12) -> bool {
    &&& required.descriptor_indexing ==> supported.descriptor_indexing
    &&& required.runtime_descriptor_array ==> supported.runtime_descriptor_array
    &&& required.descriptor_binding_variable_descriptor_count ==> supported.descriptor_binding_variable_descriptor_count
    &&& required.shader_storage_buffer_array_non_uniform_indexing ==> supported.shader_storage_buffer_array_non_uniform_indexing
    &&& required.descriptor_binding_partially_bound ==> supported.descriptor_binding_partially_bound
}

/// Make sure to update `required_features_1_2` too!
pub fn supports_required_features_1_2(supported_features: DeviceFeatures12) -> (res: bool)
    ensures
        res == (supported_features.descriptor_indexing
            && supported_features.runtime_descriptor_array
            && supported_features.descriptor_binding_variable_descriptor_count
            && supported_features.shader_storage_buffer_array_non_uniform_indexing
            && supported_features.descriptor_binding_partially_bound),
{
    supported_features.descriptor_indexing
        && supported_features.runtime_descriptor_array
        && supported_features.descriptor_binding_variable_descriptor_count
        && supported_features.shader_storage_buffer_array_non_uniform_indexing
        && supported_features.descriptor_binding_partially_bound
}

/// Make sure to update `supports_required_features_1_2` too!
pub fn required_features_1_2() -> (res: DeviceFeatures12)
    ensures
        res == (DeviceFeatures12 {
            descriptor_indexing: true,
            runtime_descriptor_array: true,
            descriptor_binding_variable_descriptor_count: true,
            shader_storage_buffer_array_non_uniform_indexing: true,
            descriptor_binding_partially_bound: true,
        }),
{
    DeviceFeatures12 {
        descriptor_indexing: true,
        runtime_descriptor_array: true,
        descriptor_binding_variable_descriptor_count: true,
        shader_storage_buffer_array_non_uniform_indexing: true,
        descriptor_binding_partially_bound: true,
    }
}

/// The check and the request agree: a device passes `supports_required_features_1_2`
/// exactly when it offers every feature that `required_features_1_2` requests.
pub proof fn lemma_required_features_agree(supported: DeviceFeatures12)
    ensures
        (supported.descriptor_indexing && supported.runtime_descriptor_array
            && supported.descriptor_binding_variable_descriptor_count
            && supported.shader_storage_buffer_array_non_uniform_indexing
            && supported.descriptor_binding_partially_bound) <==> features_include(
            supported,
            DeviceFeatures12 {
                descriptor_indexing: true,
                runtime_descriptor_array: true,
                descriptor_binding_variable_descriptor_count: true,
                shader_storage_buffer_array_non_uniform_indexing: true,
                descriptor_binding_partially_bound: true,
            },
        ),
{
}

/// `VK_QUEUE_GRAPHICS_BIT`
pub const QUEUE_GRAPHICS: u32 = 0x1;
/// `VK_QUEUE_COMPUTE_BIT`
pub const QUEUE_COMPUTE: u32 = 0x2;
/// `VK_QUEUE_TRANSFER_BIT`
pub const QUEUE_TRANSFER: u32 = 0x4;

/// A queue family as the device describes it, with whether it can present to the surface.
#[derive(Debug, Clone, Copy, PartialEq, Eq, Structural)]
pub struct QueueFamily {
    /// The raw `VkQueueFlags` of the family.
    pub queue_flags: u32,
    /// Whether the family can present to the window surface (false when the query failed).
    pub surface_support: bool,
}

/// The flags hold every bit of `bits`.
pub open spec fn flags_contain(flags: u32, bits: u32) -> bool {
    flags & bits == bits
}

/// `flags_contain`, computed.
pub fn queue_flags_contain(flags: u32, bits: u32) -> (res: bool)
    ensures
        res == flags_contain(flags, bits),
{
    flags & bits == bits
}

/// A family that can run the renderer: graphics, transfer and presentation.
pub open spec fn is_render_family(family: QueueFamily) -> bool {
    flags_contain(family.queue_flags, QUEUE_GRAPHICS) && flags_contain(family.queue_flags, QUEUE_TRANSFER)
        && family.surface_support
}

/// A family other than the render family that supports transfers.
pub open spec fn is_transfer_candidate(families: Seq<QueueFamily>, render_family: int, i: int) -> bool {
    0 <= i < families.len() && i != render_family && flags_contain(families[i].queue_flags, QUEUE_TRANSFER)
}

/// Transfer-only families are preferred: they are exposed for asynchronous uploads.
pub open spec fn transfer_preference(family: QueueFamily) -> int {
    if !flags_contain(family.queue_flags, QUEUE_GRAPHICS) { 1 } else { 0 }
}

/// `t` is the last of the transfer candidates with the highest preference.
pub open spec fn is_preferred_transfer_family(families: Seq<QueueFamily>, render_family: int, t: int) -> bool {
    &&& is_transfer_candidate(families, render_family, t)
    &&& forall|j: int| #[trigger] is_transfer_candidate(families, render_family, j)
        ==> transfer_preference(families[j]) <= transfer_preference(families[t])
    &&& forall|j: int| #[trigger] is_transfer_candidate(families, render_family, j)
        && transfer_preference(families[j]) == transfer_preference(families[t]) ==> j <= t
}

/// The queue families chosen for rendering and for transfers.
#[derive(Debug, Clone, Copy, PartialEq, Eq, Structural)]
pub struct QueueFamilyChoice {
    pub render_queue_family_index: u32,
    pub transfer_queue_family_index: u32,
}

/// The families chosen on a device whose families are `families`: the first render family,
/// and the preferred transfer family, or the render family when there is no other transfer
/// family. `None` when no family can render, or when the device lacks a required feature.
pub open spec fn queue_family_choice(families: Seq<QueueFamily>, features_supported: bool, res: Option<QueueFamilyChoice>) -> bool {
    match res {
        None => !features_supported || forall|i: int| 0 <= i < families.len() ==> !is_render_family(#[trigger] families[i]),
        Some(choice) => {
            let r = choice.render_queue_family_index as int;
            let t = choice.transfer_queue_family_index as int;
            &&& features_supported
            &&& 0 <= r < families.len()
            &&& is_render_family(families[r])
            &&& forall|i: int| 0 <= i < r ==> !is_render_family(#[trigger] families[i])
            &&& if exists|j: int| #[trigger] is_transfer_candidate(families, r, j) {
                is_preferred_transfer_family(families, r, t)
            } else {
                t == r
            }
        },
    }
}

/// Finds the queue families to use on a device. `supported_features` are the Vulkan 1.2
/// features the device offers; a device lacking a required feature gets `None`.
pub fn check_physical_device_queue_support(
    queue_families: &Vec<QueueFamily>,
    supported_features: DeviceFeatures12,
) -> (res: Option<QueueFamilyChoice>)
    requires
        queue_families@.len() <= u32::MAX,
    ensures
        queue_family_choice(queue_families@, supports_required(supported_features), res),
{
    let n = queue_families.len();
    // get queue family index for main queue: must support our surface and essential operations
    let mut render_family: usize = 0;
    while render_family < n
        invariant
            n == queue_families@.len(),
            render_family <= n,
            forall|i: int| 0 <= i < render_family ==> !is_render_family(#[trigger] queue_families@[i]),
        ensures
            render_family <= n,
            forall|i: int| 0 <= i < render_family ==> !is_render_family(#[trigger] queue_families@[i]),
            render_family < n ==> is_render_family(queue_families@[render_family as int]),
        decreases n - render_family,
    {
        let q = queue_families[render_family];
        if queue_flags_contain(q.queue_flags, QUEUE_GRAPHICS) && queue_flags_contain(q.queue_flags, QUEUE_TRANSFER)
            && q.surface_support {
            break;
        }
        render_family += 1;
    }
    if render_family == n {
        return None;
    }
    // check required device features support
    if !supports_required_features_1_2(supported_features) {
        return None;
    }
    // attempt to find a different queue family that we can use for asynchronous transfer operations
    // e.g. uploading image/buffer data at same time as rendering
    let ghost r = render_family as int;
    let mut best: Option<usize> = None;
    let mut best_preference: u32 = 0;
    let mut i: usize = 0;
    while i < n
        invariant
            n == queue_families@.len(),
            r < n,
            r == render_family,
            i <= n,
            match best {
                None => forall|j: int| 0 <= j < i ==> !#[trigger] is_transfer_candidate(queue_families@, r, j),
                Some(b) => {
                    &&& b < i
                    &&& is_transfer_candidate(queue_families@, r, b as int)
                    &&& best_preference == transfer_preference(queue_families@[b as int])
                    &&& forall|j: int| 0 <= j < i && #[trigger] is_transfer_candidate(queue_families@, r, j)
                        ==> transfer_preference(queue_families@[j]) <= best_preference
                    &&& forall|j: int| 0 <= j < i && #[trigger] is_transfer_candidate(queue_families@, r, j)
                        && transfer_preference(queue_families@[j]) == best_preference ==> j <= b
                },
            },
        decreases n - i,
    {
        let q = queue_families[i];
        if i != render_family && queue_flags_contain(q.queue_flags, QUEUE_TRANSFER) {
            let preference: u32 = if !queue_flags_contain(q.queue_flags, QUEUE_GRAPHICS) { 1 } else { 0 };
            let replace = match best {
                None => true,
                Some(_) => preference >= best_preference,
            };
            if replace {
                best = Some(i);
                best_preference = preference;
            }
        }
        i += 1;
    }
    let transfer_family = match best {
        Some(b) => b,
        None => render_family,
    };
    proof {
        match best {
            None => {
                assert(!exists|j: int| #[trigger] is_transfer_candidate(queue_families@, r, j));
            },
            Some(b) => {
                assert(is_preferred_transfer_family(queue_families@, r, b as int));
            },
        }
    }
    Some(QueueFamilyChoice {
        render_queue_family_index: render_family as u32,
        transfer_queue_family_index: transfer_family as u32,
    })
}

/// Every required feature is supported.
pub open spec fn supports_required(features: DeviceFeatures12) -> bool {
    features.descriptor_indexing && features.runtime_descriptor_array
        && features.descriptor_binding_variable_descriptor_count
        && features.shader_storage_buffer_array_non_uniform_indexing
        && features.descriptor_binding_partially_bound
}

/// The queues requested at device creation.
#[derive(Debug, Clone, Copy, PartialEq, Eq, Structural)]
pub struct DeviceQueuePlan {
    /// A queue is created in the render family, and a second one in the transfer family
    /// when that family differs.
    pub create_transfer_family_queue: bool,
    /// The family of the transfer queue handed back beside the render queue, if any: one is
    /// handed back only when the two families are the same (then it is queue 0 of that
    /// family, the render queue).
    pub returned_transfer_queue_family: Option<u32>,
}

/// The queues of `create_device_and_queues`.
pub fn device_queue_plan(render_queue_family_index: u32, transfer_queue_family_index: u32) -> (res: DeviceQueuePlan)
    ensures
        res.create_transfer_family_queue == (transfer_queue_family_index != render_queue_family_index),
        res.returned_transfer_queue_family == if transfer_queue_family_index != render_queue_family_index {
            None::<u32>
        } else {
            Some(transfer_queue_family_index)
        },
{
    let single_queue = transfer_queue_family_index != render_queue_family_index;
    DeviceQueuePlan {
        create_transfer_family_queue: single_queue,
        returned_transfer_queue_family: if single_queue { None } else { Some(transfer_queue_family_index) },
    }
}

/// The kinds of physical device.
#[derive(Debug, Clone, Copy, PartialEq, Eq, Structural)]
pub enum PhysicalDeviceType {
    Other,
    IntegratedGpu,
    DiscreteGpu,
    VirtualGpu,
    Cpu,
}

/// Preference of device type: discrete, then integrated, virtual, cpu, other.
pub open spec fn device_type_preference(device_type: PhysicalDeviceType) -> int {
    match device_type {
        PhysicalDeviceType::DiscreteGpu => 4,
        PhysicalDeviceType::IntegratedGpu => 3,
        PhysicalDeviceType::VirtualGpu => 2,
        PhysicalDeviceType::Cpu => 1,
        PhysicalDeviceType::Other => 0,
    }
}

/// `device_type_preference`, computed.
pub fn device_type_rank(device_type: PhysicalDeviceType) -> (res: u32)
    ensures
        res == device_type_preference(device_type),
{
    match device_type {
        PhysicalDeviceType::DiscreteGpu => 4,
        PhysicalDeviceType::IntegratedGpu => 3,
        PhysicalDeviceType::VirtualGpu => 2,
        PhysicalDeviceType::Cpu => 1,
        PhysicalDeviceType::Other => 0,
    }
}

/// What the renderer reads of a physical device when choosing one.
pub struct PhysicalDeviceCandidate {
    /// The device supports the instance's api version.
    pub supports_api_version: bool,
    /// The device supports every extension of `required_device_extensions`.
    pub supports_required_extensions: bool,
    /// The Vulkan 1.2 features the device offers.
    pub supported_features: DeviceFeatures12,
    /// The device's queue families, in order.
    pub queue_families: Vec<QueueFamily>,
    pub device_type: PhysicalDeviceType,
}

/// A device the renderer can run on.
pub open spec fn is_suitable_device(device: PhysicalDeviceCandidate) -> bool {
    &&& device.supports_api_version
    &&& device.supports_required_extensions
    &&& supports_required(device.supported_features)
    &&& exists|i: int| 0 <= i < device.queue_families@.len() && is_render_family(#[trigger] device.queue_families@[i])
}

/// `d` is the last of the suitable devices with the most preferred type.
pub open spec fn is_preferred_device(devices: Seq<PhysicalDeviceCandidate>, d: int) -> bool {
    &&& 0 <= d < devices.len()
    &&& is_suitable_device(devices[d])
    &&& forall|j: int| 0 <= j < devices.len() && is_suitable_device(#[trigger] devices[j])
        ==> device_type_preference(devices[j].device_type) <= device_type_preference(devices[d].device_type)
    &&& forall|j: int| 0 <= j < devices.len() && is_suitable_device(#[trigger] devices[j])
        && device_type_preference(devices[j].device_type) == device_type_preference(devices[d].device_type)
        ==> j <= d
}

/// The chosen physical device and queue families.
#[derive(Debug, Clone, Copy, PartialEq, Eq, Structural)]
pub struct ChoosePhysicalDeviceReturn {
    /// Index of the chosen device among the candidates.
    pub physical_device_index: usize,
    pub render_queue_family_index: u32,
    pub transfer_queue_family_index: u32,
}

/// Chooses among the devices the instance enumerates: those that support the api version,
/// the required extensions, the required features and a render queue family, preferring
/// discrete, then integrated, virtual and cpu devices. `None` when no device is suitable.
pub fn choose_physical_device_and_queue_families(devices: &Vec<PhysicalDeviceCandidate>) -> (res: Option<ChoosePhysicalDeviceReturn>)
    requires
        forall|i: int| 0 <= i < devices@.len() ==> (#[trigger] devices@[i]).queue_families@.len() <= u32::MAX,
    ensures
        match res {
            None => forall|i: int| 0 <= i < devices@.len() ==> !is_suitable_device(#[trigger] devices@[i]),
            Some(chosen) => {
                let d = chosen.physical_device_index as int;
                &&& is_preferred_device(devices@, d)
                &&& queue_family_choice(devices@[d].queue_families@, true, Some(QueueFamilyChoice {
                    render_queue_family_index: chosen.render_queue_family_index,
                    transfer_queue_family_index: chosen.transfer_queue_family_index,
                }))
            },
        },
{
    let n = devices.len();
    let mut best: Option<ChoosePhysicalDeviceReturn> = None;
    let mut best_rank: u32 = 0;
    let mut i: usize = 0;
    while i < n
        invariant
            n == devices@.len(),
            i <= n,
            forall|k: int| 0 <= k < devices@.len() ==> (#[trigger] devices@[k]).queue_families@.len() <= u32::MAX,
            match best {
                None => forall|j: int| 0 <= j < i ==> !is_suitable_device(#[trigger] devices@[j]),
                Some(chosen) => {
                    let d = chosen.physical_device_index as int;
                    &&& d < i
                    &&& is_suitable_device(devices@[d])
                    &&& best_rank == device_type_preference(devices@[d].device_type)
                    &&& queue_family_choice(devices@[d].queue_families@, true, Some(QueueFamilyChoice {
                        render_queue_family_index: chosen.render_queue_family_index,
                        transfer_queue_family_index: chosen.transfer_queue_family_index,
                    }))
                    &&& forall|j: int| 0 <= j < i && is_suitable_device(#[trigger] devices@[j])
                        ==> device_type_preference(devices@[j].device_type) <= best_rank
                    &&& forall|j: int| 0 <= j < i && is_suitable_device(#[trigger] devices@[j])
                        && device_type_preference(devices@[j].device_type) == best_rank ==> j <= d
                },
            },
        decreases n - i,
    {
        let device = &devices[i];
        if device.supports_api_version && device.supports_required_extensions {
            let families = check_physical_device_queue_support(&device.queue_families, device.supported_features);
            match families {
                Some(choice) => {
                    let rank = device_type_rank(device.device_type);
                    let replace = match best {
                        None => true,
                        Some(_) => rank >= best_rank,
                    };
                    if replace {
                        best = Some(ChoosePhysicalDeviceReturn {
                            physical_device_index: i,
                            render_queue_family_index: choice.render_queue_family_index,
                            transfer_queue_family_index: choice.transfer_queue_family_index,
                        });
                        best_rank = rank;
                    }
                },
                None => {},
            }
        }
        i += 1;
    }
    best
}


/// `VK_SAMPLE_COUNT_1_BIT`
pub const SAMPLE_COUNT_1: u32 = 0x1;
/// `VK_ATTACHMENT_LOAD_OP_CLEAR`
pub const LOAD_OP_CLEAR: i32 = 1;
/// `VK_ATTACHMENT_STORE_OP_STORE`
pub const STORE_OP_STORE: i32 = 0;
/// `VK_ATTACHMENT_STORE_OP_DONT_CARE`
pub const STORE_OP_DONT_CARE: i32 = 1;
/// `VK_IMAGE_LAYOUT_UNDEFINED`
pub const IMAGE_LAYOUT_UNDEFINED: i32 = 0;
/// `VK_IMAGE_LAYOUT_COLOR_ATTACHMENT_OPTIMAL`
pub const IMAGE_LAYOUT_COLOR_ATTACHMENT_OPTIMAL: i32 = 2;
/// `VK_IMAGE_LAYOUT_SHADER_READ_ONLY_OPTIMAL`
pub const IMAGE_LAYOUT_SHADER_READ_ONLY_OPTIMAL: i32 = 5;
/// `VK_IMAGE_LAYOUT_TRANSFER_DST_OPTIMAL`
pub const IMAGE_LAYOUT_TRANSFER_DST_OPTIMAL: i32 = 7;
/// `VK_IMAGE_LAYOUT_PRESENT_SRC_KHR`
pub const IMAGE_LAYOUT_PRESENT_SRC: i32 = 1000001002;
/// `VK_IMAGE_LAYOUT_DEPTH_ATTACHMENT_OPTIMAL`
pub const IMAGE_LAYOUT_DEPTH_ATTACHMENT_OPTIMAL: i32 = 1000241000;
/// `VK_SUBPASS_EXTERNAL`
pub const SUBPASS_EXTERNAL: u32 = 0xFFFF_FFFF;
/// `VK_PIPELINE_STAGE_FRAGMENT_SHADER_BIT`
pub const PIPELINE_STAGE_FRAGMENT_SHADER: u32 = 0x80;
/// `VK_PIPELINE_STAGE_COLOR_ATTACHMENT_OUTPUT_BIT`
pub const PIPELINE_STAGE_COLOR_ATTACHMENT_OUTPUT: u32 = 0x400;
/// `VK_ACCESS_SHADER_READ_BIT`
pub const ACCESS_SHADER_READ: u32 = 0x20;
/// `VK_ACCESS_COLOR_ATTACHMENT_READ_BIT`
pub const ACCESS_COLOR_ATTACHMENT_READ: u32 = 0x80;
/// `VK_ACCESS_COLOR_ATTACHMENT_WRITE_BIT`
pub const ACCESS_COLOR_ATTACHMENT_WRITE: u32 = 0x100;

/// An attachment of the render pass (`VkAttachmentDescription`, Vulkan enums and flags by
/// their values).
#[derive(Debug, Clone, Copy, PartialEq, Eq, Structural)]
pub struct AttachmentDescription {
    pub format: i32,
    pub samples: u32,
    pub load_op: i32,
    pub store_op: i32,
    /// The layout the image is in at the beginning of the render pass.
    pub initial_layout: i32,
    /// The layout the image transitions to at the end of the render pass.
    pub final_layout: i32,
}

/// A subpass's use of an attachment (`VkAttachmentReference`).
#[derive(Debug, Clone, Copy, PartialEq, Eq, Structural)]
pub struct AttachmentReference {
    pub attachment: u32,
    pub layout: i32,
}

/// A subpass: the attachments it writes and those it reads.
pub struct Subpass {
    pub color_attachments: Vec<AttachmentReference>,
    /// The default reference (attachment 0, undefined layout) where the subpass has no depth
    /// attachment.
    pub depth_attachment: AttachmentReference,
    pub input_attachments: Vec<AttachmentReference>,
}

/// An execution and memory dependency between subpasses (`VkSubpassDependency`).
#[derive(Debug, Clone, Copy, PartialEq, Eq, Structural)]
pub struct SubpassDependency {
    pub src_subpass: u32,
    pub dst_subpass: u32,
    pub src_stage_mask: u32,
    pub dst_stage_mask: u32,
    pub src_access_mask: u32,
    pub dst_access_mask: u32,
}

/// An attachment sampled once, cleared when the render pass begins.
pub open spec fn cleared_attachment(format: i32, store_op: i32, final_layout: i32) -> AttachmentDescription {
    AttachmentDescription {
        format,
        samples: SAMPLE_COUNT_1,
        load_op: LOAD_OP_CLEAR,
        store_op,
        initial_layout: IMAGE_LAYOUT_UNDEFINED,
        final_layout,
    }
}

/// The attachments, at their `render_pass_indices` positions: the swapchain image, stored
/// and left ready to present; the normal and primitive id g-buffers, not stored; the depth
/// buffer, not stored.
pub open spec fn attachment_descriptions_of(swapchain_format: i32, depth_format: i32) -> Seq<AttachmentDescription> {
    seq![
        cleared_attachment(swapchain_format, STORE_OP_STORE, IMAGE_LAYOUT_PRESENT_SRC),
        cleared_attachment(FORMAT_NORMAL_BUFFER, STORE_OP_DONT_CARE, IMAGE_LAYOUT_COLOR_ATTACHMENT_OPTIMAL),
        cleared_attachment(FORMAT_PRIMITIVE_ID_BUFFER, STORE_OP_DONT_CARE, IMAGE_LAYOUT_COLOR_ATTACHMENT_OPTIMAL),
        cleared_attachment(depth_format, STORE_OP_DONT_CARE, IMAGE_LAYOUT_DEPTH_ATTACHMENT_OPTIMAL),
    ]
}

fn cleared(format: i32, store_op: i32, final_layout: i32) -> (res: AttachmentDescription)
    ensures
        res == cleared_attachment(format, store_op, final_layout),
{
    AttachmentDescription {
        format,
        samples: SAMPLE_COUNT_1,
        load_op: LOAD_OP_CLEAR,
        store_op,
        initial_layout: IMAGE_LAYOUT_UNDEFINED,
        final_layout,
    }
}

/// The attachment descriptions of the render pass, for a swapchain of `swapchain_format`
/// and a depth buffer of `depth_format`.
pub fn attachment_descriptions(swapchain_format: i32, depth_format: i32) -> (res: [AttachmentDescription; 4])
    ensures
        res@ == attachment_descriptions_of(swapchain_format, depth_format),
        res[ATTACHMENT_SWAPCHAIN as int] == (AttachmentDescription {
            format: swapchain_format,
            samples: SAMPLE_COUNT_1,
            load_op: LOAD_OP_CLEAR,
            store_op: STORE_OP_STORE,
            initial_layout: IMAGE_LAYOUT_UNDEFINED,
            final_layout: IMAGE_LAYOUT_PRESENT_SRC,
        }),
        res[ATTACHMENT_NORMAL as int] == (AttachmentDescription {
            format: FORMAT_NORMAL_BUFFER,
            samples: SAMPLE_COUNT_1,
            load_op: LOAD_OP_CLEAR,
            store_op: STORE_OP_DONT_CARE,
            initial_layout: IMAGE_LAYOUT_UNDEFINED,
            final_layout: IMAGE_LAYOUT_COLOR_ATTACHMENT_OPTIMAL,
        }),
        res[ATTACHMENT_PRIMITIVE_ID as int] == (AttachmentDescription {
            format: FORMAT_PRIMITIVE_ID_BUFFER,
            samples: SAMPLE_COUNT_1,
            load_op: LOAD_OP_CLEAR,
            store_op: STORE_OP_DONT_CARE,
            initial_layout: IMAGE_LAYOUT_UNDEFINED,
            final_layout: IMAGE_LAYOUT_COLOR_ATTACHMENT_OPTIMAL,
        }),
        res[ATTACHMENT_DEPTH_BUFFER as int] == (AttachmentDescription {
            format: depth_format,
            samples: SAMPLE_COUNT_1,
            load_op: LOAD_OP_CLEAR,
            store_op: STORE_OP_DONT_CARE,
            initial_layout: IMAGE_LAYOUT_UNDEFINED,
            final_layout: IMAGE_LAYOUT_DEPTH_ATTACHMENT_OPTIMAL,
        }),
{
    let res = [
        // swapchain
        cleared(swapchain_format, STORE_OP_STORE, IMAGE_LAYOUT_PRESENT_SRC),
        // normal buffer
        cleared(FORMAT_NORMAL_BUFFER, STORE_OP_DONT_CARE, IMAGE_LAYOUT_COLOR_ATTACHMENT_OPTIMAL),
        // primitive id buffer
        cleared(FORMAT_PRIMITIVE_ID_BUFFER, STORE_OP_DONT_CARE, IMAGE_LAYOUT_COLOR_ATTACHMENT_OPTIMAL),
        // depth buffer
        cleared(depth_format, STORE_OP_DONT_CARE, IMAGE_LAYOUT_DEPTH_ATTACHMENT_OPTIMAL),
    ];
    assert(res@ =~= attachment_descriptions_of(swapchain_format, depth_format));
    res
}

/// The color attachments of the g-buffer subpass, the g-buffers it outputs: the normal
/// buffer and the primitive id buffer.
pub open spec fn gbuffer_color_attachments() -> Seq<AttachmentReference> {
    seq![
        AttachmentReference { attachment: ATTACHMENT_NORMAL as u32, layout: IMAGE_LAYOUT_COLOR_ATTACHMENT_OPTIMAL },
        AttachmentReference { attachment: ATTACHMENT_PRIMITIVE_ID as u32, layout: IMAGE_LAYOUT_COLOR_ATTACHMENT_OPTIMAL },
    ]
}

/// The depth attachment of the g-buffer subpass.
pub open spec fn gbuffer_depth_attachment() -> AttachmentReference {
    AttachmentReference { attachment: ATTACHMENT_DEPTH_BUFFER as u32, layout: IMAGE_LAYOUT_DEPTH_ATTACHMENT_OPTIMAL }
}

/// The color attachment of the deferred subpass: the swapchain image.
pub open spec fn deferred_color_attachments() -> Seq<AttachmentReference> {
    seq![AttachmentReference { attachment: ATTACHMENT_SWAPCHAIN as u32, layout: IMAGE_LAYOUT_COLOR_ATTACHMENT_OPTIMAL }]
}

/// The input attachments of the deferred subpass: the normal and primitive id g-buffers.
pub open spec fn deferred_input_attachments() -> Seq<AttachmentReference> {
    seq![
        AttachmentReference { attachment: ATTACHMENT_NORMAL as u32, layout: IMAGE_LAYOUT_SHADER_READ_ONLY_OPTIMAL },
        AttachmentReference { attachment: ATTACHMENT_PRIMITIVE_ID as u32, layout: IMAGE_LAYOUT_SHADER_READ_ONLY_OPTIMAL },
    ]
}

/// The default attachment reference, given where a subpass has no depth attachment.
pub open spec fn default_attachment_reference() -> AttachmentReference {
    AttachmentReference { attachment: 0, layout: IMAGE_LAYOUT_UNDEFINED }
}

/// The subpasses, at their `render_pass_indices` positions: the g-buffer subpass writes the
/// g-buffers with depth testing; the deferred subpass reads them as input attachments and
/// writes the swapchain image.
pub fn subpasses() -> (res: [Subpass; 2])
    ensures
        res[SUBPASS_GBUFFER as int].color_attachments@ == gbuffer_color_attachments(),
        res[SUBPASS_GBUFFER as int].depth_attachment == gbuffer_depth_attachment(),
        res[SUBPASS_GBUFFER as int].input_attachments@.len() == 0,
        res[SUBPASS_DEFERRED as int].color_attachments@ == deferred_color_attachments(),
        res[SUBPASS_DEFERRED as int].depth_attachment == default_attachment_reference(),
        res[SUBPASS_DEFERRED as int].input_attachments@ == deferred_input_attachments(),
{
    // g-buffer subpass
    let g_buffer_color_attachments = vec![
        AttachmentReference { attachment: ATTACHMENT_NORMAL as u32, layout: IMAGE_LAYOUT_COLOR_ATTACHMENT_OPTIMAL },
        AttachmentReference { attachment: ATTACHMENT_PRIMITIVE_ID as u32, layout: IMAGE_LAYOUT_COLOR_ATTACHMENT_OPTIMAL },
    ];
    let g_buffer_depth_attachment = AttachmentReference {
        attachment: ATTACHMENT_DEPTH_BUFFER as u32,
        layout: IMAGE_LAYOUT_DEPTH_ATTACHMENT_OPTIMAL,
    };
    let gbuffer = Subpass {
        color_attachments: g_buffer_color_attachments,
        depth_attachment: g_buffer_depth_attachment,
        input_attachments: Vec::new(),
    };

    // deferred subpass
    let deferred_colors = vec![
        AttachmentReference { attachment: ATTACHMENT_SWAPCHAIN as u32, layout: IMAGE_LAYOUT_COLOR_ATTACHMENT_OPTIMAL },
    ];
    let deferred_inputs = vec![
        AttachmentReference { attachment: ATTACHMENT_NORMAL as u32, layout: IMAGE_LAYOUT_SHADER_READ_ONLY_OPTIMAL },
        AttachmentReference { attachment: ATTACHMENT_PRIMITIVE_ID as u32, layout: IMAGE_LAYOUT_SHADER_READ_ONLY_OPTIMAL },
    ];
    let deferred = Subpass {
        color_attachments: deferred_colors,
        depth_attachment: AttachmentReference { attachment: 0, layout: IMAGE_LAYOUT_UNDEFINED },
        input_attachments: deferred_inputs,
    };
    assert(gbuffer.color_attachments@ =~= gbuffer_color_attachments());
    assert(deferred.color_attachments@ =~= deferred_color_attachments());
    assert(deferred.input_attachments@ =~= deferred_input_attachments());
    [gbuffer, deferred]
}

/// The dependencies of the render pass: the deferred subpass waits for the swapchain image
/// to be released by the presentation engine (more efficient swapchain synchronization than
/// the implicit transition), and for the g-buffer subpass's writes to its input attachments.
/// The second has the fragment shader stage as its source stage and no destination stage.
pub open spec fn subpass_dependencies_of() -> Seq<SubpassDependency> {
    seq![
        SubpassDependency {
            src_subpass: SUBPASS_EXTERNAL,
            dst_subpass: SUBPASS_DEFERRED as u32,
            src_stage_mask: PIPELINE_STAGE_COLOR_ATTACHMENT_OUTPUT,
            dst_stage_mask: PIPELINE_STAGE_COLOR_ATTACHMENT_OUTPUT,
            src_access_mask: 0,
            dst_access_mask: ACCESS_COLOR_ATTACHMENT_WRITE | ACCESS_COLOR_ATTACHMENT_READ,
        },
        SubpassDependency {
            src_subpass: SUBPASS_GBUFFER as u32,
            dst_subpass: SUBPASS_DEFERRED as u32,
            src_stage_mask: PIPELINE_STAGE_FRAGMENT_SHADER,
            dst_stage_mask: 0,
            src_access_mask: ACCESS_COLOR_ATTACHMENT_WRITE,
            dst_access_mask: ACCESS_SHADER_READ,
        },
    ]
}

/// The subpass dependencies of the render pass.
pub fn subpass_dependencies() -> (res: [SubpassDependency; 2])
    ensures
        res@ == subpass_dependencies_of(),
{
    let res = [
        SubpassDependency {
            src_subpass: SUBPASS_EXTERNAL,
            dst_subpass: SUBPASS_DEFERRED as u32,
            src_stage_mask: PIPELINE_STAGE_COLOR_ATTACHMENT_OUTPUT,
            dst_stage_mask: PIPELINE_STAGE_COLOR_ATTACHMENT_OUTPUT,
            src_access_mask: 0,
            dst_access_mask: ACCESS_COLOR_ATTACHMENT_WRITE | ACCESS_COLOR_ATTACHMENT_READ,
        },
        // input attachments
        SubpassDependency {
            src_subpass: SUBPASS_GBUFFER as u32,
            dst_subpass: SUBPASS_DEFERRED as u32,
            src_stage_mask: PIPELINE_STAGE_FRAGMENT_SHADER,
            dst_stage_mask: 0,
            src_access_mask: ACCESS_COLOR_ATTACHMENT_WRITE,
            dst_access_mask: ACCESS_SHADER_READ,
        },
    ];
    assert(res@ =~= subpass_dependencies_of());
    res
}

/// For every swapchain and depth format, the render pass has four single-sampled attachments,
/// each cleared when the pass begins: the swapchain image, in the swapchain's format, is
/// stored and left ready to present; the normal (rgba8) and primitive id (u32) g-buffers,
/// in their formats, are not stored and end as color attachments; the depth buffer, in the
/// depth format, is not stored and ends as a depth attachment.
pub proof fn lemma_attachments_of_every_format(swapchain_format: i32, depth_format: i32)
    ensures
        ({
            let res = attachment_descriptions_of(swapchain_format, depth_format);
            &&& res.len() == NUM_ATTACHMENTS
            &&& res[ATTACHMENT_SWAPCHAIN as int] == (AttachmentDescription {
                format: swapchain_format,
                samples: SAMPLE_COUNT_1,
                load_op: LOAD_OP_CLEAR,
                store_op: STORE_OP_STORE,
                initial_layout: IMAGE_LAYOUT_UNDEFINED,
                final_layout: IMAGE_LAYOUT_PRESENT_SRC,
            })
            &&& res[ATTACHMENT_NORMAL as int] == (AttachmentDescription {
                format: FORMAT_NORMAL_BUFFER,
                samples: SAMPLE_COUNT_1,
                load_op: LOAD_OP_CLEAR,
                store_op: STORE_OP_DONT_CARE,
                initial_layout: IMAGE_LAYOUT_UNDEFINED,
                final_layout: IMAGE_LAYOUT_COLOR_ATTACHMENT_OPTIMAL,
            })
            &&& res[ATTACHMENT_PRIMITIVE_ID as int] == (AttachmentDescription {
                format: FORMAT_PRIMITIVE_ID_BUFFER,
                samples: SAMPLE_COUNT_1,
                load_op: LOAD_OP_CLEAR,
                store_op: STORE_OP_DONT_CARE,
                initial_layout: IMAGE_LAYOUT_UNDEFINED,
                final_layout: IMAGE_LAYOUT_COLOR_ATTACHMENT_OPTIMAL,
            })
            &&& res[ATTACHMENT_DEPTH_BUFFER as int] == (AttachmentDescription {
                format: depth_format,
                samples: SAMPLE_COUNT_1,
                load_op: LOAD_OP_CLEAR,
                store_op: STORE_OP_DONT_CARE,
                initial_layout: IMAGE_LAYOUT_UNDEFINED,
                final_layout: IMAGE_LAYOUT_DEPTH_ATTACHMENT_OPTIMAL,
            })
        }),
{
}

/// The deferred subpass waits, at the color attachment output stage, for the swapchain image
/// to be free before writing and reading it as a color attachment; and waits for the
/// g-buffer subpass's color attachment writes before its shaders read them.
pub proof fn lemma_subpass_dependencies_order_the_passes()
    ensures
        subpass_dependencies_of().len() == 2,
        subpass_dependencies_of()[0].src_subpass == SUBPASS_EXTERNAL,
        subpass_dependencies_of()[0].dst_subpass == SUBPASS_DEFERRED,
        subpass_dependencies_of()[0].src_stage_mask == PIPELINE_STAGE_COLOR_ATTACHMENT_OUTPUT,
        subpass_dependencies_of()[0].dst_stage_mask == PIPELINE_STAGE_COLOR_ATTACHMENT_OUTPUT,
        subpass_dependencies_of()[0].src_access_mask == 0,
        subpass_dependencies_of()[0].dst_access_mask == ACCESS_COLOR_ATTACHMENT_WRITE | ACCESS_COLOR_ATTACHMENT_READ,
        subpass_dependencies_of()[1].src_subpass == SUBPASS_GBUFFER,
        subpass_dependencies_of()[1].dst_subpass == SUBPASS_DEFERRED,
        subpass_dependencies_of()[1].src_stage_mask == PIPELINE_STAGE_FRAGMENT_SHADER,
        subpass_dependencies_of()[1].src_access_mask == ACCESS_COLOR_ATTACHMENT_WRITE,
        subpass_dependencies_of()[1].dst_access_mask == ACCESS_SHADER_READ,
{
}

/// The g-buffer subpass writes the normal and the primitive id g-buffers, in that order, as
/// color attachments, testing against the depth buffer; the deferred subpass reads the
/// normal and the primitive id g-buffers, in that order, in the shader-read layout, and
/// writes the swapchain image.
pub proof fn lemma_subpass_attachments()
    ensures
        gbuffer_color_attachments() =~= seq![
            AttachmentReference { attachment: 1, layout: IMAGE_LAYOUT_COLOR_ATTACHMENT_OPTIMAL },
            AttachmentReference { attachment: 2, layout: IMAGE_LAYOUT_COLOR_ATTACHMENT_OPTIMAL },
        ],
        gbuffer_depth_attachment() == (AttachmentReference { attachment: 3, layout: IMAGE_LAYOUT_DEPTH_ATTACHMENT_OPTIMAL }),
        deferred_input_attachments() =~= seq![
            AttachmentReference { attachment: 1, layout: IMAGE_LAYOUT_SHADER_READ_ONLY_OPTIMAL },
            AttachmentReference { attachment: 2, layout: IMAGE_LAYOUT_SHADER_READ_ONLY_OPTIMAL },
        ],
        deferred_color_attachments() =~= seq![
            AttachmentReference { attachment: 0, layout: IMAGE_LAYOUT_COLOR_ATTACHMENT_OPTIMAL },
        ],
        ATTACHMENT_SWAPCHAIN == 0 && ATTACHMENT_NORMAL == 1 && ATTACHMENT_PRIMITIVE_ID == 2
            && ATTACHMENT_DEPTH_BUFFER == 3,
{
}

/// Devices are preferred by type: discrete, then integrated, virtual, cpu, and other; and
/// transfer queue families that cannot do graphics are preferred to those that can.
pub proof fn lemma_preference_orders(family: QueueFamily)
    ensures
        device_type_preference(PhysicalDeviceType::DiscreteGpu) > device_type_preference(PhysicalDeviceType::IntegratedGpu),
        device_type_preference(PhysicalDeviceType::IntegratedGpu) > device_type_preference(PhysicalDeviceType::VirtualGpu),
        device_type_preference(PhysicalDeviceType::VirtualGpu) > device_type_preference(PhysicalDeviceType::Cpu),
        device_type_preference(PhysicalDeviceType::Cpu) > device_type_preference(PhysicalDeviceType::Other),
        transfer_preference(family) == if family.queue_flags & QUEUE_GRAPHICS == QUEUE_GRAPHICS { 0int } else { 1int },
        is_render_family(family) <==> (family.queue_flags & QUEUE_GRAPHICS == QUEUE_GRAPHICS && family.queue_flags
            & QUEUE_TRANSFER == QUEUE_TRANSFER && family.surface_support),
{
}

/// Every attachment reference of the subpasses names one of the render pass's attachments;
/// the deferred subpass reads as input exactly the g-buffers that the g-buffer subpass
/// outputs, and outputs the swapchain image; every dependency runs from an earlier subpass
/// (or from outside the render pass) to a later one.
pub proof fn lemma_render_pass_well_formed()
    ensures
        attachment_descriptions_of(0, 0).len() == NUM_ATTACHMENTS,
        forall|i: int| 0 <= i < gbuffer_color_attachments().len() ==> #[trigger] gbuffer_color_attachments()[i].attachment
            < NUM_ATTACHMENTS,
        gbuffer_depth_attachment().attachment < NUM_ATTACHMENTS,
        forall|i: int| 0 <= i < deferred_color_attachments().len() ==> #[trigger] deferred_color_attachments()[i].attachment
            < NUM_ATTACHMENTS,
        forall|i: int| 0 <= i < deferred_input_attachments().len() ==> #[trigger] deferred_input_attachments()[i].attachment
            < NUM_ATTACHMENTS && deferred_input_attachments()[i].attachment != ATTACHMENT_SWAPCHAIN,
        deferred_input_attachments().len() == gbuffer_color_attachments().len(),
        forall|i: int|
            0 <= i < deferred_input_attachments().len() ==> #[trigger] deferred_input_attachments()[i].attachment
                == gbuffer_color_attachments()[i].attachment,
        deferred_color_attachments() =~= seq![
            AttachmentReference { attachment: ATTACHMENT_SWAPCHAIN as u32, layout: IMAGE_LAYOUT_COLOR_ATTACHMENT_OPTIMAL },
        ],
        forall|i: int|
            0 <= i < subpass_dependencies_of().len() ==> #[trigger] subpass_dependencies_of()[i].dst_subpass
                < NUM_SUBPASSES && (subpass_dependencies_of()[i].src_subpass == SUBPASS_EXTERNAL
                || subpass_dependencies_of()[i].src_subpass < subpass_dependencies_of()[i].dst_subpass),
{
}

} // verus!
