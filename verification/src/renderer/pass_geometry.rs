//! The pipelines of the geometry pass, which draw the objects' bounding meshes into the
//! g-buffers.
use crate::renderer::vulkan_init::gbuffer_color_attachments;
use crate::renderer::vulkan_init::render_pass_indices::{GBUFFER_COLOR_ATTACHMENT_COUNT, SUBPASS_GBUFFER};
use vstd::prelude::*;

verus! {

/// `VK_DYNAMIC_STATE_VIEWPORT`
pub const DYNAMIC_STATE_VIEWPORT: i32 = 0;
/// `VK_DYNAMIC_STATE_SCISSOR`
pub const DYNAMIC_STATE_SCISSOR: i32 = 1;
/// `VK_COMPARE_OP_GREATER_OR_EQUAL`
pub const COMPARE_OP_GREATER_OR_EQUAL: i32 = 6;
/// `VK_CULL_MODE_FRONT_BIT`
pub const CULL_MODE_FRONT: u32 = 0x1;
/// `VK_TRUE`
pub const VK_TRUE: u32 = 1;

/// The fixed state of a geometry pass pipeline.
#[derive(Debug, Clone, Copy)]
pub struct GeometryPipelineState {
    /// Set when commands are recorded.
    pub dynamic_states: [i32; 2],
    pub viewport_count: u32,
    pub scissor_count: u32,
    /// One color blend attachment state, with blending disabled, per g-buffer.
    pub color_attachment_count: u32,
    pub blend_enable: bool,
    pub depth_test_enable: bool,
    pub depth_write_enable: bool,
    pub depth_compare_op: i32,
    pub depth_bounds_test_enable: bool,
    pub stencil_test_enable: bool,
    /// Front faces are culled, so fragments are always on the far side of the bounding
    /// meshes (which allows a path-tracing miss condition optimization).
    pub cull_mode: u32,
    pub subpass_index: u32,
    /// The value of the fragment shader's specialization constant 0 (4 bytes at offset 0),
    /// when the pipeline sets it: `VK_TRUE` for the pipeline that draws the selected object.
    pub selected_object_constant: Option<u32>,
}

/// A geometry pass pipeline, with its fragment shader's specialization constant.
pub open spec fn geometry_pipeline_state(selected_object_constant: Option<u32>) -> GeometryPipelineState {
    GeometryPipelineState {
        dynamic_states: [DYNAMIC_STATE_VIEWPORT, DYNAMIC_STATE_SCISSOR],
        viewport_count: 1,
        scissor_count: 1,
        color_attachment_count: GBUFFER_COLOR_ATTACHMENT_COUNT as u32,
        blend_enable: false,
        depth_test_enable: true,
        depth_write_enable: true,
        depth_compare_op: COMPARE_OP_GREATER_OR_EQUAL,
        depth_bounds_test_enable: false,
        stencil_test_enable: false,
        cull_mode: CULL_MODE_FRONT,
        subpass_index: SUBPASS_GBUFFER as u32,
        selected_object_constant,
    }
}

/// The two pipelines of `create_pipelines`: the one drawing objects, and the one drawing the
/// selected object.
pub open spec fn geometry_pipeline_states_of() -> Seq<GeometryPipelineState> {
    seq![geometry_pipeline_state(None), geometry_pipeline_state(Some(VK_TRUE))]
}

fn pipeline_state(selected_object_constant: Option<u32>) -> (res: GeometryPipelineState)
    ensures
        res == geometry_pipeline_state(selected_object_constant),
{
    GeometryPipelineState {
        dynamic_states: [DYNAMIC_STATE_VIEWPORT, DYNAMIC_STATE_SCISSOR],
        viewport_count: 1,
        scissor_count: 1,
        color_attachment_count: GBUFFER_COLOR_ATTACHMENT_COUNT as u32,
        blend_enable: false,
        depth_test_enable: true,
        depth_write_enable: true,
        depth_compare_op: COMPARE_OP_GREATER_OR_EQUAL,
        depth_bounds_test_enable: false,
        stencil_test_enable: false,
        cull_mode: CULL_MODE_FRONT,
        subpass_index: SUBPASS_GBUFFER as u32,
        selected_object_constant,
    }
}

/// The fixed state of the geometry pass's two pipelines: the one drawing objects, then the
/// one drawing the selected object.
pub fn geometry_pipeline_states() -> (res: [GeometryPipelineState; 2])
    ensures
        res@ == geometry_pipeline_states_of(),
{
    let res = [pipeline_state(None), pipeline_state(Some(VK_TRUE))];
    assert(res@ =~= geometry_pipeline_states_of());
    res
}

/// The two pipelines differ only in the selected-object constant; each writes every color
/// attachment of the subpass it is used in, the g-buffer subpass, without blending.
pub proof fn lemma_geometry_pipelines_match_gbuffer_subpass()
    ensures
        geometry_pipeline_states_of()[1] == (GeometryPipelineState {
            selected_object_constant: Some(VK_TRUE),
            ..geometry_pipeline_states_of()[0]
        }),
        forall|i: int|
            0 <= i < 2 ==> (#[trigger] geometry_pipeline_states_of()[i]).subpass_index == SUBPASS_GBUFFER
                && geometry_pipeline_states_of()[i].color_attachment_count == gbuffer_color_attachments().len()
                && !geometry_pipeline_states_of()[i].blend_enable,
        geometry_pipeline_states_of().len() == 2,
        geometry_pipeline_states_of()[0].selected_object_constant is None,
{
}

/// Both geometry pipelines test and write depth, passing fragments whose depth is greater
/// or equal, without depth bounds or stencil tests; cull front faces; set one viewport and
/// one scissor when recording; and only the second sets the selected-object constant, to
/// `VK_TRUE`.
pub proof fn lemma_geometry_pipelines_depth_and_culling()
    ensures
        forall|i: int|
            0 <= i < 2 ==> {
                let state = #[trigger] geometry_pipeline_states_of()[i];
                &&& state.depth_test_enable && state.depth_write_enable
                &&& state.depth_compare_op == COMPARE_OP_GREATER_OR_EQUAL
                &&& !state.depth_bounds_test_enable && !state.stencil_test_enable
                &&& state.cull_mode == CULL_MODE_FRONT
                &&& state.dynamic_states == [DYNAMIC_STATE_VIEWPORT, DYNAMIC_STATE_SCISSOR]
                &&& state.viewport_count == 1 && state.scissor_count == 1
            },
        geometry_pipeline_states_of()[0].selected_object_constant == None::<u32>,
        geometry_pipeline_states_of()[1].selected_object_constant == Some(VK_TRUE),
{
}

} // verus!
