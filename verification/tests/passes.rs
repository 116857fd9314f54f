use goshenite::renderer::gui_pass::TextureCopyRegion;
use goshenite::renderer::gui_renderer::{
    create_texture_commands, update_textures_plan, GuiRendererUpdatePlan, LayoutTransition, PipelineBarrier,
    TextureDeltaAction,
};
use goshenite::renderer::pass_geometry::geometry_pipeline_states;
use goshenite::engine::object::ObjectId;
use goshenite::renderer::gizmo_pass::{arrow_indices, arrow_mesh};
use goshenite::renderer::gui_pass::{
    mesh_record_action, BufferPoolCursor, BufferPoolStep, MeshRecordAction, ERROR_FRAGMENTED_POOL,
    ERROR_OUT_OF_POOL_MEMORY,
};
use goshenite::renderer::object_resource_manager::{BufferUploadResources, ObjectResourceManager};
use goshenite::renderer::pass_gizmo::{gizmo_draws, linear_arrow_draws, CartesianAxis, GizmoElement, GizmoVisibility};
use goshenite::renderer::shader_interfaces::id_buffer::{ID_GIZMO_X, ID_GIZMO_Y, ID_GIZMO_Z};
use goshenite::renderer::vulkan_helper::{check_debug_validation_support, DebugValidationError};
use goshenite::renderer::vulkan_init::render_pass_indices::{
    ATTACHMENT_DEPTH_BUFFER, ATTACHMENT_NORMAL, ATTACHMENT_PRIMITIVE_ID, ATTACHMENT_SWAPCHAIN, SUBPASS_DEFERRED,
    SUBPASS_GBUFFER,
};
use goshenite::renderer::vulkan_init::{
    attachment_descriptions, device_queue_plan, subpass_dependencies, subpasses, AttachmentReference,
    IMAGE_LAYOUT_COLOR_ATTACHMENT_OPTIMAL, IMAGE_LAYOUT_DEPTH_ATTACHMENT_OPTIMAL, IMAGE_LAYOUT_PRESENT_SRC,
    IMAGE_LAYOUT_SHADER_READ_ONLY_OPTIMAL, IMAGE_LAYOUT_UNDEFINED, LOAD_OP_CLEAR, STORE_OP_DONT_CARE, STORE_OP_STORE,
    SUBPASS_EXTERNAL,
};
use goshenite::renderer::{gui_pass, object_resource_manager};

#[test]
fn gui_meshes_without_geometry_are_skipped() {
    assert_eq!(mesh_record_action(0, 6, true), MeshRecordAction::Skip);
    assert_eq!(mesh_record_action(4, 0, false), MeshRecordAction::Skip);
    assert_eq!(mesh_record_action(4, 6, false), MeshRecordAction::MissingTexture);
    assert_eq!(mesh_record_action(4, 6, true), MeshRecordAction::Draw);
}

#[test]
fn buffer_pools_are_tried_in_turn_before_a_new_one() {
    let mut cursor = BufferPoolCursor::new();
    assert_eq!(cursor.current_buffer_pool_index(), 0);
    assert_eq!(cursor.buffer_pool_count(), 1);
    assert_eq!(cursor.out_of_memory(), BufferPoolStep::CreatePool);
    assert_eq!(cursor.pool_created(), 1);
    assert_eq!(cursor.buffer_pool_count(), 2);
    cursor.reset();
    assert_eq!(cursor.current_buffer_pool_index(), 0);
    assert_eq!(cursor.out_of_memory(), BufferPoolStep::TryPool(1));
    assert_eq!(cursor.out_of_memory(), BufferPoolStep::CreatePool);
    assert_eq!(cursor.pool_created(), 2);
    assert_eq!(cursor.buffer_pool_count(), 3);
}

#[test]
fn descriptor_pools_are_added_on_exhaustion_only() {
    assert!(gui_pass::allocate_in_new_descriptor_pool(ERROR_OUT_OF_POOL_MEMORY));
    assert!(gui_pass::allocate_in_new_descriptor_pool(ERROR_FRAGMENTED_POOL));
    assert!(!gui_pass::allocate_in_new_descriptor_pool(-2));
    assert!(object_resource_manager::allocate_in_new_descriptor_pool(ERROR_OUT_OF_POOL_MEMORY));
    assert!(!object_resource_manager::allocate_in_new_descriptor_pool(ERROR_FRAGMENTED_POOL));
}

#[test]
fn debug_validation_needs_the_extension_then_the_layer() {
    assert_eq!(check_debug_validation_support(false, false), Err(DebugValidationError::DebugUtilsUnsupported));
    assert_eq!(check_debug_validation_support(false, true), Err(DebugValidationError::DebugUtilsUnsupported));
    assert_eq!(check_debug_validation_support(true, false), Err(DebugValidationError::ValidationLayerNotFound));
    assert_eq!(check_debug_validation_support(true, true), Ok(()));
}

#[test]
fn transfer_queue_is_created_only_for_a_separate_family() {
    let separate = device_queue_plan(0, 2);
    assert!(separate.create_transfer_family_queue);
    assert_eq!(separate.returned_transfer_queue_family, None);
    let shared = device_queue_plan(1, 1);
    assert!(!shared.create_transfer_family_queue);
    assert_eq!(shared.returned_transfer_queue_family, Some(1));
}

#[test]
fn object_collection_uploads_in_order_and_replaces_duplicates() {
    let mut manager: ObjectResourceManager<&str, u32, ()> = ObjectResourceManager::new();
    let handed_back = manager.upload_object_collection(Vec::new(), BufferUploadResources::new(7, 0, 0));
    assert_eq!(handed_back.map(|r| r.handles), Some(7));
    assert_eq!(manager.pending_upload_resources.len(), 0);
    let kept = manager.upload_object_collection(
        vec![(ObjectId(5), "a"), (ObjectId(2), "b"), (ObjectId(5), "c")],
        BufferUploadResources::new(8, 0, 0),
    );
    assert!(kept.is_none());
    assert_eq!(manager.pending_upload_resources.len(), 1);
    assert_eq!(manager.pending_upload_resources[0].handles, 8);
    let entries: Vec<(u16, &str)> =
        manager.objects_buffers.per_object_buffers().iter().map(|o| (o.id.0, o.buffers)).collect();
    assert_eq!(entries, vec![(5, "c"), (2, "b")]);
    assert_eq!(manager.object_count(), 2);
}

#[test]
fn arrow_faces_become_u32_indices() {
    assert_eq!(arrow_indices(&vec![]), Vec::<u32>::new());
    assert_eq!(arrow_indices(&vec![[0, 1, 2], [2, 3, 70000]]), vec![0, 1, 2, 2, 3, 70000]);
}

#[test]
fn hovered_arrow_is_highlighted_alone() {
    let draws = linear_arrow_draws(Some(GizmoElement::Linear(CartesianAxis::Y)));
    assert_eq!(draws.len(), 3);
    assert_eq!(draws.iter().map(|d| d.axis).collect::<Vec<_>>(), vec![CartesianAxis::X, CartesianAxis::Y, CartesianAxis::Z]);
    assert_eq!(draws.iter().map(|d| d.object_id).collect::<Vec<_>>(), vec![ID_GIZMO_X, ID_GIZMO_Y, ID_GIZMO_Z]);
    assert_eq!(draws.iter().map(|d| d.first_instance).collect::<Vec<_>>(), vec![0, 1, 2]);
    assert_eq!(draws.iter().map(|d| d.highlighted).collect::<Vec<_>>(), vec![false, true, false]);
    let unhovered = linear_arrow_draws(None);
    assert!(unhovered.iter().all(|d| !d.highlighted));
}

#[test]
fn hidden_gizmo_is_not_drawn() {
    assert!(gizmo_draws(GizmoVisibility { linear: false }, Some(GizmoElement::Linear(CartesianAxis::X))).is_empty());
    let shown = gizmo_draws(GizmoVisibility { linear: true }, Some(GizmoElement::Linear(CartesianAxis::X)));
    assert_eq!(shown, linear_arrow_draws(Some(GizmoElement::Linear(CartesianAxis::X))));
    assert!(shown[0].highlighted);
}

#[test]
fn render_pass_attachments() {
    let swapchain_format = 50;
    let depth_format = 126;
    let attachments = attachment_descriptions(swapchain_format, depth_format);
    assert!(attachments.iter().all(|a| a.samples == 1 && a.load_op == LOAD_OP_CLEAR
        && a.initial_layout == IMAGE_LAYOUT_UNDEFINED));
    let swapchain = attachments[ATTACHMENT_SWAPCHAIN];
    assert_eq!((swapchain.format, swapchain.store_op, swapchain.final_layout), (50, STORE_OP_STORE, IMAGE_LAYOUT_PRESENT_SRC));
    let normal = attachments[ATTACHMENT_NORMAL];
    assert_eq!((normal.format, normal.store_op, normal.final_layout), (37, STORE_OP_DONT_CARE, IMAGE_LAYOUT_COLOR_ATTACHMENT_OPTIMAL));
    let primitive_id = attachments[ATTACHMENT_PRIMITIVE_ID];
    assert_eq!(
        (primitive_id.format, primitive_id.store_op, primitive_id.final_layout),
        (98, STORE_OP_DONT_CARE, IMAGE_LAYOUT_COLOR_ATTACHMENT_OPTIMAL)
    );
    let depth = attachments[ATTACHMENT_DEPTH_BUFFER];
    assert_eq!((depth.format, depth.store_op, depth.final_layout), (126, STORE_OP_DONT_CARE, IMAGE_LAYOUT_DEPTH_ATTACHMENT_OPTIMAL));
}

#[test]
fn render_pass_subpasses_and_dependencies() {
    let passes = subpasses();
    let reference = |attachment: usize, layout: i32| AttachmentReference { attachment: attachment as u32, layout };
    let gbuffer = &passes[SUBPASS_GBUFFER];
    assert_eq!(
        gbuffer.color_attachments,
        vec![
            reference(ATTACHMENT_NORMAL, IMAGE_LAYOUT_COLOR_ATTACHMENT_OPTIMAL),
            reference(ATTACHMENT_PRIMITIVE_ID, IMAGE_LAYOUT_COLOR_ATTACHMENT_OPTIMAL)
        ]
    );
    assert_eq!(gbuffer.depth_attachment, reference(ATTACHMENT_DEPTH_BUFFER, IMAGE_LAYOUT_DEPTH_ATTACHMENT_OPTIMAL));
    assert!(gbuffer.input_attachments.is_empty());
    let deferred = &passes[SUBPASS_DEFERRED];
    assert_eq!(deferred.color_attachments, vec![reference(ATTACHMENT_SWAPCHAIN, IMAGE_LAYOUT_COLOR_ATTACHMENT_OPTIMAL)]);
    assert_eq!(
        deferred.input_attachments,
        vec![
            reference(ATTACHMENT_NORMAL, IMAGE_LAYOUT_SHADER_READ_ONLY_OPTIMAL),
            reference(ATTACHMENT_PRIMITIVE_ID, IMAGE_LAYOUT_SHADER_READ_ONLY_OPTIMAL)
        ]
    );
    let dependencies = subpass_dependencies();
    assert_eq!((dependencies[0].src_subpass, dependencies[0].dst_subpass), (SUBPASS_EXTERNAL, 1));
    assert_eq!((dependencies[0].src_stage_mask, dependencies[0].dst_stage_mask), (0x400, 0x400));
    assert_eq!((dependencies[0].src_access_mask, dependencies[0].dst_access_mask), (0, 0x180));
    assert_eq!((dependencies[1].src_subpass, dependencies[1].dst_subpass), (0, 1));
    assert_eq!((dependencies[1].src_stage_mask, dependencies[1].dst_stage_mask), (0x80, 0));
    assert_eq!((dependencies[1].src_access_mask, dependencies[1].dst_access_mask), (0x100, 0x20));
}

fn binary_stl(triangles: &[[[f32; 3]; 3]]) -> Vec<u8> {
    let mut bytes = vec![0u8; 80];
    bytes.extend_from_slice(&(triangles.len() as u32).to_le_bytes());
    for triangle in triangles {
        for _ in 0..3 {
            bytes.extend_from_slice(&0f32.to_le_bytes());
        }
        for vertex in triangle {
            for c in vertex {
                bytes.extend_from_slice(&c.to_le_bytes());
            }
        }
        bytes.extend_from_slice(&0u16.to_le_bytes());
    }
    bytes
}

#[test]
fn arrow_mesh_is_read_from_stl_bytes() {
    let a = [0.0f32, 0.0, 0.0];
    let b = [1.0f32, 0.0, 0.0];
    let c = [0.0f32, 1.0, 0.0];
    let d = [0.0f32, 0.0, 2.5];
    let bytes = binary_stl(&[[a, b, c], [c, b, d]]);
    let (vertices, indices) = arrow_mesh(&bytes).expect("valid stl");
    let bits = |p: [f32; 3]| [p[0].to_bits(), p[1].to_bits(), p[2].to_bits(), 1.0f32.to_bits()];
    assert_eq!(vertices, vec![bits(a), bits(b), bits(c), bits(d)]);
    assert_eq!(indices, vec![0, 1, 2, 2, 1, 3]);
    assert!(arrow_mesh(&[]).is_none());
}

#[test]
fn geometry_pipelines_differ_only_in_the_selected_object_constant() {
    let [objects, selected] = geometry_pipeline_states();
    for state in [objects, selected] {
        assert_eq!(state.dynamic_states, [0, 1]);
        assert_eq!((state.viewport_count, state.scissor_count), (1, 1));
        assert_eq!(state.color_attachment_count, 2);
        assert!(!state.blend_enable);
        assert!(state.depth_test_enable && state.depth_write_enable);
        assert_eq!(state.depth_compare_op, 6);
        assert!(!state.depth_bounds_test_enable && !state.stencil_test_enable);
        assert_eq!(state.cull_mode, 1);
        assert_eq!(state.subpass_index, 0);
    }
    assert_eq!(objects.selected_object_constant, None);
    assert_eq!(selected.selected_object_constant, Some(1));
}

#[test]
fn older_gui_renderer_commands_and_submission() {
    assert_eq!(create_texture_commands(TextureDeltaAction::Skip, [0, 0], 4, 4), None);
    assert_eq!(create_texture_commands(TextureDeltaAction::StageOnly, [0, 0], 4, 4), None);
    let to_read = PipelineBarrier {
        src_stage_mask: 0x1000,
        dst_stage_mask: 0x80,
        image_barrier: Some(LayoutTransition { src_access_mask: 0x1000, dst_access_mask: 0x20, old_layout: 1, new_layout: 5 }),
    };
    let update = create_texture_commands(TextureDeltaAction::UpdateExisting, [2, 3], 8, 9).unwrap();
    assert_eq!(
        update.before_copy,
        PipelineBarrier {
            src_stage_mask: 0x80,
            dst_stage_mask: 0x1000,
            image_barrier: Some(LayoutTransition { src_access_mask: 0x20, dst_access_mask: 0x1000, old_layout: 0, new_layout: 1 }),
        }
    );
    assert_eq!(update.copy_layout, 1);
    assert_eq!(update.copy_region, TextureCopyRegion { offset_x: 2, offset_y: 3, width: 8, height: 9 });
    assert_eq!(update.after_copy, to_read);
    let new = create_texture_commands(TextureDeltaAction::CreateNew, [2, 3], 8, 9).unwrap();
    assert_eq!(new.before_copy.image_barrier, None);
    assert_eq!(new.copy_region, TextureCopyRegion { offset_x: 0, offset_y: 0, width: 8, height: 9 });
    assert_eq!(new.after_copy, to_read);

    assert_eq!(
        update_textures_plan(&Vec::new()),
        GuiRendererUpdatePlan { create_command_buffer: false, submit: false, wait_stage: 0x1000 }
    );
    assert_eq!(
        update_textures_plan(&vec![0, 0]),
        GuiRendererUpdatePlan { create_command_buffer: true, submit: false, wait_stage: 0x1000 }
    );
    assert_eq!(
        update_textures_plan(&vec![0, 2]),
        GuiRendererUpdatePlan { create_command_buffer: true, submit: true, wait_stage: 0x1000 }
    );
}
