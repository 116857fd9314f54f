use goshenite::renderer::gui_pass::{
    create_new_texture_commands, upload_existing_font_texture_commands, ImageBarrier, TextureCopyRegion,
    color_image_bytes, process_texture_data_plan, sampler_update_required, texture_submissions_required,
    ProcessTextureDataReturn, SamplerVariations, TextureFilter, TextureOptions,
};
use goshenite::renderer::gui_renderer::{texture_delta_action, TextureDeltaAction};
use goshenite::renderer::primitives::Primitives;
use goshenite::renderer::shader_interfaces::vertex_inputs::{
    GizmoVertex, SkyboxVertex, VertexInputRate, VulkanVertex, FORMAT_R32G32B32A32_SFLOAT,
};
use goshenite::shaders::shader_interfaces::primitive_codes;

fn options(magnification: TextureFilter, minification: TextureFilter) -> TextureOptions {
    TextureOptions { magnification, minification }
}

#[test]
fn sampler_matches_filters() {
    let samplers = SamplerVariations { l_mag_l_min: "ll", l_mag_n_min: "ln", n_mag_l_min: "nl", n_mag_n_min: "nn" };
    assert_eq!(*samplers.get_sampler(options(TextureFilter::Linear, TextureFilter::Linear)), "ll");
    assert_eq!(*samplers.get_sampler(options(TextureFilter::Linear, TextureFilter::Nearest)), "ln");
    assert_eq!(*samplers.get_sampler(options(TextureFilter::Nearest, TextureFilter::Linear)), "nl");
    assert_eq!(*samplers.get_sampler(options(TextureFilter::Nearest, TextureFilter::Nearest)), "nn");
}

#[test]
fn texture_data_plans() {
    let none = ProcessTextureDataReturn {
        uses_staging_buffer: false,
        new_image_commands_recorded: false,
        existing_image_commands_recorded: false,
    };
    assert_eq!(process_texture_data_plan(0, false, false), none);
    assert_eq!(
        process_texture_data_plan(16, false, false),
        ProcessTextureDataReturn { uses_staging_buffer: true, new_image_commands_recorded: true, existing_image_commands_recorded: false }
    );
    assert_eq!(
        process_texture_data_plan(16, true, true),
        ProcessTextureDataReturn { uses_staging_buffer: true, new_image_commands_recorded: false, existing_image_commands_recorded: true }
    );
    assert_eq!(
        process_texture_data_plan(16, true, false),
        ProcessTextureDataReturn { uses_staging_buffer: false, new_image_commands_recorded: false, existing_image_commands_recorded: false }
    );
    let plans = vec![process_texture_data_plan(16, true, true), none];
    assert_eq!(texture_submissions_required(&plans), (false, true));
    assert_eq!(texture_submissions_required(&Vec::new()), (false, false));
}

#[test]
fn sampler_rewritten_only_when_options_change() {
    let linear = options(TextureFilter::Linear, TextureFilter::Linear);
    let nearest = options(TextureFilter::Nearest, TextureFilter::Nearest);
    assert!(!sampler_update_required(None, linear));
    assert!(!sampler_update_required(Some(linear), linear));
    assert!(sampler_update_required(Some(linear), nearest));
}

#[test]
fn color_image_bytes_are_rgba_in_order() {
    assert_eq!(color_image_bytes(&vec![[1, 2, 3, 4], [5, 6, 7, 8]]), vec![1, 2, 3, 4, 5, 6, 7, 8]);
    assert!(color_image_bytes(&Vec::new()).is_empty());
}

#[test]
fn gui_renderer_delta_actions() {
    assert_eq!(texture_delta_action(true, 2, 2, 3, 12, false, false), TextureDeltaAction::Skip);
    assert_eq!(texture_delta_action(true, 2, 2, 4, 0, false, false), TextureDeltaAction::Skip);
    assert_eq!(texture_delta_action(false, 2, 2, 3, 12, false, false), TextureDeltaAction::CreateNew);
    assert_eq!(texture_delta_action(true, 2, 2, 4, 16, true, true), TextureDeltaAction::UpdateExisting);
    assert_eq!(texture_delta_action(true, 2, 2, 4, 16, true, false), TextureDeltaAction::StageOnly);
    assert_eq!(texture_delta_action(true, usize::MAX, 2, 4, 16, true, false), TextureDeltaAction::Skip);
}

#[test]
fn spheres_are_encoded_in_eight_units() {
    let mut primitives = Primitives::new();
    primitives.add_sphere(1.5f32.to_bits(), [1.0f32.to_bits(), 2.0f32.to_bits(), 3.0f32.to_bits()]);
    primitives.add_sphere(7, [8, 9, 10]);
    assert_eq!(primitives.primitive_count(), 2);
    assert_eq!(
        &primitives.encoded_data()[8..],
        &[primitive_codes::SPHERE, 7, 8, 9, 10, primitive_codes::NULL, primitive_codes::NULL, primitive_codes::NULL]
    );
    assert_eq!(f32::from_bits(primitives.encoded_data()[1]), 1.5);
}

#[test]
fn primitives_buffer_is_count_prefixed() {
    let mut primitives = Primitives::new();
    assert_eq!(primitives.buffer_data(), vec![0]);
    primitives.add_sphere(7, [8, 9, 10]);
    let data = primitives.buffer_data();
    assert_eq!(data.len(), 9);
    assert_eq!(data[0], 1);
    assert_eq!(&data[1..], primitives.encoded_data().as_slice());
}

#[test]
fn vertex_layouts() {
    let bindings = GizmoVertex::binding_descriptions();
    assert_eq!(bindings.len(), 2);
    assert_eq!((bindings[1].binding, bindings[1].stride, bindings[1].input_rate), (1, 64, VertexInputRate::Instance));
    let attributes = GizmoVertex::attribute_descriptions();
    let offsets: Vec<u32> = attributes.iter().map(|a| a.offset).collect();
    assert_eq!(offsets, vec![0, 0, 16, 32, 48]);
    assert!(attributes.iter().all(|a| a.format == FORMAT_R32G32B32A32_SFLOAT));
    let state = SkyboxVertex::vertex_input_state();
    assert_eq!(state.vertex_binding_descriptions[0].stride, 16);
    assert_eq!(state.vertex_attribute_descriptions.len(), 1);
}


#[test]
fn new_texture_is_released_and_acquired_across_queue_families() {
    let commands = create_new_texture_commands(2, 0, 64, 32);
    assert_eq!(
        commands.before_transfer_barrier,
        ImageBarrier {
            src_stage_mask: 0,
            src_access_mask: 0,
            dst_stage_mask: 0x1000,
            dst_access_mask: 0x1000,
            old_layout: 0,
            new_layout: 7,
            src_queue_family_index: 0,
            dst_queue_family_index: 0,
        }
    );
    assert_eq!(commands.copy_region, TextureCopyRegion { offset_x: 0, offset_y: 0, width: 64, height: 32 });
    let release = ImageBarrier {
        src_stage_mask: 0x1000,
        src_access_mask: 0x1000,
        dst_stage_mask: 0,
        dst_access_mask: 0,
        old_layout: 7,
        new_layout: 5,
        src_queue_family_index: 2,
        dst_queue_family_index: 0,
    };
    assert_eq!(commands.after_transfer_barrier, release);
    assert_eq!(
        commands.before_render_barrier,
        Some(ImageBarrier { src_stage_mask: 0, src_access_mask: 0, dst_stage_mask: 0x80, dst_access_mask: 0x20, ..release })
    );

    let same_family = create_new_texture_commands(1, 1, 8, 8);
    assert_eq!(same_family.before_render_barrier, None);
    assert_eq!((same_family.after_transfer_barrier.dst_stage_mask, same_family.after_transfer_barrier.dst_access_mask), (0x80, 0x20));
}

#[test]
fn texture_update_round_trips_the_layout() {
    let commands = upload_existing_font_texture_commands([3, 5], 10, 12);
    assert_eq!(commands.copy_region, TextureCopyRegion { offset_x: 3, offset_y: 5, width: 10, height: 12 });
    assert_eq!((commands.to_transfer_dst_barrier.old_layout, commands.to_transfer_dst_barrier.new_layout), (5, 7));
    assert_eq!((commands.to_shader_read_barrier.old_layout, commands.to_shader_read_barrier.new_layout), (7, 5));
    assert_eq!(
        (commands.to_transfer_dst_barrier.src_stage_mask, commands.to_transfer_dst_barrier.dst_stage_mask),
        (0x80, 0x1000)
    );
    assert_eq!(
        (commands.to_shader_read_barrier.src_access_mask, commands.to_shader_read_barrier.dst_access_mask),
        (0x1000, 0x20)
    );
}
