use goshenite::renderer::gui_pass::{
    sampler_variation_properties, SamplerProperties, TextureFilter, TextureOptions, SAMPLER_ADDRESS_MODE_REPEAT,
    SAMPLER_MIPMAP_MODE_LINEAR,
};
use goshenite::renderer::present_target::{
    choose_surface_format, swapchain_create_plan, SurfaceFormat, COMPOSITE_ALPHA_OPAQUE, IMAGE_USAGE_COLOR_ATTACHMENT,
    PRESENT_MODE_FIFO, PRESENT_MODE_MAILBOX, SHARING_MODE_EXCLUSIVE, SURFACE_TRANSFORM_IDENTITY,
};
use goshenite::renderer::render_manager::{frame_sync_objects, FrameSyncObjects};
use goshenite::renderer::vulkan_helper::{
    add_debug_validation, swapchain_create_info, CompositeAlpha, DebugValidationError, InstanceExtensions,
    VALIDATION_LAYER_NAME,
};
use goshenite::renderer::vulkan_init::{supports_api_version, supports_required_extensions};

fn names(list: &[&str]) -> Vec<String> {
    list.iter().map(|s| s.to_string()).collect()
}

#[test]
fn debug_validation_adds_extension_and_layer_only_on_success() {
    let mut extensions = InstanceExtensions { ext_debug_utils: false };
    let mut layers = names(&["VK_LAYER_MESA_overlay"]);

    assert_eq!(
        add_debug_validation(false, Ok(names(&[VALIDATION_LAYER_NAME])), &mut extensions, &mut layers),
        Err(DebugValidationError::DebugUtilsUnsupported)
    );
    assert_eq!(add_debug_validation(true, Err(-1), &mut extensions, &mut layers), Err(DebugValidationError::LayerPropertiesUnavailable(-1)));
    assert_eq!(
        add_debug_validation(true, Ok(names(&["VK_LAYER_other"])), &mut extensions, &mut layers),
        Err(DebugValidationError::ValidationLayerNotFound)
    );
    assert_eq!(extensions, InstanceExtensions { ext_debug_utils: false });
    assert_eq!(layers, names(&["VK_LAYER_MESA_overlay"]));

    assert_eq!(
        add_debug_validation(true, Ok(names(&["VK_LAYER_other", VALIDATION_LAYER_NAME])), &mut extensions, &mut layers),
        Ok(())
    );
    assert_eq!(extensions, InstanceExtensions { ext_debug_utils: true });
    assert_eq!(layers, names(&["VK_LAYER_MESA_overlay", "VK_LAYER_KHRONOS_validation"]));
}

#[test]
fn device_extensions_and_version_are_checked() {
    assert!(supports_required_extensions(&names(&["VK_EXT_descriptor_indexing", "VK_KHR_maintenance1", "VK_KHR_swapchain"])));
    assert!(!supports_required_extensions(&names(&["VK_KHR_swapchain"])));
    assert!(!supports_required_extensions(&Vec::new()));
    assert!(supports_api_version(4206592, 4202496));
    assert!(!supports_api_version(4198400, 4202496));
}

#[test]
fn first_surface_format_is_chosen() {
    let formats = vec![SurfaceFormat { format: 50, color_space: 0 }, SurfaceFormat { format: 44, color_space: 0 }];
    assert_eq!(choose_surface_format(&formats), SurfaceFormat { format: 50, color_space: 0 });
}

#[test]
fn present_target_swapchain_plan() {
    let formats = vec![SurfaceFormat { format: 44, color_space: 0 }];
    let plan = swapchain_create_plan(&vec![PRESENT_MODE_FIFO, PRESENT_MODE_MAILBOX], &formats, 2, 3, [u32::MAX, u32::MAX], [800, 600], 0x3, 0x2);
    assert_eq!(plan.present_mode, PRESENT_MODE_MAILBOX);
    assert_eq!(plan.format, formats[0]);
    assert_eq!(plan.resolution, [800, 600]);
    assert_eq!(plan.image_count, 3);
    assert_eq!(plan.pre_transform, SURFACE_TRANSFORM_IDENTITY);
    assert_eq!(plan.image_usage, IMAGE_USAGE_COLOR_ATTACHMENT);
    assert_eq!(plan.sharing_mode, SHARING_MODE_EXCLUSIVE);
    assert_eq!(plan.composite_alpha, COMPOSITE_ALPHA_OPAQUE);
    assert!(plan.clipped);
    assert_eq!(plan.image_array_layers, 1);

    let fifo = swapchain_create_plan(&vec![PRESENT_MODE_FIFO], &formats, 3, 3, [1024, 768], [800, 600], 0x2, 0x2);
    assert_eq!(fifo.present_mode, PRESENT_MODE_FIFO);
    assert_eq!(fifo.resolution, [1024, 768]);
    assert_eq!(fifo.image_count, 3);
    assert_eq!(fifo.pre_transform, 0x2);
}

#[test]
fn window_swapchain_create_info() {
    let formats = vec![SurfaceFormat { format: 37, color_space: 0 }, SurfaceFormat { format: 50, color_space: 0 }];
    let info = swapchain_create_info(
        &formats,
        2,
        &vec![CompositeAlpha::PreMultiplied, CompositeAlpha::Inherit, CompositeAlpha::Opaque],
        &vec![PRESENT_MODE_FIFO],
        [640, 480],
    );
    assert_eq!(info.min_image_count, 2);
    assert_eq!(info.image_extent, [640, 480]);
    assert_eq!(info.image_usage, IMAGE_USAGE_COLOR_ATTACHMENT);
    assert_eq!(info.image_format, 37);
    assert_eq!(info.composite_alpha, CompositeAlpha::Inherit);
    assert_eq!(info.present_mode, PRESENT_MODE_FIFO);
}

#[test]
fn sync_objects_per_frame_and_per_image() {
    assert_eq!(
        frame_sync_objects(3),
        FrameSyncObjects { render_fences: 2, render_fences_signalled: true, image_available_semaphores: 2, present_semaphores: 3 }
    );
}

#[test]
fn each_sampler_has_its_filters() {
    let samplers = sampler_variation_properties();
    let o = |magnification, minification| TextureOptions { magnification, minification };
    let gui = |options| SamplerProperties {
        options,
        address_mode_u: SAMPLER_ADDRESS_MODE_REPEAT,
        address_mode_v: SAMPLER_ADDRESS_MODE_REPEAT,
        address_mode_w: SAMPLER_ADDRESS_MODE_REPEAT,
        mipmap_mode: SAMPLER_MIPMAP_MODE_LINEAR,
    };
    for options in [
        o(TextureFilter::Linear, TextureFilter::Linear),
        o(TextureFilter::Linear, TextureFilter::Nearest),
        o(TextureFilter::Nearest, TextureFilter::Linear),
        o(TextureFilter::Nearest, TextureFilter::Nearest),
    ] {
        assert_eq!(*samplers.get_sampler(options), gui(options));
    }
    assert_eq!((SAMPLER_ADDRESS_MODE_REPEAT, SAMPLER_MIPMAP_MODE_LINEAR), (0, 1));
}
