use goshenite::renderer::vulkan_init::{
    check_physical_device_queue_support, choose_physical_device_and_queue_families, queue_flags_contain,
    required_device_extensions, required_features_1_2, supports_required_features_1_2, ChoosePhysicalDeviceReturn,
    DeviceFeatures12, PhysicalDeviceCandidate, PhysicalDeviceType, QueueFamily, QueueFamilyChoice, QUEUE_COMPUTE,
    QUEUE_GRAPHICS, QUEUE_TRANSFER,
};

fn all_features() -> DeviceFeatures12 {
    required_features_1_2()
}

fn family(flags: u32, surface_support: bool) -> QueueFamily {
    QueueFamily { queue_flags: flags, surface_support }
}

fn device(device_type: PhysicalDeviceType, families: Vec<QueueFamily>) -> PhysicalDeviceCandidate {
    PhysicalDeviceCandidate {
        supports_api_version: true,
        supports_required_extensions: true,
        supported_features: all_features(),
        queue_families: families,
        device_type,
    }
}

#[test]
fn required_extensions_are_swapchain_and_descriptor_indexing() {
    assert_eq!(required_device_extensions(), ["VK_KHR_swapchain", "VK_EXT_descriptor_indexing"]);
}

#[test]
fn required_features_are_supported_only_when_all_are_offered() {
    assert!(supports_required_features_1_2(required_features_1_2()));
    let mut missing = required_features_1_2();
    missing.descriptor_binding_partially_bound = false;
    assert!(!supports_required_features_1_2(missing));
}

#[test]
fn queue_flags_containment() {
    assert!(queue_flags_contain(QUEUE_GRAPHICS | QUEUE_TRANSFER, QUEUE_TRANSFER));
    assert!(!queue_flags_contain(QUEUE_GRAPHICS | QUEUE_COMPUTE, QUEUE_TRANSFER));
}

#[test]
fn render_family_is_first_with_graphics_transfer_and_presentation() {
    let families = vec![
        family(QUEUE_GRAPHICS | QUEUE_TRANSFER, false),
        family(QUEUE_COMPUTE | QUEUE_TRANSFER, true),
        family(QUEUE_GRAPHICS | QUEUE_COMPUTE | QUEUE_TRANSFER, true),
        family(QUEUE_GRAPHICS | QUEUE_TRANSFER, true),
    ];
    let choice = check_physical_device_queue_support(&families, all_features()).unwrap();
    assert_eq!(choice.render_queue_family_index, 2);
    // only family 1 lacks graphics: dedicated transfer families are preferred
    assert_eq!(choice.transfer_queue_family_index, 1);
}

#[test]
fn transfer_family_is_the_last_of_the_most_preferred() {
    let families = vec![
        family(QUEUE_GRAPHICS | QUEUE_TRANSFER, true),
        family(QUEUE_TRANSFER, false),
        family(QUEUE_COMPUTE | QUEUE_TRANSFER, false),
        family(QUEUE_GRAPHICS | QUEUE_TRANSFER, false),
    ];
    let choice = check_physical_device_queue_support(&families, all_features()).unwrap();
    assert_eq!(choice, QueueFamilyChoice { render_queue_family_index: 0, transfer_queue_family_index: 2 });
    let families = vec![
        family(QUEUE_GRAPHICS | QUEUE_TRANSFER, true),
        family(QUEUE_GRAPHICS | QUEUE_TRANSFER, false),
        family(QUEUE_GRAPHICS | QUEUE_TRANSFER, false),
    ];
    let choice = check_physical_device_queue_support(&families, all_features()).unwrap();
    assert_eq!(choice.transfer_queue_family_index, 2);
}

#[test]
fn transfer_family_falls_back_to_render_family() {
    let families = vec![family(QUEUE_GRAPHICS, false), family(QUEUE_GRAPHICS | QUEUE_TRANSFER, true)];
    let choice = check_physical_device_queue_support(&families, all_features()).unwrap();
    assert_eq!(choice, QueueFamilyChoice { render_queue_family_index: 1, transfer_queue_family_index: 1 });
}

#[test]
fn no_render_family_or_missing_feature_gives_none() {
    let families = vec![family(QUEUE_TRANSFER, true), family(QUEUE_GRAPHICS, true)];
    assert_eq!(check_physical_device_queue_support(&families, all_features()), None);
    let families = vec![family(QUEUE_GRAPHICS | QUEUE_TRANSFER, true)];
    let mut missing = all_features();
    missing.descriptor_indexing = false;
    assert_eq!(check_physical_device_queue_support(&families, missing), None);
}

#[test]
fn discrete_gpu_is_preferred() {
    let good = || vec![family(QUEUE_GRAPHICS | QUEUE_TRANSFER, true), family(QUEUE_TRANSFER, false)];
    let devices = vec![
        device(PhysicalDeviceType::IntegratedGpu, good()),
        device(PhysicalDeviceType::DiscreteGpu, good()),
        device(PhysicalDeviceType::Cpu, good()),
    ];
    assert_eq!(
        choose_physical_device_and_queue_families(&devices),
        Some(ChoosePhysicalDeviceReturn {
            physical_device_index: 1,
            render_queue_family_index: 0,
            transfer_queue_family_index: 1
        })
    );
}

#[test]
fn unsuitable_devices_are_skipped_and_ties_go_to_the_last() {
    let good = || vec![family(QUEUE_GRAPHICS | QUEUE_TRANSFER, true)];
    let mut no_extensions = device(PhysicalDeviceType::DiscreteGpu, good());
    no_extensions.supports_required_extensions = false;
    let mut old_api = device(PhysicalDeviceType::DiscreteGpu, good());
    old_api.supports_api_version = false;
    let no_queue = device(PhysicalDeviceType::DiscreteGpu, vec![family(QUEUE_GRAPHICS, true)]);
    let devices = vec![
        device(PhysicalDeviceType::VirtualGpu, good()),
        no_extensions,
        old_api,
        no_queue,
        device(PhysicalDeviceType::VirtualGpu, good()),
        device(PhysicalDeviceType::Other, good()),
    ];
    let chosen = choose_physical_device_and_queue_families(&devices).unwrap();
    assert_eq!(chosen.physical_device_index, 4);
}

#[test]
fn no_suitable_device_gives_none() {
    let devices = vec![device(PhysicalDeviceType::DiscreteGpu, vec![family(QUEUE_TRANSFER, true)])];
    assert_eq!(choose_physical_device_and_queue_families(&devices), None);
    assert_eq!(choose_physical_device_and_queue_families(&Vec::new()), None);
}
