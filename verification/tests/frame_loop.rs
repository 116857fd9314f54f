use goshenite::renderer::config_renderer::MAX_FRAMES_IN_FLIGHT;
use goshenite::renderer::present_target::{
    choose_present_mode, swapchain_image_count, swapchain_pre_transform, swapchain_resolution, PRESENT_MODE_FIFO,
    PRESENT_MODE_MAILBOX,
};
use goshenite::renderer::render_manager::{
    acquire_action, present_action, AcquireAction, AcquireResult, ElementQueryPlan, FrameBegin, FrameState,
    PresentAction, PresentResult, RendererState,
};
use goshenite::renderer::vulkan_helper::{
    choose_composite_alpha, debug_message_level, debug_message_type_label, is_srgb_framebuffer, CompositeAlpha,
    DebugMessageLevel, NumericType,
};

#[test]
fn frames_in_flight_alternate() {
    let mut state = FrameState::new();
    assert_eq!(state.renderer_state(), RendererState::Initialized);
    assert_eq!(state.frame_index_currently_rendering(), 0);
    let mut seen = Vec::new();
    for _ in 0..4 {
        let begin = state.begin_frame();
        assert!(begin.frame_index < MAX_FRAMES_IN_FLIGHT);
        state.frame_submitted(begin.frame_index);
        seen.push(begin.frame_index);
    }
    assert_eq!(seen, vec![1, 0, 1, 0]);
    assert_eq!(state.next_frame_index(), 1);
    assert_eq!(state.previous_frame_index(), 1);
}

#[test]
fn resize_flag_is_consumed_by_the_next_frame() {
    let mut state = FrameState::new();
    state.set_window_just_resized_flag();
    assert_eq!(state.begin_frame(), FrameBegin { frame_index: 1, recreate_swapchain: true });
    assert_eq!(state.begin_frame(), FrameBegin { frame_index: 1, recreate_swapchain: false });
}

#[test]
fn element_query_waits_for_the_first_presented_frame() {
    let mut state = FrameState::new();
    assert_eq!(state.element_query_frame(), None);
    let begin = state.begin_frame();
    state.frame_submitted(begin.frame_index);
    state.frame_presented();
    assert_eq!(state.renderer_state(), RendererState::Rendering);
    assert_eq!(state.element_query_frame(), Some(0));
}

#[test]
fn acquire_and_present_outcomes() {
    assert_eq!(
        acquire_action(AcquireResult::Acquired { image_index: 2, suboptimal: false }),
        AcquireAction::Render { swapchain_index: 2 }
    );
    assert_eq!(
        acquire_action(AcquireResult::Acquired { image_index: 2, suboptimal: true }),
        AcquireAction::RecreateSwapchain
    );
    assert_eq!(acquire_action(AcquireResult::OutOfDate), AcquireAction::RecreateSwapchain);
    assert_eq!(acquire_action(AcquireResult::Failed(-3)), AcquireAction::Fail(-3));
    assert_eq!(present_action(PresentResult::Presented), PresentAction::Done);
    assert_eq!(present_action(PresentResult::OutOfDate), PresentAction::RecreateSwapchain);
    assert_eq!(present_action(PresentResult::Suboptimal), PresentAction::RecreateSwapchain);
    assert_eq!(present_action(PresentResult::Failed(-4)), PresentAction::Fail(-4));
}

#[test]
fn swapchain_choices() {
    assert_eq!(choose_present_mode(&vec![0, 2, 1]), PRESENT_MODE_MAILBOX);
    assert_eq!(choose_present_mode(&vec![0, 2]), PRESENT_MODE_FIFO);
    assert_eq!(choose_present_mode(&Vec::new()), PRESENT_MODE_FIFO);
    assert_eq!(swapchain_image_count(2, 0), 3);
    assert_eq!(swapchain_image_count(2, 8), 3);
    assert_eq!(swapchain_image_count(2, 2), 2);
    assert_eq!(swapchain_resolution([u32::MAX, u32::MAX], [800, 600]), [800, 600]);
    assert_eq!(swapchain_resolution([1024, 768], [800, 600]), [1024, 768]);
    assert_eq!(swapchain_pre_transform(0x1 | 0x2, 0x2), 0x1);
    assert_eq!(swapchain_pre_transform(0x2 | 0x4, 0x4), 0x4);
}

#[test]
fn composite_alpha_preference() {
    assert_eq!(
        choose_composite_alpha(&vec![CompositeAlpha::Opaque, CompositeAlpha::Inherit, CompositeAlpha::PreMultiplied]),
        CompositeAlpha::Inherit
    );
    assert_eq!(choose_composite_alpha(&vec![CompositeAlpha::PreMultiplied]), CompositeAlpha::PreMultiplied);
    assert_eq!(
        choose_composite_alpha(&vec![CompositeAlpha::PostMultiplied, CompositeAlpha::Opaque]),
        CompositeAlpha::PostMultiplied
    );
}

#[test]
fn srgb_detection() {
    assert!(is_srgb_framebuffer(Some(NumericType::SRGB)));
    assert!(!is_srgb_framebuffer(Some(NumericType::UNORM)));
    assert!(!is_srgb_framebuffer(None));
}

#[test]
fn debug_message_classification() {
    assert_eq!(debug_message_type_label(true, true, false), "GENERAL");
    assert_eq!(debug_message_type_label(false, true, true), "VALIDATION");
    assert_eq!(debug_message_type_label(false, false, true), "PERFORMANCE");
    assert_eq!(debug_message_type_label(false, false, false), "TYPE-UNKNOWN");
    assert_eq!(debug_message_level(true, true, true, true), DebugMessageLevel::Error);
    assert_eq!(debug_message_level(false, true, false, true), DebugMessageLevel::Warning);
    assert_eq!(debug_message_level(false, false, true, false), DebugMessageLevel::Information);
    assert_eq!(debug_message_level(false, false, false, true), DebugMessageLevel::Verbose);
    assert_eq!(debug_message_level(false, false, false, false), DebugMessageLevel::Unknown);
}

#[test]
fn element_query_reads_the_previous_frame_inside_the_framebuffer() {
    let mut state = FrameState::new();
    assert_eq!(state.element_query_plan(true, 0, 1), None);
    let begin = state.begin_frame();
    state.frame_submitted(begin.frame_index);
    state.frame_presented();
    assert_eq!(state.element_query_plan(false, 0, 1), None);
    assert_eq!(
        state.element_query_plan(true, 0, 1),
        Some(ElementQueryPlan { id_buffer_frame: 0, queue_ownership_transfer: true, next_frame_index: 0 })
    );
    assert_eq!(
        state.element_query_plan(true, 2, 2),
        Some(ElementQueryPlan { id_buffer_frame: 0, queue_ownership_transfer: false, next_frame_index: 0 })
    );
}
