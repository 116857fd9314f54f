//! The decisions of the frame loop: which frame in flight is used, when the swapchain is
//! recreated, and which frame's id buffer answers a query for the element at a point.
use crate::renderer::config_renderer::MAX_FRAMES_IN_FLIGHT;
use vstd::prelude::*;

verus! {

/// The frame in flight after `i`.
pub open spec fn next_frame(i: int) -> int {
    (i + 1) % (MAX_FRAMES_IN_FLIGHT as int)
}

/// The frame in flight before `i`.
pub open spec fn previous_frame(i: int) -> int {
    (i + MAX_FRAMES_IN_FLIGHT - 1) % (MAX_FRAMES_IN_FLIGHT as int)
}

#[derive(Debug, Clone, Copy, PartialEq, Eq, Structural)]
pub enum RendererState {
    /// Before rendering has started. Undefined rendering data.
    Initialized,
    /// Rendering commands have been submitted since initialization.
    Rendering,
}

/// The outcome of acquiring the next swapchain image.
#[derive(Debug, Clone, Copy, PartialEq, Eq, Structural)]
pub enum AcquireResult {
    Acquired { image_index: u32, suboptimal: bool },
    /// `VK_ERROR_OUT_OF_DATE_KHR`
    OutOfDate,
    /// Any other error, with its `VkResult`.
    Failed(i32),
}

/// What the frame loop does after acquiring an image.
#[derive(Debug, Clone, Copy, PartialEq, Eq, Structural)]
pub enum AcquireAction {
    /// Record and submit the frame's commands for this swapchain image.
    Render { swapchain_index: usize },
    /// Recreate the swapchain and skip the frame.
    RecreateSwapchain,
    /// Fail the frame with this `VkResult`.
    Fail(i32),
}

/// The outcome of presenting a swapchain image.
#[derive(Debug, Clone, Copy, PartialEq, Eq, Structural)]
pub enum PresentResult {
    Presented,
    /// `VK_ERROR_OUT_OF_DATE_KHR`
    OutOfDate,
    /// `VK_SUBOPTIMAL_KHR`
    Suboptimal,
    /// Any other error, with its `VkResult`.
    Failed(i32),
}

/// What the frame loop does after presenting.
#[derive(Debug, Clone, Copy, PartialEq, Eq, Structural)]
pub enum PresentAction {
    Done,
    RecreateSwapchain,
    Fail(i32),
}

/// An out of date or suboptimal swapchain is recreated and the frame skipped; other errors
/// fail the frame.
pub fn acquire_action(acquire_result: AcquireResult) -> (res: AcquireAction)
    ensures
        res == match acquire_result {
            AcquireResult::Acquired { image_index, suboptimal } => if suboptimal {
                AcquireAction::RecreateSwapchain
            } else {
                AcquireAction::Render { swapchain_index: image_index as usize }
            },
            AcquireResult::OutOfDate => AcquireAction::RecreateSwapchain,
            AcquireResult::Failed(code) => AcquireAction::Fail(code),
        },
{
    match acquire_result {
        AcquireResult::Acquired { image_index, suboptimal } => {
            if suboptimal {
                AcquireAction::RecreateSwapchain
            } else {
                AcquireAction::Render { swapchain_index: image_index as usize }
            }
        },
        AcquireResult::OutOfDate => AcquireAction::RecreateSwapchain,
        AcquireResult::Failed(code) => AcquireAction::Fail(code),
    }
}

/// An out of date or suboptimal swapchain is recreated after presenting; other errors fail
/// the frame.
pub fn present_action(present_result: PresentResult) -> (res: PresentAction)
    ensures
        res == match present_result {
            PresentResult::Presented => PresentAction::Done,
            PresentResult::OutOfDate => PresentAction::RecreateSwapchain,
            PresentResult::Suboptimal => PresentAction::RecreateSwapchain,
            PresentResult::Failed(code) => PresentAction::Fail(code),
        },
{
    match present_result {
        PresentResult::Presented => PresentAction::Done,
        PresentResult::OutOfDate => PresentAction::RecreateSwapchain,
        PresentResult::Suboptimal => PresentAction::RecreateSwapchain,
        PresentResult::Failed(code) => PresentAction::Fail(code),
    }
}

/// The start of a frame.
#[derive(Debug, Clone, Copy, PartialEq, Eq, Structural)]
pub struct FrameBegin {
    /// The frame in flight to wait on and render.
    pub frame_index: usize,
    /// The window was resized since the last frame: recreate the swapchain first.
    pub recreate_swapchain: bool,
}

/// How a query for the element at a screen coordinate is answered.
#[derive(Debug, Clone, Copy, PartialEq, Eq, Structural)]
pub struct ElementQueryPlan {
    /// The frame in flight whose id buffer is read.
    pub id_buffer_frame: usize,
    /// The render and transfer queue families differ: the id buffer is released by the render
    /// queue before the copy and acquired back after it.
    pub queue_ownership_transfer: bool,
    /// The frame in flight the id buffer is given back for.
    pub next_frame_index: usize,
}

/// The frame loop's state, as values.
pub struct FrameStateView {
    pub renderer_state: RendererState,
    pub frame_index_currently_rendering: int,
    pub window_just_resized: bool,
}

/// The state after initialization: no frame rendered yet.
pub open spec fn initial_frame_state() -> FrameStateView {
    FrameStateView {
        renderer_state: RendererState::Initialized,
        frame_index_currently_rendering: 0,
        window_just_resized: false,
    }
}

/// A change of the frame loop's state, one per method of `FrameState` that changes it.
#[derive(Debug, Clone, Copy, PartialEq, Eq, Structural)]
pub enum FrameStep {
    /// `set_window_just_resized_flag`
    WindowResized,
    /// `begin_frame`
    BeginFrame,
    /// `frame_submitted`
    Submitted(usize),
    /// `frame_presented`
    Presented,
}

/// The state after one step.
pub open spec fn frame_step(state: FrameStateView, step: FrameStep) -> FrameStateView {
    match step {
        FrameStep::WindowResized => FrameStateView { window_just_resized: true, ..state },
        FrameStep::BeginFrame => FrameStateView { window_just_resized: false, ..state },
        FrameStep::Submitted(frame_index) => FrameStateView { frame_index_currently_rendering: frame_index as int, ..state },
        FrameStep::Presented => FrameStateView { renderer_state: RendererState::Rendering, ..state },
    }
}

/// The state after `steps`, in order.
pub open spec fn after_frame_steps(state: FrameStateView, steps: Seq<FrameStep>) -> FrameStateView
    decreases steps.len(),
{
    if steps.len() == 0 {
        state
    } else {
        frame_step(after_frame_steps(state, steps.drop_last()), steps.last())
    }
}

/// How a query for the element at a point is answered in `state`.
pub open spec fn element_query_plan_of(
    state: FrameStateView,
    within_framebuffer: bool,
    render_queue_family_index: u32,
    transfer_queue_family_index: u32,
) -> Option<ElementQueryPlan> {
    if !within_framebuffer || state.renderer_state == RendererState::Initialized {
        None
    } else {
        Some(
            ElementQueryPlan {
                id_buffer_frame: previous_frame(state.frame_index_currently_rendering) as usize,
                queue_ownership_transfer: render_queue_family_index != transfer_queue_family_index,
                next_frame_index: next_frame(state.frame_index_currently_rendering) as usize,
            },
        )
    }
}

/// The frame loop's state.
pub struct FrameState {
    renderer_state: RendererState,
    /// Indicates which framebuffer is being processed right now.
    frame_index_currently_rendering: usize,
    /// Can be set to true with [`Self::set_window_just_resized_flag`] and set to false in [`Self::begin_frame`]
    window_just_resized: bool,
}

impl View for FrameState {
    type V = FrameStateView;

    closed spec fn view(&self) -> FrameStateView {
        FrameStateView {
            renderer_state: self.renderer_state,
            frame_index_currently_rendering: self.frame_index_currently_rendering as int,
            window_just_resized: self.window_just_resized,
        }
    }
}

impl FrameState {
    #[verifier::type_invariant]
    closed spec fn frame_index_in_range(self) -> bool {
        self.frame_index_currently_rendering < MAX_FRAMES_IN_FLIGHT
    }

    /// The state after initialization: no frame rendered yet.
    pub fn new() -> (res: Self)
        ensures
            res@.renderer_state == RendererState::Initialized,
            res@.frame_index_currently_rendering == 0,
            !res@.window_just_resized,
            res@ == initial_frame_state(),
    {
        FrameState {
            renderer_state: RendererState::Initialized,
            frame_index_currently_rendering: 0,
            window_just_resized: false,
        }
    }

    /// The frame in flight last submitted, always below `MAX_FRAMES_IN_FLIGHT`.
    pub fn frame_index_currently_rendering(&self) -> (res: usize)
        ensures
            res == self@.frame_index_currently_rendering,
            res < MAX_FRAMES_IN_FLIGHT,
    {
        proof {
            use_type_invariant(self);
        }
        self.frame_index_currently_rendering
    }

    pub fn renderer_state(&self) -> (res: RendererState)
        ensures
            res == self@.renderer_state,
    {
        self.renderer_state
    }

    /// Records that the window was resized.
    pub fn set_window_just_resized_flag(&mut self)
        ensures
            final(self)@ == (FrameStateView { window_just_resized: true, ..old(self)@ }),
            final(self)@ == frame_step(old(self)@, FrameStep::WindowResized),
    {
        proof {
            use_type_invariant(&*self);
        }
        self.window_just_resized = true;
    }

    /// The frame in flight after the one last submitted: the one to render next, and the one
    /// whose fence is waited on before gui textures are updated.
    pub fn next_frame_index(&self) -> (res: usize)
        ensures
            res == next_frame(self@.frame_index_currently_rendering),
            res < MAX_FRAMES_IN_FLIGHT,
    {
        proof {
            use_type_invariant(self);
        }
        (self.frame_index_currently_rendering + 1) % MAX_FRAMES_IN_FLIGHT
    }

    /// The frame in flight before the one last submitted.
    pub fn previous_frame_index(&self) -> (res: usize)
        ensures
            res == previous_frame(self@.frame_index_currently_rendering),
            res < MAX_FRAMES_IN_FLIGHT,
    {
        proof {
            use_type_invariant(self);
        }
        (self.frame_index_currently_rendering + MAX_FRAMES_IN_FLIGHT - 1) % MAX_FRAMES_IN_FLIGHT
    }

    /// Starts a frame: picks the next frame in flight, and consumes the resize flag.
    pub fn begin_frame(&mut self) -> (res: FrameBegin)
        ensures
            res.frame_index == next_frame(old(self)@.frame_index_currently_rendering),
            res.frame_index < MAX_FRAMES_IN_FLIGHT,
            res.recreate_swapchain == old(self)@.window_just_resized,
            final(self)@ == (FrameStateView { window_just_resized: false, ..old(self)@ }),
            final(self)@ == frame_step(old(self)@, FrameStep::BeginFrame),
    {
        proof {
            use_type_invariant(&*self);
        }
        let frame_index = self.next_frame_index();
        let recreate_swapchain = self.window_just_resized;
        if self.window_just_resized {
            self.window_just_resized = false;
        }
        FrameBegin { frame_index, recreate_swapchain }
    }

    /// Records that the commands of `frame_index` were submitted.
    pub fn frame_submitted(&mut self, frame_index: usize)
        requires
            frame_index < MAX_FRAMES_IN_FLIGHT,
        ensures
            final(self)@ == (FrameStateView { frame_index_currently_rendering: frame_index as int, ..old(self)@ }),
            final(self)@ == frame_step(old(self)@, FrameStep::Submitted(frame_index)),
    {
        proof {
            use_type_invariant(&*self);
        }
        self.frame_index_currently_rendering = frame_index;
    }

    /// Records that a frame was presented: render data is defined from now on.
    pub fn frame_presented(&mut self)
        ensures
            final(self)@ == (FrameStateView { renderer_state: RendererState::Rendering, ..old(self)@ }),
            final(self)@ == frame_step(old(self)@, FrameStep::Presented),
    {
        proof {
            use_type_invariant(&*self);
        }
        self.renderer_state = RendererState::Rendering;
    }

    /// The frame whose id buffer answers a query for the element at a point: the frame
    /// before the one last submitted; `None` before any frame was rendered, when the buffer
    /// data is undefined.
    pub fn element_query_frame(&self) -> (res: Option<usize>)
        ensures
            match self@.renderer_state {
                RendererState::Initialized => res is None,
                RendererState::Rendering => res == Some(previous_frame(self@.frame_index_currently_rendering) as usize),
            },
    {
        match self.renderer_state {
            RendererState::Initialized => None,
            RendererState::Rendering => Some(self.previous_frame_index()),
        }
    }

    /// How a query for the element at a screen coordinate is answered: `None` when the
    /// coordinate lies outside the framebuffer, or before any frame was rendered; otherwise
    /// from the id buffer of the frame before the one last submitted, with the id buffer's
    /// ownership moved to the transfer queue family and back around the copy when the two
    /// families differ (given back for the next frame to render).
    pub fn element_query_plan(
        &self,
        within_framebuffer: bool,
        render_queue_family_index: u32,
        transfer_queue_family_index: u32,
    ) -> (res: Option<ElementQueryPlan>)
        ensures
            res == if !within_framebuffer || self@.renderer_state == RendererState::Initialized {
                None
            } else {
                Some(
                    ElementQueryPlan {
                        id_buffer_frame: previous_frame(self@.frame_index_currently_rendering) as usize,
                        queue_ownership_transfer: render_queue_family_index != transfer_queue_family_index,
                        next_frame_index: next_frame(self@.frame_index_currently_rendering) as usize,
                    },
                )
            },
            res == element_query_plan_of(self@, within_framebuffer, render_queue_family_index, transfer_queue_family_index),
    {
        if !within_framebuffer {
            return None;
        }
        match self.element_query_frame() {
            None => None,
            Some(id_buffer_frame) => Some(
                ElementQueryPlan {
                    id_buffer_frame,
                    queue_ownership_transfer: render_queue_family_index != transfer_queue_family_index,
                    next_frame_index: self.next_frame_index(),
                },
            ),
        }
    }
}

/// Frames in flight are used in turn: stepping forward then back returns to the same frame,
/// and every frame index stays below `MAX_FRAMES_IN_FLIGHT`.
pub proof fn lemma_frames_cycle(i: int)
    requires
        0 <= i < MAX_FRAMES_IN_FLIGHT,
    ensures
        0 <= next_frame(i) < MAX_FRAMES_IN_FLIGHT,
        0 <= previous_frame(i) < MAX_FRAMES_IN_FLIGHT,
        previous_frame(next_frame(i)) == i,
        next_frame(previous_frame(i)) == i,
        next_frame(i) != i,
{
}


/// Until a frame has been presented the renderer stays in its initial state, and a query for
/// the element at a point gets no answer (the id buffers hold no data yet); once a frame has
/// been presented the renderer stays rendering.
pub proof fn lemma_no_element_before_first_frame(
    steps: Seq<FrameStep>,
    within_framebuffer: bool,
    render_queue_family_index: u32,
    transfer_queue_family_index: u32,
)
    ensures
        (forall|i: int| 0 <= i < steps.len() ==> steps[i] != FrameStep::Presented) ==> {
            &&& after_frame_steps(initial_frame_state(), steps).renderer_state == RendererState::Initialized
            &&& element_query_plan_of(
                after_frame_steps(initial_frame_state(), steps),
                within_framebuffer,
                render_queue_family_index,
                transfer_queue_family_index,
            ) is None
        },
        (exists|i: int| 0 <= i < steps.len() && steps[i] == FrameStep::Presented) ==> after_frame_steps(
            initial_frame_state(),
            steps,
        ).renderer_state == RendererState::Rendering,
    decreases steps.len(),
{
    if steps.len() > 0 {
        let prefix = steps.drop_last();
        lemma_no_element_before_first_frame(prefix, within_framebuffer, render_queue_family_index, transfer_queue_family_index);
        if forall|i: int| 0 <= i < steps.len() ==> steps[i] != FrameStep::Presented {
            assert forall|i: int| 0 <= i < prefix.len() implies prefix[i] != FrameStep::Presented by {
                assert(prefix[i] == steps[i]);
            }
            assert(steps[steps.len() - 1] != FrameStep::Presented);
        }
        if exists|i: int| 0 <= i < steps.len() && steps[i] == FrameStep::Presented {
            let i = choose|i: int| 0 <= i < steps.len() && steps[i] == FrameStep::Presented;
            if i < prefix.len() {
                assert(prefix[i] == steps[i]);
            }
        }
    }
}

/// The synchronization objects of the frame loop.
#[derive(Debug, Clone, Copy, PartialEq, Eq, Structural)]
pub struct FrameSyncObjects {
    /// Render fences, one per frame in flight.
    pub render_fences: usize,
    /// The render fences are created signalled, so that the first wait on each returns.
    pub render_fences_signalled: bool,
    /// Semaphores signalled when a swapchain image is available, one per frame in flight.
    pub image_available_semaphores: usize,
    /// Semaphores waited on by the presentation of a swapchain image, one per swapchain image.
    pub present_semaphores: usize,
}

/// The synchronization objects the renderer creates for a swapchain of
/// `swapchain_image_count` images.
pub fn frame_sync_objects(swapchain_image_count: usize) -> (res: FrameSyncObjects)
    ensures
        res == (FrameSyncObjects {
            render_fences: MAX_FRAMES_IN_FLIGHT,
            render_fences_signalled: true,
            image_available_semaphores: MAX_FRAMES_IN_FLIGHT,
            present_semaphores: swapchain_image_count,
        }),
{
    FrameSyncObjects {
        render_fences: MAX_FRAMES_IN_FLIGHT,
        render_fences_signalled: true,
        image_available_semaphores: MAX_FRAMES_IN_FLIGHT,
        present_semaphores: swapchain_image_count,
    }
}

} // verus!
