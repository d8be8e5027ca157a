use bi_turbo::device::{
    Device, PhysicalDeviceInfo, PhysicalDeviceType, QueueFamilyProperties, SwapchainSupportDetail,
};
use bi_turbo::frame::{FrameOrchestrator, TickReport};
use bi_turbo::pipeline::CullMode;
use bi_turbo::shader::ShaderStage;
use bi_turbo::swapchain::{
    AcquireOutcome, ColorSpace, Extent2D, Format, FormatProperties, FormatSupport, PresentMode,
    PresentOutcome, SurfaceCapabilities, SurfaceFormat, SwapChain, SwapchainState,
    FORMAT_FEATURE_DEPTH_STENCIL_ATTACHMENT, MAX_FRAMES_IN_FLIGHT,
};
use bi_turbo::sync::{Fence, FenceState};

fn caps_with_extent(width: u32, height: u32) -> SurfaceCapabilities {
    SurfaceCapabilities {
        min_image_count: 2,
        max_image_count: 8,
        current_extent: Extent2D { width, height },
        min_image_extent: Extent2D { width: 1, height: 1 },
        max_image_extent: Extent2D { width: 4096, height: 4096 },
    }
}

fn formats() -> Vec<SurfaceFormat> {
    vec![SurfaceFormat { format: Format::B8G8R8A8Srgb, color_space: ColorSpace::SrgbNonlinear }]
}

fn present_modes() -> Vec<PresentMode> {
    vec![PresentMode::Fifo, PresentMode::Mailbox]
}

fn depth_supports() -> Vec<FormatSupport> {
    vec![FormatSupport {
        format: Format::D32Sfloat,
        properties: FormatProperties {
            linear_tiling_features: 0,
            optimal_tiling_features: FORMAT_FEATURE_DEPTH_STENCIL_ATTACHMENT,
        },
    }]
}

fn support(width: u32, height: u32) -> SwapchainSupportDetail {
    SwapchainSupportDetail {
        capabilities: caps_with_extent(width, height),
        formats: formats(),
        present_modes: present_modes(),
    }
}

fn test_device(width: u32, height: u32) -> Device {
    let info = PhysicalDeviceInfo {
        device_type: PhysicalDeviceType::DiscreteGpu,
        queue_families: vec![QueueFamilyProperties {
            queue_count: 1,
            supports_graphics: true,
            supports_present: true,
        }],
        available_extensions: vec![String::from("VK_KHR_swapchain")],
        swapchain_support: support(width, height),
        color_sample_mask: 0x7,
        depth_sample_mask: 0x7,
        memory_type_flags: vec![0x1],
    };
    Device::new(&vec![info]).expect("device creation")
}

fn orchestrator(width: u32, height: u32) -> FrameOrchestrator {
    let device = test_device(width, height);
    FrameOrchestrator::new(
        device,
        &depth_supports(),
        vec![ShaderStage::Vertex, ShaderStage::Fragment],
        CullMode::Back,
        true,
        width,
        height,
        MAX_FRAMES_IN_FLIGHT,
    )
    .expect("orchestrator creation")
}

#[test]
fn slot_sequence_three_slots_five_ticks() {
    // N = 3 slots, M = 3 images (min_image_count 2 + 1): five ticks with
    // no resize walk the slots 0,1,2,0,1.
    let mut o = orchestrator(800, 600);
    assert_eq!(o.swapchain.slots.len(), 3);
    assert_eq!(o.swapchain.image_count, 3);
    let mut slots = Vec::new();
    for tick in 0..5u32 {
        let image = tick % o.swapchain.image_count;
        let r = o.render_frame(
            Extent2D { width: 800, height: 600 },
            AcquireOutcome::Image(image),
            PresentOutcome::Success,
        );
        match r {
            TickReport::Rendered { slot, image: i } => {
                slots.push(slot);
                assert_eq!(i, image);
            }
            _ => panic!("tick {tick} did not render: {r:?}"),
        }
    }
    assert_eq!(slots, vec![0, 1, 2, 0, 1]);
    // Each slot's fence was waited on exactly once per use of the slot.
    assert_eq!(o.swapchain.slots[0].waits, 2);
    assert_eq!(o.swapchain.slots[1].waits, 2);
    assert_eq!(o.swapchain.slots[2].waits, 1);
    // At most N submissions are unobserved at any point.
    let in_flight = o.swapchain.slots.iter().filter(|s| s.fence.state == FenceState::Pending).count();
    assert!(in_flight <= o.swapchain.slots.len());
}

#[test]
fn slot_sequence_is_independent_of_image_count() {
    // A surface offering more images (M = 8) still rotates slots mod N.
    let mut caps = caps_with_extent(640, 480);
    caps.min_image_count = 7;
    let info = PhysicalDeviceInfo {
        device_type: PhysicalDeviceType::DiscreteGpu,
        queue_families: vec![QueueFamilyProperties {
            queue_count: 1,
            supports_graphics: true,
            supports_present: true,
        }],
        available_extensions: vec![String::from("VK_KHR_swapchain")],
        swapchain_support: SwapchainSupportDetail {
            capabilities: caps,
            formats: formats(),
            present_modes: present_modes(),
        },
        color_sample_mask: 0x1,
        depth_sample_mask: 0x1,
        memory_type_flags: vec![0x1],
    };
    let device = Device::new(&vec![info]).expect("device");
    let mut o = FrameOrchestrator::new(
        device,
        &depth_supports(),
        vec![ShaderStage::Vertex, ShaderStage::Fragment],
        CullMode::Back,
        true,
        640,
        480,
        3,
    )
    .expect("orchestrator");
    assert_eq!(o.swapchain.image_count, 8);
    let mut slots = Vec::new();
    for tick in 0..5u32 {
        let r = o.render_frame(
            Extent2D { width: 640, height: 480 },
            AcquireOutcome::Image(tick % 8),
            PresentOutcome::Success,
        );
        match r {
            TickReport::Rendered { slot, .. } => slots.push(slot),
            _ => panic!("tick did not render"),
        }
    }
    assert_eq!(slots, vec![0, 1, 2, 0, 1]);
}

#[test]
fn zero_extent_suspends_everything() {
    // A zero reported extent means no acquire, submit or present happens
    // until the extent becomes nonzero again.
    let mut o = orchestrator(800, 600);
    for _ in 0..4 {
        let r = o.render_frame(
            Extent2D { width: 0, height: 0 },
            AcquireOutcome::Image(0),
            PresentOutcome::Success,
        );
        assert_eq!(r, TickReport::Suspended);
    }
    assert_eq!(o.swapchain.acquires, 0);
    assert_eq!(o.swapchain.presents, 0);
    assert_eq!(o.queue.submissions, 0);
    // Once the extent is nonzero, the tick renders.
    let r = o.render_frame(
        Extent2D { width: 800, height: 600 },
        AcquireOutcome::Image(0),
        PresentOutcome::Success,
    );
    assert!(matches!(r, TickReport::Rendered { .. }));
    assert_eq!(o.swapchain.acquires, 1);
    assert_eq!(o.swapchain.presents, 1);
    assert_eq!(o.queue.submissions, 1);
}

#[test]
fn out_of_date_present_triggers_full_recreation() {
    // An out-of-date present on one tick makes the chain stale; it is
    // rebuilt, and the pipeline rebuilt against the new extent, before
    // the next acquire.
    let mut o = orchestrator(800, 600);
    for tick in 0..10u32 {
        let outcome = if tick == 9 { PresentOutcome::OutOfDate } else { PresentOutcome::Success };
        let r = o.render_frame(
            Extent2D { width: 800, height: 600 },
            AcquireOutcome::Image(tick % 3),
            outcome,
        );
        assert!(matches!(r, TickReport::Rendered { .. }));
    }
    assert_eq!(o.swapchain.state, SwapchainState::Stale);
    let acquires_before = o.swapchain.acquires;

    // The next tick refuses to render against a stale chain.
    let r = o.render_frame(
        Extent2D { width: 1024, height: 768 },
        AcquireOutcome::Image(0),
        PresentOutcome::Success,
    );
    assert_eq!(r, TickReport::NeedsRecreation);
    assert_eq!(o.swapchain.acquires, acquires_before);

    // Recreation: swapchain first, then the pipeline, then rendering.
    o.recreate_swapchain(&support(1024, 768), &depth_supports(), 1024, 768)
        .expect("recreation");
    assert_eq!(o.swapchain.state, SwapchainState::Valid);
    assert_eq!(o.swapchain.extent, Extent2D { width: 1024, height: 768 });
    assert!(!o.pipeline_current);
    o.recreate_pipeline(vec![ShaderStage::Vertex, ShaderStage::Fragment], CullMode::Back, true);
    assert!(o.pipeline_current);
    assert_eq!(o.pipeline.extent, Extent2D { width: 1024, height: 768 });

    let r = o.render_frame(
        Extent2D { width: 1024, height: 768 },
        AcquireOutcome::Image(0),
        PresentOutcome::Success,
    );
    assert!(matches!(r, TickReport::Rendered { .. }));
}

#[test]
fn swapchain_state_transitions_through_rebuilding() {
    let caps = caps_with_extent(800, 600);
    let mut sc = SwapChain::new(&caps, &formats(), &present_modes(), &depth_supports(), 800, 600, 3)
        .expect("swapchain");
    assert_eq!(sc.state, SwapchainState::Valid);
    sc.mark_stale();
    assert_eq!(sc.state, SwapchainState::Stale);
    sc.begin_rebuild();
    assert_eq!(sc.state, SwapchainState::Rebuilding);
    sc.complete_rebuild(&caps_with_extent(400, 300), &formats(), &present_modes(), &depth_supports(), 400, 300)
        .expect("rebuild");
    assert_eq!(sc.state, SwapchainState::Valid);
    assert_eq!(sc.extent, Extent2D { width: 400, height: 300 });
}

#[test]
fn present_without_acquire_fails_deterministically() {
    let caps = caps_with_extent(800, 600);
    let mut sc = SwapChain::new(&caps, &formats(), &present_modes(), &depth_supports(), 800, 600, 3)
        .expect("swapchain");
    let before_frame = sc.current_frame;
    let before_presents = sc.presents;
    let fence = Fence::new(true);
    let r = sc.present(&fence, &Vec::new(), PresentOutcome::Success);
    assert!(r.is_err());
    // Nothing changed: the failure never corrupts state.
    assert_eq!(sc.current_frame, before_frame);
    assert_eq!(sc.presents, before_presents);
    assert_eq!(sc.state, SwapchainState::Valid);
    assert!(!sc.image_acquired);
}

#[test]
fn acquire_out_of_date_marks_stale_and_skips() {
    let mut o = orchestrator(800, 600);
    let r = o.render_frame(
        Extent2D { width: 800, height: 600 },
        AcquireOutcome::OutOfDate,
        PresentOutcome::Success,
    );
    assert_eq!(r, TickReport::AcquireFailed);
    assert_eq!(o.swapchain.state, SwapchainState::Stale);
    // The slot was not advanced and nothing was submitted or presented.
    assert_eq!(o.swapchain.current_frame, 0);
    assert_eq!(o.swapchain.acquires, 1);
    assert_eq!(o.swapchain.presents, 0);
    assert_eq!(o.queue.submissions, 0);
}

#[test]
fn recreate_clamps_requested_extent() {
    // When the surface lets the swapchain pick its extent, recreation at
    // (W, H) yields (W, H) clamped to the surface's bounds.
    let free_caps = SurfaceCapabilities {
        min_image_count: 2,
        max_image_count: 4,
        current_extent: Extent2D { width: u32::MAX, height: 0 },
        min_image_extent: Extent2D { width: 100, height: 100 },
        max_image_extent: Extent2D { width: 200, height: 150 },
    };
    let mut sc = SwapChain::new(&free_caps, &formats(), &present_modes(), &depth_supports(), 160, 120, 2)
        .expect("swapchain");
    sc.mark_stale();
    sc.recreate(&free_caps, &formats(), &present_modes(), &depth_supports(), 500, 50)
        .expect("recreate");
    assert_eq!(sc.get_extent(), Extent2D { width: 200, height: 100 });
}

#[test]
fn submission_waits_and_signals_the_slot_semaphores() {
    let mut o = orchestrator(800, 600);
    let r = o.render_frame(
        Extent2D { width: 800, height: 600 },
        AcquireOutcome::Image(1),
        PresentOutcome::Success,
    );
    assert!(matches!(r, TickReport::Rendered { slot: 0, image: 1 }));
    // Slot 0's semaphores: image-available id 0, render-finished id 1.
    assert_eq!(o.queue.last_wait, vec![0]);
    assert_eq!(o.queue.last_signal, vec![1]);
    // The slot's fence now guards the new submission.
    assert_eq!(o.swapchain.slots[0].fence.state, FenceState::Pending);
    // The recorded buffer covers the frame's extent with one draw.
    assert_eq!(o.queue.command_buffers[0].draws, 1);
    assert_eq!(
        o.queue.command_buffers[0].viewport,
        Some(Extent2D { width: 800, height: 600 })
    );
}

#[test]
fn fence_reset_clears_completion() {
    // A slot fence is created signaled; waiting returns at once.
    let mut f = Fence::new(true);
    assert!(f.is_completed());
    f.wait();
    assert!(f.is_completed());
    // After a reset the fence is unsignaled: not complete until a
    // subsequent submission using it completes.
    f.reset();
    assert!(!f.is_completed());
    assert_eq!(f.state, FenceState::Unsignaled);
    // A fence created unsignaled reports the same.
    assert!(!Fence::new(false).is_completed());
}
