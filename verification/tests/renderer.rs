use lustre::config::AnimationConfig;
use lustre::device::{
    find_graphics_present_family, select_physical_device, DeviceCandidate, DeviceKind, QueueFamily,
};
use lustre::frame::{
    plan_frame_draws, AcquireOutcome, FrameAction, FrameLoop, FramePhase, MAX_STALE_RETRIES,
};
use lustre::objects::load_mesh;
use lustre::pipeline::{
    object_vertex_layout, push_constant_range, terrain_vertex_layout, PipelineKind, PipelineSet,
};
use lustre::swapchain::{
    clamp_image_count, pick_extent, pick_present_mode, Extent2D, PresentMode, PresentOutcome,
    SurfaceCaps, SwapchainManager, SwapchainStatus,
};

fn device(kind: DeviceKind, swapchain: bool, families: &[(bool, bool)]) -> DeviceCandidate {
    DeviceCandidate {
        kind,
        supports_swapchain: swapchain,
        queue_families: families
            .iter()
            .map(|&(graphics, present)| QueueFamily { graphics, present })
            .collect(),
    }
}

#[test]
fn queue_family_first_fit_wins() {
    let families = vec![
        QueueFamily { graphics: true, present: false },
        QueueFamily { graphics: false, present: true },
        QueueFamily { graphics: true, present: true },
        QueueFamily { graphics: true, present: true },
    ];
    assert_eq!(find_graphics_present_family(&families), Some(2));
    assert_eq!(find_graphics_present_family(&vec![]), None);
    let unfit = vec![QueueFamily { graphics: true, present: false }];
    assert_eq!(find_graphics_present_family(&unfit), None);
}

#[test]
fn device_selection_prefers_discrete() {
    let candidates = vec![
        device(DeviceKind::Cpu, true, &[(true, true)]),
        device(DeviceKind::Integrated, true, &[(true, true)]),
        device(DeviceKind::Discrete, true, &[(true, true)]),
    ];
    assert_eq!(select_physical_device(&candidates), Some(2));
}

#[test]
fn device_selection_takes_first_of_equal_rank() {
    let candidates = vec![
        device(DeviceKind::Integrated, true, &[(true, true)]),
        device(DeviceKind::Integrated, true, &[(true, true)]),
    ];
    assert_eq!(select_physical_device(&candidates), Some(0));
}

#[test]
fn device_selection_skips_unqualified() {
    let candidates = vec![
        // Discrete but cannot present on a graphics queue.
        device(DeviceKind::Discrete, true, &[(true, false), (false, true)]),
        // Discrete but no swapchain extension.
        device(DeviceKind::Discrete, false, &[(true, true)]),
        device(DeviceKind::Virtual, true, &[(true, true)]),
    ];
    assert_eq!(select_physical_device(&candidates), Some(2));
}

#[test]
fn device_selection_fails_without_candidates() {
    assert_eq!(select_physical_device(&vec![]), None);
    let unusable = vec![device(DeviceKind::Discrete, false, &[(true, true)])];
    assert_eq!(select_physical_device(&unusable), None);
}

fn caps(min: u32, max: Option<u32>, current: Option<Extent2D>) -> SurfaceCaps {
    SurfaceCaps { min_image_count: min, max_image_count: max, current_extent: current }
}

#[test]
fn image_count_is_double_buffered_and_clamped() {
    assert_eq!(clamp_image_count(&caps(1, None, None)), 2);
    assert_eq!(clamp_image_count(&caps(2, None, None)), 2);
    assert_eq!(clamp_image_count(&caps(3, None, None)), 3);
    assert_eq!(clamp_image_count(&caps(1, Some(8), None)), 2);
    assert_eq!(clamp_image_count(&caps(3, Some(2), None)), 2);
    assert_eq!(clamp_image_count(&caps(5, Some(4), None)), 4);
}

#[test]
fn extent_follows_surface_then_fallback() {
    let fallback = Extent2D { width: 640, height: 480 };
    let pinned = Extent2D { width: 1024, height: 768 };
    assert_eq!(pick_extent(&caps(2, None, Some(pinned)), fallback), pinned);
    assert_eq!(pick_extent(&caps(2, None, None), fallback), fallback);
}

#[test]
fn present_mode_prefers_lowest_latency() {
    assert_eq!(pick_present_mode(&vec![PresentMode::Fifo]), PresentMode::Fifo);
    assert_eq!(
        pick_present_mode(&vec![PresentMode::Fifo, PresentMode::Mailbox]),
        PresentMode::Mailbox
    );
    assert_eq!(
        pick_present_mode(&vec![PresentMode::Mailbox, PresentMode::Fifo, PresentMode::Immediate]),
        PresentMode::Immediate
    );
    assert_eq!(pick_present_mode(&vec![]), PresentMode::Fifo);
}

#[test]
fn resize_then_rebuild_matches_new_size() {
    let fallback = Extent2D { width: 800, height: 600 };
    let modes = vec![PresentMode::Fifo];
    let mut manager = SwapchainManager::create(&caps(2, Some(3), None), &modes, fallback);
    assert_eq!(manager.status, SwapchainStatus::Valid);
    assert_eq!(manager.state.extent, fallback);
    assert_eq!(manager.state.image_count, 2);
    assert_eq!(manager.state.framebuffer_count, 2);
    assert_eq!(manager.state.generation, 0);
    assert!(!manager.needs_rebuild());

    let new_size = Extent2D { width: 1280, height: 720 };
    manager.note_resize(new_size);
    assert!(manager.needs_rebuild());
    assert_eq!(manager.state.extent, fallback); // nothing rebuilt yet

    manager.rebuild(&caps(2, Some(3), None), &modes);
    assert_eq!(manager.status, SwapchainStatus::Valid);
    assert_eq!(manager.state.extent, new_size);
    assert_eq!(manager.state.generation, 1);
    assert_eq!(manager.state.framebuffer_count, manager.state.image_count);
}

#[test]
fn suboptimal_present_marks_chain_stale() {
    let fallback = Extent2D { width: 320, height: 200 };
    let modes = vec![PresentMode::Fifo];
    let mut manager = SwapchainManager::create(&caps(2, None, None), &modes, fallback);
    manager.note_present_outcome(PresentOutcome::Success);
    assert!(!manager.needs_rebuild());
    manager.note_present_outcome(PresentOutcome::Suboptimal);
    assert!(manager.needs_rebuild());
    manager.rebuild(&caps(2, None, None), &modes);
    assert!(!manager.needs_rebuild());

    manager.note_present_outcome(PresentOutcome::OutOfDate);
    assert!(manager.needs_rebuild());
}

#[test]
fn pipelines_rebuild_with_the_swapchain() {
    let fallback = Extent2D { width: 800, height: 600 };
    let modes = vec![PresentMode::Fifo];
    let mut manager = SwapchainManager::create(&caps(2, None, None), &modes, fallback);
    let mut pipelines = PipelineSet::build(&manager.state, true);
    assert!(!pipelines.needs_rebuild(&manager.state));
    assert!(pipelines.with_object);

    manager.note_resize(Extent2D { width: 400, height: 300 });
    manager.rebuild(&caps(2, None, None), &modes);
    assert!(pipelines.needs_rebuild(&manager.state));
    pipelines.rebuild(&manager.state);
    assert!(!pipelines.needs_rebuild(&manager.state));
    assert_eq!(pipelines.viewport, Extent2D { width: 400, height: 300 });
}

#[test]
fn empty_frame_cycle_records_no_draw() {
    // A degenerate mesh still runs acquire, record, submit, present; it just
    // contains no draw call.
    let draws = plan_frame_draws(0, 0);
    assert!(draws.is_empty());
    // The one-entry placeholder buffers of empty meshes are not drawn either.
    let draws = plan_frame_draws(1, 1);
    assert!(draws.is_empty());

    let mut frame = FrameLoop::new();
    assert_eq!(frame.on_redraw(false), FrameAction::AcquireImage);
    assert_eq!(
        frame.on_acquire(AcquireOutcome::Ready { image_index: 0, suboptimal: false }),
        FrameAction::RecordCommands { image_index: 0 }
    );
    assert_eq!(frame.on_recorded(), FrameAction::SubmitAndPresent);
    assert_eq!(frame.on_presented(PresentOutcome::Success), FrameAction::FrameDone);
    assert_eq!(frame.phase, FramePhase::Idle);
    assert_eq!(frame.frames_completed, 1);
}

#[test]
fn frame_draws_terrain_then_object() {
    let draws = plan_frame_draws(36, 36);
    assert_eq!(draws.len(), 2);
    assert_eq!(draws[0].pipeline, PipelineKind::Terrain);
    assert_eq!(draws[0].index_count, 36);
    assert_eq!(draws[1].pipeline, PipelineKind::Object);
    assert_eq!(draws[1].index_count, 36);

    let terrain_only = plan_frame_draws(36, 0);
    assert_eq!(terrain_only.len(), 1);
    assert_eq!(terrain_only[0].pipeline, PipelineKind::Terrain);

    let object_only = plan_frame_draws(1, 36);
    assert_eq!(object_only.len(), 1);
    assert_eq!(object_only[0].pipeline, PipelineKind::Object);
}

#[test]
fn stale_swapchain_retries_then_gives_up() {
    let mut frame = FrameLoop::new();
    assert_eq!(frame.on_redraw(true), FrameAction::RebuildSwapchain);
    assert_eq!(frame.on_rebuilt(), FrameAction::AcquireImage);

    // Each stale acquire books one retry until the budget runs out.
    for _ in 0..MAX_STALE_RETRIES {
        assert_eq!(frame.on_acquire(AcquireOutcome::OutOfDate), FrameAction::RebuildSwapchain);
        assert_eq!(frame.on_rebuilt(), FrameAction::AcquireImage);
    }
    assert_eq!(frame.on_acquire(AcquireOutcome::OutOfDate), FrameAction::ReportFatal);
    assert_eq!(frame.phase, FramePhase::Idle);
    assert_eq!(frame.frames_completed, 0);
}

#[test]
fn suboptimal_acquire_rebuilds_and_retries() {
    let mut frame = FrameLoop::new();
    frame.on_redraw(false);
    assert_eq!(
        frame.on_acquire(AcquireOutcome::Ready { image_index: 1, suboptimal: true }),
        FrameAction::RebuildSwapchain
    );
    assert_eq!(frame.on_rebuilt(), FrameAction::AcquireImage);
    assert_eq!(
        frame.on_acquire(AcquireOutcome::Ready { image_index: 1, suboptimal: false }),
        FrameAction::RecordCommands { image_index: 1 }
    );
}

#[test]
fn failed_acquire_is_fatal() {
    let mut frame = FrameLoop::new();
    frame.on_redraw(false);
    assert_eq!(frame.on_acquire(AcquireOutcome::Failed), FrameAction::ReportFatal);
    assert_eq!(frame.phase, FramePhase::Idle);
}

#[test]
fn out_of_date_present_rebuilds_for_next_frame() {
    let mut frame = FrameLoop::new();
    frame.on_redraw(false);
    frame.on_acquire(AcquireOutcome::Ready { image_index: 0, suboptimal: false });
    frame.on_recorded();
    assert_eq!(frame.on_presented(PresentOutcome::OutOfDate), FrameAction::RebuildSwapchain);
    assert_eq!(frame.frames_completed, 0);
}

#[test]
fn vertex_layouts_are_packed() {
    let terrain = terrain_vertex_layout();
    assert_eq!(terrain.stride, 36);
    assert_eq!(terrain.attributes.len(), 3);
    assert_eq!(terrain.attributes[0].offset, 0);
    assert_eq!(terrain.attributes[1].offset, 12);
    assert_eq!(terrain.attributes[2].offset, 24);

    let object = object_vertex_layout();
    assert_eq!(object.stride, 32);
    assert_eq!(object.attributes[2].offset, 24);
    assert_eq!(object.attributes[2].size, 8);
}

#[test]
fn push_constants_cover_two_matrices() {
    let (offset, size) = push_constant_range();
    assert_eq!(offset, 0);
    assert_eq!(size, 128);
}

#[test]
fn object_mesh_is_a_textured_cube() {
    let (vertices, indices) = load_mesh("placeholder.glb").expect("placeholder always loads");
    assert_eq!(vertices.len(), 24);
    assert_eq!(indices.len(), 36);
    for k in 0..6u32 {
        let a = 4 * k;
        assert_eq!(
            &indices[(6 * k) as usize..(6 * k + 6) as usize],
            &[a, a + 1, a + 2, a, a + 2, a + 3]
        );
    }
    // Every vertex sits on a corner of the unit cube, in half units.
    for v in &vertices {
        assert!(v.x == 1 || v.x == -1);
        assert!(v.y == 1 || v.y == -1);
        assert!(v.z == 1 || v.z == -1);
        assert!(v.u == 0 || v.u == 1);
        assert!(v.v == 0 || v.v == 1);
    }
    // All indices stay below the vertex count.
    assert!(indices.iter().all(|&i| (i as usize) < vertices.len()));
}

#[test]
fn animation_config_defaults_on() {
    let config = AnimationConfig::new();
    assert!(config.blur);
    assert!(config.fade_in);
    assert_eq!(config.animation_default_settings(), (true, true));

    let custom = AnimationConfig { blur: false, fade_in: true };
    assert_eq!(custom.animation_default_settings(), (false, true));
}
