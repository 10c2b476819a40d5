use framesync::cycle::{AcquireOutcome, FrameLoop, FramePhase, PresentOutcome, RecreateOutcome};
use framesync::errors::GpuError;
use framesync::swapchain::{plan_swapchain, SurfaceCaps, SurfaceFormat, SwapchainState};

fn format_a() -> SurfaceFormat {
    SurfaceFormat {
        format: 44,
        color_space: 0,
    }
}

fn format_b() -> SurfaceFormat {
    SurfaceFormat {
        format: 97,
        color_space: 1,
    }
}

fn caps() -> SurfaceCaps {
    SurfaceCaps {
        min_image_count: 2,
        max_image_count: 0,
    }
}

fn fresh_loop(depth: usize, image_count: u32) -> FrameLoop {
    let swapchain = SwapchainState {
        image_count,
        width: 800,
        height: 600,
        format: format_a(),
    };
    FrameLoop::new(depth, swapchain)
}

/// Run one clean frame; returns the slot the frame used.
fn run_clean_frame(l: &mut FrameLoop, image_index: u32) -> usize {
    assert_eq!(l.service_swapchain(caps(), 800, 600), None);
    let slot = l.begin_frame();
    l.on_slot_wait(true).unwrap();
    l.on_acquire(AcquireOutcome::Acquired { index: image_index }).unwrap();
    l.note_main_pass_recorded();
    l.note_overlay_pass_recorded();
    l.on_submitted(Ok(())).unwrap();
    l.on_present(PresentOutcome::Presented { suboptimal: false }).unwrap();
    assert_eq!(l.current_phase(), FramePhase::Idle);
    slot
}

#[test]
fn five_frames_use_alternating_slots() {
    let mut l = fresh_loop(2, 3);
    let mut slots = Vec::new();
    for i in 0..5u32 {
        slots.push(run_clean_frame(&mut l, i % 3));
    }
    assert_eq!(slots, vec![0, 1, 0, 1, 0]);
}

#[test]
fn first_frames_report_no_gpu_timing() {
    let mut l = fresh_loop(2, 3);
    let mut availability = Vec::new();
    for i in 0..4u32 {
        l.begin_frame();
        l.on_slot_wait(true).unwrap();
        availability.push(l.gpu_timing_available());
        l.on_acquire(AcquireOutcome::Acquired { index: i % 3 }).unwrap();
        l.note_main_pass_recorded();
        l.note_overlay_pass_recorded();
        l.on_submitted(Ok(())).unwrap();
        l.on_present(PresentOutcome::Presented { suboptimal: false }).unwrap();
    }
    // Ring depth 2: frames 0 and 1 have no data, later frames do.
    assert_eq!(availability, vec![false, false, true, true]);
}

#[test]
fn stale_acquire_recreates_once_then_next_frame_proceeds() {
    let mut l = fresh_loop(2, 3);
    for i in 0..3u32 {
        run_clean_frame(&mut l, i % 3);
    }

    // Frame 3: the surface reports stale on acquire.
    assert_eq!(l.service_swapchain(caps(), 800, 600), None);
    l.begin_frame();
    l.on_slot_wait(true).unwrap();
    l.on_acquire(AcquireOutcome::Stale).unwrap();
    assert_eq!(l.current_phase(), FramePhase::Dirty);

    // The boundary recreates exactly once, with the new dimensions.
    assert!(l.needs_service());
    let plan = l.service_swapchain(caps(), 1024, 768).unwrap();
    assert_eq!(plan.width, 1024);
    assert_eq!(plan.height, 768);
    l.on_recreate_idle(true).unwrap();
    l.complete_recreation(RecreateOutcome::Created { image_count: 4 }).unwrap();
    assert_eq!(l.image_count(), 4);
    assert_eq!(l.current_phase(), FramePhase::Idle);

    // Frame 4 proceeds normally against the rebuilt swapchain.
    run_clean_frame(&mut l, 3);
    assert!(!l.needs_service());
}

#[test]
fn format_change_requested_twice_recreates_once() {
    let mut l = fresh_loop(2, 3);
    run_clean_frame(&mut l, 0);

    l.request_format_change(format_b());
    l.request_format_change(format_b());

    let plan = l.service_swapchain(caps(), 800, 600).unwrap();
    assert_eq!(plan.format, format_b());
    l.on_recreate_idle(true).unwrap();
    l.complete_recreation(RecreateOutcome::Created { image_count: 3 }).unwrap();
    assert_eq!(l.surface_format(), format_b());

    // The request was consumed: the next boundary has nothing to do.
    assert!(!l.needs_service());
    assert_eq!(l.service_swapchain(caps(), 800, 600), None);
}

#[test]
fn latest_of_two_format_requests_wins() {
    let mut l = fresh_loop(2, 3);

    l.request_format_change(format_a());
    l.request_format_change(format_b());

    let plan = l.service_swapchain(caps(), 800, 600).unwrap();
    assert_eq!(plan.format, format_b());
    l.on_recreate_idle(true).unwrap();
    l.complete_recreation(RecreateOutcome::Created { image_count: 3 }).unwrap();

    // One recreation, with the second format; nothing pending afterwards.
    assert_eq!(l.surface_format(), format_b());
    assert_eq!(l.service_swapchain(caps(), 800, 600), None);
}

#[test]
fn shutdown_waits_for_pending_work_before_destruction() {
    let mut l = fresh_loop(2, 3);
    run_clean_frame(&mut l, 0);
    // Frame 1 is submitted and presented; its GPU work is still pending.
    run_clean_frame(&mut l, 1);

    l.request_shutdown();
    assert!(!l.destruction_allowed());
    l.on_shutdown_idle(true).unwrap();
    assert!(l.destruction_allowed());
}

#[test]
fn successful_recreation_always_keeps_two_images() {
    let mut l = fresh_loop(2, 3);
    l.request_format_change(format_b());
    l.service_swapchain(caps(), 800, 600).unwrap();
    l.on_recreate_idle(true).unwrap();
    // A driver answer below two images is refused outright.
    assert_eq!(
        l.complete_recreation(RecreateOutcome::Created { image_count: 1 }),
        Err(GpuError::DeviceLost)
    );
    assert_eq!(l.current_phase(), FramePhase::Lost);

    let mut l = fresh_loop(2, 2);
    l.request_format_change(format_b());
    l.service_swapchain(caps(), 800, 600).unwrap();
    l.on_recreate_idle(true).unwrap();
    l.complete_recreation(RecreateOutcome::Created { image_count: 5 }).unwrap();
    assert!(l.image_count() >= 2);
}

#[test]
fn zero_area_window_defers_recreation() {
    let mut l = fresh_loop(2, 3);
    l.request_format_change(format_b());
    // A minimized window has no area: nothing is created now.
    assert_eq!(l.service_swapchain(caps(), 0, 600), None);
    assert_eq!(l.current_phase(), FramePhase::Idle);
    // The request was taken at the boundary; the next resize will replan.
    assert!(!l.needs_service());
}

#[test]
fn resize_recreates_with_new_dimensions() {
    let mut l = fresh_loop(2, 3);
    run_clean_frame(&mut l, 0);
    l.note_resize();
    assert!(l.needs_service());
    let plan = l.service_swapchain(caps(), 640, 480).unwrap();
    assert_eq!((plan.width, plan.height), (640, 480));
    l.on_recreate_idle(true).unwrap();
    l.complete_recreation(RecreateOutcome::Created { image_count: 3 }).unwrap();
    run_clean_frame(&mut l, 1);
}

#[test]
fn stale_present_marks_loop_dirty() {
    let mut l = fresh_loop(2, 3);
    l.begin_frame();
    l.on_slot_wait(true).unwrap();
    l.on_acquire(AcquireOutcome::Acquired { index: 0 }).unwrap();
    l.note_main_pass_recorded();
    l.note_overlay_pass_recorded();
    l.on_submitted(Ok(())).unwrap();
    l.on_present(PresentOutcome::Stale).unwrap();
    assert_eq!(l.current_phase(), FramePhase::Dirty);

    let mut l = fresh_loop(2, 3);
    l.begin_frame();
    l.on_slot_wait(true).unwrap();
    l.on_acquire(AcquireOutcome::Acquired { index: 0 }).unwrap();
    l.note_main_pass_recorded();
    l.note_overlay_pass_recorded();
    l.on_submitted(Ok(())).unwrap();
    l.on_present(PresentOutcome::Presented { suboptimal: true }).unwrap();
    assert_eq!(l.current_phase(), FramePhase::Dirty);
}

#[test]
fn driver_failures_follow_the_error_taxonomy() {
    // A failed slot wait is device loss.
    let mut l = fresh_loop(2, 3);
    l.begin_frame();
    assert_eq!(l.on_slot_wait(false), Err(GpuError::DeviceLost));
    assert_eq!(l.current_phase(), FramePhase::Lost);
    assert!(l.destruction_allowed());

    // Exhaustion on acquire abandons the frame but keeps the loop alive.
    let mut l = fresh_loop(2, 3);
    l.begin_frame();
    l.on_slot_wait(true).unwrap();
    assert_eq!(
        l.on_acquire(AcquireOutcome::Failed(GpuError::OutOfMemory)),
        Err(GpuError::OutOfMemory)
    );
    assert_eq!(l.current_phase(), FramePhase::Idle);

    // Device loss on acquire is fatal.
    let mut l = fresh_loop(2, 3);
    l.begin_frame();
    l.on_slot_wait(true).unwrap();
    assert_eq!(
        l.on_acquire(AcquireOutcome::Failed(GpuError::DeviceLost)),
        Err(GpuError::DeviceLost)
    );
    assert_eq!(l.current_phase(), FramePhase::Lost);

    // A failed submission leaves only teardown.
    let mut l = fresh_loop(2, 3);
    l.begin_frame();
    l.on_slot_wait(true).unwrap();
    l.on_acquire(AcquireOutcome::Acquired { index: 0 }).unwrap();
    l.note_main_pass_recorded();
    l.note_overlay_pass_recorded();
    assert_eq!(
        l.on_submitted(Err(GpuError::OutOfMemory)),
        Err(GpuError::OutOfMemory)
    );
    assert_eq!(l.current_phase(), FramePhase::Lost);

    // An image index outside the set is an unrecoverable driver fault.
    let mut l = fresh_loop(2, 3);
    l.begin_frame();
    l.on_slot_wait(true).unwrap();
    assert_eq!(
        l.on_acquire(AcquireOutcome::Acquired { index: 3 }),
        Err(GpuError::DeviceLost)
    );
    assert_eq!(l.current_phase(), FramePhase::Lost);

    // Exhaustion during recreation keeps the loop dirty for a retry.
    let mut l = fresh_loop(2, 3);
    l.request_format_change(format_b());
    l.service_swapchain(caps(), 800, 600).unwrap();
    l.on_recreate_idle(true).unwrap();
    assert_eq!(
        l.complete_recreation(RecreateOutcome::Failed(GpuError::OutOfMemory)),
        Err(GpuError::OutOfMemory)
    );
    assert_eq!(l.current_phase(), FramePhase::Dirty);
}

#[test]
fn acquired_image_is_reported_during_recording() {
    let mut l = fresh_loop(2, 3);
    l.begin_frame();
    l.on_slot_wait(true).unwrap();
    l.on_acquire(AcquireOutcome::Acquired { index: 2 }).unwrap();
    assert_eq!(l.acquired_image(), 2);
    assert_eq!(l.current_phase(), FramePhase::Recording);
}

#[test]
fn plan_swapchain_respects_surface_capabilities() {
    let f = format_a();
    // One more image than the surface minimum.
    let plan = plan_swapchain(
        SurfaceCaps {
            min_image_count: 2,
            max_image_count: 0,
        },
        800,
        600,
        f,
    )
    .unwrap();
    assert_eq!(plan.image_count, 3);

    // Clamped to the surface maximum.
    let plan = plan_swapchain(
        SurfaceCaps {
            min_image_count: 3,
            max_image_count: 3,
        },
        800,
        600,
        f,
    )
    .unwrap();
    assert_eq!(plan.image_count, 3);

    // Never below two, even on a surface with minimum one.
    let plan = plan_swapchain(
        SurfaceCaps {
            min_image_count: 1,
            max_image_count: 0,
        },
        800,
        600,
        f,
    )
    .unwrap();
    assert_eq!(plan.image_count, 2);

    // A surface that cannot hold two images is refused.
    assert!(plan_swapchain(
        SurfaceCaps {
            min_image_count: 1,
            max_image_count: 1,
        },
        800,
        600,
        f,
    )
    .is_none());

    // So is a window with no area.
    assert!(plan_swapchain(caps(), 0, 600, f).is_none());
    assert!(plan_swapchain(caps(), 800, 0, f).is_none());
}
