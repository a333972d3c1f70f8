//! End-to-end frame-driver scenarios, with the effect trace standing in for
//! a mock device that records call order.

use frameloop::driver::{
    AcquireDecision, AcquireOutcome, FrameDriver, FramePhase, GpuEffect,
};
use frameloop::extent::Extent;
use frameloop::geometry::demo_quad;
use frameloop::recorder::Command;
use frameloop::surface::{
    PresentMode, SurfaceCapabilities, SurfaceFormat, COLOR_SPACE_SRGB_NONLINEAR,
    FORMAT_B8G8R8A8_SRGB,
};

fn driver_at(width: u32, height: u32) -> FrameDriver {
    let formats = vec![SurfaceFormat {
        format_id: FORMAT_B8G8R8A8_SRGB,
        color_space_id: COLOR_SPACE_SRGB_NONLINEAR,
    }];
    let modes = vec![PresentMode::Fifo];
    let caps = SurfaceCapabilities {
        min_image_count: 2,
        max_image_count: Some(3),
        current_extent: Extent::new(width, height),
    };
    FrameDriver::new(&formats, &modes, &caps).unwrap()
}

/// Runs one redraw that acquires `image_index` at the first attempt and
/// renders the demo quad.
fn one_clean_frame(d: &mut FrameDriver, image_index: u32) {
    assert!(d.begin_frame());
    let decision = d.acquire_next_image(AcquireOutcome::Ready { image_index });
    assert_eq!(decision, AcquireDecision::Render { image_index });
    let quad = demo_quad();
    let submission = d.render_frame(&quad, 0);
    assert_eq!(submission.image_index, image_index);
}

#[test]
fn first_frame_draws_the_quad() {
    // Window opens at 800×600; the first frame renders the two-triangle quad:
    // one acquire, one recorded draw of 6 indices, one present.
    let mut d = driver_at(800, 600);
    assert!(d.begin_frame());
    let decision = d.acquire_next_image(AcquireOutcome::Ready { image_index: 0 });
    assert_eq!(decision, AcquireDecision::Render { image_index: 0 });
    let quad = demo_quad();
    let submission = d.render_frame(&quad, 0);
    assert_eq!(submission.image_index, 0);
    assert_eq!(submission.vertex_buffer.data, quad.vertices);
    assert_eq!(submission.index_buffer.data, quad.indices);
    assert_eq!(submission.commands.commands.len(), 7);
    assert_eq!(
        submission.commands.commands[5],
        Command::DrawIndexed {
            index_count: 6,
            instance_count: 1,
            first_index: 0,
            vertex_offset: 0,
            first_instance: 0,
        }
    );
    let acquires = d.trace.iter().filter(|e| matches!(e, GpuEffect::Acquired { .. })).count();
    let draws = d.trace.iter().filter(|e| matches!(e, GpuEffect::DrawRecorded { .. })).count();
    let presents = d.trace.iter().filter(|e| matches!(e, GpuEffect::Presented { .. })).count();
    assert_eq!((acquires, draws, presents), (1, 1, 1));
    assert!(d.trace.contains(&GpuEffect::DrawRecorded { index_count: 6 }));
}

#[test]
fn frame_effects_are_ordered() {
    // Acquisition-complete → execution-complete → presentation-complete, in
    // the device-observed order, for each successful frame.
    let mut d = driver_at(800, 600);
    one_clean_frame(&mut d, 0);
    one_clean_frame(&mut d, 1);
    let sync: Vec<&GpuEffect> = d
        .trace
        .iter()
        .filter(|e| {
            matches!(
                e,
                GpuEffect::Acquired { .. } | GpuEffect::Executed { .. } | GpuEffect::Presented { .. }
            )
        })
        .collect();
    assert_eq!(
        sync,
        vec![
            &GpuEffect::Acquired { image_index: 0 },
            &GpuEffect::Executed { image_index: 0 },
            &GpuEffect::Presented { image_index: 0 },
            &GpuEffect::Acquired { image_index: 1 },
            &GpuEffect::Executed { image_index: 1 },
            &GpuEffect::Presented { image_index: 1 },
        ]
    );
}

#[test]
fn rebinding_an_index_presents_it_first() {
    // Two consecutive frames on the same image index: a presentation of that
    // index stands between the two acquisitions.
    let mut d = driver_at(800, 600);
    one_clean_frame(&mut d, 0);
    one_clean_frame(&mut d, 0);
    let positions: Vec<usize> = d
        .trace
        .iter()
        .enumerate()
        .filter(|(_, e)| matches!(e, GpuEffect::Acquired { image_index: 0 }))
        .map(|(n, _)| n)
        .collect();
    assert_eq!(positions.len(), 2);
    let between = &d.trace[positions[0] + 1..positions[1]];
    assert!(between.contains(&GpuEffect::Presented { image_index: 0 }));
}

#[test]
fn zero_resize_suspends_all_gpu_work() {
    // Window resized to 0×0 mid-session: state becomes minimized and
    // subsequent redraw requests perform zero GPU calls.
    let mut d = driver_at(800, 600);
    one_clean_frame(&mut d, 0);
    let trace_before = d.trace.clone();
    d.on_resized(Extent::new(0, 0));
    assert!(d.minimized);
    assert_eq!(d.trace, trace_before);
    assert!(!d.begin_frame());
    assert!(!d.begin_frame());
    assert_eq!(d.trace, trace_before);
}

#[test]
fn zero_extent_recreation_fails_and_minimizes() {
    // The manager-level recreation at 0×0 reports failure and leaves the
    // parameters untouched; the driver treats the surface as minimized.
    let mut d = driver_at(800, 600);
    assert!(d.begin_frame());
    let decision = d.acquire_next_image(AcquireOutcome::Suboptimal);
    assert_eq!(decision, AcquireDecision::Recreate);
    let config_before = d.swapchain.config;
    assert!(!d.recreate_for_retry(Extent::new(0, 0)));
    assert!(d.minimized);
    assert_eq!(d.phase, FramePhase::Idle);
    assert_eq!(d.swapchain.config, config_before);
    assert!(!d.begin_frame());
}

#[test]
fn restore_from_minimized_renders_without_extra_recreation() {
    // Resized from 0×0 back to 800×600: the resize itself recreates the
    // swapchain, so the next redraw performs exactly one recreation-free
    // acquire and one full frame.
    let mut d = driver_at(800, 600);
    d.on_resized(Extent::new(0, 0));
    assert!(d.minimized);
    d.on_resized(Extent::new(800, 600));
    assert!(!d.minimized);
    let recreations_after_resize =
        d.trace.iter().filter(|e| matches!(e, GpuEffect::SwapchainRecreated { .. })).count();
    assert_eq!(recreations_after_resize, 1);
    one_clean_frame(&mut d, 0);
    let recreations_after_frame =
        d.trace.iter().filter(|e| matches!(e, GpuEffect::SwapchainRecreated { .. })).count();
    assert_eq!(recreations_after_frame, 1);
}

#[test]
fn resize_recreates_at_reported_extent() {
    let mut d = driver_at(800, 600);
    d.on_resized(Extent::new(1024, 768));
    assert_eq!(d.swapchain.config.extent, Extent::new(1024, 768));
    assert!(d
        .trace
        .contains(&GpuEffect::SwapchainRecreated { extent: Extent::new(1024, 768), image_count: 3 }));
}

#[test]
fn suboptimal_acquire_recreates_once_then_succeeds() {
    let mut d = driver_at(800, 600);
    assert!(d.begin_frame());
    assert_eq!(d.acquire_next_image(AcquireOutcome::Suboptimal), AcquireDecision::Recreate);
    assert!(d.recreate_for_retry(Extent::new(800, 600)));
    let decision = d.acquire_next_image(AcquireOutcome::Ready { image_index: 2 });
    assert_eq!(decision, AcquireDecision::Render { image_index: 2 });
    let quad = demo_quad();
    let submission = d.render_frame(&quad, 0);
    assert_eq!(submission.image_index, 2);
}

#[test]
fn second_suboptimal_suspends_instead_of_recreating_again() {
    let mut d = driver_at(800, 600);
    assert!(d.begin_frame());
    assert_eq!(d.acquire_next_image(AcquireOutcome::Suboptimal), AcquireDecision::Recreate);
    assert!(d.recreate_for_retry(Extent::new(800, 600)));
    let decision = d.acquire_next_image(AcquireOutcome::Suboptimal);
    assert_eq!(decision, AcquireDecision::Suspend);
    assert!(d.minimized);
    assert_eq!(d.phase, FramePhase::Idle);
}

#[test]
fn close_releases_in_dependency_order() {
    // Close requested: teardown releases pipeline, allocator, swapchain,
    // device in that order, after the last frame completed.
    let mut d = driver_at(800, 600);
    one_clean_frame(&mut d, 0);
    let len_before = d.trace.len();
    d.on_close_requested();
    assert!(d.closed);
    assert_eq!(
        &d.trace[len_before..],
        &[
            GpuEffect::PipelineReleased,
            GpuEffect::AllocatorReleased,
            GpuEffect::SwapchainReleased,
            GpuEffect::DeviceReleased,
        ]
    );
}

#[test]
fn creation_logs_the_swapchain() {
    let d = driver_at(800, 600);
    assert_eq!(
        d.trace,
        vec![GpuEffect::SwapchainCreated { extent: Extent::new(800, 600), image_count: 3 }]
    );
}
