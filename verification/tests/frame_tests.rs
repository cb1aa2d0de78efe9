use hello_triangle::surface::{ColorSpace, Extent, Format, SurfaceFormat};
use hello_triangle::targets::{build_framebuffers, plan_pipeline, plan_render_pass,
    record_command_buffers, CullMode, FrontFace, LoadOp, PolygonMode, StoreOp, Topology};
use hello_triangle::frame::{build_epoch, AcquireOutcome, FrameAction, FrameDriver,
    SubmitOutcome};

fn a_format() -> SurfaceFormat {
    SurfaceFormat { format: Format::B8G8R8A8Unorm, color_space: ColorSpace::SrgbNonLinear }
}

fn an_extent() -> Extent {
    Extent { width: 800, height: 600 }
}

fn fresh_driver(image_count: usize) -> FrameDriver {
    FrameDriver::new(build_epoch(image_count, a_format(), an_extent()))
}

#[test]
fn render_pass_clears_and_stores_one_sample() {
    let desc = plan_render_pass(Format::R8G8B8A8Srgb);
    assert_eq!(desc.color_load, LoadOp::Clear);
    assert_eq!(desc.color_store, StoreOp::Store);
    assert_eq!(desc.color_format, Format::R8G8B8A8Srgb);
    assert_eq!(desc.samples, 1);
    assert_eq!(desc.subpass_count, 1);
}

#[test]
fn pipeline_is_fixed_and_sized_to_the_extent() {
    let config = plan_pipeline(Extent { width: 640, height: 480 });
    assert_eq!(config.vertex_input_bindings, 0);
    assert_eq!(config.topology, Topology::TriangleList);
    assert!(!config.primitive_restart);
    assert_eq!(config.viewport_extent, Extent { width: 640, height: 480 });
    assert_eq!(config.polygon_mode, PolygonMode::Fill);
    assert_eq!(config.cull_mode, CullMode::Back);
    assert_eq!(config.front_face, FrontFace::Clockwise);
    assert!(!config.depth_clamp);
    assert!(!config.blend_enabled);
    assert_eq!(config.subpass_index, 0);
}

#[test]
fn one_framebuffer_per_image_one_buffer_per_framebuffer() {
    let framebuffers = build_framebuffers(3);
    assert_eq!(framebuffers, vec![0, 1, 2]);

    let buffers = record_command_buffers(framebuffers.len());
    assert_eq!(buffers.len(), 3);
    for (k, buffer) in buffers.iter().enumerate() {
        assert_eq!(buffer.framebuffer_index, k);
        assert_eq!(buffer.vertex_count, 3);
        assert_eq!(buffer.instance_count, 1);
    }
}

#[test]
fn rebuild_keeps_all_counts_in_lockstep() {
    for count in [0usize, 1, 2, 3, 8] {
        let epoch = build_epoch(count, a_format(), an_extent());
        assert_eq!(epoch.image_count, count);
        assert_eq!(epoch.framebuffers.len(), count);
        assert_eq!(epoch.command_buffers.len(), count);
    }
}

#[test]
fn out_of_date_acquire_skips_and_invalidates() {
    let mut driver = fresh_driver(3);
    assert!(!driver.needs_rebuild());

    let action = driver.handle_acquire(AcquireOutcome::OutOfDate);

    assert_eq!(action, FrameAction::Skip);
    assert!(driver.needs_rebuild());
    assert!(driver.has_pending_future);
}

#[test]
fn suboptimal_acquire_still_submits_then_forces_rebuild() {
    let mut driver = fresh_driver(3);

    let action = driver.handle_acquire(AcquireOutcome::Success {
        image_index: 1,
        suboptimal: true,
    });
    assert_eq!(action, FrameAction::Submit { image_index: 1 });

    driver.handle_submit(SubmitOutcome::Success);
    assert!(driver.has_pending_future);
    assert!(driver.needs_rebuild());
}

#[test]
fn clean_acquire_submits_without_rebuild() {
    let mut driver = fresh_driver(2);

    let action = driver.handle_acquire(AcquireOutcome::Success {
        image_index: 0,
        suboptimal: false,
    });
    assert_eq!(action, FrameAction::Submit { image_index: 0 });

    driver.handle_submit(SubmitOutcome::Success);
    assert!(driver.has_pending_future);
    assert!(!driver.needs_rebuild());
}

#[test]
fn every_submit_outcome_leaves_one_pending_future() {
    for outcome in [SubmitOutcome::Success, SubmitOutcome::OutOfDate, SubmitOutcome::Failure] {
        let mut driver = fresh_driver(2);
        driver.handle_acquire(AcquireOutcome::Success { image_index: 0, suboptimal: false });
        assert!(!driver.has_pending_future);
        driver.handle_submit(outcome);
        assert!(driver.has_pending_future);
    }
}

#[test]
fn out_of_date_submit_invalidates_but_failure_does_not() {
    let mut driver = fresh_driver(2);
    driver.handle_acquire(AcquireOutcome::Success { image_index: 0, suboptimal: false });
    driver.handle_submit(SubmitOutcome::OutOfDate);
    assert!(driver.needs_rebuild());

    let mut other = fresh_driver(2);
    other.handle_acquire(AcquireOutcome::Success { image_index: 1, suboptimal: false });
    other.handle_submit(SubmitOutcome::Failure);
    assert!(!other.needs_rebuild());
    assert!(other.has_pending_future);
}

#[test]
fn scenario_out_of_date_on_fifth_frame_rebuilds_on_sixth() {
    let mut driver = fresh_driver(3);
    let mut submissions: usize = 0;
    let mut rebuilds: usize = 0;

    for frame in 1usize..=7 {
        if driver.needs_rebuild() {
            driver.complete_rebuild(3, a_format(), an_extent());
            rebuilds += 1;
            assert_eq!(frame, 6);
        }

        let outcome = if frame == 5 {
            AcquireOutcome::OutOfDate
        } else {
            AcquireOutcome::Success { image_index: frame % 3, suboptimal: false }
        };

        match driver.handle_acquire(outcome) {
            FrameAction::Submit { image_index } => {
                assert!(image_index < driver.epoch.command_buffers.len());
                driver.handle_submit(SubmitOutcome::Success);
                submissions += 1;
            },
            FrameAction::Skip => {
                assert_eq!(frame, 5);
                assert!(driver.needs_rebuild());
            },
        }
    }

    assert_eq!(submissions, 6);
    assert_eq!(rebuilds, 1);
    assert!(driver.has_pending_future);
}

#[test]
fn rebuild_adopts_the_new_image_count() {
    let mut driver = fresh_driver(3);
    driver.handle_acquire(AcquireOutcome::OutOfDate);
    assert!(driver.needs_rebuild());

    driver.complete_rebuild(4, a_format(), Extent { width: 1024, height: 768 });

    assert!(!driver.needs_rebuild());
    assert_eq!(driver.epoch.image_count, 4);
    assert_eq!(driver.epoch.framebuffers.len(), 4);
    assert_eq!(driver.epoch.command_buffers.len(), 4);
    assert_eq!(driver.epoch.extent, Extent { width: 1024, height: 768 });
    assert!(driver.has_pending_future);
}
