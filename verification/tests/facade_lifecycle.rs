use rhi_core::error::RhiError;
use rhi_core::facade::Rhi;
use rhi_core::facade::TeardownStep;
use rhi_core::pipeline::PipelineResources;
use rhi_core::pipeline::UNIFORM_BLOCK_COUNT;
use rhi_core::recorder::record_primary;
use rhi_core::recorder::PrimaryCmd;
use rhi_core::surface::Extent2d;
use rhi_core::surface::SurfaceFormat;
use rhi_core::surface::PRESENT_MODE_FIFO;
use rhi_core::swapchain::SwapchainState;

fn test_swapchain(image_count: u64, width: u32, height: u32) -> SwapchainState {
    let images: Vec<u64> = (100..100 + image_count).collect();
    let image_views: Vec<u64> = (200..200 + image_count).collect();
    SwapchainState {
        swapchain: 1,
        format: SurfaceFormat { format: 50, color_space: 0 },
        present_mode: PRESENT_MODE_FIFO,
        extent: Extent2d { width, height },
        images,
        image_views,
        depth_image: 300,
        depth_image_memory: 301,
        depth_image_view: 302,
    }
}

fn test_pipeline(image_count: u64, width: u32, height: u32) -> PipelineResources {
    let k = image_count as usize;
    PipelineResources {
        extent: Extent2d { width, height },
        render_pass: 400,
        pipeline_layout: 401,
        pipeline: 402,
        descriptor_set_layout: 403,
        descriptor_pool: 404,
        vertex_buffer: 405,
        index_buffer: 406,
        global_command_pool: 407,
        framebuffers: (500..500 + image_count).collect(),
        command_pools: (600..600 + image_count).collect(),
        primary_command_buffers: (700..700 + image_count).collect(),
        secondary_command_buffers: vec![Vec::new(); k],
        descriptor_sets: (800..800 + image_count).collect(),
        uniform_buffers: vec![vec![1, 2, 3, 4]; k],
        uniform_buffers_memory: vec![vec![5, 6, 7, 8]; k],
    }
}

#[test]
fn uniform_block_count_is_four() {
    assert_eq!(UNIFORM_BLOCK_COUNT, 4);
}

#[test]
fn destroy_runs_in_reverse_dependency_order() {
    let mut rhi = Rhi::assemble(2, test_swapchain(3, 800, 600), test_pipeline(3, 800, 600))
        .unwrap();
    let steps = rhi.destroy();
    assert_eq!(
        steps,
        vec![
            TeardownStep::SyncObjects,
            TeardownStep::PipelineResources,
            TeardownStep::Swapchain,
            TeardownStep::DeviceContext,
        ]
    );
    assert!(rhi.destroyed);
}

#[test]
fn second_destroy_performs_no_step() {
    // Destroy is idempotent: the second call sees the destroyed flag and
    // frees nothing again.
    let mut rhi = Rhi::assemble(2, test_swapchain(3, 800, 600), test_pipeline(3, 800, 600))
        .unwrap();
    let first = rhi.destroy();
    assert_eq!(first.len(), 4);
    let second = rhi.destroy();
    assert_eq!(second.len(), 0);
    assert!(rhi.destroyed);
}

#[test]
fn assemble_rejects_mismatched_shapes() {
    // Framebuffer count must equal the image count.
    let r = Rhi::assemble(2, test_swapchain(3, 800, 600), test_pipeline(2, 800, 600));
    assert_eq!(r.err(), Some(RhiError::ResourceCreation));
    // Pipeline extent must match the swapchain extent.
    let r = Rhi::assemble(2, test_swapchain(3, 800, 600), test_pipeline(3, 640, 480));
    assert_eq!(r.err(), Some(RhiError::ResourceCreation));
    // The frame ring cannot be larger than the image chain.
    let r = Rhi::assemble(4, test_swapchain(3, 800, 600), test_pipeline(3, 800, 600));
    assert_eq!(r.err(), Some(RhiError::ResourceCreation));
}

#[test]
fn recreate_reflects_new_extent_and_image_count() {
    // Round trip: recreate with a resized surface, then a normal render
    // cycle records against the new extent, and the framebuffer count
    // equals the new image count.
    let mut rhi = Rhi::assemble(2, test_swapchain(3, 800, 600), test_pipeline(3, 800, 600))
        .unwrap();
    let teardown = rhi.recreate_teardown();
    assert_eq!(
        teardown,
        vec![
            TeardownStep::SyncObjects,
            TeardownStep::PipelineResources,
            TeardownStep::Swapchain,
        ]
    );
    rhi.recreate_install(test_swapchain(2, 1024, 768), test_pipeline(2, 1024, 768)).unwrap();
    assert_eq!(rhi.get_width(), 1024);
    assert_eq!(rhi.get_height(), 768);
    assert_eq!(rhi.pipeline.framebuffers.len(), 2);
    assert_eq!(rhi.sync.frame_slot(), 0);

    // A normal render cycle against the rebuilt chain.
    rhi.sync.complete_throttle();
    rhi.sync.on_acquire_ok(0);
    assert_eq!(rhi.sync.image_wait_slot(), None);
    rhi.sync.claim();
    let cmds = record_primary(&rhi.pipeline, 0, 900);
    assert_eq!(
        cmds[0],
        PrimaryCmd::BeginRenderPass {
            render_pass: 400,
            framebuffer: 500,
            render_area: Extent2d { width: 1024, height: 768 },
        }
    );
    assert_eq!(cmds[1], PrimaryCmd::ExecuteSecondary { buffer: 900 });
    assert_eq!(cmds[2], PrimaryCmd::EndRenderPass);
    rhi.sync.submit();
    rhi.sync.on_present_ok();
}

#[test]
fn recreate_rejects_mismatched_shapes_and_keeps_state() {
    let mut rhi = Rhi::assemble(2, test_swapchain(3, 800, 600), test_pipeline(3, 800, 600))
        .unwrap();
    let r = rhi.recreate_install(test_swapchain(2, 1024, 768), test_pipeline(3, 1024, 768));
    assert_eq!(r, Err(RhiError::ResourceCreation));
    assert_eq!(rhi.get_width(), 800);
    assert_eq!(rhi.pipeline.framebuffers.len(), 3);
}

#[test]
fn secondary_buffers_grow_along_the_slot_axis() {
    let mut pipeline = test_pipeline(3, 800, 600);
    assert_eq!(pipeline.secondary_missing(1, 0), 1);
    pipeline.install_secondary(1, vec![910]);
    assert_eq!(pipeline.secondary_missing(1, 0), 0);
    assert_eq!(pipeline.secondary_at(1, 0), 910);
    // Growing to slot 2 allocates only what is missing, keeping slot 0.
    assert_eq!(pipeline.secondary_missing(1, 2), 2);
    pipeline.install_secondary(1, vec![911, 912]);
    assert_eq!(pipeline.secondary_at(1, 0), 910);
    assert_eq!(pipeline.secondary_at(1, 2), 912);
    // Other images are untouched.
    assert_eq!(pipeline.secondary_missing(0, 0), 1);
}

#[test]
fn error_messages_name_the_failure() {
    assert_eq!(RhiError::DeviceSelection.message(), "no compatible physical device");
    assert_eq!(
        RhiError::IncompatibleSurface.message(),
        "surface reports no format or present mode"
    );
    assert_eq!(RhiError::Submission.message(), "queue submission failed");
    assert_eq!(RhiError::Present.message(), "present request failed");
    assert_eq!(RhiError::ResourceCreation.message(), "resource creation failed");
}
