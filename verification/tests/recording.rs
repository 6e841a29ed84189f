use rhi_core::pipeline::PipelineResources;
use rhi_core::recorder::plan_uniform_upload;
use rhi_core::recorder::record_secondary;
use rhi_core::recorder::EntityDraw;
use rhi_core::recorder::SceneSnapshot;
use rhi_core::recorder::SecondaryCmd;
use rhi_core::recorder::MODEL_MATRIX_BYTES;
use rhi_core::surface::Extent2d;

fn test_pipeline(image_count: u64) -> PipelineResources {
    let k = image_count as usize;
    PipelineResources {
        extent: Extent2d { width: 800, height: 600 },
        render_pass: 400,
        pipeline_layout: 401,
        pipeline: 402,
        descriptor_set_layout: 403,
        descriptor_pool: 404,
        vertex_buffer: 405,
        index_buffer: 406,
        global_command_pool: 407,
        framebuffers: (500..500 + image_count).collect(),
        command_pools: (600..600 + image_count).collect(),
        primary_command_buffers: (700..700 + image_count).collect(),
        secondary_command_buffers: vec![Vec::new(); k],
        descriptor_sets: (800..800 + image_count).collect(),
        uniform_buffers: vec![vec![1, 2, 3, 4]; k],
        uniform_buffers_memory: vec![vec![5, 6, 7, 8]; k],
    }
}

fn matrix_bytes(seed: u8) -> Vec<u8> {
    (0..MODEL_MATRIX_BYTES).map(|i| seed.wrapping_add(i as u8)).collect()
}

#[test]
fn two_entities_yield_exactly_two_indexed_draws() {
    // Two entities in the scene snapshot: exactly two draw calls in the
    // secondary buffer, each preceded by that entity's matrix bytes.
    let res = test_pipeline(3);
    let scene = SceneSnapshot {
        entities: vec![
            EntityDraw { model_matrix: matrix_bytes(1) },
            EntityDraw { model_matrix: matrix_bytes(101) },
        ],
    };
    let cmds = record_secondary(&res, 2, &scene, 36);
    assert_eq!(cmds.len(), 8);
    assert!(matches!(cmds[0], SecondaryCmd::BindPipeline { pipeline: 402 }));
    assert!(matches!(cmds[1], SecondaryCmd::BindVertexBuffer { buffer: 405 }));
    assert!(matches!(cmds[2], SecondaryCmd::BindIndexBuffer { buffer: 406 }));
    assert!(matches!(cmds[3], SecondaryCmd::BindDescriptorSet { layout: 401, set: 802 }));

    let draw_count = cmds
        .iter()
        .filter(|c| matches!(c, SecondaryCmd::DrawIndexed { .. }))
        .count();
    assert_eq!(draw_count, 2);

    match &cmds[4] {
        SecondaryCmd::PushModelMatrix { layout, bytes } => {
            assert_eq!(*layout, 401);
            assert_eq!(*bytes, matrix_bytes(1));
        }
        other => panic!("expected a push constant, got {:?}", other),
    }
    assert!(matches!(cmds[5], SecondaryCmd::DrawIndexed { index_count: 36 }));
    match &cmds[6] {
        SecondaryCmd::PushModelMatrix { layout, bytes } => {
            assert_eq!(*layout, 401);
            assert_eq!(*bytes, matrix_bytes(101));
        }
        other => panic!("expected a push constant, got {:?}", other),
    }
    assert!(matches!(cmds[7], SecondaryCmd::DrawIndexed { index_count: 36 }));
}

#[test]
fn empty_scene_records_only_the_binds() {
    let res = test_pipeline(2);
    let scene = SceneSnapshot { entities: Vec::new() };
    let cmds = record_secondary(&res, 0, &scene, 36);
    assert_eq!(cmds.len(), 4);
    let draw_count = cmds
        .iter()
        .filter(|c| matches!(c, SecondaryCmd::DrawIndexed { .. }))
        .count();
    assert_eq!(draw_count, 0);
}

#[test]
fn uniform_upload_targets_each_block_slot_in_order() {
    let writes = plan_uniform_upload(
        1,
        vec![vec![10, 11], vec![20], vec![30, 31, 32], vec![40]],
    );
    assert_eq!(writes.len(), 4);
    for (j, w) in writes.iter().enumerate() {
        assert_eq!(w.image_index, 1);
        assert_eq!(w.block_index, j);
    }
    assert_eq!(writes[0].bytes, vec![10, 11]);
    assert_eq!(writes[1].bytes, vec![20]);
    assert_eq!(writes[2].bytes, vec![30, 31, 32]);
    assert_eq!(writes[3].bytes, vec![40]);
}
