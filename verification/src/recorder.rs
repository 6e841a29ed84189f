//! The command recorder: turns the per-frame scene snapshot into the exact
//! command sequences the device executes, split into a frame-level primary
//! buffer and a per-object secondary buffer.
//!
//! Recording is expressed as plans — sequences of commands over opaque
//! handles — so that what is recorded for which image is fully specified;
//! replaying a plan into the driver's command buffer is a mechanical walk.

use vstd::prelude::*;

use crate::pipeline::PipelineResources;
use crate::pipeline::UNIFORM_BLOCK_COUNT;
use crate::surface::Extent2d;

verus! {

/// Size of one column-major 4x4 single-precision matrix, as pushed to the
/// vertex stage.
pub const MODEL_MATRIX_BYTES: usize = 64;

/// One drawable object of the scene snapshot: its model matrix, already
/// serialized to the bytes the push-constant range expects.
#[derive(Debug, Clone)]
pub struct EntityDraw {
    pub model_matrix: Vec<u8>,
}

impl EntityDraw {
    /// The matrix is exactly one 4x4 float matrix wide.
    pub open spec fn wf(self) -> bool {
        self.model_matrix@.len() == MODEL_MATRIX_BYTES
    }
}

/// The read-only scene snapshot consumed once per render call: an ordered
/// list of drawable entities.
#[derive(Debug, Clone)]
pub struct SceneSnapshot {
    pub entities: Vec<EntityDraw>,
}

impl SceneSnapshot {
    pub open spec fn wf(self) -> bool {
        forall|e: int| 0 <= e < self.entities@.len() ==> (#[trigger] self.entities@[e]).wf()
    }
}

/// One command of the per-object secondary buffer.
#[derive(Debug, Clone)]
pub enum SecondaryCmd {
    BindPipeline { pipeline: u64 },
    BindVertexBuffer { buffer: u64 },
    BindIndexBuffer { buffer: u64 },
    BindDescriptorSet { layout: u64, set: u64 },
    PushModelMatrix { layout: u64, bytes: Vec<u8> },
    DrawIndexed { index_count: u32 },
}

/// One command of the frame-level primary buffer.
#[derive(Debug, Clone, PartialEq, Eq, Structural)]
pub enum PrimaryCmd {
    /// Begins the render pass against this image's framebuffer, clearing
    /// color and depth over the full render area.
    BeginRenderPass { render_pass: u64, framebuffer: u64, render_area: Extent2d },
    /// Executes one recorded secondary buffer.
    ExecuteSecondary { buffer: u64 },
    EndRenderPass,
}

/// What a correctly recorded secondary buffer holds for `image_index`:
/// bind pipeline, vertex buffer, index buffer and this image's descriptor
/// set, then, per entity in snapshot order, exactly one push of that
/// entity's model-matrix bytes followed by exactly one indexed draw.
pub open spec fn secondary_plan_matches(
    cmds: Seq<SecondaryCmd>,
    res: PipelineResources,
    image_index: int,
    scene: SceneSnapshot,
    index_count: u32,
) -> bool {
    &&& cmds.len() == 4 + 2 * scene.entities@.len()
    &&& cmds[0] == (SecondaryCmd::BindPipeline { pipeline: res.pipeline })
    &&& cmds[1] == (SecondaryCmd::BindVertexBuffer { buffer: res.vertex_buffer })
    &&& cmds[2] == (SecondaryCmd::BindIndexBuffer { buffer: res.index_buffer })
    &&& cmds[3] == (SecondaryCmd::BindDescriptorSet {
        layout: res.pipeline_layout,
        set: res.descriptor_sets@[image_index],
    })
    &&& forall|e: int|
        0 <= e < scene.entities@.len() ==> (#[trigger] cmds[4 + 2 * e] matches SecondaryCmd::PushModelMatrix { layout, bytes }
            && layout == res.pipeline_layout && bytes@ == scene.entities@[e].model_matrix@)
    &&& forall|e: int|
        0 <= e < scene.entities@.len() ==> #[trigger] cmds[5 + 2 * e]
            == (SecondaryCmd::DrawIndexed { index_count })
}

/// The full primary plan: begin the pass on this image's framebuffer over
/// the pipeline's extent, execute exactly one secondary buffer, end.
pub open spec fn spec_record_primary(
    res: PipelineResources,
    image_index: int,
    secondary: u64,
) -> Seq<PrimaryCmd> {
    seq![
        PrimaryCmd::BeginRenderPass {
            render_pass: res.render_pass,
            framebuffer: res.framebuffers@[image_index],
            render_area: res.extent,
        },
        PrimaryCmd::ExecuteSecondary { buffer: secondary },
        PrimaryCmd::EndRenderPass,
    ]
}

/// An exact copy of a byte vector.
fn copy_bytes(src: &Vec<u8>) -> (r: Vec<u8>)
    ensures
        r@ == src@,
{
    let mut r: Vec<u8> = Vec::new();
    let mut i: usize = 0;
    while i < src.len()
        invariant
            i <= src@.len(),
            r@ == src@.subrange(0, i as int),
        decreases src@.len() - i,
    {
        r.push(src[i]);
        proof {
            assert(r@ =~= src@.subrange(0, i + 1));
        }
        i = i + 1;
    }
    proof {
        assert(r@ =~= src@);
    }
    r
}

/// Records the secondary buffer plan for `image_index` from the scene
/// snapshot: exactly one indexed draw per drawable entity, each preceded
/// by that entity's model matrix as a push constant.
pub fn record_secondary(
    res: &PipelineResources,
    image_index: usize,
    scene: &SceneSnapshot,
    index_count: u32,
) -> (r: Vec<SecondaryCmd>)
    requires
        res.wf(),
        image_index < res.image_count(),
    ensures
        secondary_plan_matches(r@, *res, image_index as int, *scene, index_count),
        r@.len() == 4 + 2 * scene.entities@.len(),
{
    let mut r: Vec<SecondaryCmd> = Vec::new();
    r.push(SecondaryCmd::BindPipeline { pipeline: res.pipeline });
    r.push(SecondaryCmd::BindVertexBuffer { buffer: res.vertex_buffer });
    r.push(SecondaryCmd::BindIndexBuffer { buffer: res.index_buffer });
    r.push(
        SecondaryCmd::BindDescriptorSet {
            layout: res.pipeline_layout,
            set: res.descriptor_sets[image_index],
        },
    );
    let mut e: usize = 0;
    while e < scene.entities.len()
        invariant
            e <= scene.entities@.len(),
            r@.len() == 4 + 2 * e,
            r@[0] == (SecondaryCmd::BindPipeline { pipeline: res.pipeline }),
            r@[1] == (SecondaryCmd::BindVertexBuffer { buffer: res.vertex_buffer }),
            r@[2] == (SecondaryCmd::BindIndexBuffer { buffer: res.index_buffer }),
            r@[3] == (SecondaryCmd::BindDescriptorSet {
                layout: res.pipeline_layout,
                set: res.descriptor_sets@[image_index as int],
            }),
            forall|j: int|
                0 <= j < e ==> (#[trigger] r@[4 + 2 * j] matches SecondaryCmd::PushModelMatrix {
                    layout,
                    bytes,
                } && layout == res.pipeline_layout && bytes@ == scene.entities@[j].model_matrix@),
            forall|j: int|
                0 <= j < e ==> #[trigger] r@[5 + 2 * j] == (SecondaryCmd::DrawIndexed {
                    index_count,
                }),
        decreases scene.entities@.len() - e,
    {
        let bytes = copy_bytes(&scene.entities[e].model_matrix);
        r.push(SecondaryCmd::PushModelMatrix { layout: res.pipeline_layout, bytes });
        r.push(SecondaryCmd::DrawIndexed { index_count });
        e = e + 1;
    }
    r
}

/// Records the primary buffer plan for `image_index`: one render pass over
/// the pipeline's full extent, executing exactly one secondary buffer.
pub fn record_primary(res: &PipelineResources, image_index: usize, secondary: u64) -> (r: Vec<
    PrimaryCmd,
>)
    requires
        res.wf(),
        image_index < res.image_count(),
    ensures
        r@ == spec_record_primary(*res, image_index as int, secondary),
{
    let mut r: Vec<PrimaryCmd> = Vec::new();
    r.push(
        PrimaryCmd::BeginRenderPass {
            render_pass: res.render_pass,
            framebuffer: res.framebuffers[image_index],
            render_area: res.extent,
        },
    );
    r.push(PrimaryCmd::ExecuteSecondary { buffer: secondary });
    r.push(PrimaryCmd::EndRenderPass);
    proof {
        assert(r@ =~= spec_record_primary(*res, image_index as int, secondary));
    }
    r
}

/// One write of a serialized uniform block into an image's uniform buffer.
#[derive(Debug, Clone)]
pub struct UniformWrite {
    pub image_index: usize,
    pub block_index: usize,
    pub bytes: Vec<u8>,
}

/// Plans the per-frame uniform upload for `image_index`: each logical
/// block, in its fixed slot order (transform and view, view state, and the
/// scene-wide constant blocks), copied into that image's matching buffer.
pub fn plan_uniform_upload(image_index: usize, blocks: Vec<Vec<u8>>) -> (r: Vec<UniformWrite>)
    requires
        blocks@.len() == UNIFORM_BLOCK_COUNT,
    ensures
        r@.len() == UNIFORM_BLOCK_COUNT,
        forall|j: int|
            0 <= j < r@.len() ==> {
                &&& (#[trigger] r@[j]).image_index == image_index
                &&& r@[j].block_index == j
                &&& r@[j].bytes == blocks@[j]
            },
{
    let mut r: Vec<UniformWrite> = Vec::new();
    let mut j: usize = 0;
    let mut remaining = blocks;
    while j < UNIFORM_BLOCK_COUNT
        invariant
            j <= UNIFORM_BLOCK_COUNT,
            remaining@.len() == UNIFORM_BLOCK_COUNT - j,
            forall|i: int| 0 <= i < remaining@.len() ==> remaining@[i] == blocks@[i + j],
            r@.len() == j,
            forall|i: int|
                0 <= i < j ==> {
                    &&& (#[trigger] r@[i]).image_index == image_index
                    &&& r@[i].block_index == i
                    &&& r@[i].bytes == blocks@[i]
                },
        decreases UNIFORM_BLOCK_COUNT - j,
    {
        let bytes = remaining.remove(0);
        r.push(UniformWrite { image_index, block_index: j, bytes });
        j = j + 1;
    }
    r
}

} // verus!
