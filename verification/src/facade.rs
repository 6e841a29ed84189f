//! The backend's top-level state: the swapchain, the pipeline resources
//! built against it, and the frame synchronizer — with the strict teardown
//! ordering, idempotent destruction, and the swapchain-recreate protocol.

use vstd::prelude::*;

use crate::error::RhiError;
use crate::pipeline::PipelineResources;
use crate::recorder::spec_record_primary;
use crate::recorder::PrimaryCmd;
use crate::swapchain::SwapchainState;
use crate::sync::FramePhase;
use crate::sync::FrameSync;

verus! {

/// One stage of dependency-ordered teardown, from most to least dependent.
/// Command resources are owned by the pipeline stage and fall with it.
#[derive(Debug, Clone, Copy, PartialEq, Eq, Structural)]
pub enum TeardownStep {
    SyncObjects,
    PipelineResources,
    Swapchain,
    DeviceContext,
}

/// The order a full shutdown destroys everything in: sync objects, then
/// command and pipeline resources, then the swapchain, then the device.
pub open spec fn full_teardown() -> Seq<TeardownStep> {
    seq![
        TeardownStep::SyncObjects,
        TeardownStep::PipelineResources,
        TeardownStep::Swapchain,
        TeardownStep::DeviceContext,
    ]
}

/// The order a swapchain rebuild destroys the extent-dependent objects in:
/// like a full shutdown, but the device context survives.
pub open spec fn rebuild_teardown() -> Seq<TeardownStep> {
    seq![TeardownStep::SyncObjects, TeardownStep::PipelineResources, TeardownStep::Swapchain]
}

/// The rendering backend's composed state.
#[derive(Debug)]
pub struct Rhi {
    /// Set by the first `destroy`; guards against double teardown,
    /// including the implicit teardown on drop.
    pub destroyed: bool,
    /// `F`: how many frames may be in flight; fixed for the backend's
    /// lifetime, across swapchain rebuilds.
    pub frame_count: usize,
    pub swapchain: SwapchainState,
    pub pipeline: PipelineResources,
    pub sync: FrameSync,
}

/// What destroying a backend does: marks it destroyed, and performs the
/// full teardown sequence only if it was still live.
pub open spec fn spec_destroy(r: Rhi) -> (Rhi, Seq<TeardownStep>) {
    (
        Rhi { destroyed: true, ..r },
        if r.destroyed {
            Seq::<TeardownStep>::empty()
        } else {
            full_teardown()
        },
    )
}

impl Rhi {
    /// The swapchain, pipeline and synchronizer agree on the image count,
    /// the pipeline was built for the swapchain's extent, and the
    /// synchronizer runs this backend's frame ring.
    pub open spec fn consistent(self) -> bool {
        &&& self.swapchain.wf()
        &&& self.pipeline.wf()
        &&& self.sync.wf()
        &&& 1 <= self.frame_count
        &&& self.sync.frame_count == self.frame_count
        &&& self.sync.image_count == self.swapchain.image_count()
        &&& self.pipeline.image_count() == self.swapchain.image_count()
        &&& self.pipeline.extent == self.swapchain.extent
    }

    /// A backend is either already torn down or fully consistent.
    pub open spec fn wf(self) -> bool {
        self.destroyed || self.consistent()
    }

    /// Composes a backend from a freshly built swapchain and pipeline,
    /// failing exactly when their shapes disagree or the frame ring would
    /// be larger than the image chain.
    pub fn assemble(frame_count: usize, swapchain: SwapchainState, pipeline: PipelineResources) -> (r:
        Result<Rhi, RhiError>)
        ensures
            r is Ok <==> {
                &&& swapchain.wf()
                &&& pipeline.wf()
                &&& pipeline.image_count() == swapchain.image_count()
                &&& pipeline.extent == swapchain.extent
                &&& 1 <= frame_count <= swapchain.image_count()
            },
            r is Err ==> r == Result::<Rhi, RhiError>::Err(RhiError::ResourceCreation),
            r matches Ok(rhi) ==> {
                &&& rhi.wf()
                &&& !rhi.destroyed
                &&& rhi.frame_count == frame_count
                &&& rhi.swapchain == swapchain
                &&& rhi.pipeline == pipeline
                &&& rhi.sync.current_frame == 0
                &&& rhi.sync.phase == FramePhase::Ready
                &&& rhi.sync.outstanding() == 0
            },
    {
        if swapchain.images.len() == 0 || swapchain.image_views.len() != swapchain.images.len() {
            return Err(RhiError::ResourceCreation);
        }
        if !pipeline.counts_consistent() {
            return Err(RhiError::ResourceCreation);
        }
        if pipeline.framebuffers.len() != swapchain.images.len() {
            return Err(RhiError::ResourceCreation);
        }
        if !(pipeline.extent == swapchain.extent) {
            return Err(RhiError::ResourceCreation);
        }
        if frame_count < 1 || frame_count > swapchain.images.len() {
            return Err(RhiError::ResourceCreation);
        }
        let sync = FrameSync::new(frame_count, swapchain.images.len());
        Ok(Rhi { destroyed: false, frame_count, swapchain, pipeline, sync })
    }

    /// Tears the backend down in strict reverse-dependency order. A second
    /// call finds the destroyed flag set and performs no step at all.
    pub fn destroy(&mut self) -> (steps: Vec<TeardownStep>)
        ensures
            (*final(self), steps@) == spec_destroy(*old(self)),
            final(self).destroyed,
            old(self).destroyed ==> steps@.len() == 0,
            !old(self).destroyed ==> steps@ == full_teardown(),
    {
        if self.destroyed {
            let steps: Vec<TeardownStep> = Vec::new();
            proof {
                assert(steps@ =~= spec_destroy(*old(self)).1);
            }
            return steps;
        }
        self.destroyed = true;
        let mut steps: Vec<TeardownStep> = Vec::new();
        steps.push(TeardownStep::SyncObjects);
        steps.push(TeardownStep::PipelineResources);
        steps.push(TeardownStep::Swapchain);
        steps.push(TeardownStep::DeviceContext);
        proof {
            assert(steps@ =~= full_teardown());
        }
        steps
    }

    /// The teardown a swapchain rebuild performs after the device has been
    /// waited idle: everything that references the old swapchain, in
    /// order, leaving the device context alone.
    pub fn recreate_teardown(&self) -> (steps: Vec<TeardownStep>)
        requires
            !self.destroyed,
        ensures
            steps@ == rebuild_teardown(),
    {
        let mut steps: Vec<TeardownStep> = Vec::new();
        steps.push(TeardownStep::SyncObjects);
        steps.push(TeardownStep::PipelineResources);
        steps.push(TeardownStep::Swapchain);
        proof {
            assert(steps@ =~= rebuild_teardown());
        }
        steps
    }

    /// Installs the rebuilt swapchain and pipeline after a recreate,
    /// resetting the frame ring to slot zero with nothing outstanding.
    /// Vertex and index buffers and descriptor-set layouts do not depend
    /// on the extent and are carried over inside `new_pipeline` by the
    /// caller. Fails exactly when the new shapes disagree, leaving the
    /// backend untouched.
    pub fn recreate_install(
        &mut self,
        new_swapchain: SwapchainState,
        new_pipeline: PipelineResources,
    ) -> (r: Result<(), RhiError>)
        requires
            !old(self).destroyed,
            old(self).wf(),
        ensures
            r is Ok <==> {
                &&& new_swapchain.wf()
                &&& new_pipeline.wf()
                &&& new_pipeline.image_count() == new_swapchain.image_count()
                &&& new_pipeline.extent == new_swapchain.extent
                &&& old(self).frame_count <= new_swapchain.image_count()
            },
            r is Err ==> *final(self) == *old(self) && r == Result::<(), RhiError>::Err(
                RhiError::ResourceCreation,
            ),
            r is Ok ==> {
                &&& final(self).wf()
                &&& !final(self).destroyed
                &&& final(self).frame_count == old(self).frame_count
                &&& final(self).swapchain == new_swapchain
                &&& final(self).pipeline == new_pipeline
                &&& final(self).sync.current_frame == 0
                &&& final(self).sync.phase == FramePhase::Ready
                &&& final(self).sync.image_count == new_swapchain.image_count()
                &&& final(self).sync.outstanding() == 0
            },
    {
        if new_swapchain.images.len() == 0 || new_swapchain.image_views.len()
            != new_swapchain.images.len() {
            return Err(RhiError::ResourceCreation);
        }
        if !new_pipeline.counts_consistent() {
            return Err(RhiError::ResourceCreation);
        }
        if new_pipeline.framebuffers.len() != new_swapchain.images.len() {
            return Err(RhiError::ResourceCreation);
        }
        if !(new_pipeline.extent == new_swapchain.extent) {
            return Err(RhiError::ResourceCreation);
        }
        if self.frame_count > new_swapchain.images.len() {
            return Err(RhiError::ResourceCreation);
        }
        let image_count = new_swapchain.images.len();
        self.swapchain = new_swapchain;
        self.pipeline = new_pipeline;
        self.sync = FrameSync::new(self.frame_count, image_count);
        Ok(())
    }

    /// The current swapchain width in pixels.
    pub fn get_width(&self) -> (r: u32)
        ensures
            r == self.swapchain.extent.width,
    {
        self.swapchain.extent.width
    }

    /// The current swapchain height in pixels.
    pub fn get_height(&self) -> (r: u32)
        ensures
            r == self.swapchain.extent.height,
    {
        self.swapchain.extent.height
    }
}

/// Destroying a backend twice is safe: the second destruction performs no
/// teardown step (no double free) and leaves the state exactly as the
/// first left it.
pub proof fn lemma_destroy_idempotent(r: Rhi)
    ensures
        spec_destroy(spec_destroy(r).0).1 == Seq::<TeardownStep>::empty(),
        spec_destroy(spec_destroy(r).0).0 == spec_destroy(r).0,
{
}

/// After a recreate installs a rebuilt swapchain, a normal render cycle
/// reflects the new state: the recorded render pass covers exactly the new
/// swapchain extent, against one of exactly image-count framebuffers.
pub proof fn lemma_recreate_round_trip(r: Rhi, image_index: int, secondary: u64)
    requires
        r.wf(),
        !r.destroyed,
        0 <= image_index < r.swapchain.image_count(),
    ensures
        r.pipeline.image_count() == r.swapchain.image_count(),
        spec_record_primary(r.pipeline, image_index, secondary)[0] == (PrimaryCmd::BeginRenderPass {
            render_pass: r.pipeline.render_pass,
            framebuffer: r.pipeline.framebuffers@[image_index],
            render_area: r.swapchain.extent,
        }),
{
}

} // verus!
