//! Extent- and image-count-dependent pipeline resources: the render pass,
//! pipeline, per-image framebuffers, command pools and buffers, descriptor
//! sets, and the per-image ring of uniform buffers — all held as opaque
//! device handles, with the counts the design guarantees.

use vstd::prelude::*;

use crate::surface::Extent2d;

verus! {

/// How many logical uniform blocks each swapchain image owns (transform,
/// view state, and the scene-wide constant blocks).
pub const UNIFORM_BLOCK_COUNT: usize = 4;

/// The fixed-function resources rebuilt in lockstep with the swapchain.
/// Handles are the driver's opaque 64-bit object ids.
#[derive(Debug, Clone)]
pub struct PipelineResources {
    /// The extent the pipeline's viewport and scissor were created with.
    pub extent: Extent2d,
    pub render_pass: u64,
    pub pipeline_layout: u64,
    pub pipeline: u64,
    pub descriptor_set_layout: u64,
    pub descriptor_pool: u64,
    pub vertex_buffer: u64,
    pub index_buffer: u64,
    pub global_command_pool: u64,
    /// One framebuffer per swapchain image.
    pub framebuffers: Vec<u64>,
    /// One command pool per swapchain image; resetting it recycles every
    /// buffer recorded for that image.
    pub command_pools: Vec<u64>,
    /// One primary command buffer per swapchain image.
    pub primary_command_buffers: Vec<u64>,
    /// Secondary command buffers, indexed by `(image, slot)` and grown
    /// lazily along the slot axis only.
    pub secondary_command_buffers: Vec<Vec<u64>>,
    /// One descriptor set per swapchain image.
    pub descriptor_sets: Vec<u64>,
    /// `UNIFORM_BLOCK_COUNT` uniform buffers per swapchain image.
    pub uniform_buffers: Vec<Vec<u64>>,
    /// The device memory behind each uniform buffer, same shape.
    pub uniform_buffers_memory: Vec<Vec<u64>>,
}

impl PipelineResources {
    /// How many swapchain images these resources serve.
    pub open spec fn image_count(self) -> int {
        self.framebuffers@.len() as int
    }

    /// Per-image resource counts all agree, and every image owns a full
    /// set of uniform blocks.
    pub open spec fn wf(self) -> bool {
        &&& self.command_pools@.len() == self.image_count()
        &&& self.primary_command_buffers@.len() == self.image_count()
        &&& self.secondary_command_buffers@.len() == self.image_count()
        &&& self.descriptor_sets@.len() == self.image_count()
        &&& self.uniform_buffers@.len() == self.image_count()
        &&& self.uniform_buffers_memory@.len() == self.image_count()
        &&& forall|i: int|
            0 <= i < self.image_count() ==> (#[trigger] self.uniform_buffers@[i])@.len()
                == UNIFORM_BLOCK_COUNT
        &&& forall|i: int|
            0 <= i < self.image_count() ==> (#[trigger] self.uniform_buffers_memory@[i])@.len()
                == UNIFORM_BLOCK_COUNT
    }

    /// Checks the count invariants at run time, for callers that assembled
    /// the handle vectors from driver calls the verifier cannot see.
    pub fn counts_consistent(&self) -> (r: bool)
        ensures
            r <==> self.wf(),
    {
        let k = self.framebuffers.len();
        if self.command_pools.len() != k || self.primary_command_buffers.len() != k
            || self.secondary_command_buffers.len() != k || self.descriptor_sets.len() != k
            || self.uniform_buffers.len() != k || self.uniform_buffers_memory.len() != k {
            return false;
        }
        let mut i: usize = 0;
        while i < k
            invariant
                k == self.image_count(),
                i <= k,
                self.uniform_buffers@.len() == k,
                self.uniform_buffers_memory@.len() == k,
                forall|j: int|
                    0 <= j < i ==> (#[trigger] self.uniform_buffers@[j])@.len()
                        == UNIFORM_BLOCK_COUNT,
                forall|j: int|
                    0 <= j < i ==> (#[trigger] self.uniform_buffers_memory@[j])@.len()
                        == UNIFORM_BLOCK_COUNT,
            decreases k - i,
        {
            if self.uniform_buffers[i].len() != UNIFORM_BLOCK_COUNT {
                return false;
            }
            if self.uniform_buffers_memory[i].len() != UNIFORM_BLOCK_COUNT {
                return false;
            }
            i = i + 1;
        }
        true
    }

    /// How many secondary buffers must be allocated before slot
    /// `buffer_index` of `image_index` exists.
    pub fn secondary_missing(&self, image_index: usize, buffer_index: usize) -> (n: usize)
        requires
            image_index < self.secondary_command_buffers@.len(),
            buffer_index < usize::MAX,
        ensures
            n == if buffer_index + 1 > (self.secondary_command_buffers@[
                image_index as int
            ])@.len() {
                buffer_index + 1 - (self.secondary_command_buffers@[image_index as int])@.len()
            } else {
                0int
            },
    {
        let have = self.secondary_command_buffers[image_index].len();
        if buffer_index + 1 > have {
            buffer_index + 1 - have
        } else {
            0
        }
    }

    /// Appends freshly allocated secondary buffers to an image's row. The
    /// row only ever grows, so handles already handed out stay valid.
    pub fn install_secondary(&mut self, image_index: usize, new_buffers: Vec<u64>)
        requires
            image_index < old(self).secondary_command_buffers@.len(),
        ensures
            final(self).secondary_command_buffers@.len() == old(
                self,
            ).secondary_command_buffers@.len(),
            (final(self).secondary_command_buffers@[image_index as int])@ == (old(
                self,
            ).secondary_command_buffers@[image_index as int])@ + new_buffers@,
            forall|i: int|
                0 <= i < old(self).secondary_command_buffers@.len() && i != image_index
                    ==> #[trigger] final(self).secondary_command_buffers@[i] == old(
                    self,
                ).secondary_command_buffers@[i],
            *final(self) == (PipelineResources {
                secondary_command_buffers: final(self).secondary_command_buffers,
                ..*old(self)
            }),
    {
        let mut incoming = new_buffers;
        self.secondary_command_buffers[image_index].append(&mut incoming);
    }

    /// The secondary buffer recorded for `(image_index, buffer_index)`.
    pub fn secondary_at(&self, image_index: usize, buffer_index: usize) -> (r: u64)
        requires
            image_index < self.secondary_command_buffers@.len(),
            buffer_index < (self.secondary_command_buffers@[image_index as int])@.len(),
        ensures
            r == (self.secondary_command_buffers@[image_index as int])@[buffer_index as int],
    {
        self.secondary_command_buffers[image_index][buffer_index]
    }
}

} // verus!
