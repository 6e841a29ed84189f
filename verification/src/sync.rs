//! The frame synchronizer: a fixed ring of in-flight frame slots driving the
//! acquire → wait → record → submit → present cycle.
//!
//! Each logical frame slot owns one image-available semaphore, one
//! render-finished semaphore and one fence on the device side; this type
//! tracks what is known about them. `slot_busy[f]` is true exactly while a
//! submission signalling slot `f`'s fence is outstanding, i.e. from the
//! submit call until a fence wait on `f` returns. `images_in_flight[i]`
//! names the slot whose submission is (or may still be) rendering into
//! swapchain image `i`, and is cleared the moment that slot's fence wait
//! completes.
//!
//! The protocol is enforced by `phase`: the driver of the render loop calls
//! the step methods in order, handing in the outcome of each device call,
//! and every step preserves `wf`.

use vstd::prelude::*;

verus! {

/// Where in the per-frame protocol the synchronizer stands.
#[derive(Debug, Clone, Copy, PartialEq, Eq, Structural)]
pub enum FramePhase {
    /// Between render calls.
    Ready,
    /// The current slot's fence wait has returned; at most `F - 1`
    /// submissions are now outstanding.
    Throttled,
    /// An image was acquired; its resources may still be in use by an
    /// older slot.
    Acquired { image: usize },
    /// The image is provably idle and claimed by the current slot; its
    /// command buffers and uniform buffers may be rewritten.
    Claimed { image: usize },
    /// The current slot's submission is on the queue, its fence pending.
    Submitted { image: usize },
}

/// How many of the slots currently have an outstanding submission.
pub open spec fn count_busy(s: Seq<bool>) -> int
    decreases s.len(),
{
    if s.len() == 0 {
        0
    } else {
        count_busy(s.drop_last()) + if s.last() {
            1int
        } else {
            0int
        }
    }
}

/// A busy count never exceeds the number of slots.
pub proof fn lemma_count_busy_le_len(s: Seq<bool>)
    ensures
        0 <= count_busy(s) <= s.len(),
    decreases s.len(),
{
    if s.len() > 0 {
        lemma_count_busy_le_len(s.drop_last());
    }
}

/// The ring of `frame_count` in-flight frame slots plus the per-image
/// claim table, with the protocol position.
#[derive(Debug, Clone)]
pub struct FrameSync {
    /// `F`: how many frames the CPU may run ahead of the GPU.
    pub frame_count: usize,
    /// `K`: how many presentable images the swapchain holds.
    pub image_count: usize,
    /// The slot the next (or current) render call uses; advances
    /// round-robin after each presented frame.
    pub current_frame: usize,
    /// Per slot: is a submission signalling this slot's fence outstanding?
    pub slot_busy: Vec<bool>,
    /// Per image: the slot whose submission last claimed it, if that
    /// slot's fence wait has not yet completed.
    pub images_in_flight: Vec<Option<usize>>,
    /// Protocol position.
    pub phase: FramePhase,
}

impl FrameSync {
    /// The image the current render call works on, once one is acquired.
    pub open spec fn phase_image(self) -> Option<usize> {
        match self.phase {
            FramePhase::Ready => None,
            FramePhase::Throttled => None,
            FramePhase::Acquired { image } => Some(image),
            FramePhase::Claimed { image } => Some(image),
            FramePhase::Submitted { image } => Some(image),
        }
    }

    /// Phase-dependent facts: an acquired image index is in range, the
    /// current slot is idle from the throttle wait until its submit, and a
    /// claimed image's table entry names the current slot.
    pub open spec fn phase_wf(self) -> bool {
        match self.phase {
            FramePhase::Ready => true,
            FramePhase::Throttled => !self.slot_busy@[self.current_frame as int],
            FramePhase::Acquired { image } => image < self.image_count && !self.slot_busy@[
                self.current_frame as int
            ],
            FramePhase::Claimed { image } => image < self.image_count && !self.slot_busy@[
                self.current_frame as int
            ] && self.images_in_flight@[image as int] == Some(self.current_frame),
            FramePhase::Submitted { image } => image < self.image_count,
        }
    }

    /// The claim-table invariant: a non-empty entry names a slot whose
    /// fence wait has not completed — either a submission on that slot is
    /// still outstanding, or the entry is the current slot's claim made
    /// just before its submit. An image is therefore never touched by two
    /// slots without an intervening fence wait.
    pub open spec fn claims_backed(self) -> bool {
        forall|i: int|
            0 <= i < self.images_in_flight@.len() ==> match #[trigger] self.images_in_flight@[i] {
                Some(s) => s < self.frame_count && (self.slot_busy@[s as int] || (s
                    == self.current_frame && self.phase == (FramePhase::Claimed {
                    image: i as usize,
                }))),
                None => true,
            }
    }

    /// Well-formedness: structural bounds plus the protocol invariants.
    pub open spec fn wf(self) -> bool {
        &&& 1 <= self.frame_count
        &&& self.frame_count <= self.image_count
        &&& self.current_frame < self.frame_count
        &&& self.slot_busy@.len() == self.frame_count
        &&& self.images_in_flight@.len() == self.image_count
        &&& self.phase_wf()
        &&& self.claims_backed()
    }

    /// How many submissions are outstanding right now.
    pub open spec fn outstanding(self) -> int {
        count_busy(self.slot_busy@)
    }

    /// Fence-throttling bound: at most `F` submissions are outstanding at
    /// any time a well-formed synchronizer exists.
    pub proof fn lemma_outstanding_bounded(self)
        requires
            self.wf(),
        ensures
            0 <= self.outstanding() <= self.frame_count,
    {
        lemma_count_busy_le_len(self.slot_busy@);
    }

    /// A non-empty claim-table entry always refers to a live claim: the
    /// claiming slot's fence has not been waited since that claim was made.
    pub proof fn lemma_claim_entry_live(self, i: int)
        requires
            self.wf(),
            0 <= i < self.images_in_flight@.len(),
            self.images_in_flight@[i] is Some,
        ensures
            self.images_in_flight@[i] matches Some(s) && s < self.frame_count && (self.slot_busy@[
                s as int
            ] || (s == self.current_frame && self.phase == (FramePhase::Claimed {
                image: i as usize,
            }))),
    {
    }

    /// While a claim is being made, the current slot holds no other claim:
    /// between its fence wait and its submit, a slot touches exactly the
    /// one image it acquired.
    pub proof fn lemma_one_claim_per_slot(self, j: int)
        requires
            self.wf(),
            self.phase matches FramePhase::Claimed { image },
            0 <= j < self.images_in_flight@.len(),
            j != self.phase_image().unwrap(),
        ensures
            self.images_in_flight@[j] != Some(self.current_frame),
    {
    }

    /// A slot's fence is only ever reset — which happens at submit, on the
    /// current slot — when no submission signalling that fence is
    /// outstanding.
    pub proof fn lemma_fence_reset_only_when_idle(self)
        requires
            self.wf(),
            self.phase matches FramePhase::Claimed { .. },
        ensures
            !self.slot_busy@[self.current_frame as int],
    {
    }

    /// A fresh synchronizer: all fences start signaled (no submission
    /// outstanding), no image claimed, slot zero next.
    pub fn new(frame_count: usize, image_count: usize) -> (r: FrameSync)
        requires
            1 <= frame_count <= image_count,
        ensures
            r.wf(),
            r.frame_count == frame_count,
            r.image_count == image_count,
            r.current_frame == 0,
            r.phase == FramePhase::Ready,
            forall|f: int| 0 <= f < frame_count ==> !(#[trigger] r.slot_busy@[f]),
            forall|i: int| 0 <= i < image_count ==> #[trigger] r.images_in_flight@[i] is None,
            r.outstanding() == 0,
    {
        let mut slot_busy: Vec<bool> = Vec::new();
        let mut f: usize = 0;
        while f < frame_count
            invariant
                f <= frame_count,
                slot_busy@.len() == f,
                forall|j: int| 0 <= j < f ==> !(#[trigger] slot_busy@[j]),
            decreases frame_count - f,
        {
            slot_busy.push(false);
            f = f + 1;
        }
        let mut images_in_flight: Vec<Option<usize>> = Vec::new();
        let mut i: usize = 0;
        while i < image_count
            invariant
                i <= image_count,
                images_in_flight@.len() == i,
                forall|j: int| 0 <= j < i ==> #[trigger] images_in_flight@[j] is None,
            decreases image_count - i,
        {
            images_in_flight.push(None);
            i = i + 1;
        }
        let r = FrameSync {
            frame_count,
            image_count,
            current_frame: 0,
            slot_busy,
            images_in_flight,
            phase: FramePhase::Ready,
        };
        proof {
            lemma_count_all_idle(r.slot_busy@);
        }
        r
    }

    /// The slot whose fence the render call must wait on before anything
    /// else (throttle), and whose semaphores order this frame's GPU work.
    pub fn frame_slot(&self) -> (r: usize)
        ensures
            r == self.current_frame,
    {
        self.current_frame
    }

    /// Step one of the render protocol, after the wait on the current
    /// slot's fence has returned: that slot's submission (if any) is
    /// complete, so the slot is idle and every claim it held expires.
    pub fn complete_throttle(&mut self)
        requires
            old(self).wf(),
            old(self).phase == FramePhase::Ready,
        ensures
            final(self).wf(),
            final(self).frame_count == old(self).frame_count,
            final(self).image_count == old(self).image_count,
            final(self).current_frame == old(self).current_frame,
            final(self).phase == FramePhase::Throttled,
            final(self).slot_busy@ == old(self).slot_busy@.update(
                old(self).current_frame as int,
                false,
            ),
            forall|i: int|
                0 <= i < old(self).images_in_flight@.len() ==> #[trigger] final(self).images_in_flight@[i] == if old(self).images_in_flight@[i] == Some(
                    old(self).current_frame,
                ) {
                    Option::<usize>::None
                } else {
                    old(self).images_in_flight@[i]
                },
    {
        let slot = self.current_frame;
        self.slot_busy[slot] = false;
        let mut i: usize = 0;
        let ghost orig = self.images_in_flight@;
        while i < self.images_in_flight.len()
            invariant
                orig == old(self).images_in_flight@,
                slot == old(self).current_frame,
                self.frame_count == old(self).frame_count,
                self.image_count == old(self).image_count,
                self.current_frame == old(self).current_frame,
                self.phase == old(self).phase,
                self.slot_busy@ == old(self).slot_busy@.update(slot as int, false),
                self.images_in_flight@.len() == orig.len(),
                i <= orig.len(),
                forall|j: int|
                    0 <= j < i ==> #[trigger] self.images_in_flight@[j] == if orig[j] == Some(slot) {
                        Option::<usize>::None
                    } else {
                        orig[j]
                    },
                forall|j: int| i <= j < orig.len() ==> #[trigger] self.images_in_flight@[j] == orig[j],
            decreases orig.len() - i,
        {
            let entry = self.images_in_flight[i];
            match entry {
                Some(s) => {
                    if s == slot {
                        self.images_in_flight[i] = None;
                    }
                },
                None => {},
            }
            i = i + 1;
        }
        self.phase = FramePhase::Throttled;
    }

    /// Acquisition succeeded: the driver handed out `image`. The image may
    /// still be in use by an older slot; nothing else changes.
    pub fn on_acquire_ok(&mut self, image: usize)
        requires
            old(self).wf(),
            old(self).phase == FramePhase::Throttled,
            image < old(self).image_count,
        ensures
            final(self).wf(),
            *final(self) == (FrameSync { phase: FramePhase::Acquired { image }, ..*old(self) }),
    {
        self.phase = FramePhase::Acquired { image };
    }

    /// Acquisition reported the surface outdated: this render call is
    /// abandoned with no fence or semaphore state touched, so the rebuilt
    /// swapchain starts from a clean slate next call.
    pub fn on_acquire_out_of_date(&mut self)
        requires
            old(self).wf(),
            old(self).phase == FramePhase::Throttled,
        ensures
            final(self).wf(),
            *final(self) == (FrameSync { phase: FramePhase::Ready, ..*old(self) }),
    {
        self.phase = FramePhase::Ready;
    }

    /// The image the current render call acquired.
    pub fn acquired_image(&self) -> (r: usize)
        requires
            self.wf(),
            self.phase_image() is Some,
        ensures
            Some(r) == self.phase_image(),
            r < self.image_count,
    {
        match self.phase {
            FramePhase::Ready => 0,
            FramePhase::Throttled => 0,
            FramePhase::Acquired { image } => image,
            FramePhase::Claimed { image } => image,
            FramePhase::Submitted { image } => image,
        }
    }

    /// The slot whose fence must be waited before the acquired image's
    /// resources may be touched, if an older claim on it is still live.
    pub fn image_wait_slot(&self) -> (r: Option<usize>)
        requires
            self.wf(),
            self.phase matches FramePhase::Acquired { .. },
        ensures
            r == self.images_in_flight@[self.phase_image().unwrap() as int],
            r matches Some(s) ==> s < self.frame_count && s != self.current_frame,
    {
        let image = self.acquired_image();
        self.images_in_flight[image]
    }

    /// Step three, after the wait on the older claim's fence has returned:
    /// that slot is idle and all its claims expire — in particular the
    /// acquired image is now provably idle.
    pub fn complete_image_wait(&mut self)
        requires
            old(self).wf(),
            old(self).phase matches FramePhase::Acquired { image },
            old(self).images_in_flight@[old(self).phase_image().unwrap() as int] is Some,
        ensures
            final(self).wf(),
            final(self).frame_count == old(self).frame_count,
            final(self).image_count == old(self).image_count,
            final(self).current_frame == old(self).current_frame,
            final(self).phase == old(self).phase,
            ({
                let s = old(self).images_in_flight@[old(self).phase_image().unwrap() as int].unwrap();
                &&& final(self).slot_busy@ == old(self).slot_busy@.update(s as int, false)
                &&& forall|i: int|
                    0 <= i < old(self).images_in_flight@.len() ==> #[trigger] final(self).images_in_flight@[i] == if old(self).images_in_flight@[i] == Some(s) {
                        Option::<usize>::None
                    } else {
                        old(self).images_in_flight@[i]
                    }
            }),
            final(self).images_in_flight@[old(self).phase_image().unwrap() as int] is None,
    {
        let image = self.acquired_image();
        let slot = match self.images_in_flight[image] {
            Some(s) => s,
            None => 0,
        };
        self.slot_busy[slot] = false;
        let mut i: usize = 0;
        let ghost orig = self.images_in_flight@;
        while i < self.images_in_flight.len()
            invariant
                orig == old(self).images_in_flight@,
                Some(slot) == orig[old(self).phase_image().unwrap() as int],
                self.frame_count == old(self).frame_count,
                self.image_count == old(self).image_count,
                self.current_frame == old(self).current_frame,
                self.phase == old(self).phase,
                slot < self.frame_count,
                self.slot_busy@ == old(self).slot_busy@.update(slot as int, false),
                self.images_in_flight@.len() == orig.len(),
                i <= orig.len(),
                forall|j: int|
                    0 <= j < i ==> #[trigger] self.images_in_flight@[j] == if orig[j] == Some(slot) {
                        Option::<usize>::None
                    } else {
                        orig[j]
                    },
                forall|j: int| i <= j < orig.len() ==> #[trigger] self.images_in_flight@[j] == orig[j],
            decreases orig.len() - i,
        {
            let entry = self.images_in_flight[i];
            match entry {
                Some(s) => {
                    if s == slot {
                        self.images_in_flight[i] = None;
                    }
                },
                None => {},
            }
            i = i + 1;
        }
    }

    /// Step four: the acquired image is idle, so the current slot claims
    /// it. From here until this slot's fence wait completes, nothing else
    /// may rewrite the image's command or uniform buffers.
    pub fn claim(&mut self)
        requires
            old(self).wf(),
            old(self).phase matches FramePhase::Acquired { image },
            old(self).images_in_flight@[old(self).phase_image().unwrap() as int] is None,
        ensures
            final(self).wf(),
            final(self).frame_count == old(self).frame_count,
            final(self).image_count == old(self).image_count,
            final(self).current_frame == old(self).current_frame,
            final(self).slot_busy == old(self).slot_busy,
            final(self).phase == (FramePhase::Claimed {
                image: old(self).phase_image().unwrap(),
            }),
            final(self).images_in_flight@ == old(self).images_in_flight@.update(
                old(self).phase_image().unwrap() as int,
                Some(old(self).current_frame),
            ),
    {
        let image = self.acquired_image();
        let slot = self.current_frame;
        self.images_in_flight[image] = Some(slot);
        self.phase = FramePhase::Claimed { image };
    }

    /// Step six, after recording: the current slot's fence is reset to
    /// unsignaled and the primary command buffer is submitted, so a
    /// submission on this slot is outstanding from now on.
    pub fn submit(&mut self)
        requires
            old(self).wf(),
            old(self).phase matches FramePhase::Claimed { image },
        ensures
            final(self).wf(),
            final(self).frame_count == old(self).frame_count,
            final(self).image_count == old(self).image_count,
            final(self).current_frame == old(self).current_frame,
            final(self).images_in_flight == old(self).images_in_flight,
            final(self).phase == (FramePhase::Submitted {
                image: old(self).phase_image().unwrap(),
            }),
            final(self).slot_busy@ == old(self).slot_busy@.update(
                old(self).current_frame as int,
                true,
            ),
    {
        let image = self.acquired_image();
        let slot = self.current_frame;
        self.slot_busy[slot] = true;
        self.phase = FramePhase::Submitted { image };
    }

    /// Step eight: the present request was queued successfully; the frame
    /// is done and the ring advances to the next slot.
    pub fn on_present_ok(&mut self)
        requires
            old(self).wf(),
            old(self).phase matches FramePhase::Submitted { image },
        ensures
            final(self).wf(),
            final(self).frame_count == old(self).frame_count,
            final(self).image_count == old(self).image_count,
            final(self).slot_busy == old(self).slot_busy,
            final(self).images_in_flight == old(self).images_in_flight,
            final(self).phase == FramePhase::Ready,
            final(self).current_frame == (old(self).current_frame + 1) % (
            old(self).frame_count as int),
    {
        self.phase = FramePhase::Ready;
        self.current_frame = (self.current_frame + 1) % self.frame_count;
    }

    /// Present reported the surface suboptimal or outdated. The frame
    /// itself completed, so this only marks the call finished; the caller
    /// rebuilds the swapchain before the next frame.
    pub fn on_present_invalidated(&mut self)
        requires
            old(self).wf(),
            old(self).phase matches FramePhase::Submitted { image },
        ensures
            final(self).wf(),
            *final(self) == (FrameSync { phase: FramePhase::Ready, ..*old(self) }),
    {
        self.phase = FramePhase::Ready;
    }

    /// A fatal device error abandons the render call before submission:
    /// the error propagates to the caller, nothing of this call reaches
    /// the queue, and a claim the aborted call had already made expires
    /// with it.
    pub fn abort_frame(&mut self)
        requires
            old(self).wf(),
        ensures
            final(self).wf(),
            final(self).frame_count == old(self).frame_count,
            final(self).image_count == old(self).image_count,
            final(self).current_frame == old(self).current_frame,
            final(self).slot_busy == old(self).slot_busy,
            final(self).phase == FramePhase::Ready,
            forall|i: int|
                0 <= i < old(self).images_in_flight@.len()
                    ==> #[trigger] final(self).images_in_flight@[i] == if old(self).phase == (
                FramePhase::Claimed { image: i as usize }) {
                    Option::<usize>::None
                } else {
                    old(self).images_in_flight@[i]
                },
    {
        match self.phase {
            FramePhase::Claimed { image } => {
                self.images_in_flight[image] = None;
            },
            _ => {},
        }
        self.phase = FramePhase::Ready;
    }

    /// Recreate recovery: the device has been waited fully idle and the
    /// sync objects rebuilt, so no submission is outstanding, no image is
    /// claimed, and rendering resumes from slot zero.
    pub fn reset_for_recreate(&mut self, new_image_count: usize)
        requires
            old(self).wf(),
            old(self).frame_count <= new_image_count,
        ensures
            final(self).wf(),
            final(self).frame_count == old(self).frame_count,
            final(self).image_count == new_image_count,
            final(self).current_frame == 0,
            final(self).phase == FramePhase::Ready,
            forall|f: int| 0 <= f < final(self).frame_count ==> !(#[trigger] final(self).slot_busy@[f]),
            forall|i: int|
                0 <= i < new_image_count ==> #[trigger] final(self).images_in_flight@[i] is None,
            final(self).outstanding() == 0,
    {
        let fresh = FrameSync::new(self.frame_count, new_image_count);
        *self = fresh;
    }
}

/// An all-idle slot ring has no outstanding submission.
pub proof fn lemma_count_all_idle(s: Seq<bool>)
    requires
        forall|j: int| 0 <= j < s.len() ==> !(#[trigger] s[j]),
    ensures
        count_busy(s) == 0,
    decreases s.len(),
{
    if s.len() > 0 {
        lemma_count_all_idle(s.drop_last());
    }
}

} // verus!
