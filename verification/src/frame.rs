//! The frame orchestrator: the per-frame state machine.
//!
//! Once per drawn frame the orchestrator walks the phases
//! `Idle -> Acquiring -> WaitingForImage -> Submitting -> Presenting -> Idle`.
//! The embedding application performs the blocking waits, the native
//! acquire, submit and present calls, and reports their outcomes; every
//! decision — which slot runs, which fence to wait on, when to claim an
//! image, when to advance, when to recreate — is made and verified
//! here.
//!
//! The orchestrator maintains, across every transition:
//! * bounded in-flight work: no more fences are pending than there are
//!   frame slots;
//! * image exclusivity: each image-in-flight entry names exactly the
//!   slot of the most recent claim on that image;
//! * exact-once advance: the slot advances exactly once per submitted
//!   frame and never for a frame aborted at acquire.

use crate::sync::count_pending;
use crate::sync::lemma_count_pending_le_len;
use crate::sync::VkFence;
use crate::sync::VkSwapChainSync;
use vstd::prelude::*;

verus! {

/// The phase of the per-frame state machine.
#[derive(Clone, Copy, PartialEq, Eq, Structural, Debug)]
pub enum FramePhase {
    Idle,
    Acquiring,
    WaitingForImage { image_index: usize },
    Submitting { image_index: usize },
    Presenting { image_index: usize },
}

/// The outcome of the native image acquire the application performed.
#[derive(Clone, Copy, PartialEq, Eq, Structural, Debug)]
pub enum AcquireResult {
    Ready { image_index: usize, suboptimal: bool },
    OutOfDate,
}

/// The outcome of the native present the application performed.
#[derive(Clone, Copy, PartialEq, Eq, Structural, Debug)]
pub enum PresentResult {
    Presented,
    Suboptimal,
    OutOfDate,
}

/// The submission the orchestrator prescribes: which command buffer to
/// submit, which semaphore to wait on and signal, and which fence the
/// completion must signal.
#[derive(Clone, Copy, PartialEq, Eq, Structural, Debug)]
pub struct SubmitRequest {
    pub command_buffer: usize,
    pub wait_semaphore: u64,
    pub signal_semaphore: u64,
    pub fence: u64,
    pub fence_slot: usize,
}

/// The slot of the most recent claim on `image` in the claim log, if
/// any claim on it was made in the current swap-chain generation.
pub open spec fn spec_last_claim(log: Seq<(usize, usize)>, image: int) -> Option<usize>
    decreases log.len(),
{
    if log.len() == 0 {
        None
    } else if log.last().1 == image {
        Some(log.last().0)
    } else {
        spec_last_claim(log.drop_last(), image)
    }
}

/// Appending a claim updates the last claim of exactly its image.
pub proof fn lemma_last_claim_push(log: Seq<(usize, usize)>, slot: usize, image: usize, i: int)
    ensures
        spec_last_claim(log.push((slot, image)), i) == if image == i {
            Some(slot)
        } else {
            spec_last_claim(log, i)
        },
{
    let pushed = log.push((slot, image));
    assert(pushed.last() == (slot, image));
    assert(pushed.drop_last() =~= log);
}

/// The frame orchestrator. `sync` is the frame synchronization ring it
/// drives; `phase` the position within the current frame;
/// `needs_recreation` whether a stale-surface signal or a resize is
/// pending. The ghost fields carry the submission history the stated
/// invariants speak of.
pub struct FrameOrchestrator {
    pub sync: VkSwapChainSync,
    pub phase: FramePhase,
    pub needs_recreation: bool,
    pub submitted_frames: Ghost<nat>,
    pub advanced_frames: Ghost<nat>,
    pub claim_log: Ghost<Seq<(usize, usize)>>,
}

impl FrameOrchestrator {
    /// The image index the current phase refers to, for the phases that
    /// carry one.
    pub open spec fn phase_image(self) -> int {
        match self.phase {
            FramePhase::WaitingForImage { image_index } => image_index as int,
            FramePhase::Submitting { image_index } => image_index as int,
            FramePhase::Presenting { image_index } => image_index as int,
            _ => 0,
        }
    }

    /// The state invariant, preserved by every transition.
    pub open spec fn wf(self) -> bool {
        &&& self.sync.wf()
        &&& (self.phase is WaitingForImage || self.phase is Submitting || self.phase
            is Presenting) ==> self.phase_image() < self.sync.images_in_flight@.len()
        &&& (self.phase is Acquiring || self.phase is WaitingForImage || self.phase
            is Submitting) ==> self.sync.in_flight_fences@[self.sync.current_frame as int].signaled
        &&& self.phase is Submitting ==> self.sync.images_in_flight@[self.phase_image()]
            == Some(self.sync.current_frame)
        &&& self.phase is Presenting ==> !self.sync.in_flight_fences@[self.sync.current_frame
            as int].signaled
        &&& self.advanced_frames@ + (if self.phase is Presenting {
            1int
        } else {
            0int
        }) == self.submitted_frames@
        &&& forall|i: int|
            0 <= i < self.sync.images_in_flight@.len()
                ==> #[trigger] self.sync.images_in_flight@[i] == spec_last_claim(
                self.claim_log@,
                i,
            )
    }

    /// Create an orchestrator over a fresh ring of
    /// `max_frames_in_flight` slots and `image_count` images.
    pub fn new(max_frames_in_flight: usize, image_count: usize) -> (orchestrator: FrameOrchestrator)
        requires
            max_frames_in_flight > 0,
        ensures
            orchestrator.wf(),
            orchestrator.phase is Idle,
            !orchestrator.needs_recreation,
            orchestrator.sync.max_frames_in_flight == max_frames_in_flight,
            orchestrator.sync.current_frame == 0,
            orchestrator.sync.images_in_flight@.len() == image_count,
            forall|i: int| 0 <= i < image_count ==> orchestrator.sync.images_in_flight@[i] is None,
            orchestrator.submitted_frames@ == 0,
            orchestrator.advanced_frames@ == 0,
            orchestrator.claim_log@ == Seq::<(usize, usize)>::empty(),
    {
        let sync = VkSwapChainSync::new(max_frames_in_flight, image_count);
        FrameOrchestrator {
            sync,
            phase: FramePhase::Idle,
            needs_recreation: false,
            submitted_frames: Ghost(0),
            advanced_frames: Ghost(0),
            claim_log: Ghost(Seq::empty()),
        }
    }

    /// Step 1 of a frame: pick the current slot and wait on its
    /// in-flight fence, so the CPU never runs more than one full ring
    /// ahead of the GPU. On return the slot's fence has been observed
    /// signaled.
    pub fn begin_frame(&mut self) -> (slot: usize)
        requires
            old(self).wf(),
            old(self).phase is Idle,
            !old(self).needs_recreation,
        ensures
            final(self).wf(),
            slot == old(self).sync.current_frame,
            final(self).phase is Acquiring,
            !final(self).needs_recreation,
            final(self).sync.current_frame == old(self).sync.current_frame,
            final(self).sync.max_frames_in_flight == old(self).sync.max_frames_in_flight,
            final(self).sync.images_in_flight@ == old(self).sync.images_in_flight@,
            final(self).sync.image_available_semaphore@ == old(self).sync.image_available_semaphore@,
            final(self).sync.render_finished_semaphore@ == old(self).sync.render_finished_semaphore@,
            final(self).sync.in_flight_fences@ == old(self).sync.in_flight_fences@.update(
                slot as int,
                (VkFence {
                    handle: old(self).sync.in_flight_fences@[slot as int].handle,
                    signaled: true,
                }),
            ),
            final(self).submitted_frames@ == old(self).submitted_frames@,
            final(self).advanced_frames@ == old(self).advanced_frames@,
            final(self).claim_log@ == old(self).claim_log@,
    {
        let slot = self.sync.current_frame;
        // The blocking wait the application performs; when it returns,
        // the fence is signaled.
        self.sync.in_flight_fences[slot].signaled = true;
        self.phase = FramePhase::Acquiring;
        slot
    }

    /// Step 2 of a frame: take the outcome of the native acquire. A
    /// ready image moves the frame on; an out-of-date surface aborts
    /// the frame — no submission, no advance — and asks for recreation.
    pub fn on_acquire(&mut self, result: AcquireResult)
        requires
            old(self).wf(),
            old(self).phase is Acquiring,
            result matches AcquireResult::Ready { image_index, suboptimal } ==> image_index < old(
                self,
            ).sync.images_in_flight@.len(),
        ensures
            final(self).wf(),
            match result {
                AcquireResult::Ready { image_index, suboptimal } => {
                    &&& final(self).phase == (FramePhase::WaitingForImage { image_index })
                    &&& final(self).needs_recreation == old(self).needs_recreation
                },
                AcquireResult::OutOfDate => {
                    &&& final(self).phase is Idle
                    &&& final(self).needs_recreation
                },
            },
            final(self).sync == old(self).sync,
            final(self).submitted_frames@ == old(self).submitted_frames@,
            final(self).advanced_frames@ == old(self).advanced_frames@,
            final(self).claim_log@ == old(self).claim_log@,
    {
        match result {
            AcquireResult::Ready { image_index, suboptimal: _ } => {
                self.phase = FramePhase::WaitingForImage { image_index };
            },
            AcquireResult::OutOfDate => {
                self.phase = FramePhase::Idle;
                self.needs_recreation = true;
            },
        }
    }

    /// Step 3 of a frame: before reusing the acquired image, wait for
    /// whichever other slot's fence still owns it, then claim it for
    /// the current slot. Returns the slot whose fence the application
    /// had to wait on, if any.
    pub fn claim_image(&mut self) -> (prior: Option<usize>)
        requires
            old(self).wf(),
            old(self).phase is WaitingForImage,
        ensures
            final(self).wf(),
            match old(self).phase {
                FramePhase::WaitingForImage { image_index } => {
                    &&& final(self).phase == (FramePhase::Submitting { image_index })
                    &&& final(self).sync.images_in_flight@ == old(
                        self,
                    ).sync.images_in_flight@.update(
                        image_index as int,
                        Some(old(self).sync.current_frame),
                    )
                    &&& final(self).claim_log@ == old(self).claim_log@.push(
                        (old(self).sync.current_frame, image_index),
                    )
                    &&& match old(self).sync.images_in_flight@[image_index as int] {
                        Some(s) => if s != old(self).sync.current_frame {
                            &&& prior == Some(s)
                            &&& final(self).sync.in_flight_fences@ == old(
                                self,
                            ).sync.in_flight_fences@.update(
                                s as int,
                                (VkFence {
                                    handle: old(self).sync.in_flight_fences@[s as int].handle,
                                    signaled: true,
                                }),
                            )
                        } else {
                            &&& prior is None
                            &&& final(self).sync.in_flight_fences@ == old(
                                self,
                            ).sync.in_flight_fences@
                        },
                        None => {
                            &&& prior is None
                            &&& final(self).sync.in_flight_fences@ == old(
                                self,
                            ).sync.in_flight_fences@
                        },
                    }
                },
                _ => false,
            },
            final(self).sync.current_frame == old(self).sync.current_frame,
            final(self).sync.max_frames_in_flight == old(self).sync.max_frames_in_flight,
            final(self).sync.image_available_semaphore@ == old(self).sync.image_available_semaphore@,
            final(self).sync.render_finished_semaphore@ == old(self).sync.render_finished_semaphore@,
            final(self).needs_recreation == old(self).needs_recreation,
            final(self).submitted_frames@ == old(self).submitted_frames@,
            final(self).advanced_frames@ == old(self).advanced_frames@,
    {
        let image_index: usize;
        match self.phase {
            FramePhase::WaitingForImage { image_index: i } => {
                image_index = i;
            },
            _ => {
                proof {
                    assert(false);
                }
                image_index = 0;
            },
        }
        let cur = self.sync.current_frame;
        let mut prior: Option<usize> = None;
        match self.sync.images_in_flight[image_index] {
            Some(s) => {
                if s != cur {
                    // The blocking wait on the previous owner's fence;
                    // when it returns, that fence is signaled.
                    self.sync.in_flight_fences[s].signaled = true;
                    prior = Some(s);
                }
            },
            None => {},
        }
        self.sync.images_in_flight[image_index] = Some(cur);
        proof {
            self.claim_log@ = self.claim_log@.push((cur, image_index));
            assert forall|i: int| 0 <= i < self.sync.images_in_flight@.len() implies #[trigger] self.sync.images_in_flight@[i]
                == spec_last_claim(self.claim_log@, i) by {
                lemma_last_claim_push(old(self).claim_log@, cur, image_index, i);
            }
        }
        self.phase = FramePhase::Submitting { image_index };
        prior
    }

    /// Step 4 of a frame: reset the slot's fence and prescribe the
    /// submission — the image's command buffer, waiting on the slot's
    /// "image available" semaphore, signaling its "render finished"
    /// semaphore and its fence on completion.
    pub fn submit_frame(&mut self) -> (request: SubmitRequest)
        requires
            old(self).wf(),
            old(self).phase is Submitting,
        ensures
            final(self).wf(),
            match old(self).phase {
                FramePhase::Submitting { image_index } => {
                    &&& final(self).phase == (FramePhase::Presenting { image_index })
                    &&& request.command_buffer == image_index
                    &&& request.wait_semaphore == old(self).sync.image_available_semaphore@[old(
                        self,
                    ).sync.current_frame as int].handle
                    &&& request.signal_semaphore == old(self).sync.render_finished_semaphore@[old(
                        self,
                    ).sync.current_frame as int].handle
                    &&& request.fence == old(self).sync.in_flight_fences@[old(
                        self,
                    ).sync.current_frame as int].handle
                    &&& request.fence_slot == old(self).sync.current_frame
                },
                _ => false,
            },
            final(self).sync.in_flight_fences@ == old(self).sync.in_flight_fences@.update(
                old(self).sync.current_frame as int,
                (VkFence {
                    handle: old(self).sync.in_flight_fences@[old(
                        self,
                    ).sync.current_frame as int].handle,
                    signaled: false,
                }),
            ),
            final(self).sync.images_in_flight@ == old(self).sync.images_in_flight@,
            final(self).sync.current_frame == old(self).sync.current_frame,
            final(self).sync.max_frames_in_flight == old(self).sync.max_frames_in_flight,
            final(self).sync.image_available_semaphore@ == old(self).sync.image_available_semaphore@,
            final(self).sync.render_finished_semaphore@ == old(self).sync.render_finished_semaphore@,
            final(self).needs_recreation == old(self).needs_recreation,
            final(self).submitted_frames@ == old(self).submitted_frames@ + 1,
            final(self).advanced_frames@ == old(self).advanced_frames@,
            final(self).claim_log@ == old(self).claim_log@,
    {
        let image_index: usize;
        match self.phase {
            FramePhase::Submitting { image_index: i } => {
                image_index = i;
            },
            _ => {
                proof {
                    assert(false);
                }
                image_index = 0;
            },
        }
        let cur = self.sync.current_frame;
        // Reset the fence just before the submission that will signal it.
        self.sync.in_flight_fences[cur].signaled = false;
        let request = SubmitRequest {
            command_buffer: image_index,
            wait_semaphore: self.sync.image_available_semaphore[cur].handle,
            signal_semaphore: self.sync.render_finished_semaphore[cur].handle,
            fence: self.sync.in_flight_fences[cur].handle,
            fence_slot: cur,
        };
        proof {
            self.submitted_frames@ = self.submitted_frames@ + 1;
        }
        self.phase = FramePhase::Presenting { image_index };
        request
    }

    /// Steps 5 and 6 of a frame: take the outcome of the native
    /// present, ask for recreation when the surface went stale, and
    /// advance the slot — exactly once, whether or not presentation
    /// succeeded.
    pub fn on_present(&mut self, result: PresentResult)
        requires
            old(self).wf(),
            old(self).phase is Presenting,
        ensures
            final(self).wf(),
            final(self).phase is Idle,
            final(self).sync.current_frame == (old(self).sync.current_frame + 1) % (
            old(self).sync.max_frames_in_flight as int),
            final(self).needs_recreation == (old(self).needs_recreation || !(result
                is Presented)),
            final(self).sync.max_frames_in_flight == old(self).sync.max_frames_in_flight,
            final(self).sync.images_in_flight@ == old(self).sync.images_in_flight@,
            final(self).sync.in_flight_fences@ == old(self).sync.in_flight_fences@,
            final(self).sync.image_available_semaphore@ == old(self).sync.image_available_semaphore@,
            final(self).sync.render_finished_semaphore@ == old(self).sync.render_finished_semaphore@,
            final(self).submitted_frames@ == old(self).submitted_frames@,
            final(self).advanced_frames@ == old(self).advanced_frames@ + 1,
            final(self).claim_log@ == old(self).claim_log@,
    {
        match result {
            PresentResult::Presented => {},
            PresentResult::Suboptimal => {
                self.needs_recreation = true;
            },
            PresentResult::OutOfDate => {
                self.needs_recreation = true;
            },
        }
        self.sync.advance_frame();
        proof {
            self.advanced_frames@ = self.advanced_frames@ + 1;
        }
        self.phase = FramePhase::Idle;
    }

    /// Note a resize: swap-chain-dependent resources must be rebuilt
    /// before the next frame.
    pub fn request_recreation(&mut self)
        requires
            old(self).wf(),
            old(self).phase is Idle,
        ensures
            final(self).wf(),
            final(self).phase is Idle,
            final(self).needs_recreation,
            final(self).sync == old(self).sync,
            final(self).submitted_frames@ == old(self).submitted_frames@,
            final(self).advanced_frames@ == old(self).advanced_frames@,
            final(self).claim_log@ == old(self).claim_log@,
    {
        self.needs_recreation = true;
    }

    /// Complete a recreation: the image-in-flight map is resized to the
    /// new image count with every entry empty, so no fence reference of
    /// the destroyed generation survives. The per-slot semaphores and
    /// fences are kept — they are independent of the image count.
    pub fn recreate(&mut self, new_image_count: usize)
        requires
            old(self).wf(),
            old(self).phase is Idle,
        ensures
            final(self).wf(),
            final(self).phase is Idle,
            !final(self).needs_recreation,
            final(self).sync.images_in_flight@.len() == new_image_count,
            forall|i: int|
                0 <= i < new_image_count ==> final(self).sync.images_in_flight@[i] is None,
            final(self).sync.current_frame == old(self).sync.current_frame,
            final(self).sync.max_frames_in_flight == old(self).sync.max_frames_in_flight,
            final(self).sync.in_flight_fences@ == old(self).sync.in_flight_fences@,
            final(self).sync.image_available_semaphore@ == old(self).sync.image_available_semaphore@,
            final(self).sync.render_finished_semaphore@ == old(self).sync.render_finished_semaphore@,
            final(self).submitted_frames@ == old(self).submitted_frames@,
            final(self).advanced_frames@ == old(self).advanced_frames@,
            final(self).claim_log@ == Seq::<(usize, usize)>::empty(),
    {
        let mut claims: Vec<Option<usize>> = Vec::new();
        let mut k: usize = 0;
        while k < new_image_count
            invariant
                k <= new_image_count,
                claims@.len() == k,
                forall|i: int| 0 <= i < k ==> claims@[i] is None,
            decreases new_image_count - k,
        {
            claims.push(None);
            k = k + 1;
        }
        self.sync.images_in_flight = claims;
        proof {
            self.claim_log@ = Seq::empty();
        }
        self.needs_recreation = false;
    }
}

/// One step of a swap-chain recreation, for the application to perform
/// in plan order.
#[derive(Clone, Copy, PartialEq, Eq, Structural, Debug)]
pub enum RecreationStep {
    WaitIdle,
    DestroyFramebuffer { image_index: usize },
    DestroyImageView { image_index: usize },
    DestroySwapChain,
    DestroyPipeline,
    CreateSwapChain,
    CreatePipeline,
    RecordCommands { image_index: usize },
}

/// The recreation procedure: idle the device, destroy the per-image
/// framebuffers, then the views, then the chain itself and the
/// pipeline, rebuild chain and pipeline, and re-record one command
/// buffer per image of the new generation.
pub open spec fn spec_recreation_plan(old_image_count: usize, new_image_count: usize) -> Seq<
    RecreationStep,
> {
    seq![RecreationStep::WaitIdle] + Seq::new(
        old_image_count as nat,
        |i: int| RecreationStep::DestroyFramebuffer { image_index: i as usize },
    ) + Seq::new(
        old_image_count as nat,
        |i: int| RecreationStep::DestroyImageView { image_index: i as usize },
    ) + seq![
        RecreationStep::DestroySwapChain,
        RecreationStep::DestroyPipeline,
        RecreationStep::CreateSwapChain,
        RecreationStep::CreatePipeline,
    ] + Seq::new(
        new_image_count as nat,
        |i: int| RecreationStep::RecordCommands { image_index: i as usize },
    )
}

/// Produce the recreation plan for a chain of `old_image_count` images
/// being rebuilt with `new_image_count` images. The device is idled
/// before anything is destroyed: no in-flight work may reference a
/// resource about to go away.
pub fn recreation_plan(old_image_count: usize, new_image_count: usize) -> (plan: Vec<RecreationStep>)
    requires
        old_image_count + old_image_count + new_image_count + 5 <= usize::MAX,
    ensures
        plan@ == spec_recreation_plan(old_image_count, new_image_count),
        plan@.len() > 0,
        plan@[0] is WaitIdle,
        forall|k: int| 0 < k < plan@.len() ==> !(#[trigger] plan@[k] is WaitIdle),
{
    let mut plan: Vec<RecreationStep> = Vec::new();
    plan.push(RecreationStep::WaitIdle);
    let mut k: usize = 0;
    while k < old_image_count
        invariant
            k <= old_image_count,
            plan@.len() == 1 + k,
            plan@[0] is WaitIdle,
            forall|j: int|
                0 <= j < k ==> #[trigger] plan@[1 + j] == (RecreationStep::DestroyFramebuffer {
                    image_index: j as usize,
                }),
        decreases old_image_count - k,
    {
        plan.push(RecreationStep::DestroyFramebuffer { image_index: k });
        k = k + 1;
    }
    let mut k: usize = 0;
    while k < old_image_count
        invariant
            k <= old_image_count,
            plan@.len() == 1 + old_image_count + k,
            plan@[0] is WaitIdle,
            forall|j: int|
                0 <= j < old_image_count ==> #[trigger] plan@[1 + j] == (RecreationStep::DestroyFramebuffer {
                    image_index: j as usize,
                }),
            forall|j: int|
                0 <= j < k ==> #[trigger] plan@[1 + old_image_count + j] == (RecreationStep::DestroyImageView {
                    image_index: j as usize,
                }),
        decreases old_image_count - k,
    {
        plan.push(RecreationStep::DestroyImageView { image_index: k });
        k = k + 1;
    }
    plan.push(RecreationStep::DestroySwapChain);
    plan.push(RecreationStep::DestroyPipeline);
    plan.push(RecreationStep::CreateSwapChain);
    plan.push(RecreationStep::CreatePipeline);
    let ghost base = 1 + 2 * (old_image_count as int) + 4;
    let mut k: usize = 0;
    while k < new_image_count
        invariant
            k <= new_image_count,
            base == 1 + 2 * (old_image_count as int) + 4,
            plan@.len() == base + k,
            plan@[0] is WaitIdle,
            forall|j: int|
                0 <= j < old_image_count ==> #[trigger] plan@[1 + j] == (RecreationStep::DestroyFramebuffer {
                    image_index: j as usize,
                }),
            forall|j: int|
                0 <= j < old_image_count ==> #[trigger] plan@[1 + old_image_count + j]
                    == (RecreationStep::DestroyImageView { image_index: j as usize }),
            plan@[1 + 2 * (old_image_count as int)] is DestroySwapChain,
            plan@[1 + 2 * (old_image_count as int) + 1] is DestroyPipeline,
            plan@[1 + 2 * (old_image_count as int) + 2] is CreateSwapChain,
            plan@[1 + 2 * (old_image_count as int) + 3] is CreatePipeline,
            forall|j: int|
                0 <= j < k ==> #[trigger] plan@[base + j] == (RecreationStep::RecordCommands {
                    image_index: j as usize,
                }),
        decreases new_image_count - k,
    {
        plan.push(RecreationStep::RecordCommands { image_index: k });
        k = k + 1;
    }
    proof {
        let g = spec_recreation_plan(old_image_count, new_image_count);
        assert(g.len() == plan@.len());
        assert forall|i: int| 0 <= i < plan@.len() implies plan@[i] == g[i] by {
            let oic = old_image_count as int;
            if i == 0 {
            } else if i < 1 + oic {
                let j = i - 1;
                assert(plan@[1 + j] == (RecreationStep::DestroyFramebuffer {
                    image_index: j as usize,
                }));
                assert(g[i] == (RecreationStep::DestroyFramebuffer {
                    image_index: (i - 1) as usize,
                }));
            } else if i < 1 + 2 * oic {
                let j = i - 1 - oic;
                assert(plan@[1 + old_image_count + j] == (RecreationStep::DestroyImageView {
                    image_index: j as usize,
                }));
                assert(g[i] == (RecreationStep::DestroyImageView {
                    image_index: (i - 1 - oic) as usize,
                }));
            } else if i < 1 + 2 * oic + 4 {
            } else {
                let j = i - base;
                assert(plan@[base + j] == (RecreationStep::RecordCommands {
                    image_index: j as usize,
                }));
                assert(g[i] == (RecreationStep::RecordCommands {
                    image_index: (i - base) as usize,
                }));
            }
        }
        assert(plan@ =~= g);
    }
    plan
}

/// Bounded in-flight work: in any reachable orchestrator state, no
/// more fences are pending than there are frame slots, so at most
/// `max_frames_in_flight` frames of GPU work are ever outstanding.
pub proof fn lemma_bounded_in_flight(orchestrator: FrameOrchestrator)
    requires
        orchestrator.wf(),
    ensures
        count_pending(orchestrator.sync.in_flight_fences@)
            <= orchestrator.sync.max_frames_in_flight,
{
    lemma_count_pending_le_len(orchestrator.sync.in_flight_fences@);
}

/// Image exclusivity: in any reachable orchestrator state, each
/// image-in-flight entry is exactly the slot of the most recent claim
/// on that image — and, the map holding one entry per image, no two
/// slots' fences are associated with one image at the same time.
pub proof fn lemma_image_exclusivity(orchestrator: FrameOrchestrator, image_index: int)
    requires
        orchestrator.wf(),
        0 <= image_index < orchestrator.sync.images_in_flight@.len(),
    ensures
        orchestrator.sync.images_in_flight@[image_index] == spec_last_claim(
            orchestrator.claim_log@,
            image_index,
        ),
{
}

/// Exact-once advance: in any reachable orchestrator state, the frame
/// slot has advanced exactly once for every submitted frame, except for
/// the single frame currently between submission and presentation; a
/// frame aborted at acquire never advances the slot.
pub proof fn lemma_advance_exactly_once(orchestrator: FrameOrchestrator)
    requires
        orchestrator.wf(),
    ensures
        orchestrator.advanced_frames@ + (if orchestrator.phase is Presenting {
            1int
        } else {
            0int
        }) == orchestrator.submitted_frames@,
{
}

} // verus!
