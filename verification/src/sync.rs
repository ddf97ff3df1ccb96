//! Synchronization primitives and the frame synchronization ring.
//!
//! Semaphores order work on the GPU; fences let the CPU observe
//! completion. The ring maps a fixed number of frames in flight to
//! per-slot primitive sets and tracks which slot's fence currently owns
//! each swap-chain image.
//!
//! The primitives are modelled by the plain values the engine reasons
//! about: an opaque handle, and for a fence the signaled state the CPU
//! can observe. The embedding application creates the native objects
//! and keeps them slot-indexed beside the ring.

use crate::handles::AsRawHandle;
use crate::handles::VkRawHandle;
use vstd::prelude::*;

verus! {

/// A CPU-observable completion signal.
///
/// A fence is created signaled, so the very first wait on it returns
/// without blocking, and is manually reset before each reuse.
#[derive(Clone, Copy, PartialEq, Eq, Structural, Debug)]
pub struct VkFence {
    pub handle: u64,
    pub signaled: bool,
}

impl VkFence {
    /// Create a fence. A fresh fence is signaled: the first wait on it
    /// returns at once.
    pub fn new(handle: u64) -> (fence: VkFence)
        ensures
            fence.handle == handle,
            fence.signaled,
    {
        VkFence { handle, signaled: true }
    }
}

impl VkRawHandle for VkFence {
    type Handle = u64;

    open spec fn spec_raw_handle(&self) -> u64 {
        self.handle
    }

    fn raw_handle(&self) -> (handle: u64) {
        self.handle
    }
}

impl AsRawHandle for VkFence {
    type Handle = u64;

    open spec fn spec_as_raw_handle(&self) -> u64 {
        self.handle
    }

    fn as_raw_handle(&self) -> (handle: u64) {
        self.handle
    }
}

/// A GPU-only ordering signal between queue operations.
#[derive(Clone, Copy, PartialEq, Eq, Structural, Debug)]
pub struct VkSemaphore {
    pub handle: u64,
}

impl VkSemaphore {
    /// Create a semaphore. Semaphores are created unsignaled.
    pub fn new(handle: u64) -> (semaphore: VkSemaphore)
        ensures
            semaphore.handle == handle,
    {
        VkSemaphore { handle }
    }
}

impl VkRawHandle for VkSemaphore {
    type Handle = u64;

    open spec fn spec_raw_handle(&self) -> u64 {
        self.handle
    }

    fn raw_handle(&self) -> (handle: u64) {
        self.handle
    }
}

impl AsRawHandle for VkSemaphore {
    type Handle = u64;

    open spec fn spec_as_raw_handle(&self) -> u64 {
        self.handle
    }

    fn as_raw_handle(&self) -> (handle: u64) {
        self.handle
    }
}

/// One frame slot's primitive set: an "image available" semaphore, a
/// "render finished" semaphore, and an "in flight" fence.
#[derive(Clone, Copy, PartialEq, Eq, Structural, Debug)]
pub struct VkFrame {
    pub available: VkSemaphore,
    pub finished: VkSemaphore,
    pub in_flight: VkFence,
}

/// How many fences of the sequence are pending (unsignaled).
pub open spec fn count_pending(fences: Seq<VkFence>) -> nat
    decreases fences.len(),
{
    if fences.len() == 0 {
        0
    } else {
        count_pending(fences.drop_last()) + (if fences.last().signaled {
            0nat
        } else {
            1nat
        })
    }
}

/// No more fences can be pending than there are fences.
pub proof fn lemma_count_pending_le_len(fences: Seq<VkFence>)
    ensures
        count_pending(fences) <= fences.len(),
    decreases fences.len(),
{
    if fences.len() > 0 {
        lemma_count_pending_le_len(fences.drop_last());
    }
}

/// The frame synchronization ring.
///
/// `max_frames_in_flight` slots each own one semaphore pair and one
/// fence; `current_frame` is the active slot, advancing round-robin.
/// `images_in_flight` has one entry per swap-chain image, holding the
/// slot whose fence last claimed that image, if any.
pub struct VkSwapChainSync {
    pub max_frames_in_flight: usize,
    pub current_frame: usize,
    pub image_available_semaphore: Vec<VkSemaphore>,
    pub render_finished_semaphore: Vec<VkSemaphore>,
    pub in_flight_fences: Vec<VkFence>,
    pub images_in_flight: Vec<Option<usize>>,
}

impl VkSwapChainSync {
    /// Well-formedness: the per-slot arrays have one entry per frame
    /// slot, the active slot is in range, and every claim in the
    /// image-in-flight map names a real slot.
    pub open spec fn wf(self) -> bool {
        &&& self.max_frames_in_flight > 0
        &&& self.current_frame < self.max_frames_in_flight
        &&& self.image_available_semaphore@.len() == self.max_frames_in_flight
        &&& self.render_finished_semaphore@.len() == self.max_frames_in_flight
        &&& self.in_flight_fences@.len() == self.max_frames_in_flight
        &&& forall|i: int|
            0 <= i < self.images_in_flight@.len() ==> (#[trigger] self.images_in_flight@[i]
                matches Some(s) ==> s < self.max_frames_in_flight)
    }

    /// Create a ring of `max_frames_in_flight` slots over a swap chain
    /// of `image_count` images. Every fence starts signaled and every
    /// image starts unclaimed.
    pub fn new(max_frames_in_flight: usize, image_count: usize) -> (sync: VkSwapChainSync)
        requires
            max_frames_in_flight > 0,
        ensures
            sync.wf(),
            sync.max_frames_in_flight == max_frames_in_flight,
            sync.current_frame == 0,
            sync.images_in_flight@.len() == image_count,
            forall|i: int| 0 <= i < image_count ==> sync.images_in_flight@[i] is None,
            forall|i: int|
                0 <= i < max_frames_in_flight ==> sync.in_flight_fences@[i].signaled,
    {
        let image_available_semaphore = create_semaphores(max_frames_in_flight);
        let render_finished_semaphore = create_semaphores(max_frames_in_flight);
        let in_flight_fences = create_fences(max_frames_in_flight);
        let images_in_flight = create_empty_claims(image_count);
        VkSwapChainSync {
            max_frames_in_flight,
            current_frame: 0,
            image_available_semaphore,
            render_finished_semaphore,
            in_flight_fences,
            images_in_flight,
        }
    }

    /// The active frame slot.
    pub fn current_slot(&self) -> (slot: usize)
        ensures
            slot == self.current_frame,
    {
        self.current_frame
    }

    /// The number of frame slots.
    pub fn frame_count(&self) -> (count: usize)
        ensures
            count == self.max_frames_in_flight,
    {
        self.max_frames_in_flight
    }

    /// The primitive set of one frame slot.
    pub fn frame(&self, slot: usize) -> (frame: VkFrame)
        requires
            self.wf(),
            slot < self.max_frames_in_flight,
        ensures
            frame.available == self.image_available_semaphore@[slot as int],
            frame.finished == self.render_finished_semaphore@[slot as int],
            frame.in_flight == self.in_flight_fences@[slot as int],
    {
        VkFrame {
            available: self.image_available_semaphore[slot],
            finished: self.render_finished_semaphore[slot],
            in_flight: self.in_flight_fences[slot],
        }
    }

    /// Advance the active slot round-robin, leaving all else untouched.
    pub fn advance_frame(&mut self)
        requires
            old(self).wf(),
        ensures
            final(self).wf(),
            final(self).current_frame == (old(self).current_frame + 1) % (
            old(self).max_frames_in_flight as int),
            final(self).max_frames_in_flight == old(self).max_frames_in_flight,
            final(self).image_available_semaphore@ == old(self).image_available_semaphore@,
            final(self).render_finished_semaphore@ == old(self).render_finished_semaphore@,
            final(self).in_flight_fences@ == old(self).in_flight_fences@,
            final(self).images_in_flight@ == old(self).images_in_flight@,
    {
        self.current_frame = (self.current_frame + 1) % self.max_frames_in_flight;
    }

    /// Record that `slot`'s fence now owns `image_index`, overwriting
    /// any prior claim.
    pub fn claim(&mut self, image_index: usize, slot: usize)
        requires
            old(self).wf(),
            image_index < old(self).images_in_flight@.len(),
            slot < old(self).max_frames_in_flight,
        ensures
            final(self).wf(),
            final(self).images_in_flight@ == old(self).images_in_flight@.update(
                image_index as int,
                Some(slot),
            ),
            final(self).max_frames_in_flight == old(self).max_frames_in_flight,
            final(self).current_frame == old(self).current_frame,
            final(self).image_available_semaphore@ == old(self).image_available_semaphore@,
            final(self).render_finished_semaphore@ == old(self).render_finished_semaphore@,
            final(self).in_flight_fences@ == old(self).in_flight_fences@,
    {
        self.images_in_flight[image_index] = Some(slot);
    }
}

/// Create `count` semaphores, numbered by slot.
fn create_semaphores(count: usize) -> (semaphores: Vec<VkSemaphore>)
    ensures
        semaphores@.len() == count,
        forall|i: int| 0 <= i < count ==> semaphores@[i].handle == i,
{
    let mut semaphores: Vec<VkSemaphore> = Vec::new();
    let mut k: usize = 0;
    while k < count
        invariant
            k <= count,
            semaphores@.len() == k,
            forall|i: int| 0 <= i < k ==> semaphores@[i].handle == i,
        decreases count - k,
    {
        semaphores.push(VkSemaphore::new(k as u64));
        k = k + 1;
    }
    semaphores
}

/// Create `count` fences, numbered by slot. Each starts signaled.
fn create_fences(count: usize) -> (fences: Vec<VkFence>)
    ensures
        fences@.len() == count,
        forall|i: int| 0 <= i < count ==> fences@[i].handle == i && fences@[i].signaled,
{
    let mut fences: Vec<VkFence> = Vec::new();
    let mut k: usize = 0;
    while k < count
        invariant
            k <= count,
            fences@.len() == k,
            forall|i: int| 0 <= i < k ==> fences@[i].handle == i && fences@[i].signaled,
        decreases count - k,
    {
        fences.push(VkFence::new(k as u64));
        k = k + 1;
    }
    fences
}

/// Create an image-in-flight map of `count` empty entries.
fn create_empty_claims(count: usize) -> (claims: Vec<Option<usize>>)
    ensures
        claims@.len() == count,
        forall|i: int| 0 <= i < count ==> claims@[i] is None,
{
    let mut claims: Vec<Option<usize>> = Vec::new();
    let mut k: usize = 0;
    while k < count
        invariant
            k <= count,
            claims@.len() == k,
            forall|i: int| 0 <= i < k ==> claims@[i] is None,
        decreases count - k,
    {
        claims.push(None);
        k = k + 1;
    }
    claims
}

} // verus!
