//! The ring of frame slots that bounds how far the host runs ahead of
//! the GPU.
use vstd::prelude::*;
use crate::renderer::vulkan::error::RendererError;

verus! {

/// The frame slots: each has a fence and two semaphores, and one of them
/// is current.
#[derive(Clone, Copy, Debug, PartialEq, Eq, Structural)]
pub struct VKSynchroniser {
    pub current_frame: u32,
    pub max_frames_in_flight: u32,
    /// Fences start signalled, so that the first wait on each returns.
    pub fences_signaled: bool,
}

/// The slot that follows `current` in a ring of `slots`.
pub open spec fn next_slot(current: u32, slots: u32) -> u32
    recommends
        slots > 0,
{
    ((current + 1) % (slots as int)) as u32
}

impl VKSynchroniser {
    /// The current slot is one of the slots.
    pub open spec fn wf(&self) -> bool {
        self.current_frame < self.max_frames_in_flight
    }

    /// The synchroniser after one more frame.
    pub open spec fn advanced(&self) -> VKSynchroniser {
        VKSynchroniser {
            current_frame: next_slot(self.current_frame, self.max_frames_in_flight),
            ..*self
        }
    }

    /// The synchroniser after `frames` more frames.
    pub open spec fn advanced_by(&self, frames: nat) -> VKSynchroniser
        decreases frames,
    {
        if frames == 0 {
            *self
        } else {
            self.advanced_by((frames - 1) as nat).advanced()
        }
    }

    /// A ring of `in_flight_frames` slots, the first of them current.
    ///
    /// Fails with `NoFramesInFlight` exactly when there would be no slot.
    pub fn new(in_flight_frames: u32) -> (made: Result<Self, RendererError>)
        ensures
            if in_flight_frames == 0 {
                made matches Err(error) && error == RendererError::NoFramesInFlight
            } else {
                &&& made matches Ok(sync)
                &&& sync == (VKSynchroniser {
                    current_frame: 0,
                    max_frames_in_flight: in_flight_frames,
                    fences_signaled: true,
                })
                &&& sync.wf()
            },
    {
        if in_flight_frames == 0 {
            return Err(RendererError::NoFramesInFlight);
        }
        Ok(
            VKSynchroniser {
                current_frame: 0,
                max_frames_in_flight: in_flight_frames,
                fences_signaled: true,
            },
        )
    }

    /// Moves on to the next slot.
    pub fn advance(&mut self)
        requires
            old(self).wf(),
        ensures
            *final(self) == old(self).advanced(),
            final(self).wf(),
    {
        let next: u64 = (self.current_frame as u64 + 1) % (self.max_frames_in_flight as u64);
        self.current_frame = next as u32;
    }
}

/// Frame after frame the current slot goes round the ring in order:
/// after `frames` frames it is `(start + frames) mod slots`.
pub proof fn lemma_round_robin(sync: VKSynchroniser, frames: nat)
    requires
        sync.wf(),
    ensures
        sync.advanced_by(frames).wf(),
        sync.advanced_by(frames).max_frames_in_flight == sync.max_frames_in_flight,
        sync.advanced_by(frames).fences_signaled == sync.fences_signaled,
        sync.advanced_by(frames).current_frame == (sync.current_frame + frames) % (
        sync.max_frames_in_flight as int),
    decreases frames,
{
    let slots = sync.max_frames_in_flight;
    if frames == 0 {
        vstd::arithmetic::div_mod::lemma_small_mod(sync.current_frame as nat, slots as nat);
    } else {
        lemma_round_robin(sync, (frames - 1) as nat);
        let before = sync.advanced_by((frames - 1) as nat).current_frame;
        vstd::arithmetic::div_mod::lemma_add_mod_noop(
            sync.current_frame + frames - 1,
            1,
            slots as int,
        );
        vstd::arithmetic::div_mod::lemma_add_mod_noop(before as int, 1, slots as int);
        vstd::arithmetic::div_mod::lemma_small_mod(before as nat, slots as nat);
        vstd::arithmetic::div_mod::lemma_mod_bound(before + 1, slots as int);
    }
}

/// With two slots the current slot alternates: after an odd number of
/// frames it is the other slot, after an even number the same.
pub proof fn lemma_two_slots_alternate(sync: VKSynchroniser, frames: nat)
    requires
        sync.wf(),
        sync.max_frames_in_flight == 2,
    ensures
        sync.advanced_by(frames).current_frame == if frames % 2 == 0 {
            sync.current_frame as int
        } else {
            1 - sync.current_frame
        },
{
    lemma_round_robin(sync, frames);
}

} // verus!
