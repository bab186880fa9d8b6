//! The single-slot mailbox between the capture callback and the consumer.

use std::time::Instant;
use vstd::prelude::*;

verus! {

/// `std::time::Instant`, carried through as an opaque capture timestamp.
#[verifier::external_type_specification]
#[verifier::external_body]
pub struct ExInstant(Instant);

/// One capture result: the producer-assigned sequence number and the moment
/// the frame was delivered.
#[derive(Debug)]
pub struct Frame {
    pub ts: Instant,
    pub id: u32,
}

impl Frame {
    pub fn new(ts: Instant, id: u32) -> (frame: Frame)
        ensures
            frame.ts == ts,
            frame.id == id,
    {
        Frame { ts: ts, id: id }
    }
}

/// What a slot holds after `frame` is published into it: always the new
/// frame, whatever was there before.
pub open spec fn slot_after_publish(slot: Option<Frame>, frame: Frame) -> Option<Frame> {
    Some(frame)
}

/// What a take hands out of a slot: what the slot holds.
pub open spec fn taken_from(slot: Option<Frame>) -> Option<Frame> {
    slot
}

/// What a slot holds after a take: nothing.
pub open spec fn slot_after_take(slot: Option<Frame>) -> Option<Frame> {
    None
}

/// What a slot holds after every frame of `frames` is published in order,
/// with nothing taken in between.
pub open spec fn slot_after_publishes(slot: Option<Frame>, frames: Seq<Frame>) -> Option<Frame>
    decreases frames.len(),
{
    if frames.len() == 0 {
        slot
    } else {
        slot_after_publish(slot_after_publishes(slot, frames.drop_last()), frames.last())
    }
}

/// A mailbox for at most one frame. The producer overwrites, the consumer
/// takes and clears.
pub struct FrameSlot {
    slot: Option<Frame>,
}

impl View for FrameSlot {
    type V = Option<Frame>;

    closed spec fn view(&self) -> Option<Frame> {
        self.slot
    }
}

impl FrameSlot {
    /// An empty slot.
    pub fn new() -> (slot: FrameSlot)
        ensures
            slot@ is None,
    {
        FrameSlot { slot: None }
    }

    /// Stores `frame`, dropping any frame that was not taken yet.
    pub fn publish(&mut self, frame: Frame)
        ensures
            final(self)@ == slot_after_publish(old(self)@, frame),
    {
        self.slot = Some(frame);
    }

    /// Hands out the stored frame, if any, and leaves the slot empty.
    pub fn try_take(&mut self) -> (taken: Option<Frame>)
        ensures
            taken == taken_from(old(self)@),
            final(self)@ == slot_after_take(old(self)@),
    {
        self.slot.take()
    }

    /// Whether a frame is waiting.
    pub fn is_occupied(&self) -> (occupied: bool)
        ensures
            occupied == (self@ is Some),
    {
        self.slot.is_some()
    }
}

/// After any non-empty burst of publishes with no take in between, the slot
/// holds exactly the last frame published, and nothing of the earlier ones.
pub proof fn lemma_burst_keeps_last(slot: Option<Frame>, frames: Seq<Frame>)
    requires
        frames.len() >= 1,
    ensures
        slot_after_publishes(slot, frames) == Some(frames.last()),
{
}

/// A take right after a publish yields the frame just published, whatever
/// the slot held before, and a second take right after it yields nothing.
pub proof fn lemma_take_after_publish(slot: Option<Frame>, frame: Frame)
    ensures
        taken_from(slot_after_publish(slot, frame)) == Some(frame),
        taken_from(slot_after_take(slot_after_publish(slot, frame))) is None,
{
}

} // verus!
