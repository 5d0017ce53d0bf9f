//! Single-producer, single-consumer, capacity-one, latest-wins transfer of
//! converted frames from the capture callback into the render loop.
//!
//! The hand-off is a single slot: a new frame unconditionally replaces any
//! unconsumed previous one, so the producer never waits on the consumer. At
//! run time the capture thread and the render thread share one value of
//! [`FrameHandoff`] behind a lock held only across these short slot
//! operations; the slot logic itself is sequential and verified here.

use vstd::prelude::*;

use crate::frame::{convert, frame_converted, rejection, ConvertError, Frame, FrameModel, RawFrame};

verus! {

/// The single frame slot. Empty at startup; holds at most one undelivered
/// frame.
pub struct FrameHandoff {
    slot: Option<Frame>,
}

/// The slot after a publish: the new frame, whatever was there before.
pub open spec fn published(slot: Option<FrameModel>, frame: FrameModel) -> Option<FrameModel> {
    Some(frame)
}

/// What a consume returns out of a slot, paired with the slot it leaves
/// behind: the pending frame, if any, and an empty slot.
pub open spec fn consumed(slot: Option<FrameModel>) -> (Option<FrameModel>, Option<FrameModel>) {
    (slot, None)
}

impl View for FrameHandoff {
    type V = Option<FrameModel>;

    closed spec fn view(&self) -> Option<FrameModel> {
        match self.slot {
            Some(f) => Some(f@),
            None => None,
        }
    }
}

impl FrameHandoff {
    /// Every frame the slot holds satisfies the frame invariant.
    pub open spec fn wf(self) -> bool {
        self@ matches Some(f) ==> f.wf()
    }

    /// A hand-off with nothing pending.
    pub fn empty() -> (h: FrameHandoff)
        ensures
            h@ is None,
            h.wf(),
    {
        FrameHandoff { slot: None }
    }

    /// Publish a frame: non-blocking and never failing from the producer's
    /// side. An unconsumed previous frame is silently replaced, never queued,
    /// and the producer never waits for the consumer.
    pub fn publish(&mut self, frame: Frame)
        requires
            frame.wf(),
        ensures
            final(self)@ == published(old(self)@, frame@),
            final(self).wf(),
    {
        self.slot = Some(frame);
    }

    /// Take the freshest frame if one is pending; `None` means no new frame
    /// since the last consume, and the consumer keeps what it last applied.
    pub fn try_consume(&mut self) -> (r: Option<Frame>)
        requires
            old(self).wf(),
        ensures
            final(self)@ == consumed(old(self)@).1,
            final(self).wf(),
            match r {
                Some(f) => consumed(old(self)@).0 == Some(f@) && f.wf(),
                None => consumed(old(self)@).0 is None,
            },
    {
        self.slot.take()
    }
}

/// Latest-wins law: publishing `f1` and then `f2` into any slot, with no
/// consume in between, leaves exactly one pending frame, `f2`. The first
/// consume returns `f2`, a second consume returns nothing, and `f1` is never
/// observed.
pub proof fn lemma_latest_wins(slot: Option<FrameModel>, f1: FrameModel, f2: FrameModel)
    ensures
        ({
            let after = published(published(slot, f1), f2);
            &&& consumed(after).0 == Some(f2)
            &&& consumed(after).1 is None
            &&& consumed(consumed(after).1).0 is None
        }),
{
}

/// The per-capture-callback core: convert the raw buffer and publish the
/// result. A rejected buffer is dropped and the hand-off is left untouched,
/// so a frame with an unsupported format never reaches the consumer.
pub fn on_raw_frame(handoff: &mut FrameHandoff, raw: &RawFrame) -> (r: Result<(), ConvertError>)
    requires
        old(handoff).wf(),
    ensures
        final(handoff).wf(),
        match r {
            Ok(()) => rejection(*raw) is None && (final(handoff)@ matches Some(f)
                && frame_converted(*raw, f)),
            Err(e) => rejection(*raw) == Some(e) && final(handoff)@ == old(handoff)@,
        },
{
    match convert(raw) {
        Ok(frame) => {
            handoff.publish(frame);
            Ok(())
        },
        Err(e) => Err(e),
    }
}

} // verus!
