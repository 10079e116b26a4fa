//! A single-slot, latest-wins hand-off point for one frame buffer.
//!
//! A writer publishes frames at its own pace; each publish replaces whatever
//! the slot held. A reader takes the frame out, leaving the slot empty.
use vstd::prelude::*;

verus! {

/// The contents of a slot after `frame` is published into it: the new frame,
/// whether or not the previous one was ever taken.
pub open spec fn after_publish(slot: Option<Seq<u8>>, frame: Seq<u8>) -> Option<Seq<u8>> {
    Some(frame)
}

/// What a take hands out (first) and what the slot holds afterwards (second).
pub open spec fn after_take(slot: Option<Seq<u8>>) -> (Option<Seq<u8>>, Option<Seq<u8>>) {
    (slot, None)
}

/// The contents of a slot after each frame of `frames` is published in order.
pub open spec fn publish_all(slot: Option<Seq<u8>>, frames: Seq<Seq<u8>>) -> Option<Seq<u8>>
    decreases frames.len(),
{
    if frames.len() == 0 {
        slot
    } else {
        after_publish(publish_all(slot, frames.drop_last()), frames.last())
    }
}

/// What `n` takes in a row hand out, starting from a slot holding `slot`.
pub open spec fn take_times(slot: Option<Seq<u8>>, n: nat) -> Seq<Option<Seq<u8>>>
    decreases n,
{
    if n == 0 {
        Seq::empty()
    } else {
        seq![after_take(slot).0] + take_times(after_take(slot).1, (n - 1) as nat)
    }
}

/// The byte contents of an optional frame buffer.
pub open spec fn frame_view(frame: Option<Vec<u8>>) -> Option<Seq<u8>> {
    match frame {
        Some(v) => Some(v@),
        None => None,
    }
}

/// A slot that holds at most one frame: the most recently published one that
/// has not been taken yet.
pub struct SharedFrame {
    current_frame: Option<Vec<u8>>,
}

impl View for SharedFrame {
    type V = Option<Seq<u8>>;

    closed spec fn view(&self) -> Option<Seq<u8>> {
        frame_view(self.current_frame)
    }
}

impl SharedFrame {
    /// An empty slot.
    pub fn new() -> (r: Self)
        ensures
            r@ is None,
    {
        SharedFrame { current_frame: None }
    }

    /// Stores `data`, discarding any frame that was not taken yet.
    pub fn set_current(&mut self, data: Vec<u8>)
        ensures
            final(self)@ == after_publish(old(self)@, data@),
    {
        self.current_frame = Some(data);
    }

    /// Removes and returns the stored frame, leaving the slot empty.
    pub fn take_current(&mut self) -> (r: Option<Vec<u8>>)
        ensures
            frame_view(r) == after_take(old(self)@).0,
            final(self)@ == after_take(old(self)@).1,
    {
        self.current_frame.take()
    }

    /// Whether a frame is waiting to be taken.
    pub fn has_frame(&self) -> (r: bool)
        ensures
            r == self@ is Some,
    {
        self.current_frame.is_some()
    }
}

/// However many frames are published in a row, the next take returns the last
/// of them, and a take right after it returns nothing: a superseded frame is
/// never handed out.
pub proof fn lemma_latest_wins(slot: Option<Seq<u8>>, frames: Seq<Seq<u8>>)
    requires
        frames.len() > 0,
    ensures
        after_take(publish_all(slot, frames)).0 == Some(frames.last()),
        after_take(after_take(publish_all(slot, frames)).1).0 is None,
{
}

/// Taking from an empty slot returns nothing, however often it is repeated.
pub proof fn lemma_take_empty_idempotent(n: nat)
    ensures
        take_times(None, n) =~= Seq::new(n, |i: int| None::<Seq<u8>>),
        forall|i: int| 0 <= i < n ==> #[trigger] take_times(None, n)[i] is None,
    decreases n,
{
    if n > 0 {
        lemma_take_empty_idempotent((n - 1) as nat);
    }
}

} // verus!
