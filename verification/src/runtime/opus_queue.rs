//! The queue of encoded frames between one producer and the output, bounded by
//! media duration.
use super::time::{difference, sum};
use crate::audio::frame::OpusFrame;
use crate::error::MusicStreamError;
use std::collections::VecDeque;
use vstd::prelude::*;
use vstd::std_specs::vecdeque::*;

verus! {

/// What observers of a queue see.
#[derive(Clone, Copy, Debug, PartialEq, Eq)]
pub struct QueueSnapshot {
    pub buffered_ms: u64,
    pub sender_alive: bool,
}

impl QueueSnapshot {
    pub open spec fn drained(self) -> bool {
        !self.sender_alive && self.buffered_ms == 0
    }

    #[must_use]
    pub fn is_closed(&self) -> (closed: bool)
        ensures
            closed == !self.sender_alive,
    {
        !self.sender_alive
    }

    #[must_use]
    pub fn is_drained(&self) -> (drained: bool)
        ensures
            drained == self.drained(),
    {
        !self.sender_alive && self.buffered_ms == 0
    }
}

/// Media duration of a run of frames.
pub open spec fn total_ms(frames: Seq<OpusFrame>) -> int
    decreases frames.len(),
{
    if frames.len() == 0 {
        0
    } else {
        total_ms(frames.drop_last()) + frames.last().duration_ms
    }
}

/// The answer to a frame that is offered to a queue.
pub enum Offer {
    Accepted,
    /// There is no room yet; the frame comes back.
    Wait(OpusFrame),
    Rejected(MusicStreamError),
}

/// State of a queue that its two ends share.
#[derive(Debug)]
pub struct OpusQueue {
    pub capacity_ms: u64,
    pub frames: VecDeque<OpusFrame>,
    pub buffered_ms: u64,
    pub sender_handles: usize,
    pub sender_alive: bool,
    pub receiver_alive: bool,
}

proof fn total_is_positive(frames: Seq<OpusFrame>)
    ensures
        total_ms(frames) >= 0,
    decreases frames.len(),
{
    if frames.len() > 0 {
        total_is_positive(frames.drop_last());
    }
}

proof fn total_without_first(frames: Seq<OpusFrame>)
    requires
        frames.len() > 0,
    ensures
        total_ms(frames) == frames[0].duration_ms + total_ms(frames.subrange(1, frames.len() as int)),
    decreases frames.len(),
{
    let rest = frames.subrange(1, frames.len() as int);
    if frames.len() == 1 {
        assert(frames.drop_last() =~= Seq::empty());
        assert(total_ms(frames.drop_last()) == 0);
        assert(rest =~= Seq::empty());
    } else {
        total_without_first(frames.drop_last());
        assert(frames.drop_last().subrange(1, frames.len() - 1) =~= rest.drop_last());
    }
}

impl OpusQueue {
    /// The buffered duration is that of the frames held, fits the capacity, and
    /// a queue without receiver holds nothing. Only a queue without any limit
    /// takes more than can be counted, so that its count falls behind.
    pub open spec fn wf(self) -> bool {
        &&& self.capacity_ms < u64::MAX ==> self.buffered_ms == total_ms(self.frames@)
        &&& self.buffered_ms <= self.capacity_ms
        &&& !self.receiver_alive ==> self.frames@.len() == 0
    }

    /// Everything but the frames and their duration is as in `other`.
    pub open spec fn same_ends(self, other: OpusQueue) -> bool {
        &&& self.capacity_ms == other.capacity_ms
        &&& self.sender_handles == other.sender_handles
        &&& self.sender_alive == other.sender_alive
        &&& self.receiver_alive == other.receiver_alive
    }

    /// Whether a frame of so much media fits in beside what is buffered.
    pub open spec fn has_room(self, duration_ms: u64) -> bool {
        sum(self.buffered_ms, duration_ms) <= self.capacity_ms
    }

    /// Whether a frame of so much media is taken now.
    pub open spec fn takes(self, duration_ms: u64, cancelled: bool) -> bool {
        duration_ms <= self.capacity_ms && self.has_room(duration_ms) && self.receiver_alive
            && !cancelled
    }

    /// Whether a frame of so much media is to wait for room.
    pub open spec fn puts_off(self, duration_ms: u64, cancelled: bool) -> bool {
        duration_ms <= self.capacity_ms && !self.has_room(duration_ms) && self.receiver_alive
            && !cancelled
    }

    /// The queue with one more handle on its sending end.
    pub open spec fn with_sender(self) -> OpusQueue {
        OpusQueue {
            sender_handles: if self.sender_handles == usize::MAX {
                usize::MAX
            } else {
                (self.sender_handles + 1) as usize
            },
            ..self
        }
    }

    /// The queue with one handle less on its sending end.
    pub open spec fn without_sender(self) -> OpusQueue {
        OpusQueue {
            sender_handles: if self.sender_handles == 0 {
                0
            } else {
                (self.sender_handles - 1) as usize
            },
            sender_alive: self.sender_alive && self.sender_handles > 1,
            ..self
        }
    }

    pub open spec fn spec_snapshot(self) -> QueueSnapshot {
        QueueSnapshot { buffered_ms: self.buffered_ms, sender_alive: self.sender_alive }
    }

    /// An empty queue with one sender and a receiver.
    #[must_use]
    pub fn bounded(capacity_ms: u64) -> (queue: Self)
        ensures
            queue.wf(),
            queue.capacity_ms == capacity_ms,
            queue.frames@ == Seq::<OpusFrame>::empty(),
            queue.buffered_ms == 0,
            queue.sender_handles == 1,
            queue.sender_alive,
            queue.receiver_alive,
    {
        OpusQueue {
            capacity_ms,
            frames: VecDeque::new(),
            buffered_ms: 0,
            sender_handles: 1,
            sender_alive: true,
            receiver_alive: true,
        }
    }

    #[must_use]
    pub fn snapshot(&self) -> (snapshot: QueueSnapshot)
        ensures
            snapshot == self.spec_snapshot(),
    {
        QueueSnapshot { buffered_ms: self.buffered_ms, sender_alive: self.sender_alive }
    }

    /// Appends a frame if there is room and somebody to take it.
    pub fn offer(&mut self, frame: OpusFrame, cancelled: bool) -> (answer: Offer)
        requires
            old(self).wf(),
        ensures
            final(self).wf(),
            final(self).same_ends(*old(self)),
            answer is Accepted <==> old(self).takes(frame.duration_ms, cancelled),
            answer is Accepted ==> final(self).frames@ == old(self).frames@.push(frame)
                && final(self).buffered_ms == sum(old(self).buffered_ms, frame.duration_ms),
            !(answer is Accepted) ==> *final(self) == *old(self),
            answer matches Offer::Wait(back) ==> back == frame,
            answer is Wait <==> old(self).puts_off(frame.duration_ms, cancelled),
            answer matches Offer::Rejected(error) ==> if frame.duration_ms > old(
                self,
            ).capacity_ms {
                error matches MusicStreamError::InvalidConfig(text) && text@
                    == "Opus frame duration exceeds the encoded queue capacity"@
            } else {
                error matches MusicStreamError::StreamClosed(text) && text@
                    == "Opus receiver was replaced or stopped"@
            },
    {
        if frame.duration_ms > self.capacity_ms {
            return Offer::Rejected(
                MusicStreamError::InvalidConfig(
                    "Opus frame duration exceeds the encoded queue capacity".to_owned(),
                ),
            );
        }
        if !self.receiver_alive || cancelled {
            return Offer::Rejected(
                MusicStreamError::StreamClosed("Opus receiver was replaced or stopped".to_owned()),
            );
        }
        let buffered_ms: u64 = self.buffered_ms.saturating_add(frame.duration_ms);
        if buffered_ms > self.capacity_ms {
            return Offer::Wait(frame);
        }
        self.buffered_ms = buffered_ms;
        self.frames.push_back(frame);
        proof {
            assert(self.frames@.drop_last() =~= old(self).frames@);
        }
        Offer::Accepted
    }

    /// Takes the oldest frame.
    pub fn try_recv(&mut self) -> (frame: Option<OpusFrame>)
        requires
            old(self).wf(),
        ensures
            final(self).wf(),
            final(self).same_ends(*old(self)),
            match frame {
                Some(frame) => {
                    &&& old(self).frames@.len() > 0
                    &&& frame == old(self).frames@[0]
                    &&& final(self).frames@ == old(self).frames@.subrange(
                        1,
                        old(self).frames@.len() as int,
                    )
                    &&& final(self).buffered_ms == difference(
                        old(self).buffered_ms,
                        frame.duration_ms,
                    )
                },
                None => old(self).frames@.len() == 0 && *final(self) == *old(self),
            },
    {
        if self.frames.len() == 0 {
            return None;
        }
        let taken = self.frames.pop_front();
        match taken {
            Some(frame) => {
                proof {
                    total_without_first(old(self).frames@);
                    total_is_positive(self.frames@);
                    assert(self.frames@ =~= old(self).frames@.subrange(
                        1,
                        old(self).frames@.len() as int,
                    ));
                }
                self.buffered_ms = self.buffered_ms.saturating_sub(frame.duration_ms);
                Some(frame)
            },
            None => None,
        }
    }

    /// Removes an obsolete frame only when another frame is immediately
    /// available. The output must never discard the sole playable frame while
    /// a producer is temporarily starved.
    pub fn try_drop_oldest_if_followed(&mut self) -> (frame: Option<OpusFrame>)
        requires
            old(self).wf(),
        ensures
            final(self).wf(),
            final(self).same_ends(*old(self)),
            match frame {
                Some(frame) => {
                    &&& old(self).frames@.len() >= 2
                    &&& frame == old(self).frames@[0]
                    &&& final(self).frames@ == old(self).frames@.subrange(
                        1,
                        old(self).frames@.len() as int,
                    )
                    &&& final(self).buffered_ms == difference(
                        old(self).buffered_ms,
                        frame.duration_ms,
                    )
                },
                None => old(self).frames@.len() < 2 && *final(self) == *old(self),
            },
    {
        if self.frames.len() < 2 {
            return None;
        }
        self.try_recv()
    }

    /// One more handle keeps the sending end open.
    pub fn add_sender(&mut self)
        requires
            old(self).wf(),
        ensures
            final(self).wf(),
            *final(self) == old(self).with_sender(),
    {
        self.sender_handles = self.sender_handles.saturating_add(1);
    }

    /// A handle is gone; the last one closes the sending end. Tells whether it did.
    pub fn drop_sender(&mut self) -> (closed: bool)
        requires
            old(self).wf(),
        ensures
            final(self).wf(),
            closed == (old(self).sender_handles <= 1),
            *final(self) == old(self).without_sender(),
    {
        self.sender_handles = self.sender_handles.saturating_sub(1);
        if self.sender_handles == 0 {
            self.sender_alive = false;
            true
        } else {
            false
        }
    }

    /// Nobody will take frames any more: those held are discarded.
    pub fn drop_receiver(&mut self)
        requires
            old(self).wf(),
        ensures
            final(self).wf(),
            !final(self).receiver_alive,
            final(self).frames@ == Seq::<OpusFrame>::empty(),
            final(self).buffered_ms == 0,
            final(self).capacity_ms == old(self).capacity_ms,
            final(self).sender_handles == old(self).sender_handles,
            final(self).sender_alive == old(self).sender_alive,
    {
        self.receiver_alive = false;
        self.frames.clear();
        self.buffered_ms = 0;
    }
}

/// Frames leave in the order in which they came: once what was held before is
/// taken out, the frame that was offered is the next to leave.
pub proof fn frames_leave_in_order(held: Seq<OpusFrame>, frame: OpusFrame, taken: int)
    requires
        0 <= taken <= held.len(),
    ensures
        held.push(frame).skip(taken).last() == frame,
        held.push(frame).skip(taken).drop_last() == held.skip(taken),
        taken == held.len() ==> held.push(frame).skip(taken)[0] == frame,
{
    assert(held.push(frame).skip(taken).drop_last() =~= held.skip(taken));
}

/// A frame fits as long as what is buffered and the frame together do not exceed
/// the capacity, down to the millisecond.
pub proof fn queues_fill_to_their_capacity(queue: OpusQueue, duration_ms: u64)
    requires
        queue.wf(),
        queue.capacity_ms < u64::MAX,
    ensures
        queue.has_room(duration_ms) <==> queue.buffered_ms + duration_ms <= queue.capacity_ms,
        total_ms(queue.frames@) <= queue.capacity_ms,
{
}

/// The media of a run of frames is what its frames hold together, in whatever
/// order it is added up.
pub proof fn media_adds_up(frames: Seq<OpusFrame>)
    ensures
        total_ms(frames) == frames.fold_left(
            0int,
            |media: int, frame: OpusFrame| media + frame.duration_ms,
        ),
        frames.len() > 0 ==> total_ms(frames) == frames[0].duration_ms + total_ms(
            frames.subrange(1, frames.len() as int),
        ),
    decreases frames.len(),
{
    if frames.len() > 0 {
        media_adds_up(frames.drop_last());
        total_without_first(frames);
    }
}

/// A queue has run dry once its sender is gone and nothing is left in it, and not
/// while anything may still come or be taken.
pub proof fn queues_run_dry(queue: OpusQueue)
    requires
        queue.wf(),
        queue.capacity_ms < u64::MAX,
    ensures
        queue.sender_alive ==> !queue.spec_snapshot().drained(),
        total_ms(queue.frames@) > 0 ==> !queue.spec_snapshot().drained(),
        !queue.sender_alive && queue.frames@.len() == 0 ==> queue.spec_snapshot().drained(),
        queue.spec_snapshot().buffered_ms == total_ms(queue.frames@),
        queue.spec_snapshot().sender_alive == queue.sender_alive,
{
}

/// A frame is taken if it fits beside what is buffered; it waits if it would fit into
/// an empty queue; and it is refused if it never fits, if nobody takes frames any
/// more, or if its producer was cancelled.
pub proof fn frames_are_taken_while_they_fit(queue: OpusQueue, duration_ms: u64, cancelled: bool)
    requires
        queue.wf(),
        queue.capacity_ms < u64::MAX,
    ensures
        ({
            let wanted = queue.receiver_alive && !cancelled;
            &&& queue.takes(duration_ms, cancelled) <==> wanted && queue.buffered_ms + duration_ms
                <= queue.capacity_ms
            &&& queue.puts_off(duration_ms, cancelled) <==> wanted && duration_ms
                <= queue.capacity_ms < queue.buffered_ms + duration_ms
        }),
{
}

/// The sending end stays open as long as one of its handles is left: a handle that is
/// added and given back changes nothing, and the last one closes it. What was queued
/// stays to be taken.
pub proof fn the_last_sender_closes_the_queue(queue: OpusQueue)
    requires
        1 <= queue.sender_handles < usize::MAX,
    ensures
        queue.with_sender().sender_handles == queue.sender_handles + 1,
        queue.with_sender().sender_alive == queue.sender_alive,
        queue.with_sender().without_sender() == queue,
        queue.sender_handles == 1 ==> !queue.without_sender().sender_alive,
        queue.sender_handles > 1 ==> queue.without_sender().sender_alive == queue.sender_alive,
        queue.without_sender().sender_handles == queue.sender_handles - 1,
        queue.without_sender().frames == queue.frames,
        queue.without_sender().buffered_ms == queue.buffered_ms,
        queue.without_sender().receiver_alive == queue.receiver_alive,
{
}

} // verus!
