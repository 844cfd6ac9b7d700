//! The handoff channel: an ordered single-producer/single-consumer transfer
//! of owned frame buffers from the relay thread to the sink thread.
//!
//! The channel is a pure ordered-transfer primitive: no transformation,
//! filtering or batching happens inside it.  It is bounded, and its
//! backpressure policy is explicit: under `SendPolicy::Block` a submission to
//! a full channel is refused with `WouldBlock` (the caller waits and retries,
//! so the producer stalls); under `SendPolicy::DropOldest` the oldest queued
//! buffer is discarded to make room for the new one, and the discard is
//! counted.  Closing either end is how shutdown propagates: a closed
//! receiving end makes every later submission report `Disconnected`, and a
//! closed sending end turns an empty queue into the `EndOfStream` signal that
//! drives the drain-then-stop transition.
//!
//! Every operation is specified against `ChannelModel`, the mathematical
//! state of the channel, through the transition functions `spec_send` and
//! `spec_recv`.

use vstd::prelude::*;
use crate::frame::FrameBuffer;

verus! {

/// What a producer does when the channel is full.
#[derive(Clone, Copy, Debug, PartialEq, Eq, Structural)]
pub enum SendPolicy {
    /// A submission to a full channel is refused with `WouldBlock`; the
    /// producer waits until the consumer makes room.
    Block,
    /// The oldest queued buffer is discarded to make room for the new one.
    DropOldest,
}

/// The result of one submission.
#[derive(Clone, Copy, Debug, PartialEq, Eq, Structural)]
pub enum SendOutcome {
    /// The buffer was queued.
    Accepted,
    /// The buffer was queued and the oldest queued buffer was discarded.
    DroppedOldest,
    /// The channel is full under `SendPolicy::Block`; nothing changed.
    WouldBlock,
    /// The receiving end has been closed; nothing changed.
    Disconnected,
}

/// The result of one receive, at the level of the model.
pub enum RecvModelOutcome {
    /// The oldest queued buffer, removed from the queue.
    Received(Seq<u8>),
    /// The queue is empty but the sending end is still open.
    WouldBlock,
    /// The queue is empty and the sending end has been closed.
    EndOfStream,
}

/// The result of one receive.
pub enum RecvOutcome {
    /// The oldest queued buffer, removed from the queue.
    Received(FrameBuffer),
    /// The queue is empty but the sending end is still open; a blocking
    /// receiver would wait here.
    WouldBlock,
    /// The queue is empty and the sending end has been closed: no buffer
    /// will ever arrive again.
    EndOfStream,
}

impl View for RecvOutcome {
    type V = RecvModelOutcome;

    open spec fn view(&self) -> RecvModelOutcome {
        match self {
            RecvOutcome::Received(b) => RecvModelOutcome::Received(b@),
            RecvOutcome::WouldBlock => RecvModelOutcome::WouldBlock,
            RecvOutcome::EndOfStream => RecvModelOutcome::EndOfStream,
        }
    }
}

/// The mathematical state of a handoff channel: the queued buffers in FIFO
/// order (oldest first), the bound, the backpressure policy, whether each
/// end is still open, and how many buffers `DropOldest` has discarded.
#[verifier::ext_equal]
pub struct ChannelModel {
    pub buffers: Seq<Seq<u8>>,
    pub capacity: nat,
    pub policy: SendPolicy,
    pub sender_open: bool,
    pub receiver_open: bool,
    pub dropped: nat,
}

impl ChannelModel {
    /// The same channel with a different queue.
    pub open spec fn with_buffers(self, buffers: Seq<Seq<u8>>) -> ChannelModel {
        ChannelModel {
            buffers,
            capacity: self.capacity,
            policy: self.policy,
            sender_open: self.sender_open,
            receiver_open: self.receiver_open,
            dropped: self.dropped,
        }
    }

    /// The same channel with a different queue and one more counted discard
    /// (the counter saturates at `u64::MAX`, as the executable counter does).
    pub open spec fn with_buffers_one_dropped(self, buffers: Seq<Seq<u8>>) -> ChannelModel {
        ChannelModel {
            buffers,
            capacity: self.capacity,
            policy: self.policy,
            sender_open: self.sender_open,
            receiver_open: self.receiver_open,
            dropped: if self.dropped < u64::MAX { self.dropped + 1 } else { self.dropped },
        }
    }

    /// The same channel with the sending end closed.
    pub open spec fn with_sender_closed(self) -> ChannelModel {
        ChannelModel {
            buffers: self.buffers,
            capacity: self.capacity,
            policy: self.policy,
            sender_open: false,
            receiver_open: self.receiver_open,
            dropped: self.dropped,
        }
    }

    /// The same channel with the receiving end closed.
    pub open spec fn with_receiver_closed(self) -> ChannelModel {
        ChannelModel {
            buffers: self.buffers,
            capacity: self.capacity,
            policy: self.policy,
            sender_open: self.sender_open,
            receiver_open: false,
            dropped: self.dropped,
        }
    }
}

/// A freshly opened channel: empty, both ends open, nothing discarded.
pub open spec fn init_model(capacity: nat, policy: SendPolicy) -> ChannelModel {
    ChannelModel {
        buffers: Seq::empty(),
        capacity,
        policy,
        sender_open: true,
        receiver_open: true,
        dropped: 0,
    }
}

/// The channel invariant: a positive bound that the queue never exceeds.
pub open spec fn inv(m: ChannelModel) -> bool {
    &&& 1 <= m.capacity
    &&& m.buffers.len() <= m.capacity
    &&& m.dropped <= u64::MAX
}

/// One submission: refused when the receiving end is closed, queued while
/// there is room, and on a full channel either refused (`Block`) or queued
/// in place of the discarded oldest buffer (`DropOldest`).
pub open spec fn spec_send(m: ChannelModel, data: Seq<u8>) -> (ChannelModel, SendOutcome) {
    if !m.receiver_open {
        (m, SendOutcome::Disconnected)
    } else if m.buffers.len() < m.capacity {
        (m.with_buffers(m.buffers.push(data)), SendOutcome::Accepted)
    } else if m.policy is DropOldest {
        (
            m.with_buffers_one_dropped(m.buffers.drop_first().push(data)),
            SendOutcome::DroppedOldest,
        )
    } else {
        (m, SendOutcome::WouldBlock)
    }
}

/// One receive: the oldest queued buffer if there is one; otherwise
/// end-of-stream if the sending end is closed, and "wait" if it is not.
pub open spec fn spec_recv(m: ChannelModel) -> (ChannelModel, RecvModelOutcome) {
    if m.buffers.len() > 0 {
        (m.with_buffers(m.buffers.drop_first()), RecvModelOutcome::Received(m.buffers.first()))
    } else if !m.sender_open {
        (m, RecvModelOutcome::EndOfStream)
    } else {
        (m, RecvModelOutcome::WouldBlock)
    }
}

/// A series of submissions, oldest first.
pub open spec fn spec_send_all(m: ChannelModel, frames: Seq<Seq<u8>>) -> ChannelModel
    decreases frames.len(),
{
    if frames.len() == 0 {
        m
    } else {
        spec_send_all(spec_send(m, frames.first()).0, frames.drop_first())
    }
}

/// Receiving until the queue is empty: the final state and everything
/// received, oldest first.
pub open spec fn spec_drain(m: ChannelModel) -> (ChannelModel, Seq<Seq<u8>>)
    decreases m.buffers.len(),
{
    if m.buffers.len() == 0 {
        (m, Seq::empty())
    } else {
        let rest = spec_drain(spec_recv(m).0);
        (rest.0, seq![m.buffers.first()] + rest.1)
    }
}

/// The newest part of a queue: all of it while it fits the bound, and the
/// last `cap` entries once it does not.
pub open spec fn latest_of(total: Seq<Seq<u8>>, cap: nat) -> Seq<Seq<u8>> {
    if total.len() <= cap {
        total
    } else {
        total.skip(total.len() - cap)
    }
}

/// Under the `Block` policy a stalled consumer stalls the producer: once
/// the channel is full, a series of submissions of any length is refused
/// outright — occupancy stays at the bound, nothing is dropped, and the
/// queue's contents do not change.
pub proof fn lemma_block_policy_stalls_producer(m: ChannelModel, frames: Seq<Seq<u8>>)
    requires
        inv(m),
        m.policy is Block,
        m.receiver_open,
        m.buffers.len() == m.capacity,
    ensures
        spec_send_all(m, frames) == m,
    decreases frames.len(),
{
    if frames.len() > 0 {
        assert(spec_send(m, frames.first()).0 == m);
        lemma_block_policy_stalls_producer(m, frames.drop_first());
    }
}

/// Under the `DropOldest` policy a stalled consumer costs exactly the
/// oldest buffers: after a series of submissions the channel holds the
/// newest part of the combined old-and-new sequence — all of it while it
/// fits, else the last `capacity` entries — still in FIFO order, with the
/// ends and the bound untouched.
pub proof fn lemma_drop_oldest_keeps_latest(m: ChannelModel, frames: Seq<Seq<u8>>)
    requires
        inv(m),
        m.policy is DropOldest,
        m.receiver_open,
    ensures
        inv(spec_send_all(m, frames)),
        spec_send_all(m, frames).buffers == latest_of(m.buffers + frames, m.capacity),
        spec_send_all(m, frames).capacity == m.capacity,
        spec_send_all(m, frames).policy == m.policy,
        spec_send_all(m, frames).sender_open == m.sender_open,
        spec_send_all(m, frames).receiver_open == m.receiver_open,
    decreases frames.len(),
{
    let total = m.buffers + frames;
    if frames.len() == 0 {
        assert(total =~= m.buffers);
    } else {
        let f0 = frames.first();
        let m1 = spec_send(m, f0).0;
        let total1 = m1.buffers + frames.drop_first();
        lemma_drop_oldest_keeps_latest(m1, frames.drop_first());
        if m.buffers.len() < m.capacity {
            assert(total1 =~= total);
        } else {
            assert(m1.buffers =~= m.buffers.drop_first().push(f0));
            assert(total1 =~= total.skip(1));
            if total1.len() <= m.capacity {
                assert(total.len() == m.capacity + frames.len());
                assert(latest_of(total, m.capacity) =~= total.skip(1));
            } else {
                assert(total1.skip(total1.len() - m.capacity) =~= total.skip(
                    total.len() - m.capacity,
                ));
            }
        }
    }
}

/// While a series of submissions fits the bound, every one is accepted and
/// simply appended, whatever the policy: the queue afterwards is the old
/// queue followed by the new frames, in order, with nothing dropped.
pub proof fn lemma_send_all_within_bound(m: ChannelModel, frames: Seq<Seq<u8>>)
    requires
        inv(m),
        m.receiver_open,
        m.buffers.len() + frames.len() <= m.capacity,
    ensures
        inv(spec_send_all(m, frames)),
        spec_send_all(m, frames).buffers == m.buffers + frames,
        spec_send_all(m, frames).capacity == m.capacity,
        spec_send_all(m, frames).policy == m.policy,
        spec_send_all(m, frames).sender_open == m.sender_open,
        spec_send_all(m, frames).receiver_open == m.receiver_open,
        spec_send_all(m, frames).dropped == m.dropped,
    decreases frames.len(),
{
    if frames.len() == 0 {
        assert(m.buffers + frames =~= m.buffers);
    } else {
        let m1 = spec_send(m, frames.first()).0;
        assert(m1.buffers =~= m.buffers.push(frames.first()));
        lemma_send_all_within_bound(m1, frames.drop_first());
        assert(m1.buffers + frames.drop_first() =~= m.buffers + frames);
    }
}

/// The channel loses, duplicates and reorders nothing: sending a series of
/// frames that fits the bound and then closing the sending end hands the
/// receiver exactly the old queue followed by those frames, in order, and
/// then the end-of-stream signal.
pub proof fn lemma_channel_roundtrip(m: ChannelModel, frames: Seq<Seq<u8>>)
    requires
        inv(m),
        m.receiver_open,
        m.buffers.len() + frames.len() <= m.capacity,
    ensures
        spec_drain(spec_send_all(m, frames).with_sender_closed()).1 == m.buffers + frames,
        spec_recv(spec_drain(spec_send_all(m, frames).with_sender_closed()).0).1
            is EndOfStream,
{
    lemma_send_all_within_bound(m, frames);
    let closed = spec_send_all(m, frames).with_sender_closed();
    assert(closed.buffers == m.buffers + frames);
    lemma_closed_sender_drains_to_end(closed);
}

/// Once the sending end has closed — after a device fault or a shutdown —
/// receiving yields exactly the already-queued buffers, in order, and then
/// the end-of-stream signal: the consumer reaches end-of-stream after
/// finitely many receives and is never left waiting.
pub proof fn lemma_closed_sender_drains_to_end(m: ChannelModel)
    requires
        inv(m),
        !m.sender_open,
    ensures
        spec_drain(m).1 == m.buffers,
        spec_drain(m).0.buffers.len() == 0,
        spec_recv(spec_drain(m).0).1 is EndOfStream,
        inv(spec_drain(m).0),
    decreases m.buffers.len(),
{
    if m.buffers.len() == 0 {
        assert(spec_drain(m).1 =~= m.buffers);
    } else {
        let m1 = spec_recv(m).0;
        lemma_closed_sender_drains_to_end(m1);
        assert(seq![m.buffers.first()] + m.buffers.drop_first() =~= m.buffers);
    }
}

/// The handoff channel itself: a bounded FIFO queue of owned frame buffers
/// with open/closed state for each end.
pub struct HandoffChannel {
    queue: Vec<FrameBuffer>,
    capacity: usize,
    policy: SendPolicy,
    sender_open: bool,
    receiver_open: bool,
    dropped: u64,
}

impl View for HandoffChannel {
    type V = ChannelModel;

    closed spec fn view(&self) -> ChannelModel {
        ChannelModel {
            buffers: self.queue@.map(|i: int, b: FrameBuffer| b@),
            capacity: self.capacity as nat,
            policy: self.policy,
            sender_open: self.sender_open,
            receiver_open: self.receiver_open,
            dropped: self.dropped as nat,
        }
    }
}

impl HandoffChannel {
    /// The channel is well formed: its model satisfies the invariant.
    pub open spec fn wf(&self) -> bool {
        inv(self@)
    }

    /// Opens a channel with the given bound and backpressure policy.
    pub fn new(capacity: usize, policy: SendPolicy) -> (c: HandoffChannel)
        requires
            capacity >= 1,
        ensures
            c.wf(),
            c@ == init_model(capacity as nat, policy),
    {
        let c = HandoffChannel {
            queue: Vec::new(),
            capacity,
            policy,
            sender_open: true,
            receiver_open: true,
            dropped: 0,
        };
        proof {
            assert(c@.buffers =~= init_model(capacity as nat, policy).buffers);
            assert(c@ =~= init_model(capacity as nat, policy));
        }
        c
    }

    /// Submits one buffer; the producer side of the transfer.
    pub fn send(&mut self, buf: FrameBuffer) -> (r: SendOutcome)
        requires
            old(self).wf(),
        ensures
            final(self).wf(),
            final(self)@ == spec_send(old(self)@, buf@).0,
            r == spec_send(old(self)@, buf@).1,
    {
        if !self.receiver_open {
            return SendOutcome::Disconnected;
        }
        if self.queue.len() < self.capacity {
            let ghost prev = self@;
            self.queue.push(buf);
            proof {
                assert(self@.buffers =~= prev.buffers.push(buf@));
                assert(self@ =~= spec_send(prev, buf@).0);
            }
            SendOutcome::Accepted
        } else if self.policy == SendPolicy::DropOldest {
            let ghost prev = self@;
            let _oldest = self.queue.remove(0);
            self.queue.push(buf);
            if self.dropped < u64::MAX {
                self.dropped = self.dropped + 1;
            }
            proof {
                assert(self@.buffers =~= prev.buffers.drop_first().push(buf@));
                assert(self@ =~= spec_send(prev, buf@).0);
            }
            SendOutcome::DroppedOldest
        } else {
            SendOutcome::WouldBlock
        }
    }

    /// Takes the oldest queued buffer, or reports why none is available;
    /// the consumer side of the transfer.
    pub fn recv(&mut self) -> (r: RecvOutcome)
        requires
            old(self).wf(),
        ensures
            final(self).wf(),
            final(self)@ == spec_recv(old(self)@).0,
            r@ == spec_recv(old(self)@).1,
    {
        if self.queue.len() > 0 {
            let ghost prev = self@;
            let b = self.queue.remove(0);
            proof {
                assert(self@.buffers =~= prev.buffers.drop_first());
                assert(self@ =~= spec_recv(prev).0);
            }
            RecvOutcome::Received(b)
        } else if !self.sender_open {
            RecvOutcome::EndOfStream
        } else {
            RecvOutcome::WouldBlock
        }
    }

    /// Closes the sending end: already-queued buffers can still be received,
    /// and after them the receiver sees `EndOfStream`.
    pub fn close_sender(&mut self)
        requires
            old(self).wf(),
        ensures
            final(self).wf(),
            final(self)@ == old(self)@.with_sender_closed(),
    {
        self.sender_open = false;
        proof {
            assert(self@ =~= old(self)@.with_sender_closed());
        }
    }

    /// Closes the receiving end: every later submission reports
    /// `Disconnected` and leaves the channel unchanged.
    pub fn close_receiver(&mut self)
        requires
            old(self).wf(),
        ensures
            final(self).wf(),
            final(self)@ == old(self)@.with_receiver_closed(),
    {
        self.receiver_open = false;
        proof {
            assert(self@ =~= old(self)@.with_receiver_closed());
        }
    }

    /// How many buffers are queued right now.
    pub fn len(&self) -> (n: usize)
        ensures
            n == self@.buffers.len(),
    {
        self.queue.len()
    }

    /// How many buffers `DropOldest` has discarded (saturating).
    pub fn dropped_count(&self) -> (n: u64)
        ensures
            n == self@.dropped,
    {
        self.dropped
    }

    /// Whether the sending end is still open.
    pub fn is_sender_open(&self) -> (b: bool)
        ensures
            b == self@.sender_open,
    {
        self.sender_open
    }

    /// Whether the receiving end is still open.
    pub fn is_receiver_open(&self) -> (b: bool)
        ensures
            b == self@.receiver_open,
    {
        self.receiver_open
    }
}

} // verus!
