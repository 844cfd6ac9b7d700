//! The frame relay: the producer side of the handoff.
//!
//! The relay runs on a dedicated thread.  Each turn it polls the frame
//! source (a blocking call made by the surrounding program), and for every
//! color frame in the returned set it copies the raw payload into an owned
//! `FrameBuffer` and submits it to the handoff channel, in capture order.
//! A buffer whose length is not the negotiated frame length cannot satisfy
//! the frame-buffer invariant; such a frame is not forwarded, only counted.
//! A fatal device error ends the polling loop: the relay faults and closes
//! the sending end of the channel, which lets the sink drain and stop
//! instead of blocking forever.

use vstd::prelude::*;
use crate::channel::{ChannelModel, HandoffChannel, SendOutcome, spec_send};
use crate::frame::FrameBuffer;

verus! {

/// The camera session as the relay sees it: `Active` exactly while the
/// polling loop runs; a device error makes it `Faulted` and a cooperative
/// shutdown returns it to `Inactive`.
#[derive(Clone, Copy, Debug, PartialEq, Eq, Structural)]
pub enum CameraSessionState {
    Inactive,
    Active,
    Faulted,
}

/// What became of one raw frame handed to the relay.
#[derive(Clone, Copy, Debug, PartialEq, Eq, Structural)]
pub enum RelayFrameResult {
    /// The frame was copied into a buffer and submitted; the channel's
    /// outcome is inside.
    Submitted(SendOutcome),
    /// The frame's length is not the negotiated frame length; it was
    /// counted and not forwarded.
    SkippedMalformed,
}

/// The views of a sequence of owned byte buffers, in order.
pub open spec fn views_of_vecs(s: Seq<Vec<u8>>) -> Seq<Seq<u8>> {
    s.map(|i: int, v: Vec<u8>| v@)
}

/// The channel after a whole frame set has been relayed: every frame of the
/// negotiated length is submitted in capture order, every other frame is
/// passed over.
pub open spec fn spec_forward_set(m: ChannelModel, frames: Seq<Seq<u8>>, flen: nat) -> ChannelModel
    decreases frames.len(),
{
    if frames.len() == 0 {
        m
    } else {
        let m1 = if frames.first().len() == flen {
            spec_send(m, frames.first()).0
        } else {
            m
        };
        spec_forward_set(m1, frames.drop_first(), flen)
    }
}

/// How many frames of a set do not have the negotiated length.
pub open spec fn count_malformed(frames: Seq<Seq<u8>>, flen: nat) -> nat
    decreases frames.len(),
{
    if frames.len() == 0 {
        0
    } else {
        (if frames.first().len() == flen {
            0nat
        } else {
            1nat
        }) + count_malformed(frames.drop_first(), flen)
    }
}

/// The producer's state machine: the camera session state, the negotiated
/// frame length, and a count of frames refused for their length.
pub struct FrameRelay {
    state: CameraSessionState,
    frame_len: usize,
    skipped: u64,
}

impl FrameRelay {
    /// The camera session state.
    pub closed spec fn spec_state(&self) -> CameraSessionState {
        self.state
    }

    /// The negotiated frame length in bytes.
    pub closed spec fn spec_frame_len(&self) -> nat {
        self.frame_len as nat
    }

    /// How many frames were refused because of their length.
    pub closed spec fn spec_skipped(&self) -> nat {
        self.skipped as nat
    }

    /// A relay for a stream whose frames are `frame_len` bytes long.  The
    /// session starts `Inactive`; it is activated when streaming starts.
    pub fn new(frame_len: usize) -> (r: FrameRelay)
        ensures
            r.spec_state() is Inactive,
            r.spec_frame_len() == frame_len,
            r.spec_skipped() == 0,
    {
        FrameRelay { state: CameraSessionState::Inactive, frame_len, skipped: 0 }
    }

    /// Marks the camera session active; the polling loop may now run.
    pub fn activate(&mut self)
        requires
            old(self).spec_state() is Inactive,
        ensures
            final(self).spec_state() is Active,
            final(self).spec_frame_len() == old(self).spec_frame_len(),
            final(self).spec_skipped() == old(self).spec_skipped(),
    {
        self.state = CameraSessionState::Active;
    }

    /// Relays one raw frame: copies it into an owned buffer and submits it,
    /// unless its length is not the negotiated frame length, in which case
    /// it is counted and the channel is left untouched.
    pub fn relay_frame(&mut self, chan: &mut HandoffChannel, raw: Vec<u8>) -> (r: RelayFrameResult)
        requires
            old(self).spec_state() is Active,
            old(self).spec_skipped() < u64::MAX,
            old(chan).wf(),
        ensures
            final(chan).wf(),
            final(self).spec_state() is Active,
            final(self).spec_frame_len() == old(self).spec_frame_len(),
            raw@.len() == old(self).spec_frame_len() ==> {
                &&& final(chan)@ == spec_send(old(chan)@, raw@).0
                &&& r == RelayFrameResult::Submitted(spec_send(old(chan)@, raw@).1)
                &&& final(self).spec_skipped() == old(self).spec_skipped()
            },
            raw@.len() != old(self).spec_frame_len() ==> {
                &&& final(chan)@ == old(chan)@
                &&& r == RelayFrameResult::SkippedMalformed
                &&& final(self).spec_skipped() == old(self).spec_skipped() + 1
            },
    {
        match FrameBuffer::from_raw(raw, self.frame_len) {
            Ok(buf) => {
                let outcome = chan.send(buf);
                RelayFrameResult::Submitted(outcome)
            },
            Err(_) => {
                self.skipped = self.skipped + 1;
                RelayFrameResult::SkippedMalformed
            },
        }
    }

    /// Relays one whole frame set in capture order: each frame of the
    /// negotiated length is submitted, the others are counted and passed
    /// over.  Submissions after the receiving end has closed are no-ops in
    /// the channel, so the relay never panics or deadlocks on a closed
    /// channel.
    pub fn forward_frame_set(&mut self, chan: &mut HandoffChannel, frames: Vec<Vec<u8>>)
        requires
            old(self).spec_state() is Active,
            old(self).spec_skipped() + frames@.len() <= u64::MAX,
            old(chan).wf(),
        ensures
            final(chan).wf(),
            final(self).spec_state() is Active,
            final(self).spec_frame_len() == old(self).spec_frame_len(),
            final(chan)@ == spec_forward_set(
                old(chan)@,
                views_of_vecs(frames@),
                old(self).spec_frame_len(),
            ),
            final(self).spec_skipped() == old(self).spec_skipped() + count_malformed(
                views_of_vecs(frames@),
                old(self).spec_frame_len(),
            ),
    {
        let ghost flen = self.spec_frame_len();
        let ghost goal_chan = spec_forward_set(old(chan)@, views_of_vecs(frames@), flen);
        let ghost goal_skipped = old(self).spec_skipped() + count_malformed(
            views_of_vecs(frames@),
            flen,
        );
        let mut rest = frames;
        while rest.len() > 0
            invariant
                self.spec_state() is Active,
                self.spec_frame_len() == flen,
                chan.wf(),
                self.spec_skipped() + rest@.len() <= u64::MAX,
                spec_forward_set(chan@, views_of_vecs(rest@), flen) == goal_chan,
                self.spec_skipped() + count_malformed(views_of_vecs(rest@), flen)
                    == goal_skipped,
            decreases rest@.len(),
        {
            let ghost prev_rest = rest@;
            let raw = rest.remove(0);
            proof {
                assert(views_of_vecs(prev_rest.remove(0)) =~= views_of_vecs(
                    prev_rest,
                ).drop_first());
                assert(views_of_vecs(prev_rest).first() == raw@);
            }
            self.relay_frame(chan, raw);
        }
        proof {
            assert(views_of_vecs(rest@) =~= Seq::<Seq<u8>>::empty());
        }
    }

    /// A fatal device error: the polling loop is over.  The session faults
    /// and the sending end of the channel is closed, so the sink drains
    /// what is queued and then sees end-of-stream instead of waiting
    /// forever.
    pub fn on_device_fault(&mut self, chan: &mut HandoffChannel)
        requires
            old(self).spec_state() is Active,
            old(chan).wf(),
        ensures
            final(chan).wf(),
            final(self).spec_state() is Faulted,
            final(self).spec_frame_len() == old(self).spec_frame_len(),
            final(self).spec_skipped() == old(self).spec_skipped(),
            final(chan)@ == old(chan)@.with_sender_closed(),
    {
        self.state = CameraSessionState::Faulted;
        chan.close_sender();
    }

    /// A cooperative shutdown: the session goes back to `Inactive` and the
    /// sending end of the channel is closed, which propagates the shutdown
    /// to the sink as end-of-stream.
    pub fn shut_down(&mut self, chan: &mut HandoffChannel)
        requires
            old(self).spec_state() is Active,
            old(chan).wf(),
        ensures
            final(chan).wf(),
            final(self).spec_state() is Inactive,
            final(self).spec_frame_len() == old(self).spec_frame_len(),
            final(self).spec_skipped() == old(self).spec_skipped(),
            final(chan)@ == old(chan)@.with_sender_closed(),
    {
        self.state = CameraSessionState::Inactive;
        chan.close_sender();
    }

    /// How many frames were refused because of their length.
    pub fn skipped_count(&self) -> (n: u64)
        ensures
            n == self.spec_skipped(),
    {
        self.skipped
    }

    /// The camera session state.
    pub fn state(&self) -> (s: CameraSessionState)
        ensures
            s == self.spec_state(),
    {
        self.state
    }
}

} // verus!
