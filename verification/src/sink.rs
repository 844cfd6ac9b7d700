//! The stream sink: the consumer side of the handoff.
//!
//! The sink runs on the main thread.  It blocks on the channel's receive
//! operation; each received frame buffer is wrapped as a timed media sample
//! (ownership moves into the sample, no copy) and injected into the
//! streaming pipeline by the surrounding program.  A rejected injection is
//! a recoverable, per-frame condition: the frame is dropped, the failure is
//! counted for the operator-facing log, and the loop continues — a single
//! bad frame never stops the stream.  End-of-stream from the channel ends
//! the loop cleanly and hands control to pipeline teardown.

use vstd::prelude::*;
use crate::channel::{HandoffChannel, RecvOutcome};
use crate::frame::{FrameBuffer, MediaSample};

verus! {

/// The payloads of a sequence of media samples, in order.
pub open spec fn sample_payloads(s: Seq<MediaSample>) -> Seq<Seq<u8>> {
    s.map(|i: int, m: MediaSample| m.payload@)
}

/// The consumer's state machine: whether the receive loop still runs, the
/// nominal duration of one frame (which spaces the timestamps), and the
/// running counts of samples made, injections confirmed and injections
/// rejected.
pub struct StreamSink {
    running: bool,
    frame_duration_ns: u64,
    samples_made: u64,
    injected: u64,
    inject_failures: u64,
}

impl StreamSink {
    /// Whether the receive loop still runs.
    pub closed spec fn spec_running(&self) -> bool {
        self.running
    }

    /// The nominal duration of one frame in nanoseconds.
    pub closed spec fn spec_duration(&self) -> nat {
        self.frame_duration_ns as nat
    }

    /// How many samples the sink has made so far.
    pub closed spec fn spec_samples_made(&self) -> nat {
        self.samples_made as nat
    }

    /// How many injections the pipeline has confirmed.
    pub closed spec fn spec_injected(&self) -> nat {
        self.injected as nat
    }

    /// How many injections the pipeline has rejected.
    pub closed spec fn spec_failures(&self) -> nat {
        self.inject_failures as nat
    }

    /// The sink invariant: timestamps advance by at least one nanosecond
    /// per frame, and every sample made has at most one recorded outcome.
    pub open spec fn wf(&self) -> bool {
        &&& self.spec_duration() >= 1
        &&& self.spec_injected() + self.spec_failures() <= self.spec_samples_made()
    }

    /// A sink for a stream whose frames last `frame_duration_ns` each.
    pub fn new(frame_duration_ns: u64) -> (r: StreamSink)
        requires
            frame_duration_ns >= 1,
        ensures
            r.wf(),
            r.spec_running(),
            r.spec_duration() == frame_duration_ns,
            r.spec_samples_made() == 0,
            r.spec_injected() == 0,
            r.spec_failures() == 0,
    {
        StreamSink {
            running: true,
            frame_duration_ns,
            samples_made: 0,
            injected: 0,
            inject_failures: 0,
        }
    }

    /// Wraps one received frame buffer as a timed media sample.  The buffer
    /// moves into the sample unchanged; the timestamp is the sample's index
    /// times the frame duration, so consecutive samples' timestamps strictly
    /// increase.
    pub fn make_sample(&mut self, buf: FrameBuffer) -> (s: MediaSample)
        requires
            old(self).wf(),
            (old(self).spec_samples_made() + 1) * old(self).spec_duration() <= u64::MAX,
        ensures
            final(self).wf(),
            s.payload@ == buf@,
            s.pts_ns == old(self).spec_samples_made() * old(self).spec_duration(),
            final(self).spec_samples_made() == old(self).spec_samples_made() + 1,
            final(self).spec_running() == old(self).spec_running(),
            final(self).spec_duration() == old(self).spec_duration(),
            final(self).spec_injected() == old(self).spec_injected(),
            final(self).spec_failures() == old(self).spec_failures(),
    {
        proof {
            let s = old(self).spec_samples_made();
            let d = old(self).spec_duration();
            assert((s + 1) * d == s * d + d) by (nonlinear_arith);
            assert(s + 1 <= (s + 1) * d) by (nonlinear_arith)
                requires
                    d >= 1,
                    s >= 0,
            ;
        }
        let pts = self.samples_made * self.frame_duration_ns;
        self.samples_made = self.samples_made + 1;
        MediaSample { payload: buf, pts_ns: pts }
    }

    /// Records the pipeline's verdict on the latest injected sample.  A
    /// rejection only drops that one frame: it is counted and the loop keeps
    /// running, so later frames continue to flow.
    pub fn record_injection(&mut self, accepted: bool)
        requires
            old(self).wf(),
            old(self).spec_injected() + old(self).spec_failures()
                < old(self).spec_samples_made(),
        ensures
            final(self).wf(),
            accepted ==> final(self).spec_injected() == old(self).spec_injected() + 1
                && final(self).spec_failures() == old(self).spec_failures(),
            !accepted ==> final(self).spec_failures() == old(self).spec_failures() + 1
                && final(self).spec_injected() == old(self).spec_injected(),
            final(self).spec_running() == old(self).spec_running(),
            final(self).spec_duration() == old(self).spec_duration(),
            final(self).spec_samples_made() == old(self).spec_samples_made(),
    {
        if accepted {
            self.injected = self.injected + 1;
        } else {
            self.inject_failures = self.inject_failures + 1;
        }
    }

    /// The channel reported end-of-stream: the receive loop is over and the
    /// sink hands control to pipeline teardown.
    pub fn on_end_of_stream(&mut self)
        requires
            old(self).wf(),
        ensures
            final(self).wf(),
            !final(self).spec_running(),
            final(self).spec_duration() == old(self).spec_duration(),
            final(self).spec_samples_made() == old(self).spec_samples_made(),
            final(self).spec_injected() == old(self).spec_injected(),
            final(self).spec_failures() == old(self).spec_failures(),
    {
        self.running = false;
    }

    /// After the sending end has closed, drains every queued buffer in
    /// order, wraps each as a timed sample, and stops on end-of-stream.
    /// The drain ends after exactly as many receives as there are queued
    /// buffers, so the sink never hangs once the producer is gone.
    pub fn drain_remaining(&mut self, chan: &mut HandoffChannel) -> (samples: Vec<MediaSample>)
        requires
            old(self).wf(),
            old(self).spec_running(),
            old(chan).wf(),
            !old(chan)@.sender_open,
            (old(self).spec_samples_made() + old(chan)@.buffers.len())
                * old(self).spec_duration() <= u64::MAX,
        ensures
            final(self).wf(),
            final(chan).wf(),
            sample_payloads(samples@) == old(chan)@.buffers,
            forall|k: int|
                0 <= k < samples@.len() ==> samples@[k].pts_ns
                    == (old(self).spec_samples_made() + k) * old(self).spec_duration(),
            final(chan)@ == old(chan)@.with_buffers(Seq::empty()),
            !final(self).spec_running(),
            final(self).spec_duration() == old(self).spec_duration(),
            final(self).spec_samples_made()
                == old(self).spec_samples_made() + old(chan)@.buffers.len(),
            final(self).spec_injected() == old(self).spec_injected(),
            final(self).spec_failures() == old(self).spec_failures(),
    {
        let ghost s0 = old(self).spec_samples_made();
        let ghost d = old(self).spec_duration();
        let ghost all = old(chan)@.buffers;
        let mut samples: Vec<MediaSample> = Vec::new();
        loop
            invariant
                self.wf(),
                chan.wf(),
                self.spec_running(),
                !chan@.sender_open,
                chan@.capacity == old(chan)@.capacity,
                chan@.policy == old(chan)@.policy,
                chan@.receiver_open == old(chan)@.receiver_open,
                chan@.dropped == old(chan)@.dropped,
                self.spec_duration() == d,
                self.spec_injected() == old(self).spec_injected(),
                self.spec_failures() == old(self).spec_failures(),
                self.spec_samples_made() == s0 + samples@.len(),
                sample_payloads(samples@) + chan@.buffers =~= all,
                forall|k: int|
                    0 <= k < samples@.len() ==> samples@[k].pts_ns == (s0 + k) * d,
                (s0 + all.len()) * d <= u64::MAX,
            ensures
                chan@.buffers.len() == 0,
                sample_payloads(samples@) =~= all,
                self.spec_samples_made() == s0 + all.len(),
                forall|k: int|
                    0 <= k < samples@.len() ==> samples@[k].pts_ns == (s0 + k) * d,
                self.spec_duration() == d,
                self.spec_injected() == old(self).spec_injected(),
                self.spec_failures() == old(self).spec_failures(),
                self.wf(),
                chan.wf(),
                self.spec_running(),
                chan@.capacity == old(chan)@.capacity,
                chan@.policy == old(chan)@.policy,
                chan@.receiver_open == old(chan)@.receiver_open,
                chan@.dropped == old(chan)@.dropped,
                !chan@.sender_open,
            decreases chan@.buffers.len(),
        {
            let ghost before = chan@.buffers;
            match chan.recv() {
                RecvOutcome::Received(buf) => {
                    proof {
                        let s = self.spec_samples_made();
                        assert(s + 1 <= s0 + all.len());
                        assert((s + 1) * d <= (s0 + all.len()) * d) by (nonlinear_arith)
                            requires
                                s + 1 <= s0 + all.len(),
                                d >= 0,
                        ;
                    }
                    let ghost prev_samples = samples@;
                    let sample = self.make_sample(buf);
                    samples.push(sample);
                    proof {
                        assert(sample_payloads(samples@) =~= sample_payloads(
                            prev_samples,
                        ).push(before.first()));
                        assert(sample_payloads(samples@) + chan@.buffers =~= all);
                    }
                },
                RecvOutcome::EndOfStream => {
                    break;
                },
                RecvOutcome::WouldBlock => {
                    proof {
                        assert(false);
                    }
                    break;
                },
            }
        }
        self.on_end_of_stream();
        proof {
            assert(chan@ =~= old(chan)@.with_buffers(Seq::empty()));
        }
        samples
    }

    /// Whether the receive loop still runs.
    pub fn is_running(&self) -> (b: bool)
        ensures
            b == self.spec_running(),
    {
        self.running
    }

    /// How many samples the sink has made so far.
    pub fn samples_made_count(&self) -> (n: u64)
        ensures
            n == self.spec_samples_made(),
    {
        self.samples_made
    }

    /// How many injections the pipeline has confirmed.
    pub fn injected_count(&self) -> (n: u64)
        ensures
            n == self.spec_injected(),
    {
        self.injected
    }

    /// How many injections the pipeline has rejected.
    pub fn failure_count(&self) -> (n: u64)
        ensures
            n == self.spec_failures(),
    {
        self.inject_failures
    }
}

} // verus!
