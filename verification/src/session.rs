//! A whole streaming session, composed from the verified parts: relay,
//! channel, sink and lifecycle.
//!
//! `run_session` plays one session out in program order — the interleaving
//! of the two threads collapses to one handoff at a time, which is exactly
//! the channel's logically single-slot discipline — and its contract states
//! the end-to-end behavior: every captured frame of the negotiated length is
//! wrapped as a timed sample and offered to the pipeline in capture order
//! with strictly increasing timestamps; a rejected injection costs exactly
//! that one frame; and the session ends in `Stopped`.

use vstd::prelude::*;
use crate::channel::{HandoffChannel, RecvOutcome, SendPolicy};
use crate::config::{StreamConfig, spec_frame_duration_ns};
use crate::frame::MediaSample;
use crate::lifecycle::{LifecycleEvent, Phase, lifecycle_step};
use crate::relay::{FrameRelay, count_malformed, views_of_vecs};
use crate::sink::StreamSink;

verus! {

/// The payload and timestamp of each sample, in order.
pub open spec fn sample_views(s: Seq<MediaSample>) -> Seq<(Seq<u8>, int)> {
    s.map(|i: int, m: MediaSample| (m.payload@, m.pts_ns as int))
}

/// The samples the sink offers the pipeline for a captured sequence:
/// every frame of the negotiated length `flen`, in capture order, paired
/// with its timestamp — the sample's index (starting at `k`) times the
/// frame duration `dur`.
pub open spec fn expected_attempts(frames: Seq<Seq<u8>>, flen: nat, dur: nat, k: nat) -> Seq<
    (Seq<u8>, int),
>
    decreases frames.len(),
{
    if frames.len() == 0 {
        Seq::empty()
    } else if frames.first().len() == flen {
        seq![(frames.first(), (k * dur) as int)] + expected_attempts(
            frames.drop_first(),
            flen,
            dur,
            k + 1,
        )
    } else {
        expected_attempts(frames.drop_first(), flen, dur, k)
    }
}

/// The frames the pipeline actually accepts: those of the negotiated
/// length whose injection verdict is positive, in capture order.
pub open spec fn delivered_frames(frames: Seq<Seq<u8>>, ok: Seq<bool>, flen: nat) -> Seq<
    Seq<u8>,
>
    decreases frames.len(),
{
    if frames.len() == 0 {
        Seq::empty()
    } else {
        let tail = delivered_frames(frames.drop_first(), ok.drop_first(), flen);
        if frames.first().len() == flen && ok.first() {
            seq![frames.first()] + tail
        } else {
            tail
        }
    }
}

/// What one session did: every sample offered to the pipeline (in order,
/// with its timestamp), the verdict counts, how many captured frames were
/// refused for their length, and the final lifecycle phase.
pub struct SessionReport {
    /// Every sample the sink offered the pipeline, in capture order.
    pub samples: Vec<MediaSample>,
    /// How many injections the pipeline confirmed.
    pub injected: u64,
    /// How many injections the pipeline rejected.
    pub rejected: u64,
    /// How many captured frames were refused for their length.
    pub skipped: u64,
    /// The final lifecycle phase.
    pub phase: Phase,
}

/// Runs one whole session: the relay copies each captured frame and hands
/// it through the channel; the sink wraps each received frame as a timed
/// sample and offers it to the pipeline, whose verdicts come in
/// `inject_ok`; after the last frame the relay shuts down, the sink drains
/// to end-of-stream, and the pipeline is torn down.
pub fn run_session(config: &StreamConfig, frames: Vec<Vec<u8>>, inject_ok: Vec<bool>) -> (r:
    SessionReport)
    requires
        config.wf(),
        inject_ok@.len() == frames@.len(),
        (frames@.len() + 1) * spec_frame_duration_ns(config.framerate) <= u64::MAX,
    ensures
        r.phase == Phase::Stopped,
        sample_views(r.samples@) == expected_attempts(
            views_of_vecs(frames@),
            config.spec_frame_len(),
            spec_frame_duration_ns(config.framerate),
            0,
        ),
        r.injected == delivered_frames(
            views_of_vecs(frames@),
            inject_ok@,
            config.spec_frame_len(),
        ).len(),
        r.injected + r.rejected == r.samples@.len(),
        r.skipped == count_malformed(views_of_vecs(frames@), config.spec_frame_len()),
        r.samples@.len() + r.skipped == frames@.len(),
    {
        let ghost flen_s = config.spec_frame_len();
        let ghost dur_s = spec_frame_duration_ns(config.framerate);
        let ghost all_views = views_of_vecs(frames@);
        let ghost all_ok = inject_ok@;

        let flen = config.frame_len();
        let dur = config.frame_duration_ns();

        let mut phase = lifecycle_step(Phase::Uninitialized, LifecycleEvent::ConfigSucceeded);
        let mut chan = HandoffChannel::new(1, SendPolicy::Block);
        let mut relay = FrameRelay::new(flen);
        relay.activate();
        let mut sink = StreamSink::new(dur);
        phase = lifecycle_step(phase, LifecycleEvent::StreamingStarted);

        let mut samples: Vec<MediaSample> = Vec::new();
        let mut rest = frames;
        let mut ok_rest = inject_ok;
        let total = rest.len();
        proof {
            assert(all_views.len() == total);
        }

        while rest.len() > 0
            invariant
                phase == Phase::Streaming,
                chan.wf(),
                sink.wf(),
                relay.spec_state() is Active,
                relay.spec_frame_len() == flen_s,
                sink.spec_duration() == dur_s,
                sink.spec_running(),
                chan@.sender_open,
                chan@.receiver_open,
                chan@.capacity == 1,
                chan@.buffers.len() == 0,
                ok_rest@.len() == rest@.len(),
                dur_s >= 1,
                (all_views.len() + 1) * dur_s <= u64::MAX,
                all_views.len() <= usize::MAX,
                sink.spec_samples_made() == samples@.len(),
                sink.spec_injected() + sink.spec_failures() == sink.spec_samples_made(),
                sink.spec_samples_made() + relay.spec_skipped() + rest@.len()
                    == all_views.len(),
                sample_views(samples@) + expected_attempts(
                    views_of_vecs(rest@),
                    flen_s,
                    dur_s,
                    sink.spec_samples_made(),
                ) =~= expected_attempts(all_views, flen_s, dur_s, 0),
                sink.spec_injected() + delivered_frames(
                    views_of_vecs(rest@),
                    ok_rest@,
                    flen_s,
                ).len() == delivered_frames(all_views, all_ok, flen_s).len(),
                relay.spec_skipped() + count_malformed(views_of_vecs(rest@), flen_s)
                    == count_malformed(all_views, flen_s),
            decreases rest@.len(),
        {
            let ghost prev_rest = rest@;
            let ghost prev_ok = ok_rest@;
            let ghost k = sink.spec_samples_made();
            let raw = rest.remove(0);
            let verdict = ok_rest.remove(0);
            proof {
                assert(views_of_vecs(prev_rest.remove(0)) =~= views_of_vecs(
                    prev_rest,
                ).drop_first());
                assert(views_of_vecs(prev_rest).first() == raw@);
                assert(prev_ok.remove(0) =~= prev_ok.drop_first());
            }
            relay.relay_frame(&mut chan, raw);
            match chan.recv() {
                RecvOutcome::Received(buf) => {
                    proof {
                        assert(raw@.len() == flen_s);
                        assert(buf@ == raw@);
                        assert((k + 1) * dur_s <= (all_views.len() + 1) * dur_s)
                            by (nonlinear_arith)
                            requires
                                k + 1 <= all_views.len() + 1,
                                dur_s >= 0,
                        ;
                    }
                    let ghost prev_samples = samples@;
                    let sample = sink.make_sample(buf);
                    samples.push(sample);
                    sink.record_injection(verdict);
                    proof {
                        let x = (raw@, ((k * dur_s) as int));
                        assert(sample_views(samples@) =~= sample_views(prev_samples).push(x));
                        assert(expected_attempts(views_of_vecs(prev_rest), flen_s, dur_s, k)
                            =~= seq![x] + expected_attempts(
                            views_of_vecs(rest@),
                            flen_s,
                            dur_s,
                            k + 1,
                        ));
                        assert(sample_views(prev_samples).push(x) + expected_attempts(
                            views_of_vecs(rest@),
                            flen_s,
                            dur_s,
                            k + 1,
                        ) =~= sample_views(prev_samples) + expected_attempts(
                            views_of_vecs(prev_rest),
                            flen_s,
                            dur_s,
                            k,
                        ));
                        assert(chan@.buffers =~= Seq::<Seq<u8>>::empty());
                    }
                },
                RecvOutcome::EndOfStream => {
                    proof {
                        assert(false);
                    }
                },
                RecvOutcome::WouldBlock => {
                    proof {
                        assert(raw@.len() != flen_s);
                    }
                },
            }
        }
        proof {
            assert(views_of_vecs(rest@) =~= Seq::<Seq<u8>>::empty());
            assert(ok_rest@ =~= Seq::<bool>::empty());
            assert(sample_views(samples@) + Seq::<(Seq<u8>, int)>::empty() =~= sample_views(
                samples@,
            ));
        }
        relay.shut_down(&mut chan);
        phase = lifecycle_step(phase, LifecycleEvent::FaultOrShutdown);
        proof {
            let s = sink.spec_samples_made();
            assert(s * dur_s <= (all_views.len() + 1) * dur_s) by (nonlinear_arith)
                requires
                    s <= all_views.len() + 1,
                    dur_s >= 0,
            ;
        }
        let tail = sink.drain_remaining(&mut chan);
        proof {
            assert(tail@.len() == 0);
        }
        phase = lifecycle_step(phase, LifecycleEvent::DrainedToEnd);
        SessionReport {
            samples,
            injected: sink.injected_count(),
            rejected: sink.failure_count(),
            skipped: relay.skipped_count(),
            phase,
        }
    }

/// Lossless, ordered, byte-for-byte delivery: when every captured frame has
/// the negotiated length and the pipeline confirms every injection, the
/// delivered frames are exactly the captured ones — no loss, no
/// duplication, no reordering.
pub proof fn lemma_lossless_delivery(frames: Seq<Seq<u8>>, ok: Seq<bool>, flen: nat)
    requires
        ok.len() == frames.len(),
        forall|i: int| 0 <= i < frames.len() ==> frames[i].len() == flen,
        forall|i: int| 0 <= i < ok.len() ==> ok[i],
    ensures
        delivered_frames(frames, ok, flen) == frames,
    decreases frames.len(),
{
    if frames.len() == 0 {
        assert(delivered_frames(frames, ok, flen) =~= frames);
    } else {
        assert forall|i: int| 0 <= i < frames.drop_first().len() implies frames.drop_first()[i].len()
            == flen by {
            assert(frames.drop_first()[i] == frames[i + 1]);
        }
        assert forall|i: int| 0 <= i < ok.drop_first().len() implies ok.drop_first()[i] by {
            assert(ok.drop_first()[i] == ok[i + 1]);
        }
        lemma_lossless_delivery(frames.drop_first(), ok.drop_first(), flen);
        assert(seq![frames.first()] + frames.drop_first() =~= frames);
    }
}

/// With every captured frame of the negotiated length, the sink offers the
/// pipeline exactly one sample per frame, in capture order: the i-th sample
/// carries the i-th frame's bytes and the timestamp (k + i) · dur.
pub proof fn lemma_attempts_exact(frames: Seq<Seq<u8>>, flen: nat, dur: nat, k: nat)
    requires
        forall|i: int| 0 <= i < frames.len() ==> frames[i].len() == flen,
    ensures
        expected_attempts(frames, flen, dur, k).len() == frames.len(),
        forall|i: int|
            0 <= i < frames.len() ==> expected_attempts(frames, flen, dur, k)[i] == (
            frames[i],
            (((k + i) * dur) as int),
            ),
    decreases frames.len(),
{
    if frames.len() > 0 {
        assert forall|i: int| 0 <= i < frames.drop_first().len() implies frames.drop_first()[i].len()
            == flen by {
            assert(frames.drop_first()[i] == frames[i + 1]);
        }
        lemma_attempts_exact(frames.drop_first(), flen, dur, k + 1);
        let e = expected_attempts(frames, flen, dur, k);
        let tail = expected_attempts(frames.drop_first(), flen, dur, k + 1);
        assert forall|i: int| 0 <= i < frames.len() implies e[i] == (
            frames[i],
            (((k + i) * dur) as int),
        ) by {
            if i > 0 {
                assert(e[i] == tail[i - 1]);
                assert(tail[i - 1] == (frames.drop_first()[i - 1], ((((k + 1) + (i - 1)) * dur) as int)));
                assert(frames.drop_first()[i - 1] == frames[i]);
                assert((k + 1) + (i - 1) == k + i);
            }
        }
    }
}

/// Every offered sample's timestamp is at least k · dur, the timestamp of
/// the next sample to be made.
pub proof fn lemma_attempts_ts_lower_bound(frames: Seq<Seq<u8>>, flen: nat, dur: nat, k: nat)
    ensures
        forall|i: int|
            0 <= i < expected_attempts(frames, flen, dur, k).len() ==> expected_attempts(
                frames,
                flen,
                dur,
                k,
            )[i].1 >= k * dur,
    decreases frames.len(),
{
    if frames.len() == 0 {
    } else if frames.first().len() == flen {
        lemma_attempts_ts_lower_bound(frames.drop_first(), flen, dur, k + 1);
        assert((k + 1) * dur == k * dur + dur) by (nonlinear_arith);
        let e = expected_attempts(frames, flen, dur, k);
        let tail = expected_attempts(frames.drop_first(), flen, dur, k + 1);
        assert forall|i: int| 0 <= i < e.len() implies e[i].1 >= k * dur by {
            if i == 0 {
                assert(e[0] == (frames.first(), ((k * dur) as int)));
            } else {
                assert(e[i] == tail[i - 1]);
                assert(tail[i - 1].1 >= (k + 1) * dur);
            }
        }
    } else {
        lemma_attempts_ts_lower_bound(frames.drop_first(), flen, dur, k);
        let e = expected_attempts(frames, flen, dur, k);
        let tail = expected_attempts(frames.drop_first(), flen, dur, k);
        assert(e == tail);
        assert forall|i: int| 0 <= i < e.len() implies e[i].1 >= k * dur by {
            assert(e[i] == tail[i]);
        }
    }
}

/// Timestamps strictly increase along the offered samples, whatever frames
/// were captured and in whatever state the pipeline is.
pub proof fn lemma_timestamps_strictly_increase(frames: Seq<Seq<u8>>, flen: nat, dur: nat, k: nat)
    requires
        dur >= 1,
    ensures
        forall|i: int, j: int|
            0 <= i < j < expected_attempts(frames, flen, dur, k).len() ==> expected_attempts(
                frames,
                flen,
                dur,
                k,
            )[i].1 < expected_attempts(frames, flen, dur, k)[j].1,
    decreases frames.len(),
{
    if frames.len() == 0 {
    } else if frames.first().len() == flen {
        lemma_timestamps_strictly_increase(frames.drop_first(), flen, dur, k + 1);
        lemma_attempts_ts_lower_bound(frames.drop_first(), flen, dur, k + 1);
        assert((k + 1) * dur == k * dur + dur) by (nonlinear_arith);
        let e = expected_attempts(frames, flen, dur, k);
        let tail = expected_attempts(frames.drop_first(), flen, dur, k + 1);
        assert forall|i: int, j: int| 0 <= i < j < e.len() implies e[i].1 < e[j].1 by {
            assert(e[j] == tail[j - 1]);
            if i == 0 {
                assert(e[0] == (frames.first(), ((k * dur) as int)));
                assert(tail[j - 1].1 >= (k + 1) * dur);
            } else {
                assert(e[i] == tail[i - 1]);
                assert(tail[i - 1].1 < tail[j - 1].1);
            }
        }
    } else {
        lemma_timestamps_strictly_increase(frames.drop_first(), flen, dur, k);
        let e = expected_attempts(frames, flen, dur, k);
        let tail = expected_attempts(frames.drop_first(), flen, dur, k);
        assert(e == tail);
        assert forall|i: int, j: int| 0 <= i < j < e.len() implies e[i].1 < e[j].1 by {
            assert(e[i] == tail[i]);
            assert(e[j] == tail[j]);
        }
    }
}

/// One rejected injection costs exactly that one frame: with every captured
/// frame of the negotiated length and exactly one negative verdict, the
/// delivered frames are the captured ones with that single frame removed —
/// every later frame still flows, in order.
pub proof fn lemma_single_rejection_is_isolated(
    frames: Seq<Seq<u8>>,
    ok: Seq<bool>,
    flen: nat,
    j: int,
)
    requires
        ok.len() == frames.len(),
        0 <= j < frames.len(),
        forall|i: int| 0 <= i < frames.len() ==> frames[i].len() == flen,
        forall|i: int| 0 <= i < ok.len() ==> (ok[i] <==> i != j),
    ensures
        delivered_frames(frames, ok, flen) == frames.remove(j),
    decreases frames.len(),
{
    assert forall|i: int| 0 <= i < frames.drop_first().len() implies frames.drop_first()[i].len()
        == flen by {
        assert(frames.drop_first()[i] == frames[i + 1]);
    }
    if j == 0 {
        assert(!ok[0]);
        assert forall|i: int| 0 <= i < ok.drop_first().len() implies ok.drop_first()[i] by {
            assert(ok.drop_first()[i] == ok[i + 1]);
        }
        lemma_lossless_delivery(frames.drop_first(), ok.drop_first(), flen);
        assert(frames.remove(0) =~= frames.drop_first());
    } else {
        assert(ok[0]);
        assert forall|i: int| 0 <= i < ok.drop_first().len() implies (ok.drop_first()[i] <==> i
            != j - 1) by {
            assert(ok.drop_first()[i] == ok[i + 1]);
        }
        lemma_single_rejection_is_isolated(frames.drop_first(), ok.drop_first(), flen, j - 1);
        assert(frames.remove(j) =~= seq![frames.first()] + frames.drop_first().remove(j - 1));
    }
}

} // verus!
