//! The composed lifecycle of a streaming session.
//!
//! The machine runs `Uninitialized → DevicesConfigured → Streaming →
//! Draining → Stopped`.  Configuration failures keep it in `Uninitialized`:
//! nothing has been allocated, so a fatal startup error leaves no partial
//! state behind.  From `Streaming`, an operator shutdown or a fatal fault in
//! either thread closes the channel for new sends and moves to `Draining`;
//! once the channel reports end-of-stream the pipeline is torn down and the
//! machine reaches `Stopped`.

use vstd::prelude::*;

verus! {

/// Where a streaming session stands.
#[derive(Clone, Copy, Debug, PartialEq, Eq, Structural)]
pub enum Phase {
    /// Nothing allocated yet; configuration may still fail harmlessly.
    Uninitialized,
    /// Camera device and streaming pipeline each constructed and validated.
    DevicesConfigured,
    /// Pipeline playing, camera session active, relay thread running.
    Streaming,
    /// The channel is closed for new sends; the sink is consuming what is
    /// still queued.
    Draining,
    /// End-of-stream was observed and every resource has been released.
    Stopped,
}

/// What can happen to a session.
#[derive(Clone, Copy, Debug, PartialEq, Eq, Structural)]
pub enum LifecycleEvent {
    /// Camera device and streaming pipeline both came up.
    ConfigSucceeded,
    /// Some startup step failed; nothing was left running.
    ConfigFailed,
    /// The pipeline went to playing and the relay thread started.
    StreamingStarted,
    /// An operator-requested shutdown, or a fatal fault in either thread.
    FaultOrShutdown,
    /// The channel reported end-of-stream with nothing left queued.
    DrainedToEnd,
}

/// The transition function of the lifecycle machine.  Every pair not
/// listed leaves the phase unchanged: no transition can be skipped.
pub open spec fn spec_lifecycle_step(p: Phase, e: LifecycleEvent) -> Phase {
    match (p, e) {
        (Phase::Uninitialized, LifecycleEvent::ConfigSucceeded) => Phase::DevicesConfigured,
        (Phase::DevicesConfigured, LifecycleEvent::StreamingStarted) => Phase::Streaming,
        (Phase::Streaming, LifecycleEvent::FaultOrShutdown) => Phase::Draining,
        (Phase::Draining, LifecycleEvent::DrainedToEnd) => Phase::Stopped,
        _ => p,
    }
}

/// Advances the lifecycle machine by one event.
pub fn lifecycle_step(p: Phase, e: LifecycleEvent) -> (r: Phase)
    ensures
        r == spec_lifecycle_step(p, e),
{
    match (p, e) {
        (Phase::Uninitialized, LifecycleEvent::ConfigSucceeded) => Phase::DevicesConfigured,
        (Phase::DevicesConfigured, LifecycleEvent::StreamingStarted) => Phase::Streaming,
        (Phase::Streaming, LifecycleEvent::FaultOrShutdown) => Phase::Draining,
        (Phase::Draining, LifecycleEvent::DrainedToEnd) => Phase::Stopped,
        _ => p,
    }
}

/// The phase reached from `p` after a whole series of events.
pub open spec fn spec_run_lifecycle(p: Phase, events: Seq<LifecycleEvent>) -> Phase
    decreases events.len(),
{
    if events.len() == 0 {
        p
    } else {
        spec_run_lifecycle(spec_lifecycle_step(p, events.first()), events.drop_first())
    }
}

/// A fatal configuration error allocates nothing: however the session goes
/// on, as long as no configuration ever succeeds, the lifecycle stays in
/// `Uninitialized` — no camera session is opened, no pipeline is left
/// running, no thread is spawned.
pub proof fn lemma_no_streaming_without_config(events: Seq<LifecycleEvent>)
    requires
        forall|i: int| 0 <= i < events.len() ==> events[i] != LifecycleEvent::ConfigSucceeded,
    ensures
        spec_run_lifecycle(Phase::Uninitialized, events) == Phase::Uninitialized,
    decreases events.len(),
{
    if events.len() > 0 {
        assert(events[0] != LifecycleEvent::ConfigSucceeded);
        assert(spec_lifecycle_step(Phase::Uninitialized, events.first()) == Phase::Uninitialized);
        assert forall|i: int| 0 <= i < events.drop_first().len() implies events.drop_first()[i]
            != LifecycleEvent::ConfigSucceeded by {
            assert(events.drop_first()[i] == events[i + 1]);
        }
        lemma_no_streaming_without_config(events.drop_first());
    }
}

/// Once a fault or shutdown is seen while streaming, draining to
/// end-of-stream is all it takes to reach `Stopped`.
pub proof fn lemma_fault_then_drain_stops()
    ensures
        spec_lifecycle_step(
            spec_lifecycle_step(Phase::Streaming, LifecycleEvent::FaultOrShutdown),
            LifecycleEvent::DrainedToEnd,
        ) == Phase::Stopped,
{
}

} // verus!
