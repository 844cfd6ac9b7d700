use frame_relay::channel::{HandoffChannel, RecvOutcome, SendOutcome, SendPolicy};
use frame_relay::config::{ConfigError, StreamConfig, StreamKind, parse_stream_kind};
use frame_relay::frame::{FrameBuffer, FrameError};
use frame_relay::lifecycle::{LifecycleEvent, Phase, lifecycle_step};
use frame_relay::relay::{CameraSessionState, FrameRelay, RelayFrameResult};
use frame_relay::sink::StreamSink;

fn buffer(bytes: Vec<u8>) -> FrameBuffer {
    let len = bytes.len();
    FrameBuffer::from_raw(bytes, len).unwrap()
}

#[test]
fn parse_stream_kind_recognizes_each_kind() {
    assert_eq!(parse_stream_kind("Depth"), Ok(StreamKind::Depth));
    assert_eq!(parse_stream_kind("Color"), Ok(StreamKind::Color));
    assert_eq!(parse_stream_kind("Infrared"), Ok(StreamKind::Infrared));
    assert_eq!(parse_stream_kind("Fisheye"), Ok(StreamKind::Fisheye));
}

#[test]
fn parse_stream_kind_rejects_unknown_names() {
    assert_eq!(parse_stream_kind("Sideways"), Err(ConfigError::InvalidStreamKind));
    assert_eq!(parse_stream_kind(""), Err(ConfigError::InvalidStreamKind));
    assert_eq!(parse_stream_kind("color"), Err(ConfigError::InvalidStreamKind));
    assert_eq!(parse_stream_kind("Colors"), Err(ConfigError::InvalidStreamKind));
}

#[test]
fn configure_accepts_a_sound_request() {
    let c = StreamConfig::configure(640, 480, 30, "Color", String::from("192.168.0.142"), 5600)
        .unwrap();
    assert_eq!(c.width, 640);
    assert_eq!(c.height, 480);
    assert_eq!(c.framerate, 30);
    assert_eq!(c.kind, StreamKind::Color);
    assert_eq!(c.host, "192.168.0.142");
    assert_eq!(c.port, 5600);
    assert_eq!(c.frame_len(), 921600);
    assert_eq!(c.frame_duration_ns(), 33_333_333);
}

#[test]
fn configure_rejects_invalid_stream_kind() {
    let r = StreamConfig::configure(640, 480, 30, "Sideways", String::from("h"), 5600);
    assert_eq!(r.err(), Some(ConfigError::InvalidStreamKind));
}

#[test]
fn configure_rejects_zero_width() {
    let r = StreamConfig::configure(0, 480, 30, "Color", String::from("h"), 5600);
    assert_eq!(r.err(), Some(ConfigError::ZeroWidth));
}

#[test]
fn configure_rejects_zero_height() {
    let r = StreamConfig::configure(640, 0, 30, "Color", String::from("h"), 5600);
    assert_eq!(r.err(), Some(ConfigError::ZeroHeight));
}

#[test]
fn configure_rejects_zero_framerate() {
    let r = StreamConfig::configure(640, 480, 0, "Color", String::from("h"), 5600);
    assert_eq!(r.err(), Some(ConfigError::ZeroFramerate));
}

#[test]
fn configure_rejects_oversized_frame() {
    let r = StreamConfig::configure(u32::MAX, u32::MAX, 30, "Color", String::from("h"), 5600);
    assert_eq!(r.err(), Some(ConfigError::FrameTooLarge));
}

#[test]
fn config_error_messages_name_the_failure() {
    assert_eq!(ConfigError::InvalidStreamKind.message(), "invalid camera stream kind");
    assert_eq!(ConfigError::ZeroWidth.message(), "width must be positive");
    assert_eq!(ConfigError::ZeroHeight.message(), "height must be positive");
    assert_eq!(ConfigError::ZeroFramerate.message(), "framerate must be positive");
    assert_eq!(
        ConfigError::FrameTooLarge.message(),
        "frame size exceeds addressable memory"
    );
}

#[test]
fn frame_duration_never_rounds_to_zero() {
    let c = StreamConfig::configure(2, 2, u32::MAX, "Color", String::from("h"), 1).unwrap();
    assert_eq!(c.frame_duration_ns(), 1);
}

#[test]
fn frame_buffer_accepts_exact_length() {
    let b = FrameBuffer::from_raw(vec![7u8, 8, 9], 3).unwrap();
    assert_eq!(b.len(), 3);
    assert_eq!(b.as_bytes(), &vec![7u8, 8, 9]);
    assert_eq!(b.into_vec(), vec![7u8, 8, 9]);
}

#[test]
fn frame_buffer_rejects_wrong_length() {
    let r = FrameBuffer::from_raw(vec![7u8, 8, 9], 4);
    assert_eq!(r.err(), Some(FrameError::LengthMismatch));
}

#[test]
fn channel_delivers_in_fifo_order() {
    let mut chan = HandoffChannel::new(4, SendPolicy::Block);
    assert_eq!(chan.send(buffer(vec![1u8])), SendOutcome::Accepted);
    assert_eq!(chan.send(buffer(vec![2u8])), SendOutcome::Accepted);
    assert_eq!(chan.send(buffer(vec![3u8])), SendOutcome::Accepted);
    for expected in 1u8..=3 {
        match chan.recv() {
            RecvOutcome::Received(b) => assert_eq!(b.into_vec(), vec![expected]),
            _ => panic!("expected a buffer"),
        }
    }
    assert!(matches!(chan.recv(), RecvOutcome::WouldBlock));
}

#[test]
fn block_policy_refuses_when_full() {
    let mut chan = HandoffChannel::new(2, SendPolicy::Block);
    assert_eq!(chan.send(buffer(vec![1u8])), SendOutcome::Accepted);
    assert_eq!(chan.send(buffer(vec![2u8])), SendOutcome::Accepted);
    assert_eq!(chan.send(buffer(vec![3u8])), SendOutcome::WouldBlock);
    assert_eq!(chan.len(), 2);
    assert_eq!(chan.dropped_count(), 0);
    match chan.recv() {
        RecvOutcome::Received(b) => assert_eq!(b.into_vec(), vec![1u8]),
        _ => panic!("expected the oldest buffer"),
    }
}

#[test]
fn drop_oldest_policy_discards_exactly_the_oldest() {
    let mut chan = HandoffChannel::new(2, SendPolicy::DropOldest);
    assert_eq!(chan.send(buffer(vec![1u8])), SendOutcome::Accepted);
    assert_eq!(chan.send(buffer(vec![2u8])), SendOutcome::Accepted);
    assert_eq!(chan.send(buffer(vec![3u8])), SendOutcome::DroppedOldest);
    assert_eq!(chan.len(), 2);
    assert_eq!(chan.dropped_count(), 1);
    match chan.recv() {
        RecvOutcome::Received(b) => assert_eq!(b.into_vec(), vec![2u8]),
        _ => panic!("expected the second buffer"),
    }
    match chan.recv() {
        RecvOutcome::Received(b) => assert_eq!(b.into_vec(), vec![3u8]),
        _ => panic!("expected the newest buffer"),
    }
}

#[test]
fn closed_receiver_disconnects_the_sender() {
    let mut chan = HandoffChannel::new(2, SendPolicy::Block);
    chan.close_receiver();
    assert_eq!(chan.send(buffer(vec![1u8])), SendOutcome::Disconnected);
    assert_eq!(chan.len(), 0);
}

#[test]
fn closed_sender_yields_queued_buffers_then_end_of_stream() {
    let mut chan = HandoffChannel::new(2, SendPolicy::Block);
    assert_eq!(chan.send(buffer(vec![9u8])), SendOutcome::Accepted);
    chan.close_sender();
    match chan.recv() {
        RecvOutcome::Received(b) => assert_eq!(b.into_vec(), vec![9u8]),
        _ => panic!("queued buffer must still come out"),
    }
    assert!(matches!(chan.recv(), RecvOutcome::EndOfStream));
    assert!(matches!(chan.recv(), RecvOutcome::EndOfStream));
}

#[test]
fn relay_forwards_a_frame_of_the_negotiated_length() {
    let mut chan = HandoffChannel::new(2, SendPolicy::Block);
    let mut relay = FrameRelay::new(3);
    relay.activate();
    assert_eq!(relay.state(), CameraSessionState::Active);
    let r = relay.relay_frame(&mut chan, vec![1u8, 2, 3]);
    assert_eq!(r, RelayFrameResult::Submitted(SendOutcome::Accepted));
    assert_eq!(relay.skipped_count(), 0);
    match chan.recv() {
        RecvOutcome::Received(b) => assert_eq!(b.into_vec(), vec![1u8, 2, 3]),
        _ => panic!("the frame must arrive"),
    }
}

#[test]
fn relay_skips_a_frame_of_the_wrong_length() {
    let mut chan = HandoffChannel::new(2, SendPolicy::Block);
    let mut relay = FrameRelay::new(3);
    relay.activate();
    let r = relay.relay_frame(&mut chan, vec![1u8, 2]);
    assert_eq!(r, RelayFrameResult::SkippedMalformed);
    assert_eq!(relay.skipped_count(), 1);
    assert_eq!(chan.len(), 0);
}

#[test]
fn relay_forwards_a_whole_frame_set_in_order() {
    let mut chan = HandoffChannel::new(8, SendPolicy::Block);
    let mut relay = FrameRelay::new(2);
    relay.activate();
    relay.forward_frame_set(
        &mut chan,
        vec![vec![1u8, 1], vec![2u8], vec![3u8, 3], vec![4u8, 4, 4], vec![5u8, 5]],
    );
    assert_eq!(relay.skipped_count(), 2);
    assert_eq!(chan.len(), 3);
    for expected in [vec![1u8, 1], vec![3u8, 3], vec![5u8, 5]] {
        match chan.recv() {
            RecvOutcome::Received(b) => assert_eq!(b.into_vec(), expected),
            _ => panic!("expected a forwarded frame"),
        }
    }
}

#[test]
fn device_fault_lets_the_sink_drain_and_stop() {
    let mut chan = HandoffChannel::new(4, SendPolicy::Block);
    let mut relay = FrameRelay::new(1);
    relay.activate();
    relay.relay_frame(&mut chan, vec![1u8]);
    relay.relay_frame(&mut chan, vec![2u8]);
    relay.on_device_fault(&mut chan);
    assert_eq!(relay.state(), CameraSessionState::Faulted);

    let mut sink = StreamSink::new(10);
    assert!(sink.is_running());
    let samples = sink.drain_remaining(&mut chan);
    assert!(!sink.is_running());
    assert_eq!(samples.len(), 2);
    assert_eq!(samples[0].payload.as_bytes(), &vec![1u8]);
    assert_eq!(samples[0].pts_ns, 0);
    assert_eq!(samples[1].payload.as_bytes(), &vec![2u8]);
    assert_eq!(samples[1].pts_ns, 10);
    assert!(matches!(chan.recv(), RecvOutcome::EndOfStream));
}

#[test]
fn shutdown_propagates_to_the_sink_as_end_of_stream() {
    let mut chan = HandoffChannel::new(4, SendPolicy::Block);
    let mut relay = FrameRelay::new(1);
    relay.activate();
    relay.shut_down(&mut chan);
    assert_eq!(relay.state(), CameraSessionState::Inactive);
    let mut sink = StreamSink::new(10);
    let samples = sink.drain_remaining(&mut chan);
    assert!(samples.is_empty());
    assert!(!sink.is_running());
}

#[test]
fn sink_timestamps_advance_by_the_frame_duration() {
    let mut sink = StreamSink::new(100);
    let s0 = sink.make_sample(buffer(vec![1u8]));
    let s1 = sink.make_sample(buffer(vec![2u8]));
    let s2 = sink.make_sample(buffer(vec![3u8]));
    assert_eq!(s0.pts_ns, 0);
    assert_eq!(s1.pts_ns, 100);
    assert_eq!(s2.pts_ns, 200);
    assert_eq!(sink.samples_made_count(), 3);
}

#[test]
fn a_rejected_injection_does_not_stop_the_sink() {
    let mut sink = StreamSink::new(100);
    let _ = sink.make_sample(buffer(vec![1u8]));
    sink.record_injection(false);
    assert!(sink.is_running());
    assert_eq!(sink.failure_count(), 1);
    assert_eq!(sink.injected_count(), 0);
    let _ = sink.make_sample(buffer(vec![2u8]));
    sink.record_injection(true);
    assert!(sink.is_running());
    assert_eq!(sink.failure_count(), 1);
    assert_eq!(sink.injected_count(), 1);
}

#[test]
fn lifecycle_walks_the_whole_path() {
    let mut p = Phase::Uninitialized;
    p = lifecycle_step(p, LifecycleEvent::ConfigSucceeded);
    assert_eq!(p, Phase::DevicesConfigured);
    p = lifecycle_step(p, LifecycleEvent::StreamingStarted);
    assert_eq!(p, Phase::Streaming);
    p = lifecycle_step(p, LifecycleEvent::FaultOrShutdown);
    assert_eq!(p, Phase::Draining);
    p = lifecycle_step(p, LifecycleEvent::DrainedToEnd);
    assert_eq!(p, Phase::Stopped);
}

#[test]
fn lifecycle_stays_put_after_a_failed_configuration() {
    let p = lifecycle_step(Phase::Uninitialized, LifecycleEvent::ConfigFailed);
    assert_eq!(p, Phase::Uninitialized);
    let p = lifecycle_step(p, LifecycleEvent::StreamingStarted);
    assert_eq!(p, Phase::Uninitialized);
    let p = lifecycle_step(p, LifecycleEvent::FaultOrShutdown);
    assert_eq!(p, Phase::Uninitialized);
}

#[test]
fn lifecycle_ignores_out_of_order_events() {
    assert_eq!(
        lifecycle_step(Phase::Uninitialized, LifecycleEvent::DrainedToEnd),
        Phase::Uninitialized
    );
    assert_eq!(
        lifecycle_step(Phase::Streaming, LifecycleEvent::StreamingStarted),
        Phase::Streaming
    );
    assert_eq!(lifecycle_step(Phase::Stopped, LifecycleEvent::FaultOrShutdown), Phase::Stopped);
}
