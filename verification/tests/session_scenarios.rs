use frame_relay::config::{ConfigError, StreamConfig};
use frame_relay::lifecycle::Phase;
use frame_relay::session::run_session;

#[test]
fn end_to_end_ten_frames_flow_in_order_with_increasing_timestamps() {
    let config = StreamConfig::configure(640, 480, 30, "Color", String::from("h"), 5600)
        .unwrap();
    assert_eq!(config.frame_len(), 921600);

    let mut frames: Vec<Vec<u8>> = Vec::new();
    for i in 0..10u8 {
        let mut frame = vec![0u8; 921600];
        frame[0] = i;
        frames.push(frame);
    }
    let verdicts = vec![true; 10];

    let report = run_session(&config, frames, verdicts);

    assert_eq!(report.phase, Phase::Stopped);
    assert_eq!(report.samples.len(), 10);
    assert_eq!(report.injected, 10);
    assert_eq!(report.rejected, 0);
    assert_eq!(report.skipped, 0);
    for (i, sample) in report.samples.iter().enumerate() {
        assert_eq!(sample.payload.len(), 921600);
        assert_eq!(sample.payload.as_bytes()[0], i as u8);
        assert_eq!(sample.pts_ns, i as u64 * 33_333_333);
    }
    for pair in report.samples.windows(2) {
        assert!(pair[0].pts_ns < pair[1].pts_ns);
    }
}

#[test]
fn a_single_rejection_does_not_stop_later_frames() {
    let config = StreamConfig::configure(2, 1, 30, "Color", String::from("h"), 5600).unwrap();
    assert_eq!(config.frame_len(), 6);

    let frames = vec![vec![1u8; 6], vec![2u8; 6], vec![3u8; 6]];
    let verdicts = vec![true, false, true];

    let report = run_session(&config, frames, verdicts);

    assert_eq!(report.phase, Phase::Stopped);
    assert_eq!(report.samples.len(), 3);
    assert_eq!(report.injected, 2);
    assert_eq!(report.rejected, 1);
    assert_eq!(report.skipped, 0);
    assert_eq!(report.samples[2].payload.as_bytes(), &vec![3u8; 6]);
}

#[test]
fn malformed_frames_are_counted_and_passed_over() {
    let config = StreamConfig::configure(2, 1, 30, "Color", String::from("h"), 5600).unwrap();

    let frames = vec![vec![1u8; 6], vec![2u8; 4], vec![3u8; 6]];
    let verdicts = vec![true, true, true];

    let report = run_session(&config, frames, verdicts);

    assert_eq!(report.phase, Phase::Stopped);
    assert_eq!(report.samples.len(), 2);
    assert_eq!(report.injected, 2);
    assert_eq!(report.skipped, 1);
    assert_eq!(report.samples[0].payload.as_bytes(), &vec![1u8; 6]);
    assert_eq!(report.samples[1].payload.as_bytes(), &vec![3u8; 6]);
    assert_eq!(report.samples[0].pts_ns, 0);
    assert_eq!(report.samples[1].pts_ns, 33_333_333);
}

#[test]
fn an_empty_capture_still_stops_cleanly() {
    let config = StreamConfig::configure(2, 1, 30, "Color", String::from("h"), 5600).unwrap();
    let report = run_session(&config, Vec::new(), Vec::new());
    assert_eq!(report.phase, Phase::Stopped);
    assert_eq!(report.samples.len(), 0);
    assert_eq!(report.injected, 0);
    assert_eq!(report.rejected, 0);
    assert_eq!(report.skipped, 0);
}

#[test]
fn an_invalid_stream_kind_is_fatal_before_anything_runs() {
    let r = StreamConfig::configure(640, 480, 30, "Thermal", String::from("h"), 5600);
    assert_eq!(r.err(), Some(ConfigError::InvalidStreamKind));
}
