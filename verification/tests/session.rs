use tt_audio_lab::audio::capture::CaptureChunk;
use tt_audio_lab::audio::capture::CaptureRuntime;
use tt_audio_lab::telemetry::session::Directive;
use tt_audio_lab::telemetry::session::FrameStamp;
use tt_audio_lab::telemetry::session::LiveSession;
use tt_audio_lab::telemetry::session::Session;
use tt_audio_lab::telemetry::session::SessionPhase;
use tt_audio_lab::telemetry::session::SkipReason;
use tt_audio_lab::telemetry::session::SourceEvent;
use tt_audio_lab::telemetry::session::FALLBACK_DEVICE_ID;
use tt_audio_lab::telemetry::session::SYNTHETIC_CAPTURE_AGE_MS;

fn runtime(device_id: &str) -> CaptureRuntime {
    CaptureRuntime { device_id: device_id.to_string(), sample_rate: 48_000, channels: 2 }
}

fn chunk(timestamp_ms: u64, samples: Vec<f32>) -> CaptureChunk<f32> {
    CaptureChunk { timestamp_ms, samples }
}

fn live(window_size: usize, now: u64) -> Session<f32> {
    let mut session = Session::new(window_size);
    session.start(Ok(runtime("output:Speakers")), now);
    session
}

fn published(directive: Directive<f32>) -> Option<FrameStamp> {
    match directive {
        Directive::Analyze { frame, .. } => frame,
        Directive::Synthesize { frame, .. } => frame,
        _ => None,
    }
}

#[test]
fn a_new_session_is_idle_and_rests() {
    let mut session: Session<f32> = Session::new(1024);
    assert_eq!(session.phase(), SessionPhase::Idle);
    assert!(matches!(session.poll(1_000, 16, false), Directive::Rest));
    session.receive(SourceEvent::Chunk(chunk(1, vec![0.0; 4096])));
    session.receive(SourceEvent::Disconnected);
    assert_eq!(session.phase(), SessionPhase::Idle);
}

#[test]
fn a_started_source_makes_the_session_run() {
    let session = live(1024, 5_000);
    assert_eq!(session.phase(), SessionPhase::Running);
}

#[test]
fn fallback_activation() {
    let mut session: Session<f32> = Session::new(1024);
    session.start(Err("no default input device available; ".to_string()), 5_000);
    assert_eq!(session.phase(), SessionPhase::FailedOver);
    let mut now = 5_000u64;
    for _ in 0..10 {
        match session.poll(now, 16, false) {
            Directive::Synthesize { frame, sleep_ms } => {
                let frame = frame.unwrap();
                assert_eq!(frame.device_id, "mock-device");
                assert_eq!(frame.device_id, FALLBACK_DEVICE_ID);
                assert_eq!(frame.timestamp_ms, now);
                assert_eq!(frame.emit_interval_ms, 16);
                assert_eq!(frame.capture_age_ms, 4);
                assert_eq!(frame.latency_estimate_ms(), 20);
                assert_eq!(sleep_ms, 16);
                now += sleep_ms;
            }
            _ => panic!("a failed-over session must synthesize"),
        }
    }
    assert_eq!(now, 5_160);
    assert_eq!(session.phase(), SessionPhase::FailedOver);
}

#[test]
fn the_end_of_the_stream_fails_a_running_session_over() {
    let mut session = live(4, 5_000);
    session.receive(SourceEvent::Chunk(chunk(5_001, vec![0.1; 8])));
    session.receive(SourceEvent::Disconnected);
    assert_eq!(session.phase(), SessionPhase::FailedOver);
    match session.poll(5_002, 11, false) {
        Directive::Synthesize { frame, sleep_ms } => {
            assert_eq!(frame.unwrap().device_id, "mock-device");
            assert_eq!(sleep_ms, 11);
        }
        _ => panic!("a failed-over session must synthesize"),
    }
}

#[test]
fn the_fallback_honours_the_pause_flag() {
    let mut session: Session<f32> = Session::new(1024);
    session.start(Err("stream build failure".to_string()), 0);
    match session.poll(100, 8, true) {
        Directive::Synthesize { frame, sleep_ms } => {
            assert!(frame.is_none());
            assert_eq!(sleep_ms, 8);
        }
        _ => panic!("a failed-over session must synthesize"),
    }
    assert!(published(session.poll(108, 8, false)).is_some());
}

#[test]
fn the_fallback_is_final() {
    let mut session: Session<f32> = Session::new(4);
    session.start(Err("gone".to_string()), 0);
    session.start(Ok(runtime("input:Mic")), 10);
    assert_eq!(session.phase(), SessionPhase::FailedOver);
    session.receive(SourceEvent::Chunk(chunk(11, vec![0.0; 4])));
    session.receive(SourceEvent::Timeout);
    session.stop();
    assert_eq!(session.phase(), SessionPhase::FailedOver);
}

#[test]
fn a_running_session_ignores_a_second_start() {
    let mut session = live(2, 1_000);
    session.receive(SourceEvent::Chunk(chunk(1_001, vec![0.5, 0.25])));
    session.start(Err("late failure".to_string()), 1_002);
    assert_eq!(session.phase(), SessionPhase::Running);
    session.start(Ok(runtime("input:Other")), 1_003);
    let frame = published(session.poll(1_010, 8, false)).unwrap();
    assert_eq!(frame.device_id, "output:Speakers");
    assert_eq!(frame.capture_age_ms, 9);
}

#[test]
fn stopping_ends_a_running_session() {
    let mut session = live(2, 1_000);
    session.receive(SourceEvent::Chunk(chunk(1_001, vec![0.5, 0.25])));
    session.stop();
    assert_eq!(session.phase(), SessionPhase::Stopped);
    assert!(matches!(session.poll(2_000, 8, false), Directive::Rest));
    session.receive(SourceEvent::Disconnected);
    session.start(Ok(runtime("input:Mic")), 2_001);
    assert_eq!(session.phase(), SessionPhase::Stopped);
}

#[test]
fn stopping_an_idle_session_changes_nothing() {
    let mut session: Session<f32> = Session::new(2);
    session.stop();
    assert_eq!(session.phase(), SessionPhase::Idle);
    session.start(Ok(runtime("input:Mic")), 1);
    assert_eq!(session.phase(), SessionPhase::Running);
}

#[test]
fn cold_start_skips_until_a_window_is_buffered() {
    let mut session = live(4, 1_000);
    assert!(matches!(session.poll(1_016, 16, false), Directive::Skip(SkipReason::ColdStart)));
    session.receive(SourceEvent::Chunk(chunk(1_017, vec![0.1, 0.2, 0.3])));
    assert!(matches!(session.poll(1_032, 16, false), Directive::Skip(SkipReason::ColdStart)));
    session.receive(SourceEvent::Timeout);
    assert!(matches!(session.poll(1_048, 16, false), Directive::Skip(SkipReason::ColdStart)));
    session.receive(SourceEvent::Chunk(chunk(1_049, vec![0.4])));
    match session.poll(1_050, 16, false) {
        Directive::Analyze { window, frame } => {
            assert_eq!(window, vec![0.1, 0.2, 0.3, 0.4]);
            assert_eq!(frame.unwrap().timestamp_ms, 1_050);
        }
        _ => panic!("a full window must be analyzed"),
    }
}

#[test]
fn the_throttle_is_checked_before_the_buffer() {
    let mut session = live(4, 0);
    // at time 5 less than one interval has passed since time zero
    assert!(matches!(session.poll(5, 16, false), Directive::Skip(SkipReason::Throttled)));
    assert!(matches!(session.poll(16, 16, false), Directive::Skip(SkipReason::ColdStart)));
}

#[test]
fn a_frame_carries_time_device_and_latency() {
    let mut session = live(2, 10_000);
    session.receive(SourceEvent::Chunk(chunk(10_020, vec![0.5, -0.5, 0.25])));
    match session.poll(10_027, 11, false) {
        Directive::Analyze { window, frame } => {
            assert_eq!(window, vec![-0.5, 0.25]);
            let frame = frame.unwrap();
            assert_eq!(frame.timestamp_ms, 10_027);
            assert_eq!(frame.device_id, "output:Speakers");
            assert_eq!(frame.capture_age_ms, 7);
            assert_eq!(frame.emit_interval_ms, 11);
            assert_eq!(frame.latency_estimate_ms(), 18);
        }
        _ => panic!("a full window must be analyzed"),
    }
}

#[test]
fn latency_counts_from_the_session_start_before_any_chunk() {
    let mut session = live(0, 10_000);
    let frame = published(session.poll(10_050, 16, false)).unwrap();
    assert_eq!(frame.capture_age_ms, 50);
    assert_eq!(frame.latency_estimate_ms(), 66);
}

#[test]
fn a_chunk_stamped_in_the_future_has_no_age() {
    let mut session = live(1, 10_000);
    session.receive(SourceEvent::Chunk(chunk(10_500, vec![0.5])));
    let frame = published(session.poll(10_100, 16, false)).unwrap();
    assert_eq!(frame.capture_age_ms, 0);
    assert_eq!(frame.latency_estimate_ms(), 16);
}

#[test]
fn the_latency_estimate_saturates() {
    let frame = FrameStamp {
        timestamp_ms: 0,
        device_id: String::new(),
        capture_age_ms: u64::MAX - 3,
        emit_interval_ms: 16,
    };
    assert_eq!(frame.latency_estimate_ms(), u64::MAX);
    let frame = FrameStamp {
        timestamp_ms: 0,
        device_id: String::new(),
        capture_age_ms: u64::MAX - 16,
        emit_interval_ms: 16,
    };
    assert_eq!(frame.latency_estimate_ms(), u64::MAX);
    assert_eq!(SYNTHETIC_CAPTURE_AGE_MS, 4);
}

#[test]
fn frames_are_spaced_by_the_emit_interval() {
    let mut session = live(1, 0);
    session.receive(SourceEvent::Chunk(chunk(0, vec![0.5])));
    assert!(published(session.poll(100, 16, false)).is_some());
    assert!(matches!(session.poll(100, 16, false), Directive::Skip(SkipReason::Throttled)));
    assert!(matches!(session.poll(115, 16, false), Directive::Skip(SkipReason::Throttled)));
    assert!(published(session.poll(116, 16, false)).is_some());
    assert!(matches!(session.poll(131, 16, false), Directive::Skip(SkipReason::Throttled)));
}

#[test]
fn throttling() {
    // interval 16 ms, one chunk and one turn per millisecond for 100 ms
    let start = 1_700_000_000_000u64;
    let mut session = live(4, start);
    session.receive(SourceEvent::Chunk(chunk(start, vec![0.0; 4])));
    let mut stamps = Vec::new();
    for tick in 0..100u64 {
        let now = start + tick;
        session.receive(SourceEvent::Chunk(chunk(now, vec![0.1; 48])));
        if let Some(frame) = published(session.poll(now, 16, false)) {
            assert_eq!(frame.timestamp_ms, now);
            stamps.push(frame.timestamp_ms);
        }
    }
    assert!(stamps.len() <= 7);
    assert_eq!(stamps.len(), 7);
    for pair in stamps.windows(2) {
        assert!(pair[0] < pair[1]);
        assert!(pair[1] - pair[0] >= 16);
    }
    let offsets: Vec<u64> = stamps.iter().map(|stamp| stamp - start).collect();
    assert_eq!(offsets, vec![0, 16, 32, 48, 64, 80, 96]);
}

#[test]
fn throttling_from_a_clock_that_starts_at_zero() {
    let mut session = live(4, 0);
    let mut stamps = Vec::new();
    for now in 0..100u64 {
        session.receive(SourceEvent::Chunk(chunk(now, vec![0.1; 48])));
        if let Some(frame) = published(session.poll(now, 16, false)) {
            stamps.push(frame.timestamp_ms);
        }
    }
    assert_eq!(stamps, vec![16, 32, 48, 64, 80, 96]);
}

#[test]
fn a_clock_that_steps_back_publishes_nothing() {
    let mut session = live(1, 0);
    session.receive(SourceEvent::Chunk(chunk(0, vec![0.5])));
    assert!(published(session.poll(1_000, 16, false)).is_some());
    assert!(matches!(session.poll(900, 16, false), Directive::Skip(SkipReason::Throttled)));
    assert!(matches!(session.poll(1_015, 16, false), Directive::Skip(SkipReason::Throttled)));
    assert!(published(session.poll(1_016, 16, false)).is_some());
}

#[test]
fn a_changed_interval_rules_the_very_next_turn() {
    let mut session = live(1, 0);
    session.receive(SourceEvent::Chunk(chunk(0, vec![0.5])));
    assert!(published(session.poll(1_000, 16, false)).is_some());
    assert!(matches!(session.poll(1_008, 16, false), Directive::Skip(SkipReason::Throttled)));
    let frame = published(session.poll(1_008, 8, false)).unwrap();
    assert_eq!(frame.emit_interval_ms, 8);
    assert!(matches!(session.poll(1_018, 11, false), Directive::Skip(SkipReason::Throttled)));
    assert!(published(session.poll(1_019, 11, false)).is_some());
}

#[test]
fn a_paused_turn_analyzes_without_publishing() {
    let mut session = live(2, 0);
    session.receive(SourceEvent::Chunk(chunk(990, vec![0.5, 0.25])));
    match session.poll(1_000, 16, true) {
        Directive::Analyze { window, frame } => {
            assert_eq!(window, vec![0.5, 0.25]);
            assert!(frame.is_none());
        }
        _ => panic!("a paused turn still analyzes"),
    }
}

#[test]
fn pausing_does_not_move_the_emission_mark() {
    let mut live_session: LiveSession<f32> = LiveSession::new(runtime("input:Mic"), 1, 0);
    live_session.ingest(&chunk(0, vec![0.5]));
    assert!(published(live_session.poll(1_000, 16, false)).is_some());
    assert_eq!(live_session.last_emit_ts(), 1_000);
    // paused turns run the analyzer on every turn that is due, and leave the mark
    for now in [1_016u64, 1_017, 1_040, 1_100] {
        assert!(matches!(
            live_session.poll(now, 16, true),
            Directive::Analyze { frame: None, .. }
        ));
        assert_eq!(live_session.last_emit_ts(), 1_000);
    }
    // the first turn after the pause publishes at once, and only once
    let frame = published(live_session.poll(1_101, 16, false)).unwrap();
    assert_eq!(frame.timestamp_ms, 1_101);
    assert_eq!(live_session.last_emit_ts(), 1_101);
    assert!(matches!(live_session.poll(1_102, 16, false), Directive::Skip(SkipReason::Throttled)));
    assert!(published(live_session.poll(1_117, 16, false)).is_some());
}

#[test]
fn a_live_session_reports_what_it_holds() {
    let mut live_session: LiveSession<f32> = LiveSession::new(runtime("input:Mic"), 1024, 77);
    assert_eq!(live_session.required_samples(), 1024);
    assert_eq!(live_session.buffered(), 0);
    assert_eq!(live_session.last_emit_ts(), 0);
    assert_eq!(live_session.latest_capture_ts(), 77);
    live_session.ingest(&chunk(80, vec![0.0; 480]));
    assert_eq!(live_session.buffered(), 480);
    assert_eq!(live_session.latest_capture_ts(), 80);
}

#[test]
fn a_live_session_buffers_at_most_eight_windows() {
    let mut live_session: LiveSession<f32> = LiveSession::new(runtime("input:Mic"), 1024, 0);
    for round in 0..100u64 {
        live_session.ingest(&chunk(round, vec![0.0; 441]));
        assert!(live_session.buffered() <= 8192);
    }
    // 18 chunks make 7938 samples, the 19th crosses 8192 and trims to 4096
    let mut fresh: LiveSession<f32> = LiveSession::new(runtime("input:Mic"), 1024, 0);
    for round in 0..18u64 {
        fresh.ingest(&chunk(round, vec![0.0; 441]));
    }
    assert_eq!(fresh.buffered(), 7_938);
    fresh.ingest(&chunk(18, vec![0.0; 441]));
    assert_eq!(fresh.buffered(), 4_096);
}

#[test]
fn warm_up_then_burst() {
    // the scheduler side of the warm-up scenario: 64 bins are the analyzer's
    // business, the window of 1024 samples is cut here
    let mut session = live(1024, 0);
    session.receive(SourceEvent::Chunk(chunk(10, vec![0.0; 2048])));
    match session.poll(16, 16, false) {
        Directive::Analyze { window, .. } => assert_eq!(window, vec![0.0; 1024]),
        _ => panic!("a full window must be analyzed"),
    }
    let burst: Vec<f32> = (0..1024).map(|i| if i % 2 == 0 { 0.1 } else { -0.1 }).collect();
    session.receive(SourceEvent::Chunk(chunk(30, burst.clone())));
    match session.poll(32, 16, false) {
        Directive::Analyze { window, frame } => {
            assert_eq!(window, burst);
            assert_eq!(frame.unwrap().capture_age_ms, 2);
        }
        _ => panic!("a full window must be analyzed"),
    }
}
