use tt_audio_lab::audio::capture::frame_count;
use tt_audio_lab::audio::capture::frame_span;
use tt_audio_lab::audio::capture::list_audio_devices;
use tt_audio_lab::audio::capture::resolve_input_attempt;
use tt_audio_lab::audio::capture::resolve_output_attempt;
use tt_audio_lab::audio::capture::FrameSpan;
use tt_audio_lab::audio::capture::OutputVerdict;
use tt_audio_lab::audio::capture::StreamAttempt;

fn named(name: &str) -> Option<String> {
    Some(name.to_string())
}

fn playing(name: Option<String>) -> StreamAttempt {
    StreamAttempt::Playing { name, sample_rate: 44_100, channels: 2 }
}

#[test]
fn devices_are_listed_inputs_first() {
    let devices = list_audio_devices(
        Some(vec![named("Mic"), named("Line In")]),
        Some(vec![named("Speakers")]),
    )
    .unwrap();
    assert_eq!(devices.len(), 3);
    assert_eq!(devices[0].id, "input:Mic");
    assert_eq!(devices[0].name, "Mic");
    assert_eq!(devices[0].direction, "input");
    assert_eq!(devices[1].id, "input:Line In");
    assert_eq!(devices[1].name, "Line In");
    assert_eq!(devices[1].direction, "input");
    assert_eq!(devices[2].id, "output:Speakers");
    assert_eq!(devices[2].name, "Speakers");
    assert_eq!(devices[2].direction, "output");
}

#[test]
fn nameless_devices_get_a_stand_in_name() {
    let devices = list_audio_devices(Some(vec![None]), Some(vec![None, named("HDMI")])).unwrap();
    assert_eq!(devices[0].id, "input:Unknown Input Device");
    assert_eq!(devices[0].name, "Unknown Input Device");
    assert_eq!(devices[1].id, "output:Unknown Output Device");
    assert_eq!(devices[1].name, "Unknown Output Device");
    assert_eq!(devices[1].direction, "output");
    assert_eq!(devices[2].id, "output:HDMI");
}

#[test]
fn a_failed_enumeration_counts_as_no_devices() {
    let devices = list_audio_devices(None, Some(vec![named("Speakers")])).unwrap();
    assert_eq!(devices.len(), 1);
    assert_eq!(devices[0].id, "output:Speakers");
    let devices = list_audio_devices(Some(vec![named("Mic")]), None).unwrap();
    assert_eq!(devices.len(), 1);
    assert_eq!(devices[0].id, "input:Mic");
}

#[test]
fn finding_no_device_is_an_error() {
    assert_eq!(list_audio_devices(None, None).unwrap_err(), "no audio devices found");
    assert_eq!(
        list_audio_devices(Some(Vec::new()), Some(Vec::new())).unwrap_err(),
        "no audio devices found"
    );
    assert_eq!(list_audio_devices(Some(Vec::new()), None).unwrap_err(), "no audio devices found");
}

#[test]
fn a_device_with_an_empty_name_is_still_a_device() {
    let devices = list_audio_devices(Some(vec![named("")]), None).unwrap();
    assert_eq!(devices[0].id, "input:");
    assert_eq!(devices[0].name, "");
}

#[test]
fn a_playing_output_stream_is_the_capture() {
    match resolve_output_attempt(playing(named("Speakers"))) {
        OutputVerdict::Started(runtime) => {
            assert_eq!(runtime.device_id, "output:Speakers");
            assert_eq!(runtime.sample_rate, 44_100);
            assert_eq!(runtime.channels, 2);
        }
        _ => panic!("a playing stream must be taken"),
    }
    match resolve_output_attempt(playing(None)) {
        OutputVerdict::Started(runtime) => assert_eq!(runtime.device_id, "output:Default Output"),
        _ => panic!("a playing stream must be taken"),
    }
}

#[test]
fn output_failures_hand_over_to_the_input() {
    match resolve_output_attempt(StreamAttempt::PlayFailed { reason: "device busy".to_string() }) {
        OutputVerdict::TryInput { note } => {
            assert_eq!(note, "failed to play output loopback stream: device busy")
        }
        _ => panic!("the input must be tried"),
    }
    match resolve_output_attempt(StreamAttempt::NoDevice) {
        OutputVerdict::TryInput { note } => assert_eq!(note, ""),
        _ => panic!("the input must be tried"),
    }
    match resolve_output_attempt(StreamAttempt::ConfigUnavailable {
        reason: "not supported".to_string(),
    }) {
        OutputVerdict::TryInput { note } => {
            assert_eq!(note, "failed to read output config: not supported")
        }
        _ => panic!("the input must be tried"),
    }
    match resolve_output_attempt(StreamAttempt::BuildFailed {
        reason: "failed to build f32 input stream: invalid argument".to_string(),
    }) {
        OutputVerdict::TryInput { note } => assert_eq!(
            note,
            "output loopback failed: failed to build f32 input stream: invalid argument"
        ),
        _ => panic!("the input must be tried"),
    }
}

#[test]
fn a_playing_input_stream_is_the_capture() {
    let runtime = resolve_input_attempt(
        StreamAttempt::Playing { name: named("Mic"), sample_rate: 16_000, channels: 1 },
        "output loopback failed: x",
    )
    .unwrap();
    assert_eq!(runtime.device_id, "input:Mic");
    assert_eq!(runtime.sample_rate, 16_000);
    assert_eq!(runtime.channels, 1);
    let runtime = resolve_input_attempt(playing(None), "").unwrap();
    assert_eq!(runtime.device_id, "input:Default Input");
}

#[test]
fn a_missing_input_repeats_the_output_failure() {
    assert_eq!(
        resolve_input_attempt(StreamAttempt::NoDevice, "failed to read output config: nope")
            .unwrap_err(),
        "no default input device available; failed to read output config: nope"
    );
    assert_eq!(
        resolve_input_attempt(StreamAttempt::NoDevice, "").unwrap_err(),
        "no default input device available; "
    );
}

#[test]
fn input_failures_are_final() {
    assert_eq!(
        resolve_input_attempt(
            StreamAttempt::ConfigUnavailable { reason: "unplugged".to_string() },
            "ignored"
        )
        .unwrap_err(),
        "failed to read input config: unplugged"
    );
    assert_eq!(
        resolve_input_attempt(
            StreamAttempt::BuildFailed { reason: "unsupported sample format: I8".to_string() },
            "ignored"
        )
        .unwrap_err(),
        "unsupported sample format: I8"
    );
    assert_eq!(
        resolve_input_attempt(StreamAttempt::PlayFailed { reason: "busy".to_string() }, "ignored")
            .unwrap_err(),
        "failed to play input capture stream: busy"
    );
}

#[test]
fn whole_frames_are_counted() {
    assert_eq!(frame_count(960, 2), 480);
    assert_eq!(frame_count(6, 6), 1);
    assert_eq!(frame_count(5, 1), 5);
}

#[test]
fn a_trailing_partial_frame_counts() {
    assert_eq!(frame_count(7, 2), 4);
    assert_eq!(frame_count(1, 8), 1);
    assert_eq!(frame_count(usize::MAX, 2), usize::MAX / 2 + 1);
    assert_eq!(frame_count(usize::MAX, usize::MAX), 1);
    assert_eq!(frame_count(usize::MAX - 1, usize::MAX), 1);
}

#[test]
fn nothing_to_fold_without_channels_or_samples() {
    assert_eq!(frame_count(0, 2), 0);
    assert_eq!(frame_count(10, 0), 0);
    assert_eq!(frame_count(0, 0), 0);
    assert_eq!(frame_span(0, 0, 2), None);
    assert_eq!(frame_span(0, 10, 0), None);
}

#[test]
fn frames_tile_the_buffer() {
    assert_eq!(frame_span(0, 7, 2), Some(FrameSpan { start: 0, end: 2 }));
    assert_eq!(frame_span(1, 7, 2), Some(FrameSpan { start: 2, end: 4 }));
    assert_eq!(frame_span(2, 7, 2), Some(FrameSpan { start: 4, end: 6 }));
    assert_eq!(frame_span(3, 7, 2), Some(FrameSpan { start: 6, end: 7 }));
    assert_eq!(frame_span(4, 7, 2), None);
    for channels in 1..9usize {
        for sample_count in 0..40usize {
            let mut covered = 0usize;
            for index in 0..frame_count(sample_count, channels) {
                let span = frame_span(index, sample_count, channels).unwrap();
                assert_eq!(span.start, covered);
                assert!(span.end > span.start);
                assert!(span.end - span.start <= channels);
                covered = span.end;
            }
            assert_eq!(covered, sample_count);
            assert_eq!(frame_span(frame_count(sample_count, channels), sample_count, channels), None);
        }
    }
}

#[test]
fn frames_at_the_top_of_the_address_range() {
    assert_eq!(
        frame_span(1, usize::MAX, usize::MAX - 1),
        Some(FrameSpan { start: usize::MAX - 1, end: usize::MAX })
    );
    assert_eq!(frame_span(usize::MAX, usize::MAX, 1), None);
    assert_eq!(
        frame_span(usize::MAX - 1, usize::MAX, 1),
        Some(FrameSpan { start: usize::MAX - 1, end: usize::MAX })
    );
}

#[test]
fn capture_fails_only_if_both_devices_fail() {
    let failures = || {
        vec![
            StreamAttempt::NoDevice,
            StreamAttempt::ConfigUnavailable { reason: "a".to_string() },
            StreamAttempt::BuildFailed { reason: "b".to_string() },
            StreamAttempt::PlayFailed { reason: "c".to_string() },
        ]
    };
    for output in failures() {
        let note = match resolve_output_attempt(output) {
            OutputVerdict::TryInput { note } => note,
            OutputVerdict::Started(_) => panic!("a failed attempt cannot start capture"),
        };
        let runtime = resolve_input_attempt(playing(named("Mic")), &note).unwrap();
        assert_eq!(runtime.device_id, "input:Mic");
        for input in failures() {
            assert!(resolve_input_attempt(input, &note).is_err());
        }
    }
}
