//! Plain-value model of the capture endpoint.
//!
//! Opening devices and streams is the caller's business. What is decided
//! here is everything around it: how the devices found are listed, which
//! endpoint is tried in which order and what each failure leads to, and how
//! interleaved samples are cut into frames before they are folded to mono.

use vstd::prelude::*;
use vstd::arithmetic::div_mod::lemma_fundamental_div_mod;
use vstd::arithmetic::div_mod::lemma_fundamental_div_mod_converse;
use vstd::arithmetic::div_mod::lemma_mod_pos_bound;
use vstd::arithmetic::mul::lemma_mul_is_commutative;

verus! {

/// A run of mono samples as delivered by the sample source, stamped with the
/// wall-clock time of its capture.
#[derive(Debug, Clone)]
pub struct CaptureChunk<T> {
    pub timestamp_ms: u64,
    pub samples: Vec<T>,
}

/// What the pipeline needs to know of a running capture. The stream handle
/// itself stays with whoever opened it.
#[derive(Debug, Clone)]
pub struct CaptureRuntime {
    pub device_id: String,
    pub sample_rate: u32,
    pub channels: u16,
}

/// Mathematical content of a [`CaptureRuntime`].
pub struct CaptureRuntimeView {
    pub device_id: Seq<char>,
    pub sample_rate: u32,
    pub channels: u16,
}

impl View for CaptureRuntime {
    type V = CaptureRuntimeView;

    open spec fn view(&self) -> CaptureRuntimeView {
        CaptureRuntimeView {
            device_id: self.device_id@,
            sample_rate: self.sample_rate,
            channels: self.channels,
        }
    }
}

/// One entry of the device list shown for selection.
#[derive(Debug, Clone)]
pub struct AudioDeviceInfo {
    pub id: String,
    pub name: String,
    pub direction: String,
}

/// Mathematical content of an [`AudioDeviceInfo`].
pub struct AudioDeviceView {
    pub id: Seq<char>,
    pub name: Seq<char>,
    pub direction: Seq<char>,
}

impl View for AudioDeviceInfo {
    type V = AudioDeviceView;

    open spec fn view(&self) -> AudioDeviceView {
        AudioDeviceView { id: self.id@, name: self.name@, direction: self.direction@ }
    }
}

/// The name a device goes by: its own where it reports one, else `fallback`.
pub open spec fn shown_name(name: Option<String>, fallback: Seq<char>) -> Seq<char> {
    match name {
        Some(own) => own@,
        None => fallback,
    }
}

/// The id of a device: its direction, a colon, and the name it goes by.
pub open spec fn device_id_for(direction: Seq<char>, name: Seq<char>) -> Seq<char> {
    direction + ":"@ + name
}

/// The list entry of a device of the given direction.
pub open spec fn device_entry(name: Option<String>, direction: Seq<char>, fallback: Seq<char>)
    -> AudioDeviceView {
    AudioDeviceView {
        id: device_id_for(direction, shown_name(name, fallback)),
        name: shown_name(name, fallback),
        direction,
    }
}

/// The list entries of one direction, in enumeration order; none where the
/// enumeration itself failed.
pub open spec fn direction_entries(
    names: Option<Vec<Option<String>>>,
    direction: Seq<char>,
    fallback: Seq<char>,
) -> Seq<AudioDeviceView> {
    match names {
        Some(found) => Seq::new(
            found@.len(),
            |i: int| device_entry(found@[i], direction, fallback),
        ),
        None => Seq::empty(),
    }
}

/// The whole device list: inputs first, then outputs.
pub open spec fn device_catalog(
    input_names: Option<Vec<Option<String>>>,
    output_names: Option<Vec<Option<String>>>,
) -> Seq<AudioDeviceView> {
    direction_entries(input_names, "input"@, "Unknown Input Device"@) + direction_entries(
        output_names,
        "output"@,
        "Unknown Output Device"@,
    )
}

/// Contents of a device list.
pub open spec fn device_views(devices: Seq<AudioDeviceInfo>) -> Seq<AudioDeviceView> {
    Seq::new(devices.len(), |i: int| devices[i]@)
}

fn joined(head: &str, tail: &str) -> (text: String)
    ensures
        text@ == head@ + tail@,
{
    let mut text = head.to_owned();
    text.append(tail);
    text
}

fn name_or(name: &Option<String>, fallback: &str) -> (shown: String)
    ensures
        shown@ == shown_name(*name, fallback@),
{
    match name {
        Some(own) => own.clone(),
        None => fallback.to_owned(),
    }
}

fn device_id(direction: &str, name: &str) -> (id: String)
    ensures
        id@ == device_id_for(direction@, name@),
{
    let mut id = joined(direction, ":");
    id.append(name);
    id
}

fn append_direction(
    devices: &mut Vec<AudioDeviceInfo>,
    names: &Option<Vec<Option<String>>>,
    direction: &str,
    fallback: &str,
)
    ensures
        device_views(final(devices)@) == device_views(old(devices)@) + direction_entries(
            *names,
            direction@,
            fallback@,
        ),
{
    match names {
        Some(found) => {
            let count: usize = found.len();
            let mut i: usize = 0;
            while i < count
                invariant
                    count == found@.len(),
                    i <= count,
                    device_views(devices@) == device_views(old(devices)@) + Seq::new(
                        i as nat,
                        |k: int| device_entry(found@[k], direction@, fallback@),
                    ),
                decreases count - i,
            {
                let ghost before = devices@;
                let name = name_or(&found[i], fallback);
                let entry = AudioDeviceInfo {
                    id: device_id(direction, name.as_str()),
                    name,
                    direction: direction.to_owned(),
                };
                devices.push(entry);
                assert(device_views(devices@) =~= device_views(before).push(
                    device_entry(found@[i as int], direction@, fallback@),
                ));
                assert(Seq::new(
                    (i + 1) as nat,
                    |k: int| device_entry(found@[k], direction@, fallback@),
                ) =~= Seq::new(
                    i as nat,
                    |k: int| device_entry(found@[k], direction@, fallback@),
                ).push(device_entry(found@[i as int], direction@, fallback@)));
                i += 1;
            }
        },
        None => {
            assert(device_views(devices@) == device_views(devices@) + Seq::<
                AudioDeviceView,
            >::empty());
        },
    }
}

/// Lists the devices found for selection: every input, then every output,
/// each under the id `direction:name`. `None` stands for an enumeration that
/// failed, a `None` name for a device that would not tell its name. Finding
/// no device at all is an error.
pub fn list_audio_devices(
    input_names: Option<Vec<Option<String>>>,
    output_names: Option<Vec<Option<String>>>,
) -> (result: Result<Vec<AudioDeviceInfo>, String>)
    ensures
        match result {
            Ok(devices) => {
                &&& device_views(devices@) == device_catalog(input_names, output_names)
                &&& devices@.len() > 0
            },
            Err(message) => {
                &&& device_catalog(input_names, output_names).len() == 0
                &&& message@ == "no audio devices found"@
            },
        },
{
    let mut devices: Vec<AudioDeviceInfo> = Vec::new();
    assert(device_views(devices@) == Seq::<AudioDeviceView>::empty());
    append_direction(&mut devices, &input_names, "input", "Unknown Input Device");
    append_direction(&mut devices, &output_names, "output", "Unknown Output Device");
    if devices.is_empty() {
        return Err("no audio devices found".to_owned());
    }
    Ok(devices)
}

/// How the attempt to capture from one endpoint ended.
pub enum StreamAttempt {
    /// The host has no default device of this kind.
    NoDevice,
    /// The device would not give its default stream configuration.
    ConfigUnavailable { reason: String },
    /// No stream could be built for the configuration.
    BuildFailed { reason: String },
    /// The stream was built but would not start.
    PlayFailed { reason: String },
    /// The stream is running.
    Playing { name: Option<String>, sample_rate: u32, channels: u16 },
}

/// What follows from the attempt on the default output device.
pub enum OutputVerdict {
    /// Loopback capture is running.
    Started(CaptureRuntime),
    /// The default input device is tried next; `note` says what went wrong
    /// with the output device, and is empty where there was none.
    TryInput { note: String },
}

/// Mathematical content of an [`OutputVerdict`].
pub enum OutputVerdictView {
    Started(CaptureRuntimeView),
    TryInput { note: Seq<char> },
}

impl View for OutputVerdict {
    type V = OutputVerdictView;

    open spec fn view(&self) -> OutputVerdictView {
        match *self {
            OutputVerdict::Started(runtime) => OutputVerdictView::Started(runtime@),
            OutputVerdict::TryInput { note } => OutputVerdictView::TryInput { note: note@ },
        }
    }
}

/// The capture running on the device called `name` of the given direction.
pub open spec fn runtime_for(
    direction: Seq<char>,
    name: Option<String>,
    fallback: Seq<char>,
    sample_rate: u32,
    channels: u16,
) -> CaptureRuntimeView {
    CaptureRuntimeView {
        device_id: device_id_for(direction, shown_name(name, fallback)),
        sample_rate,
        channels,
    }
}

/// The rule for the output device, tried first: a running stream settles
/// the matter, and every failure hands over to the input device with a note
/// of what went wrong.
pub open spec fn output_verdict(attempt: StreamAttempt) -> OutputVerdictView {
    match attempt {
        StreamAttempt::NoDevice => OutputVerdictView::TryInput { note: Seq::empty() },
        StreamAttempt::ConfigUnavailable { reason } => OutputVerdictView::TryInput {
            note: "failed to read output config: "@ + reason@,
        },
        StreamAttempt::BuildFailed { reason } => OutputVerdictView::TryInput {
            note: "output loopback failed: "@ + reason@,
        },
        StreamAttempt::PlayFailed { reason } => OutputVerdictView::TryInput {
            note: "failed to play output loopback stream: "@ + reason@,
        },
        StreamAttempt::Playing { name, sample_rate, channels } => OutputVerdictView::Started(
            runtime_for("output"@, name, "Default Output"@, sample_rate, channels),
        ),
    }
}

/// The rule for the input device, tried second: a running stream is the
/// capture, and every failure is final. Only the lack of an input device
/// repeats what went wrong with the output device.
pub open spec fn input_verdict(attempt: StreamAttempt, output_note: Seq<char>) -> Result<
    CaptureRuntimeView,
    Seq<char>,
> {
    match attempt {
        StreamAttempt::NoDevice => Err("no default input device available; "@ + output_note),
        StreamAttempt::ConfigUnavailable { reason } => Err(
            "failed to read input config: "@ + reason@,
        ),
        StreamAttempt::BuildFailed { reason } => Err(reason@),
        StreamAttempt::PlayFailed { reason } => Err(
            "failed to play input capture stream: "@ + reason@,
        ),
        StreamAttempt::Playing { name, sample_rate, channels } => Ok(
            runtime_for("input"@, name, "Default Input"@, sample_rate, channels),
        ),
    }
}

/// How starting capture ends, given how the attempt on the output device
/// ended and how the attempt on the input device ends if it is made.
pub open spec fn capture_outcome(output: StreamAttempt, input: StreamAttempt) -> Result<
    CaptureRuntimeView,
    Seq<char>,
> {
    match output_verdict(output) {
        OutputVerdictView::Started(runtime) => Ok(runtime),
        OutputVerdictView::TryInput { note } => input_verdict(input, note),
    }
}

/// Starting capture fails only if both devices fail: a playing output stream
/// is always taken, a playing input stream is taken whenever the output
/// device did not play, and the output device comes first.
pub proof fn lemma_capture_fails_only_if_both_fail(output: StreamAttempt, input: StreamAttempt)
    ensures
        capture_outcome(output, input) is Err <==> !(output is Playing) && !(input is Playing),
        output matches StreamAttempt::Playing { name, sample_rate, channels } ==> capture_outcome(
            output,
            input,
        ) == Ok::<CaptureRuntimeView, Seq<char>>(
            runtime_for("output"@, name, "Default Output"@, sample_rate, channels),
        ),
        !(output is Playing) ==> (input matches StreamAttempt::Playing {
            name,
            sample_rate,
            channels,
        } ==> capture_outcome(output, input) == Ok::<CaptureRuntimeView, Seq<char>>(
            runtime_for("input"@, name, "Default Input"@, sample_rate, channels),
        )),
{
}

/// Content of the outcome of a capture start.
pub open spec fn start_view(outcome: Result<CaptureRuntime, String>) -> Result<
    CaptureRuntimeView,
    Seq<char>,
> {
    match outcome {
        Ok(runtime) => Ok(runtime@),
        Err(message) => Err(message@),
    }
}

fn running_on(
    direction: &str,
    name: &Option<String>,
    fallback: &str,
    sample_rate: u32,
    channels: u16,
) -> (runtime: CaptureRuntime)
    ensures
        runtime@ == runtime_for(direction@, *name, fallback@, sample_rate, channels),
{
    let shown = name_or(name, fallback);
    CaptureRuntime { device_id: device_id(direction, shown.as_str()), sample_rate, channels }
}

/// Decides what follows from the attempt to capture the default output
/// device in loopback.
pub fn resolve_output_attempt(attempt: StreamAttempt) -> (verdict: OutputVerdict)
    ensures
        verdict@ == output_verdict(attempt),
{
    match attempt {
        StreamAttempt::NoDevice => OutputVerdict::TryInput { note: String::new() },
        StreamAttempt::ConfigUnavailable { reason } => OutputVerdict::TryInput {
            note: joined("failed to read output config: ", reason.as_str()),
        },
        StreamAttempt::BuildFailed { reason } => OutputVerdict::TryInput {
            note: joined("output loopback failed: ", reason.as_str()),
        },
        StreamAttempt::PlayFailed { reason } => OutputVerdict::TryInput {
            note: joined("failed to play output loopback stream: ", reason.as_str()),
        },
        StreamAttempt::Playing { name, sample_rate, channels } => OutputVerdict::Started(
            running_on("output", &name, "Default Output", sample_rate, channels),
        ),
    }
}

/// Decides how capture ends after the attempt on the default input device,
/// made because the output device left `output_note`.
pub fn resolve_input_attempt(attempt: StreamAttempt, output_note: &str) -> (outcome: Result<
    CaptureRuntime,
    String,
>)
    ensures
        start_view(outcome) == input_verdict(attempt, output_note@),
{
    match attempt {
        StreamAttempt::NoDevice => Err(joined("no default input device available; ", output_note)),
        StreamAttempt::ConfigUnavailable { reason } => Err(
            joined("failed to read input config: ", reason.as_str()),
        ),
        StreamAttempt::BuildFailed { reason } => Err(reason),
        StreamAttempt::PlayFailed { reason } => Err(
            joined("failed to play input capture stream: ", reason.as_str()),
        ),
        StreamAttempt::Playing { name, sample_rate, channels } => Ok(
            running_on("input", &name, "Default Input", sample_rate, channels),
        ),
    }
}

/// A run of interleaved samples that belong to one frame: positions
/// `start..end` of the buffer.
#[derive(Clone, Copy, Debug, PartialEq, Eq, Structural)]
pub struct FrameSpan {
    pub start: usize,
    pub end: usize,
}

/// Number of frames in `sample_count` interleaved samples of `channels`
/// channels. A trailing partial frame counts; without channels there are no
/// frames.
pub open spec fn frame_total(sample_count: nat, channels: nat) -> nat {
    if channels == 0 {
        0
    } else {
        ((sample_count + channels - 1) / (channels as int)) as nat
    }
}

/// Where frame `index` starts in the buffer.
pub open spec fn frame_start(index: nat, channels: nat) -> nat {
    index * channels
}

/// Where frame `index` ends in the buffer: one frame further, or at the end
/// of the buffer for a trailing partial frame.
pub open spec fn frame_end(index: nat, sample_count: nat, channels: nat) -> nat {
    if (index + 1) * channels <= sample_count {
        (index + 1) * channels
    } else {
        sample_count
    }
}

/// The frames tile the buffer: each is non-empty and at most `channels`
/// long, each starts where the one before ends, the first starts at the
/// front and the last ends at the back.
pub proof fn lemma_frames_tile(sample_count: nat, channels: nat, index: nat)
    requires
        channels > 0,
        index < frame_total(sample_count, channels),
    ensures
        frame_start(index, channels) < frame_end(index, sample_count, channels) <= sample_count,
        frame_end(index, sample_count, channels) - frame_start(index, channels) <= channels,
        frame_start(0, channels) == 0,
        index + 1 < frame_total(sample_count, channels) ==> frame_end(
            index,
            sample_count,
            channels,
        ) == frame_start(index + 1, channels),
        index + 1 == frame_total(sample_count, channels) ==> frame_end(
            index,
            sample_count,
            channels,
        ) == sample_count,
{
    let total = frame_total(sample_count, channels) as int;
    let c = channels as int;
    let n = sample_count as int;
    let i = index as int;
    assert(total * c >= n && (total - 1) * c < n) by (nonlinear_arith)
        requires
            total == (n + c - 1) / c,
            c > 0,
            n >= 0,
    ;
    assert(i * c < n) by (nonlinear_arith)
        requires
            i <= total - 1,
            (total - 1) * c < n,
            c > 0,
    ;
    assert((i + 1) * c == i * c + c) by (nonlinear_arith);
    assert(0 * c == 0);
    if i + 1 < total {
        assert((i + 1) * c <= n) by (nonlinear_arith)
            requires
                i + 1 <= total - 1,
                (total - 1) * c < n,
                c > 0,
        ;
    }
    if i + 1 == total {
        assert((i + 1) * c >= n);
    }
}

proof fn lemma_ceiling_quotient(n: int, c: int)
    requires
        n >= 0,
        c > 0,
    ensures
        (n + c - 1) / c == if n % c == 0 {
            n / c
        } else {
            n / c + 1
        },
        0 <= n / c <= n,
        n % c != 0 ==> n / c < n,
{
    let q = n / c;
    let r = n % c;
    lemma_fundamental_div_mod(n, c);
    lemma_mod_pos_bound(n, c);
    assert(n == q * c + r) by {
        lemma_mul_is_commutative(c, q);
    }
    assert(0 <= q <= n) by (nonlinear_arith)
        requires
            n == q * c + r,
            0 <= r < c,
            n >= 0,
    ;
    if r == 0 {
        lemma_fundamental_div_mod_converse(n + c - 1, c, q, c - 1);
    } else {
        assert(n + c - 1 == (q + 1) * c + (r - 1)) by (nonlinear_arith)
            requires
                n == q * c + r,
        ;
        lemma_fundamental_div_mod_converse(n + c - 1, c, q + 1, r - 1);
        assert(q < n) by (nonlinear_arith)
            requires
                n == q * c + r,
                r > 0,
                c > 0,
                q >= 0,
        ;
    }
}

/// Number of frames to fold: see [`frame_total`].
pub fn frame_count(sample_count: usize, channels: usize) -> (count: usize)
    ensures
        count == frame_total(sample_count as nat, channels as nat),
{
    if channels == 0 {
        return 0;
    }
    let whole: usize = sample_count / channels;
    let rest: usize = sample_count % channels;
    proof {
        lemma_ceiling_quotient(sample_count as int, channels as int);
    }
    if rest == 0 {
        whole
    } else {
        whole + 1
    }
}

/// The samples of frame `index`, where the buffer has such a frame.
pub fn frame_span(index: usize, sample_count: usize, channels: usize) -> (span: Option<FrameSpan>)
    ensures
        span is Some <==> index < frame_total(sample_count as nat, channels as nat),
        span matches Some(found) ==> {
            &&& found.start == frame_start(index as nat, channels as nat)
            &&& found.end == frame_end(index as nat, sample_count as nat, channels as nat)
            &&& found.start < found.end <= sample_count
        },
{
    if index >= frame_count(sample_count, channels) {
        return None;
    }
    proof {
        lemma_frames_tile(sample_count as nat, channels as nat, index as nat);
        assert((index + 1) * channels == index * channels + channels) by (nonlinear_arith);
    }
    let start: usize = index * channels;
    let end: usize = if sample_count - start >= channels {
        start + channels
    } else {
        sample_count
    };
    Some(FrameSpan { start, end })
}

} // verus!
