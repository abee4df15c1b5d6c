//! The emission scheduler as a state machine.
//!
//! The loop that owns the clock, the channel and the display calls in here
//! once per turn: it reports what the sample source delivered, then asks what
//! to do at the current time. A session starts idle, runs live once the
//! source has started, and fails over to the synthetic generator when the
//! source cannot start or its stream ends.

use vstd::prelude::*;
use crate::audio::accumulator::retained;
use crate::audio::accumulator::SampleAccumulator;
use crate::audio::accumulator::TRIM_THRESHOLD_WINDOWS;
use crate::audio::capture::CaptureChunk;
use crate::audio::capture::CaptureRuntime;
use crate::telemetry::throttle::elapsed_ms;
use crate::telemetry::throttle::elapsed_since;
use crate::telemetry::throttle::emitted;
use crate::telemetry::throttle::frame_due;
use crate::telemetry::throttle::interval_elapsed;
use crate::telemetry::throttle::intervals_at_least;
use crate::telemetry::throttle::lemma_emitted_count_bounded;
use crate::telemetry::throttle::lemma_emitted_gaps;
use crate::telemetry::throttle::mark_after;
use crate::telemetry::throttle::turn_emits;
use crate::telemetry::throttle::turns_within;
use crate::telemetry::throttle::Turn;

verus! {

/// Device id carried by every synthetic frame; no live source ever reports it.
pub const FALLBACK_DEVICE_ID: &'static str = "mock-device";

/// Capture age, in milliseconds, that synthetic frames report in place of a
/// measured one.
pub const SYNTHETIC_CAPTURE_AGE_MS: u64 = 4;

/// Where a session stands in its life.
#[derive(Clone, Copy, Debug, PartialEq, Eq, Structural)]
pub enum SessionPhase {
    /// Created; the sample source has not been started yet.
    Idle,
    /// The live source is delivering samples.
    Running,
    /// Shut down on request; nothing is produced any more.
    Stopped,
    /// The live source is gone; the synthetic generator has taken over.
    FailedOver,
}

/// What one bounded wait on the sample source came back with.
pub enum SourceEvent<T> {
    /// A chunk of samples arrived.
    Chunk(CaptureChunk<T>),
    /// Nothing arrived within the wait.
    Timeout,
    /// The producer side is gone for good.
    Disconnected,
}

/// Why a live turn does not reach the analyzer.
#[derive(Clone, Copy, Debug, PartialEq, Eq, Structural)]
pub enum SkipReason {
    /// Less than one emit interval has passed since the last frame.
    Throttled,
    /// Fewer samples than one analysis window are buffered.
    ColdStart,
}

/// Header of a frame that is to be published.
#[derive(Debug, Clone)]
pub struct FrameStamp {
    pub timestamp_ms: u64,
    pub device_id: String,
    /// Age of the newest samples behind the frame.
    pub capture_age_ms: u64,
    /// Emit interval in force when the frame was scheduled.
    pub emit_interval_ms: u64,
}

/// Mathematical content of a [`FrameStamp`].
pub struct FrameStampView {
    pub timestamp_ms: u64,
    pub device_id: Seq<char>,
    pub capture_age_ms: u64,
    pub emit_interval_ms: u64,
}

impl View for FrameStamp {
    type V = FrameStampView;

    open spec fn view(&self) -> FrameStampView {
        FrameStampView {
            timestamp_ms: self.timestamp_ms,
            device_id: self.device_id@,
            capture_age_ms: self.capture_age_ms,
            emit_interval_ms: self.emit_interval_ms,
        }
    }
}

impl FrameStampView {
    /// Upper-bound estimate of the delay from sampling to display: the age
    /// of the newest samples plus one emit interval.
    pub open spec fn latency_estimate_ms(self) -> int {
        self.capture_age_ms + self.emit_interval_ms
    }
}

impl FrameStamp {
    /// The latency estimate in whole milliseconds, saturating at the top of
    /// the range.
    pub fn latency_estimate_ms(&self) -> (latency: u64)
        ensures
            latency == if self@.latency_estimate_ms() <= u64::MAX {
                self@.latency_estimate_ms()
            } else {
                u64::MAX as int
            },
    {
        self.capture_age_ms.saturating_add(self.emit_interval_ms)
    }
}

/// What the surrounding loop is to do in this turn.
pub enum Directive<T> {
    /// Nothing: the session is idle or stopped.
    Rest,
    /// Live session, no analysis this turn.
    Skip(SkipReason),
    /// Live session: run the analyzer on `window`, then publish the result
    /// under `frame`. Without a frame the output is paused: the analyzer
    /// still runs, nothing is published.
    Analyze { window: Vec<T>, frame: Option<FrameStamp> },
    /// Fallback: advance the synthetic generator by one tick and publish its
    /// frame under `frame`; without a frame the output is paused and the
    /// generator holds still. Either way sleep `sleep_ms` before the next turn.
    Synthesize { frame: Option<FrameStamp>, sleep_ms: u64 },
}

/// Mathematical content of a [`Directive`].
pub enum DirectiveView<T> {
    Rest,
    Skip(SkipReason),
    Analyze { window: Seq<T>, frame: Option<FrameStampView> },
    Synthesize { frame: Option<FrameStampView>, sleep_ms: u64 },
}

/// Content of an optional frame header.
pub open spec fn stamp_view(frame: Option<FrameStamp>) -> Option<FrameStampView> {
    match frame {
        Some(stamp) => Some(stamp@),
        None => None,
    }
}

impl<T> View for Directive<T> {
    type V = DirectiveView<T>;

    open spec fn view(&self) -> DirectiveView<T> {
        match *self {
            Directive::Rest => DirectiveView::Rest,
            Directive::Skip(reason) => DirectiveView::Skip(reason),
            Directive::Analyze { window, frame } => DirectiveView::Analyze {
                window: window@,
                frame: stamp_view(frame),
            },
            Directive::Synthesize { frame, sleep_ms } => DirectiveView::Synthesize {
                frame: stamp_view(frame),
                sleep_ms,
            },
        }
    }
}

/// Mathematical content of a [`LiveSession`].
pub struct LiveView<T> {
    /// Buffered samples, oldest first.
    pub history: Seq<T>,
    /// Samples per analysis window.
    pub window_size: nat,
    /// Id of the device the samples come from.
    pub device_id: Seq<char>,
    /// Capture time of the newest chunk, or the session's start time.
    pub latest_capture_ts: u64,
    /// Time of the last published frame; zero before the first.
    pub last_emit_ts: u64,
}

impl<T> LiveView<T> {
    /// The session after a chunk captured at `timestamp_ms` was taken in.
    pub open spec fn after_chunk(self, timestamp_ms: u64, samples: Seq<T>) -> LiveView<T> {
        LiveView {
            history: retained(self.history + samples, self.window_size),
            latest_capture_ts: timestamp_ms,
            ..self
        }
    }

    /// Whether a full analysis window is buffered.
    pub open spec fn window_ready(self) -> bool {
        self.history.len() >= self.window_size
    }

    /// The newest full window; meaningful once `window_ready`.
    pub open spec fn window(self) -> Seq<T> {
        self.history.subrange(self.history.len() - self.window_size, self.history.len() as int)
    }

    /// What a poll at `now` contributes to the emission decision.
    pub open spec fn turn(self, now: u64, emit_interval_ms: u64, paused: bool) -> Turn {
        Turn { now, emit_interval_ms, window_ready: self.window_ready(), paused }
    }

    /// Header of the frame a poll at `now` publishes.
    pub open spec fn stamp(self, now: u64, emit_interval_ms: u64) -> FrameStampView {
        FrameStampView {
            timestamp_ms: now,
            device_id: self.device_id,
            capture_age_ms: elapsed_ms(now, self.latest_capture_ts) as u64,
            emit_interval_ms,
        }
    }

    /// What a poll at `now` tells the loop to do: first the throttle, then
    /// the cold-start check, then analysis, published unless paused.
    pub open spec fn directive(self, now: u64, emit_interval_ms: u64, paused: bool)
        -> DirectiveView<T> {
        if !interval_elapsed(self.last_emit_ts, now, emit_interval_ms) {
            DirectiveView::Skip(SkipReason::Throttled)
        } else if !self.window_ready() {
            DirectiveView::Skip(SkipReason::ColdStart)
        } else {
            DirectiveView::Analyze {
                window: self.window(),
                frame: if paused {
                    None
                } else {
                    Some(self.stamp(now, emit_interval_ms))
                },
            }
        }
    }

    /// The session after a poll at `now`: only the emission mark can move,
    /// and it moves exactly when a frame is published.
    pub open spec fn after_poll(self, now: u64, emit_interval_ms: u64, paused: bool) -> LiveView<
        T,
    > {
        LiveView {
            last_emit_ts: mark_after(self.last_emit_ts, self.turn(now, emit_interval_ms, paused)),
            ..self
        }
    }
}

/// One thing that happens to a live session: a chunk arrives, or the loop
/// polls for the next action.
pub enum LiveStep<T> {
    Chunk { timestamp_ms: u64, samples: Seq<T> },
    Poll { now: u64, emit_interval_ms: u64, paused: bool },
}

impl<T> LiveView<T> {
    /// The session after `step`.
    pub open spec fn after_step(self, step: LiveStep<T>) -> LiveView<T> {
        match step {
            LiveStep::Chunk { timestamp_ms, samples } => self.after_chunk(timestamp_ms, samples),
            LiveStep::Poll { now, emit_interval_ms, paused } => self.after_poll(
                now,
                emit_interval_ms,
                paused,
            ),
        }
    }

    /// Whether `step` publishes a frame.
    pub open spec fn publishes(self, step: LiveStep<T>) -> bool {
        match step {
            LiveStep::Chunk { .. } => false,
            LiveStep::Poll { now, emit_interval_ms, paused } => self.directive(
                now,
                emit_interval_ms,
                paused,
            ) matches DirectiveView::Analyze { frame: Some(_), .. },
        }
    }

    /// Timestamps of the frames published over `steps`, in order.
    pub open spec fn published(self, steps: Seq<LiveStep<T>>) -> Seq<u64>
        decreases steps.len(),
    {
        if steps.len() == 0 {
            Seq::empty()
        } else {
            let rest = self.after_step(steps[0]).published(steps.drop_first());
            match steps[0] {
                LiveStep::Poll { now, .. } if self.publishes(steps[0]) => seq![now] + rest,
                _ => rest,
            }
        }
    }

    /// The polls among `steps`, each reduced to what the throttle reads in
    /// the state the session has reached by then.
    pub open spec fn turns(self, steps: Seq<LiveStep<T>>) -> Seq<Turn>
        decreases steps.len(),
    {
        if steps.len() == 0 {
            Seq::empty()
        } else {
            let rest = self.after_step(steps[0]).turns(steps.drop_first());
            match steps[0] {
                LiveStep::Poll { now, emit_interval_ms, paused } => seq![
                    self.turn(now, emit_interval_ms, paused),
                ] + rest,
                LiveStep::Chunk { .. } => rest,
            }
        }
    }
}

/// Every poll among `steps` uses an emit interval of at least `floor_ms`.
pub open spec fn polls_at_least<T>(steps: Seq<LiveStep<T>>, floor_ms: u64) -> bool {
    forall|i: int|
        0 <= i < steps.len() ==> (#[trigger] steps[i] matches LiveStep::Poll {
            emit_interval_ms,
            ..
        } ==> emit_interval_ms >= floor_ms)
}

/// Every poll among `steps` happens in `[start, start + duration)`.
pub open spec fn polls_within<T>(steps: Seq<LiveStep<T>>, start: int, duration: int) -> bool {
    forall|i: int|
        0 <= i < steps.len() ==> (#[trigger] steps[i] matches LiveStep::Poll { now, .. } ==> start
            <= now < start + duration)
}

/// What a live session publishes is what the throttle lets through: chunks
/// matter only in that they fill the window.
pub proof fn lemma_published_is_throttled<T>(live: LiveView<T>, steps: Seq<LiveStep<T>>)
    ensures
        live.published(steps) == emitted(live.last_emit_ts, live.turns(steps)),
    decreases steps.len(),
{
    if steps.len() > 0 {
        let next = live.after_step(steps[0]);
        let rest = steps.drop_first();
        lemma_published_is_throttled(next, rest);
        match steps[0] {
            LiveStep::Poll { now, emit_interval_ms, paused } => {
                let turn = live.turn(now, emit_interval_ms, paused);
                let turns = live.turns(steps);
                assert(turns == seq![turn] + next.turns(rest));
                assert(turns[0] == turn);
                assert(turns.drop_first() == next.turns(rest));
                assert(live.publishes(steps[0]) == turn_emits(live.last_emit_ts, turn));
                assert(next.last_emit_ts == mark_after(live.last_emit_ts, turn));
            },
            LiveStep::Chunk { .. } => {
                assert(next.last_emit_ts == live.last_emit_ts);
            },
        }
    }
}

proof fn lemma_turns_inherit<T>(
    live: LiveView<T>,
    steps: Seq<LiveStep<T>>,
    floor_ms: u64,
    start: int,
    duration: int,
)
    ensures
        polls_at_least(steps, floor_ms) ==> intervals_at_least(live.turns(steps), floor_ms),
        polls_within(steps, start, duration) ==> turns_within(live.turns(steps), start, duration),
    decreases steps.len(),
{
    if steps.len() > 0 {
        let next = live.after_step(steps[0]);
        let rest = steps.drop_first();
        let first = steps[0];
        lemma_turns_inherit(next, rest, floor_ms, start, duration);
        let turns = live.turns(steps);
        let later = next.turns(rest);
        if polls_at_least(steps, floor_ms) {
            assert(polls_at_least(rest, floor_ms)) by {
                assert forall|i: int| 0 <= i < rest.len() implies (#[trigger] rest[i] matches LiveStep::Poll {
                    emit_interval_ms,
                    ..
                } ==> emit_interval_ms >= floor_ms) by {
                    assert(rest[i] == steps[i + 1]);
                }
            }
            assert forall|i: int| 0 <= i < turns.len() implies (#[trigger] turns[i]).emit_interval_ms
                >= floor_ms by {
                match first {
                    LiveStep::Poll { .. } => {
                        if i > 0 {
                            assert(turns[i] == later[i - 1]);
                        }
                    },
                    LiveStep::Chunk { .. } => {},
                }
            }
        }
        if polls_within(steps, start, duration) {
            assert(polls_within(rest, start, duration)) by {
                assert forall|i: int| 0 <= i < rest.len() implies (#[trigger] rest[i] matches LiveStep::Poll {
                    now,
                    ..
                } ==> start <= now < start + duration) by {
                    assert(rest[i] == steps[i + 1]);
                }
            }
            assert forall|i: int| 0 <= i < turns.len() implies start <= (#[trigger] turns[i]).now
                < start + duration by {
                match first {
                    LiveStep::Poll { .. } => {
                        if i > 0 {
                            assert(turns[i] == later[i - 1]);
                        }
                    },
                    LiveStep::Chunk { .. } => {},
                }
            }
        }
    }
}

/// Throttling of a live session. However chunks and polls interleave, as
/// long as every poll uses an emit interval of at least `floor_ms` (one
/// millisecond or more): the published frames carry strictly increasing
/// timestamps, any two of them lie at least `floor_ms` apart, and polls
/// confined to `duration` milliseconds publish at most
/// `ceil(duration / floor_ms)` frames.
pub proof fn lemma_live_frames_throttled<T>(
    live: LiveView<T>,
    steps: Seq<LiveStep<T>>,
    floor_ms: u64,
    start: int,
    duration: int,
)
    requires
        floor_ms >= 1,
        duration >= 0,
        polls_at_least(steps, floor_ms),
        polls_within(steps, start, duration),
    ensures
        forall|j: int, k: int|
            #![trigger live.published(steps)[j], live.published(steps)[k]]
            0 <= j < k < live.published(steps).len() ==> live.published(steps)[j] + (k - j)
                * floor_ms <= live.published(steps)[k],
        forall|j: int, k: int|
            #![trigger live.published(steps)[j], live.published(steps)[k]]
            0 <= j < k < live.published(steps).len() ==> live.published(steps)[j]
                < live.published(steps)[k],
        live.published(steps).len() <= (duration + floor_ms - 1) / (floor_ms as int),
{
    let turns = live.turns(steps);
    lemma_published_is_throttled(live, steps);
    lemma_turns_inherit(live, steps, floor_ms, start, duration);
    lemma_emitted_gaps(live.last_emit_ts, turns, floor_ms);
    lemma_emitted_count_bounded(live.last_emit_ts, turns, floor_ms, start, duration);
    let frames = live.published(steps);
    assert forall|j: int, k: int| 0 <= j < k < frames.len() implies #[trigger] frames[j]
        < #[trigger] frames[k] by {
        assert(frames[k] >= frames[j] + (k - j) * floor_ms);
        assert((k - j) * floor_ms >= 1) by (nonlinear_arith)
            requires
                k - j >= 1,
                floor_ms >= 1,
        ;
    }
}

/// A running capture session: the sample history and the two timestamps the
/// scheduler keeps between turns.
pub struct LiveSession<T> {
    accumulator: SampleAccumulator<T>,
    device_id: String,
    latest_capture_ts: u64,
    last_emit_ts: u64,
}

impl<T> View for LiveSession<T> {
    type V = LiveView<T>;

    closed spec fn view(&self) -> LiveView<T> {
        LiveView {
            history: self.accumulator@,
            window_size: self.accumulator.spec_window_size(),
            device_id: self.device_id@,
            latest_capture_ts: self.latest_capture_ts,
            last_emit_ts: self.last_emit_ts,
        }
    }
}

impl<T: Copy> LiveSession<T> {
    /// A session on the capture described by `runtime`, started at `now`,
    /// with nothing buffered and no frame published yet.
    pub fn new(runtime: CaptureRuntime, window_size: usize, now: u64) -> (session: Self)
        ensures
            session@ == (LiveView {
                history: Seq::<T>::empty(),
                window_size: window_size as nat,
                device_id: runtime.device_id@,
                latest_capture_ts: now,
                last_emit_ts: 0,
            }),
    {
        LiveSession {
            accumulator: SampleAccumulator::new(window_size),
            device_id: runtime.device_id,
            latest_capture_ts: now,
            last_emit_ts: 0,
        }
    }

    /// Number of buffered samples.
    pub fn buffered(&self) -> (len: usize)
        ensures
            len == self@.history.len(),
            len <= TRIM_THRESHOLD_WINDOWS * self@.window_size,
    {
        self.accumulator.len()
    }

    /// Samples the analyzer needs for one frame.
    pub fn required_samples(&self) -> (size: usize)
        ensures
            size == self@.window_size,
    {
        self.accumulator.window_size()
    }

    /// Time of the last published frame; zero before the first.
    pub fn last_emit_ts(&self) -> (ts: u64)
        ensures
            ts == self@.last_emit_ts,
    {
        self.last_emit_ts
    }

    /// Capture time of the newest chunk, or the start time before any.
    pub fn latest_capture_ts(&self) -> (ts: u64)
        ensures
            ts == self@.latest_capture_ts,
    {
        self.latest_capture_ts
    }

    /// Takes in a chunk: its samples join the history under the overflow
    /// policy and its capture time becomes the newest.
    pub fn ingest(&mut self, chunk: &CaptureChunk<T>)
        ensures
            final(self)@ == old(self)@.after_chunk(chunk.timestamp_ms, chunk.samples@),
    {
        self.latest_capture_ts = chunk.timestamp_ms;
        self.accumulator.push(chunk.samples.as_slice());
    }

    /// Decides one turn at time `now` under the emit interval and pause flag
    /// read for this turn.
    pub fn poll(&mut self, now: u64, emit_interval_ms: u64, paused: bool) -> (directive: Directive<
        T,
    >)
        ensures
            directive@ == old(self)@.directive(now, emit_interval_ms, paused),
            final(self)@ == old(self)@.after_poll(now, emit_interval_ms, paused),
    {
        if !frame_due(self.last_emit_ts, now, emit_interval_ms) {
            return Directive::Skip(SkipReason::Throttled);
        }
        let window = match self.accumulator.full_window() {
            Some(window) => window,
            None => {
                return Directive::Skip(SkipReason::ColdStart);
            },
        };
        if paused {
            return Directive::Analyze { window, frame: None };
        }
        let frame = FrameStamp {
            timestamp_ms: now,
            device_id: self.device_id.clone(),
            capture_age_ms: elapsed_since(now, self.latest_capture_ts),
            emit_interval_ms,
        };
        self.last_emit_ts = now;
        Directive::Analyze { window, frame: Some(frame) }
    }
}

/// Mathematical content of a [`Session`].
pub enum SessionView<T> {
    /// Not started; windows will hold `window_size` samples.
    Idle { window_size: nat },
    /// Running on a live source.
    Live(LiveView<T>),
    /// Shut down on request.
    Stopped,
    /// Running on the synthetic generator.
    Synthetic,
}

/// Header of the synthetic frame published at `now`.
pub open spec fn synthetic_stamp(now: u64, emit_interval_ms: u64) -> FrameStampView {
    FrameStampView {
        timestamp_ms: now,
        device_id: FALLBACK_DEVICE_ID@,
        capture_age_ms: SYNTHETIC_CAPTURE_AGE_MS,
        emit_interval_ms,
    }
}

impl<T> SessionView<T> {
    pub open spec fn phase(self) -> SessionPhase {
        match self {
            SessionView::Idle { .. } => SessionPhase::Idle,
            SessionView::Live(_) => SessionPhase::Running,
            SessionView::Stopped => SessionPhase::Stopped,
            SessionView::Synthetic => SessionPhase::FailedOver,
        }
    }

    /// The session after the attempt to start the sample source came back
    /// with `outcome` at time `now`. Only an idle session starts: it runs
    /// live on success and fails over on error.
    pub open spec fn after_start(self, outcome: Result<CaptureRuntime, String>, now: u64)
        -> SessionView<T> {
        match self {
            SessionView::Idle { window_size } => match outcome {
                Ok(runtime) => SessionView::Live(
                    LiveView {
                        history: Seq::empty(),
                        window_size,
                        device_id: runtime.device_id@,
                        latest_capture_ts: now,
                        last_emit_ts: 0,
                    },
                ),
                Err(_) => SessionView::Synthetic,
            },
            _ => self,
        }
    }

    /// The session after one wait on the sample source. Only a live session
    /// listens: a chunk is taken in, a timeout changes nothing, and the end
    /// of the stream fails the session over.
    pub open spec fn after_event(self, event: SourceEvent<T>) -> SessionView<T> {
        match self {
            SessionView::Live(live) => match event {
                SourceEvent::Chunk(chunk) => SessionView::Live(
                    live.after_chunk(chunk.timestamp_ms, chunk.samples@),
                ),
                SourceEvent::Timeout => self,
                SourceEvent::Disconnected => SessionView::Synthetic,
            },
            _ => self,
        }
    }

    /// The session after a request to shut down, which only a live session
    /// honours.
    pub open spec fn after_stop(self) -> SessionView<T> {
        match self {
            SessionView::Live(_) => SessionView::Stopped,
            _ => self,
        }
    }

    /// What a poll at `now` tells the loop to do.
    pub open spec fn directive(self, now: u64, emit_interval_ms: u64, paused: bool)
        -> DirectiveView<T> {
        match self {
            SessionView::Live(live) => live.directive(now, emit_interval_ms, paused),
            SessionView::Synthetic => DirectiveView::Synthesize {
                frame: if paused {
                    None
                } else {
                    Some(synthetic_stamp(now, emit_interval_ms))
                },
                sleep_ms: emit_interval_ms,
            },
            _ => DirectiveView::Rest,
        }
    }

    /// The session after a poll at `now`.
    pub open spec fn after_poll(self, now: u64, emit_interval_ms: u64, paused: bool)
        -> SessionView<T> {
        match self {
            SessionView::Live(live) => SessionView::Live(
                live.after_poll(now, emit_interval_ms, paused),
            ),
            _ => self,
        }
    }
}

/// The moves a session can make between phases: an idle session starts
/// running or fails over, a running one stops or fails over, and nothing
/// leaves the stopped or the failed-over phase.
pub open spec fn phase_move_allowed(from: SessionPhase, to: SessionPhase) -> bool {
    ||| from == to
    ||| from == SessionPhase::Idle && (to == SessionPhase::Running || to
        == SessionPhase::FailedOver)
    ||| from == SessionPhase::Running && (to == SessionPhase::Stopped || to
        == SessionPhase::FailedOver)
}

/// Whatever is reported to a session, its phase only moves along the
/// lifecycle, and a poll never moves it.
pub proof fn lemma_phases_follow_lifecycle<T>(
    session: SessionView<T>,
    outcome: Result<CaptureRuntime, String>,
    event: SourceEvent<T>,
    now: u64,
    emit_interval_ms: u64,
    paused: bool,
)
    ensures
        phase_move_allowed(session.phase(), session.after_start(outcome, now).phase()),
        phase_move_allowed(session.phase(), session.after_event(event).phase()),
        phase_move_allowed(session.phase(), session.after_stop().phase()),
        session.after_poll(now, emit_interval_ms, paused).phase() == session.phase(),
{
}

/// Both ways of losing the live source end in the fallback: a source that
/// fails to start, and a stream that ends while running.
pub proof fn lemma_source_loss_fails_over<T>(
    session: SessionView<T>,
    outcome: Result<CaptureRuntime, String>,
    now: u64,
)
    ensures
        session.phase() == SessionPhase::Idle && outcome is Err ==> session.after_start(
            outcome,
            now,
        ).phase() == SessionPhase::FailedOver,
        session.phase() == SessionPhase::Running ==> session.after_event(
            SourceEvent::Disconnected,
        ).phase() == SessionPhase::FailedOver,
{
}

/// A failed-over session keeps the display fed: every poll while not paused
/// publishes a frame under the fallback device id, stamped with the time of
/// the poll, and asks for one emit interval of sleep; a paused poll only
/// sleeps. The session stays failed over.
pub proof fn lemma_fallback_keeps_publishing<T>(
    session: SessionView<T>,
    now: u64,
    emit_interval_ms: u64,
    paused: bool,
)
    requires
        session.phase() == SessionPhase::FailedOver,
    ensures
        session.after_poll(now, emit_interval_ms, paused) == session,
        session.directive(now, emit_interval_ms, paused) matches DirectiveView::Synthesize {
            frame,
            sleep_ms,
        } && sleep_ms == emit_interval_ms && (paused ==> frame is None) && (!paused ==> frame
            == Some(synthetic_stamp(now, emit_interval_ms))),
        synthetic_stamp(now, emit_interval_ms).device_id == FALLBACK_DEVICE_ID@,
        synthetic_stamp(now, emit_interval_ms).timestamp_ms == now,
        synthetic_stamp(now, emit_interval_ms).latency_estimate_ms() == emit_interval_ms
            + SYNTHETIC_CAPTURE_AGE_MS,
{
}

enum Stage<T> {
    Idle { window_size: usize },
    Live(LiveSession<T>),
    Stopped,
    Synthetic,
}

/// One scheduling session, from idle through live capture to its end or to
/// the synthetic fallback.
pub struct Session<T> {
    stage: Stage<T>,
}

impl<T> View for Session<T> {
    type V = SessionView<T>;

    closed spec fn view(&self) -> SessionView<T> {
        match self.stage {
            Stage::Idle { window_size } => SessionView::Idle { window_size: window_size as nat },
            Stage::Live(live) => SessionView::Live(live@),
            Stage::Stopped => SessionView::Stopped,
            Stage::Synthetic => SessionView::Synthetic,
        }
    }
}

impl<T: Copy> Session<T> {
    /// An idle session whose analysis windows will hold `window_size` samples.
    pub fn new(window_size: usize) -> (session: Self)
        ensures
            session@ == (SessionView::<T>::Idle { window_size: window_size as nat }),
    {
        Session { stage: Stage::Idle { window_size } }
    }

    /// Where the session stands.
    pub fn phase(&self) -> (phase: SessionPhase)
        ensures
            phase == self@.phase(),
    {
        match &self.stage {
            Stage::Idle { .. } => SessionPhase::Idle,
            Stage::Live(_) => SessionPhase::Running,
            Stage::Stopped => SessionPhase::Stopped,
            Stage::Synthetic => SessionPhase::FailedOver,
        }
    }

    /// Reports how the attempt to start the sample source ended.
    pub fn start(&mut self, outcome: Result<CaptureRuntime, String>, now: u64)
        ensures
            final(self)@ == old(self)@.after_start(outcome, now),
    {
        let mut stage: Stage<T> = Stage::Stopped;
        std::mem::swap(&mut stage, &mut self.stage);
        let next = match stage {
            Stage::Idle { window_size } => match outcome {
                Ok(runtime) => Stage::Live(LiveSession::new(runtime, window_size, now)),
                Err(_) => Stage::Synthetic,
            },
            other => other,
        };
        self.stage = next;
    }

    /// Reports what one bounded wait on the sample source came back with.
    pub fn receive(&mut self, event: SourceEvent<T>)
        ensures
            final(self)@ == old(self)@.after_event(event),
    {
        let mut stage: Stage<T> = Stage::Stopped;
        std::mem::swap(&mut stage, &mut self.stage);
        let next = match stage {
            Stage::Live(mut live) => match event {
                SourceEvent::Chunk(chunk) => {
                    live.ingest(&chunk);
                    Stage::Live(live)
                },
                SourceEvent::Timeout => Stage::Live(live),
                SourceEvent::Disconnected => Stage::Synthetic,
            },
            other => other,
        };
        self.stage = next;
    }

    /// Shuts a live session down.
    pub fn stop(&mut self)
        ensures
            final(self)@ == old(self)@.after_stop(),
    {
        let mut stage: Stage<T> = Stage::Stopped;
        std::mem::swap(&mut stage, &mut self.stage);
        let next = match stage {
            Stage::Live(_) => Stage::Stopped,
            other => other,
        };
        self.stage = next;
    }

    /// Decides one turn at time `now` under the emit interval and pause flag
    /// read for this turn.
    pub fn poll(&mut self, now: u64, emit_interval_ms: u64, paused: bool) -> (directive: Directive<
        T,
    >)
        ensures
            directive@ == old(self)@.directive(now, emit_interval_ms, paused),
            final(self)@ == old(self)@.after_poll(now, emit_interval_ms, paused),
    {
        let mut stage: Stage<T> = Stage::Stopped;
        std::mem::swap(&mut stage, &mut self.stage);
        let (next, directive) = match stage {
            Stage::Live(mut live) => {
                let directive = live.poll(now, emit_interval_ms, paused);
                (Stage::Live(live), directive)
            },
            Stage::Synthetic => {
                let frame = if paused {
                    None
                } else {
                    Some(
                        FrameStamp {
                            timestamp_ms: now,
                            device_id: FALLBACK_DEVICE_ID.to_owned(),
                            capture_age_ms: SYNTHETIC_CAPTURE_AGE_MS,
                            emit_interval_ms,
                        },
                    )
                };
                (Stage::Synthetic, Directive::Synthesize { frame, sleep_ms: emit_interval_ms })
            },
            other => (other, Directive::Rest),
        };
        self.stage = next;
        directive
    }
}

} // verus!
