//! Emission throttle: when a turn of the scheduler loop publishes a frame.
//!
//! A frame is published only if at least one emit interval has passed since
//! the last published frame, a full window is buffered, and the visual output
//! is not paused. A paused turn leaves the emission mark where it was, so the
//! first turn after a resume publishes at once, and then the interval rules
//! again.

use vstd::prelude::*;

verus! {

/// What one turn of the scheduler loop contributes to the emission decision.
pub struct Turn {
    /// Wall-clock time of the turn, in milliseconds.
    pub now: u64,
    /// Emit interval in force during the turn.
    pub emit_interval_ms: u64,
    /// Whether a full analysis window is buffered.
    pub window_ready: bool,
    /// Whether the visual output is paused.
    pub paused: bool,
}

/// Milliseconds from `since` to `now`; zero where the clock has stepped back.
pub open spec fn elapsed_ms(now: u64, since: u64) -> int {
    if now >= since {
        now - since
    } else {
        0
    }
}

/// Whether a whole emit interval lies between the last emission and `now`.
pub open spec fn interval_elapsed(last_emit_ts: u64, now: u64, emit_interval_ms: u64) -> bool {
    elapsed_ms(now, last_emit_ts) >= emit_interval_ms
}

/// Whether `turn` publishes a frame, given the time of the last emission.
pub open spec fn turn_emits(last_emit_ts: u64, turn: Turn) -> bool {
    &&& interval_elapsed(last_emit_ts, turn.now, turn.emit_interval_ms)
    &&& turn.window_ready
    &&& !turn.paused
}

/// The emission mark after `turn`: moved to the turn's time exactly when the
/// turn publishes.
pub open spec fn mark_after(last_emit_ts: u64, turn: Turn) -> u64 {
    if turn_emits(last_emit_ts, turn) {
        turn.now
    } else {
        last_emit_ts
    }
}

/// Timestamps of the frames published over a run of turns, in order.
pub open spec fn emitted(last_emit_ts: u64, turns: Seq<Turn>) -> Seq<u64>
    decreases turns.len(),
{
    if turns.len() == 0 {
        Seq::empty()
    } else if turn_emits(last_emit_ts, turns[0]) {
        seq![turns[0].now] + emitted(turns[0].now, turns.drop_first())
    } else {
        emitted(last_emit_ts, turns.drop_first())
    }
}

/// Every turn of the run uses an emit interval of at least `floor_ms`.
pub open spec fn intervals_at_least(turns: Seq<Turn>, floor_ms: u64) -> bool {
    forall|i: int| 0 <= i < turns.len() ==> (#[trigger] turns[i]).emit_interval_ms >= floor_ms
}

/// Every turn of the run happens in `[start, start + duration)`.
pub open spec fn turns_within(turns: Seq<Turn>, start: int, duration: int) -> bool {
    forall|i: int| 0 <= i < turns.len() ==> start <= (#[trigger] turns[i]).now < start + duration
}

/// Milliseconds from `since` to `now`, saturating at zero.
pub fn elapsed_since(now: u64, since: u64) -> (elapsed: u64)
    ensures
        elapsed == elapsed_ms(now, since),
{
    now.saturating_sub(since)
}

/// Whether the throttle lets a frame through at `now`.
pub fn frame_due(last_emit_ts: u64, now: u64, emit_interval_ms: u64) -> (due: bool)
    ensures
        due == interval_elapsed(last_emit_ts, now, emit_interval_ms),
{
    elapsed_since(now, last_emit_ts) >= emit_interval_ms
}

proof fn lemma_scaled_step(count: int, step: int)
    ensures
        (count + 1) * step == count * step + step,
{
    assert((count + 1) * step == count * step + step) by (nonlinear_arith);
}

/// With emit intervals of at least `floor_ms` (one millisecond or more), the
/// `j`-th published frame comes no earlier than `j + 1` such intervals after
/// the starting mark, whatever the clock does in between.
pub proof fn lemma_emitted_spacing(last_emit_ts: u64, turns: Seq<Turn>, floor_ms: u64)
    requires
        floor_ms >= 1,
        intervals_at_least(turns, floor_ms),
    ensures
        forall|j: int|
            0 <= j < emitted(last_emit_ts, turns).len() ==> #[trigger] emitted(
                last_emit_ts,
                turns,
            )[j] >= last_emit_ts + (j + 1) * floor_ms,
    decreases turns.len(),
{
    if turns.len() > 0 {
        let head = turns[0];
        let rest = turns.drop_first();
        assert(intervals_at_least(rest, floor_ms)) by {
            assert forall|i: int| 0 <= i < rest.len() implies (#[trigger] rest[i]).emit_interval_ms
                >= floor_ms by {
                assert(rest[i] == turns[i + 1]);
            }
        }
        let all = emitted(last_emit_ts, turns);
        if turn_emits(last_emit_ts, head) {
            let tail = emitted(head.now, rest);
            lemma_emitted_spacing(head.now, rest, floor_ms);
            assert(head.now >= last_emit_ts + floor_ms);
            assert forall|j: int| 0 <= j < all.len() implies #[trigger] all[j] >= last_emit_ts + (j
                + 1) * floor_ms by {
                if j == 0 {
                    assert(all[0] == head.now);
                    assert((0 + 1) * floor_ms == floor_ms as int);
                } else {
                    assert(all[j] == tail[j - 1]);
                    assert(tail[j - 1] >= head.now + ((j - 1) + 1) * floor_ms);
                    lemma_scaled_step(j, floor_ms as int);
                }
            }
        } else {
            lemma_emitted_spacing(last_emit_ts, rest, floor_ms);
            assert(all == emitted(last_emit_ts, rest));
        }
    }
}

/// With emit intervals of at least `floor_ms` (one millisecond or more), any
/// two published frames lie at least as many such intervals apart as their
/// positions in the output differ. In particular the timestamps are strictly
/// increasing, and no two frames fall into one interval.
pub proof fn lemma_emitted_gaps(last_emit_ts: u64, turns: Seq<Turn>, floor_ms: u64)
    requires
        floor_ms >= 1,
        intervals_at_least(turns, floor_ms),
    ensures
        forall|j: int, k: int|
            #![trigger emitted(last_emit_ts, turns)[j], emitted(last_emit_ts, turns)[k]]
            0 <= j < k < emitted(last_emit_ts, turns).len() ==> emitted(last_emit_ts, turns)[k]
                >= emitted(last_emit_ts, turns)[j] + (k - j) * floor_ms,
    decreases turns.len(),
{
    if turns.len() > 0 {
        let head = turns[0];
        let rest = turns.drop_first();
        assert(intervals_at_least(rest, floor_ms)) by {
            assert forall|i: int| 0 <= i < rest.len() implies (#[trigger] rest[i]).emit_interval_ms
                >= floor_ms by {
                assert(rest[i] == turns[i + 1]);
            }
        }
        let all = emitted(last_emit_ts, turns);
        if turn_emits(last_emit_ts, head) {
            let tail = emitted(head.now, rest);
            lemma_emitted_gaps(head.now, rest, floor_ms);
            lemma_emitted_spacing(head.now, rest, floor_ms);
            assert forall|j: int, k: int| 0 <= j < k < all.len() implies #[trigger] all[k]
                >= #[trigger] all[j] + (k - j) * floor_ms by {
                assert(all[k] == tail[k - 1]);
                if j == 0 {
                    assert(all[0] == head.now);
                    assert(tail[k - 1] >= head.now + ((k - 1) + 1) * floor_ms);
                } else {
                    assert(all[j] == tail[j - 1]);
                    assert(tail[k - 1] >= tail[j - 1] + ((k - 1) - (j - 1)) * floor_ms);
                }
            }
        } else {
            lemma_emitted_gaps(last_emit_ts, rest, floor_ms);
            assert(all == emitted(last_emit_ts, rest));
        }
    }
}

/// Timestamps of published frames strictly increase whenever every emit
/// interval is at least one millisecond.
pub proof fn lemma_emitted_strictly_increasing(last_emit_ts: u64, turns: Seq<Turn>)
    requires
        intervals_at_least(turns, 1),
    ensures
        forall|j: int, k: int|
            #![trigger emitted(last_emit_ts, turns)[j], emitted(last_emit_ts, turns)[k]]
            0 <= j < k < emitted(last_emit_ts, turns).len() ==> emitted(last_emit_ts, turns)[j]
                < emitted(last_emit_ts, turns)[k],
{
    lemma_emitted_gaps(last_emit_ts, turns, 1);
    let all = emitted(last_emit_ts, turns);
    assert forall|j: int, k: int| 0 <= j < k < all.len() implies #[trigger] all[j]
        < #[trigger] all[k] by {
        assert(all[k] >= all[j] + (k - j) * 1);
    }
}

/// Every published frame carries the time of one of the turns, so frames of a
/// run confined to a time span lie in that span.
pub proof fn lemma_emitted_within(last_emit_ts: u64, turns: Seq<Turn>, start: int, duration: int)
    requires
        turns_within(turns, start, duration),
    ensures
        forall|j: int|
            0 <= j < emitted(last_emit_ts, turns).len() ==> start <= #[trigger] emitted(
                last_emit_ts,
                turns,
            )[j] < start + duration,
    decreases turns.len(),
{
    if turns.len() > 0 {
        let head = turns[0];
        let rest = turns.drop_first();
        assert(turns_within(rest, start, duration)) by {
            assert forall|i: int| 0 <= i < rest.len() implies start <= (#[trigger] rest[i]).now
                < start + duration by {
                assert(rest[i] == turns[i + 1]);
            }
        }
        let all = emitted(last_emit_ts, turns);
        if turn_emits(last_emit_ts, head) {
            let tail = emitted(head.now, rest);
            lemma_emitted_within(head.now, rest, start, duration);
            assert forall|j: int| 0 <= j < all.len() implies start <= #[trigger] all[j] < start
                + duration by {
                if j > 0 {
                    assert(all[j] == tail[j - 1]);
                }
            }
        } else {
            lemma_emitted_within(last_emit_ts, rest, start, duration);
            assert(all == emitted(last_emit_ts, rest));
        }
    }
}

/// Over any run of turns confined to `duration` milliseconds, with emit
/// intervals of at least `floor_ms`, at most `ceil(duration / floor_ms)`
/// frames are published, however often the loop turns.
pub proof fn lemma_emitted_count_bounded(
    last_emit_ts: u64,
    turns: Seq<Turn>,
    floor_ms: u64,
    start: int,
    duration: int,
)
    requires
        floor_ms >= 1,
        duration >= 0,
        intervals_at_least(turns, floor_ms),
        turns_within(turns, start, duration),
    ensures
        emitted(last_emit_ts, turns).len() <= (duration + floor_ms - 1) / (floor_ms as int),
{
    let all = emitted(last_emit_ts, turns);
    let n = all.len() as int;
    let step = floor_ms as int;
    if n > 0 {
        lemma_emitted_within(last_emit_ts, turns, start, duration);
        lemma_emitted_gaps(last_emit_ts, turns, floor_ms);
        assert(start <= all[0]);
        assert(all[n - 1] < start + duration);
        if n > 1 {
            assert(all[n - 1] >= all[0] + ((n - 1) - 0) * step);
        }
        assert((n - 1) * step < duration) by (nonlinear_arith)
            requires
                n == 1 || all[n - 1] >= all[0] + (n - 1) * step,
                start <= all[0],
                all[n - 1] < start + duration,
                n >= 1,
                step >= 1,
        ;
        assert(n <= (duration + step - 1) / step) by (nonlinear_arith)
            requires
                (n - 1) * step < duration,
                step >= 1,
        ;
    } else {
        assert(0 <= (duration + step - 1) / step) by (nonlinear_arith)
            requires
                duration >= 0,
                step >= 1,
        ;
    }
}

} // verus!
