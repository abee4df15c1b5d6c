//! Bounded sample history between the capture source and the analyzer.
//!
//! Chunks are appended in arrival order. Once the history grows past eight
//! analysis windows, it is cut back to the newest four, so memory and
//! staleness stay bounded while the analysis window itself is never disturbed.

use vstd::prelude::*;
use crate::audio::dsp::pad_window;
use crate::audio::dsp::recent_window;

verus! {

/// History length, in analysis windows, above which old samples are dropped.
pub const TRIM_THRESHOLD_WINDOWS: usize = 8;

/// History length, in analysis windows, that a trim cuts back to.
pub const RETAINED_WINDOWS: usize = 4;

/// What is kept of `history` under the overflow policy for windows of
/// `window_size` samples: everything while it fits in eight windows,
/// otherwise only the newest four windows.
pub open spec fn retained<T>(history: Seq<T>, window_size: nat) -> Seq<T> {
    if history.len() > TRIM_THRESHOLD_WINDOWS * window_size {
        history.subrange(history.len() - RETAINED_WINDOWS * window_size, history.len() as int)
    } else {
        history
    }
}

/// The history after a whole stream of chunks has been pushed, one by one,
/// each followed by the overflow policy.
pub open spec fn absorbed<T>(history: Seq<T>, chunks: Seq<Seq<T>>, window_size: nat) -> Seq<T>
    decreases chunks.len(),
{
    if chunks.len() == 0 {
        history
    } else {
        absorbed(retained(history + chunks[0], window_size), chunks.drop_first(), window_size)
    }
}

/// Append-only sample buffer with a hysteresis trim.
pub struct SampleAccumulator<T> {
    samples: Vec<T>,
    window_size: usize,
}

impl<T> View for SampleAccumulator<T> {
    type V = Seq<T>;

    /// The buffered samples, oldest first.
    closed spec fn view(&self) -> Seq<T> {
        self.samples@
    }
}

impl<T> SampleAccumulator<T> {
    #[verifier::type_invariant]
    spec fn within_bounds(self) -> bool {
        self.samples@.len() <= TRIM_THRESHOLD_WINDOWS * self.window_size
    }

    /// Number of samples in one analysis window.
    pub closed spec fn spec_window_size(&self) -> nat {
        self.window_size as nat
    }
}

impl<T: Copy> SampleAccumulator<T> {
    /// An empty accumulator for windows of `window_size` samples.
    pub fn new(window_size: usize) -> (accumulator: Self)
        ensures
            accumulator@ == Seq::<T>::empty(),
            accumulator.spec_window_size() == window_size,
    {
        SampleAccumulator { samples: Vec::new(), window_size }
    }

    /// Number of samples in one analysis window.
    pub fn window_size(&self) -> (size: usize)
        ensures
            size == self.spec_window_size(),
    {
        self.window_size
    }

    /// Number of buffered samples; never more than eight windows.
    pub fn len(&self) -> (len: usize)
        ensures
            len == self@.len(),
            len <= TRIM_THRESHOLD_WINDOWS * self.spec_window_size(),
    {
        proof {
            use_type_invariant(self);
        }
        self.samples.len()
    }

    /// Whether a whole analysis window of real samples is buffered.
    pub fn has_full_window(&self) -> (full: bool)
        ensures
            full == (self@.len() >= self.spec_window_size()),
    {
        self.samples.len() >= self.window_size
    }

    /// Appends `chunk` in order, then applies the overflow policy: when more
    /// than eight windows are buffered, only the newest four are kept.
    pub fn push(&mut self, chunk: &[T])
        ensures
            final(self).spec_window_size() == old(self).spec_window_size(),
            final(self)@ == retained(old(self)@ + chunk@, old(self).spec_window_size()),
            final(self)@.len() <= TRIM_THRESHOLD_WINDOWS * old(self).spec_window_size(),
            old(self)@.len() + chunk@.len() > TRIM_THRESHOLD_WINDOWS * old(self).spec_window_size()
                ==> final(self)@.len() == RETAINED_WINDOWS * old(self).spec_window_size(),
    {
        proof {
            use_type_invariant(&*self);
        }
        let mut buffer: Vec<T> = Vec::new();
        std::mem::swap(&mut buffer, &mut self.samples);
        let count: usize = chunk.len();
        let mut i: usize = 0;
        while i < count
            invariant
                count == chunk@.len(),
                i <= count,
                buffer@ == old(self)@ + chunk@.subrange(0, i as int),
            decreases count - i,
        {
            buffer.push(chunk[i]);
            i += 1;
        }
        assert(chunk@.subrange(0, count as int) == chunk@);
        // A threshold beyond the address range can never be exceeded.
        let buffered: usize = buffer.len();
        match TRIM_THRESHOLD_WINDOWS.checked_mul(self.window_size) {
            Some(limit) => {
                if buffered > limit {
                    let surplus: usize = buffered - RETAINED_WINDOWS * self.window_size;
                    let kept = buffer.split_off(surplus);
                    buffer = kept;
                }
            },
            None => {
                assert(buffered <= usize::MAX < TRIM_THRESHOLD_WINDOWS * self.window_size);
            },
        }
        self.samples = buffer;
    }

    /// The newest full window of real samples, once one is buffered.
    pub fn full_window(&self) -> (window: Option<Vec<T>>)
        ensures
            window is Some <==> self@.len() >= self.spec_window_size(),
            window matches Some(samples) ==> samples@ == self@.subrange(
                self@.len() - self.spec_window_size(),
                self@.len() as int,
            ),
    {
        let available: usize = self.samples.len();
        if available < self.window_size {
            return None;
        }
        let start: usize = available - self.window_size;
        let mut window: Vec<T> = Vec::with_capacity(self.window_size);
        let mut i: usize = start;
        while i < available
            invariant
                available == self.samples@.len(),
                start <= i <= available,
                window@ == self.samples@.subrange(start as int, i as int),
            decreases available - i,
        {
            window.push(self.samples[i]);
            i += 1;
        }
        Some(window)
    }

    /// The analysis window: the newest `window_size` samples, left-padded
    /// with `silence` while fewer have arrived.
    pub fn window(&self, silence: T) -> (window: Vec<T>)
        ensures
            window@ == recent_window(self@, self.spec_window_size(), silence),
    {
        pad_window(self.samples.as_slice(), self.window_size, silence)
    }
}

/// The overflow policy never leaves more than eight windows buffered, and a
/// trim leaves exactly four.
pub proof fn lemma_retained_bounded<T>(history: Seq<T>, window_size: nat)
    ensures
        retained(history, window_size).len() <= TRIM_THRESHOLD_WINDOWS * window_size,
        history.len() > TRIM_THRESHOLD_WINDOWS * window_size ==> retained(
            history,
            window_size,
        ).len() == RETAINED_WINDOWS * window_size,
        history.len() <= TRIM_THRESHOLD_WINDOWS * window_size ==> retained(history, window_size)
            == history,
{
}

/// However many chunks arrive and however large they are, the buffered
/// length after each push stays within eight windows.
pub proof fn lemma_stream_stays_bounded<T>(history: Seq<T>, chunks: Seq<Seq<T>>, window_size: nat)
    requires
        history.len() <= TRIM_THRESHOLD_WINDOWS * window_size,
    ensures
        absorbed(history, chunks, window_size).len() <= TRIM_THRESHOLD_WINDOWS * window_size,
    decreases chunks.len(),
{
    if chunks.len() > 0 {
        lemma_retained_bounded(history + chunks[0], window_size);
        lemma_stream_stays_bounded(
            retained(history + chunks[0], window_size),
            chunks.drop_first(),
            window_size,
        );
    }
}

/// Trimming drops only samples older than the analysis window: the window
/// cut from the trimmed history is the window cut from the full one.
pub proof fn lemma_trim_preserves_window<T>(history: Seq<T>, window_size: nat, silence: T)
    ensures
        recent_window(retained(history, window_size), window_size, silence) == recent_window(
            history,
            window_size,
            silence,
        ),
{
    if history.len() > TRIM_THRESHOLD_WINDOWS * window_size {
        let kept = retained(history, window_size);
        assert(kept.len() == RETAINED_WINDOWS * window_size);
        assert(kept.subrange(kept.len() - window_size, kept.len() as int) == history.subrange(
            history.len() - window_size,
            history.len() as int,
        ));
    }
}

} // verus!
