//! Index and layout arithmetic of the spectrum analyzer.
//!
//! The analyzer's numeric steps work on a fixed-size window cut from the end
//! of the sample history. This module fixes the shape of that window and the
//! index ranges the numeric steps iterate over.

use vstd::prelude::*;

verus! {

/// The `window_size` most recent samples of `history`, oldest first. Where the
/// history is shorter than the window, `silence` fills the missing positions
/// at the front.
pub open spec fn recent_window<T>(history: Seq<T>, window_size: nat, silence: T) -> Seq<T> {
    if history.len() >= window_size {
        history.subrange(history.len() - window_size, history.len() as int)
    } else {
        Seq::new((window_size - history.len()) as nat, |i: int| silence) + history
    }
}

/// Cuts the analysis window out of `samples`: the last `window_size` of them,
/// left-padded with `silence` when fewer are available.
pub fn pad_window<T: Copy>(samples: &[T], window_size: usize, silence: T) -> (window: Vec<T>)
    ensures
        window@ == recent_window(samples@, window_size as nat, silence),
{
    let available: usize = samples.len();
    let mut window: Vec<T> = Vec::with_capacity(window_size);
    if available >= window_size {
        let start: usize = available - window_size;
        let mut i: usize = start;
        while i < available
            invariant
                available == samples@.len(),
                start == available - window_size,
                start <= i <= available,
                window@ == samples@.subrange(start as int, i as int),
            decreases available - i,
        {
            window.push(samples[i]);
            i += 1;
        }
    } else {
        let missing: usize = window_size - available;
        let mut k: usize = 0;
        while k < missing
            invariant
                k <= missing,
                window@ == Seq::new(k as nat, |i: int| silence),
            decreases missing - k,
        {
            window.push(silence);
            k += 1;
        }
        let mut i: usize = 0;
        while i < available
            invariant
                available == samples@.len(),
                i <= available,
                window@ == Seq::new(missing as nat, |j: int| silence) + samples@.subrange(0, i as int),
            decreases available - i,
        {
            window.push(samples[i]);
            i += 1;
        }
        assert(samples@.subrange(0, available as int) == samples@);
    }
    window
}

/// The highest frequency index the analyzer evaluates for a window of
/// `window_len` samples: one below half the window, and never less than one.
pub open spec fn top_frequency_index(window_len: nat) -> nat {
    if window_len / 2 >= 2 {
        (window_len / 2 - 1) as nat
    } else {
        1
    }
}

/// The highest frequency index for a window of `window_len` samples. Output
/// bins are spread over the indices from one up to this one.
pub fn max_frequency_index(window_len: usize) -> (max_k: usize)
    ensures
        max_k == top_frequency_index(window_len as nat),
        1 <= max_k,
        window_len >= 4 ==> 2 * max_k < window_len,
{
    let below_half: usize = (window_len / 2).saturating_sub(1);
    if below_half >= 1 {
        below_half
    } else {
        1
    }
}

/// The neighbours that bin `index` of `bin_count` is blended with when
/// energy is diffused across bins: the bins next to it, and the bin itself in
/// place of a neighbour that an edge bin lacks.
pub open spec fn neighbor_bins(index: nat, bin_count: nat) -> (nat, nat) {
    (
        if index > 0 {
            (index - 1) as nat
        } else {
            index
        },
        if index + 1 < bin_count {
            index + 1
        } else {
            index
        },
    )
}

/// The left and right neighbour of bin `index` for diffusion. Both are bins
/// of the same spectrum whenever `index` is.
pub fn diffusion_neighbors(index: usize, bin_count: usize) -> (neighbors: (usize, usize))
    ensures
        (neighbors.0 as nat, neighbors.1 as nat) == neighbor_bins(index as nat, bin_count as nat),
        index < bin_count ==> neighbors.0 < bin_count && neighbors.1 < bin_count,
{
    let left: usize = if index > 0 {
        index - 1
    } else {
        index
    };
    let right: usize = if index < bin_count && index + 1 < bin_count {
        index + 1
    } else {
        index
    };
    (left, right)
}

/// `raw_index` brought into the band of frequency indices `1..=max_k`; a
/// band without room for any index is taken as the single index one.
pub open spec fn banded_index(raw_index: nat, max_k: nat) -> nat {
    if raw_index < 1 || max_k < 1 {
        1
    } else if raw_index > max_k {
        max_k
    } else {
        raw_index
    }
}

/// Keeps a mapped frequency index inside the band the analyzer evaluates,
/// whatever rounding did to it on the way.
pub fn bound_frequency_index(raw_index: usize, max_k: usize) -> (k: usize)
    ensures
        k == banded_index(raw_index as nat, max_k as nat),
        1 <= k,
        max_k >= 1 ==> k <= max_k,
        1 <= raw_index <= max_k ==> k == raw_index,
{
    if raw_index < 1 || max_k < 1 {
        1
    } else if raw_index > max_k {
        max_k
    } else {
        raw_index
    }
}

/// Largest value of a quantized bin: bins are ten-bit levels.
pub const MAX_BIN_LEVEL: u16 = 1023;

/// Keeps a quantized bin within `0..=1023`; a level in range is returned
/// as it is.
pub fn clamp_bin_level(level: u16) -> (bin: u16)
    ensures
        bin <= MAX_BIN_LEVEL,
        bin == if level <= MAX_BIN_LEVEL {
            level
        } else {
            MAX_BIN_LEVEL
        },
{
    if level > MAX_BIN_LEVEL {
        MAX_BIN_LEVEL
    } else {
        level
    }
}

} // verus!
