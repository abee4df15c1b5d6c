//! Quality tiers and the emit interval each one stands for.

use vstd::prelude::*;
use crate::text::ascii_lowercase;
use crate::text::str_equal;
use crate::text::to_ascii_lowercase;
use crate::text::trim;
use crate::text::trimmed;

verus! {

/// Emit interval of the `ultra` tier: about 120 frames a second.
pub const ULTRA_INTERVAL_MS: u64 = 8;

/// Emit interval of the `high` tier, and of any unknown tier: about 90 frames
/// a second.
pub const HIGH_INTERVAL_MS: u64 = 11;

/// Emit interval of the `balanced` tier: about 60 frames a second.
pub const BALANCED_INTERVAL_MS: u64 = 16;

/// A tier name as the lookup reads it: surrounding whitespace removed, ASCII
/// letters in lower case.
pub open spec fn normalized_quality(raw_quality: Seq<char>) -> Seq<char> {
    ascii_lowercase(trimmed(raw_quality))
}

/// The emit interval, in milliseconds, of the tier named `raw_quality`.
pub open spec fn emit_interval_for(raw_quality: Seq<char>) -> u64 {
    let name = normalized_quality(raw_quality);
    if name == "ultra"@ {
        ULTRA_INTERVAL_MS
    } else if name == "high"@ {
        HIGH_INTERVAL_MS
    } else if name == "balanced"@ {
        BALANCED_INTERVAL_MS
    } else {
        HIGH_INTERVAL_MS
    }
}

/// Maps a quality tier to the minimum spacing between published frames.
/// Tier names are matched without regard to ASCII case or surrounding
/// whitespace; an unknown name gets the `high` interval.
pub fn quality_emit_interval_ms(raw_quality: &str) -> (interval: u64)
    ensures
        interval == emit_interval_for(raw_quality@),
        interval == ULTRA_INTERVAL_MS || interval == HIGH_INTERVAL_MS || interval
            == BALANCED_INTERVAL_MS,
{
    let normalized = to_ascii_lowercase(trim(raw_quality));
    if str_equal(normalized.as_str(), "ultra") {
        ULTRA_INTERVAL_MS
    } else if str_equal(normalized.as_str(), "high") {
        HIGH_INTERVAL_MS
    } else if str_equal(normalized.as_str(), "balanced") {
        BALANCED_INTERVAL_MS
    } else {
        HIGH_INTERVAL_MS
    }
}

} // verus!
