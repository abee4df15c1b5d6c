//! Click-through: letting mouse input fall through the window.

use vstd::prelude::*;
use crate::desktop::window_mode::WindowMode;

verus! {

/// Whether click-through takes effect when `requested` in `mode`. A normal
/// window never lets clicks through, so that its controls stay reachable.
pub fn effective_click_through(mode: WindowMode, requested: bool) -> (effective: bool)
    ensures
        effective == (requested && mode != WindowMode::Normal),
{
    requested && !matches!(mode, WindowMode::Normal)
}

} // verus!
