//! The pause flag of the visual output.

use vstd::prelude::*;
use std::sync::Arc;
use std::sync::atomic::AtomicBool;
use std::sync::atomic::Ordering;

verus! {

/// Process-wide pause flag. While it is set, sampling and analysis go on and
/// only the publishing of frames stops. Clones share one flag; a write
/// becomes visible to the scheduler by its next turn.
#[derive(Clone)]
pub struct RuntimeVisualState {
    paused: Arc<AtomicBool>,
}

impl Default for RuntimeVisualState {
    /// A flag that starts out cleared.
    fn default() -> Self {
        RuntimeVisualState { paused: Arc::new(AtomicBool::new(false)) }
    }
}

impl RuntimeVisualState {
    /// Sets or clears the flag.
    pub fn set_paused(&self, paused: bool) {
        self.paused.store(paused, Ordering::Relaxed);
    }

    /// Reads the flag as it stands now.
    pub fn is_paused(&self) -> bool {
        self.paused.load(Ordering::Relaxed)
    }
}

} // verus!
