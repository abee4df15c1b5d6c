//! Frame scheduling between the sample source and the display.

pub mod quality;
pub mod session;
pub mod throttle;
pub mod visual_state;

pub use self::quality::quality_emit_interval_ms;
pub use self::visual_state::RuntimeVisualState;
