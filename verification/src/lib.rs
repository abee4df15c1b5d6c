//! Verified core of a real-time audio spectrum visualizer: bounded sample
//! buffering, analysis-window layout, throttled frame scheduling with a
//! synthetic fallback, and the rules of the desktop shell around it.
//!
//! Sample values never enter the proofs, so everything here is generic over
//! the sample type; the numeric signal processing lives with the caller.
//!
//! - [`audio`]: the sample accumulator, the layout of the analysis window,
//!   and the plain-value model of the capture endpoint.
//! - [`telemetry`]: the emission throttle and the session state machine.
//! - [`desktop`]: window modes, click-through, monitors and the tray menu.
//! - [`text`] and [`sync`]: what is taken from the standard library.

pub mod audio;
pub mod desktop;
pub mod sync;
pub mod telemetry;
pub mod text;
