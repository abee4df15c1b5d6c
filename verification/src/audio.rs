//! Audio side of the pipeline: window layout, sample accumulation and the
//! plain-value model of the capture endpoint.

pub mod accumulator;
pub mod capture;
pub mod dsp;
pub mod ring_buffer;
