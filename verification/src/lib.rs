//! Stereo audio generation for tracing a projected curve on an X/Y oscilloscope.
//!
//! Everything here works on integers: a coordinate or a sample is a fixed-point
//! number with [`sample::NDC_ONE`] units to 1.0, and a phase is a whole number
//! of steps out of the device's sample rate. Floating point belongs to the
//! caller, which converts at the boundary.

pub mod device;
pub mod output;
pub mod phase;
pub mod queue;
pub mod sample;
pub mod synth;
