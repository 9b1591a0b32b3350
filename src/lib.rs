//! Synthesis and safety supervision for a low-frequency tone generator.
//!
//! All quantities are fixed point: frequencies in millihertz, amplitudes and
//! samples in millionths of full scale, phases in billionths of a cycle.

pub mod laws;
pub mod limits;
pub mod config;
pub mod devices;
pub mod error;
pub mod params;
pub mod platform;
pub mod session;
pub mod stream;
pub mod synth;
pub mod text;
pub mod waveform;
