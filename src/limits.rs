use vstd::prelude::*;

verus! {

/// Longest session before the safety cutoff stops playback (15 minutes).
pub const MAX_SESSION_DURATION_MS: u64 = 15 * 60 * 1000;

/// Full scale of an amplitude or a sample: 1.0 is one million.
pub const AMPLITUDE_SCALE: u32 = 1_000_000;

/// Amplitude ceiling (0.8 of full scale), in millionths.
pub const MAX_AMPLITUDE: u32 = 800_000;

/// Declared duty-cycle ceiling (0.7), in millionths; no waveform consumes it.
pub const MAX_DUTY_CYCLE: u32 = 700_000;

/// Declared rest period between sessions (5 minutes); not enforced.
pub const COOLDOWN_PERIOD_MS: u64 = 5 * 60 * 1000;

/// Sample rate of the default configuration.
pub const SAMPLE_RATE: u32 = 44100;

/// Lowest accepted carrier frequency (1 Hz), in millihertz.
pub const MIN_FREQUENCY_MHZ: u32 = 1000;

/// Highest accepted carrier frequency (60 Hz), in millihertz.
pub const MAX_FREQUENCY_MHZ: u32 = 60_000;

/// One full cycle of phase.
pub const PHASE_ONE: u64 = 1_000_000_000;

/// Half a cycle of phase.
pub const PHASE_HALF: u64 = 500_000_000;

} // verus!
