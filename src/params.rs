use vstd::prelude::*;
use crate::waveform::WaveformType;

verus! {

/// The parameters the real-time callback reads once per buffer: the active
/// frequency (millihertz), amplitude (millionths), waveform and playing flag.
/// The channel stores what it is given; callers validate and clamp first.
#[derive(Debug, Clone, Copy, PartialEq, Eq, Structural)]
pub struct AudioParams {
    pub frequency_hz: u32,
    pub amplitude: u32,
    pub waveform: WaveformType,
    pub is_playing: bool,
}

impl AudioParams {
    /// 40 Hz, half amplitude, sine, silent.
    pub fn new() -> (r: AudioParams)
        ensures
            r.frequency_hz == 40_000,
            r.amplitude == 500_000,
            r.waveform == WaveformType::Sine,
            !r.is_playing,
    {
        AudioParams { frequency_hz: 40_000, amplitude: 500_000, waveform: WaveformType::Sine, is_playing: false }
    }

    pub fn get_frequency(&self) -> (r: u32)
        ensures
            r == self.frequency_hz,
    {
        self.frequency_hz
    }

    pub fn set_frequency(&mut self, mhz: u32)
        ensures
            *final(self) == (AudioParams { frequency_hz: mhz, ..*old(self) }),
    {
        self.frequency_hz = mhz;
    }

    pub fn get_amplitude(&self) -> (r: u32)
        ensures
            r == self.amplitude,
    {
        self.amplitude
    }

    pub fn set_amplitude(&mut self, amp: u32)
        ensures
            *final(self) == (AudioParams { amplitude: amp, ..*old(self) }),
    {
        self.amplitude = amp;
    }

    pub fn get_waveform(&self) -> (r: WaveformType)
        ensures
            r == self.waveform,
    {
        self.waveform
    }

    pub fn set_waveform(&mut self, w: WaveformType)
        ensures
            *final(self) == (AudioParams { waveform: w, ..*old(self) }),
    {
        self.waveform = w;
    }

    pub fn get_playing(&self) -> (r: bool)
        ensures
            r == self.is_playing,
    {
        self.is_playing
    }

    pub fn set_playing(&mut self, on: bool)
        ensures
            *final(self) == (AudioParams { is_playing: on, ..*old(self) }),
    {
        self.is_playing = on;
    }
}

} // verus!
