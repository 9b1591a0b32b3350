use vstd::prelude::*;
use crate::limits::PHASE_ONE;
use crate::params::AudioParams;
use crate::waveform::{generate_sample, sample_value};

verus! {

/// Phase advance per sample, `frequency / sample_rate`, in billionths of a
/// cycle (frequency in millihertz), rounded down.
pub open spec fn increment_of(frequency_mhz: int, sample_rate: int) -> int {
    (frequency_mhz * 1_000_000) / sample_rate
}

/// The phase after `k` samples from `base`, wrapped into one cycle.
pub open spec fn phase_after(base: int, inc: int, k: int) -> int {
    (base + k * inc) % (PHASE_ONE as int)
}

/// Number of frames in a buffer of `len` samples over `channels` channels
/// (the last frame may be partial).
pub open spec fn frames_in(len: int, channels: int) -> int {
    (len + channels - 1) / channels
}

/// What the callback writes at index `i` of the buffer.
pub open spec fn rendered(p: AudioParams, base: int, inc: int, channels: int, i: int) -> int {
    if p.is_playing {
        sample_value(p.waveform, phase_after(base, inc, i / channels), p.amplitude as int)
    } else {
        0
    }
}

pub fn phase_increment(frequency_mhz: u32, sample_rate: u32) -> (r: u64)
    requires
        sample_rate > 0,
    ensures
        r as int == increment_of(frequency_mhz as int, sample_rate as int),
{
    (frequency_mhz as u64 * 1_000_000) / sample_rate as u64
}

/// The phase accumulator and format of one output stream.
#[derive(Debug, Clone, Copy, PartialEq, Eq, Structural)]
pub struct Oscillator {
    pub phase: u64,
    pub sample_rate: u32,
    pub channels: u16,
}

impl Oscillator {
    pub open spec fn wf(&self) -> bool {
        self.phase < PHASE_ONE && self.sample_rate > 0 && self.channels > 0
    }

    /// A fresh oscillator at phase zero.
    pub fn new(sample_rate: u32, channels: u16) -> (r: Oscillator)
        requires
            sample_rate > 0,
            channels > 0,
        ensures
            r.wf(),
            r.phase == 0,
            r.sample_rate == sample_rate,
            r.channels == channels,
    {
        Oscillator { phase: 0, sample_rate, channels }
    }

    /// Fills one buffer of interleaved samples (millionths of full scale).
    /// The parameters are read once; each frame carries one sample on all
    /// its channels; silence is written while not playing, but the phase
    /// keeps advancing.
    pub fn render(&mut self, params: &AudioParams, out: &mut Vec<i32>)
        requires
            old(self).wf(),
        ensures
            final(self).wf(),
            final(self).sample_rate == old(self).sample_rate,
            final(self).channels == old(self).channels,
            final(out)@.len() == old(out)@.len(),
            final(self).phase == phase_after(
                old(self).phase as int,
                increment_of(params.frequency_hz as int, old(self).sample_rate as int),
                frames_in(old(out)@.len() as int, old(self).channels as int),
            ),
            forall|i: int| 0 <= i < final(out)@.len() ==> #[trigger] final(out)@[i] as int == rendered(
                *params,
                old(self).phase as int,
                increment_of(params.frequency_hz as int, old(self).sample_rate as int),
                old(self).channels as int,
                i,
            ),
    {
        let snapshot = *params;
        let inc = phase_increment(snapshot.frequency_hz, self.sample_rate);
        let step: u64 = inc % PHASE_ONE;
        let ch: usize = self.channels as usize;
        let len = out.len();
        let ghost base = self.phase as int;
        let ghost frame: int = 0;
        let mut i: usize = 0;
        let mut c: usize = 0;
        let mut sample: i32 = 0;
        proof {
            vstd::arithmetic::div_mod::lemma_small_mod(base as nat, PHASE_ONE as nat);
        }
        while i < len
            invariant
                len == out@.len(),
                ch == self.channels as int,
                ch > 0,
                self.sample_rate == old(self).sample_rate,
                self.channels == old(self).channels,
                snapshot == *params,
                inc as int == increment_of(params.frequency_hz as int, self.sample_rate as int),
                step as int == inc as int % (PHASE_ONE as int),
                base == old(self).phase,
                0 <= frame,
                i <= len,
                c < ch,
                i == frame * ch + c,
                self.phase < PHASE_ONE,
                self.phase as int == phase_after(base, inc as int, frame),
                c > 0 ==> sample as int == rendered(*params, base, inc as int, ch as int, i - 1),
                forall|j: int| 0 <= j < i ==> #[trigger] out@[j] as int == rendered(
                    *params, base, inc as int, ch as int, j),
            decreases len - i,
        {
            if c == 0 {
                sample = if snapshot.is_playing {
                    generate_sample(snapshot.waveform, self.phase, snapshot.amplitude)
                } else {
                    0
                };
                proof {
                    assert((frame * ch + 0) / (ch as int) == frame) by (nonlinear_arith)
                        requires ch > 0, frame >= 0;
                }
            } else {
                proof {
                    assert((i as int - 1) / (ch as int) == frame && (i as int) / (ch as int) == frame)
                        by (nonlinear_arith)
                        requires i == frame * ch + c, 0 < c < ch, frame >= 0;
                }
            }
            out.set(i, sample);
            i = i + 1;
            c = c + 1;
            if c == ch {
                proof {
                    lemma_phase_step(base, inc as int, frame);
                    frame = frame + 1;
                    assert(i == frame * ch) by (nonlinear_arith)
                        requires i == (frame - 1) * ch + ch;
                }
                let next: u64 = self.phase + step;
                self.phase = if next >= PHASE_ONE { next - PHASE_ONE } else { next };
                c = 0;
            }
        }
        if c > 0 {
            proof {
                lemma_phase_step(base, inc as int, frame);
                assert(frames_in(len as int, ch as int) == frame + 1) by (nonlinear_arith)
                    requires len == frame * ch + c, 0 < c < ch, frame >= 0;
            }
            let next: u64 = self.phase + step;
            self.phase = if next >= PHASE_ONE { next - PHASE_ONE } else { next };
        } else {
            proof {
                assert(frames_in(len as int, ch as int) == frame) by (nonlinear_arith)
                    requires len == frame * ch, ch > 0, frame >= 0;
            }
        }
    }
}

/// One wrapped step of the phase accumulator lands on the next frame's phase.
proof fn lemma_phase_step(base: int, inc: int, f: int)
    requires
        0 <= base,
        0 <= inc,
        0 <= f,
    ensures
        ({
            let nxt = phase_after(base, inc, f) + inc % (PHASE_ONE as int);
            phase_after(base, inc, f + 1) == if nxt >= PHASE_ONE as int { nxt - PHASE_ONE as int } else { nxt }
        }),
{
    let one = PHASE_ONE as int;
    vstd::arithmetic::div_mod::lemma_add_mod_noop(base + f * inc, inc, one);
    assert(base + f * inc + inc == base + (f + 1) * inc) by (nonlinear_arith);
    let nxt = phase_after(base, inc, f) + inc % one;
    if nxt >= one {
        vstd::arithmetic::div_mod::lemma_mod_add_multiples_vanish(nxt - one, one);
        vstd::arithmetic::div_mod::lemma_small_mod((nxt - one) as nat, one as nat);
    } else {
        vstd::arithmetic::div_mod::lemma_small_mod(nxt as nat, one as nat);
    }
}

} // verus!
