use vstd::prelude::*;
use crate::error::EngineError;
use crate::limits::{MAX_AMPLITUDE, PHASE_HALF, PHASE_ONE};
use crate::text::{lower_of, lowercase, same_text};

verus! {

/// The four tone shapes the generator can produce.
#[derive(Debug, Clone, Copy, PartialEq, Eq, Structural)]
pub enum WaveformType {
    Sine,
    Square,
    Triangle,
    Sawtooth,
}

/// The waveform a lower-case name stands for.
pub open spec fn waveform_named(name: Seq<char>) -> Option<WaveformType> {
    if name == "sine"@ {
        Some(WaveformType::Sine)
    } else if name == "square"@ {
        Some(WaveformType::Square)
    } else if name == "triangle"@ {
        Some(WaveformType::Triangle)
    } else if name == "sawtooth"@ {
        Some(WaveformType::Sawtooth)
    } else {
        None
    }
}

/// The result of looking up a lower-case name.
pub open spec fn lookup_result(name: Seq<char>) -> Result<WaveformType, EngineError> {
    match waveform_named(name) {
        Some(w) => Ok(w),
        None => Err(EngineError::InvalidWaveform),
    }
}

/// The lower-case name of a waveform.
pub open spec fn name_of(w: WaveformType) -> Seq<char> {
    match w {
        WaveformType::Sine => "sine"@,
        WaveformType::Square => "square"@,
        WaveformType::Triangle => "triangle"@,
        WaveformType::Sawtooth => "sawtooth"@,
    }
}

impl Default for WaveformType {
    fn default() -> (r: WaveformType)
        ensures
            r == WaveformType::Sine,
    {
        WaveformType::Sine
    }
}

impl WaveformType {
    /// Looks up a name that is already lower case.
    pub fn from_lowercase(name: &str) -> (r: Result<WaveformType, EngineError>)
        ensures
            r == lookup_result(name@),
    {
        if same_text(name, "sine") {
            Ok(WaveformType::Sine)
        } else if same_text(name, "square") {
            Ok(WaveformType::Square)
        } else if same_text(name, "triangle") {
            Ok(WaveformType::Triangle)
        } else if same_text(name, "sawtooth") {
            Ok(WaveformType::Sawtooth)
        } else {
            Err(EngineError::InvalidWaveform)
        }
    }

    /// Looks up a name in any letter case: sine, square, triangle or sawtooth.
    pub fn parse(name: &str) -> (r: Result<WaveformType, EngineError>)
        ensures
            r == lookup_result(lower_of(name@)),
    {
        let lower = lowercase(name);
        WaveformType::from_lowercase(lower.as_str())
    }

    /// The lower-case name of this waveform.
    pub fn name(&self) -> (r: &'static str)
        ensures
            r@ == name_of(*self),
    {
        match self {
            WaveformType::Sine => "sine",
            WaveformType::Square => "square",
            WaveformType::Triangle => "triangle",
            WaveformType::Sawtooth => "sawtooth",
        }
    }
}

impl std::str::FromStr for WaveformType {
    type Err = EngineError;

    fn from_str(s: &str) -> Result<WaveformType, EngineError> {
        WaveformType::parse(s)
    }
}

/// `amp * num / PHASE_ONE`, rounded toward zero.
pub open spec fn scaled(amp: int, num: int) -> int {
    if num >= 0 {
        (amp * num) / (PHASE_ONE as int)
    } else {
        -((amp * -num) / (PHASE_ONE as int))
    }
}

/// Half a sine lobe over `u` in `[0, PHASE_ONE]`, by Bhaskara's rational
/// approximation `16 t / (5 - 4 t)` with `t = u (1 - u)`; it is exact at the
/// ends and the middle, and within 0.2% of full scale elsewhere.
pub open spec fn half_sine(amp: int, u: int) -> int {
    let one = PHASE_ONE as int;
    let t = u * (one - u);
    (16 * amp * t) / (5 * one * one - 4 * t)
}

/// The amplitude actually used: never above the global ceiling.
pub open spec fn safe_amplitude(amp: int) -> int {
    if amp < MAX_AMPLITUDE as int { amp } else { MAX_AMPLITUDE as int }
}

/// One sample of `kind` at phase `p` (billionths of a cycle) and amplitude
/// `amp` (millionths), in millionths of full scale.
pub open spec fn sample_value(kind: WaveformType, p: int, amp: int) -> int {
    let a = safe_amplitude(amp);
    let one = PHASE_ONE as int;
    let half = PHASE_HALF as int;
    match kind {
        WaveformType::Sine => if p < half { half_sine(a, 2 * p) } else { -half_sine(a, 2 * p - one) },
        WaveformType::Square => if p < half { a } else { -a },
        WaveformType::Triangle => if p < half { scaled(a, 4 * p - one) } else { scaled(a, 3 * one - 4 * p) },
        WaveformType::Sawtooth => scaled(a, 2 * p - one),
    }
}

/// `amp * num / PHASE_ONE` rounded toward zero, for `|num| <= PHASE_ONE`.
fn scale(amp: u32, num: i64) -> (r: i32)
    requires
        amp <= MAX_AMPLITUDE,
        -(PHASE_ONE as int) <= num <= PHASE_ONE as int,
    ensures
        r as int == scaled(amp as int, num as int),
        -(amp as int) <= r <= amp as int,
{
    let mag: u64 = if num >= 0 { num as u64 } else { (-num) as u64 };
    proof {
        assert(amp as int * mag as int <= amp as int * PHASE_ONE as int) by (nonlinear_arith)
            requires mag <= PHASE_ONE;
        assert((amp as int * mag as int) / (PHASE_ONE as int) <= amp as int) by (nonlinear_arith)
            requires amp as int * mag as int <= amp as int * PHASE_ONE as int, amp as int * mag as int >= 0;
    }
    let q: u64 = (amp as u64 * mag) / PHASE_ONE;
    if num >= 0 {
        q as i32
    } else {
        -(q as i32)
    }
}

/// Half a sine lobe at `u` in `[0, PHASE_ONE]`, never above `amp`.
fn half_sine_exec(amp: u32, u: u64) -> (r: i32)
    requires
        amp <= MAX_AMPLITUDE,
        u <= PHASE_ONE,
    ensures
        r as int == half_sine(amp as int, u as int),
        0 <= r <= amp,
{
    let one: u128 = PHASE_ONE as u128;
    let uu: u128 = u as u128;
    let ghost ui = u as int;
    let ghost o = PHASE_ONE as int;
    proof {
        assert(4 * (ui * (o - ui)) <= o * o) by (nonlinear_arith);
        assert(0 <= ui * (o - ui)) by (nonlinear_arith) requires 0 <= ui <= o;
    }
    let t: u128 = uu * (one - uu);
    proof {
        let ti = t as int;
        let a = amp as int;
        assert(ti == ui * (o - ui));
        assert(16 * a * ti <= a * (5 * o * o - 4 * ti)) by (nonlinear_arith)
            requires 4 * ti <= o * o, a >= 0;
        assert(16 * a * ti >= 0) by (nonlinear_arith) requires ti >= 0, a >= 0;
        assert((16 * a * ti) / (5 * o * o - 4 * ti) <= a) by (nonlinear_arith)
            requires 16 * a * ti <= a * (5 * o * o - 4 * ti), 5 * o * o - 4 * ti > 0;
        assert(16 * a * ti <= 16 * 800_000 * (o * o)) by (nonlinear_arith)
            requires 4 * ti <= o * o, a <= 800_000, ti >= 0;
    }
    let num: u128 = 16 * (amp as u128) * t;
    let den: u128 = 5 * one * one - 4 * t;
    (num / den) as i32
}

/// One sample of `waveform` at `phase` (billionths of a cycle, below one
/// cycle) and `amplitude` (millionths). The amplitude is clamped again to the
/// global ceiling whatever the caller passed.
pub fn generate_sample(waveform: WaveformType, phase: u64, amplitude: u32) -> (r: i32)
    requires
        phase < PHASE_ONE,
    ensures
        r as int == sample_value(waveform, phase as int, amplitude as int),
        -safe_amplitude(amplitude as int) <= r <= safe_amplitude(amplitude as int),
{
    let a: u32 = if amplitude < MAX_AMPLITUDE { amplitude } else { MAX_AMPLITUDE };
    match waveform {
        WaveformType::Sine => {
            if phase < PHASE_HALF {
                half_sine_exec(a, 2 * phase)
            } else {
                -half_sine_exec(a, 2 * phase - PHASE_ONE)
            }
        },
        WaveformType::Square => {
            if phase < PHASE_HALF {
                a as i32
            } else {
                -(a as i32)
            }
        },
        WaveformType::Triangle => {
            if phase < PHASE_HALF {
                scale(a, 4 * phase as i64 - PHASE_ONE as i64)
            } else {
                scale(a, 3 * PHASE_ONE as i64 - 4 * phase as i64)
            }
        },
        WaveformType::Sawtooth => scale(a, 2 * phase as i64 - PHASE_ONE as i64),
    }
}

} // verus!
