use vstd::prelude::*;
use crate::error::EngineError;
use crate::limits::{MAX_AMPLITUDE, MAX_FREQUENCY_MHZ, MAX_SESSION_DURATION_MS, MIN_FREQUENCY_MHZ};
use crate::session::{clamp_amplitude, refreshed, AppState, StartStep, TickOutcome};
use crate::waveform::WaveformType;

verus! {

/// Whatever amplitude is asked for, the stored amplitude (in the session
/// and in the parameters the callback reads) is the request clamped into
/// `[0, MAX_AMPLITUDE]`.
pub proof fn amplitude_is_clamped(s: AppState, level: int)
    requires
        s.wf(),
    ensures
        s.after_set_amplitude(level).wf(),
        s.after_set_amplitude(level).session.amplitude == clamp_amplitude(level),
        s.after_set_amplitude(level).audio_params.amplitude == clamp_amplitude(level),
        0 <= clamp_amplitude(level) <= MAX_AMPLITUDE,
        0 <= level <= MAX_AMPLITUDE ==> clamp_amplitude(level) == level,
        level < 0 ==> clamp_amplitude(level) == 0,
        level > MAX_AMPLITUDE ==> clamp_amplitude(level) == MAX_AMPLITUDE,
{
}

/// A frequency between 1 and 60 Hz is accepted, and a later read of the
/// session returns it exactly.
pub proof fn frequency_in_range_is_kept(s: AppState, mhz: int, now: u64)
    requires
        s.wf(),
        MIN_FREQUENCY_MHZ <= mhz <= MAX_FREQUENCY_MHZ,
    ensures
        s.after_set_frequency(mhz).1 is Ok,
        refreshed(s.after_set_frequency(mhz).0.session, now).current_frequency_hz == mhz,
        s.after_set_frequency(mhz).0.audio_params.frequency_hz == mhz,
{
}

/// A frequency outside 1 to 60 Hz is refused and nothing changes.
pub proof fn frequency_out_of_range_is_refused(s: AppState, mhz: int)
    requires
        s.wf(),
        mhz < MIN_FREQUENCY_MHZ || mhz > MAX_FREQUENCY_MHZ,
    ensures
        s.after_set_frequency(mhz).1 == Err::<(), EngineError>(EngineError::InvalidFrequency),
        s.after_set_frequency(mhz).0 == s,
{
}

/// Starting twice in a row leaves one open stream and one safety timer: the
/// second start changes nothing and asks for neither a stream nor a timer.
pub proof fn start_twice_keeps_one_stream_and_one_timer(s: AppState, t1: u64, t2: u64)
    requires
        s.wf(),
    ensures
        s.started(t1).wf(),
        s.started(t1).session.is_playing,
        s.started(t1).stream_open,
        s.started(t1).timer is Some,
        s.started(t1).after_start(t2) == (s.started(t1), StartStep::AlreadyPlaying),
{
}

/// Once a session has played for the maximum duration, the first tick of its
/// timer stops playback, whatever else happened.
pub proof fn cutoff_fires_at_the_limit(s: AppState, start: u64, generation: u64, now: u64)
    requires
        s.wf(),
        s.timer == Some(generation),
        s.session.session_start_ms == Some(start),
        now >= start + MAX_SESSION_DURATION_MS,
    ensures
        s.after_tick(generation, now).1 == TickOutcome::CutoffReached,
        s.after_tick(generation, now).0.wf(),
        !s.after_tick(generation, now).0.session.is_playing,
        !s.after_tick(generation, now).0.audio_params.is_playing,
        s.after_tick(generation, now).0.timer is None,
        s.after_tick(generation, now).0.session.remaining_ms == 0,
        s.after_tick(generation, now).0.session.elapsed_ms == MAX_SESSION_DURATION_MS,
{
}

/// A timer that is not the live one exits at its next tick and changes
/// nothing, so a stopped session never leaves a second timer at work.
pub proof fn stale_timer_exits(s: AppState, generation: u64, now: u64)
    requires
        s.wf(),
        s.timer != Some(generation),
    ensures
        s.after_tick(generation, now) == (s, TickOutcome::Exit),
{
}

/// The session is either stopped, or still guarded by the timer of
/// generation `generation` and still dated from `start`.
pub open spec fn guarded(t: AppState, generation: u64, start: u64) -> bool {
    t.wf() && (!t.session.is_playing || (t.timer == Some(generation) && t.session.session_start_ms == Some(start)))
}

/// No command can suppress, delay or disable the safety cutoff of a playing
/// session: each one either stops playback or keeps the live timer and the
/// start time, so the deadline stays where it was.
pub proof fn commands_keep_the_cutoff(
    s: AppState,
    mhz: int,
    level: int,
    lower: Seq<char>,
    w: WaveformType,
    device_id: Option<String>,
    sample_rate: Option<u32>,
    buffer_size: Option<u32>,
    opened: Result<(), EngineError>,
    now: u64,
)
    requires
        s.wf(),
        s.session.is_playing,
    ensures
        ({
            let g = s.timer->0;
            let start = s.session.session_start_ms->0;
            &&& guarded(s.after_set_frequency(mhz).0, g, start)
            &&& guarded(s.after_set_amplitude(level), g, start)
            &&& guarded(s.after_set_waveform(lower).0, g, start)
            &&& guarded(s.with_waveform(w), g, start)
            &&& guarded(s.after_set_config(device_id, sample_rate, buffer_size).0, g, start)
            &&& guarded(s.after_stream_reopened(opened).0, g, start)
            &&& guarded(AppState { session: refreshed(s.session, now), ..s }, g, start)
            &&& guarded(s.after_start(now).0, g, start)
            &&& guarded(s.stopped(), g, start)
        }),
{
}

/// In a guarded state, a tick of that timer at or past the deadline leaves
/// playback stopped, in the session and in what the audio callback reads.
pub proof fn guarded_session_ends_at_the_deadline(t: AppState, generation: u64, start: u64, now: u64)
    requires
        guarded(t, generation, start),
        now >= start + MAX_SESSION_DURATION_MS,
    ensures
        !t.after_tick(generation, now).0.session.is_playing,
        !t.after_tick(generation, now).0.audio_params.is_playing,
        t.session.is_playing ==> t.after_tick(generation, now).1 == TickOutcome::CutoffReached
            && t.after_tick(generation, now).0.session.remaining_ms == 0,
{
}

/// While a session plays, reading it never makes elapsed time go back.
pub proof fn elapsed_never_decreases(s: AppState, now: u64)
    requires
        s.wf(),
    ensures
        refreshed(s.session, now).elapsed_ms >= s.session.elapsed_ms,
        refreshed(s.session, now).session_start_ms == s.session.session_start_ms,
{
}

} // verus!
