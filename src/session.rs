use vstd::prelude::*;
use crate::config::{check_config, config_error, config_updated, AudioConfig};
use crate::error::EngineError;
use crate::limits::{MAX_AMPLITUDE, MAX_FREQUENCY_MHZ, MAX_SESSION_DURATION_MS, MIN_FREQUENCY_MHZ};
use crate::params::AudioParams;
use crate::text::lower_of;
use crate::waveform::{lookup_result, WaveformType};

verus! {

/// `a - b`, or zero when `b` is larger.
pub open spec fn sat_sub(a: int, b: int) -> int {
    if a >= b { a - b } else { 0 }
}

/// What the user sees of a session. Frequency in millihertz, amplitude in
/// millionths of full scale, times in milliseconds.
#[derive(Debug, Clone, Copy, PartialEq, Eq, Structural)]
pub struct SessionState {
    pub is_playing: bool,
    pub current_frequency_hz: u32,
    pub amplitude: u32,
    pub waveform: WaveformType,
    pub session_start_ms: Option<u64>,
    pub elapsed_ms: u64,
    pub remaining_ms: u64,
}

impl SessionState {
    /// Remaining time is what is left of the maximum duration; a session
    /// plays exactly when it has a start time; settings are in range.
    pub open spec fn wf(&self) -> bool {
        &&& self.remaining_ms == sat_sub(MAX_SESSION_DURATION_MS as int, self.elapsed_ms as int)
        &&& (self.is_playing <==> self.session_start_ms is Some)
        &&& MIN_FREQUENCY_MHZ <= self.current_frequency_hz <= MAX_FREQUENCY_MHZ
        &&& self.amplitude <= MAX_AMPLITUDE
    }
}

impl SessionState {
    pub open spec fn default_spec() -> SessionState {
        SessionState {
            is_playing: false,
            current_frequency_hz: 40_000,
            amplitude: 500_000,
            waveform: WaveformType::Sine,
            session_start_ms: None,
            elapsed_ms: 0,
            remaining_ms: MAX_SESSION_DURATION_MS,
        }
    }
}

impl Default for SessionState {
    /// Stopped, 40 Hz, half amplitude, sine, the whole duration ahead.
    fn default() -> (r: SessionState)
        ensures
            r.wf(),
            !r.is_playing,
            r.current_frequency_hz == 40_000,
            r.amplitude == 500_000,
            r.waveform == WaveformType::Sine,
            r.session_start_ms is None,
            r.elapsed_ms == 0,
            r.remaining_ms == MAX_SESSION_DURATION_MS,
    {
        SessionState {
            is_playing: false,
            current_frequency_hz: 40_000,
            amplitude: 500_000,
            waveform: WaveformType::Sine,
            session_start_ms: None,
            elapsed_ms: 0,
            remaining_ms: MAX_SESSION_DURATION_MS,
        }
    }
}

/// What the caller must do after a start request.
#[derive(Debug, Clone, Copy, PartialEq, Eq, Structural)]
pub enum StartStep {
    /// A session was already playing: nothing changed.
    AlreadyPlaying,
    /// No stream is open: open one and report the outcome with `stream_opened`.
    NeedStream,
    /// The session began: run one safety timer with this generation.
    Started { timer: u64 },
}

/// What the safety timer must do after a tick.
#[derive(Debug, Clone, Copy, PartialEq, Eq, Structural)]
pub enum TickOutcome {
    /// The session this timer guards is over or was stopped: exit.
    Exit,
    /// Keep ticking.
    Continue,
    /// The maximum duration was reached; playback was stopped: exit.
    CutoffReached,
}

/// What the caller must do after a configuration change was accepted.
#[derive(Debug, Clone, Copy, PartialEq, Eq, Structural)]
pub enum ConfigStep {
    /// Nothing more.
    Applied,
    /// Close the idle stream; the next start opens one with the new settings.
    CloseStream,
    /// Replace the playing stream (close it first, then open one with the
    /// new settings) and report the outcome with `stream_reopened`.
    ReopenStream,
}

/// One engine: the session, the parameters the audio callback reads, the
/// output settings, whether a stream is open, and the live safety timer.
#[derive(Debug, Clone)]
pub struct AppState {
    pub session: SessionState,
    pub audio_params: AudioParams,
    pub audio_config: AudioConfig,
    /// Whether the one output stream is open.
    pub stream_open: bool,
    /// Generation of the one live safety timer, if any.
    pub timer: Option<u64>,
    /// Generation the next timer will get.
    pub next_timer: u64,
}

pub open spec fn next_generation(g: u64) -> u64 {
    if g == u64::MAX { 0 } else { (g + 1) as u64 }
}

/// The session with playback begun at `now`.
pub open spec fn session_begun(s: SessionState, now: u64) -> SessionState {
    SessionState {
        is_playing: true,
        session_start_ms: Some(now),
        elapsed_ms: 0,
        remaining_ms: MAX_SESSION_DURATION_MS,
        ..s
    }
}

/// The session with playback stopped by the user.
pub open spec fn session_stopped(s: SessionState) -> SessionState {
    SessionState {
        is_playing: false,
        session_start_ms: None,
        remaining_ms: sat_sub(MAX_SESSION_DURATION_MS as int, s.elapsed_ms as int) as u64,
        ..s
    }
}

/// The session with playback stopped by the safety cutoff.
pub open spec fn session_cut_off(s: SessionState) -> SessionState {
    SessionState {
        is_playing: false,
        session_start_ms: None,
        elapsed_ms: MAX_SESSION_DURATION_MS,
        remaining_ms: 0,
        ..s
    }
}

/// Time played at `now`.
pub open spec fn elapsed_at(s: SessionState, now: u64) -> int {
    match s.session_start_ms {
        Some(t) => sat_sub(now as int, t as int),
        None => 0,
    }
}

/// The session with elapsed and remaining time brought up to `now`. While
/// playing, elapsed time never goes back, even if the clock does.
pub open spec fn refreshed(s: SessionState, now: u64) -> SessionState {
    if s.is_playing && s.session_start_ms is Some {
        let e = if elapsed_at(s, now) > s.elapsed_ms as int { elapsed_at(s, now) } else { s.elapsed_ms as int };
        SessionState {
            elapsed_ms: e as u64,
            remaining_ms: sat_sub(MAX_SESSION_DURATION_MS as int, e) as u64,
            ..s
        }
    } else {
        s
    }
}

/// An amplitude request brought into `[0, MAX_AMPLITUDE]`.
pub open spec fn clamp_amplitude(level: int) -> int {
    if level < 0 {
        0
    } else if level > MAX_AMPLITUDE as int {
        MAX_AMPLITUDE as int
    } else {
        level
    }
}

impl AppState {
    /// The parameters mirror the session, one timer runs exactly while a
    /// session plays, and a playing session has a stream.
    pub open spec fn wf(&self) -> bool {
        &&& self.session.wf()
        &&& self.audio_params.frequency_hz == self.session.current_frequency_hz
        &&& self.audio_params.amplitude == self.session.amplitude
        &&& self.audio_params.waveform == self.session.waveform
        &&& self.audio_params.is_playing == self.session.is_playing
        &&& (self.timer is Some <==> self.session.is_playing)
        &&& (self.session.is_playing ==> self.stream_open)
    }

    pub open spec fn begun(self, now: u64) -> AppState {
        AppState {
            session: session_begun(self.session, now),
            audio_params: AudioParams { is_playing: true, ..self.audio_params },
            timer: Some(self.next_timer),
            next_timer: next_generation(self.next_timer),
            ..self
        }
    }

    pub open spec fn stopped(self) -> AppState {
        AppState {
            session: session_stopped(self.session),
            audio_params: AudioParams { is_playing: false, ..self.audio_params },
            timer: None,
            ..self
        }
    }

    pub open spec fn cut_off(self) -> AppState {
        AppState {
            session: session_cut_off(self.session),
            audio_params: AudioParams { is_playing: false, ..self.audio_params },
            timer: None,
            ..self
        }
    }

    /// A start request at `now`.
    pub open spec fn after_start(self, now: u64) -> (AppState, StartStep) {
        if self.session.is_playing {
            (self, StartStep::AlreadyPlaying)
        } else if !self.stream_open {
            (self, StartStep::NeedStream)
        } else {
            (self.begun(now), StartStep::Started { timer: self.next_timer })
        }
    }

    /// The outcome of opening a stream for a start request at `now`.
    pub open spec fn after_stream_opened(self, opened: Result<(), EngineError>, now: u64) -> (AppState, Result<StartStep, EngineError>) {
        match opened {
            Err(e) => (self, Err(e)),
            Ok(_) => {
                let (t, step) = (AppState { stream_open: true, ..self }).after_start(now);
                (t, Ok(step))
            },
        }
    }

    /// A start request carried through, with a stream that opens when one
    /// is needed.
    pub open spec fn started(self, now: u64) -> AppState {
        let (t, step) = self.after_start(now);
        if step == StartStep::NeedStream {
            self.after_stream_opened(Ok(()), now).0
        } else {
            t
        }
    }

    /// A tick of the timer of generation `generation` at `now`.
    pub open spec fn after_tick(self, generation: u64, now: u64) -> (AppState, TickOutcome) {
        if self.timer != Some(generation) {
            (self, TickOutcome::Exit)
        } else if elapsed_at(self.session, now) >= MAX_SESSION_DURATION_MS as int {
            (self.cut_off(), TickOutcome::CutoffReached)
        } else {
            (self, TickOutcome::Continue)
        }
    }

    /// A frequency request of `mhz` millihertz.
    pub open spec fn after_set_frequency(self, mhz: int) -> (AppState, Result<(), EngineError>) {
        if mhz < MIN_FREQUENCY_MHZ as int || mhz > MAX_FREQUENCY_MHZ as int {
            (self, Err(EngineError::InvalidFrequency))
        } else {
            (AppState {
                session: SessionState { current_frequency_hz: mhz as u32, ..self.session },
                audio_params: AudioParams { frequency_hz: mhz as u32, ..self.audio_params },
                ..self
            }, Ok(()))
        }
    }

    /// An amplitude request of `level` millionths.
    pub open spec fn after_set_amplitude(self, level: int) -> AppState {
        let a = clamp_amplitude(level) as u32;
        AppState {
            session: SessionState { amplitude: a, ..self.session },
            audio_params: AudioParams { amplitude: a, ..self.audio_params },
            ..self
        }
    }

    pub open spec fn with_waveform(self, w: WaveformType) -> AppState {
        AppState {
            session: SessionState { waveform: w, ..self.session },
            audio_params: AudioParams { waveform: w, ..self.audio_params },
            ..self
        }
    }

    /// A waveform request by a name that is already lower case.
    pub open spec fn after_set_waveform(self, lower: Seq<char>) -> (AppState, Result<(), EngineError>) {
        match lookup_result(lower) {
            Ok(w) => (self.with_waveform(w), Ok(())),
            Err(e) => (self, Err(e)),
        }
    }

    /// A configuration request.
    pub open spec fn after_set_config(self, device_id: Option<String>, sample_rate: Option<u32>, buffer_size: Option<u32>) -> (AppState, Result<ConfigStep, EngineError>) {
        match config_error(sample_rate, buffer_size) {
            Some(e) => (self, Err(e)),
            None => {
                let c = config_updated(self.audio_config, device_id, sample_rate, buffer_size);
                if self.session.is_playing {
                    (AppState { audio_config: c, ..self }, Ok(ConfigStep::ReopenStream))
                } else if self.stream_open {
                    (AppState { audio_config: c, stream_open: false, ..self }, Ok(ConfigStep::CloseStream))
                } else {
                    (AppState { audio_config: c, ..self }, Ok(ConfigStep::Applied))
                }
            },
        }
    }

    /// The outcome of replacing the stream. On failure no stream is left
    /// and the session stops.
    pub open spec fn after_stream_reopened(self, opened: Result<(), EngineError>) -> (AppState, Result<(), EngineError>) {
        match opened {
            Ok(_) => (AppState { stream_open: true, ..self }, Ok(())),
            Err(e) => (AppState { stream_open: false, ..self.stopped() }, Err(e)),
        }
    }
}

impl Default for AppState {
    /// A stopped engine with default settings, no stream and no timer.
    fn default() -> (r: AppState)
        ensures
            r.wf(),
            r.session == SessionState::default_spec(),
            r.audio_config.device_id is None,
            r.audio_config.sample_rate == 44100,
            r.audio_config.buffer_size == 512,
            r.audio_params == (AudioParams {
                frequency_hz: 40_000,
                amplitude: 500_000,
                waveform: WaveformType::Sine,
                is_playing: false,
            }),
            !r.stream_open,
            r.timer is None,
            r.next_timer == 0,
    {
        AppState {
            session: SessionState::default(),
            audio_params: AudioParams::new(),
            audio_config: AudioConfig::default(),
            stream_open: false,
            timer: None,
            next_timer: 0,
        }
    }
}

/// Relies on `SystemTime::elapsed` of `UNIX_EPOCH`: the wall clock in
/// milliseconds since the epoch, or zero when the clock reads earlier than
/// the epoch. Nothing is promised of the value.
#[verifier::external_body]
fn now_ms() -> (r: u64) {
    match std::time::UNIX_EPOCH.elapsed() {
        Ok(d) => d.as_millis() as u64,
        Err(_) => 0,
    }
}

impl AppState {
    /// The session, with elapsed and remaining time brought up to `now`
    /// while playing.
    pub fn get_session_state_at(&mut self, now: u64) -> (r: SessionState)
        requires
            old(self).wf(),
        ensures
            final(self).wf(),
            *final(self) == (AppState { session: refreshed(old(self).session, now), ..*old(self) }),
            r == final(self).session,
    {
        if self.session.is_playing {
            if let Some(start) = self.session.session_start_ms {
                let since: u64 = if now >= start { now - start } else { 0 };
                let e: u64 = if since > self.session.elapsed_ms { since } else { self.session.elapsed_ms };
                self.session.elapsed_ms = e;
                self.session.remaining_ms = if MAX_SESSION_DURATION_MS >= e { MAX_SESSION_DURATION_MS - e } else { 0 };
            }
        }
        self.session
    }

    /// The session as of the wall clock.
    pub fn get_session_state(&mut self) -> (r: SessionState)
        requires
            old(self).wf(),
        ensures
            final(self).wf(),
            exists|now: u64| *final(self) == (AppState { session: #[trigger] refreshed(old(self).session, now), ..*old(self) }),
            r == final(self).session,
    {
        let now = now_ms();
        self.get_session_state_at(now)
    }

    /// Sets the carrier frequency, in millihertz; refused outside 1 to 60 Hz.
    pub fn set_frequency(&mut self, mhz: i64) -> (r: Result<(), EngineError>)
        requires
            old(self).wf(),
        ensures
            final(self).wf(),
            (*final(self), r) == old(self).after_set_frequency(mhz as int),
    {
        if mhz < MIN_FREQUENCY_MHZ as i64 || mhz > MAX_FREQUENCY_MHZ as i64 {
            return Err(EngineError::InvalidFrequency);
        }
        self.session.current_frequency_hz = mhz as u32;
        self.audio_params.set_frequency(mhz as u32);
        Ok(())
    }

    /// Sets the amplitude, in millionths, clamped into `[0, MAX_AMPLITUDE]`.
    pub fn set_amplitude(&mut self, level: i64)
        requires
            old(self).wf(),
        ensures
            final(self).wf(),
            *final(self) == old(self).after_set_amplitude(level as int),
    {
        let a: u32 = if level < 0 {
            0
        } else if level > MAX_AMPLITUDE as i64 {
            MAX_AMPLITUDE
        } else {
            level as u32
        };
        self.session.amplitude = a;
        self.audio_params.set_amplitude(a);
    }

    /// Sets the waveform by a name that is already lower case.
    pub fn set_waveform_lowercase(&mut self, lower: &str) -> (r: Result<(), EngineError>)
        requires
            old(self).wf(),
        ensures
            final(self).wf(),
            (*final(self), r) == old(self).after_set_waveform(lower@),
    {
        let w = WaveformType::from_lowercase(lower)?;
        self.session.waveform = w;
        self.audio_params.set_waveform(w);
        Ok(())
    }

    /// Sets the waveform by name, in any letter case.
    pub fn set_waveform(&mut self, name: &str) -> (r: Result<(), EngineError>)
        requires
            old(self).wf(),
        ensures
            final(self).wf(),
            (*final(self), r) == old(self).after_set_waveform(lower_of(name@)),
    {
        match WaveformType::parse(name) {
            Ok(w) => {
                self.session.waveform = w;
                self.audio_params.set_waveform(w);
                Ok(())
            },
            Err(e) => Err(e),
        }
    }

    /// Starts a session at `now`, if none is playing and a stream is open.
    pub fn start_session_at(&mut self, now: u64) -> (r: StartStep)
        requires
            old(self).wf(),
        ensures
            final(self).wf(),
            (*final(self), r) == old(self).after_start(now),
    {
        if self.session.is_playing {
            return StartStep::AlreadyPlaying;
        }
        if !self.stream_open {
            return StartStep::NeedStream;
        }
        self.audio_params.set_playing(true);
        self.session.is_playing = true;
        self.session.session_start_ms = Some(now);
        self.session.elapsed_ms = 0;
        self.session.remaining_ms = MAX_SESSION_DURATION_MS;
        let generation = self.next_timer;
        self.timer = Some(generation);
        self.next_timer = if generation == u64::MAX { 0 } else { generation + 1 };
        StartStep::Started { timer: generation }
    }

    /// Starts a session as of the wall clock.
    pub fn start_session(&mut self) -> (r: StartStep)
        requires
            old(self).wf(),
        ensures
            final(self).wf(),
            exists|now: u64| (*final(self), r) == old(self).after_start(now),
    {
        let now = now_ms();
        self.start_session_at(now)
    }

    /// Records whether the stream a start request needed could be opened,
    /// then starts the session at `now` if it did.
    pub fn stream_opened_at(&mut self, opened: Result<(), EngineError>, now: u64) -> (r: Result<StartStep, EngineError>)
        requires
            old(self).wf(),
        ensures
            final(self).wf(),
            (*final(self), r) == old(self).after_stream_opened(opened, now),
    {
        match opened {
            Err(e) => Err(e),
            Ok(_) => {
                self.stream_open = true;
                Ok(self.start_session_at(now))
            },
        }
    }

    /// As `stream_opened_at`, as of the wall clock.
    pub fn stream_opened(&mut self, opened: Result<(), EngineError>) -> (r: Result<StartStep, EngineError>)
        requires
            old(self).wf(),
        ensures
            final(self).wf(),
            exists|now: u64| (*final(self), r) == old(self).after_stream_opened(opened, now),
    {
        let now = now_ms();
        self.stream_opened_at(opened, now)
    }

    /// Stops playback and cancels the safety timer; the stream stays open
    /// and plays silence.
    pub fn stop_session(&mut self)
        requires
            old(self).wf(),
        ensures
            final(self).wf(),
            *final(self) == old(self).stopped(),
    {
        self.timer = None;
        self.audio_params.set_playing(false);
        self.session.is_playing = false;
        self.session.session_start_ms = None;
        self.session.remaining_ms = if MAX_SESSION_DURATION_MS >= self.session.elapsed_ms {
            MAX_SESSION_DURATION_MS - self.session.elapsed_ms
        } else {
            0
        };
    }

    /// One tick of the safety timer of generation `generation` at `now`:
    /// past the maximum duration, playback stops unconditionally.
    pub fn timer_tick_at(&mut self, generation: u64, now: u64) -> (r: TickOutcome)
        requires
            old(self).wf(),
        ensures
            final(self).wf(),
            (*final(self), r) == old(self).after_tick(generation, now),
    {
        match self.timer {
            Some(g) => {
                if g != generation {
                    return TickOutcome::Exit;
                }
            },
            None => {
                return TickOutcome::Exit;
            },
        }
        let elapsed: u64 = match self.session.session_start_ms {
            Some(start) => if now >= start { now - start } else { 0 },
            None => 0,
        };
        if elapsed >= MAX_SESSION_DURATION_MS {
            self.audio_params.set_playing(false);
            self.session.is_playing = false;
            self.session.session_start_ms = None;
            self.session.elapsed_ms = MAX_SESSION_DURATION_MS;
            self.session.remaining_ms = 0;
            self.timer = None;
            TickOutcome::CutoffReached
        } else {
            TickOutcome::Continue
        }
    }

    /// One tick of the safety timer as of the wall clock.
    pub fn timer_tick(&mut self, generation: u64) -> (r: TickOutcome)
        requires
            old(self).wf(),
        ensures
            final(self).wf(),
            exists|now: u64| (*final(self), r) == old(self).after_tick(generation, now),
    {
        let now = now_ms();
        self.timer_tick_at(generation, now)
    }

    /// The output settings.
    pub fn get_audio_config(&self) -> (r: AudioConfig)
        ensures
            r == self.audio_config,
    {
        self.audio_config.snapshot()
    }

    /// Validates and applies new output settings; says what must happen to
    /// the stream.
    pub fn set_audio_config(&mut self, device_id: Option<String>, sample_rate: Option<u32>, buffer_size: Option<u32>) -> (r: Result<ConfigStep, EngineError>)
        requires
            old(self).wf(),
        ensures
            final(self).wf(),
            (*final(self), r) == old(self).after_set_config(device_id, sample_rate, buffer_size),
    {
        check_config(sample_rate, buffer_size)?;
        self.audio_config.apply(device_id, sample_rate, buffer_size);
        if self.session.is_playing {
            Ok(ConfigStep::ReopenStream)
        } else if self.stream_open {
            self.stream_open = false;
            Ok(ConfigStep::CloseStream)
        } else {
            Ok(ConfigStep::Applied)
        }
    }

    /// Records whether the replacement stream could be opened; if not, no
    /// stream is left and the session stops.
    pub fn stream_reopened(&mut self, opened: Result<(), EngineError>) -> (r: Result<(), EngineError>)
        requires
            old(self).wf(),
        ensures
            final(self).wf(),
            (*final(self), r) == old(self).after_stream_reopened(opened),
    {
        match opened {
            Ok(_) => {
                self.stream_open = true;
                Ok(())
            },
            Err(e) => {
                self.stop_session();
                self.stream_open = false;
                Err(e)
            },
        }
    }
}

} // verus!
