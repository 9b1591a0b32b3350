use coherence_core::config::DeviceId;
use coherence_core::error::{EngineError, ErrorKind};
use coherence_core::limits::{MAX_AMPLITUDE, MAX_SESSION_DURATION_MS};
use coherence_core::session::{AppState, ConfigStep, SessionState, StartStep, TickOutcome};
use coherence_core::stream::{select_device, select_host};
use coherence_core::waveform::WaveformType;

/// An engine whose session started at `now`, with generation 0 for its timer.
fn playing_since(now: u64) -> AppState {
    let mut s = AppState::default();
    assert_eq!(s.start_session_at(now), StartStep::NeedStream);
    assert_eq!(s.stream_opened_at(Ok(()), now), Ok(StartStep::Started { timer: 0 }));
    s
}

#[test]
fn defaults() {
    let s = AppState::default();
    let d = SessionState::default();
    assert!(!d.is_playing);
    assert_eq!(d.current_frequency_hz, 40_000);
    assert_eq!(d.amplitude, 500_000);
    assert_eq!(d.waveform, WaveformType::Sine);
    assert_eq!(d.remaining_ms, MAX_SESSION_DURATION_MS);
    assert_eq!(s.session, d);
    assert!(!s.stream_open);
    assert_eq!(s.timer, None);
    assert_eq!(s.get_audio_config().sample_rate, 44100);
    assert_eq!(s.get_audio_config().buffer_size, 512);
    assert_eq!(s.get_audio_config().device_id, None);
}

#[test]
fn amplitude_requests_are_clamped() {
    let mut s = AppState::default();
    s.set_amplitude(-5);
    assert_eq!(s.session.amplitude, 0);
    assert_eq!(s.audio_params.amplitude, 0);
    s.set_amplitude(900_000);
    assert_eq!(s.session.amplitude, MAX_AMPLITUDE);
    assert_eq!(s.audio_params.amplitude, MAX_AMPLITUDE);
    s.set_amplitude(300_000);
    assert_eq!(s.session.amplitude, 300_000);
    s.set_amplitude(800_000);
    assert_eq!(s.session.amplitude, 800_000);
}

#[test]
fn frequency_in_range_reads_back() {
    let mut s = AppState::default();
    for f in [1_000i64, 60_000, 40_500, 7_830] {
        assert_eq!(s.set_frequency(f), Ok(()));
        assert_eq!(s.get_session_state_at(0).current_frequency_hz as i64, f);
        assert_eq!(s.audio_params.get_frequency() as i64, f);
    }
}

#[test]
fn frequency_out_of_range_is_refused() {
    let mut s = AppState::default();
    assert_eq!(s.set_frequency(500), Err(EngineError::InvalidFrequency));
    assert_eq!(s.set_frequency(61_000), Err(EngineError::InvalidFrequency));
    assert_eq!(s.set_frequency(60_001), Err(EngineError::InvalidFrequency));
    assert_eq!(s.set_frequency(-40_000), Err(EngineError::InvalidFrequency));
    assert_eq!(s.session.current_frequency_hz, 40_000);
    assert_eq!(s.audio_params.frequency_hz, 40_000);
    assert_eq!(EngineError::InvalidFrequency.kind(), ErrorKind::Validation);
}

#[test]
fn waveform_by_name() {
    let mut s = AppState::default();
    assert_eq!(s.set_waveform("TRIANGLE"), Ok(()));
    assert_eq!(s.session.waveform, WaveformType::Triangle);
    assert_eq!(s.audio_params.waveform, WaveformType::Triangle);
    assert_eq!(s.set_waveform("pulse"), Err(EngineError::InvalidWaveform));
    assert_eq!(s.session.waveform, WaveformType::Triangle);
    assert_eq!(s.set_waveform_lowercase("square"), Ok(()));
    assert_eq!(s.session.waveform, WaveformType::Square);
    assert_eq!(s.set_waveform_lowercase("SQUARE"), Err(EngineError::InvalidWaveform));
}

#[test]
fn start_twice_gives_one_stream_and_one_timer() {
    let mut s = playing_since(1_000);
    assert!(s.session.is_playing);
    assert!(s.audio_params.is_playing);
    assert!(s.stream_open);
    assert_eq!(s.timer, Some(0));
    assert_eq!(s.start_session_at(2_000), StartStep::AlreadyPlaying);
    assert!(s.stream_open);
    assert_eq!(s.timer, Some(0));
    assert_eq!(s.session.session_start_ms, Some(1_000));
}

#[test]
fn failed_stream_open_leaves_session_stopped() {
    let mut s = AppState::default();
    assert_eq!(s.start_session_at(5), StartStep::NeedStream);
    assert_eq!(s.stream_opened_at(Err(EngineError::NoOutputDevice), 5), Err(EngineError::NoOutputDevice));
    assert!(!s.session.is_playing);
    assert!(!s.stream_open);
    assert_eq!(s.timer, None);
    assert_eq!(EngineError::NoOutputDevice.kind(), ErrorKind::Device);
}

#[test]
fn elapsed_and_remaining_follow_the_clock() {
    let mut s = playing_since(1_000);
    let st = s.get_session_state_at(61_000);
    assert_eq!(st.elapsed_ms, 60_000);
    assert_eq!(st.remaining_ms, MAX_SESSION_DURATION_MS - 60_000);
    // a clock that reads earlier does not make elapsed time go back
    let st = s.get_session_state_at(500);
    assert_eq!(st.elapsed_ms, 60_000);
    assert_eq!(st.remaining_ms, MAX_SESSION_DURATION_MS - 60_000);
    let st = s.get_session_state_at(91_000);
    assert_eq!(st.elapsed_ms, 90_000);
}

#[test]
fn safety_cutoff_after_fifteen_minutes() {
    let mut s = playing_since(1_000);
    assert_eq!(s.timer_tick_at(0, 1_000 + 899_999), TickOutcome::Continue);
    assert!(s.session.is_playing);
    assert_eq!(s.timer_tick_at(0, 1_000 + 900_000), TickOutcome::CutoffReached);
    assert!(!s.session.is_playing);
    assert!(!s.audio_params.is_playing);
    assert_eq!(s.session.remaining_ms, 0);
    assert_eq!(s.session.elapsed_ms, 900_000);
    assert_eq!(s.session.session_start_ms, None);
    assert_eq!(s.timer, None);
    assert_eq!(s.timer_tick_at(0, 1_000 + 901_000), TickOutcome::Exit);
    // A new start is needed to play again, and it starts from zero.
    assert_eq!(s.start_session_at(2_000_000), StartStep::Started { timer: 1 });
    assert!(s.session.is_playing);
    assert_eq!(s.session.elapsed_ms, 0);
    assert_eq!(s.session.remaining_ms, MAX_SESSION_DURATION_MS);
}

#[test]
fn stop_cancels_the_timer_and_keeps_the_stream() {
    let mut s = playing_since(0);
    s.get_session_state_at(30_000);
    s.stop_session();
    assert!(!s.session.is_playing);
    assert!(!s.audio_params.is_playing);
    assert_eq!(s.session.session_start_ms, None);
    assert_eq!(s.session.elapsed_ms, 30_000);
    assert_eq!(s.session.remaining_ms, MAX_SESSION_DURATION_MS - 30_000);
    assert!(s.stream_open);
    assert_eq!(s.timer, None);
    assert_eq!(s.timer_tick_at(0, 10_000_000), TickOutcome::Exit);
    // Restart: the old timer stays retired, the new one guards the session.
    assert_eq!(s.start_session_at(40_000), StartStep::Started { timer: 1 });
    assert_eq!(s.timer_tick_at(0, 40_000 + 900_000), TickOutcome::Exit);
    assert!(s.session.is_playing);
    assert_eq!(s.timer_tick_at(1, 40_000 + 900_000), TickOutcome::CutoffReached);
    s.stop_session();
    s.stop_session();
    assert!(!s.session.is_playing);
}

#[test]
fn unsupported_sample_rate_leaves_config_unchanged() {
    let mut s = AppState::default();
    assert_eq!(s.set_audio_config(None, Some(44123), None), Err(EngineError::UnsupportedSampleRate));
    let c = s.get_audio_config();
    assert_eq!(c.sample_rate, 44100);
    assert_eq!(c.buffer_size, 512);
    assert_eq!(c.device_id, None);
    assert_eq!(EngineError::UnsupportedSampleRate.kind(), ErrorKind::Validation);
}

#[test]
fn buffer_sizes_must_be_powers_of_two_in_range() {
    let mut s = AppState::default();
    assert_eq!(s.set_audio_config(None, None, Some(100)), Err(EngineError::InvalidBufferSize));
    assert_eq!(s.set_audio_config(None, None, Some(16)), Err(EngineError::InvalidBufferSize));
    assert_eq!(s.set_audio_config(None, None, Some(16384)), Err(EngineError::InvalidBufferSize));
    assert_eq!(s.set_audio_config(None, None, Some(0)), Err(EngineError::InvalidBufferSize));
    assert_eq!(s.set_audio_config(None, Some(48000), Some(33)), Err(EngineError::InvalidBufferSize));
    assert_eq!(s.get_audio_config().sample_rate, 44100);
    assert_eq!(s.set_audio_config(None, None, Some(32)), Ok(ConfigStep::Applied));
    assert_eq!(s.set_audio_config(None, None, Some(8192)), Ok(ConfigStep::Applied));
    assert_eq!(s.get_audio_config().buffer_size, 8192);
}

#[test]
fn config_change_while_idle_closes_the_stream() {
    let mut s = playing_since(0);
    s.stop_session();
    assert_eq!(s.set_audio_config(None, Some(96000), None), Ok(ConfigStep::CloseStream));
    assert!(!s.stream_open);
    assert_eq!(s.get_audio_config().sample_rate, 96000);
    assert_eq!(s.start_session_at(10), StartStep::NeedStream);
}

#[test]
fn missing_device_while_playing_stops_output() {
    let mut s = playing_since(0);
    let step = s.set_audio_config(Some("ALSA:NonexistentCard".to_string()), None, None);
    assert_eq!(step, Ok(ConfigStep::ReopenStream));
    assert_eq!(s.get_audio_config().device_id.as_deref(), Some("ALSA:NonexistentCard"));

    let id = DeviceId::parse("ALSA:NonexistentCard").unwrap();
    let hosts = vec!["ALSA".to_string(), "JACK".to_string()];
    assert_eq!(select_host(&hosts, &id), Ok(0));
    let devices = vec![Some("default".to_string()), None, Some("hw:CARD=PCH".to_string())];
    let found = select_device(&devices, &id);
    assert_eq!(found, Err(EngineError::DeviceNotFound));
    assert_eq!(EngineError::DeviceNotFound.kind(), ErrorKind::Device);

    assert_eq!(s.stream_reopened(Err(EngineError::DeviceNotFound)), Err(EngineError::DeviceNotFound));
    assert!(!s.stream_open);
    assert!(!s.session.is_playing);
    assert!(!s.audio_params.is_playing);
    assert_eq!(s.timer, None);
}

#[test]
fn successful_reopen_keeps_playing() {
    let mut s = playing_since(0);
    assert_eq!(s.set_audio_config(None, Some(48000), Some(256)), Ok(ConfigStep::ReopenStream));
    assert_eq!(s.stream_reopened(Ok(())), Ok(()));
    assert!(s.stream_open);
    assert!(s.session.is_playing);
    assert_eq!(s.timer, Some(0));
    assert_eq!(s.get_audio_config().sample_rate, 48000);
    assert_eq!(s.get_audio_config().buffer_size, 256);
}

#[test]
fn wall_clock_variants() {
    let mut s = AppState::default();
    assert_eq!(s.start_session(), StartStep::NeedStream);
    assert_eq!(s.stream_opened(Ok(())), Ok(StartStep::Started { timer: 0 }));
    assert!(s.get_session_state().is_playing);
    assert_eq!(s.timer_tick(0), TickOutcome::Continue);
    assert_eq!(s.timer_tick(7), TickOutcome::Exit);
}
