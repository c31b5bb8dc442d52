use rede::audio::capture::{
    discard, dispatch, fail_start, fulfil, get_level, record_frame, start, stop, CaptureError,
    CaptureOutcome, CaptureSession, CaptureState,
};
use rede::audio::processing::{Frame, SilenceConfig};
use rede::audio::{AudioConfig, AudioLevelInfo, DB_FLOOR_BITS, ZERO_AMPLITUDE_BITS};
use rede::keyboard::hotkey::{
    ActivationMode, CaptureRequest, HotkeyConfig, HotkeyEvent, HotkeyState,
};

fn session() -> CaptureSession {
    CaptureSession::new(SilenceConfig::default())
}

fn level(rms: f32, peak: f32, db: f32) -> AudioLevelInfo {
    AudioLevelInfo { rms_bits: rms.to_bits(), peak_bits: peak.to_bits(), db_bits: db.to_bits() }
}

fn speech(at_ms: u64) -> Frame {
    Frame { at_ms, silent: false }
}

fn silence(at_ms: u64) -> Frame {
    Frame { at_ms, silent: true }
}

#[test]
fn default_audio_config() {
    let config = AudioConfig::default();
    assert_eq!(config.sample_rate, 16000);
    assert_eq!(config.channels, 1);
    assert_eq!(config.bit_depth, 16);
    assert_eq!(config.buffer_size, 4096);
}

#[test]
fn default_level_is_quiet() {
    let quiet = AudioLevelInfo::default();
    assert_eq!(quiet.rms_bits, ZERO_AMPLITUDE_BITS);
    assert_eq!(quiet.peak_bits, ZERO_AMPLITUDE_BITS);
    assert_eq!(quiet.db_bits, DB_FLOOR_BITS);
    assert_eq!(f32::from_bits(quiet.rms_bits), 0.0);
    assert_eq!(f32::from_bits(quiet.peak_bits), 0.0);
    assert_eq!(f32::from_bits(quiet.db_bits), -60.0);
}

#[test]
fn new_session_is_idle_and_quiet() {
    let session = session();
    assert_eq!(session.state(), CaptureState::Idle);
    assert!(!session.is_recording());
    assert_eq!(session.buffered_len(), 0);
    assert_eq!(session.device(), &None);
    assert_eq!(get_level(&session), AudioLevelInfo::default());
}

#[test]
fn start_twice_is_already_active() {
    let mut session = session();
    assert_eq!(start(&mut session, None), Ok(()));
    assert_eq!(session.state(), CaptureState::Recording);
    record_frame(&mut session, &[1, 2, 3], level(0.5, 0.7, -6.0), speech(10));
    assert_eq!(start(&mut session, Some("usb".to_string())), Err(CaptureError::AlreadyActive));
    assert_eq!(session.state(), CaptureState::Recording);
    assert_eq!(session.buffered_len(), 3);
    assert_eq!(session.device(), &None);
}

#[test]
fn stop_on_idle_is_not_active() {
    let mut session = session();
    assert_eq!(stop(&mut session), Err(CaptureError::NotActive));
    assert_eq!(session.state(), CaptureState::Idle);
}

#[test]
fn start_then_stop_returns_buffer_and_idles() {
    let mut session = session();
    assert_eq!(start(&mut session, Some("mic-2".to_string())), Ok(()));
    assert_eq!(session.device(), &Some("mic-2".to_string()));
    assert_eq!(stop(&mut session), Ok(Vec::new()));
    assert_eq!(session.state(), CaptureState::Idle);

    assert_eq!(start(&mut session, None), Ok(()));
    record_frame(&mut session, &[1, 2], level(0.1, 0.2, -20.0), speech(10));
    record_frame(&mut session, &[], level(0.1, 0.2, -20.0), speech(20));
    record_frame(&mut session, &[3, 4, 5], level(0.3, 0.4, -10.0), speech(30));
    assert_eq!(session.buffered_len(), 5);
    assert_eq!(stop(&mut session), Ok(vec![1, 2, 3, 4, 5]));
    assert_eq!(session.state(), CaptureState::Idle);
    assert_eq!(session.buffered_len(), 0);
    assert_eq!(stop(&mut session), Err(CaptureError::NotActive));
}

#[test]
fn start_clears_what_an_earlier_recording_left() {
    let mut session = session();
    start(&mut session, None).unwrap();
    record_frame(&mut session, &[9, 9], level(0.1, 0.2, -20.0), silence(700));
    assert_eq!(stop(&mut session), Ok(vec![9, 9]));
    start(&mut session, None).unwrap();
    assert_eq!(session.buffered_len(), 0);
    assert!(!record_frame(&mut session, &[7], level(0.1, 0.2, -20.0), silence(2199)));
    assert_eq!(stop(&mut session), Ok(vec![7]));
}

#[test]
fn level_is_kept_after_stop_and_ignored_while_idle() {
    let mut session = session();
    let loud = level(0.25, 0.5, -12.0);
    assert!(!record_frame(&mut session, &[1], loud, speech(0)));
    assert_eq!(get_level(&session), AudioLevelInfo::default());
    assert_eq!(session.buffered_len(), 0);

    start(&mut session, None).unwrap();
    assert_eq!(get_level(&session), AudioLevelInfo::default());
    record_frame(&mut session, &[1], loud, speech(0));
    assert_eq!(get_level(&session), loud);
    stop(&mut session).unwrap();
    assert_eq!(get_level(&session), loud);
    record_frame(&mut session, &[1], level(0.0, 0.0, -60.0), speech(10));
    assert_eq!(get_level(&session), loud);
    start(&mut session, None).unwrap();
    assert_eq!(get_level(&session), loud);
}

#[test]
fn session_suggests_stop_after_sustained_silence() {
    let mut session = session();
    start(&mut session, None).unwrap();
    let quiet = level(0.0, 0.0, -60.0);
    let mut first = None;
    let mut at_ms: u64 = 0;
    while at_ms <= 2500 {
        let frame = Frame { at_ms, silent: at_ms >= 600 };
        if record_frame(&mut session, &[0, 0], quiet, frame) && first.is_none() {
            first = Some(at_ms);
        }
        at_ms += 20;
    }
    assert_eq!(first, Some(2100));
    assert_eq!(session.state(), CaptureState::Recording);
    assert_eq!(session.buffered_len(), 2 * 126);
}

#[test]
fn discard_throws_the_buffer_away() {
    let mut session = session();
    assert!(!discard(&mut session));
    start(&mut session, None).unwrap();
    record_frame(&mut session, &[1, 2, 3], level(0.1, 0.2, -20.0), speech(5));
    assert!(discard(&mut session));
    assert_eq!(session.state(), CaptureState::Idle);
    assert_eq!(session.buffered_len(), 0);
    assert_eq!(stop(&mut session), Err(CaptureError::NotActive));
    start(&mut session, None).unwrap();
    assert_eq!(stop(&mut session), Ok(Vec::new()));
}

#[test]
fn failed_start_returns_to_idle() {
    let mut session = session();
    start(&mut session, None).unwrap();
    let error = fail_start(&mut session, "no such device".to_string());
    assert_eq!(error, CaptureError::StartError("no such device".to_string()));
    assert_eq!(session.state(), CaptureState::Idle);
    assert_eq!(start(&mut session, None), Ok(()));
}

#[test]
fn capture_error_messages() {
    assert_eq!(
        CaptureError::StartError("busy".to_string()).message(),
        "Failed to start audio capture: busy"
    );
    assert_eq!(
        CaptureError::StopError("gone".to_string()).message(),
        "Failed to stop audio capture: gone"
    );
    assert_eq!(CaptureError::NotActive.message(), "Audio capture not active");
    assert_eq!(CaptureError::AlreadyActive.message(), "Audio capture already active");
}

#[test]
fn fulfil_carries_out_each_request() {
    let mut session = session();
    assert_eq!(fulfil(&mut session, CaptureRequest::Nothing, None), CaptureOutcome::Unchanged);
    assert_eq!(
        fulfil(&mut session, CaptureRequest::Stop, None),
        CaptureOutcome::Refused(CaptureError::NotActive)
    );
    assert_eq!(fulfil(&mut session, CaptureRequest::Discard, None), CaptureOutcome::Unchanged);
    assert_eq!(
        fulfil(&mut session, CaptureRequest::Start, Some("a".to_string())),
        CaptureOutcome::Started
    );
    assert_eq!(
        fulfil(&mut session, CaptureRequest::Start, None),
        CaptureOutcome::Refused(CaptureError::AlreadyActive)
    );
    record_frame(&mut session, &[4, 2], level(0.1, 0.2, -20.0), speech(5));
    assert_eq!(
        fulfil(&mut session, CaptureRequest::Stop, None),
        CaptureOutcome::Finished(vec![4, 2])
    );
    fulfil(&mut session, CaptureRequest::Start, None);
    record_frame(&mut session, &[4, 2], level(0.1, 0.2, -20.0), speech(5));
    assert_eq!(fulfil(&mut session, CaptureRequest::Discard, None), CaptureOutcome::Discarded);
    assert_eq!(session.buffered_len(), 0);
}

#[test]
fn cancel_while_recording_hands_nothing_onward() {
    for mode in [ActivationMode::Push, ActivationMode::Toggle] {
        let config = HotkeyConfig { mode, ..HotkeyConfig::default() };
        let mut hotkey = HotkeyState::default();
        let mut session = session();
        assert_eq!(
            dispatch(&mut hotkey, &mut session, &config, HotkeyEvent::Press, 1, None),
            CaptureOutcome::Started
        );
        record_frame(&mut session, &[1, 2, 3], level(0.1, 0.2, -20.0), speech(5));
        assert_eq!(
            dispatch(&mut hotkey, &mut session, &config, HotkeyEvent::Cancel, 9, None),
            CaptureOutcome::Discarded
        );
        assert_eq!(session.state(), CaptureState::Idle);
        assert_eq!(session.buffered_len(), 0);
        assert!(!hotkey.is_recording);
        assert_eq!(
            dispatch(&mut hotkey, &mut session, &config, HotkeyEvent::Release, 12, None),
            CaptureOutcome::Unchanged
        );
    }
}

#[test]
fn push_to_talk_records_while_held() {
    let config = HotkeyConfig::default();
    let mut hotkey = HotkeyState::default();
    let mut session = session();
    assert_eq!(
        dispatch(&mut hotkey, &mut session, &config, HotkeyEvent::Press, 1, None),
        CaptureOutcome::Started
    );
    assert_eq!(
        dispatch(&mut hotkey, &mut session, &config, HotkeyEvent::Press, 2, None),
        CaptureOutcome::Unchanged
    );
    record_frame(&mut session, &[8], level(0.1, 0.2, -20.0), speech(5));
    assert_eq!(
        dispatch(&mut hotkey, &mut session, &config, HotkeyEvent::Release, 30, None),
        CaptureOutcome::Finished(vec![8])
    );
    assert_eq!(session.state(), CaptureState::Idle);
}

#[test]
fn silence_timeout_finishes_the_recording() {
    let config = HotkeyConfig::default();
    let mut hotkey = HotkeyState::default();
    let mut session = session();
    dispatch(&mut hotkey, &mut session, &config, HotkeyEvent::Press, 0, None);
    assert!(!record_frame(&mut session, &[1], level(0.2, 0.3, -14.0), speech(100)));
    assert!(!record_frame(&mut session, &[2], level(0.0, 0.0, -60.0), silence(600)));
    assert!(record_frame(&mut session, &[3], level(0.0, 0.0, -60.0), silence(2100)));
    assert_eq!(
        dispatch(&mut hotkey, &mut session, &config, HotkeyEvent::SilenceTimeout, 2100, None),
        CaptureOutcome::Finished(vec![1, 2, 3])
    );
    assert_eq!(
        dispatch(&mut hotkey, &mut session, &config, HotkeyEvent::Release, 2500, None),
        CaptureOutcome::Unchanged
    );
    assert_eq!(hotkey, HotkeyState::default());
}
