use rede::audio::processing::{
    Frame, ProcessingError, SilenceConfig, SilenceTracker, DEFAULT_NOISE_GATE_DB_BITS,
};

fn heard(at_ms: u64, silent: bool) -> Frame {
    Frame { at_ms, silent }
}

#[test]
fn default_silence_config() {
    let config = SilenceConfig::default();
    assert_eq!(config.noise_gate_threshold_db_bits, DEFAULT_NOISE_GATE_DB_BITS);
    assert_eq!(f32::from_bits(config.noise_gate_threshold_db_bits), -50.0);
    assert_eq!(config.silence_timeout_ms, 1500);
    assert_eq!(config.min_speech_duration_ms, 500);
}

#[test]
fn speech_then_silence_signals_stop_after_timeout() {
    let config = SilenceConfig::default();
    let mut tracker = SilenceTracker::new();
    let mut first_stop = None;
    let mut at_ms: u64 = 0;
    while at_ms <= 2000 {
        let stop = tracker.observe(&config, heard(at_ms, at_ms >= 600));
        if stop && first_stop.is_none() {
            first_stop = Some(at_ms);
        }
        at_ms += 10;
    }
    assert_eq!(first_stop, None);
    while at_ms <= 2500 {
        let stop = tracker.observe(&config, heard(at_ms, true));
        if stop && first_stop.is_none() {
            first_stop = Some(at_ms);
        }
        at_ms += 10;
    }
    assert_eq!(first_stop, Some(2100));
    assert_eq!(tracker.silent_since, Some(600));
}

#[test]
fn silence_before_minimum_speech_is_ignored() {
    let config = SilenceConfig::default();
    let mut tracker = SilenceTracker::new();
    assert!(!tracker.observe(&config, heard(0, true)));
    assert!(!tracker.observe(&config, heard(499, true)));
    assert_eq!(tracker, SilenceTracker::new());
    assert!(!tracker.observe(&config, heard(500, true)));
    assert_eq!(tracker.silent_since, Some(500));
    assert!(!tracker.observe(&config, heard(1999, true)));
    assert!(tracker.observe(&config, heard(2000, true)));
}

#[test]
fn speech_resets_the_silence_timer() {
    let config = SilenceConfig::default();
    let mut tracker = SilenceTracker::new();
    assert!(!tracker.observe(&config, heard(600, true)));
    assert!(!tracker.observe(&config, heard(2000, true)));
    assert!(!tracker.observe(&config, heard(2050, false)));
    assert_eq!(tracker.silent_since, None);
    assert!(!tracker.observe(&config, heard(2100, true)));
    assert_eq!(tracker.silent_since, Some(2100));
    assert!(!tracker.observe(&config, heard(3599, true)));
    assert!(tracker.observe(&config, heard(3600, true)));
    assert!(tracker.observe(&config, heard(3700, true)));
}

#[test]
fn zero_timeout_signals_on_first_counted_silence() {
    let config = SilenceConfig {
        noise_gate_threshold_db_bits: DEFAULT_NOISE_GATE_DB_BITS,
        silence_timeout_ms: 0,
        min_speech_duration_ms: 0,
    };
    let mut tracker = SilenceTracker::new();
    assert!(!tracker.observe(&config, heard(0, false)));
    assert!(tracker.observe(&config, heard(1, true)));
}

#[test]
fn clock_running_backwards_restarts_the_run() {
    let config = SilenceConfig::default();
    let mut tracker = SilenceTracker::new();
    assert!(!tracker.observe(&config, heard(3000, true)));
    assert!(!tracker.observe(&config, heard(1000, true)));
    assert_eq!(tracker.silent_since, Some(1000));
    assert!(tracker.observe(&config, heard(2500, true)));
}

#[test]
fn processing_error_message() {
    let error = ProcessingError::ProcessingFailed("overflow".to_string());
    assert_eq!(error.message(), "Audio processing failed: overflow");
}
