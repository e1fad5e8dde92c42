use voicecast::effects::ZERO;
use voicecast::{
    AudioConfig, AudioEngine, AudioError, AudioLevels, CaptureCommand, DistributionBus, Effect,
    EffectParams, EffectType, Received,
};

#[test]
fn restart_holds_one_stream() {
    let mut engine = AudioEngine::new(AudioConfig::default(), true, true);
    assert_eq!(engine.start_capture().ok(), Some(CaptureCommand::Open));
    engine.capture_started(true);
    assert!(engine.is_capturing());
    assert!(engine.stop_capture());
    assert!(!engine.is_capturing());
    assert_eq!(engine.start_capture().ok(), Some(CaptureCommand::Open));
    engine.capture_started(true);
    assert!(engine.is_capturing());
    assert_eq!(engine.start_capture().ok(), Some(CaptureCommand::KeepCurrent));
    assert!(engine.is_capturing());
}

#[test]
fn start_while_capturing_keeps_state() {
    let mut engine = AudioEngine::new(AudioConfig::default(), true, true);
    engine.capture_started(true);
    engine.add_effect(Effect::from_config(EffectType::Reverb, EffectParams::new()));
    engine.set_monitoring(true);
    assert_eq!(engine.start_capture().ok(), Some(CaptureCommand::KeepCurrent));
    assert!(engine.is_capturing());
    assert!(engine.is_monitoring());
    assert_eq!(engine.effects().len(), 1);
}

#[test]
fn stop_when_idle_is_harmless() {
    let mut engine = AudioEngine::new(AudioConfig::default(), true, false);
    assert!(!engine.stop_capture());
    assert!(!engine.stop_capture());
    assert!(!engine.has_output_device());
}

#[test]
fn start_without_input_device_fails() {
    let engine = AudioEngine::new(AudioConfig::default(), false, true);
    let err = engine.start_capture().unwrap_err();
    assert!(matches!(err, AudioError::NoInputDevice));
    assert_eq!(err.message(), "No input device found");
}

#[test]
fn failed_open_leaves_engine_idle() {
    let mut engine = AudioEngine::new(AudioConfig::default(), true, true);
    engine.capture_started(false);
    assert!(!engine.is_capturing());
}

#[test]
fn error_messages() {
    assert_eq!(AudioError::NoOutputDevice.message(), "No output device found");
    assert_eq!(AudioError::StreamError("x".to_string()).message(), "Stream error: x");
    assert_eq!(AudioError::BuildStreamError("b".to_string()).message(), "Build stream error: b");
    assert_eq!(
        AudioError::DefaultStreamConfigError("c".to_string()).message(),
        "Default stream config error: c"
    );
    assert_eq!(AudioError::OpusError("bad arg".to_string()).message(), "Opus error: bad arg");
    assert_eq!(AudioError::DeviceError("gone".to_string()).message(), "Device error: gone");
}

#[test]
fn chain_keeps_insertion_order() {
    let mut engine = AudioEngine::new(AudioConfig::default(), true, true);
    engine.add_effect(Effect::from_config(EffectType::Compressor, EffectParams::new()));
    engine.add_effect(Effect::from_config(EffectType::Reverb, EffectParams::new()));
    engine.add_effect(Effect::from_config(EffectType::Compressor, EffectParams::new()));
    let kinds: Vec<EffectType> = engine.effects().iter().map(|e| e.kind()).collect();
    assert_eq!(kinds, vec![EffectType::Compressor, EffectType::Reverb, EffectType::Compressor]);
    engine.clear_effects();
    assert!(engine.effects().is_empty());
}

#[test]
fn levels_are_recorded() {
    let mut engine = AudioEngine::new(AudioConfig::default(), true, true);
    assert_eq!(engine.get_current_levels(), AudioLevels::default());
    engine.record_levels(0.9f32.to_bits(), 0.5f32.to_bits());
    let l = engine.get_current_levels();
    assert_eq!(f32::from_bits(l.peak), 0.9);
    assert_eq!(f32::from_bits(l.rms), 0.5);
    assert_eq!(f32::from_bits(l.input_level), 0.5);
    assert_eq!(l.output_level, ZERO);
}

#[test]
fn monitoring_flag() {
    let mut engine = AudioEngine::new(AudioConfig::default(), true, true);
    assert!(!engine.is_monitoring());
    engine.set_monitoring(true);
    assert!(engine.is_monitoring());
    assert_eq!(engine.sample_rate(), 48000);
    assert_eq!(engine.channels(), 2);
}

#[test]
fn slow_subscriber_is_told_it_lagged() {
    let bus = DistributionBus::new(4);
    assert_eq!(bus.capacity(), 4);
    let mut slow = bus.subscribe();
    for i in 0..6u8 {
        assert_eq!(bus.publish(vec![i]), 1);
    }
    match slow.receive() {
        Received::Lagged(n) => assert_eq!(n, 2),
        other => panic!("expected a lag, got {:?}", other),
    }
    match slow.receive() {
        Received::Frame(f) => assert_eq!(f, vec![2]),
        other => panic!("expected a frame, got {:?}", other),
    }
}

#[test]
fn late_subscriber_sees_only_later_frames() {
    let engine = AudioEngine::new(AudioConfig::default(), true, true);
    assert_eq!(engine.publish_frame(vec![1]), 0);
    let mut early = engine.subscribe_to_audio();
    engine.publish_frame(vec![2]);
    engine.publish_frame(vec![3]);
    let mut late = engine.subscribe_to_audio();
    assert_eq!(engine.publish_frame(vec![4]), 2);
    assert!(matches!(late.receive(), Received::Frame(f) if f == vec![4]));
    assert!(matches!(late.receive(), Received::Empty));
    assert!(matches!(early.receive(), Received::Frame(f) if f == vec![2]));
    assert!(matches!(early.receive(), Received::Frame(f) if f == vec![3]));
    assert!(matches!(early.receive(), Received::Frame(f) if f == vec![4]));
}

#[test]
fn publisher_never_waits_on_a_full_subscriber() {
    let engine = AudioEngine::new(AudioConfig::default(), true, true);
    let mut idle = engine.subscribe_to_audio();
    for i in 0..1100u32 {
        engine.publish_frame(i.to_le_bytes().to_vec());
    }
    assert!(matches!(idle.receive(), Received::Lagged(76)));
}
