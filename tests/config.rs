use voicecast::text::{parse_unsigned_from, same_text, starts_with_text};
use voicecast::{
    generate_stream_id, live_stream_info, stream_id_from_millis, AudioConfig, AudioDevices, EffectType,
    MobileAudioService, StreamConfig, StreamStatus,
};

#[test]
fn default_config() {
    let c = AudioConfig::default();
    assert_eq!((c.sample_rate, c.channels, c.buffer_size, c.bit_depth), (48000, 2, 960, 24));
    assert!(c.valid());
    let bad = AudioConfig { channels: 0, ..c };
    assert!(!bad.valid());
}

#[test]
fn stream_ids() {
    assert_eq!(stream_id_from_millis(0), "stream_0");
    assert_eq!(stream_id_from_millis(1700000000123), "stream_1700000000123");
    assert_eq!(stream_id_from_millis(u128::MAX), format!("stream_{}", u128::MAX));
    let id = generate_stream_id();
    assert!(id.starts_with("stream_"));
    assert!(id["stream_".len()..].chars().all(|c| c.is_ascii_digit()));
}

#[test]
fn live_info_copies_request() {
    let cfg = StreamConfig { quality: "high".to_string(), bitrate: 320, sample_rate: 48000, channels: 2 };
    let info = live_stream_info("stream_7".to_string(), cfg);
    assert_eq!(info.id, "stream_7");
    assert_eq!(info.status, StreamStatus::Live);
    assert_eq!(info.quality, "high");
    assert_eq!(info.bitrate, 320);
}

#[test]
fn effect_type_names() {
    for (t, n) in [
        (EffectType::Eq, "eq"),
        (EffectType::Compressor, "compressor"),
        (EffectType::Reverb, "reverb"),
        (EffectType::NoiseGate, "noise_gate"),
    ] {
        assert_eq!(t.wire_name(), n);
        assert_eq!(EffectType::from_wire_name(n), Some(t));
    }
    assert_eq!(EffectType::from_wire_name("NoiseGate"), None);
    assert_eq!(EffectType::from_wire_name(""), None);
}

#[test]
fn device_lists() {
    let d = AudioDevices { inputs: vec!["mic".to_string()], outputs: vec![] };
    assert_eq!(d.inputs.len(), 1);
    assert!(d.outputs.is_empty());
}

#[test]
fn unsigned_parsing() {
    assert_eq!(parse_unsigned_from("band_7", 5), Some(7));
    assert_eq!(parse_unsigned_from("+42", 0), Some(42));
    assert_eq!(parse_unsigned_from("+", 0), None);
    assert_eq!(parse_unsigned_from("", 0), None);
    assert_eq!(parse_unsigned_from("4x", 0), None);
    assert_eq!(parse_unsigned_from("-1", 0), None);
    assert_eq!(parse_unsigned_from("18446744073709551615", 0), Some(usize::MAX));
    assert_eq!(parse_unsigned_from("18446744073709551616", 0), None);
    assert_eq!(parse_unsigned_from("0007", 0), Some(7));
}

#[test]
fn text_comparison() {
    assert!(same_text("ratio", "ratio"));
    assert!(!same_text("ratio", "ratios"));
    assert!(!same_text("attack", "makeup"));
    assert!(starts_with_text("band_3", "band_"));
    assert!(!starts_with_text("band", "band_"));
}

#[test]
fn mobile_background() {
    let mut m = MobileAudioService::new();
    assert!(!m.is_streaming());
    assert!(!m.is_background());
    assert!(m.start_background_streaming().is_ok());
    assert!(m.is_background());
    assert!(!m.is_streaming());
}
