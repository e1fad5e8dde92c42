use voicecast::effects::{ONE, ONE_HUNDREDTH, ONE_TENTH, TWELVE, ZERO};
use voicecast::{
    CompressorEffect, EQBand, Effect, EffectParameter, EffectParams, EffectType, EqualizerEffect,
    NoiseGateEffect, ReverbEffect,
};

fn values(ps: &[EffectParameter]) -> Vec<(String, u32, u32, u32, u32)> {
    ps.iter().map(|p| (p.name.clone(), p.value, p.min, p.max, p.step)).collect()
}

#[test]
fn equalizer_reset_restores_defaults() {
    let mut eq = EqualizerEffect::new(EffectParams::new());
    let original = values(&eq.get_parameters());
    for i in 0..10 {
        eq.set_parameter(&format!("band_{}", i), 0.0f32.to_bits());
    }
    eq.set_parameter("band_3", 12.0f32.to_bits());
    let changed = values(&eq.get_parameters());
    assert_eq!(changed[3].1, 12.0f32.to_bits());
    assert_ne!(changed, original);
    eq.set_parameter("band_3", 0.0f32.to_bits());
    assert_eq!(values(&eq.get_parameters()), original);
}

#[test]
fn equalizer_descriptors() {
    let eq = EqualizerEffect::new(EffectParams::new());
    let ps = eq.get_parameters();
    assert_eq!(ps.len(), 10);
    assert_eq!(ps[0].name, "band_0");
    assert_eq!(ps[9].name, "band_9");
    for p in &ps {
        assert_eq!(f32::from_bits(p.value), 0.0);
        assert_eq!(f32::from_bits(p.min), -12.0);
        assert_eq!(f32::from_bits(p.max), 12.0);
        assert_eq!(f32::from_bits(p.step), 0.1);
    }
    assert_eq!(eq.get_name(), "Equalizer");
}

#[test]
fn equalizer_band_names_read_as_numbers() {
    let mut eq = EqualizerEffect::new(EffectParams::new());
    eq.set_parameter("band_03", TWELVE);
    eq.set_parameter("band_+1", ONE);
    eq.set_parameter("band_10", ONE);
    eq.set_parameter("band_-1", ONE);
    eq.set_parameter("band_", ONE);
    let ps = eq.get_parameters();
    assert_eq!(ps[3].value, TWELVE);
    assert_eq!(ps[1].value, ONE);
    let others: Vec<u32> = ps.iter().enumerate().filter(|(i, _)| *i != 1 && *i != 3).map(|(_, p)| p.value).collect();
    assert!(others.iter().all(|v| *v == ZERO));
}

#[test]
fn equalizer_keeps_block_length() {
    let eq = EqualizerEffect::new(EffectParams::new());
    let block: Vec<u32> = (0..960).map(|i| (i as f32 / 960.0).to_bits()).collect();
    let out = eq.process(&block);
    assert_eq!(out.len(), 960);
    assert_eq!(out, block);
    assert!(eq.process(&[]).is_empty());
}

#[test]
fn band_filter_passes_block() {
    let band = EQBand::new(1000.0f32.to_bits(), 1.0f32.to_bits(), 6.0f32.to_bits());
    assert_eq!(band.gain, 6.0f32.to_bits());
    assert_eq!(band.apply(&[1, 2, 3]), vec![1, 2, 3]);
}

#[test]
fn compressor_defaults() {
    let c = CompressorEffect::new(EffectParams::new());
    let ps = c.get_parameters();
    let names: Vec<&str> = ps.iter().map(|p| p.name.as_str()).collect();
    assert_eq!(names, vec!["threshold", "ratio", "attack", "release", "makeup"]);
    assert_eq!(f32::from_bits(c.threshold()), -20.0);
    assert_eq!(f32::from_bits(c.ratio()), 4.0);
    assert_eq!(f32::from_bits(c.attack()), 0.01);
    assert_eq!(f32::from_bits(c.release()), 0.1);
    assert_eq!(f32::from_bits(c.makeup_gain()), 1.0);
    assert_eq!(f32::from_bits(ps[4].max), 24.0);
    assert_eq!(c.get_name(), "Compressor");
}

#[test]
fn compressor_takes_given_parameters() {
    let mut p = EffectParams::new();
    p.set("ratio".to_string(), 8.0f32.to_bits());
    p.set("makeup".to_string(), 2.0f32.to_bits());
    p.set("unused".to_string(), 5.0f32.to_bits());
    let c = CompressorEffect::new(p);
    assert_eq!(f32::from_bits(c.ratio()), 8.0);
    assert_eq!(f32::from_bits(c.makeup_gain()), 2.0);
    assert_eq!(f32::from_bits(c.threshold()), -20.0);
}

#[test]
fn reverb_defaults_and_set() {
    let mut r = ReverbEffect::new(EffectParams::new());
    assert_eq!(f32::from_bits(r.room_size()), 0.5);
    assert_eq!(f32::from_bits(r.damping()), 0.5);
    assert_eq!(f32::from_bits(r.wet_level()), 0.3);
    assert_eq!(f32::from_bits(r.dry_level()), 0.7);
    r.set_parameter("wet_level", ONE);
    assert_eq!(r.wet_level(), ONE);
    assert_eq!(r.get_parameters()[2].value, ONE);
    assert_eq!(r.get_parameters()[2].step, ONE_HUNDREDTH);
    assert_eq!(r.get_name(), "Reverb");
}

#[test]
fn noise_gate_defaults_and_set() {
    let mut g = NoiseGateEffect::new(EffectParams::new());
    assert_eq!(f32::from_bits(g.threshold()), -40.0);
    assert_eq!(f32::from_bits(g.ratio()), 10.0);
    assert_eq!(f32::from_bits(g.attack()), 0.001);
    assert_eq!(f32::from_bits(g.release()), 0.1);
    g.set_parameter("threshold", 0.0f32.to_bits());
    assert_eq!(g.threshold(), ZERO);
    assert_eq!(f32::from_bits(g.get_parameters()[1].max), 100.0);
    assert_eq!(g.get_name(), "Noise Gate");
}

#[test]
fn unknown_parameter_changes_nothing() {
    let kinds = [EffectType::Eq, EffectType::Compressor, EffectType::Reverb, EffectType::NoiseGate];
    for kind in kinds {
        let mut e = Effect::from_config(kind, EffectParams::new());
        let before = values(&e.get_parameters());
        e.set_parameter("bogus", 1.0f32.to_bits());
        assert_eq!(values(&e.get_parameters()), before);
        assert_eq!(e.kind(), kind);
    }
}

#[test]
fn effect_from_config_dispatches() {
    let mut p = EffectParams::new();
    p.set("threshold".to_string(), (-30.0f32).to_bits());
    let e = Effect::from_config(EffectType::NoiseGate, p);
    assert_eq!(e.get_name(), "Noise Gate");
    assert_eq!(f32::from_bits(e.get_parameters()[0].value), -30.0);
    let mut c = Effect::from_config(EffectType::Compressor, EffectParams::new());
    c.set_parameter("attack", ONE_TENTH);
    assert_eq!(c.get_parameters()[2].value, ONE_TENTH);
    assert_eq!(Effect::from_config(EffectType::Eq, EffectParams::new()).get_parameters().len(), 10);
    assert_eq!(Effect::from_config(EffectType::Reverb, EffectParams::new()).get_name(), "Reverb");
}

#[test]
fn params_store_replaces_values() {
    let mut p = EffectParams::default();
    assert_eq!(p.get("ratio"), None);
    p.set("ratio".to_string(), 1);
    p.set("attack".to_string(), 2);
    p.set("ratio".to_string(), 3);
    assert_eq!(p.get("ratio"), Some(3));
    assert_eq!(p.get("attack"), Some(2));
    assert_eq!(p.get("release"), None);
}
