use undertone::chain::MicChain;
use undertone::effects::EffectKind;
use undertone::presets::PresetName;

#[test]
fn off_preset_keeps_everything_bypassed() {
    let chain = PresetName::Off.build_chain();
    for inst in &chain.effects {
        assert!(inst.bypassed, "{:?} should be bypassed in Off preset", inst.kind);
    }
    assert_eq!(chain.preset.as_deref(), Some("Off"));
}

#[test]
fn streaming_preset_enables_all_four() {
    let chain = PresetName::Streaming.build_chain();
    for inst in &chain.effects {
        assert!(!inst.bypassed, "{:?} should be active in Streaming preset", inst.kind);
    }
}

#[test]
fn presets_round_trip_via_label() {
    for &p in PresetName::all() {
        assert_eq!(PresetName::from_label(p.label()).map(PresetName::label), Some(p.label()));
    }
    assert!(PresetName::from_label("not-a-preset").is_none());
}

fn effect(chain: &MicChain, kind: EffectKind) -> &undertone::effects::EffectInstance {
    chain.effects.iter().find(|e| e.kind == kind).unwrap()
}

#[test]
fn voice_preset_settings() {
    let chain = PresetName::Voice.build_chain();
    assert_eq!(chain.effects.len(), 4);
    assert_eq!(chain.preset.as_deref(), Some("Voice"));
    let ns = effect(&chain, EffectKind::NoiseSuppression);
    assert!(!ns.bypassed);
    assert_eq!(ns.param("VAD Threshold (%)"), Some(50000));
    let comp = effect(&chain, EffectKind::Compressor);
    assert!(!comp.bypassed);
    assert_eq!(comp.param("th"), Some(-18000));
    assert_eq!(comp.param("ratio"), Some(2500));
    assert_eq!(comp.param("makeup"), Some(3000));
    assert_eq!(comp.param("at"), Some(5000));
    assert!(effect(&chain, EffectKind::Gate).bypassed);
    assert!(effect(&chain, EffectKind::Equalizer).bypassed);
}

#[test]
fn singing_preset_settings() {
    let chain = PresetName::Singing.build_chain();
    assert!(effect(&chain, EffectKind::Gate).bypassed);
    let comp = effect(&chain, EffectKind::Compressor);
    assert_eq!(comp.param("rt"), Some(200000));
    assert_eq!(comp.param("at"), Some(10000));
    let eq = effect(&chain, EffectKind::Equalizer);
    assert!(!eq.bypassed);
    assert_eq!(eq.param("g_3"), Some(3000));
    assert_eq!(eq.param("g_2"), Some(0));
}

#[test]
fn streaming_preset_settings() {
    let chain = PresetName::Streaming.build_chain();
    let gate = effect(&chain, EffectKind::Gate);
    assert_eq!(gate.param("th"), Some(-32000));
    assert_eq!(gate.param("rng"), Some(-30000));
    assert_eq!(gate.param("at"), Some(1500));
    let eq = effect(&chain, EffectKind::Equalizer);
    assert_eq!(eq.param("g_2"), Some(2500));
    assert_eq!(eq.param("g_3"), Some(2000));
}

#[test]
fn default_chain_is_all_bypassed_without_preset() {
    let chain = MicChain::default();
    assert_eq!(chain.effects.len(), 4);
    assert!(chain.preset.is_none());
    assert!(chain.effects.iter().all(|e| e.bypassed));
    assert_eq!(chain.position(EffectKind::Compressor), Some(2));
}

#[test]
fn from_label_is_case_sensitive() {
    assert!(PresetName::from_label("voice").is_none());
    assert!(matches!(PresetName::from_label("Singing"), Some(PresetName::Singing)));
}
