use undertone::effects::{descriptors_for, EffectInstance, EffectKind};

#[test]
fn all_kinds_have_unique_node_ids() {
    let ids: Vec<_> = EffectKind::all().iter().map(|k| k.node_id()).collect();
    let mut sorted = ids.clone();
    sorted.sort_unstable();
    sorted.dedup();
    assert_eq!(sorted.len(), ids.len(), "duplicate node ids");
}

#[test]
fn default_instance_uses_descriptor_defaults() {
    for &kind in EffectKind::all() {
        let inst = EffectInstance::default_for(kind);
        assert!(inst.bypassed, "should start bypassed");
        for d in descriptors_for(kind) {
            assert_eq!(
                inst.param(d.name),
                Some(d.default),
                "{:?}.{} default mismatch",
                kind,
                d.name
            );
        }
    }
}

#[test]
fn descriptors_have_sensible_ranges() {
    for &kind in EffectKind::all() {
        for d in descriptors_for(kind) {
            assert!(d.min < d.max, "{}: min<max", d.name);
            assert!(d.default >= d.min && d.default <= d.max, "{}: default in range", d.name);
            assert!(d.step > 0, "{}: step>0", d.name);
        }
    }
}

#[test]
fn effect_kinds_in_signal_flow_order() {
    assert_eq!(
        EffectKind::all(),
        &[
            EffectKind::NoiseSuppression,
            EffectKind::Gate,
            EffectKind::Compressor,
            EffectKind::Equalizer
        ]
    );
    assert_eq!(EffectKind::Compressor.node_id(), "comp");
    assert_eq!(EffectKind::Gate.label(), "Noise Gate");
}

#[test]
fn descriptor_values_are_thousandths() {
    let gate = descriptors_for(EffectKind::Gate);
    assert_eq!(gate.len(), 4);
    assert_eq!(gate[1].name, "at");
    assert_eq!(gate[1].default, 1500); // 1.5 ms
    assert_eq!(gate[0].min, -72000); // -72 dB
    assert_eq!(descriptors_for(EffectKind::Equalizer).len(), 12);
    assert_eq!(descriptors_for(EffectKind::NoiseSuppression)[0].name, "VAD Threshold (%)");
}

#[test]
fn set_param_replaces_and_adds() {
    let mut inst = EffectInstance::default_for(EffectKind::Compressor);
    let n = inst.params.len();
    inst.set_param("ratio", 7000);
    assert_eq!(inst.param("ratio"), Some(7000));
    assert_eq!(inst.params.len(), n);
    assert_eq!(inst.param("th"), Some(-18000));
    inst.set_param("knee", 1000);
    assert_eq!(inst.param("knee"), Some(1000));
    assert_eq!(inst.params.len(), n + 1);
    assert_eq!(inst.param("missing"), None);
}
