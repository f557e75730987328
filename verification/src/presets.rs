//! Built-in chain presets. Names are user-facing.

use vstd::prelude::*;

use crate::chain::MicChain;
use crate::effects::{
    all_kinds, default_params, lemma_default_params, lemma_descriptor_names_distinct,
    lemma_descriptor_ranges,
    lemma_instance_param_count, spec_descriptors, EffectKind,
};

verus! {

/// Stable preset identifiers shipped with the daemon.
#[derive(Debug, Clone, Copy)]
pub enum PresetName {
    /// All four effects bypassed; mic passes through unprocessed.
    Off,
    /// Light noise suppression + gentle compression.
    Voice,
    /// More aggressive noise suppression + tighter gate + stronger
    /// compression + presence boost.
    Streaming,
    /// Soft compression, no gate, high-shelf air boost.
    Singing,
}

pub open spec fn spec_preset_label(p: PresetName) -> Seq<char> {
    match p {
        PresetName::Off => "Off"@,
        PresetName::Voice => "Voice"@,
        PresetName::Streaming => "Streaming"@,
        PresetName::Singing => "Singing"@,
    }
}

pub open spec fn all_presets() -> Seq<PresetName> {
    seq![PresetName::Off, PresetName::Voice, PresetName::Streaming, PresetName::Singing]
}

/// The preset whose label is `s`, looked up case-sensitively.
pub open spec fn spec_from_label(s: Seq<char>) -> Option<PresetName> {
    if s == spec_preset_label(PresetName::Off) {
        Some(PresetName::Off)
    } else if s == spec_preset_label(PresetName::Voice) {
        Some(PresetName::Voice)
    } else if s == spec_preset_label(PresetName::Streaming) {
        Some(PresetName::Streaming)
    } else if s == spec_preset_label(PresetName::Singing) {
        Some(PresetName::Singing)
    } else {
        None
    }
}

/// Whether the preset leaves an effect bypassed: each preset switches
/// on only the effects it wants.
pub open spec fn preset_bypassed(p: PresetName, k: EffectKind) -> bool {
    match p {
        PresetName::Off => true,
        PresetName::Voice => !(k == EffectKind::NoiseSuppression || k == EffectKind::Compressor),
        PresetName::Streaming => false,
        PresetName::Singing => k == EffectKind::Gate,
    }
}

/// The parameter values that a preset gives an effect: the defaults,
/// with the preset's own settings (in thousandths) written over them.
pub open spec fn preset_params(p: PresetName, k: EffectKind) -> Map<Seq<char>, i32> {
    let d = default_params(k);
    match p {
        PresetName::Off => d,
        PresetName::Voice => match k {
            EffectKind::NoiseSuppression => d.insert("VAD Threshold (%)"@, 50000),
            EffectKind::Compressor => d.insert("th"@, -18000i32).insert("ratio"@, 2500).insert(
                "makeup"@,
                3000,
            ),
            _ => d,
        },
        PresetName::Streaming => match k {
            EffectKind::NoiseSuppression => d.insert("VAD Threshold (%)"@, 65000),
            EffectKind::Gate => d.insert("th"@, -32000i32).insert("rng"@, -30000i32),
            EffectKind::Compressor => d.insert("th"@, -20000i32).insert("ratio"@, 4000).insert(
                "makeup"@,
                4000,
            ),
            EffectKind::Equalizer => d.insert("g_2"@, 2500).insert("g_3"@, 2000),
        },
        PresetName::Singing => match k {
            EffectKind::NoiseSuppression => d.insert("VAD Threshold (%)"@, 35000),
            EffectKind::Compressor => d.insert("th"@, -22000i32).insert("ratio"@, 2000).insert(
                "at"@,
                10000,
            ).insert("rt"@, 200000).insert("makeup"@, 2000),
            EffectKind::Equalizer => d.insert("g_3"@, 3000),
            _ => d,
        },
    }
}

/// The chain that a preset builds: one instance of each effect in
/// signal-flow order, with the preset's bypass flags and parameters,
/// labelled with the preset's name.
pub open spec fn is_preset_chain(c: MicChain, p: PresetName) -> bool {
    &&& c.wf()
    &&& c.preset matches Some(s) && s@ == spec_preset_label(p)
    &&& c.effects@.len() == 4
    &&& forall|i: int|
        #![trigger c.effects@[i]]
        0 <= i < 4 ==> {
            &&& c.effects@[i].kind == all_kinds()[i]
            &&& c.effects@[i].bypassed == preset_bypassed(p, all_kinds()[i])
            &&& c.effects@[i].values() == preset_params(p, all_kinds()[i])
        }
}

impl PresetName {
    pub fn label(self) -> (r: &'static str)
        ensures
            r@ == spec_preset_label(self),
    {
        match self {
            PresetName::Off => "Off",
            PresetName::Voice => "Voice",
            PresetName::Streaming => "Streaming",
            PresetName::Singing => "Singing",
        }
    }

    pub fn all() -> (r: &'static [PresetName])
        ensures
            r@ == all_presets(),
    {
        let r: &'static [PresetName] = &[
            PresetName::Off,
            PresetName::Voice,
            PresetName::Streaming,
            PresetName::Singing,
        ];
        assert(r@ =~= all_presets());
        r
    }

    /// Build a chain with this preset applied. Effects are only
    /// un-bypassed where the preset specifically wants them on.
    pub fn build_chain(self) -> (r: MicChain)
        ensures
            is_preset_chain(r, self),
    {
        let mut chain = MicChain::default();
        chain.preset = Some(String::from_str(self.label()));
        match self {
            PresetName::Off => {},
            PresetName::Voice => {
                chain.set_bypassed(EffectKind::NoiseSuppression, false);
                chain.set_param(EffectKind::NoiseSuppression, "VAD Threshold (%)", 50000);
                chain.set_bypassed(EffectKind::Compressor, false);
                chain.set_param(EffectKind::Compressor, "th", -18000);
                chain.set_param(EffectKind::Compressor, "ratio", 2500);
                chain.set_param(EffectKind::Compressor, "makeup", 3000);
            },
            PresetName::Streaming => {
                chain.set_bypassed(EffectKind::NoiseSuppression, false);
                chain.set_param(EffectKind::NoiseSuppression, "VAD Threshold (%)", 65000);
                chain.set_bypassed(EffectKind::Gate, false);
                chain.set_param(EffectKind::Gate, "th", -32000);
                chain.set_param(EffectKind::Gate, "rng", -30000);
                chain.set_bypassed(EffectKind::Compressor, false);
                chain.set_param(EffectKind::Compressor, "th", -20000);
                chain.set_param(EffectKind::Compressor, "ratio", 4000);
                chain.set_param(EffectKind::Compressor, "makeup", 4000);
                chain.set_bypassed(EffectKind::Equalizer, false);
                chain.set_param(EffectKind::Equalizer, "g_2", 2500);  // presence
                chain.set_param(EffectKind::Equalizer, "g_3", 2000);  // air
            },
            PresetName::Singing => {
                chain.set_bypassed(EffectKind::NoiseSuppression, false);
                chain.set_param(EffectKind::NoiseSuppression, "VAD Threshold (%)", 35000);
                chain.set_bypassed(EffectKind::Compressor, false);
                chain.set_param(EffectKind::Compressor, "th", -22000);
                chain.set_param(EffectKind::Compressor, "ratio", 2000);
                chain.set_param(EffectKind::Compressor, "at", 10000);
                chain.set_param(EffectKind::Compressor, "rt", 200000);
                chain.set_param(EffectKind::Compressor, "makeup", 2000);
                chain.set_bypassed(EffectKind::Equalizer, false);
                chain.set_param(EffectKind::Equalizer, "g_3", 3000);  // air shelf
            },
        }
        chain
    }

    /// Look a preset up by case-sensitive label.
    pub fn from_label(label: &str) -> (r: Option<Self>)
        ensures
            r == spec_from_label(label@),
    {
        let key = String::from_str(label);
        let all = Self::all();
        let mut i: usize = 0;
        while i < all.len()
            invariant
                all@ == all_presets(),
                key@ == label@,
                i <= all@.len(),
                forall|j: int| 0 <= j < i ==> spec_preset_label(#[trigger] all_presets()[j]) != label@,
            decreases all@.len() - i,
        {
            let p = all[i];
            if String::from_str(p.label()) == key {
                return Some(p);
            }
            i = i + 1;
        }
        assert(spec_preset_label(all_presets()[0]) != label@);
        assert(spec_preset_label(all_presets()[1]) != label@);
        assert(spec_preset_label(all_presets()[2]) != label@);
        assert(spec_preset_label(all_presets()[3]) != label@);
        None
    }
}

/// Looking a preset up by its own label finds that preset.
pub proof fn lemma_label_round_trip(p: PresetName)
    ensures
        spec_from_label(spec_preset_label(p)) == Some(p),
{
    reveal_strlit("Off");
    reveal_strlit("Voice");
    reveal_strlit("Streaming");
    reveal_strlit("Singing");
    let off = spec_preset_label(PresetName::Off);
    let voice = spec_preset_label(PresetName::Voice);
    let streaming = spec_preset_label(PresetName::Streaming);
    let singing = spec_preset_label(PresetName::Singing);
    assert(voice[0] != off[0]);
    assert(streaming[0] != off[0]);
    assert(streaming[0] != voice[0]);
    assert(singing[0] != off[0]);
    assert(singing[0] != voice[0]);
    assert(singing.len() != streaming.len());
}

/// The Off preset leaves every effect bypassed, and the Streaming
/// preset switches every effect on.
pub proof fn lemma_off_bypasses_streaming_enables(k: EffectKind)
    ensures
        preset_bypassed(PresetName::Off, k),
        !preset_bypassed(PresetName::Streaming, k),
{
}

/// Parameter values that hold exactly the names of the effect's table,
/// each within its descriptor's range.
pub open spec fn values_in_table(vals: Map<Seq<char>, i32>, k: EffectKind) -> bool {
    &&& vals.dom() == default_params(k).dom()
    &&& forall|i: int|
        #![trigger spec_descriptors(k)[i]]
        0 <= i < spec_descriptors(k).len() ==> spec_descriptors(k)[i].min
            <= vals[spec_descriptors(k)[i].name@] <= spec_descriptors(k)[i].max
}

/// The defaults are within the table.
proof fn lemma_defaults_in_table(k: EffectKind)
    ensures
        values_in_table(default_params(k), k),
{
    lemma_default_params(k);
    assert forall|i: int|
        #![trigger spec_descriptors(k)[i]]
        0 <= i < spec_descriptors(k).len() implies spec_descriptors(k)[i].min
        <= default_params(k)[spec_descriptors(k)[i].name@] <= spec_descriptors(k)[i].max by {
        lemma_descriptor_ranges(k, i);
    }
}

/// Setting one parameter of the table to a value within its range
/// keeps the values within the table.
proof fn lemma_set_in_table(vals: Map<Seq<char>, i32>, k: EffectKind, j: int, x: i32)
    requires
        values_in_table(vals, k),
        0 <= j < spec_descriptors(k).len(),
        spec_descriptors(k)[j].min <= x <= spec_descriptors(k)[j].max,
    ensures
        values_in_table(vals.insert(spec_descriptors(k)[j].name@, x), k),
{
    let ds = spec_descriptors(k);
    lemma_default_params(k);
    lemma_descriptor_names_distinct(k);
    let v = vals.insert(ds[j].name@, x);
    assert(default_params(k).contains_key(ds[j].name@));
    assert(v.dom() =~= vals.dom());
    assert forall|i: int|
        #![trigger ds[i]]
        0 <= i < ds.len() implies ds[i].min <= v[ds[i].name@] <= ds[i].max by {
        if i != j {
            if i < j {
                assert(ds[i].name@ != ds[j].name@);
            } else {
                assert(ds[j].name@ != ds[i].name@);
            }
        }
    }
}

/// A preset sets only parameters of the table, each within its range,
/// and leaves the effects it bypasses at their defaults.
pub proof fn lemma_preset_params_in_table(p: PresetName, k: EffectKind)
    ensures
        values_in_table(preset_params(p, k), k),
        preset_bypassed(p, k) ==> preset_params(p, k) == default_params(k),
{
    lemma_defaults_in_table(k);
    let d = default_params(k);
    let ds = spec_descriptors(k);
    match p {
        PresetName::Off => {},
        PresetName::Voice => match k {
            EffectKind::NoiseSuppression => {
                lemma_set_in_table(d, k, 0, 50000);
            },
            EffectKind::Compressor => {
                lemma_set_in_table(d, k, 0, -18000i32);
                lemma_set_in_table(d.insert(ds[0].name@, -18000i32), k, 1, 2500);
                lemma_set_in_table(
                    d.insert(ds[0].name@, -18000i32).insert(ds[1].name@, 2500),
                    k,
                    4,
                    3000,
                );
            },
            _ => {},
        },
        PresetName::Streaming => match k {
            EffectKind::NoiseSuppression => {
                lemma_set_in_table(d, k, 0, 65000);
            },
            EffectKind::Gate => {
                lemma_set_in_table(d, k, 0, -32000i32);
                lemma_set_in_table(d.insert(ds[0].name@, -32000i32), k, 3, -30000i32);
            },
            EffectKind::Compressor => {
                lemma_set_in_table(d, k, 0, -20000i32);
                lemma_set_in_table(d.insert(ds[0].name@, -20000i32), k, 1, 4000);
                lemma_set_in_table(
                    d.insert(ds[0].name@, -20000i32).insert(ds[1].name@, 4000),
                    k,
                    4,
                    4000,
                );
            },
            EffectKind::Equalizer => {
                lemma_set_in_table(d, k, 7, 2500);
                lemma_set_in_table(d.insert(ds[7].name@, 2500), k, 10, 2000);
            },
        },
        PresetName::Singing => match k {
            EffectKind::NoiseSuppression => {
                lemma_set_in_table(d, k, 0, 35000);
            },
            EffectKind::Compressor => {
                let v0 = d.insert(ds[0].name@, -22000i32);
                let v1 = v0.insert(ds[1].name@, 2000);
                let v2 = v1.insert(ds[2].name@, 10000);
                let v3 = v2.insert(ds[3].name@, 200000);
                lemma_set_in_table(d, k, 0, -22000i32);
                lemma_set_in_table(v0, k, 1, 2000);
                lemma_set_in_table(v1, k, 2, 10000);
                lemma_set_in_table(v2, k, 3, 200000);
                lemma_set_in_table(v3, k, 4, 2000);
            },
            EffectKind::Equalizer => {
                lemma_set_in_table(d, k, 10, 3000);
            },
            _ => {},
        },
    }
}

/// Every chain a preset builds holds, for each effect, exactly the
/// table's parameters, one entry each, within their ranges; and a
/// bypassed effect keeps its defaults.
pub proof fn lemma_preset_chain_in_table(c: MicChain, p: PresetName)
    requires
        is_preset_chain(c, p),
    ensures
        forall|i: int|
            #![trigger c.effects@[i]]
            0 <= i < c.effects@.len() ==> {
                &&& values_in_table(c.effects@[i].values(), c.effects@[i].kind)
                &&& c.effects@[i].params@.len() == spec_descriptors(c.effects@[i].kind).len()
                &&& c.effects@[i].bypassed ==> c.effects@[i].values() == default_params(
                    c.effects@[i].kind,
                )
            },
{
    assert forall|i: int|
        #![trigger c.effects@[i]]
        0 <= i < c.effects@.len() implies {
        &&& values_in_table(c.effects@[i].values(), c.effects@[i].kind)
        &&& c.effects@[i].params@.len() == spec_descriptors(c.effects@[i].kind).len()
        &&& c.effects@[i].bypassed ==> c.effects@[i].values() == default_params(c.effects@[i].kind)
    } by {
        let k = all_kinds()[i];
        lemma_preset_params_in_table(p, k);
        lemma_default_params(k);
        lemma_instance_param_count(c.effects@[i]);
    }
}

/// Which effects each preset switches on, and the settings it gives
/// them: Off switches nothing on; Voice switches on noise suppression
/// (VAD threshold 50 %) and the compressor (-18 dB, 2.5:1, 3 dB makeup);
/// Streaming switches everything on (VAD 65 %, gate at -32 dB with
/// -30 dB range, compressor -20 dB, 4:1, 4 dB makeup, EQ band 2 at
/// +2.5 dB and band 3 at +2 dB); Singing switches on everything but the
/// gate (VAD 35 %, compressor -22 dB, 2:1, 10 ms attack, 200 ms
/// release, 2 dB makeup, EQ band 3 at +3 dB). Values are in thousandths.
pub proof fn lemma_preset_settings(c: MicChain, p: PresetName)
    requires
        is_preset_chain(c, p),
    ensures
        c.effects@.len() == 4,
        c.effects@[0].kind == EffectKind::NoiseSuppression,
        c.effects@[1].kind == EffectKind::Gate,
        c.effects@[2].kind == EffectKind::Compressor,
        c.effects@[3].kind == EffectKind::Equalizer,
        p is Off ==> c.effects@[0].bypassed && c.effects@[1].bypassed && c.effects@[2].bypassed
            && c.effects@[3].bypassed,
        p is Voice ==> {
            &&& !c.effects@[0].bypassed && c.effects@[1].bypassed && !c.effects@[2].bypassed
                && c.effects@[3].bypassed
            &&& c.effects@[0].values()["VAD Threshold (%)"@] == 50000
            &&& c.effects@[2].values()["th"@] == -18000
            &&& c.effects@[2].values()["ratio"@] == 2500
            &&& c.effects@[2].values()["makeup"@] == 3000
        },
        p is Streaming ==> {
            &&& !c.effects@[0].bypassed && !c.effects@[1].bypassed && !c.effects@[2].bypassed
                && !c.effects@[3].bypassed
            &&& c.effects@[0].values()["VAD Threshold (%)"@] == 65000
            &&& c.effects@[1].values()["th"@] == -32000
            &&& c.effects@[1].values()["rng"@] == -30000
            &&& c.effects@[2].values()["th"@] == -20000
            &&& c.effects@[2].values()["ratio"@] == 4000
            &&& c.effects@[2].values()["makeup"@] == 4000
            &&& c.effects@[3].values()["g_2"@] == 2500
            &&& c.effects@[3].values()["g_3"@] == 2000
        },
        p is Singing ==> {
            &&& !c.effects@[0].bypassed && c.effects@[1].bypassed && !c.effects@[2].bypassed
                && !c.effects@[3].bypassed
            &&& c.effects@[0].values()["VAD Threshold (%)"@] == 35000
            &&& c.effects@[2].values()["th"@] == -22000
            &&& c.effects@[2].values()["ratio"@] == 2000
            &&& c.effects@[2].values()["at"@] == 10000
            &&& c.effects@[2].values()["rt"@] == 200000
            &&& c.effects@[2].values()["makeup"@] == 2000
            &&& c.effects@[3].values()["g_3"@] == 3000
        },
{
    reveal_strlit("th");
    reveal_strlit("at");
    reveal_strlit("rt");
    reveal_strlit("rng");
    reveal_strlit("ratio");
    reveal_strlit("makeup");
    reveal_strlit("g_2");
    reveal_strlit("g_3");
    assert("th"@.len() == 2 && "at"@.len() == 2 && "rt"@.len() == 2 && "rng"@.len() == 3);
    assert("ratio"@.len() == 5 && "makeup"@.len() == 6 && "g_2"@.len() == 3);
    assert("th"@[0] != "at"@[0] && "th"@[0] != "rt"@[0] && "at"@[0] != "rt"@[0]);
    assert("g_2"@[2] != "g_3"@[2]);
    assert(c.effects@[0].kind == all_kinds()[0]);
    assert(c.effects@[1].kind == all_kinds()[1]);
    assert(c.effects@[2].kind == all_kinds()[2]);
    assert(c.effects@[3].kind == all_kinds()[3]);
    match p {
        PresetName::Voice => {
            assert(c.effects@[0].values() == preset_params(p, EffectKind::NoiseSuppression));
            assert(c.effects@[2].values() == preset_params(p, EffectKind::Compressor));
            assert(c.effects@[1].bypassed == preset_bypassed(p, EffectKind::Gate));
            assert(c.effects@[3].bypassed == preset_bypassed(p, EffectKind::Equalizer));
        },
        PresetName::Streaming => {
            assert(c.effects@[0].values() == preset_params(p, EffectKind::NoiseSuppression));
            assert(c.effects@[1].values() == preset_params(p, EffectKind::Gate));
            assert(c.effects@[2].values() == preset_params(p, EffectKind::Compressor));
            assert(c.effects@[3].values() == preset_params(p, EffectKind::Equalizer));
        },
        _ => {},
    }
}

} // verus!
