//! Effect kinds, parameter descriptors, and per-instance state.
//!
//! Parameter values are fixed-point numbers in thousandths of the unit
//! that the descriptor names (a threshold of `-36000` is -36 dB, an
//! attack of `1500` is 1.5 ms).

use vstd::prelude::*;

verus! {

/// One of the four effect slots in the mic chain. The order of
/// [`EffectKind::all`] is the signal flow:
/// `NoiseSuppression` → `Gate` → `Compressor` → `Equalizer`.
#[derive(Debug, Clone, Copy, PartialEq, Eq, Hash, Structural)]
pub enum EffectKind {
    NoiseSuppression,
    Gate,
    Compressor,
    Equalizer,
}

/// The `PipeWire` filter-graph node name of each effect.
pub open spec fn spec_node_id(k: EffectKind) -> Seq<char> {
    match k {
        EffectKind::NoiseSuppression => "ns"@,
        EffectKind::Gate => "gate"@,
        EffectKind::Compressor => "comp"@,
        EffectKind::Equalizer => "eq"@,
    }
}

/// The human-readable label of each effect.
pub open spec fn spec_effect_label(k: EffectKind) -> Seq<char> {
    match k {
        EffectKind::NoiseSuppression => "Noise Suppression"@,
        EffectKind::Gate => "Noise Gate"@,
        EffectKind::Compressor => "Compressor"@,
        EffectKind::Equalizer => "Equalizer"@,
    }
}

/// The four effect kinds in signal-flow order.
pub open spec fn all_kinds() -> Seq<EffectKind> {
    seq![
        EffectKind::NoiseSuppression,
        EffectKind::Gate,
        EffectKind::Compressor,
        EffectKind::Equalizer,
    ]
}

impl EffectKind {
    /// Stable identifier used as the `PipeWire` filter-graph node name
    /// (`ns`, `gate`, `comp`, `eq`).
    pub fn node_id(self) -> (r: &'static str)
        ensures
            r@ == spec_node_id(self),
    {
        match self {
            EffectKind::NoiseSuppression => "ns",
            EffectKind::Gate => "gate",
            EffectKind::Compressor => "comp",
            EffectKind::Equalizer => "eq",
        }
    }

    /// Human-readable label for UI rendering.
    pub fn label(self) -> (r: &'static str)
        ensures
            r@ == spec_effect_label(self),
    {
        match self {
            EffectKind::NoiseSuppression => "Noise Suppression",
            EffectKind::Gate => "Noise Gate",
            EffectKind::Compressor => "Compressor",
            EffectKind::Equalizer => "Equalizer",
        }
    }

    /// All four effect kinds in signal-flow order.
    pub fn all() -> (r: &'static [EffectKind])
        ensures
            r@ == all_kinds(),
    {
        let r: &'static [EffectKind] = &[
            EffectKind::NoiseSuppression,
            EffectKind::Gate,
            EffectKind::Compressor,
            EffectKind::Equalizer,
        ];
        assert(r@ =~= all_kinds());
        r
    }
}

/// Description of a single tunable parameter on an effect. Drives the
/// generic slider rendering in the UI. `min`, `max`, `default` and
/// `step` are in thousandths of `unit`.
#[derive(Debug, Clone, Copy)]
pub struct ParamDescriptor {
    /// Internal control-port name as exposed by the LV2/LADSPA plugin.
    pub name: &'static str,
    /// Human-readable label for the slider.
    pub label: &'static str,
    pub min: i32,
    pub max: i32,
    pub default: i32,
    pub step: i32,
    pub unit: &'static str,
}

/// The parameter table of each effect: the control ports of RNNoise
/// (`noise_suppressor_mono`), LSP `gate_mono`, LSP `compressor_mono`
/// and four bands of LSP `para_equalizer_x16_mono`.
pub open spec fn spec_descriptors(k: EffectKind) -> Seq<ParamDescriptor> {
    match k {
        EffectKind::NoiseSuppression => seq![
            ParamDescriptor { name: "VAD Threshold (%)", label: "Threshold", min: 0, max: 100000, default: 50000, step: 1000, unit: "%" },
        ],
        EffectKind::Gate => seq![
            ParamDescriptor { name: "th", label: "Threshold", min: -72000i32, max: 0, default: -36000i32, step: 500, unit: "dB" },
            ParamDescriptor { name: "at", label: "Attack", min: 100, max: 100000, default: 1500, step: 100, unit: "ms" },
            ParamDescriptor { name: "rt", label: "Release", min: 1000, max: 1000000, default: 50000, step: 1000, unit: "ms" },
            ParamDescriptor { name: "rng", label: "Range", min: -60000i32, max: 0, default: -24000i32, step: 500, unit: "dB" },
        ],
        EffectKind::Compressor => seq![
            ParamDescriptor { name: "th", label: "Threshold", min: -60000i32, max: 0, default: -18000i32, step: 500, unit: "dB" },
            ParamDescriptor { name: "ratio", label: "Ratio", min: 1000, max: 20000, default: 3000, step: 100, unit: ":1" },
            ParamDescriptor { name: "at", label: "Attack", min: 100, max: 100000, default: 5000, step: 100, unit: "ms" },
            ParamDescriptor { name: "rt", label: "Release", min: 1000, max: 1000000, default: 50000, step: 1000, unit: "ms" },
            ParamDescriptor { name: "makeup", label: "Makeup", min: 0, max: 24000, default: 0, step: 500, unit: "dB" },
        ],
        EffectKind::Equalizer => seq![
            ParamDescriptor { name: "fg_0", label: "Low Freq", min: 20000, max: 500000, default: 80000, step: 1000, unit: "Hz" },
            ParamDescriptor { name: "g_0", label: "Low Gain", min: -24000i32, max: 24000, default: 0, step: 500, unit: "dB" },
            ParamDescriptor { name: "q_0", label: "Low Q", min: 100, max: 10000, default: 1000, step: 100, unit: "" },
            ParamDescriptor { name: "fg_1", label: "LowMid Freq", min: 100000, max: 1000000, default: 250000, step: 1000, unit: "Hz" },
            ParamDescriptor { name: "g_1", label: "LowMid Gain", min: -24000i32, max: 24000, default: 0, step: 500, unit: "dB" },
            ParamDescriptor { name: "q_1", label: "LowMid Q", min: 100, max: 10000, default: 1000, step: 100, unit: "" },
            ParamDescriptor { name: "fg_2", label: "HighMid Freq", min: 1000000, max: 8000000, default: 2500000, step: 10000, unit: "Hz" },
            ParamDescriptor { name: "g_2", label: "HighMid Gain", min: -24000i32, max: 24000, default: 0, step: 500, unit: "dB" },
            ParamDescriptor { name: "q_2", label: "HighMid Q", min: 100, max: 10000, default: 1000, step: 100, unit: "" },
            ParamDescriptor { name: "fg_3", label: "High Freq", min: 4000000, max: 20000000, default: 8000000, step: 10000, unit: "Hz" },
            ParamDescriptor { name: "g_3", label: "High Gain", min: -24000i32, max: 24000, default: 0, step: 500, unit: "dB" },
            ParamDescriptor { name: "q_3", label: "High Q", min: 100, max: 10000, default: 1000, step: 100, unit: "" },
        ],
    }
}

/// Static parameter table for a given effect.
pub fn descriptors_for(kind: EffectKind) -> (r: Vec<ParamDescriptor>)
    ensures
        r@ == spec_descriptors(kind),
{
    match kind {
        EffectKind::NoiseSuppression => {
            let r = vec![
                ParamDescriptor { name: "VAD Threshold (%)", label: "Threshold", min: 0, max: 100000, default: 50000, step: 1000, unit: "%" },
            ];
            assert(r@ =~= spec_descriptors(kind));
            r
        },
        EffectKind::Gate => {
            let r = vec![
                ParamDescriptor { name: "th", label: "Threshold", min: -72000i32, max: 0, default: -36000i32, step: 500, unit: "dB" },
                ParamDescriptor { name: "at", label: "Attack", min: 100, max: 100000, default: 1500, step: 100, unit: "ms" },
                ParamDescriptor { name: "rt", label: "Release", min: 1000, max: 1000000, default: 50000, step: 1000, unit: "ms" },
                ParamDescriptor { name: "rng", label: "Range", min: -60000i32, max: 0, default: -24000i32, step: 500, unit: "dB" },
            ];
            assert(r@ =~= spec_descriptors(kind));
            r
        },
        EffectKind::Compressor => {
            let r = vec![
                ParamDescriptor { name: "th", label: "Threshold", min: -60000i32, max: 0, default: -18000i32, step: 500, unit: "dB" },
                ParamDescriptor { name: "ratio", label: "Ratio", min: 1000, max: 20000, default: 3000, step: 100, unit: ":1" },
                ParamDescriptor { name: "at", label: "Attack", min: 100, max: 100000, default: 5000, step: 100, unit: "ms" },
                ParamDescriptor { name: "rt", label: "Release", min: 1000, max: 1000000, default: 50000, step: 1000, unit: "ms" },
                ParamDescriptor { name: "makeup", label: "Makeup", min: 0, max: 24000, default: 0, step: 500, unit: "dB" },
            ];
            assert(r@ =~= spec_descriptors(kind));
            r
        },
        EffectKind::Equalizer => {
            let r = vec![
                ParamDescriptor { name: "fg_0", label: "Low Freq", min: 20000, max: 500000, default: 80000, step: 1000, unit: "Hz" },
                ParamDescriptor { name: "g_0", label: "Low Gain", min: -24000i32, max: 24000, default: 0, step: 500, unit: "dB" },
                ParamDescriptor { name: "q_0", label: "Low Q", min: 100, max: 10000, default: 1000, step: 100, unit: "" },
                ParamDescriptor { name: "fg_1", label: "LowMid Freq", min: 100000, max: 1000000, default: 250000, step: 1000, unit: "Hz" },
                ParamDescriptor { name: "g_1", label: "LowMid Gain", min: -24000i32, max: 24000, default: 0, step: 500, unit: "dB" },
                ParamDescriptor { name: "q_1", label: "LowMid Q", min: 100, max: 10000, default: 1000, step: 100, unit: "" },
                ParamDescriptor { name: "fg_2", label: "HighMid Freq", min: 1000000, max: 8000000, default: 2500000, step: 10000, unit: "Hz" },
                ParamDescriptor { name: "g_2", label: "HighMid Gain", min: -24000i32, max: 24000, default: 0, step: 500, unit: "dB" },
                ParamDescriptor { name: "q_2", label: "HighMid Q", min: 100, max: 10000, default: 1000, step: 100, unit: "" },
                ParamDescriptor { name: "fg_3", label: "High Freq", min: 4000000, max: 20000000, default: 8000000, step: 10000, unit: "Hz" },
                ParamDescriptor { name: "g_3", label: "High Gain", min: -24000i32, max: 24000, default: 0, step: 500, unit: "dB" },
                ParamDescriptor { name: "q_3", label: "High Q", min: 100, max: 10000, default: 1000, step: 100, unit: "" },
            ];
            assert(r@ =~= spec_descriptors(kind));
            r
        },
    }
}

/// Every parameter's range is non-empty, its default lies within it,
/// and its step is positive.
pub proof fn lemma_descriptor_ranges(k: EffectKind, i: int)
    requires
        0 <= i < spec_descriptors(k).len(),
    ensures
        spec_descriptors(k)[i].min < spec_descriptors(k)[i].max,
        spec_descriptors(k)[i].min <= spec_descriptors(k)[i].default <= spec_descriptors(k)[i].max,
        spec_descriptors(k)[i].step > 0,
{
}

/// Parameter values keyed by control-port name, a later entry taking
/// the place of an earlier one with the same name.
pub open spec fn param_map(ps: Seq<(String, i32)>) -> Map<Seq<char>, i32>
    decreases ps.len(),
{
    if ps.len() == 0 {
        Map::empty()
    } else {
        param_map(ps.drop_last()).insert(ps.last().0@, ps.last().1)
    }
}

/// No two entries share a name.
pub open spec fn names_distinct(ps: Seq<(String, i32)>) -> bool {
    forall|i: int, j: int| 0 <= i < j < ps.len() ==> #[trigger] ps[i].0@ != #[trigger] ps[j].0@
}

/// The map from each descriptor's name to its default, filled in table
/// order.
pub open spec fn descriptor_defaults(ds: Seq<ParamDescriptor>) -> Map<Seq<char>, i32>
    decreases ds.len(),
{
    if ds.len() == 0 {
        Map::empty()
    } else {
        descriptor_defaults(ds.drop_last()).insert(ds.last().name@, ds.last().default)
    }
}

/// The default parameter values of an effect.
pub open spec fn default_params(k: EffectKind) -> Map<Seq<char>, i32> {
    descriptor_defaults(spec_descriptors(k))
}

proof fn lemma_param_map_update(ps: Seq<(String, i32)>, j: int, entry: (String, i32))
    requires
        names_distinct(ps),
        0 <= j < ps.len(),
        ps[j].0@ == entry.0@,
    ensures
        param_map(ps.update(j, entry)) == param_map(ps).insert(entry.0@, entry.1),
    decreases ps.len(),
{
    let qs = ps.update(j, entry);
    if j == ps.len() - 1 {
        assert(qs.drop_last() =~= ps.drop_last());
        assert(param_map(ps).insert(entry.0@, entry.1) =~= param_map(ps.drop_last()).insert(
            entry.0@,
            entry.1,
        ));
    } else {
        assert(qs.drop_last() =~= ps.drop_last().update(j, entry));
        lemma_param_map_update(ps.drop_last(), j, entry);
        assert(ps.last().0@ != entry.0@);
        assert(param_map(qs) =~= param_map(ps).insert(entry.0@, entry.1));
    }
}

proof fn lemma_param_map_lookup(ps: Seq<(String, i32)>, j: int)
    requires
        names_distinct(ps),
        0 <= j < ps.len(),
    ensures
        param_map(ps).contains_key(ps[j].0@),
        param_map(ps)[ps[j].0@] == ps[j].1,
    decreases ps.len(),
{
    if j < ps.len() - 1 {
        lemma_param_map_lookup(ps.drop_last(), j);
        assert(ps.last().0@ != ps[j].0@);
    }
}

proof fn lemma_param_map_absent(ps: Seq<(String, i32)>, k: Seq<char>)
    requires
        forall|j: int| 0 <= j < ps.len() ==> #[trigger] ps[j].0@ != k,
    ensures
        !param_map(ps).contains_key(k),
    decreases ps.len(),
{
    if ps.len() > 0 {
        lemma_param_map_absent(ps.drop_last(), k);
        assert(ps.last().0@ != k);
    }
}

/// Live state of one effect instance.
#[derive(Debug)]
pub struct EffectInstance {
    pub kind: EffectKind,
    pub bypassed: bool,
    /// Current parameter values, each under its descriptor name.
    pub params: Vec<(String, i32)>,
}

impl EffectInstance {
    /// No parameter name is held twice.
    pub open spec fn wf(&self) -> bool {
        names_distinct(self.params@)
    }

    /// The parameter values by name.
    pub open spec fn values(&self) -> Map<Seq<char>, i32> {
        param_map(self.params@)
    }

    /// The current value of a parameter.
    pub fn param(&self, name: &str) -> (r: Option<i32>)
        requires
            self.wf(),
        ensures
            r == (if self.values().contains_key(name@) {
                Some(self.values()[name@])
            } else {
                None
            }),
    {
        let key = String::from_str(name);
        let mut j: usize = 0;
        while j < self.params.len()
            invariant
                self.wf(),
                key@ == name@,
                j <= self.params.len(),
                forall|i: int| 0 <= i < j ==> #[trigger] self.params@[i].0@ != name@,
            decreases self.params.len() - j,
        {
            if self.params[j].0 == key {
                proof {
                    lemma_param_map_lookup(self.params@, j as int);
                }
                return Some(self.params[j].1);
            }
            j = j + 1;
        }
        proof {
            lemma_param_map_absent(self.params@, name@);
        }
        None
    }

    /// Sets a parameter, replacing its value if it is already present.
    pub fn set_param(&mut self, name: &str, value: i32)
        requires
            old(self).wf(),
        ensures
            final(self).wf(),
            final(self).values() == old(self).values().insert(name@, value),
            final(self).kind == old(self).kind,
            final(self).bypassed == old(self).bypassed,
    {
        let key = String::from_str(name);
        let mut j: usize = 0;
        while j < self.params.len()
            invariant
                self.params@ == old(self).params@,
                self.kind == old(self).kind,
                self.bypassed == old(self).bypassed,
                names_distinct(self.params@),
                key@ == name@,
                j <= self.params.len(),
                forall|i: int| 0 <= i < j ==> #[trigger] self.params@[i].0@ != name@,
            decreases self.params.len() - j,
        {
            if self.params[j].0 == key {
                proof {
                    lemma_param_map_update(self.params@, j as int, (key, value));
                }
                self.params.set(j, (key, value));
                return;
            }
            j = j + 1;
        }
        let ghost before = self.params@;
        self.params.push((key, value));
        assert(self.params@.drop_last() =~= before);
    }

    /// A copy of this instance.
    pub fn snapshot(&self) -> (r: Self)
        ensures
            r.kind == self.kind,
            r.bypassed == self.bypassed,
            r.params@ == self.params@,
    {
        let mut params: Vec<(String, i32)> = Vec::new();
        let mut j: usize = 0;
        while j < self.params.len()
            invariant
                j <= self.params.len(),
                params@ == self.params@.take(j as int),
            decreases self.params.len() - j,
        {
            let name = self.params[j].0.clone();
            params.push((name, self.params[j].1));
            assert(params@ =~= self.params@.take(j + 1));
            j = j + 1;
        }
        assert(params@ =~= self.params@);
        EffectInstance { kind: self.kind, bypassed: self.bypassed, params }
    }

    /// An instance with the descriptor defaults, bypassed.
    pub fn default_for(kind: EffectKind) -> (r: Self)
        ensures
            r.kind == kind,
            r.bypassed,
            r.wf(),
            r.values() == default_params(kind),
            r.params@.len() == spec_descriptors(kind).len(),
            forall|i: int|
                0 <= i < spec_descriptors(kind).len() ==> r.values().contains_key(
                    #[trigger] spec_descriptors(kind)[i].name@,
                ) && r.values()[spec_descriptors(kind)[i].name@] == spec_descriptors(kind)[i].default,
    {
        let ds = descriptors_for(kind);
        // Effects start bypassed so the daemon never silently colours
        // the user's mic on first run; the user opts each one in.
        let mut inst = EffectInstance { kind, bypassed: true, params: Vec::new() };
        assert(inst.values() =~= Map::empty());
        let mut i: usize = 0;
        while i < ds.len()
            invariant
                ds@ == spec_descriptors(kind),
                i <= ds.len(),
                inst.kind == kind,
                inst.bypassed,
                inst.wf(),
                inst.values() == descriptor_defaults(ds@.take(i as int)),
            decreases ds.len() - i,
        {
            assert(ds@.take(i + 1).drop_last() =~= ds@.take(i as int));
            inst.set_param(ds[i].name, ds[i].default);
            i = i + 1;
        }
        assert(ds@.take(ds@.len() as int) =~= ds@);
        proof {
            lemma_default_params(kind);
            lemma_instance_param_count(inst);
        }
        inst
    }
}

/// Different effects have different node names.
pub proof fn lemma_node_ids_distinct(a: EffectKind, b: EffectKind)
    requires
        a != b,
    ensures
        spec_node_id(a) != spec_node_id(b),
{
    reveal_strlit("ns");
    reveal_strlit("gate");
    reveal_strlit("comp");
    reveal_strlit("eq");
    assert(spec_node_id(EffectKind::Gate)[0] != spec_node_id(EffectKind::NoiseSuppression)[0]);
    assert(spec_node_id(EffectKind::Compressor)[0] != spec_node_id(EffectKind::NoiseSuppression)[0]);
    assert(spec_node_id(EffectKind::Equalizer)[0] != spec_node_id(EffectKind::NoiseSuppression)[0]);
    assert(spec_node_id(EffectKind::Compressor)[0] != spec_node_id(EffectKind::Gate)[0]);
    assert(spec_node_id(EffectKind::Equalizer)[0] != spec_node_id(EffectKind::Gate)[0]);
    assert(spec_node_id(EffectKind::Equalizer)[0] != spec_node_id(EffectKind::Compressor)[0]);
}

} // verus!
verus! {

/// No two parameters of an effect share a name.
pub open spec fn descriptor_names_distinct(ds: Seq<ParamDescriptor>) -> bool {
    forall|i: int, j: int| 0 <= i < j < ds.len() ==> #[trigger] ds[i].name@ != #[trigger] ds[j].name@
}

pub proof fn lemma_descriptor_names_distinct(k: EffectKind)
    ensures
        descriptor_names_distinct(spec_descriptors(k)),
{
    reveal_strlit("VAD Threshold (%)");
    reveal_strlit("th");
    reveal_strlit("at");
    reveal_strlit("rt");
    reveal_strlit("rng");
    reveal_strlit("ratio");
    reveal_strlit("makeup");
    reveal_strlit("fg_0");
    reveal_strlit("g_0");
    reveal_strlit("q_0");
    reveal_strlit("fg_1");
    reveal_strlit("g_1");
    reveal_strlit("q_1");
    reveal_strlit("fg_2");
    reveal_strlit("g_2");
    reveal_strlit("q_2");
    reveal_strlit("fg_3");
    reveal_strlit("g_3");
    reveal_strlit("q_3");
    let ds = spec_descriptors(k);
    assert forall|i: int, j: int| 0 <= i < j < ds.len() implies #[trigger] ds[i].name@ != #[trigger] ds[j].name@ by {
        if ds[i].name@.len() == ds[j].name@.len() {
            let n = ds[i].name@.len();
            if ds[i].name@[0] == ds[j].name@[0] {
                assert(ds[i].name@[n - 1] != ds[j].name@[n - 1] || ds[i].name@[0] != ds[j].name@[0]
                    || ds[i].name@[1] != ds[j].name@[1]);
            }
        }
    }
}


/// The defaults of a table whose names are distinct: one entry per
/// parameter, each under its name with its default.
proof fn lemma_descriptor_defaults(ds: Seq<ParamDescriptor>)
    requires
        descriptor_names_distinct(ds),
    ensures
        descriptor_defaults(ds).dom().finite(),
        descriptor_defaults(ds).dom().len() == ds.len(),
        forall|i: int|
            0 <= i < ds.len() ==> descriptor_defaults(ds).contains_key(#[trigger] ds[i].name@)
                && descriptor_defaults(ds)[ds[i].name@] == ds[i].default,
        forall|key: Seq<char>|
            #[trigger] descriptor_defaults(ds).contains_key(key) ==> exists|i: int|
                0 <= i < ds.len() && ds[i].name@ == key,
    decreases ds.len(),
{
    if ds.len() > 0 {
        let rest = ds.drop_last();
        assert(descriptor_names_distinct(rest)) by {
            assert forall|i: int, j: int| 0 <= i < j < rest.len() implies #[trigger] rest[i].name@
                != #[trigger] rest[j].name@ by {
                assert(rest[i] == ds[i] && rest[j] == ds[j]);
            }
        }
        lemma_descriptor_defaults(rest);
        let last = ds.last();
        assert(!descriptor_defaults(rest).contains_key(last.name@)) by {
            if descriptor_defaults(rest).contains_key(last.name@) {
                let i = choose|i: int| 0 <= i < rest.len() && rest[i].name@ == last.name@;
                assert(ds[i].name@ != ds[ds.len() - 1].name@);
            }
        }
        assert(descriptor_defaults(ds).dom() =~= descriptor_defaults(rest).dom().insert(last.name@));
        assert forall|i: int| 0 <= i < ds.len() implies descriptor_defaults(ds).contains_key(
            #[trigger] ds[i].name@,
        ) && descriptor_defaults(ds)[ds[i].name@] == ds[i].default by {
            if i < ds.len() - 1 {
                assert(rest[i] == ds[i]);
                assert(ds[i].name@ != ds[ds.len() - 1].name@);
            }
        }
        assert forall|key: Seq<char>| #[trigger] descriptor_defaults(ds).contains_key(key) implies exists|
            i: int,
        | 0 <= i < ds.len() && ds[i].name@ == key by {
            if key == last.name@ {
                assert(ds[ds.len() - 1].name@ == key);
            } else {
                let i = choose|i: int| 0 <= i < rest.len() && rest[i].name@ == key;
                assert(ds[i] == rest[i]);
            }
        }
    }
}

/// Distinct names give one value per entry.
proof fn lemma_param_count(ps: Seq<(String, i32)>)
    requires
        names_distinct(ps),
    ensures
        param_map(ps).dom().finite(),
        param_map(ps).dom().len() == ps.len(),
    decreases ps.len(),
{
    if ps.len() > 0 {
        let rest = ps.drop_last();
        assert(names_distinct(rest)) by {
            assert forall|i: int, j: int| 0 <= i < j < rest.len() implies #[trigger] rest[i].0@
                != #[trigger] rest[j].0@ by {
                assert(rest[i] == ps[i] && rest[j] == ps[j]);
            }
        }
        lemma_param_count(rest);
        assert forall|j: int| 0 <= j < rest.len() implies #[trigger] rest[j].0@ != ps.last().0@ by {
            assert(rest[j] == ps[j]);
        }
        lemma_param_map_absent(rest, ps.last().0@);
        assert(param_map(ps).dom() =~= param_map(rest).dom().insert(ps.last().0@));
    }
}

/// The default values of an effect: each parameter of its table under
/// its name with its default, and nothing else.
pub proof fn lemma_default_params(k: EffectKind)
    ensures
        default_params(k).dom().finite(),
        default_params(k).dom().len() == spec_descriptors(k).len(),
        forall|i: int|
            0 <= i < spec_descriptors(k).len() ==> default_params(k).contains_key(
                #[trigger] spec_descriptors(k)[i].name@,
            ) && default_params(k)[spec_descriptors(k)[i].name@] == spec_descriptors(k)[i].default,
        forall|key: Seq<char>|
            #[trigger] default_params(k).contains_key(key) ==> exists|i: int|
                0 <= i < spec_descriptors(k).len() && spec_descriptors(k)[i].name@ == key,
{
    lemma_descriptor_names_distinct(k);
    lemma_descriptor_defaults(spec_descriptors(k));
}

/// A well-formed instance holds one entry per parameter value.
pub proof fn lemma_instance_param_count(inst: EffectInstance)
    requires
        inst.wf(),
    ensures
        inst.values().dom().finite(),
        inst.values().dom().len() == inst.params@.len(),
{
    lemma_param_count(inst.params@);
}
} // verus!
