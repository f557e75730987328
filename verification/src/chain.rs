//! The mic effect chain: one instance of each effect, in signal-flow
//! order, plus the name of the preset it was built from.

use vstd::prelude::*;

use crate::effects::{all_kinds, default_params, EffectInstance, EffectKind};

verus! {

/// `i` is the first position of an effect of kind `k`.
pub open spec fn first_of_kind(s: Seq<EffectInstance>, k: EffectKind, i: int) -> bool {
    0 <= i < s.len() && s[i].kind == k && forall|j: int| 0 <= j < i ==> #[trigger] s[j].kind != k
}

/// The chain's effect instances and the preset label it carries.
#[derive(Debug)]
pub struct MicChain {
    pub effects: Vec<EffectInstance>,
    pub preset: Option<String>,
}

impl MicChain {
    /// Every instance is well formed.
    pub open spec fn wf(&self) -> bool {
        forall|i: int| 0 <= i < self.effects@.len() ==> (#[trigger] self.effects@[i]).wf()
    }

    /// The position of the first effect of the given kind.
    pub fn position(&self, kind: EffectKind) -> (r: Option<usize>)
        ensures
            match r {
                Some(i) => first_of_kind(self.effects@, kind, i as int),
                None => forall|j: int|
                    0 <= j < self.effects@.len() ==> #[trigger] self.effects@[j].kind != kind,
            },
    {
        let mut i: usize = 0;
        while i < self.effects.len()
            invariant
                i <= self.effects.len(),
                forall|j: int| 0 <= j < i ==> #[trigger] self.effects@[j].kind != kind,
            decreases self.effects.len() - i,
        {
            if self.effects[i].kind == kind {
                return Some(i);
            }
            i = i + 1;
        }
        None
    }

    /// Sets the bypass flag of the first effect of the given kind; a
    /// chain without such an effect is left unchanged.
    pub fn set_bypassed(&mut self, kind: EffectKind, bypassed: bool)
        requires
            old(self).wf(),
        ensures
            final(self).wf(),
            final(self).preset == old(self).preset,
            final(self).effects@.len() == old(self).effects@.len(),
            forall|i: int|
                #![trigger final(self).effects@[i]]
                0 <= i < old(self).effects@.len() ==> {
                    &&& final(self).effects@[i].kind == old(self).effects@[i].kind
                    &&& final(self).effects@[i].params == old(self).effects@[i].params
                    &&& final(self).effects@[i].bypassed == if first_of_kind(
                        old(self).effects@,
                        kind,
                        i,
                    ) {
                        bypassed
                    } else {
                        old(self).effects@[i].bypassed
                    }
                },
    {
        match self.position(kind) {
            Some(i) => {
                self.effects[i].bypassed = bypassed;
                assert forall|j: int| 0 <= j < old(self).effects@.len() && j != i implies !first_of_kind(
                    old(self).effects@,
                    kind,
                    j,
                ) by {
                    if j > i {
                        assert(old(self).effects@[i as int].kind == kind);
                    }
                }
            },
            None => {},
        }
    }

    /// Sets a parameter of the first effect of the given kind; a chain
    /// without such an effect is left unchanged.
    pub fn set_param(&mut self, kind: EffectKind, name: &str, value: i32)
        requires
            old(self).wf(),
        ensures
            final(self).wf(),
            final(self).preset == old(self).preset,
            final(self).effects@.len() == old(self).effects@.len(),
            forall|i: int|
                #![trigger final(self).effects@[i]]
                0 <= i < old(self).effects@.len() ==> {
                    &&& final(self).effects@[i].kind == old(self).effects@[i].kind
                    &&& final(self).effects@[i].bypassed == old(self).effects@[i].bypassed
                    &&& final(self).effects@[i].values() == if first_of_kind(
                        old(self).effects@,
                        kind,
                        i,
                    ) {
                        old(self).effects@[i].values().insert(name@, value)
                    } else {
                        old(self).effects@[i].values()
                    }
                },
    {
        match self.position(kind) {
            Some(i) => {
                self.effects[i].set_param(name, value);
                assert forall|j: int| 0 <= j < old(self).effects@.len() && j != i implies !first_of_kind(
                    old(self).effects@,
                    kind,
                    j,
                ) by {
                    if j > i {
                        assert(old(self).effects@[i as int].kind == kind);
                    }
                }
            },
            None => {},
        }
    }
}

/// The two instances hold the same kind, bypass flag and parameters.
pub open spec fn same_instance(a: EffectInstance, b: EffectInstance) -> bool {
    a.kind == b.kind && a.bypassed == b.bypassed && a.params@ == b.params@
}

/// The two chains hold the same effects, in the same order, and the
/// same preset label.
pub open spec fn same_chain(a: MicChain, b: MicChain) -> bool {
    &&& a.preset == b.preset
    &&& a.effects@.len() == b.effects@.len()
    &&& forall|i: int|
        0 <= i < a.effects@.len() ==> same_instance(#[trigger] a.effects@[i], b.effects@[i])
}

impl MicChain {
    /// A copy of this chain.
    pub fn snapshot(&self) -> (r: Self)
        ensures
            same_chain(r, *self),
    {
        let mut effects: Vec<EffectInstance> = Vec::new();
        let mut i: usize = 0;
        while i < self.effects.len()
            invariant
                i <= self.effects.len(),
                effects@.len() == i,
                forall|j: int|
                    0 <= j < i ==> same_instance(#[trigger] effects@[j], self.effects@[j]),
            decreases self.effects.len() - i,
        {
            effects.push(self.effects[i].snapshot());
            i = i + 1;
        }
        let preset = match &self.preset {
            Some(p) => Some(p.clone()),
            None => None,
        };
        MicChain { effects, preset }
    }
}

/// The chain with every effect at its defaults, bypassed, in
/// signal-flow order, and no preset.
pub open spec fn is_default_chain(c: MicChain) -> bool {
    &&& c.wf()
    &&& c.preset is None
    &&& c.effects@.len() == 4
    &&& forall|i: int|
        #![trigger c.effects@[i]]
        0 <= i < 4 ==> {
            &&& c.effects@[i].kind == all_kinds()[i]
            &&& c.effects@[i].bypassed
            &&& c.effects@[i].values() == default_params(all_kinds()[i])
        }
}

impl Default for MicChain {
    fn default() -> (r: Self)
        ensures
            is_default_chain(r),
    {
        let kinds = EffectKind::all();
        let mut effects: Vec<EffectInstance> = Vec::new();
        let mut i: usize = 0;
        while i < kinds.len()
            invariant
                kinds@ == all_kinds(),
                i <= kinds@.len(),
                effects@.len() == i,
                forall|j: int|
                    #![trigger effects@[j]]
                    0 <= j < i ==> {
                        &&& effects@[j].kind == all_kinds()[j]
                        &&& effects@[j].bypassed
                        &&& effects@[j].wf()
                        &&& effects@[j].values() == default_params(all_kinds()[j])
                    },
            decreases kinds@.len() - i,
        {
            effects.push(EffectInstance::default_for(kinds[i]));
            i = i + 1;
        }
        MicChain { effects, preset: None }
    }
}

} // verus!
