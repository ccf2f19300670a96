//! The list of status effects that a combatant carries.
use vstd::prelude::*;
use crate::effect::Effect;

verus! {

/// Whether some effect in `effects` has the name `name`.
pub open spec fn has_named(effects: Seq<Effect>, name: Seq<char>) -> bool {
    exists|i: int| 0 <= i < effects.len() && (#[trigger] effects[i]).name@ == name
}

/// `effects` without those named `name`, the others kept in order.
pub open spec fn without_named(effects: Seq<Effect>, name: Seq<char>) -> Seq<Effect> {
    effects.filter(|e: Effect| e.name@ != name)
}

/// The effects active on a combatant, in the order they were applied.
pub struct EffectList {
    pub effects: Vec<Effect>,
}

impl EffectList {
    /// An empty list.
    pub fn new() -> (l: EffectList)
        ensures
            l.effects@ == Seq::<Effect>::empty(),
    {
        EffectList { effects: Vec::new() }
    }

    /// Adds `effect` at the end of the list.
    pub fn apply_effect(&mut self, effect: Effect)
        ensures
            final(self).effects@ == old(self).effects@.push(effect),
    {
        self.effects.push(effect);
    }

    /// Removes every effect with the name of `effect`, keeping the others in order.
    pub fn clear_effect(&mut self, effect: Effect)
        ensures
            final(self).effects@ == without_named(old(self).effects@, effect.name@),
    {
        let ghost pred = |e: Effect| e.name@ != effect.name@;
        let ghost before = self.effects@;
        let mut kept: Vec<Effect> = Vec::new();
        let mut i: usize = 0;
        proof {
            reveal(Seq::filter);
            assert(before.take(0) =~= Seq::<Effect>::empty());
        }
        while i < self.effects.len()
            invariant
                self.effects@ == before,
                i <= before.len(),
                kept@ == before.take(i as int).filter(pred),
                pred == (|e: Effect| e.name@ != effect.name@),
            decreases before.len() - i,
        {
            let e = self.effects[i];
            let same = crate::text::str_eq(e.name, effect.name);
            if !same {
                kept.push(e);
            }
            proof {
                reveal(Seq::filter);
                assert(before.take(i + 1).drop_last() =~= before.take(i as int));
                assert(before.take(i + 1).last() == e);
            }
            i = i + 1;
        }
        proof {
            assert(before.take(before.len() as int) =~= before);
        }
        self.effects = kept;
    }

    /// Whether an effect with the name of `effect` is in the list.
    pub fn has_effect(&self, effect: &Effect) -> (r: bool)
        ensures
            r == has_named(self.effects@, effect.name@),
    {
        let mut i: usize = 0;
        while i < self.effects.len()
            invariant
                i <= self.effects@.len(),
                forall|j: int| 0 <= j < i ==> (#[trigger] self.effects@[j]).name@ != effect.name@,
            decreases self.effects@.len() - i,
        {
            if crate::text::str_eq(self.effects[i].name, effect.name) {
                return true;
            }
            i = i + 1;
        }
        false
    }

    /// A copy of every effect in the list, in order.
    pub fn get_effect_list(&self) -> (r: Vec<Effect>)
        ensures
            r@ == self.effects@,
    {
        let mut out: Vec<Effect> = Vec::new();
        let mut i: usize = 0;
        while i < self.effects.len()
            invariant
                i <= self.effects@.len(),
                out@ == self.effects@.take(i as int),
            decreases self.effects@.len() - i,
        {
            out.push(self.effects[i].clone());
            proof {
                assert(self.effects@.take(i + 1) =~= self.effects@.take(i as int).push(self.effects@[i as int]));
            }
            i = i + 1;
        }
        proof {
            assert(self.effects@.take(self.effects@.len() as int) =~= self.effects@);
        }
        out
    }
}

/// Once an effect is applied, the list has an effect of its name.
pub proof fn lemma_apply_then_has(effects: Seq<Effect>, effect: Effect)
    ensures
        has_named(effects.push(effect), effect.name@),
{
    assert(effects.push(effect)[effects.len() as int] == effect);
}

/// Once an effect's name is cleared, no effect of that name is left.
pub proof fn lemma_clear_then_not_has(effects: Seq<Effect>, name: Seq<char>)
    ensures
        !has_named(without_named(effects, name), name),
{
    let pred = |e: Effect| e.name@ != name;
    let out = effects.filter(pred);
    assert forall|i: int| 0 <= i < out.len() implies (#[trigger] out[i]).name@ != name by {
        effects.lemma_filter_pred(pred, i);
    }
}

/// Clearing a name keeps every effect of another name.
pub proof fn lemma_clear_keeps_others(effects: Seq<Effect>, name: Seq<char>, i: int)
    requires
        0 <= i < effects.len(),
        effects[i].name@ != name,
    ensures
        without_named(effects, name).contains(effects[i]),
{
    effects.lemma_filter_contains(|e: Effect| e.name@ != name, i);
}

/// Clearing the name of an effect that was just applied, where no effect of
/// that name was there before, gives back the list as it was.
pub proof fn lemma_clear_undoes_apply(effects: Seq<Effect>, effect: Effect)
    requires
        !has_named(effects, effect.name@),
    ensures
        without_named(effects.push(effect), effect.name@) == effects,
{
    lemma_filter_keeps_all(effects, effect.name@);
    reveal(Seq::filter);
    assert(effects.push(effect).drop_last() =~= effects);
}

proof fn lemma_filter_keeps_all(effects: Seq<Effect>, name: Seq<char>)
    requires
        !has_named(effects, name),
    ensures
        without_named(effects, name) == effects,
    decreases effects.len(),
{
    reveal(Seq::filter);
    if effects.len() > 0 {
        let rest = effects.drop_last();
        assert forall|i: int| 0 <= i < rest.len() implies (#[trigger] rest[i]).name@ != name by {
            assert(rest[i] == effects[i]);
        }
        lemma_filter_keeps_all(rest, name);
        assert(effects.last() == effects[effects.len() - 1]);
        assert(rest.push(effects.last()) =~= effects);
    }
}

/// Clearing a name twice is the same as clearing it once.
pub proof fn lemma_clear_idempotent(effects: Seq<Effect>, name: Seq<char>)
    ensures
        without_named(without_named(effects, name), name) == without_named(effects, name),
{
    lemma_clear_then_not_has(effects, name);
    lemma_filter_keeps_all(without_named(effects, name), name);
}

} // verus!
