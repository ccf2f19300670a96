//! Status effects: their data, and the turn-by-turn bookkeeping of their
//! procedures. The arithmetic on a combatant's (floating-point) stats that a
//! procedure performs is left to the caller; this module decides when it runs.
use vstd::prelude::*;

verus! {

/// Which procedure an effect runs on the combatant that carries it.
#[derive(Clone, Copy, PartialEq, Eq, Structural, Debug)]
pub enum EffectAction {
    /// Lowers defense while not yet applied and takes 2% of max health each turn.
    Poison,
    /// Takes 5% of max health each turn.
    Burn,
}

/// A status effect.
#[derive(Clone, Copy, Debug)]
pub struct Effect {
    pub name: &'static str,
    pub description: &'static str,
    pub duration: u32,
    pub effect_fn: EffectAction,
    pub applied: bool,
}

/// What one turn of an effect's procedure does to the combatant that carries it.
#[derive(Clone, Copy, PartialEq, Eq, Structural, Debug)]
pub enum EffectStep {
    /// The effect has run out: the combatant recovers and the effect is cleared from it.
    Recovered,
    /// The combatant takes the effect's damage; `lowers_defense` says whether its
    /// defense is lowered as well.
    Damaged { lowers_defense: bool },
}

/// The record and the step after one turn of an effect's procedure.
pub open spec fn advance_spec(e: Effect) -> (Effect, EffectStep) {
    if e.duration == 0 {
        (e, EffectStep::Recovered)
    } else {
        (
            Effect { duration: (e.duration - 1) as u32, ..e },
            EffectStep::Damaged {
                lowers_defense: e.effect_fn == EffectAction::Poison && !e.applied,
            },
        )
    }
}

/// The record after `k` turns of an effect's procedure.
pub open spec fn advanced(e: Effect, k: nat) -> Effect
    decreases k,
{
    if k == 0 {
        e
    } else {
        advance_spec(advanced(e, (k - 1) as nat)).0
    }
}

impl Effect {
    /// A fresh, not yet applied effect.
    pub fn new(
        name: &'static str,
        description: &'static str,
        duration: u32,
        effect_fn: EffectAction,
    ) -> (e: Effect)
        ensures
            e.name == name,
            e.description == description,
            e.duration == duration,
            e.effect_fn == effect_fn,
            !e.applied,
    {
        Effect { name, description, duration, effect_fn, applied: false }
    }

    /// A copy of this effect, field for field.
    pub fn clone(&self) -> (e: Effect)
        ensures
            e == *self,
    {
        Effect {
            name: self.name,
            description: self.description,
            duration: self.duration,
            effect_fn: self.effect_fn,
            applied: self.applied,
        }
    }

    /// Spends one turn of this effect: returns the procedure that the caller runs
    /// on the target, and lowers the remaining duration by one.
    pub fn apply_effect(&mut self) -> (action: EffectAction)
        requires
            old(self).duration > 0,
        ensures
            action == old(self).effect_fn,
            *final(self) == (Effect { duration: (old(self).duration - 1) as u32, ..*old(self) }),
    {
        self.duration = self.duration - 1;
        self.effect_fn
    }

    /// One turn of this effect's procedure, run against its shared record: once
    /// the duration has run out the combatant recovers and nothing changes here;
    /// otherwise the combatant is damaged and the duration drops by one.
    pub fn advance(&mut self) -> (step: EffectStep)
        ensures
            (*final(self), step) == advance_spec(*old(self)),
            final(self).name == old(self).name,
            final(self).description == old(self).description,
            final(self).effect_fn == old(self).effect_fn,
            final(self).applied == old(self).applied,
            (step == EffectStep::Recovered) == (old(self).duration == 0),
            step == EffectStep::Recovered ==> *final(self) == *old(self),
            step is Damaged ==> final(self).duration == old(self).duration - 1,
    {
        if self.duration == 0 {
            return EffectStep::Recovered;
        }
        let lowers_defense = match self.effect_fn {
            EffectAction::Poison => !self.applied,
            EffectAction::Burn => false,
        };
        self.duration = self.duration - 1;
        EffectStep::Damaged { lowers_defense }
    }
}

/// A turn of an effect keeps what the effect is: its name, description,
/// procedure and applied flag stay, so the record still clears the effect it
/// stands for. Only the duration changes, down by one while the effect lasts;
/// once it has run out the record is left exactly as it was.
pub proof fn lemma_advance_keeps_identity(e: Effect)
    ensures
        advance_spec(e).0.name == e.name,
        advance_spec(e).0.description == e.description,
        advance_spec(e).0.effect_fn == e.effect_fn,
        advance_spec(e).0.applied == e.applied,
        (advance_spec(e).1 == EffectStep::Recovered) == (e.duration == 0),
        e.duration == 0 ==> advance_spec(e).0 == e,
        e.duration > 0 ==> advance_spec(e).0.duration == e.duration - 1,
{
}

/// An effect of duration `d` damages its carrier on each of its first `d`
/// turns, and on every turn after those the carrier has recovered.
pub proof fn lemma_effect_runs_its_duration(e: Effect, k: nat)
    ensures
        k < e.duration ==> advance_spec(advanced(e, k)).1 matches EffectStep::Damaged { .. },
        k >= e.duration ==> advance_spec(advanced(e, k)).1 == EffectStep::Recovered,
{
    lemma_advanced_duration(e, k);
}

proof fn lemma_advanced_duration(e: Effect, k: nat)
    ensures
        advanced(e, k).duration == if k <= e.duration { e.duration - k } else { 0 },
    decreases k,
{
    if k > 0 {
        lemma_advanced_duration(e, (k - 1) as nat);
    }
}

} // verus!
