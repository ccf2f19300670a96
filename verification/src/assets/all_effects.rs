//! The status effects of the game.
use vstd::prelude::*;
use crate::effect::{Effect, EffectAction};

verus! {

/// Poison: damage and lowered defense for five turns.
pub fn poison() -> (e: Effect)
    ensures
        e == (Effect {
            name: "Poison",
            description: "Poison deals damage and reduces defense while active.",
            duration: 5,
            effect_fn: EffectAction::Poison,
            applied: false,
        }),
{
    Effect::new(
        "Poison",
        "Poison deals damage and reduces defense while active.",
        5,
        EffectAction::Poison,
    )
}

/// Burn: damage for five turns.
pub fn burn() -> (e: Effect)
    ensures
        e == (Effect {
            name: "Burn",
            description: "Burn deals damage while active.",
            duration: 5,
            effect_fn: EffectAction::Burn,
            applied: false,
        }),
{
    Effect::new("Burn", "Burn deals damage while active.", 5, EffectAction::Burn)
}

} // verus!
