//! The moves of the game.
use vstd::prelude::*;
use crate::move_mod::{Move, MoveAction};

verus! {

/// A basic punch.
#[verifier::allow_in_spec]
pub fn punch() -> Move
    returns
        (Move { name: "Punch", priority: 0, description: "A basic punch", effect_fn: MoveAction::Punch }),
{
    Move { name: "Punch", priority: 0, description: "A basic punch", effect_fn: MoveAction::Punch }
}

/// An attack that ignores the target's defense.
#[verifier::allow_in_spec]
pub fn dismantle() -> Move
    returns
        (Move {
            name: "Dismantle",
            priority: 0,
            description: "An attack that ignores enemy defense",
            effect_fn: MoveAction::Dismantle,
        }),
{
    Move {
        name: "Dismantle",
        priority: 0,
        description: "An attack that ignores enemy defense",
        effect_fn: MoveAction::Dismantle,
    }
}

/// An attack that burns the target.
#[verifier::allow_in_spec]
pub fn flamethrower() -> Move
    returns
        (Move {
            name: "Flamethrower",
            priority: 0,
            description: "Deals burn damage",
            effect_fn: MoveAction::Flamethrower,
        }),
{
    Move {
        name: "Flamethrower",
        priority: 0,
        description: "Deals burn damage",
        effect_fn: MoveAction::Flamethrower,
    }
}

/// Raises the user's attack and speed.
#[verifier::allow_in_spec]
pub fn focus() -> Move
    returns
        (Move {
            name: "Focus",
            priority: -1i32,
            description: "Raises attack and speed",
            effect_fn: MoveAction::Focus,
        }),
{
    Move {
        name: "Focus",
        priority: -1i32,
        description: "Raises attack and speed",
        effect_fn: MoveAction::Focus,
    }
}

/// Heals the user.
#[verifier::allow_in_spec]
pub fn heal() -> Move
    returns
        (Move { name: "Heal", priority: -1i32, description: "Heals the user", effect_fn: MoveAction::Heal }),
{
    Move { name: "Heal", priority: -1i32, description: "Heals the user", effect_fn: MoveAction::Heal }
}

/// Trades health for a large increase in attack.
#[verifier::allow_in_spec]
pub fn sacrifice() -> Move
    returns
        (Move {
            name: "Sacrifice",
            priority: 0,
            description: "Trades health for a large increase in attack",
            effect_fn: MoveAction::Sacrifice,
        }),
{
    Move {
        name: "Sacrifice",
        priority: 0,
        description: "Trades health for a large increase in attack",
        effect_fn: MoveAction::Sacrifice,
    }
}


/// What a computer-controlled combatant knows of a move when it weighs it:
/// damage, stat changes, side effects and cost to itself. `S` is the stat type.
#[derive(Clone, Debug)]
pub struct AiData<S> {
    pub name: String,
    pub damage: S,
    pub healthinc: S,
    pub speedinc: S,
    pub attackinc: S,
    pub defenseinc: S,
    pub has_effect: bool,
    pub ignores_defense: bool,
    pub self_damage: S,
    pub priority: i32,
}

impl<S: Copy> AiData<S> {
    /// Move data with the given attributes.
    pub fn new(
        name: String,
        damage: S,
        healthinc: S,
        speedinc: S,
        attackinc: S,
        defenseinc: S,
        has_effect: bool,
        ignores_defense: bool,
        self_damage: S,
        priority: i32,
    ) -> (d: AiData<S>)
        ensures
            d == (AiData {
                name,
                damage,
                healthinc,
                speedinc,
                attackinc,
                defenseinc,
                has_effect,
                ignores_defense,
                self_damage,
                priority,
            }),
    {
        AiData {
            name,
            damage,
            healthinc,
            speedinc,
            attackinc,
            defenseinc,
            has_effect,
            ignores_defense,
            self_damage,
            priority,
        }
    }

    /// A copy of this move data, field for field.
    pub fn clone(&self) -> (d: AiData<S>)
        ensures
            d == *self,
    {
        AiData {
            name: self.name.clone(),
            damage: self.damage,
            healthinc: self.healthinc,
            speedinc: self.speedinc,
            attackinc: self.attackinc,
            defenseinc: self.defenseinc,
            has_effect: self.has_effect,
            ignores_defense: self.ignores_defense,
            self_damage: self.self_damage,
            priority: self.priority,
        }
    }
}

} // verus!
