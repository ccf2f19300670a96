//! Computer-controlled opponents. `S` is the type of a stat (the game uses
//! `f32`), `D` that of the move data the opponent scores its moves by, and `E`
//! the effect list it carries behind a shared handle (the game uses a lock
//! around an `EffectList`): copies of an opponent share one list.
use std::sync::Arc;
use vstd::prelude::*;
use crate::item::Item;
use crate::move_mod::{filled_slots, slot_moves, Move};
use crate::shared::{copy_items, share, share_slots};

verus! {

/// An opponent.
pub struct Enemy<S, D, E> {
    pub alive: bool,
    pub name: &'static str,
    pub attack: S,
    pub defense: S,
    pub speed: S,
    pub health: S,
    pub max_health: S,
    pub max_attack: S,
    pub max_defense: S,
    pub max_speed: S,
    pub level: i32,
    pub moves: [Option<Arc<Move>>; 4],
    pub items: Vec<Item<S>>,
    pub held_item: Option<Item<S>>,
    /// How readily the opponent attacks rather than defends, from 0 to 1.
    pub aggression: S,
    /// The effects on the opponent, shared with every copy of it.
    pub effects: Arc<E>,
    /// What the opponent knows of each move, by move name.
    pub ai_data: Arc<D>,
    pub crit_chance: S,
}

impl<S: Copy, D, E> Enemy<S, D, E> {
    /// `self` holds what `other` holds, field for field.
    pub open spec fn same_as(&self, other: &Enemy<S, D, E>) -> bool {
        &&& self.alive == other.alive
        &&& self.name == other.name
        &&& self.attack == other.attack
        &&& self.defense == other.defense
        &&& self.speed == other.speed
        &&& self.health == other.health
        &&& self.max_health == other.max_health
        &&& self.max_attack == other.max_attack
        &&& self.max_defense == other.max_defense
        &&& self.max_speed == other.max_speed
        &&& self.level == other.level
        &&& self.moves@ == other.moves@
        &&& self.items@ == other.items@
        &&& self.held_item == other.held_item
        &&& self.aggression == other.aggression
        &&& self.effects == other.effects
        &&& self.ai_data == other.ai_data
        &&& self.crit_chance == other.crit_chance
    }

    /// A copy of this opponent that shares its effect list and move data: the
    /// copy holds other handles on the same list and data, so an effect applied
    /// to or cleared from one is seen by the other.
    pub fn clone(&self) -> (e: Enemy<S, D, E>)
        ensures
            e.same_as(self),
    {
        Enemy {
            alive: self.alive,
            name: self.name,
            attack: self.attack,
            defense: self.defense,
            speed: self.speed,
            health: self.health,
            max_health: self.max_health,
            max_attack: self.max_attack,
            max_defense: self.max_defense,
            max_speed: self.max_speed,
            level: self.level,
            moves: share_slots(&self.moves),
            items: copy_items(&self.items),
            held_item: self.held_item,
            aggression: self.aggression,
            effects: share(&self.effects),
            ai_data: share(&self.ai_data),
            crit_chance: self.crit_chance,
        }
    }

    /// The moves in the opponent's filled slots, in slot order.
    pub fn known_moves(&self) -> (r: Vec<Arc<Move>>)
        ensures
            r@ == filled_slots(self.moves@),
            forall|i: int|
                0 <= i < 4 ==> (#[trigger] self.moves@[i] matches Some(m) ==> r@.contains(m)),
            r@.len() == self.moves@.filter(|o: Option<Arc<Move>>| o is Some).len(),
    {
        slot_moves(&self.moves)
    }

    /// A copy of the opponent's four move slots.
    pub fn moves(&self) -> (r: [Option<Arc<Move>>; 4])
        ensures
            r@ == self.moves@,
    {
        share_slots(&self.moves)
    }
}

/// Two copies agree exactly when every field agrees: the name, every stat,
/// the level, the moves, the items, the held item and the shared effect list.
pub proof fn lemma_enemy_copy_agrees_on_every_field<S: Copy, D, E>(
    a: Enemy<S, D, E>,
    b: Enemy<S, D, E>,
)
    ensures
        a.same_as(&b) ==> a.alive == b.alive,
        a.same_as(&b) ==> a.name == b.name,
        a.same_as(&b) ==> a.attack == b.attack,
        a.same_as(&b) ==> a.defense == b.defense,
        a.same_as(&b) ==> a.speed == b.speed,
        a.same_as(&b) ==> a.health == b.health,
        a.same_as(&b) ==> a.max_health == b.max_health,
        a.same_as(&b) ==> a.max_attack == b.max_attack,
        a.same_as(&b) ==> a.max_defense == b.max_defense,
        a.same_as(&b) ==> a.max_speed == b.max_speed,
        a.same_as(&b) ==> a.level == b.level,
        a.same_as(&b) ==> a.moves@ == b.moves@,
        a.same_as(&b) ==> a.items@ == b.items@,
        a.same_as(&b) ==> a.held_item == b.held_item,
        a.same_as(&b) ==> a.aggression == b.aggression,
        a.same_as(&b) ==> a.effects == b.effects,
        a.same_as(&b) ==> a.ai_data == b.ai_data,
        a.same_as(&b) ==> a.crit_chance == b.crit_chance,
{
}

} // verus!
