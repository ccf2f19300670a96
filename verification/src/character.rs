//! The player's characters. `S` is the type of a stat (the game uses `f32`);
//! this module only stores and copies stats, the caller computes with them.
//! `E` is the effect list a character carries behind a shared handle (the game
//! uses a lock around an `EffectList`): copies of a character share one list.
use std::sync::Arc;
use vstd::prelude::*;
use crate::item::Item;
use crate::move_mod::Move;
use crate::shared::{copy_items, share, share_moves, share_slots};

verus! {

/// A character that the player controls.
pub struct Character<S, E> {
    pub alive: bool,
    pub name: String,
    pub attack: S,
    pub defense: S,
    pub speed: S,
    pub health: S,
    pub max_health: S,
    pub max_attack: S,
    pub max_defense: S,
    pub max_speed: S,
    pub level: i32,
    pub experience: S,
    /// The four moves the character can use in battle.
    pub moves: [Option<Arc<Move>>; 4],
    pub known_moves: Vec<Arc<Move>>,
    pub items: Vec<Item<S>>,
    pub held_item: Option<Item<S>>,
    /// The effects on the character, shared with every copy of it.
    pub effects: Arc<E>,
}

impl<S: Copy, E> Character<S, E> {
    /// `self` holds what `other` holds, field for field.
    pub open spec fn same_as(&self, other: &Character<S, E>) -> bool {
        &&& self.alive == other.alive
        &&& self.name == other.name
        &&& self.attack == other.attack
        &&& self.defense == other.defense
        &&& self.speed == other.speed
        &&& self.health == other.health
        &&& self.max_health == other.max_health
        &&& self.max_attack == other.max_attack
        &&& self.max_defense == other.max_defense
        &&& self.max_speed == other.max_speed
        &&& self.level == other.level
        &&& self.experience == other.experience
        &&& self.moves@ == other.moves@
        &&& self.known_moves@ == other.known_moves@
        &&& self.items@ == other.items@
        &&& self.held_item == other.held_item
        &&& self.effects == other.effects
    }

    /// A character with the given attributes, carrying the effect list `effects`
    /// (a fresh, empty one in the game).
    pub fn new(
        alive: bool,
        name: String,
        attack: S,
        defense: S,
        speed: S,
        health: S,
        max_health: S,
        max_attack: S,
        max_defense: S,
        max_speed: S,
        level: i32,
        experience: S,
        moves: [Option<Arc<Move>>; 4],
        known_moves: Vec<Arc<Move>>,
        items: Vec<Item<S>>,
        held_item: Option<Item<S>>,
        effects: E,
    ) -> (c: Character<S, E>)
        ensures
            c.alive == alive,
            c.name == name,
            c.attack == attack,
            c.defense == defense,
            c.speed == speed,
            c.health == health,
            c.max_health == max_health,
            c.max_attack == max_attack,
            c.max_defense == max_defense,
            c.max_speed == max_speed,
            c.level == level,
            c.experience == experience,
            c.moves == moves,
            c.known_moves == known_moves,
            c.items == items,
            c.held_item == held_item,
            *c.effects == effects,
    {
        Character {
            alive,
            name,
            attack,
            defense,
            speed,
            health,
            max_health,
            max_attack,
            max_defense,
            max_speed,
            level,
            experience,
            moves,
            known_moves,
            items,
            held_item,
            effects: Arc::new(effects),
        }
    }

    /// A copy of this character that shares its effect list: the copy holds
    /// another handle on the same list, so an effect applied to or cleared from
    /// one is seen by the other.
    pub fn clone(&self) -> (c: Character<S, E>)
        ensures
            c.same_as(self),
    {
        Character {
            alive: self.alive,
            name: self.name.clone(),
            attack: self.attack,
            defense: self.defense,
            speed: self.speed,
            health: self.health,
            max_health: self.max_health,
            max_attack: self.max_attack,
            max_defense: self.max_defense,
            max_speed: self.max_speed,
            level: self.level,
            experience: self.experience,
            known_moves: share_moves(&self.known_moves),
            moves: share_slots(&self.moves),
            items: copy_items(&self.items),
            held_item: self.held_item,
            effects: share(&self.effects),
        }
    }

    /// Takes over `other`'s attributes, except its max attack, max defense,
    /// max speed and effect list, which stay as they were.
    pub fn copy(&mut self, other: &Character<S, E>)
        ensures
            final(self).same_as(
                &Character {
                    max_attack: old(self).max_attack,
                    max_defense: old(self).max_defense,
                    max_speed: old(self).max_speed,
                    effects: old(self).effects,
                    ..*other
                },
            ),
    {
        self.alive = other.alive;
        self.name = other.name.clone();
        self.attack = other.attack;
        self.defense = other.defense;
        self.speed = other.speed;
        self.health = other.health;
        self.max_health = other.max_health;
        self.level = other.level;
        self.experience = other.experience;
        self.known_moves = share_moves(&other.known_moves);
        self.moves = share_slots(&other.moves);
        self.items = copy_items(&other.items);
        self.held_item = other.held_item;
    }
}

/// Two copies agree exactly when every field agrees: the name, every stat,
/// the level, the moves, the items, the held item and the shared effect list.
pub proof fn lemma_character_copy_agrees_on_every_field<S: Copy, E>(a: Character<S, E>, b: Character<S, E>)
    ensures
        a.same_as(&b) ==> a.alive == b.alive,
        a.same_as(&b) ==> a.name == b.name,
        a.same_as(&b) ==> a.attack == b.attack,
        a.same_as(&b) ==> a.defense == b.defense,
        a.same_as(&b) ==> a.speed == b.speed,
        a.same_as(&b) ==> a.health == b.health,
        a.same_as(&b) ==> a.max_health == b.max_health,
        a.same_as(&b) ==> a.max_attack == b.max_attack,
        a.same_as(&b) ==> a.max_defense == b.max_defense,
        a.same_as(&b) ==> a.max_speed == b.max_speed,
        a.same_as(&b) ==> a.level == b.level,
        a.same_as(&b) ==> a.experience == b.experience,
        a.same_as(&b) ==> a.moves@ == b.moves@,
        a.same_as(&b) ==> a.known_moves@ == b.known_moves@,
        a.same_as(&b) ==> a.items@ == b.items@,
        a.same_as(&b) ==> a.held_item == b.held_item,
        a.same_as(&b) ==> a.effects == b.effects,
{
}

} // verus!
