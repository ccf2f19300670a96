//! The rules of a turn-based battle game, verified: move and effect data and
//! their text form, the effect list and held-item slot of a combatant, the turn
//! order and round structure of a battle, an enemy's choice of move, and the
//! framing of network messages. Stats are of a type chosen by the game; the
//! library stores and copies them and leaves their arithmetic to the game.
use vstd::prelude::*;

pub mod assets;
pub mod battle;
pub mod character;
pub mod clients;
pub mod effect;
pub mod effect_list;
pub mod enemy;
pub mod item;
pub mod message;
pub mod move_choice;
pub mod move_mod;
pub mod receive;
pub mod shared;
pub mod text;
pub mod turn_order;

verus! {

} // verus!
