pub mod all_effects;
pub mod all_moves;
