use rpg_battle::assets::all_moves::{dismantle, flamethrower, focus, heal, punch, sacrifice, AiData};
use rpg_battle::move_mod::{slot_moves, Move, MoveAction, MoveDictionary};
use std::sync::Arc;

fn same_move(a: &Move, b: &Move) -> bool {
    a.name == b.name
        && a.description == b.description
        && a.priority == b.priority
        && a.effect_fn == b.effect_fn
}

#[test]
fn serialize_writes_name_bar_priority() {
    assert_eq!(heal().serialize(), "Heal|-1");
    assert_eq!(dismantle().serialize(), "Dismantle|0");
    assert_eq!(focus().serialize(), "Focus|-1");
    let m = Move::new("Big", i32::MIN, MoveAction::Punch);
    assert_eq!(m.serialize(), "Big|-2147483648");
    let m = Move::new("Up", 123, MoveAction::Punch);
    assert_eq!(m.serialize(), "Up|123");
}

#[test]
fn deserialize_finds_dictionary_move() {
    let d = MoveDictionary::new();
    let m = Move::deserialize("Heal|-1", &d);
    assert!(Arc::ptr_eq(&m, &d.heal));
    assert!(same_move(&m, &heal()));
    let m = Move::deserialize("Flamethrower", &d);
    assert!(same_move(&m, &flamethrower()));
    let m = Move::deserialize("Sacrifice|anything|else", &d);
    assert!(same_move(&m, &sacrifice()));
}

#[test]
fn serialize_then_deserialize_roundtrip() {
    let d = MoveDictionary::new();
    for m in [dismantle(), flamethrower(), heal(), sacrifice(), focus()] {
        let back = Move::deserialize(&m.serialize(), &d);
        assert!(same_move(&back, &m));
    }
}

#[test]
fn dictionary_holds_five_moves() {
    let d = MoveDictionary::new();
    assert!(d.get("Dismantle").is_some());
    assert!(d.get("Flamethrower").is_some());
    assert!(d.get("Heal").is_some());
    assert!(d.get("Sacrifice").is_some());
    assert!(d.get("Focus").is_some());
    assert!(d.get("Punch").is_none());
    assert!(d.get("heal").is_none());
    assert!(d.get("").is_none());
    assert!(Arc::ptr_eq(&d.get("Focus").unwrap(), &d.focus));
    assert!(Arc::ptr_eq(&d.get("Dismantle").unwrap(), &d.get("Dismantle").unwrap()));
}

#[test]
fn new_move_has_default_description() {
    let m = Move::new("Kick", 1, MoveAction::Punch);
    assert_eq!(m.name, "Kick");
    assert_eq!(m.description, "No description");
    assert_eq!(m.priority, 1);
    assert_eq!(m.effect_fn, MoveAction::Punch);
}

#[test]
fn learn_move_appends_copy() {
    let mut known: Vec<Arc<Move>> = vec![Arc::new(punch())];
    heal().learn_move(&mut known);
    assert_eq!(known.len(), 2);
    assert!(same_move(&known[0], &punch()));
    assert!(same_move(&known[1], &heal()));
}

#[test]
fn clone_copies_fields() {
    let m = sacrifice();
    assert!(same_move(&m.clone(), &m));
}

#[test]
fn slot_moves_skips_empty_slots() {
    let slots = [None, Some(Arc::new(heal())), None, Some(Arc::new(focus()))];
    let moves = slot_moves(&slots);
    assert_eq!(moves.len(), 2);
    assert_eq!(moves[0].name, "Heal");
    assert_eq!(moves[1].name, "Focus");
    let empty: [Option<Arc<Move>>; 4] = [None, None, None, None];
    assert!(slot_moves(&empty).is_empty());
}

#[test]
fn ai_data_new_and_clone() {
    let d = AiData::new("Heal".to_string(), 0.0f32, 15.0, 0.0, 0.0, 0.0, false, false, 0.0, -1);
    let c = d.clone();
    assert_eq!(c.name, "Heal");
    assert_eq!(c.healthinc, 15.0);
    assert_eq!(c.priority, -1);
    assert!(!c.has_effect);
}
