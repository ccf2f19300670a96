use rpg_battle::assets::all_effects::burn;
use rpg_battle::assets::all_moves::{focus, heal, punch};
use rpg_battle::character::Character;
use rpg_battle::enemy::Enemy;
use rpg_battle::effect_list::EffectList;
use std::sync::{Arc, Mutex};

fn hero() -> Character<f32, Mutex<EffectList>> {
    Character::new(
        true, "Hero".to_string(), 5.0, 4.0, 3.0, 20.0, 20.0, 6.0, 7.0, 8.0, 2, 1.5,
        [Some(Arc::new(punch())), None, None, None], vec![Arc::new(punch())], vec![], None,
        Mutex::new(EffectList::new()),
    )
}

#[test]
fn character_new_and_clone() {
    let h = hero();
    assert!(h.effects.lock().unwrap().effects.is_empty());
    let c = h.clone();
    assert_eq!(c.name, "Hero");
    assert_eq!(c.level, 2);
    assert_eq!(c.max_speed, 8.0);
    assert_eq!(c.known_moves.len(), 1);
    // the copy shares the effect list with the original
    c.effects.lock().unwrap().apply_effect(burn());
    assert!(h.effects.lock().unwrap().has_effect(&burn()));
    h.effects.lock().unwrap().clear_effect(burn());
    assert!(!c.effects.lock().unwrap().has_effect(&burn()));
    assert!(Arc::ptr_eq(&c.effects, &h.effects));
}

#[test]
fn character_copy_keeps_max_attack_and_effects() {
    let mut a = hero();
    a.effects.lock().unwrap().apply_effect(burn());
    let mut b = hero();
    b.name = "Other".to_string();
    b.max_attack = 100.0;
    b.max_health = 50.0;
    b.level = 9;
    a.copy(&b);
    assert_eq!(a.name, "Other");
    assert_eq!(a.level, 9);
    assert_eq!(a.max_health, 50.0);
    assert_eq!(a.max_attack, 6.0);
    assert_eq!(a.effects.lock().unwrap().effects.len(), 1);
    assert!(!Arc::ptr_eq(&a.effects, &b.effects));
}

#[test]
fn enemy_moves() {
    let e: Enemy<f32, Vec<u8>, Mutex<EffectList>> = Enemy {
        alive: true, name: "Slime", attack: 1.0, defense: 1.0, speed: 1.0, health: 10.0,
        max_health: 10.0, max_attack: 1.0, max_defense: 1.0, max_speed: 1.0, level: 1,
        moves: [None, Some(Arc::new(heal())), Some(Arc::new(focus())), None],
        items: vec![], held_item: None, aggression: 0.5, effects: Arc::new(Mutex::new(EffectList::new())),
        ai_data: Arc::new(vec![1]), crit_chance: 0.1,
    };
    let known = e.known_moves();
    assert_eq!(known.len(), 2);
    assert_eq!(known[0].name, "Heal");
    let c = e.clone();
    assert_eq!(c.name, "Slime");
    assert_eq!(c.moves()[2].as_ref().unwrap().name, "Focus");
    assert_eq!(*c.ai_data, vec![1]);
    c.effects.lock().unwrap().apply_effect(burn());
    assert!(e.effects.lock().unwrap().has_effect(&burn()));
    assert!(Arc::ptr_eq(&c.effects, &e.effects));
}
