use rpg_battle::assets::all_effects::{burn, poison};
use rpg_battle::effect::{Effect, EffectAction, EffectStep};
use rpg_battle::effect_list::EffectList;

#[test]
fn new_effect_is_not_applied() {
    let e = Effect::new("Stun", "Cannot act", 2, EffectAction::Burn);
    assert_eq!(e.name, "Stun");
    assert_eq!(e.description, "Cannot act");
    assert_eq!(e.duration, 2);
    assert_eq!(e.effect_fn, EffectAction::Burn);
    assert!(!e.applied);
    let c = e.clone();
    assert_eq!(c.name, e.name);
    assert_eq!(c.duration, e.duration);
}

#[test]
fn apply_effect_spends_a_turn() {
    let mut e = poison();
    assert_eq!(e.apply_effect(), EffectAction::Poison);
    assert_eq!(e.duration, 4);
}

#[test]
fn poison_damages_for_five_turns_then_recovers() {
    let mut p = poison();
    for left in (0..5).rev() {
        assert_eq!(p.advance(), EffectStep::Damaged { lowers_defense: true });
        assert_eq!(p.duration, left);
    }
    assert_eq!(p.advance(), EffectStep::Recovered);
    assert_eq!(p.advance(), EffectStep::Recovered);
    assert_eq!(p.duration, 0);
}

#[test]
fn burn_never_lowers_defense() {
    let mut b = burn();
    for _ in 0..5 {
        assert_eq!(b.advance(), EffectStep::Damaged { lowers_defense: false });
    }
    assert_eq!(b.advance(), EffectStep::Recovered);
}

#[test]
fn applied_poison_does_not_lower_defense() {
    let mut p = poison();
    p.applied = true;
    assert_eq!(p.advance(), EffectStep::Damaged { lowers_defense: false });
}

#[test]
fn effect_list_apply_has_clear() {
    let mut l = EffectList::new();
    assert!(!l.has_effect(&burn()));
    l.apply_effect(burn());
    l.apply_effect(poison());
    l.apply_effect(burn());
    assert!(l.has_effect(&burn()));
    assert!(l.has_effect(&poison()));
    l.clear_effect(burn());
    assert!(!l.has_effect(&burn()));
    assert!(l.has_effect(&poison()));
    assert_eq!(l.effects.len(), 1);
    l.clear_effect(burn());
    assert_eq!(l.effects.len(), 1);
    l.clear_effect(poison());
    assert!(l.effects.is_empty());
}

#[test]
fn clear_keeps_order_of_others() {
    let mut l = EffectList::new();
    let a = Effect::new("A", "", 1, EffectAction::Burn);
    let b = Effect::new("B", "", 2, EffectAction::Burn);
    let c = Effect::new("C", "", 3, EffectAction::Poison);
    l.apply_effect(a);
    l.apply_effect(b);
    l.apply_effect(c);
    l.apply_effect(b);
    l.clear_effect(b);
    let names: Vec<&str> = l.get_effect_list().iter().map(|e| e.name).collect();
    assert_eq!(names, vec!["A", "C"]);
}

#[test]
fn effect_list_copy() {
    let mut l = EffectList::new();
    l.apply_effect(poison());
    let list = l.get_effect_list();
    assert_eq!(list.len(), 1);
    assert_eq!(list[0].name, "Poison");
}
