use rpg_battle::item::{EquipOutcome, Item};

fn sword() -> Item<f32> {
    Item { name: "Sword", healthinc: 0.0, attackinc: 5.0, speedinc: 0.0, defenseinc: 0.0, speeddec: 1.0, defensedec: 0.0, attackdec: 0.0, healthdec: 0.0 }
}

fn shield() -> Item<f32> {
    Item { name: "Shield", healthinc: 0.0, attackinc: 0.0, speedinc: 0.0, defenseinc: 4.0, speeddec: 0.0, defensedec: 0.0, attackdec: 0.0, healthdec: 0.0 }
}

#[test]
fn equip_on_empty_slot() {
    let mut held: Option<Item<f32>> = None;
    let out = sword().equip(&mut held);
    assert!(matches!(out, EquipOutcome::Equipped));
    assert_eq!(held.unwrap().name, "Sword");
}

#[test]
fn equip_same_item_twice() {
    let mut held = None;
    sword().equip(&mut held);
    let out = sword().equip(&mut held);
    assert!(matches!(out, EquipOutcome::AlreadyEquipped));
    assert_eq!(held.unwrap().name, "Sword");
}

#[test]
fn equip_other_item_swaps() {
    let mut held = None;
    sword().equip(&mut held);
    let out = shield().equip(&mut held);
    match out {
        EquipOutcome::Swapped { previous } => assert_eq!(previous.name, "Sword"),
        _ => panic!("expected a swap"),
    }
    assert_eq!(held.unwrap().name, "Shield");
}

#[test]
fn unequip_held_and_other() {
    let mut held = None;
    sword().equip(&mut held);
    assert!(!shield().unequip(&mut held));
    assert_eq!(held.unwrap().name, "Sword");
    assert!(sword().unequip(&mut held));
    assert!(held.is_none());
    assert!(!sword().unequip(&mut held));
}

#[test]
fn items_equal_by_name() {
    let mut a = sword();
    a.attackinc = 99.0;
    assert!(a == sword());
    assert!(sword() != shield());
    let c = sword().clone();
    assert_eq!(c.attackinc, 5.0);
    assert_eq!(c.speeddec, 1.0);
}
