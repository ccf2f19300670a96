use rpg_battle::battle::{check_target, match_combatant, Battle, BattleStep, TargetCheck};
use rpg_battle::move_choice::pick_move_index;
use rpg_battle::turn_order::calculate_order;

#[test]
fn order_is_fastest_first_and_stable() {
    assert_eq!(calculate_order(&vec![5, 9, 5, 1]), vec![1, 0, 2, 3]);
    assert_eq!(calculate_order(&vec![]), Vec::<usize>::new());
    assert_eq!(calculate_order(&vec![3, 3, 3]), vec![0, 1, 2]);
    assert_eq!(calculate_order(&vec![1, 2, 3, 4]), vec![3, 2, 1, 0]);
}

#[test]
fn battle_rounds() {
    // players 0,1 ; enemies 2
    let mut b = Battle::new(2, 1);
    b.calculate_order(&vec![1, 3, 2]);
    assert_eq!(b.order, vec![1, 2, 0]);
    assert_eq!(b.get_current_combatant(1), 2);
    let alive = vec![true, true, true];
    assert_eq!(b.next_step(&alive), BattleStep::RoundStart { round: 0 });
    assert_eq!(b.next_step(&alive), BattleStep::Turn { combatant: 1, player_controlled: true });
    assert_eq!(b.next_step(&alive), BattleStep::Turn { combatant: 2, player_controlled: false });
    // player 0 fell during the round: it is skipped
    let alive = vec![false, true, true];
    assert_eq!(b.next_step(&alive), BattleStep::EndOfRound);
    b.finish_round(&vec![5, 3, 2]);
    assert_eq!(b.round, 1);
    assert_eq!(b.order, vec![0, 1, 2]);
    assert_eq!(b.next_step(&alive), BattleStep::RoundStart { round: 1 });
    assert_eq!(b.next_step(&alive), BattleStep::Turn { combatant: 1, player_controlled: true });
    let alive = vec![false, true, false];
    assert_eq!(b.next_step(&alive), BattleStep::EndOfRound);
    b.finish_round(&vec![5, 3, 2]);
    assert_eq!(b.next_step(&alive), BattleStep::Over);
}

#[test]
fn battle_over_when_players_down() {
    let mut b = Battle::new(1, 2);
    b.calculate_order(&vec![0, 0, 0]);
    assert_eq!(b.next_step(&vec![false, true, true]), BattleStep::Over);
}

#[test]
fn combatant_found_by_name() {
    let names = vec!["Hero".to_string(), "Slime".to_string(), "Hero".to_string()];
    assert_eq!(match_combatant(&names, "Hero"), Some(0));
    assert_eq!(match_combatant(&names, "Slime"), Some(1));
    assert_eq!(match_combatant(&names, "Bat"), None);
}

#[test]
fn best_move_is_first_highest_above_floor() {
    assert_eq!(pick_move_index(&vec![Some(3), Some(7), None, Some(7)], 0), Some(1));
    assert_eq!(pick_move_index(&vec![None, None], 0), None);
    assert_eq!(pick_move_index(&vec![Some(5), Some(5)], 5), None);
    assert_eq!(pick_move_index(&vec![Some(5), Some(6)], 5), Some(1));
    assert_eq!(pick_move_index(&vec![], 0), None);
}

#[test]
fn target_choice_checks() {
    let alive = vec![true, false, true];
    assert_eq!(check_target(Some(1), &alive), TargetCheck::Chosen(0));
    assert_eq!(check_target(Some(3), &alive), TargetCheck::Chosen(2));
    assert_eq!(check_target(Some(2), &alive), TargetCheck::AlreadyDefeated);
    assert_eq!(check_target(Some(0), &alive), TargetCheck::Invalid);
    assert_eq!(check_target(Some(4), &alive), TargetCheck::Invalid);
    assert_eq!(check_target(None, &alive), TargetCheck::Invalid);
}

#[test]
fn enemy_targets_first_standing_player() {
    assert_eq!(rpg_battle::battle::pick_target(&vec![false, true, true]), Some(1));
    assert_eq!(rpg_battle::battle::pick_target(&vec![true]), Some(0));
    assert_eq!(rpg_battle::battle::pick_target(&vec![false, false]), None);
    assert_eq!(rpg_battle::battle::pick_target(&vec![]), None);
}
