use rpg_battle::message::{BattleState, CombatantState, Message, MessageKind};
use rpg_battle::receive::{received_bytes, ReceiveError};

#[test]
fn message_text() {
    let k: MessageKind<f32> = MessageKind::Action { name: "Heal".to_string(), user: "Hero".to_string(), target: "Slime".to_string() };
    assert_eq!(k.to_string(), "Action: Hero used Heal on Slime");
    let k: MessageKind<f32> = MessageKind::Event { code: 7 };
    assert_eq!(k.to_string(), "Event: Code 7");
    let k: MessageKind<f32> = MessageKind::Event { code: 255 };
    assert_eq!(k.to_string(), "Event: Code 255");
    let k: MessageKind<f32> = MessageKind::Text { text: "hi".to_string() };
    assert_eq!(k.to_string(), "Text: hi");
    let state: BattleState<f32> = BattleState { player_team: vec![], enemy_team: vec![], round: 0 };
    let k = MessageKind::BattleUpdate { state };
    assert_eq!(k.to_string(), "BattleUpdate");
}

#[test]
fn battle_update_carries_copy() {
    let state = BattleState {
        player_team: vec![CombatantState { name: "Hero".to_string(), health: 12.5f32, is_alive: true }],
        enemy_team: vec![CombatantState { name: "Slime".to_string(), health: 0.0f32, is_alive: false }],
        round: 3,
    };
    let m = Message::new_battle_update(&state);
    match m.kind {
        MessageKind::BattleUpdate { state: s } => {
            assert_eq!(s.round, 3);
            assert_eq!(s.player_team[0].name, "Hero");
            assert_eq!(s.player_team[0].health, 12.5);
            assert!(!s.enemy_team[0].is_alive);
        }
        _ => panic!("expected an update"),
    }
    let m: Message<f32> = Message::new(MessageKind::Event { code: 1 });
    assert!(matches!(m.kind, MessageKind::Event { code: 1 }));
}

#[test]
fn received_bytes_framing() {
    assert_eq!(received_bytes(vec![1, 2, 3, 4], 0), Err(ReceiveError::Disconnected));
    assert_eq!(received_bytes(vec![1, 2, 3, 4], 2), Ok(vec![1, 2]));
    assert_eq!(received_bytes(vec![1, 2], 2), Ok(vec![1, 2]));
}
