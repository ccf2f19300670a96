use rpg_battle::clients::{client_action, ClientAction, ClientRegistry};
use rpg_battle::message::{BattleState, MessageKind};

#[test]
fn clients_get_fresh_numbers() {
    let mut r: ClientRegistry<&str> = ClientRegistry::new();
    assert_eq!(r.register("a"), 0);
    assert_eq!(r.register("b"), 1);
    assert_eq!(r.get(0), Some(&"a"));
    assert_eq!(r.get(1), Some(&"b"));
    r.remove(0);
    assert_eq!(r.get(0), None);
    assert_eq!(r.register("c"), 2);
    assert_eq!(r.get(2), Some(&"c"));
    assert_eq!(r.get(1), Some(&"b"));
    r.remove(7);
    assert_eq!(r.clients.len(), 2);
}

#[test]
fn client_reads_decide_actions() {
    let action: MessageKind<f32> = MessageKind::Action { name: "Heal".to_string(), user: "a".to_string(), target: "b".to_string() };
    assert_eq!(client_action(Some(&action)), ClientAction::Perform);
    let event: MessageKind<f32> = MessageKind::Event { code: 9 };
    assert_eq!(client_action(Some(&event)), ClientAction::ShowEvent { code: 9 });
    let text: MessageKind<f32> = MessageKind::Text { text: "hi".to_string() };
    assert_eq!(client_action(Some(&text)), ClientAction::ShowText);
    let update: MessageKind<f32> = MessageKind::BattleUpdate { state: BattleState { player_team: vec![], enemy_team: vec![], round: 0 } };
    assert_eq!(client_action(Some(&update)), ClientAction::ShowUpdate);
    assert_eq!(client_action::<f32>(None), ClientAction::Disconnect);
}
