//! Messages exchanged between the battle host and its clients, and the
//! snapshot of a battle that an update carries. `H` is the type of a
//! combatant's health; the wire encoding of these types is left to the caller.
use vstd::prelude::*;
use crate::text::{nat_text, push_nat_text};

verus! {

/// What a client sees of one combatant.
#[derive(Clone, Debug)]
pub struct CombatantState<H> {
    pub name: String,
    pub health: H,
    pub is_alive: bool,
}

/// What a client sees of a battle.
#[derive(Clone, Debug)]
pub struct BattleState<H> {
    pub player_team: Vec<CombatantState<H>>,
    pub enemy_team: Vec<CombatantState<H>>,
    pub round: u32,
}

/// The kinds of message.
#[derive(Clone, Debug)]
pub enum MessageKind<H> {
    /// `user` used the move `name` on `target`.
    Action { name: String, user: String, target: String },
    Event { code: u8 },
    Text { text: String },
    BattleUpdate { state: BattleState<H> },
}

/// A message.
#[derive(Clone, Debug)]
pub struct Message<H> {
    pub kind: MessageKind<H>,
}

impl<H: Copy> CombatantState<H> {
    /// A copy of this state, field for field.
    pub fn clone(&self) -> (r: CombatantState<H>)
        ensures
            r == *self,
    {
        CombatantState { name: self.name.clone(), health: self.health, is_alive: self.is_alive }
    }
}

fn clone_team<H: Copy>(team: &Vec<CombatantState<H>>) -> (r: Vec<CombatantState<H>>)
    ensures
        r@ == team@,
{
    let mut out: Vec<CombatantState<H>> = Vec::new();
    let mut i: usize = 0;
    while i < team.len()
        invariant
            i <= team@.len(),
            out@ == team@.take(i as int),
        decreases team@.len() - i,
    {
        out.push(team[i].clone());
        proof {
            assert(team@.take(i + 1) =~= team@.take(i as int).push(team@[i as int]));
        }
        i = i + 1;
    }
    proof {
        assert(team@.take(team@.len() as int) =~= team@);
    }
    out
}

impl<H: Copy> BattleState<H> {
    /// A copy of this snapshot.
    pub fn clone(&self) -> (r: BattleState<H>)
        ensures
            r.player_team@ == self.player_team@,
            r.enemy_team@ == self.enemy_team@,
            r.round == self.round,
    {
        BattleState {
            player_team: clone_team(&self.player_team),
            enemy_team: clone_team(&self.enemy_team),
            round: self.round,
        }
    }
}

/// The text that describes a message of each kind.
pub open spec fn kind_text<H>(kind: MessageKind<H>) -> Seq<char> {
    match kind {
        MessageKind::Action { name, user, target } => "Action: "@ + user@ + " used "@ + name@
            + " on "@ + target@,
        MessageKind::Event { code } => "Event: Code "@ + nat_text(code as nat),
        MessageKind::Text { text } => "Text: "@ + text@,
        MessageKind::BattleUpdate { .. } => "BattleUpdate"@,
    }
}

impl<H> MessageKind<H> {
    /// The text that describes this message, as the game prints it.
    pub fn to_string(&self) -> (s: String)
        ensures
            s@ == kind_text(*self),
    {
        match self {
            MessageKind::Action { name, user, target } => {
                let mut s = String::from_str("Action: ");
                s.append(user.as_str());
                s.append(" used ");
                s.append(name.as_str());
                s.append(" on ");
                s.append(target.as_str());
                s
            },
            MessageKind::Event { code } => {
                let mut s = String::from_str("Event: Code ");
                push_nat_text(&mut s, *code as u32);
                s
            },
            MessageKind::Text { text } => {
                let mut s = String::from_str("Text: ");
                s.append(text.as_str());
                s
            },
            MessageKind::BattleUpdate { .. } => String::from_str("BattleUpdate"),
        }
    }
}

impl<H: Copy> Message<H> {
    /// A message of the given kind.
    pub fn new(kind: MessageKind<H>) -> (m: Message<H>)
        ensures
            m.kind == kind,
    {
        Message { kind }
    }

    /// A message that carries a copy of `state`.
    pub fn new_battle_update(state: &BattleState<H>) -> (m: Message<H>)
        ensures
            m.kind matches MessageKind::BattleUpdate { state: s } && s.player_team@
                == state.player_team@ && s.enemy_team@ == state.enemy_team@ && s.round
                == state.round,
    {
        Message { kind: MessageKind::BattleUpdate { state: state.clone() } }
    }
}

} // verus!
