//! The round structure of a battle. Combatants are numbered with the player
//! team first (`0..n_players`) and the enemy team after it. The caller performs
//! each turn, the end-of-round effects and all stat arithmetic; this state
//! machine decides whose turn comes next, when a round ends and when the battle
//! is over.
use vstd::prelude::*;
use crate::text::str_eq;
use crate::turn_order::{calculate_order, is_index_permutation, is_stable_descending};

verus! {

/// What the caller does next.
#[derive(Clone, Copy, PartialEq, Eq, Structural, Debug)]
pub enum BattleStep {
    /// A new round, numbered `round`, begins.
    RoundStart { round: u32 },
    /// `combatant` takes its turn; the player controls it when it is on the player team.
    Turn { combatant: usize, player_controlled: bool },
    /// Every combatant in the order has had its chance: run the effects, then `finish_round`.
    EndOfRound,
    /// One team has nobody left standing.
    Over,
}

/// The state of a battle between a player team and an enemy team.
pub struct Battle {
    pub n_players: usize,
    pub n_enemies: usize,
    /// Turn order of the current round, as combatant numbers.
    pub order: Vec<usize>,
    pub round: u32,
    /// Position in `order` from which the next turn is looked for.
    pub next: usize,
    /// Whether a round is under way.
    pub in_round: bool,
}

/// Whether some combatant numbered in `from..to` is alive.
pub open spec fn any_alive(alive: Seq<bool>, from: int, to: int) -> bool {
    exists|i: int| from <= i < to && #[trigger] alive[i]
}

/// The first position at or after `p` in `order` whose combatant is alive, or the length of `order`.
pub open spec fn next_alive(order: Seq<usize>, alive: Seq<bool>, p: nat) -> nat
    decreases order.len() - p,
{
    if p >= order.len() {
        order.len()
    } else if alive[order[p as int] as int] {
        p
    } else {
        next_alive(order, alive, p + 1)
    }
}

proof fn lemma_next_alive_bounds(order: Seq<usize>, alive: Seq<bool>, p: nat)
    requires
        p <= order.len(),
    ensures
        p <= next_alive(order, alive, p) <= order.len(),
        next_alive(order, alive, p) < order.len() ==> alive[order[next_alive(order, alive, p) as int] as int],
        forall|q: int| p <= q < next_alive(order, alive, p) ==> !alive[#[trigger] order[q] as int],
    decreases order.len() - p,
{
    if p < order.len() && !alive[order[p as int] as int] {
        lemma_next_alive_bounds(order, alive, p + 1);
    }
}

impl Battle {
    /// The number of combatants on both teams.
    pub open spec fn total(&self) -> nat {
        (self.n_players + self.n_enemies) as nat
    }

    /// The order numbers every combatant and the position lies within it.
    pub open spec fn well_formed(&self) -> bool {
        &&& self.n_players + self.n_enemies <= usize::MAX
        &&& forall|i: int| 0 <= i < self.order@.len() ==> (#[trigger] self.order@[i]) < self.total()
        &&& self.next <= self.order@.len()
    }

    /// Whether both teams still have someone standing.
    pub open spec fn continues(&self, alive: Seq<bool>) -> bool {
        any_alive(alive, 0, self.n_players as int) && any_alive(
            alive,
            self.n_players as int,
            self.total() as int,
        )
    }

    /// A battle before its first round, with no turn order yet.
    pub fn new(n_players: usize, n_enemies: usize) -> (b: Battle)
        requires
            n_players + n_enemies <= usize::MAX,
        ensures
            b.n_players == n_players,
            b.n_enemies == n_enemies,
            b.order@ == Seq::<usize>::empty(),
            b.round == 0,
            b.next == 0,
            !b.in_round,
            b.well_formed(),
    {
        Battle { n_players, n_enemies, order: Vec::new(), round: 0, next: 0, in_round: false }
    }

    /// The combatant at position `index` of the turn order.
    pub fn get_current_combatant(&self, index: usize) -> (c: usize)
        requires
            index < self.order@.len(),
        ensures
            c == self.order@[index as int],
    {
        self.order[index]
    }

    /// Sets the turn order from the combatants' speed keys: fastest first,
    /// ties in combatant order; the position goes back to the start.
    pub fn calculate_order(&mut self, speed_keys: &Vec<u32>)
        requires
            old(self).well_formed(),
            speed_keys@.len() == old(self).total(),
        ensures
            final(self).well_formed(),
            is_index_permutation(final(self).order@, old(self).total()),
            is_stable_descending(final(self).order@, speed_keys@),
            final(self).next == 0,
            final(self).n_players == old(self).n_players,
            final(self).n_enemies == old(self).n_enemies,
            final(self).round == old(self).round,
            final(self).in_round == old(self).in_round,
    {
        self.order = calculate_order(speed_keys);
        self.next = 0;
    }

    /// Closes the current round: a new turn order from the speed keys, and the
    /// round number goes up by one.
    pub fn finish_round(&mut self, speed_keys: &Vec<u32>)
        requires
            old(self).well_formed(),
            speed_keys@.len() == old(self).total(),
            old(self).round < u32::MAX,
        ensures
            final(self).well_formed(),
            is_index_permutation(final(self).order@, old(self).total()),
            is_stable_descending(final(self).order@, speed_keys@),
            final(self).round == old(self).round + 1,
            final(self).next == 0,
            !final(self).in_round,
            final(self).n_players == old(self).n_players,
            final(self).n_enemies == old(self).n_enemies,
    {
        self.calculate_order(speed_keys);
        self.round = self.round + 1;
        self.in_round = false;
    }

    /// The next thing to happen, given which combatants are alive now.
    pub fn next_step(&mut self, alive: &Vec<bool>) -> (step: BattleStep)
        requires
            old(self).well_formed(),
            alive@.len() == old(self).total(),
        ensures
            final(self).well_formed(),
            final(self).n_players == old(self).n_players,
            final(self).n_enemies == old(self).n_enemies,
            final(self).order@ == old(self).order@,
            final(self).round == old(self).round,
            !old(self).in_round && !old(self).continues(alive@) ==> step == BattleStep::Over
                && final(self).next == old(self).next && !final(self).in_round,
            !old(self).in_round && old(self).continues(alive@) ==> step == (BattleStep::RoundStart {
                round: old(self).round,
            }) && final(self).next == old(self).next && final(self).in_round,
            !old(self).in_round ==> (step == BattleStep::Over <==> !((exists|i: int|
                0 <= i < old(self).n_players && #[trigger] alive@[i]) && (exists|j: int|
                old(self).n_players <= j < old(self).total() && #[trigger] alive@[j]))),
            step matches BattleStep::Turn { combatant, player_controlled } ==> {
                &&& old(self).next < final(self).next <= old(self).order@.len()
                &&& combatant == old(self).order@[final(self).next - 1]
                &&& alive@[combatant as int]
                &&& player_controlled == (combatant < old(self).n_players)
                &&& forall|q: int|
                    old(self).next <= q < final(self).next - 1 ==> !alive@[#[trigger] old(
                        self,
                    ).order@[q] as int]
            },
            old(self).in_round && step == BattleStep::EndOfRound ==> forall|q: int|
                old(self).next <= q < old(self).order@.len() ==> !alive@[#[trigger] old(
                    self,
                ).order@[q] as int],
            old(self).in_round ==> final(self).in_round && ({
                let p = next_alive(old(self).order@, alive@, old(self).next as nat);
                if p < old(self).order@.len() {
                    &&& step == (BattleStep::Turn {
                        combatant: old(self).order@[p as int],
                        player_controlled: old(self).order@[p as int] < old(self).n_players,
                    })
                    &&& final(self).next == p + 1
                } else {
                    &&& step == BattleStep::EndOfRound
                    &&& final(self).next == old(self).order@.len()
                }
            }),
    {
        if !self.in_round {
            let n_players = self.n_players;
            let total = self.n_players + self.n_enemies;
            let players_up = any_in(alive, 0, n_players);
            let enemies_up = any_in(alive, n_players, total);
            if players_up && enemies_up {
                self.in_round = true;
                return BattleStep::RoundStart { round: self.round };
            } else {
                return BattleStep::Over;
            }
        }
        let ghost start = self.next as nat;
        proof {
            lemma_next_alive_bounds(self.order@, alive@, start);
        }
        let mut p = self.next;
        while p < self.order.len() && !alive[self.order[p]]
            invariant
                self.well_formed(),
                alive@.len() == self.total(),
                start <= p <= self.order@.len(),
                next_alive(self.order@, alive@, p as nat) == next_alive(self.order@, alive@, start),
            decreases self.order@.len() - p,
        {
            p = p + 1;
        }
        if p < self.order.len() {
            let c = self.order[p];
            self.next = p + 1;
            BattleStep::Turn { combatant: c, player_controlled: c < self.n_players }
        } else {
            self.next = self.order.len();
            BattleStep::EndOfRound
        }
    }
}

/// Whether some entry of `alive` in `from..to` is true.
fn any_in(alive: &Vec<bool>, from: usize, to: usize) -> (r: bool)
    requires
        from <= to <= alive@.len(),
    ensures
        r == any_alive(alive@, from as int, to as int),
{
    let mut i = from;
    while i < to
        invariant
            from <= i <= to <= alive@.len(),
            forall|j: int| from <= j < i ==> !alive@[j],
        decreases to - i,
    {
        if alive[i] {
            return true;
        }
        i = i + 1;
    }
    false
}

/// How a player's choice of target (numbered from 1 in the enemy team) is taken.
#[derive(Clone, Copy, PartialEq, Eq, Structural, Debug)]
pub enum TargetCheck {
    /// The enemy at this index of the enemy team is the target.
    Chosen(usize),
    /// That enemy is already defeated; the player chooses again.
    AlreadyDefeated,
    /// The input is not a number from 1 to the size of the enemy team; the player chooses again.
    Invalid,
}

/// Checks a player's choice of target: `choice` is the number the player
/// entered (`None` when it was not a number) and `enemies_alive` says which
/// enemies are still standing.
pub fn check_target(choice: Option<usize>, enemies_alive: &Vec<bool>) -> (r: TargetCheck)
    ensures
        match choice {
            Some(n) => if 1 <= n <= enemies_alive@.len() {
                if enemies_alive@[n - 1] {
                    r == TargetCheck::Chosen((n - 1) as usize)
                } else {
                    r == TargetCheck::AlreadyDefeated
                }
            } else {
                r == TargetCheck::Invalid
            },
            None => r == TargetCheck::Invalid,
        },
{
    match choice {
        Some(n) => {
            if n >= 1 && n <= enemies_alive.len() {
                if enemies_alive[n - 1] {
                    TargetCheck::Chosen(n - 1)
                } else {
                    TargetCheck::AlreadyDefeated
                }
            } else {
                TargetCheck::Invalid
            }
        },
        None => TargetCheck::Invalid,
    }
}

/// The player an enemy attacks: the first member of the player team still standing.
pub fn pick_target(players_alive: &Vec<bool>) -> (r: Option<usize>)
    ensures
        match r {
            Some(i) => i < players_alive@.len() && players_alive@[i as int] && forall|j: int|
                0 <= j < i ==> !players_alive@[j],
            None => forall|j: int| 0 <= j < players_alive@.len() ==> !players_alive@[j],
        },
{
    let mut i: usize = 0;
    while i < players_alive.len()
        invariant
            i <= players_alive@.len(),
            forall|j: int| 0 <= j < i ==> !players_alive@[j],
        decreases players_alive@.len() - i,
    {
        if players_alive[i] {
            return Some(i);
        }
        i = i + 1;
    }
    None
}

/// The battle goes on exactly while some player and some enemy are standing.
pub proof fn lemma_continues_iff_both_teams_standing(b: Battle, alive: Seq<bool>)
    ensures
        b.continues(alive) <==> ((exists|i: int| 0 <= i < b.n_players && #[trigger] alive[i])
            && (exists|j: int| b.n_players <= j < b.total() && #[trigger] alive[j])),
{
}

/// Within a round no combatant gets two turns: turns are taken at strictly
/// increasing positions of an order that names every combatant once.
pub proof fn lemma_one_turn_per_round(order: Seq<usize>, n: nat, p: int, q: int)
    requires
        is_index_permutation(order, n),
        0 <= p < q < order.len(),
    ensures
        order[p] != order[q],
{
}

/// Finds the combatant called `name` among the combatants' names (player team
/// first, then enemy team): the first one that has it.
pub fn match_combatant(names: &Vec<String>, name: &str) -> (r: Option<usize>)
    ensures
        match r {
            Some(i) => i < names@.len() && names@[i as int]@ == name@ && forall|j: int|
                0 <= j < i ==> names@[j]@ != name@,
            None => forall|j: int| 0 <= j < names@.len() ==> names@[j]@ != name@,
        },
{
    let mut i: usize = 0;
    while i < names.len()
        invariant
            i <= names@.len(),
            forall|j: int| 0 <= j < i ==> names@[j]@ != name@,
        decreases names@.len() - i,
    {
        if str_eq(names[i].as_str(), name) {
            return Some(i);
        }
        i = i + 1;
    }
    None
}

} // verus!
