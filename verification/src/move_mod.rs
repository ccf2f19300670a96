//! Moves: their data, the `name|priority` text form that crosses the wire,
//! and the dictionary by which a received move is found again.
use std::sync::Arc;
use vstd::prelude::*;
use crate::assets::all_moves;
use crate::shared::share;
use crate::text::{decimal_value, lemma_int_text_value, first_segment, first_segment_of, int_text, push_int_text, str_eq};

verus! {

/// Which procedure a move runs on its user and its target.
#[derive(Clone, Copy, PartialEq, Eq, Structural, Debug)]
pub enum MoveAction {
    Punch,
    Dismantle,
    Flamethrower,
    Focus,
    Heal,
    Sacrifice,
}

/// A move that a combatant can use.
#[derive(Clone, Copy, Debug)]
pub struct Move {
    pub name: &'static str,
    pub description: &'static str,
    pub priority: i32,
    pub effect_fn: MoveAction,
}

/// The text form of a move: its name, a `|`, and its priority in decimal.
pub open spec fn serialized(m: Move) -> Seq<char> {
    m.name@ + seq!['|'] + int_text(m.priority as int)
}

/// The move that the dictionary holds under `name`, if any.
pub open spec fn dictionary_entry(name: Seq<char>) -> Option<Move> {
    if name == "Dismantle"@ {
        Some(all_moves::dismantle())
    } else if name == "Flamethrower"@ {
        Some(all_moves::flamethrower())
    } else if name == "Heal"@ {
        Some(all_moves::heal())
    } else if name == "Sacrifice"@ {
        Some(all_moves::sacrifice())
    } else if name == "Focus"@ {
        Some(all_moves::focus())
    } else {
        None
    }
}

/// The moves held in the filled slots of `slots`, in slot order.
pub open spec fn filled_slots(slots: Seq<Option<Arc<Move>>>) -> Seq<Arc<Move>>
    decreases slots.len(),
{
    if slots.len() == 0 {
        Seq::empty()
    } else {
        let rest = filled_slots(slots.drop_last());
        match slots.last() {
            Some(m) => rest.push(m),
            None => rest,
        }
    }
}

impl Move {
    /// A new shared move with the default description.
    pub fn new(name: &'static str, priority: i32, effect_fn: MoveAction) -> (m: Arc<Move>)
        ensures
            m.name == name,
            m.description@ == "No description"@,
            m.priority == priority,
            m.effect_fn == effect_fn,
    {
        Arc::new(Move { name, description: "No description", priority, effect_fn })
    }

    /// Adds a copy of this move at the end of `known_moves`.
    pub fn learn_move(&self, known_moves: &mut Vec<Arc<Move>>)
        ensures
            final(known_moves)@.len() == old(known_moves)@.len() + 1,
            forall|i: int|
                0 <= i < old(known_moves)@.len() ==> final(known_moves)@[i] == old(
                    known_moves,
                )@[i],
            *final(known_moves)@[old(known_moves)@.len() as int] == *self,
    {
        known_moves.push(Arc::new(self.clone()));
    }

    /// A copy of this move, field for field.
    pub fn clone(&self) -> (m: Move)
        ensures
            m == *self,
    {
        Move {
            name: self.name,
            priority: self.priority,
            description: self.description,
            effect_fn: self.effect_fn,
        }
    }

    /// The text form of this move: `name|priority`.
    pub fn serialize(&self) -> (s: String)
        ensures
            s@ == serialized(*self),
    {
        let mut s = String::from_str(self.name);
        proof {
            reveal_strlit("|");
        }
        s.append("|");
        push_int_text(&mut s, self.priority);
        s
    }

    /// The dictionary move named by the text before the first `|` of
    /// `serialized`: another handle on the dictionary's own entry.
    pub fn deserialize(serialized: &str, dictionary: &MoveDictionary) -> (m: Arc<Move>)
        requires
            dictionary.well_formed(),
            dictionary_entry(first_segment(serialized@)) is Some,
        ensures
            Some(*m) == dictionary_entry(first_segment(serialized@)),
    {
        let name = first_segment_of(serialized);
        dictionary.get(name.as_str()).unwrap()
    }
}

/// The moves that can be sent by name, each held once behind a shared handle;
/// a lookup hands out another handle on the same entry. The game builds one
/// dictionary and shares it.
pub struct MoveDictionary {
    pub dismantle: Arc<Move>,
    pub flamethrower: Arc<Move>,
    pub heal: Arc<Move>,
    pub sacrifice: Arc<Move>,
    pub focus: Arc<Move>,
}

impl MoveDictionary {
    /// Each entry holds the move of its name.
    pub open spec fn well_formed(&self) -> bool {
        &&& *self.dismantle == all_moves::dismantle()
        &&& *self.flamethrower == all_moves::flamethrower()
        &&& *self.heal == all_moves::heal()
        &&& *self.sacrifice == all_moves::sacrifice()
        &&& *self.focus == all_moves::focus()
    }

    /// The dictionary of the game's moves.
    pub fn new() -> (d: MoveDictionary)
        ensures
            d.well_formed(),
    {
        MoveDictionary {
            dismantle: Arc::new(all_moves::dismantle()),
            flamethrower: Arc::new(all_moves::flamethrower()),
            heal: Arc::new(all_moves::heal()),
            sacrifice: Arc::new(all_moves::sacrifice()),
            focus: Arc::new(all_moves::focus()),
        }
    }

    /// Another handle on the entry named `name`, if there is one.
    pub fn get(&self, name: &str) -> (r: Option<Arc<Move>>)
        requires
            self.well_formed(),
        ensures
            match r {
                Some(m) => dictionary_entry(name@) == Some(*m),
                None => dictionary_entry(name@) is None,
            },
    {
        if str_eq(name, "Dismantle") {
            Some(share(&self.dismantle))
        } else if str_eq(name, "Flamethrower") {
            Some(share(&self.flamethrower))
        } else if str_eq(name, "Heal") {
            Some(share(&self.heal))
        } else if str_eq(name, "Sacrifice") {
            Some(share(&self.sacrifice))
        } else if str_eq(name, "Focus") {
            Some(share(&self.focus))
        } else {
            None
        }
    }
}

/// The moves in the filled slots of `moves`, in slot order.
pub fn slot_moves(moves: &[Option<Arc<Move>>; 4]) -> (r: Vec<Arc<Move>>)
    ensures
        r@ == filled_slots(moves@),
        forall|i: int| 0 <= i < 4 ==> (#[trigger] moves@[i] matches Some(m) ==> r@.contains(m)),
        r@.len() == moves@.filter(|o: Option<Arc<Move>>| o is Some).len(),
{
    proof {
        lemma_filled_slots_lists_every_move(moves@);
    }
    let mut out: Vec<Arc<Move>> = Vec::new();
    let mut i: usize = 0;
    proof {
        assert(moves@.take(0) =~= Seq::<Option<Arc<Move>>>::empty());
    }
    while i < 4
        invariant
            i <= 4,
            moves@.len() == 4,
            out@ == filled_slots(moves@.take(i as int)),
        decreases 4 - i,
    {
        match &moves[i] {
            Some(m) => {
                out.push(share(m));
            },
            None => {},
        }
        proof {
            assert(moves@.take(i + 1).drop_last() =~= moves@.take(i as int));
            assert(moves@.take(i + 1).last() == moves@[i as int]);
        }
        i = i + 1;
    }
    proof {
        assert(moves@.take(4) =~= moves@);
    }
    out
}

/// A dictionary move sent as text is found again from that text: the name in
/// front of the first `|` of its text form is the name it is held under.
pub proof fn lemma_serialize_roundtrip(name: Seq<char>)
    requires
        dictionary_entry(name) is Some,
    ensures
        dictionary_entry(first_segment(serialized(dictionary_entry(name)->0))) == dictionary_entry(
            name,
        ),
{
    let m = dictionary_entry(name)->0;
    reveal_strlit("Dismantle");
    reveal_strlit("Flamethrower");
    reveal_strlit("Heal");
    reveal_strlit("Sacrifice");
    reveal_strlit("Focus");
    assert(m.name@ == name);
    assert(!m.name@.contains('|'));
    crate::text::lemma_first_segment_of_joined(m.name@, int_text(m.priority as int));
}

/// The moves of two runs of slots, one after the other, are the moves of the
/// first run followed by those of the second.
pub proof fn lemma_filled_slots_append(a: Seq<Option<Arc<Move>>>, b: Seq<Option<Arc<Move>>>)
    ensures
        filled_slots(a + b) == filled_slots(a) + filled_slots(b),
    decreases b.len(),
{
    if b.len() == 0 {
        assert(a + b =~= a);
        assert(filled_slots(a) + filled_slots(b) =~= filled_slots(a));
    } else {
        lemma_filled_slots_append(a, b.drop_last());
        assert((a + b).drop_last() =~= a + b.drop_last());
        assert((a + b).last() == b.last());
        match b.last() {
            Some(m) => {
                assert(filled_slots(a) + filled_slots(b.drop_last()).push(m) =~= (filled_slots(a)
                    + filled_slots(b.drop_last())).push(m));
            },
            None => {},
        }
    }
}

/// A filled slot lists its move, an empty slot lists nothing.
pub proof fn lemma_filled_slots_single(slot: Option<Arc<Move>>)
    ensures
        slot matches Some(m) ==> filled_slots(seq![slot]) == seq![m],
        slot is None ==> filled_slots(seq![slot]) == Seq::<Arc<Move>>::empty(),
{
    let e = Seq::<Option<Arc<Move>>>::empty();
    assert(filled_slots(e) == Seq::<Arc<Move>>::empty());
    assert(seq![slot].drop_last() =~= e);
    assert(seq![slot].last() == slot);
    assert(seq![slot].len() == 1);
    if let Some(m) = slot {
        assert(filled_slots(seq![slot]) =~= seq![m]);
    }
}

/// The move of every filled slot is listed, and one move is listed per filled slot.
pub proof fn lemma_filled_slots_lists_every_move(slots: Seq<Option<Arc<Move>>>)
    ensures
        forall|i: int|
            0 <= i < slots.len() ==> (#[trigger] slots[i] matches Some(m) ==> filled_slots(
                slots,
            ).contains(m)),
        filled_slots(slots).len() == slots.filter(|o: Option<Arc<Move>>| o is Some).len(),
    decreases slots.len(),
{
    reveal(Seq::filter);
    if slots.len() > 0 {
        let rest = slots.drop_last();
        lemma_filled_slots_lists_every_move(rest);
        assert forall|i: int|
            0 <= i < slots.len() implies (#[trigger] slots[i] matches Some(m) ==> filled_slots(
                slots,
            ).contains(m)) by {
            if i < slots.len() - 1 {
                assert(slots[i] == rest[i]);
                if let Some(m) = slots[i] {
                    assert(filled_slots(rest).contains(m));
                    let k = choose|k: int| 0 <= k < filled_slots(rest).len() && filled_slots(rest)[k] == m;
                    match slots.last() {
                        Some(x) => {
                            assert(filled_slots(slots)[k] == m);
                        },
                        None => {},
                    }
                }
            } else {
                if let Some(m) = slots[i] {
                    assert(slots.last() == slots[i]);
                    assert(filled_slots(slots)[filled_slots(rest).len() as int] == m);
                }
            }
        }
    }
}

/// The text form of a move whose name holds no `|` splits back into the move's
/// name, a `|`, and the priority: a `-` then the digits of its magnitude when it
/// is negative, its digits otherwise.
pub proof fn lemma_serialized_splits(m: Move)
    requires
        !m.name@.contains('|'),
    ensures
        first_segment(serialized(m)) == m.name@,
        serialized(m)[m.name@.len() as int] == '|',
        ({
            let rest = serialized(m).skip(m.name@.len() + 1int);
            &&& m.priority < 0 ==> rest[0] == '-' && decimal_value(rest.drop_first()) == -m.priority
            &&& m.priority >= 0 ==> decimal_value(rest) == m.priority
        }),
{
    crate::text::lemma_first_segment_of_joined(m.name@, int_text(m.priority as int));
    assert(serialized(m).skip(m.name@.len() + 1int) =~= int_text(m.priority as int));
    lemma_int_text_value(m.priority as int);
}

} // verus!
