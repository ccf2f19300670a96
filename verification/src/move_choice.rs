//! How a computer-controlled combatant settles on a move once each of its move
//! slots has been scored: the highest score above the starting bar wins, and
//! among equal scores the earliest slot.
use vstd::prelude::*;

verus! {

/// The score of slot `i` as an integer, or `-1` when the slot takes no part
/// (empty, unknown to the move data, or too costly for the user to survive).
pub open spec fn score_at(scores: Seq<Option<u32>>, i: int) -> int {
    match scores[i] {
        Some(k) => k as int,
        None => -1,
    }
}

/// Whether some slot scores above `floor`.
pub open spec fn has_candidate(scores: Seq<Option<u32>>, floor: u32) -> bool {
    exists|i: int| 0 <= i < scores.len() && score_at(scores, i) > floor
}

/// `i` is the earliest slot with the highest score, and that score is above `floor`.
pub open spec fn is_best_slot(scores: Seq<Option<u32>>, floor: u32, i: int) -> bool {
    &&& 0 <= i < scores.len()
    &&& score_at(scores, i) > floor
    &&& forall|j: int| 0 <= j < scores.len() ==> score_at(scores, j) <= score_at(scores, i)
    &&& forall|j: int| 0 <= j < i ==> score_at(scores, j) < score_at(scores, i)
}

/// The slot whose move a computer-controlled combatant uses. `scores[i]` is the
/// order-preserving integer image of slot `i`'s score, `None` where the slot is
/// passed over, and `floor` that of the score every winner must beat. `None`
/// when no slot beats it.
pub fn pick_move_index(scores: &Vec<Option<u32>>, floor: u32) -> (r: Option<usize>)
    ensures
        r is None <==> !has_candidate(scores@, floor),
        r matches Some(i) ==> is_best_slot(scores@, floor, i as int),
{
    let mut best: Option<usize> = None;
    let mut best_key: u32 = floor;
    let mut i: usize = 0;
    while i < scores.len()
        invariant
            i <= scores@.len(),
            best_key >= floor,
            forall|j: int| 0 <= j < i ==> score_at(scores@, j) <= best_key,
            best is None ==> best_key == floor,
            best matches Some(b) ==> {
                &&& b < i
                &&& score_at(scores@, b as int) == best_key
                &&& best_key > floor
                &&& forall|j: int| 0 <= j < b ==> score_at(scores@, j) < best_key
            },
        decreases scores@.len() - i,
    {
        match scores[i] {
            Some(k) => {
                if k > best_key {
                    best = Some(i);
                    best_key = k;
                }
            },
            None => {},
        }
        i = i + 1;
    }
    proof {
        if best is None {
            assert forall|j: int| 0 <= j < scores@.len() implies !(score_at(scores@, j) > floor) by {}
        } else {
            let b = best->0 as int;
            assert(score_at(scores@, b) > floor);
        }
    }
    best
}

/// At most one slot is the chosen one: the earliest slot with the highest
/// score is unique.
pub proof fn lemma_best_slot_unique(scores: Seq<Option<u32>>, floor: u32, i: int, j: int)
    requires
        is_best_slot(scores, floor, i),
        is_best_slot(scores, floor, j),
    ensures
        i == j,
{
    if i < j {
        assert(score_at(scores, i) < score_at(scores, j));
        assert(score_at(scores, i) <= score_at(scores, j) && score_at(scores, j) <= score_at(scores, i));
    } else if j < i {
        assert(score_at(scores, j) < score_at(scores, i));
    }
}

/// The chosen slot scores at least as much as every slot, strictly more than
/// every earlier slot, and more than the bar.
pub proof fn lemma_best_slot_beats_others(scores: Seq<Option<u32>>, floor: u32, i: int, j: int)
    requires
        is_best_slot(scores, floor, i),
        0 <= j < scores.len(),
        scores[j] is Some,
    ensures
        scores[i] matches Some(best) && best > floor && scores[j]->0 <= best && (j < i
            ==> scores[j]->0 < best),
{
    assert(score_at(scores, j) <= score_at(scores, i));
    if j < i {
        assert(score_at(scores, j) < score_at(scores, i));
    }
}

} // verus!
