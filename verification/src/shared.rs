//! Copies of the shared handles and lists that combatants hold.
use std::sync::Arc;
use vstd::prelude::*;
use crate::item::Item;
use crate::move_mod::Move;

verus! {

/// Another handle on the value that `a` points to. Trusted: the body calls
/// `Arc::clone`, which returns a new pointer to the same allocation, so the
/// contract claims that the result is the value `a` points to.
#[verifier::external_body]
pub(crate) fn share<T>(a: &Arc<T>) -> (r: Arc<T>)
    ensures
        r == *a,
{
    Arc::clone(a)
}

/// A list of handles on the same moves, in the same order.
pub(crate) fn share_moves(moves: &Vec<Arc<Move>>) -> (r: Vec<Arc<Move>>)
    ensures
        r@ == moves@,
{
    let mut out: Vec<Arc<Move>> = Vec::new();
    let mut i: usize = 0;
    while i < moves.len()
        invariant
            i <= moves@.len(),
            out@ == moves@.take(i as int),
        decreases moves@.len() - i,
    {
        out.push(share(&moves[i]));
        proof {
            assert(moves@.take(i + 1) =~= moves@.take(i as int).push(moves@[i as int]));
        }
        i = i + 1;
    }
    proof {
        assert(moves@.take(moves@.len() as int) =~= moves@);
    }
    out
}

/// A copy of a combatant's four move slots.
pub(crate) fn share_slots(slots: &[Option<Arc<Move>>; 4]) -> (r: [Option<Arc<Move>>; 4])
    ensures
        r@ == slots@,
{
    let a = share_slot(&slots[0]);
    let b = share_slot(&slots[1]);
    let c = share_slot(&slots[2]);
    let d = share_slot(&slots[3]);
    let r = [a, b, c, d];
    proof {
        assert(r@ =~= slots@);
    }
    r
}

fn share_slot(slot: &Option<Arc<Move>>) -> (r: Option<Arc<Move>>)
    ensures
        r == *slot,
{
    match slot {
        Some(m) => Some(share(m)),
        None => None,
    }
}

/// A copy of a list of items, in the same order.
pub(crate) fn copy_items<S: Copy>(items: &Vec<Item<S>>) -> (r: Vec<Item<S>>)
    ensures
        r@ == items@,
{
    let mut out: Vec<Item<S>> = Vec::new();
    let mut i: usize = 0;
    while i < items.len()
        invariant
            i <= items@.len(),
            out@ == items@.take(i as int),
        decreases items@.len() - i,
    {
        out.push(items[i].clone());
        proof {
            assert(items@.take(i + 1) =~= items@.take(i as int).push(items@[i as int]));
        }
        i = i + 1;
    }
    proof {
        assert(items@.take(items@.len() as int) =~= items@);
    }
    out
}

} // verus!
