//! Items and the held-item slot of a combatant. An item's stat amounts are of
//! the game's stat type `S`; this module never computes with them: equipping
//! tells the caller which item's amounts to add or take away.
use vstd::prelude::*;
use crate::text::str_eq;

verus! {

/// An item that a combatant can hold. Two items are the same item when their names are.
#[derive(Clone, Copy, Debug)]
pub struct Item<S> {
    pub name: &'static str,
    pub healthinc: S,
    pub attackinc: S,
    pub speedinc: S,
    pub defenseinc: S,
    pub speeddec: S,
    pub defensedec: S,
    pub attackdec: S,
    pub healthdec: S,
}

/// What equipping an item did to the held-item slot, and so which stat
/// amounts the caller adds to the holder (`+item`) or takes away (`-item`).
#[derive(Clone, Copy, Debug)]
pub enum EquipOutcome<S> {
    /// The slot was empty and now holds the item: `+item`.
    Equipped,
    /// The slot already held an item of this name; nothing changed.
    AlreadyEquipped,
    /// The slot held `previous`, which was taken off for the item: `-previous`, then `+item`.
    Swapped { previous: Item<S> },
}

/// The held slot and the outcome after equipping `item` when the slot holds `held`.
pub open spec fn equip_spec<S>(held: Option<Item<S>>, item: Item<S>) -> (Option<Item<S>>, EquipOutcome<S>) {
    match held {
        None => (Some(item), EquipOutcome::Equipped),
        Some(h) => if h.name@ == item.name@ {
            (held, EquipOutcome::AlreadyEquipped)
        } else {
            (Some(item), EquipOutcome::Swapped { previous: h })
        },
    }
}

/// The held slot after unequipping `item` when it holds `held`, and whether
/// the item was taken off.
pub open spec fn unequip_spec<S>(held: Option<Item<S>>, item: Item<S>) -> (Option<Item<S>>, bool) {
    match held {
        Some(h) => if h.name@ == item.name@ {
            (None, true)
        } else {
            (held, false)
        },
        None => (held, false),
    }
}

impl<S: Copy> Item<S> {
    /// A copy of this item, field for field.
    pub fn clone(&self) -> (r: Item<S>)
        ensures
            r == *self,
    {
        Item {
            name: self.name,
            healthinc: self.healthinc,
            attackinc: self.attackinc,
            speedinc: self.speedinc,
            defenseinc: self.defenseinc,
            speeddec: self.speeddec,
            defensedec: self.defensedec,
            attackdec: self.attackdec,
            healthdec: self.healthdec,
        }
    }

    /// Puts this item in the held slot. An empty slot takes it; a slot that holds
    /// an item of the same name is left alone; a slot that holds another item has
    /// that item taken off first.
    pub fn equip(&self, held_item: &mut Option<Item<S>>) -> (outcome: EquipOutcome<S>)
        ensures
            (*final(held_item), outcome) == equip_spec(*old(held_item), *self),
            *old(held_item) is None ==> *final(held_item) == Some(*self) && outcome
                is Equipped,
            *old(held_item) matches Some(h) ==> (h.name@ == self.name@ ==> *final(held_item)
                == *old(held_item) && outcome is AlreadyEquipped),
            *old(held_item) matches Some(h) ==> (h.name@ != self.name@ ==> *final(held_item)
                == Some(*self) && outcome == (EquipOutcome::Swapped { previous: h })),
    {
        let current = *held_item;
        match current {
            None => {
                *held_item = Some(self.clone());
                EquipOutcome::Equipped
            },
            Some(h) => {
                if h == *self {
                    EquipOutcome::AlreadyEquipped
                } else {
                    let old_item = h.clone();
                    old_item.unequip(held_item);
                    *held_item = Some(self.clone());
                    EquipOutcome::Swapped { previous: old_item }
                }
            },
        }
    }

    /// Takes this item out of the held slot when the slot holds it; returns
    /// whether it did, in which case the caller takes the item's amounts away.
    pub fn unequip(&self, held_item: &mut Option<Item<S>>) -> (taken_off: bool)
        ensures
            (*final(held_item), taken_off) == unequip_spec(*old(held_item), *self),
            *old(held_item) matches Some(h) && h.name@ == self.name@ ==> *final(held_item)
                is None && taken_off,
            !(*old(held_item) matches Some(h) && h.name@ == self.name@) ==> *final(held_item)
                == *old(held_item) && !taken_off,
    {
        let current = *held_item;
        match current {
            Some(h) => {
                if h == *self {
                    *held_item = None;
                    true
                } else {
                    false
                }
            },
            None => false,
        }
    }
}

impl<S> PartialEq for Item<S> {
    fn eq(&self, other: &Self) -> (r: bool) {
        str_eq(self.name, other.name)
    }
}

impl<S> vstd::std_specs::cmp::PartialEqSpecImpl for Item<S> {
    open spec fn obeys_eq_spec() -> bool {
        true
    }

    open spec fn eq_spec(&self, other: &Self) -> bool {
        self.name@ == other.name@
    }
}

/// Equipping an item on an empty slot and then unequipping it leaves the slot
/// empty, and the item's amounts are added once and taken away once.
pub proof fn lemma_unequip_undoes_equip<S>(item: Item<S>)
    ensures
        equip_spec(None, item) == (Some(item), EquipOutcome::<S>::Equipped),
        unequip_spec(equip_spec(None, item).0, item) == (None::<Item<S>>, true),
{
}

/// Equipping an item that is already held changes nothing.
pub proof fn lemma_equip_idempotent<S>(held: Option<Item<S>>, item: Item<S>)
    ensures
        equip_spec(equip_spec(held, item).0, item) == (
            equip_spec(held, item).0,
            EquipOutcome::<S>::AlreadyEquipped,
        ),
{
}

/// After equipping, the slot holds an item of the equipped item's name.
pub proof fn lemma_equip_holds_item<S>(held: Option<Item<S>>, item: Item<S>)
    ensures
        equip_spec(held, item).0 matches Some(h) && h.name@ == item.name@,
{
}

/// Unequipping an item that is not the one held changes nothing.
pub proof fn lemma_unequip_other_keeps_slot<S>(held: Option<Item<S>>, item: Item<S>)
    requires
        !(held matches Some(h) && h.name@ == item.name@),
    ensures
        unequip_spec(held, item) == (held, false),
{
}

/// After equipping, the slot holds exactly the equipped item, all its amounts
/// included, unless an item of that name was already held, which then stays.
pub proof fn lemma_equip_places_item<S>(held: Option<Item<S>>, item: Item<S>)
    ensures
        !(held matches Some(h) && h.name@ == item.name@) ==> equip_spec(held, item).0 == Some(
            item,
        ),
        (held matches Some(h) && h.name@ == item.name@) ==> equip_spec(held, item).0 == held,
{
}

/// An item reported as taken off is exactly the item the slot held before,
/// all its amounts included; and a held item of another name is always reported.
pub proof fn lemma_swap_reports_held_item<S>(held: Option<Item<S>>, item: Item<S>)
    ensures
        equip_spec(held, item).1 matches EquipOutcome::Swapped { previous } ==> held == Some(
            previous,
        ),
        held matches Some(h) ==> (h.name@ != item.name@ ==> equip_spec(held, item).1 == (
        EquipOutcome::Swapped { previous: h })),
{
}

/// Equipping an item of another name acts as unequipping the held item and
/// then equipping into the emptied slot.
pub proof fn lemma_swap_is_unequip_then_equip<S>(h: Item<S>, item: Item<S>)
    requires
        h.name@ != item.name@,
    ensures
        unequip_spec(Some(h), h) == (None::<Item<S>>, true),
        equip_spec(Some(h), item).0 == equip_spec(unequip_spec(Some(h), h).0, item).0,
{
}

/// Swapping an item in and then swapping the old one back restores the slot,
/// and the second swap reports the first item as taken off.
pub proof fn lemma_swap_back_restores<S>(h: Item<S>, item: Item<S>)
    requires
        h.name@ != item.name@,
    ensures
        equip_spec(equip_spec(Some(h), item).0, h) == (
            Some(h),
            EquipOutcome::Swapped { previous: item },
        ),
{
}

} // verus!
