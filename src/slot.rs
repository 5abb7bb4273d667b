//! One component slot of an entity, together with the arena of its kind.
//!
//! Every schema's `Adder`, `Getter` and `Changer` reach their components through
//! these operations, one slot at a time.

use vstd::prelude::*;

use crate::arena::{capacity, Array, Id};

verus! {

/// What a slot of an entity refers to in the values of its kind.
pub open spec fn resolve<T>(slot: Option<Id<T>>, items: Seq<T>) -> Option<T> {
    match slot {
        Some(id) => Some(items[id.index() as int]),
        None => None,
    }
}

/// Whether a slot is empty or names a value among `items`.
pub open spec fn valid_in<T>(slot: Option<Id<T>>, items: Seq<T>) -> bool {
    slot matches Some(id) ==> id.index() < items.len()
}

/// Recycling a component: writing `value` through the id in `slot`, as
/// `lookup_mut` and `Array::get_mut` do, keeps that id valid, makes it name
/// `value`, leaves every other stored value as it was and mints no new id.
pub proof fn lemma_overwrite_in_place<T>(slot: Option<Id<T>>, items: Seq<T>, value: T)
    requires
        slot is Some,
        valid_in(slot, items),
    ensures
        ({
            let index = slot->0.index() as int;
            let after = items.update(index, value);
            &&& after.len() == items.len()
            &&& valid_in(slot, after)
            &&& resolve(slot, after) == Some(value)
            &&& forall|i: int| 0 <= i < items.len() && i != index ==> after[i] == items[i]
        }),
{
}

/// Stores `value` in `arena` and records its id in the empty `slot`.
///
/// A slot is filled at most once: the call is only allowed while it is empty.
pub fn attach<T>(slot: &mut Option<Id<T>>, arena: &mut Array<T>, value: T)
    requires
        *old(slot) is None,
        old(arena)@.len() < capacity(),
    ensures
        *final(slot) matches Some(id) && id.index() == old(arena)@.len(),
        final(arena)@ == old(arena)@.push(value),
{
    let id = arena.add(value);
    *slot = Some(id);
}

/// The value that `slot` refers to, if any.
pub fn lookup<'a, T>(slot: &Option<Id<T>>, arena: &'a Array<T>) -> (r: Option<&'a T>)
    requires
        valid_in(*slot, arena@),
    ensures
        match r {
            Some(v) => resolve(*slot, arena@) == Some(*v),
            None => slot is None,
        },
{
    match slot {
        Some(id) => Some(arena.get(*id)),
        None => None,
    }
}

/// The value that `slot` refers to, if any, to change in place.
pub fn lookup_mut<'a, T>(slot: &Option<Id<T>>, arena: &'a mut Array<T>) -> (r: Option<&'a mut T>)
    requires
        valid_in(*slot, old(arena)@),
    ensures
        match r {
            Some(v) => slot matches Some(id) && *v == old(arena)@[id.index() as int]
                && final(arena)@ == old(arena)@.update(id.index() as int, *final(v)),
            None => slot is None && final(arena)@ == old(arena)@,
        },
{
    match slot {
        Some(id) => Some(arena.get_mut(*id)),
        None => None,
    }
}

} // verus!
