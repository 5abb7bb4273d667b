//! Append-only typed storage, addressed by opaque handles.

use vstd::prelude::*;
use vstd::std_specs::iter::IteratorSpec;

verus! {

/// A handle to one value stored in an [`Array<T>`].
///
/// The type parameter only tags the kind of component the handle belongs to, so
/// that an id minted by one arena kind cannot be used with another. Two ids are
/// equal, and ordered, by their index alone.
#[derive(Debug)]
pub struct Id<T> {
    index: u32,
    tag: core::marker::PhantomData<T>,
}

impl<T> Id<T> {
    /// The position of the value in its arena.
    pub closed spec fn index(self) -> nat {
        self.index as nat
    }
}

impl<T> Clone for Id<T> {
    fn clone(&self) -> (r: Self)
        ensures
            r == *self,
    {
        Id { index: self.index, tag: core::marker::PhantomData }
    }
}

impl<T> Copy for Id<T> {}

impl<T> PartialEq for Id<T> {
    fn eq(&self, other: &Id<T>) -> (r: bool) {
        self.index == other.index
    }
}

impl<T> vstd::std_specs::cmp::PartialEqSpecImpl for Id<T> {
    open spec fn obeys_eq_spec() -> bool {
        true
    }

    open spec fn eq_spec(&self, other: &Id<T>) -> bool {
        self.index() == other.index()
    }
}

impl<T> Eq for Id<T> {}

impl<T> PartialOrd for Id<T> {
    fn partial_cmp(&self, other: &Id<T>) -> (r: Option<core::cmp::Ordering>) {
        if self.index < other.index {
            Some(core::cmp::Ordering::Less)
        } else if self.index > other.index {
            Some(core::cmp::Ordering::Greater)
        } else {
            Some(core::cmp::Ordering::Equal)
        }
    }
}

impl<T> vstd::std_specs::cmp::PartialOrdSpecImpl for Id<T> {
    open spec fn obeys_partial_cmp_spec() -> bool {
        true
    }

    open spec fn partial_cmp_spec(&self, other: &Id<T>) -> Option<core::cmp::Ordering> {
        if self.index() < other.index() {
            Some(core::cmp::Ordering::Less)
        } else if self.index() > other.index() {
            Some(core::cmp::Ordering::Greater)
        } else {
            Some(core::cmp::Ordering::Equal)
        }
    }
}

/// The failure of adding to an arena that already holds one value for every
/// possible id. The value that could not be stored is handed back.
pub struct ArenaOverflow<T> {
    pub value: T,
}

/// The largest number of values an arena can hold: one for each `u32` index.
pub open spec fn capacity() -> nat {
    u32::MAX as nat + 1
}

/// Adding `values` one by one to an empty arena: when `arenas[k]` holds what
/// the arena holds before the call that adds `values[k]`, and `ids[k]` is what
/// that call returns, as `add` states, then once every call is made each
/// `ids[k]` is valid and `get` on it yields `values[k]`.
pub proof fn lemma_adds_then_get<T>(values: Seq<T>, arenas: Seq<Seq<T>>, ids: Seq<Id<T>>)
    requires
        arenas.len() == values.len() + 1,
        ids.len() == values.len(),
        arenas[0] == Seq::<T>::empty(),
        forall|k: int|
            0 <= k < values.len() ==> #[trigger] ids[k].index() == arenas[k].len()
                && arenas[k + 1] == arenas[k].push(values[k]),
    ensures
        forall|k: int|
            0 <= k < values.len() ==> #[trigger] ids[k].index() < arenas.last().len()
                && arenas.last()[ids[k].index() as int] == values[k],
{
    let n = values.len() as int;
    assert forall|k: int| 0 <= k <= n implies #[trigger] arenas[k] == values.take(k) by {
        lemma_prefix_added(values, arenas, ids, k);
    }
    assert(arenas[n] == values.take(n));
    assert(values.take(n) =~= values);
    assert forall|k: int| 0 <= k < n implies #[trigger] ids[k].index() < arenas.last().len()
        && arenas.last()[ids[k].index() as int] == values[k] by {
        assert(arenas[k] == values.take(k));
    }
}

proof fn lemma_prefix_added<T>(values: Seq<T>, arenas: Seq<Seq<T>>, ids: Seq<Id<T>>, k: int)
    requires
        arenas.len() == values.len() + 1,
        ids.len() == values.len(),
        arenas[0] == Seq::<T>::empty(),
        forall|k: int|
            0 <= k < values.len() ==> #[trigger] ids[k].index() == arenas[k].len()
                && arenas[k + 1] == arenas[k].push(values[k]),
        0 <= k <= values.len(),
    ensures
        arenas[k] == values.take(k),
    decreases k,
{
    if k == 0 {
        assert(values.take(0) =~= Seq::<T>::empty());
    } else {
        lemma_prefix_added(values, arenas, ids, k - 1);
        assert(ids[k - 1].index() == arenas[k - 1].len());
        assert(values.take(k) =~= values.take(k - 1).push(values[k - 1]));
    }
}

/// An append-only, growable sequence of values of one kind, in insertion order.
///
/// Values are never removed, so an id stays valid for as long as the arena lives.
#[derive(Clone, Debug)]
pub struct Array<T> {
    items: Vec<T>,
}

impl<T> View for Array<T> {
    type V = Seq<T>;

    closed spec fn view(&self) -> Seq<T> {
        self.items@
    }
}

impl<T> Array<T> {
    /// Whether `id` names a value stored in this arena.
    pub open spec fn has(self, id: Id<T>) -> bool {
        id.index() < self@.len()
    }

    /// An empty arena.
    pub fn new() -> (r: Array<T>)
        ensures
            r@ == Seq::<T>::empty(),
    {
        Array { items: Vec::new() }
    }

    /// The number of values stored.
    pub fn len(&self) -> (r: usize)
        ensures
            r == self@.len(),
    {
        self.items.len()
    }

    /// Whether the arena has room for another value.
    pub fn has_room(&self) -> (r: bool)
        ensures
            r == (self@.len() < capacity()),
    {
        self.items.len() <= u32::MAX as usize
    }

    /// Appends `value`; the returned id is the number of values stored before.
    pub fn add(&mut self, value: T) -> (id: Id<T>)
        requires
            old(self)@.len() < capacity(),
        ensures
            id.index() == old(self)@.len(),
            final(self)@ == old(self)@.push(value),
    {
        let index = self.items.len() as u32;
        self.items.push(value);
        Id { index, tag: core::marker::PhantomData }
    }

    /// Appends `value` if there is room, and hands it back otherwise.
    pub fn try_add(&mut self, value: T) -> (r: Result<Id<T>, ArenaOverflow<T>>)
        ensures
            old(self)@.len() < capacity() ==> (r matches Ok(id) && id.index() == old(self)@.len()
                && final(self)@ == old(self)@.push(value)),
            old(self)@.len() >= capacity() ==> (r matches Err(e) && e.value == value
                && final(self)@ == old(self)@),
    {
        if self.has_room() {
            Ok(self.add(value))
        } else {
            Err(ArenaOverflow { value })
        }
    }

    /// The value that `id` names.
    pub fn get(&self, id: Id<T>) -> (r: &T)
        requires
            self.has(id),
        ensures
            *r == self@[id.index() as int],
    {
        &self.items[id.index as usize]
    }

    /// The value that `id` names, to change in place; the id stays the same.
    pub fn get_mut(&mut self, id: Id<T>) -> (r: &mut T)
        requires
            old(self).has(id),
        ensures
            *r == old(self)@[id.index() as int],
            final(self)@ == old(self)@.update(id.index() as int, *final(r)),
    {
        &mut self.items[id.index as usize]
    }

    /// The id of the first value, in insertion order, on which `pred` holds.
    pub fn find_id<F: Fn(&T) -> bool>(&self, pred: F) -> (r: Option<Id<T>>)
        requires
            self@.len() <= capacity(),
            forall|i: int| 0 <= i < self@.len() ==> call_requires(pred, (&self@[i],)),
        ensures
            match r {
                Some(id) => {
                    &&& self.has(id)
                    &&& call_ensures(pred, (&self@[id.index() as int],), true)
                    &&& forall|i: int|
                        0 <= i < id.index() ==> call_ensures(pred, (&self@[i],), false)
                },
                None => forall|i: int|
                    0 <= i < self@.len() ==> call_ensures(pred, (&self@[i],), false),
            },
    {
        let n = self.items.len();
        let mut i: usize = 0;
        while i < n
            invariant
                n == self@.len(),
                n <= capacity(),
                0 <= i <= n,
                forall|j: int| 0 <= j < self@.len() ==> call_requires(pred, (&self@[j],)),
                forall|j: int| 0 <= j < i ==> call_ensures(pred, (&self@[j],), false),
            decreases n - i,
        {
            if pred(&self.items[i]) {
                return Some(Id { index: i as u32, tag: core::marker::PhantomData });
            }
            i = i + 1;
        }
        None
    }

    /// The stored values, in insertion order.
    pub fn iter(&self) -> (r: std::slice::Iter<'_, T>)
        ensures
            r.remaining() == self@.as_ref(),
    {
        self.items.iter()
    }

    /// The stored values, in insertion order, to change in place. Their number
    /// stays the same, and so do their ids.
    pub fn mut_iter(&mut self) -> (r: &mut [T])
        ensures
            r@ == old(self)@,
            final(self)@ == final(r)@,
    {
        self.items.as_mut_slice()
    }
}

} // verus!
