//! Systems, the units of per-tick behaviour, and the world that runs them.

use vstd::prelude::*;

verus! {

/// A unit of per-tick behaviour over components of type `C` and entities of
/// type `E`, given a caller's parameter bundle of type `P`.
///
/// A system's effects show only in the parameters, components and entities it
/// was handed; it returns nothing.
pub trait System<P, C, E> {
    /// Whether one call of `process` on this system may lead from the state
    /// `before` to the state `after`, each given as (parameters, components,
    /// entities). Unless an implementation states its effect here, any outcome
    /// is allowed.
    open spec fn processes(&self, before: (P, C, Seq<E>), after: (P, C, Seq<E>)) -> bool {
        true
    }

    /// Runs once: reads and writes components through the ids that entities
    /// hold, and may add entities or replace the whole list.
    fn process(&mut self, params: &mut P, data: &mut C, entities: &mut Vec<E>)
        ensures
            old(self).processes(
                (*old(params), *old(data), old(entities)@),
                (*final(params), *final(data), final(entities)@),
            ),
    ;
}

/// Whether `states` is a run of `systems`: one state more than there are
/// systems, with the i-th system leading from the i-th state to the next.
pub open spec fn is_run<P, C, E, S: System<P, C, E> + ?Sized>(
    systems: Seq<Box<S>>,
    states: Seq<(P, C, Seq<E>)>,
) -> bool {
    &&& states.len() == systems.len() + 1
    &&& forall|i: int|
        0 <= i < systems.len() ==> #[trigger] systems[i].processes(states[i], states[i + 1])
}

/// Whether one tick of `systems`, each run once in order, may lead from
/// `before` to `after`.
pub open spec fn ticks<P, C, E, S: System<P, C, E> + ?Sized>(
    systems: Seq<Box<S>>,
    before: (P, C, Seq<E>),
    after: (P, C, Seq<E>),
) -> bool {
    exists|states: Seq<(P, C, Seq<E>)>|
        #[trigger] is_run(systems, states) && states[0] == before && states.last() == after
}

/// A tick of no system leaves the state as it is.
pub proof fn lemma_tick_of_none<P, C, E, S: System<P, C, E> + ?Sized>(
    before: (P, C, Seq<E>),
    after: (P, C, Seq<E>),
)
    ensures
        ticks(Seq::<Box<S>>::empty(), before, after) <==> after == before,
{
    let systems = Seq::<Box<S>>::empty();
    if after == before {
        assert(is_run(systems, seq![before]));
    }
}

/// A tick of `systems` followed by `last` leads from `before` to `after` exactly
/// when a tick of `systems` leads to some state from which `last` leads to `after`.
pub proof fn lemma_tick_then<P, C, E, S: System<P, C, E> + ?Sized>(
    systems: Seq<Box<S>>,
    last: Box<S>,
    before: (P, C, Seq<E>),
    after: (P, C, Seq<E>),
)
    ensures
        ticks(systems.push(last), before, after) <==> exists|mid: (P, C, Seq<E>)|
            ticks(systems, before, mid) && #[trigger] last.processes(mid, after),
{
    let all = systems.push(last);
    let n = systems.len() as int;
    if ticks(all, before, after) {
        let states = choose|states: Seq<(P, C, Seq<E>)>|
            #[trigger] is_run(all, states) && states[0] == before && states.last() == after;
        let prefix = states.drop_last();
        assert forall|i: int| 0 <= i < systems.len() implies #[trigger] systems[i].processes(
            prefix[i],
            prefix[i + 1],
        ) by {
            assert(all[i] == systems[i]);
            assert(all[i].processes(states[i], states[i + 1]));
        }
        assert(is_run(systems, prefix));
        assert(all[n] == last);
        assert(last.processes(states[n], states[n + 1]));
        assert(ticks(systems, before, prefix.last()));
    }
    if exists|mid: (P, C, Seq<E>)| ticks(systems, before, mid) && #[trigger] last.processes(mid, after) {
        let mid = choose|mid: (P, C, Seq<E>)|
            ticks(systems, before, mid) && #[trigger] last.processes(mid, after);
        let states = choose|states: Seq<(P, C, Seq<E>)>|
            #[trigger] is_run(systems, states) && states[0] == before && states.last() == mid;
        let longer = states.push(after);
        assert forall|i: int| 0 <= i < all.len() implies #[trigger] all[i].processes(
            longer[i],
            longer[i + 1],
        ) by {
            if i < n {
                assert(all[i] == systems[i]);
                assert(systems[i].processes(states[i], states[i + 1]));
            }
        }
        assert(is_run(all, longer));
    }
}

/// One tick of a world that runs `first` and then `second` leads from `before`
/// to `after` exactly when `first` leads from `before` to some state and
/// `second` leads from that state to `after`: the order of the systems is the
/// order of their effects.
pub proof fn lemma_tick_of_two<P, C, E, S: System<P, C, E> + ?Sized>(
    first: Box<S>,
    second: Box<S>,
    before: (P, C, Seq<E>),
    after: (P, C, Seq<E>),
)
    ensures
        ticks(seq![first, second], before, after) <==> exists|mid: (P, C, Seq<E>)|
            #[trigger] first.processes(before, mid) && second.processes(mid, after),
{
    let none = Seq::<Box<S>>::empty();
    let one = none.push(first);
    assert(seq![first, second] =~= one.push(second));
    lemma_tick_then(one, second, before, after);
    assert forall|mid: (P, C, Seq<E>)| ticks(one, before, mid) <==> first.processes(before, mid) by {
        lemma_tick_then(none, first, before, mid);
        assert forall|m: (P, C, Seq<E>)| ticks(none, before, m) <==> m == before by {
            lemma_tick_of_none::<P, C, E, S>(before, m);
        }
    }
}

/// The owner of the components, the live entities and the systems, in the order
/// in which they run.
#[verifier::reject_recursive_types(P)]
#[verifier::reject_recursive_types(C)]
#[verifier::reject_recursive_types(E)]
pub struct World<P, C, E> {
    pub data: C,
    pub entities: Vec<E>,
    systems: Vec<Box<dyn System<P, C, E>>>,
}

impl<P, C, E> World<P, C, E> {
    /// The components.
    pub closed spec fn components(self) -> C {
        self.data
    }

    /// The live entities.
    pub closed spec fn live(self) -> Seq<E> {
        self.entities@
    }

    /// The systems, in the order in which they run.
    pub closed spec fn schedule(self) -> Seq<Box<dyn System<P, C, E>>> {
        self.systems@
    }

    /// A world over `data` and `entities` that runs `systems` in the given
    /// order; the order cannot change afterwards.
    pub fn new(data: C, entities: Vec<E>, systems: Vec<Box<dyn System<P, C, E>>>) -> (r: Self)
        ensures
            r.components() == data,
            r.live() == entities@,
            r.schedule() == systems@,
    {
        World { data, entities, systems }
    }

    /// One tick: every system runs once, in order, each seeing what the ones
    /// before it did.
    pub fn update(&mut self, params: &mut P)
        ensures
            ticks(
                old(self).schedule(),
                (*old(params), old(self).components(), old(self).live()),
                (*final(params), final(self).components(), final(self).live()),
            ),
            final(self).schedule().len() == old(self).schedule().len(),
    {
        let ghost systems = self.systems@;
        let ghost start = (*params, self.data, self.entities@);
        let ghost mut states = seq![start];
        let n = self.systems.len();
        let mut i: usize = 0;
        while i < n
            invariant
                n == systems.len(),
                0 <= i <= n,
                self.systems@.len() == n,
                forall|j: int| i <= j < n ==> self.systems@[j] == systems[j],
                is_run(systems.take(i as int), states),
                states[0] == start,
                states.last() == (*params, self.data, self.entities@),
            decreases n - i,
        {
            self.systems[i].process(params, &mut self.data, &mut self.entities);
            proof {
                let prev = states;
                states = states.push((*params, self.data, self.entities@));
                let done = systems.take(i + 1);
                assert forall|j: int| 0 <= j < done.len() implies #[trigger] done[j].processes(
                    states[j],
                    states[j + 1],
                ) by {
                    if j < i {
                        assert(systems.take(i as int)[j] == done[j]);
                    }
                }
            }
            i = i + 1;
        }
        proof {
            assert(systems.take(n as int) =~= systems);
            assert(is_run(systems, states) && states[0] == start);
        }
    }
}

} // verus!
