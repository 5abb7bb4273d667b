//! A schema with a single component kind, `simple`, holding a plain integer.

use vstd::prelude::*;

use crate::arena::{capacity, Array, Id};
use crate::slot::{attach, lookup, lookup_mut, resolve, valid_in};

verus! {

/// The payload of the `simple` kind.
pub type SimpleComponent = isize;

/// The components one entity owns, one optional id per kind.
#[derive(Clone, Copy, Debug)]
pub struct Entity {
    pub simple: Option<Id<SimpleComponent>>,
}

impl Entity {
    /// An entity that owns no component.
    pub fn new() -> (r: Entity)
        ensures
            r.simple is None,
    {
        Entity { simple: None }
    }
}

/// The arenas of all kinds: the one owner of every component.
#[derive(Clone, Debug)]
pub struct Components {
    pub simple: Array<SimpleComponent>,
}

/// The name under which the aggregate of components is also known.
pub type DataHub = Components;

impl Components {
    /// Empty arenas for every kind.
    pub fn new() -> (r: Components)
        ensures
            r.simple@ == Seq::<SimpleComponent>::empty(),
    {
        Components { simple: Array::new() }
    }

    /// Starts building a new entity whose components are stored here.
    pub fn add(&mut self) -> (r: Adder<'_>)
        ensures
            r.entity.simple is None,
            *r.hub == *old(self),
            *final(r.hub) == *final(self),
    {
        Adder { entity: Entity::new(), hub: self }
    }
}

/// Builds one entity, storing each component it is given.
pub struct Adder<'d> {
    pub entity: Entity,
    pub hub: &'d mut Components,
}

impl<'d> Adder<'d> {
    /// Stores `value` as the entity's `simple` component; allowed once per entity.
    pub fn simple(self, value: SimpleComponent) -> (r: Adder<'d>)
        requires
            self.entity.simple is None,
            (*old(self.hub)).simple@.len() < capacity(),
        ensures
            r.entity.simple matches Some(id) && id.index() == (*old(self.hub)).simple@.len(),
            (*r.hub).simple@ == (*old(self.hub)).simple@.push(value),
            *final(r.hub) == *final(self.hub),
    {
        let Adder { mut entity, hub } = self;
        attach(&mut entity.simple, &mut hub.simple, value);
        Adder { entity, hub }
    }
}

/// Reads the components of one entity.
pub struct Getter<'a> {
    pub entity: &'a Entity,
    pub data: &'a Components,
}

impl<'a> Getter<'a> {
    pub fn new(entity: &'a Entity, data: &'a Components) -> (r: Getter<'a>)
        ensures
            *r.entity == *entity,
            *r.data == *data,
    {
        Getter { entity, data }
    }

    /// The entity's `simple` component, if it has one.
    pub fn simple(&self) -> (r: Option<&'a SimpleComponent>)
        requires
            valid_in(self.entity.simple, self.data.simple@),
        ensures
            match r {
                Some(v) => resolve(self.entity.simple, self.data.simple@) == Some(*v),
                None => self.entity.simple is None,
            },
    {
        lookup(&self.entity.simple, &self.data.simple)
    }
}

/// Changes the components of one entity in place, keeping their ids.
pub struct Changer<'a> {
    pub entity: &'a Entity,
    pub data: &'a mut Components,
}

impl<'a> Changer<'a> {
    pub fn new(entity: &'a Entity, data: &'a mut Components) -> (r: Changer<'a>)
        ensures
            *r.entity == *entity,
            *r.data == *old(data),
            *final(r.data) == *final(data),
    {
        Changer { entity, data }
    }

    /// The entity's `simple` component, if it has one, to change in place.
    pub fn simple(&mut self) -> (r: Option<&mut SimpleComponent>)
        requires
            valid_in(old(self).entity.simple, (*old(self).data).simple@),
        ensures
            final(self).entity == old(self).entity,
            *final(final(self).data) == *final(old(self).data),
            match r {
                Some(v) => old(self).entity.simple matches Some(id)
                    && *v == (*old(self).data).simple@[id.index() as int]
                    && (*final(self).data).simple@ == (*old(self).data).simple@.update(id.index() as int, *final(v)),
                None => old(self).entity.simple is None && (*final(self).data).simple@ == (*old(self).data).simple@,
            },
    {
        lookup_mut(&self.entity.simple, &mut self.data.simple)
    }
}

} // verus!
