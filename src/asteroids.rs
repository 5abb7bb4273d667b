//! The schema of the asteroids game: five component kinds.
//!
//! The payload of each kind is a type parameter, so that the game supplies its
//! own component types (which hold floating-point data and graphics handles)
//! while the bookkeeping of ids stays here.

use vstd::prelude::*;

use crate::arena::{capacity, Array, Id};
use crate::slot::{attach, lookup, lookup_mut, resolve, valid_in};

verus! {

/// The components one entity owns, one optional id per kind.
#[derive(Debug)]
pub struct Entity<Draw, Space, Inertia, Control, Bullet> {
    pub draw: Option<Id<Draw>>,
    pub space: Option<Id<Space>>,
    pub inertia: Option<Id<Inertia>>,
    pub control: Option<Id<Control>>,
    pub bullet: Option<Id<Bullet>>,
}

impl<Draw, Space, Inertia, Control, Bullet> Clone for Entity<Draw, Space, Inertia, Control, Bullet> {
    fn clone(&self) -> (r: Self)
        ensures
            r == *self,
    {
        *self
    }
}

impl<Draw, Space, Inertia, Control, Bullet> Copy for Entity<Draw, Space, Inertia, Control, Bullet> {}

impl<Draw, Space, Inertia, Control, Bullet> Entity<Draw, Space, Inertia, Control, Bullet> {
    /// An entity that owns no component.
    pub fn new() -> (r: Self)
        ensures
            r.draw is None,
            r.space is None,
            r.inertia is None,
            r.control is None,
            r.bullet is None,
    {
        Entity { draw: None, space: None, inertia: None, control: None, bullet: None }
    }
}

/// The arenas of all kinds: the one owner of every component.
#[derive(Clone, Debug)]
pub struct Components<Draw, Space, Inertia, Control, Bullet> {
    pub draw: Array<Draw>,
    pub space: Array<Space>,
    pub inertia: Array<Inertia>,
    pub control: Array<Control>,
    pub bullet: Array<Bullet>,
}

impl<Draw, Space, Inertia, Control, Bullet> Components<Draw, Space, Inertia, Control, Bullet> {
    /// Empty arenas for every kind.
    pub fn new() -> (r: Self)
        ensures
            r.draw@ == Seq::<Draw>::empty(),
            r.space@ == Seq::<Space>::empty(),
            r.inertia@ == Seq::<Inertia>::empty(),
            r.control@ == Seq::<Control>::empty(),
            r.bullet@ == Seq::<Bullet>::empty(),
    {
        Components {
            draw: Array::new(),
            space: Array::new(),
            inertia: Array::new(),
            control: Array::new(),
            bullet: Array::new(),
        }
    }

    /// Starts building a new entity whose components are stored here.
    pub fn add(&mut self) -> (r: Adder<'_, Draw, Space, Inertia, Control, Bullet>)
        ensures
            r.entity.draw is None,
            r.entity.space is None,
            r.entity.inertia is None,
            r.entity.control is None,
            r.entity.bullet is None,
            *r.hub == *old(self),
            *final(r.hub) == *final(self),
    {
        Adder { entity: Entity::new(), hub: self }
    }
}

/// Builds one entity, storing each component it is given.
pub struct Adder<'d, Draw, Space, Inertia, Control, Bullet> {
    pub entity: Entity<Draw, Space, Inertia, Control, Bullet>,
    pub hub: &'d mut Components<Draw, Space, Inertia, Control, Bullet>,
}

impl<'d, Draw, Space, Inertia, Control, Bullet> Adder<'d, Draw, Space, Inertia, Control, Bullet> {
    /// Stores `value` as the entity's `draw` component, how it is drawn; allowed once per
    /// entity.
    pub fn draw(self, value: Draw) -> (r: Self)
        requires
            self.entity.draw is None,
            (*old(self.hub)).draw@.len() < capacity(),
        ensures
            r.entity == (Entity { draw: r.entity.draw, ..self.entity }),
            r.entity.draw matches Some(id) && id.index() == (*old(self.hub)).draw@.len(),
            *r.hub == (Components { draw: (*r.hub).draw, ..*old(self.hub) }),
            (*r.hub).draw@ == (*old(self.hub)).draw@.push(value),
            *final(r.hub) == *final(self.hub),
    {
        let Adder { mut entity, hub } = self;
        attach(&mut entity.draw, &mut hub.draw, value);
        Adder { entity, hub }
    }

    /// Stores `value` as the entity's `space` component, where it is; allowed once per
    /// entity.
    pub fn space(self, value: Space) -> (r: Self)
        requires
            self.entity.space is None,
            (*old(self.hub)).space@.len() < capacity(),
        ensures
            r.entity == (Entity { space: r.entity.space, ..self.entity }),
            r.entity.space matches Some(id) && id.index() == (*old(self.hub)).space@.len(),
            *r.hub == (Components { space: (*r.hub).space, ..*old(self.hub) }),
            (*r.hub).space@ == (*old(self.hub)).space@.push(value),
            *final(r.hub) == *final(self.hub),
    {
        let Adder { mut entity, hub } = self;
        attach(&mut entity.space, &mut hub.space, value);
        Adder { entity, hub }
    }

    /// Stores `value` as the entity's `inertia` component, how it moves; allowed once per
    /// entity.
    pub fn inertia(self, value: Inertia) -> (r: Self)
        requires
            self.entity.inertia is None,
            (*old(self.hub)).inertia@.len() < capacity(),
        ensures
            r.entity == (Entity { inertia: r.entity.inertia, ..self.entity }),
            r.entity.inertia matches Some(id) && id.index() == (*old(self.hub)).inertia@.len(),
            *r.hub == (Components { inertia: (*r.hub).inertia, ..*old(self.hub) }),
            (*r.hub).inertia@ == (*old(self.hub)).inertia@.push(value),
            *final(r.hub) == *final(self.hub),
    {
        let Adder { mut entity, hub } = self;
        attach(&mut entity.inertia, &mut hub.inertia, value);
        Adder { entity, hub }
    }

    /// Stores `value` as the entity's `control` component, how it responds to input; allowed once per
    /// entity.
    pub fn control(self, value: Control) -> (r: Self)
        requires
            self.entity.control is None,
            (*old(self.hub)).control@.len() < capacity(),
        ensures
            r.entity == (Entity { control: r.entity.control, ..self.entity }),
            r.entity.control matches Some(id) && id.index() == (*old(self.hub)).control@.len(),
            *r.hub == (Components { control: (*r.hub).control, ..*old(self.hub) }),
            (*r.hub).control@ == (*old(self.hub)).control@.push(value),
            *final(r.hub) == *final(self.hub),
    {
        let Adder { mut entity, hub } = self;
        attach(&mut entity.control, &mut hub.control, value);
        Adder { entity, hub }
    }

    /// Stores `value` as the entity's `bullet` component, its life as a bullet; allowed once per
    /// entity.
    pub fn bullet(self, value: Bullet) -> (r: Self)
        requires
            self.entity.bullet is None,
            (*old(self.hub)).bullet@.len() < capacity(),
        ensures
            r.entity == (Entity { bullet: r.entity.bullet, ..self.entity }),
            r.entity.bullet matches Some(id) && id.index() == (*old(self.hub)).bullet@.len(),
            *r.hub == (Components { bullet: (*r.hub).bullet, ..*old(self.hub) }),
            (*r.hub).bullet@ == (*old(self.hub)).bullet@.push(value),
            *final(r.hub) == *final(self.hub),
    {
        let Adder { mut entity, hub } = self;
        attach(&mut entity.bullet, &mut hub.bullet, value);
        Adder { entity, hub }
    }
}

/// Reads the components of one entity.
pub struct Getter<'a, Draw, Space, Inertia, Control, Bullet> {
    pub entity: &'a Entity<Draw, Space, Inertia, Control, Bullet>,
    pub data: &'a Components<Draw, Space, Inertia, Control, Bullet>,
}

impl<'a, Draw, Space, Inertia, Control, Bullet> Getter<'a, Draw, Space, Inertia, Control, Bullet> {
    pub fn new(entity: &'a Entity<Draw, Space, Inertia, Control, Bullet>, data: &'a Components<Draw, Space, Inertia, Control, Bullet>) -> (r: Self)
        ensures
            *r.entity == *entity,
            *r.data == *data,
    {
        Getter { entity, data }
    }

    /// The entity's `draw` component, if it has one.
    pub fn draw(&self) -> (r: Option<&'a Draw>)
        requires
            valid_in(self.entity.draw, self.data.draw@),
        ensures
            match r {
                Some(v) => resolve(self.entity.draw, self.data.draw@) == Some(*v),
                None => self.entity.draw is None,
            },
    {
        lookup(&self.entity.draw, &self.data.draw)
    }

    /// The entity's `space` component, if it has one.
    pub fn space(&self) -> (r: Option<&'a Space>)
        requires
            valid_in(self.entity.space, self.data.space@),
        ensures
            match r {
                Some(v) => resolve(self.entity.space, self.data.space@) == Some(*v),
                None => self.entity.space is None,
            },
    {
        lookup(&self.entity.space, &self.data.space)
    }

    /// The entity's `inertia` component, if it has one.
    pub fn inertia(&self) -> (r: Option<&'a Inertia>)
        requires
            valid_in(self.entity.inertia, self.data.inertia@),
        ensures
            match r {
                Some(v) => resolve(self.entity.inertia, self.data.inertia@) == Some(*v),
                None => self.entity.inertia is None,
            },
    {
        lookup(&self.entity.inertia, &self.data.inertia)
    }

    /// The entity's `control` component, if it has one.
    pub fn control(&self) -> (r: Option<&'a Control>)
        requires
            valid_in(self.entity.control, self.data.control@),
        ensures
            match r {
                Some(v) => resolve(self.entity.control, self.data.control@) == Some(*v),
                None => self.entity.control is None,
            },
    {
        lookup(&self.entity.control, &self.data.control)
    }

    /// The entity's `bullet` component, if it has one.
    pub fn bullet(&self) -> (r: Option<&'a Bullet>)
        requires
            valid_in(self.entity.bullet, self.data.bullet@),
        ensures
            match r {
                Some(v) => resolve(self.entity.bullet, self.data.bullet@) == Some(*v),
                None => self.entity.bullet is None,
            },
    {
        lookup(&self.entity.bullet, &self.data.bullet)
    }
}

/// Changes the components of one entity in place, keeping their ids.
pub struct Changer<'a, Draw, Space, Inertia, Control, Bullet> {
    pub entity: &'a Entity<Draw, Space, Inertia, Control, Bullet>,
    pub data: &'a mut Components<Draw, Space, Inertia, Control, Bullet>,
}

impl<'a, Draw, Space, Inertia, Control, Bullet> Changer<'a, Draw, Space, Inertia, Control, Bullet> {
    pub fn new(entity: &'a Entity<Draw, Space, Inertia, Control, Bullet>, data: &'a mut Components<Draw, Space, Inertia, Control, Bullet>) -> (r: Self)
        ensures
            *r.entity == *entity,
            *r.data == *old(data),
            *final(r.data) == *final(data),
    {
        Changer { entity, data }
    }

    /// The entity's `draw` component, if it has one, to change in place.
    pub fn draw(&mut self) -> (r: Option<&mut Draw>)
        requires
            valid_in(old(self).entity.draw, (*old(self).data).draw@),
        ensures
            final(self).entity == old(self).entity,
            *final(final(self).data) == *final(old(self).data),
            *final(self).data == (Components { draw: (*final(self).data).draw, ..*old(self).data }),
            match r {
                Some(v) => old(self).entity.draw matches Some(id)
                    && *v == (*old(self).data).draw@[id.index() as int]
                    && (*final(self).data).draw@ == (*old(self).data).draw@.update(
                    id.index() as int,
                    *final(v),
                ),
                None => old(self).entity.draw is None
                    && (*final(self).data).draw@ == (*old(self).data).draw@,
            },
    {
        lookup_mut(&self.entity.draw, &mut self.data.draw)
    }

    /// The entity's `space` component, if it has one, to change in place.
    pub fn space(&mut self) -> (r: Option<&mut Space>)
        requires
            valid_in(old(self).entity.space, (*old(self).data).space@),
        ensures
            final(self).entity == old(self).entity,
            *final(final(self).data) == *final(old(self).data),
            *final(self).data == (Components { space: (*final(self).data).space, ..*old(self).data }),
            match r {
                Some(v) => old(self).entity.space matches Some(id)
                    && *v == (*old(self).data).space@[id.index() as int]
                    && (*final(self).data).space@ == (*old(self).data).space@.update(
                    id.index() as int,
                    *final(v),
                ),
                None => old(self).entity.space is None
                    && (*final(self).data).space@ == (*old(self).data).space@,
            },
    {
        lookup_mut(&self.entity.space, &mut self.data.space)
    }

    /// The entity's `inertia` component, if it has one, to change in place.
    pub fn inertia(&mut self) -> (r: Option<&mut Inertia>)
        requires
            valid_in(old(self).entity.inertia, (*old(self).data).inertia@),
        ensures
            final(self).entity == old(self).entity,
            *final(final(self).data) == *final(old(self).data),
            *final(self).data == (Components { inertia: (*final(self).data).inertia, ..*old(self).data }),
            match r {
                Some(v) => old(self).entity.inertia matches Some(id)
                    && *v == (*old(self).data).inertia@[id.index() as int]
                    && (*final(self).data).inertia@ == (*old(self).data).inertia@.update(
                    id.index() as int,
                    *final(v),
                ),
                None => old(self).entity.inertia is None
                    && (*final(self).data).inertia@ == (*old(self).data).inertia@,
            },
    {
        lookup_mut(&self.entity.inertia, &mut self.data.inertia)
    }

    /// The entity's `control` component, if it has one, to change in place.
    pub fn control(&mut self) -> (r: Option<&mut Control>)
        requires
            valid_in(old(self).entity.control, (*old(self).data).control@),
        ensures
            final(self).entity == old(self).entity,
            *final(final(self).data) == *final(old(self).data),
            *final(self).data == (Components { control: (*final(self).data).control, ..*old(self).data }),
            match r {
                Some(v) => old(self).entity.control matches Some(id)
                    && *v == (*old(self).data).control@[id.index() as int]
                    && (*final(self).data).control@ == (*old(self).data).control@.update(
                    id.index() as int,
                    *final(v),
                ),
                None => old(self).entity.control is None
                    && (*final(self).data).control@ == (*old(self).data).control@,
            },
    {
        lookup_mut(&self.entity.control, &mut self.data.control)
    }

    /// The entity's `bullet` component, if it has one, to change in place.
    pub fn bullet(&mut self) -> (r: Option<&mut Bullet>)
        requires
            valid_in(old(self).entity.bullet, (*old(self).data).bullet@),
        ensures
            final(self).entity == old(self).entity,
            *final(final(self).data) == *final(old(self).data),
            *final(self).data == (Components { bullet: (*final(self).data).bullet, ..*old(self).data }),
            match r {
                Some(v) => old(self).entity.bullet matches Some(id)
                    && *v == (*old(self).data).bullet@[id.index() as int]
                    && (*final(self).data).bullet@ == (*old(self).data).bullet@.update(
                    id.index() as int,
                    *final(v),
                ),
                None => old(self).entity.bullet is None
                    && (*final(self).data).bullet@ == (*old(self).data).bullet@,
            },
    {
        lookup_mut(&self.entity.bullet, &mut self.data.bullet)
    }
}

} // verus!
