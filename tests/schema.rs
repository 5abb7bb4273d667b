use ecs::asteroids::{Changer, Components, Getter};
use ecs::simple::{self, DataHub};

#[derive(Clone, Debug, PartialEq)]
struct Bullet {
    life: Option<u32>,
}

type Hub = Components<String, (i32, i32), (i32, i32), u8, Bullet>;

#[test]
fn getter_sees_exactly_the_kinds_an_entity_was_built_with() {
    let mut hub: Hub = Components::new();
    let ent = hub.add().space((1, 2)).inertia((3, 4)).entity;
    let get = Getter::new(&ent, &hub);
    assert_eq!(get.space(), Some(&(1, 2)));
    assert_eq!(get.inertia(), Some(&(3, 4)));
    assert!(get.bullet().is_none());
    assert!(get.draw().is_none());
    assert!(get.control().is_none());
}

#[test]
fn adder_stores_each_component_in_its_own_arena() {
    let mut hub: Hub = Components::new();
    let first = hub.add().draw("ship".to_string()).control(3).entity;
    let second = hub.add().draw("rock".to_string()).space((5, 5)).entity;
    assert_eq!(hub.draw.len(), 2);
    assert_eq!(hub.control.len(), 1);
    assert_eq!(hub.space.len(), 1);
    assert_eq!(hub.inertia.len(), 0);
    assert_eq!(hub.draw.get(first.draw.unwrap()), "ship");
    assert_eq!(hub.draw.get(second.draw.unwrap()), "rock");
    assert!(second.control.is_none());
}

#[test]
fn recycled_entity_shows_new_payload_at_the_same_id() {
    let mut hub: Hub = Components::new();
    let pooled = hub
        .add()
        .space((0, 0))
        .bullet(Bullet { life: None })
        .entity;
    let other = hub.add().bullet(Bullet { life: Some(1) }).entity;
    let old_id = pooled.bullet.unwrap();
    {
        let mut change = Changer::new(&pooled, &mut hub);
        *change.bullet().unwrap() = Bullet { life: Some(5) };
        *change.space().unwrap() = (7, 8);
        assert!(change.inertia().is_none());
    }
    assert!(pooled.bullet.unwrap() == old_id);
    assert_eq!(hub.bullet.len(), 2);
    let get = Getter::new(&pooled, &hub);
    assert_eq!(get.bullet(), Some(&Bullet { life: Some(5) }));
    assert_eq!(get.space(), Some(&(7, 8)));
    assert_eq!(*hub.bullet.get(other.bullet.unwrap()), Bullet { life: Some(1) });
}

#[test]
fn copies_of_an_entity_share_its_components() {
    let mut hub: Hub = Components::new();
    let ent = hub.add().control(1).entity;
    let copy = ent;
    {
        let mut change = Changer::new(&copy, &mut hub);
        *change.control().unwrap() += 1;
    }
    assert_eq!(Getter::new(&ent, &hub).control(), Some(&2));
}

#[test]
fn simple_getter_and_changer() {
    let mut hub = DataHub::new();
    let with = hub.add().simple(-6).entity;
    let without = simple::Entity::new();
    assert_eq!(simple::Getter::new(&with, &hub).simple(), Some(&-6));
    assert!(simple::Getter::new(&without, &hub).simple().is_none());
    {
        let mut change = simple::Changer::new(&with, &mut hub);
        *change.simple().unwrap() = 11;
    }
    assert_eq!(*hub.simple.get(with.simple.unwrap()), 11);
    let mut change = simple::Changer::new(&without, &mut hub);
    assert!(change.simple().is_none());
}
