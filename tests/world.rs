use ecs::simple::{Components, Entity};
use ecs::system::{System, World};

struct AddOne;

impl System<u32, Components, Entity> for AddOne {
    fn process(&mut self, ticks: &mut u32, data: &mut Components, entities: &mut Vec<Entity>) {
        *ticks += 1;
        for e in entities.iter() {
            if let Some(id) = e.simple {
                *data.simple.get_mut(id) += 1;
            }
        }
    }
}

struct Double;

impl System<u32, Components, Entity> for Double {
    fn process(&mut self, ticks: &mut u32, data: &mut Components, entities: &mut Vec<Entity>) {
        *ticks *= 10;
        for v in data.simple.mut_iter() {
            *v *= 2;
        }
        let _ = entities;
    }
}

/// Spawns one entity per call and drops those whose value went past a limit.
struct SpawnAndCull {
    next: isize,
}

impl System<u32, Components, Entity> for SpawnAndCull {
    fn process(&mut self, _ticks: &mut u32, data: &mut Components, entities: &mut Vec<Entity>) {
        let ent = data.add().simple(self.next).entity;
        self.next += 1;
        entities.push(ent);
        let kept: Vec<Entity> = entities
            .iter()
            .filter(|e| e.simple.map_or(true, |id| *data.simple.get(id) < 3))
            .cloned()
            .collect();
        *entities = kept;
    }
}

fn start() -> (Components, Vec<Entity>) {
    let mut data = Components::new();
    let a = data.add().simple(1).entity;
    let b = data.add().simple(5).entity;
    let c = Entity::new();
    (data, vec![a, b, c])
}

fn values(data: &Components, entities: &[Entity]) -> Vec<Option<isize>> {
    entities
        .iter()
        .map(|e| e.simple.map(|id| *data.simple.get(id)))
        .collect()
}

#[test]
fn one_tick_runs_the_systems_in_order() {
    let (data, entities) = start();
    let (mut by_hand, mut by_hand_entities) = start();
    let mut by_hand_ticks = 0u32;
    AddOne.process(&mut by_hand_ticks, &mut by_hand, &mut by_hand_entities);
    Double.process(&mut by_hand_ticks, &mut by_hand, &mut by_hand_entities);

    let mut world = World::new(data, entities, vec![Box::new(AddOne), Box::new(Double)]);
    let mut ticks = 0u32;
    world.update(&mut ticks);

    assert_eq!(ticks, by_hand_ticks);
    assert_eq!(ticks, 10);
    assert_eq!(
        values(&world.data, &world.entities),
        values(&by_hand, &by_hand_entities)
    );
    assert_eq!(values(&world.data, &world.entities), vec![Some(4), Some(12), None]);
}

#[test]
fn the_order_of_systems_is_the_order_of_effects() {
    let (data, entities) = start();
    let mut world = World::new(data, entities, vec![Box::new(Double), Box::new(AddOne)]);
    let mut ticks = 0u32;
    world.update(&mut ticks);
    assert_eq!(ticks, 1);
    assert_eq!(values(&world.data, &world.entities), vec![Some(3), Some(11), None]);
}

#[test]
fn a_world_without_systems_keeps_its_state() {
    let (data, entities) = start();
    let mut world: World<u32, Components, Entity> = World::new(data, entities, Vec::new());
    let mut ticks = 7u32;
    world.update(&mut ticks);
    assert_eq!(ticks, 7);
    assert_eq!(values(&world.data, &world.entities), vec![Some(1), Some(5), None]);
}

#[test]
fn systems_spawn_and_replace_entities_across_ticks() {
    let mut world = World::new(
        Components::new(),
        Vec::new(),
        vec![Box::new(SpawnAndCull { next: 1 }), Box::new(AddOne)],
    );
    let mut ticks = 0u32;
    world.update(&mut ticks);
    assert_eq!(values(&world.data, &world.entities), vec![Some(2)]);
    world.update(&mut ticks);
    assert_eq!(values(&world.data, &world.entities), vec![Some(3), Some(3)]);
    world.update(&mut ticks);
    assert_eq!(values(&world.data, &world.entities), Vec::<Option<isize>>::new());
    assert_eq!(ticks, 3);
    assert_eq!(world.data.simple.len(), 3);
}
