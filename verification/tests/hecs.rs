use feather::entity_builder::EntityBuilder;
use feather::world::{ComponentError, World};

#[test]
fn random_access() {
    let mut world = World::new();
    let e = world.spawn_bundle(("abc", 123));
    let f = world.spawn_bundle(("def", 456, true));
    assert_eq!(*world.get::<&str>(e).unwrap(), "abc");
    assert_eq!(*world.get::<i32>(e).unwrap(), 123);
    assert_eq!(*world.get::<&str>(f).unwrap(), "def");
    assert_eq!(*world.get::<i32>(f).unwrap(), 456);
    *world.get_mut::<i32>(f).unwrap() = 42;
    assert_eq!(*world.get::<i32>(f).unwrap(), 42);
}

#[test]
fn despawn() {
    let mut world = World::new();
    let e = world.spawn_bundle(("abc", 123));
    let f = world.spawn_bundle(("def", 456));
    assert_eq!(world.iter().count(), 2);
    world.despawn(e).unwrap();
    assert_eq!(world.iter().count(), 1);
    assert!(world.get::<&str>(e).is_err());
    assert!(world.get::<i32>(e).is_err());
    assert_eq!(*world.get::<&str>(f).unwrap(), "def");
    assert_eq!(*world.get::<i32>(f).unwrap(), 456);
}

#[test]
fn hecs_build_entity() {
    let mut world = World::new();
    let mut entity = EntityBuilder::new();
    entity.add("abc");
    entity.add(123);
    let e = entity.spawn_into(&mut world);
    entity.add("def");
    entity.add([0u8; 1024]);
    entity.add(456);
    entity.add(789);
    let f = entity.spawn_into(&mut world);
    assert_eq!(*world.get::<&str>(e).unwrap(), "abc");
    assert_eq!(*world.get::<i32>(e).unwrap(), 123);
    assert_eq!(*world.get::<&str>(f).unwrap(), "def");
    assert_eq!(*world.get::<i32>(f).unwrap(), 789);
}

#[test]
fn access_builder_components() {
    let mut world = World::new();
    let mut entity = EntityBuilder::new();

    entity.add("abc");
    entity.add(123);

    assert!(entity.has::<&str>());
    assert!(entity.has::<i32>());
    assert!(!entity.has::<usize>());

    let g = world.spawn_builder(&mut entity);

    assert_eq!(*world.get::<&str>(g).unwrap(), "abc");
    assert_eq!(*world.get::<i32>(g).unwrap(), 123);
}

#[test]
fn build_entity_bundle() {
    let mut world = World::new();
    let mut entity = EntityBuilder::new();
    entity.add(123);
    entity.add("abc");
    let e = entity.spawn_into(&mut world);
    entity.add(456);
    entity.add("def");
    entity.add([0u8; 1024]);
    entity.add(789);
    let f = entity.spawn_into(&mut world);
    assert_eq!(*world.get::<&str>(e).unwrap(), "abc");
    assert_eq!(*world.get::<i32>(e).unwrap(), 123);
    assert_eq!(*world.get::<&str>(f).unwrap(), "def");
    assert_eq!(*world.get::<i32>(f).unwrap(), 789);
}

#[test]
fn spawn_many() {
    let mut world = World::new();
    const N: usize = 100_000;
    for _ in 0..N {
        world.spawn_bundle((42u128,));
    }
    assert_eq!(world.iter().count(), N);
}

#[test]
fn remove_missing() {
    let mut world = World::new();
    let e = world.spawn_bundle(("abc", 123));
    assert!(world.remove::<bool>(e).is_err());
}

#[test]
fn insert_and_remove_components() {
    let mut world = World::new();
    let e = world.spawn_bundle((42,));
    world.insert(e, true).unwrap();
    world.insert(e, "abc").unwrap();
    assert_eq!(*world.get::<bool>(e).unwrap(), true);
    assert_eq!(world.remove::<i32>(e), Ok(42));
    assert_eq!(world.get::<i32>(e), Err(ComponentError::MissingComponent));
    assert_eq!(*world.get::<&str>(e).unwrap(), "abc");
    world.insert(e, "def").unwrap();
    assert_eq!(*world.get::<&str>(e).unwrap(), "def");
}

#[test]
fn despawned_index_is_reused_with_a_new_generation() {
    let mut world = World::new();
    let e = world.spawn_bundle((1,));
    world.despawn(e).unwrap();
    assert!(world.despawn(e).is_err());
    let f = world.spawn_bundle((2,));
    assert_eq!(f.index(), e.index());
    assert_eq!(f.generation(), e.generation() + 1);
    assert_eq!(world.get::<i32>(e), Err(ComponentError::NoSuchEntity));
    assert_eq!(*world.get::<i32>(f).unwrap(), 2);
}

#[test]
fn query_all() {
    let mut world = World::new();
    let e = world.spawn_bundle(("abc", 123));
    let f = world.spawn_bundle(("def", 456));

    let ents = world
        .query::<(&i32, &&str)>()
        .iter()
        .map(|(e, (i, s))| (e, *i, *s))
        .collect::<Vec<_>>();
    assert_eq!(ents.len(), 2);
    assert!(ents.contains(&(e, 123, "abc")));
    assert!(ents.contains(&(f, 456, "def")));

    let ents = world.iter().collect::<Vec<_>>();
    assert_eq!(ents.len(), 2);
    assert!(ents.contains(&e));
    assert!(ents.contains(&f));
}

#[test]
fn query_single_component() {
    let mut world = World::new();
    let e = world.spawn_bundle(("abc", 123));
    let f = world.spawn_bundle(("def", 456, true));
    let ents = world
        .query::<&i32>()
        .iter()
        .map(|(e, i)| (e, *i))
        .collect::<Vec<_>>();
    assert_eq!(ents.len(), 2);
    assert!(ents.contains(&(e, 123)));
    assert!(ents.contains(&(f, 456)));
}

#[test]
fn query_missing_component() {
    let mut world = World::new();
    world.spawn_bundle(("abc", 123));
    world.spawn_bundle(("def", 456));
    assert!(world.query::<(&bool, &i32)>().iter().next().is_none());
}

#[test]
fn query_sparse_component() {
    let mut world = World::new();
    world.spawn_bundle(("abc", 123));
    let f = world.spawn_bundle(("def", 456, true));
    let ents = world
        .query::<&bool>()
        .iter()
        .map(|(e, b)| (e, *b))
        .collect::<Vec<_>>();
    assert_eq!(ents, &[(f, true)]);
}

#[test]
fn dynamic_components() {
    let mut world = World::new();
    let e = world.spawn_bundle((42,));
    world.insert(e, true).unwrap();
    world.insert(e, "abc").unwrap();
    assert_eq!(
        world
            .query::<(&i32, &bool)>()
            .iter()
            .map(|(e, (i, b))| (e, *i, *b))
            .collect::<Vec<_>>(),
        &[(e, 42, true)]
    );
    world.remove::<i32>(e).unwrap();
    assert_eq!(
        world
            .query::<(&i32, &bool)>()
            .iter()
            .map(|(e, (i, b))| (e, *i, *b))
            .collect::<Vec<_>>(),
        &[]
    );
    assert_eq!(
        world
            .query::<(&bool, &&str)>()
            .iter()
            .map(|(e, (b, s))| (e, *b, *s))
            .collect::<Vec<_>>(),
        &[(e, true, "abc")]
    );
}

#[test]
fn shared_borrow() {
    let mut world = World::new();
    world.spawn_bundle(("abc", 123));
    world.spawn_bundle(("def", 456));

    world.query::<(&i32, &i32)>();
}

#[test]
fn query_skips_despawned_entities() {
    let mut world = World::new();
    let a = world.spawn_bundle((1, true));
    let b = world.spawn_bundle((2,));
    let c = world.spawn_bundle((3, false));
    world.despawn(a).unwrap();
    let found = world.query::<(&i32, &bool)>().collect();
    assert_eq!(found.len(), 1);
    assert_eq!(found[0].0, c);
    assert_eq!((*found[0].1 .0, *found[0].1 .1), (3, false));
    assert_eq!(world.query::<&i32>().collect().len(), 2);
    assert!(world.components(b).is_some());
    assert!(world.components(a).is_none());
}
