use bevy::ecs::entity::Entity;
use bevy::ecs::system::Commands;
use bevy::ecs::world::{CommandQueue, World};
use bevy_ecs_tilemap::map::TilemapSize;
use bevy_ecs_tilemap::tiles::storage::TileStorage;
use bevy_ecs_tilemap::tiles::TilePos;

fn e(id: u32) -> Entity {
    // Helper that makes a deterministic dummy `Entity`
    Entity::from_raw(id)
}

fn size_3x3() -> TilemapSize {
    TilemapSize { x: 3, y: 3 }
}

#[test]
fn empty_storage_is_filled_with_none() {
    let storage = TileStorage::empty(size_3x3());
    assert_eq!(storage.size(), size_3x3());
    assert!(storage.iter().all(|opt| opt.is_none()));
}

#[test]
fn set_and_get_roundtrip() {
    let mut storage = TileStorage::empty(size_3x3());
    let pos = TilePos { x: 1, y: 2 };
    storage.set(&pos, e(42));
    assert_eq!(storage.get(&pos), Some(e(42)));
}

#[test]
fn checked_get_respects_bounds() {
    let storage = TileStorage::empty(size_3x3());
    // In-bounds → None (nothing stored yet)
    assert_eq!(storage.checked_get(&TilePos { x: 0, y: 0 }), None);
    // Out-of-bounds → None, **not** panic
    assert_eq!(storage.checked_get(&TilePos { x: 99, y: 99 }), None);
}

#[test]
fn remove_returns_entity_and_leaves_none() {
    let mut storage = TileStorage::empty(size_3x3());
    let pos = TilePos { x: 2, y: 1 };
    storage.set(&pos, e(7));
    assert_eq!(storage.remove(&pos), Some(e(7)));
    assert_eq!(storage.get(&pos), None);
}

#[test]
fn drain_yields_every_entity_and_empties_storage() {
    let mut storage = TileStorage::empty(size_3x3());
    storage.set(&TilePos { x: 0, y: 0 }, e(1));
    storage.set(&TilePos { x: 1, y: 1 }, e(2));
    storage.set(&TilePos { x: 2, y: 2 }, e(3));

    let mut drained: Vec<_> = storage.drain().collect();
    drained.sort_by_key(|e| e.index());
    assert_eq!(drained, vec![e(1), e(2), e(3)]);
    assert!(storage.iter().all(|opt| opt.is_none()));
}

#[test]
fn drain_can_be_used_to_despawn_entities() {
    let mut world = World::default();
    // Spawn three entities and store their IDs
    let e1 = world.spawn_empty().id();
    let e2 = world.spawn_empty().id();
    let e3 = world.spawn_empty().id();

    let mut storage = TileStorage::empty(TilemapSize { x: 2, y: 2 });
    storage.set(&(TilePos { x: 0, y: 0 }), e1);
    storage.set(&(TilePos { x: 1, y: 0 }), e2);
    storage.set(&(TilePos { x: 0, y: 1 }), e3);

    // Use Commands-style despawning
    let mut queue = CommandQueue::default();
    {
        let mut commands = Commands::new(&mut queue, &world);
        for entity in storage.drain() {
            commands.entity(entity).despawn();
        }
    }
    queue.apply(&mut world);

    // Verify that the entities are really gone
    assert!(!world.entities().contains(e1));
    assert!(!world.entities().contains(e2));
    assert!(!world.entities().contains(e3));
    assert!(storage.iter().all(|opt| opt.is_none()));
}

#[test]
fn cells_are_stored_row_by_row() {
    let mut storage = TileStorage::empty(TilemapSize { x: 3, y: 2 });
    storage.set(&TilePos { x: 2, y: 0 }, e(20));
    storage.set(&TilePos { x: 0, y: 1 }, e(1));
    let cells: Vec<Option<Entity>> = storage.iter().copied().collect();
    assert_eq!(cells, vec![None, None, Some(e(20)), Some(e(1)), None, None]);
    assert_eq!(storage.entities(), vec![e(20), e(1)]);
}

#[test]
fn set_replaces_and_leaves_the_other_cells() {
    let mut storage = TileStorage::empty(size_3x3());
    storage.set(&TilePos { x: 1, y: 1 }, e(1));
    storage.set(&TilePos { x: 1, y: 2 }, e(2));
    storage.set(&TilePos { x: 1, y: 1 }, e(3));
    for x in 0..3 {
        for y in 0..3 {
            let expected = match (x, y) {
                (1, 1) => Some(e(3)),
                (1, 2) => Some(e(2)),
                _ => None,
            };
            assert_eq!(storage.get(&TilePos { x, y }), expected);
            assert_eq!(storage.checked_get(&TilePos { x, y }), expected);
        }
    }
}

#[test]
fn checked_set_and_remove_ignore_positions_off_the_map() {
    let mut storage = TileStorage::empty(TilemapSize { x: 3, y: 2 });
    storage.set(&TilePos { x: 0, y: 1 }, e(9));
    // (3, 0) would have the index of (0, 1) in a flattened grid.
    storage.checked_set(&TilePos { x: 3, y: 0 }, e(1));
    assert_eq!(storage.get(&TilePos { x: 0, y: 1 }), Some(e(9)));
    assert_eq!(storage.checked_remove(&TilePos { x: 3, y: 0 }), None);
    assert_eq!(storage.get(&TilePos { x: 0, y: 1 }), Some(e(9)));
    assert_eq!(storage.checked_remove(&TilePos { x: 0, y: 2 }), None);
    assert_eq!(storage.checked_get(&TilePos { x: 3, y: 0 }), None);

    storage.checked_set(&TilePos { x: 2, y: 1 }, e(4));
    assert_eq!(storage.get(&TilePos { x: 2, y: 1 }), Some(e(4)));
    assert_eq!(storage.checked_remove(&TilePos { x: 2, y: 1 }), Some(e(4)));
    assert_eq!(storage.checked_remove(&TilePos { x: 2, y: 1 }), None);
    assert_eq!(storage.entities(), vec![e(9)]);
}

#[test]
fn replace_entities_keeps_the_cells() {
    let mut storage = TileStorage::empty(size_3x3());
    storage.set(&TilePos { x: 0, y: 0 }, e(10));
    storage.set(&TilePos { x: 0, y: 1 }, e(11));
    storage.set(&TilePos { x: 2, y: 2 }, e(30));

    let mapped: Vec<Entity> = storage.entities().iter().map(|old| e(old.index() + 1)).collect();
    storage.replace_entities(&mapped);

    assert_eq!(storage.get(&TilePos { x: 0, y: 0 }), Some(e(11)));
    assert_eq!(storage.get(&TilePos { x: 0, y: 1 }), Some(e(12)));
    assert_eq!(storage.get(&TilePos { x: 2, y: 2 }), Some(e(31)));
    assert_eq!(storage.iter().filter(|cell| cell.is_some()).count(), 3);
}

#[test]
fn checked_set_each_skips_positions_off_the_map() {
    let mut storage = TileStorage::empty(TilemapSize { x: 2, y: 2 });
    storage.set(&TilePos { x: 1, y: 1 }, e(8));
    let positions = vec![
        TilePos { x: 0, y: 0 },
        TilePos { x: 2, y: 0 },
        TilePos { x: 1, y: 0 },
        TilePos { x: u32::MAX, y: 1 },
    ];
    let entities = vec![e(0), e(1), e(2), e(3)];
    storage.checked_set_each(&positions, &entities);
    let cells: Vec<Option<Entity>> = storage.iter().copied().collect();
    assert_eq!(cells, vec![Some(e(0)), Some(e(2)), None, Some(e(8))]);
}

#[test]
fn checked_set_each_keeps_the_last_of_a_repeated_position() {
    let mut storage = TileStorage::empty(TilemapSize { x: 2, y: 1 });
    let positions = vec![
        TilePos { x: 1, y: 0 },
        TilePos { x: 0, y: 0 },
        TilePos { x: 1, y: 0 },
    ];
    storage.checked_set_each(&positions, &vec![e(1), e(2), e(3)]);
    assert_eq!(storage.get(&TilePos { x: 0, y: 0 }), Some(e(2)));
    assert_eq!(storage.get(&TilePos { x: 1, y: 0 }), Some(e(3)));
}

#[test]
fn clone_copies_the_cells() {
    let mut storage = TileStorage::empty(TilemapSize { x: 2, y: 1 });
    storage.set(&TilePos { x: 1, y: 0 }, e(6));
    let copy = storage.clone();
    storage.set(&TilePos { x: 0, y: 0 }, e(7));
    assert_eq!(copy.size(), TilemapSize { x: 2, y: 1 });
    assert_eq!(copy.get(&TilePos { x: 0, y: 0 }), None);
    assert_eq!(copy.get(&TilePos { x: 1, y: 0 }), Some(e(6)));
}

#[test]
fn empty_storage_of_an_empty_map() {
    let mut storage = TileStorage::empty(TilemapSize { x: 0, y: 5 });
    assert_eq!(storage.iter().count(), 0);
    assert_eq!(storage.checked_get(&TilePos { x: 0, y: 0 }), None);
    assert_eq!(storage.drain().count(), 0);
}

#[test]
fn iter_mut_reaches_every_cell() {
    let mut storage = TileStorage::empty(TilemapSize { x: 2, y: 2 });
    storage.set(&TilePos { x: 1, y: 0 }, e(5));
    assert_eq!(storage.iter_mut().count(), 4);
    for (i, cell) in storage.iter_mut().enumerate() {
        *cell = match *cell {
            Some(entity) => Some(e(entity.index() + 1)),
            None if i == 3 => Some(e(30)),
            None => None,
        };
    }
    assert_eq!(storage.size(), TilemapSize { x: 2, y: 2 });
    assert_eq!(storage.get(&TilePos { x: 1, y: 0 }), Some(e(6)));
    assert_eq!(storage.get(&TilePos { x: 1, y: 1 }), Some(e(30)));
    assert_eq!(storage.get(&TilePos { x: 0, y: 0 }), None);
    assert_eq!(storage.entities(), vec![e(6), e(30)]);
}
