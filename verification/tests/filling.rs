use bevy::ecs::entity::Entity;
use bevy::ecs::world::World;
use bevy_ecs_tilemap::helpers::filling::{
    fill_tilemap, fill_tilemap_hexagon, fill_tilemap_rect, generate_hex_ring, generate_hexagon,
    hexagon_positions, rect_positions,
};
use bevy_ecs_tilemap::helpers::hex_grid::axial::AxialPos;
use bevy_ecs_tilemap::map::{HexCoordSystem, TilemapSize};
use bevy_ecs_tilemap::tiles::storage::TileStorage;
use bevy_ecs_tilemap::tiles::TilePos;
use std::collections::HashSet;

fn axial_distance(a: AxialPos, b: AxialPos) -> u32 {
    let dq = (a.q - b.q).abs() as u32;
    let dr = (a.r - b.r).abs() as u32;
    let ds = (a.q + a.r - (b.q + b.r)).abs() as u32;
    (dq + dr + ds) / 2
}

#[test]
fn ring_radius_zero_is_origin_only() {
    let origin = AxialPos::new(0, 0);
    let ring = generate_hex_ring(origin, 0);
    assert_eq!(ring, vec![origin]);
}

#[test]
fn ring_has_correct_length_and_radius() {
    let origin = AxialPos::new(0, 0);
    for r in 1..=4 {
        let ring = generate_hex_ring(origin, r);
        assert_eq!(ring.len() as u32, r * 6, "radius {r}");
        // no duplicates & all exactly r away
        let uniq: HashSet<_> = ring.iter().cloned().collect();
        assert_eq!(uniq.len(), ring.len(), "radius {r} contains duplicates");
        assert!(ring.iter().all(|p| axial_distance(*p, origin) == r));
    }
}

#[test]
fn hexagon_area_matches_formula_and_contains_rings() {
    let origin = AxialPos::new(0, 0);
    for r in 0..=4 {
        let hex = generate_hexagon(origin, r);
        let expected = 1 + 3 * r * (r + 1);
        assert_eq!(hex.len() as u32, expected, "radius {r}");
        // make sure every inner ring element is inside the hexagon
        for r_inner in 0..=r {
            for p in generate_hex_ring(origin, r_inner) {
                assert!(hex.contains(&p), "ring {r_inner} not fully inside hex {r}");
            }
        }
    }
}

#[test]
fn fill_tilemap_fills_every_cell() {
    let mut world = World::default();
    let size = TilemapSize { x: 4, y: 3 };
    let mut storage = TileStorage::empty(size);

    let tiles: Vec<Entity> = (0..size.count()).map(|_| world.spawn_empty().id()).collect();
    fill_tilemap(size, &tiles, &mut storage);

    // every position should have an entity and the world should own it
    let mut filled = 0;
    for x in 0..size.x {
        for y in 0..size.y {
            let pos = TilePos { x, y };
            let entity = storage.get(&pos).expect("position not filled");
            assert!(!world.get_entity(entity).is_err());

            filled += 1;
        }
    }
    assert_eq!(filled, (size.x * size.y) as usize);
}

#[test]
fn ring_walks_the_edges_counter_clockwise() {
    let ring = generate_hex_ring(AxialPos::new(0, 0), 1);
    let expected: Vec<AxialPos> = [(1, 0), (0, 1), (-1, 1), (-1, 0), (0, -1), (1, -1)]
        .iter()
        .map(|&(q, r)| AxialPos::new(q, r))
        .collect();
    assert_eq!(ring, expected);

    let ring = generate_hex_ring(AxialPos::new(10, -4), 2);
    let expected: Vec<AxialPos> = [
        (2, 0),
        (1, 1),
        (0, 2),
        (-1, 2),
        (-2, 2),
        (-2, 1),
        (-2, 0),
        (-1, -1),
        (0, -2),
        (1, -2),
        (2, -2),
        (2, -1),
    ]
    .iter()
    .map(|&(q, r)| AxialPos::new(10 + q, -4 + r))
    .collect();
    assert_eq!(ring, expected);
}

#[test]
fn ring_holds_every_cell_at_its_distance() {
    let origin = AxialPos::new(-3, 7);
    for radius in 0..=5u32 {
        let ring: HashSet<AxialPos> = generate_hex_ring(origin, radius).into_iter().collect();
        let hexagon: HashSet<AxialPos> = generate_hexagon(origin, radius).into_iter().collect();
        for dq in -7..=7 {
            for dr in -7..=7 {
                let cell = AxialPos::new(origin.q + dq, origin.r + dr);
                let distance = axial_distance(cell, origin);
                assert_eq!(ring.contains(&cell), distance == radius);
                assert_eq!(hexagon.contains(&cell), distance <= radius);
                assert_eq!(cell.distance_from(&origin) as u32, distance);
            }
        }
    }
}

#[test]
fn hexagon_is_the_rings_one_after_the_other() {
    let origin = AxialPos::new(2, 2);
    let hexagon = generate_hexagon(origin, 3);
    let mut rings = Vec::new();
    for radius in 0..=3 {
        rings.extend(generate_hex_ring(origin, radius));
    }
    assert_eq!(hexagon, rings);
    let uniq: HashSet<_> = hexagon.iter().cloned().collect();
    assert_eq!(uniq.len(), 37);
}

#[test]
fn ring_at_the_end_of_the_coordinate_range() {
    let origin = AxialPos::new(i32::MAX - 2, i32::MIN + 2);
    let ring = generate_hex_ring(origin, 2);
    assert_eq!(ring.len(), 12);
    assert_eq!(ring[0], AxialPos::new(i32::MAX, i32::MIN + 2));
    assert_eq!(ring[8], AxialPos::new(i32::MAX - 2, i32::MIN));
}

#[test]
fn rect_positions_come_column_by_column() {
    let positions = rect_positions(TilePos::new(5, 7), TilemapSize::new(2, 3));
    let expected: Vec<TilePos> = [(5, 7), (5, 8), (5, 9), (6, 7), (6, 8), (6, 9)]
        .iter()
        .map(|&(x, y)| TilePos::new(x, y))
        .collect();
    assert_eq!(positions, expected);
    assert!(rect_positions(TilePos::new(5, 7), TilemapSize::new(0, 3)).is_empty());
    assert!(rect_positions(TilePos::new(u32::MAX, u32::MAX), TilemapSize::new(3, 0)).is_empty());
    assert_eq!(
        rect_positions(TilePos::new(u32::MAX, u32::MAX - 1), TilemapSize::new(1, 2)),
        vec![
            TilePos::new(u32::MAX, u32::MAX - 1),
            TilePos::new(u32::MAX, u32::MAX)
        ]
    );
}

#[test]
fn fill_tilemap_rect_sets_the_region_and_nothing_else() {
    let size = TilemapSize::new(5, 4);
    let mut storage = TileStorage::empty(size);
    storage.set(&TilePos::new(0, 0), Entity::from_raw(100));
    storage.set(&TilePos::new(2, 2), Entity::from_raw(101));

    let origin = TilePos::new(1, 1);
    let region = TilemapSize::new(3, 2);
    let tiles: Vec<Entity> = (0..6).map(Entity::from_raw).collect();
    fill_tilemap_rect(origin, region, &tiles, &mut storage);

    for x in 0..5u32 {
        for y in 0..4u32 {
            let pos = TilePos::new(x, y);
            let expected = if (1..4).contains(&x) && (1..3).contains(&y) {
                Some(Entity::from_raw((x - 1) * 2 + (y - 1)))
            } else if x == 0 && y == 0 {
                Some(Entity::from_raw(100))
            } else {
                None
            };
            assert_eq!(storage.get(&pos), expected, "{pos:?}");
        }
    }
}

#[test]
fn hexagon_positions_under_a_shifted_system() {
    let positions = hexagon_positions(TilePos::new(2, 2), 1, HexCoordSystem::RowOdd);
    let expected: Vec<TilePos> = [(2, 2), (3, 2), (2, 3), (1, 3), (1, 2), (1, 1), (2, 1)]
        .iter()
        .map(|&(x, y)| TilePos::new(x, y))
        .collect();
    assert_eq!(positions, expected);

    // Hexes to the left of the map wrap around to positions beyond every map.
    let positions = hexagon_positions(TilePos::new(0, 0), 1, HexCoordSystem::Row);
    let expected: Vec<TilePos> = [
        (0, 0),
        (1, 0),
        (0, 1),
        (u32::MAX, 1),
        (u32::MAX, 0),
        (0, u32::MAX),
        (1, u32::MAX),
    ]
    .iter()
    .map(|&(x, y)| TilePos::new(x, y))
    .collect();
    assert_eq!(positions, expected);
}

#[test]
fn fill_tilemap_hexagon_leaves_out_what_does_not_fit() {
    let size = TilemapSize::new(3, 3);
    let mut storage = TileStorage::empty(size);
    storage.set(&TilePos::new(2, 2), Entity::from_raw(50));
    let tiles: Vec<Entity> = (0..7).map(Entity::from_raw).collect();
    fill_tilemap_hexagon(TilePos::new(0, 0), 1, HexCoordSystem::Row, &tiles, &mut storage);

    assert_eq!(storage.get(&TilePos::new(0, 0)), Some(Entity::from_raw(0)));
    assert_eq!(storage.get(&TilePos::new(1, 0)), Some(Entity::from_raw(1)));
    assert_eq!(storage.get(&TilePos::new(0, 1)), Some(Entity::from_raw(2)));
    assert_eq!(storage.get(&TilePos::new(2, 2)), Some(Entity::from_raw(50)));
    let stored = storage.iter().filter(|cell| cell.is_some()).count();
    assert_eq!(stored, 4);
}

#[test]
fn fill_tilemap_hexagon_in_the_middle_of_a_map() {
    let size = TilemapSize::new(7, 7);
    let mut storage = TileStorage::empty(size);
    let tiles: Vec<Entity> = (0..19).map(Entity::from_raw).collect();
    let origin = TilePos::new(3, 3);
    fill_tilemap_hexagon(origin, 2, HexCoordSystem::ColumnEven, &tiles, &mut storage);
    let positions = hexagon_positions(origin, 2, HexCoordSystem::ColumnEven);
    assert_eq!(positions.len(), 19);
    for (i, pos) in positions.iter().enumerate() {
        assert_eq!(storage.get(pos), Some(Entity::from_raw(i as u32)));
    }
    assert_eq!(storage.iter().filter(|cell| cell.is_some()).count(), 19);
}
