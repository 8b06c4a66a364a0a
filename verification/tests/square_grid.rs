use bevy::prelude::Entity;
use bevy_ecs_tilemap::helpers::square_grid::diamond::DiamondPos;
use bevy_ecs_tilemap::helpers::square_grid::neighbors::{
    square_offsets, Neighbors, SquareDirection, CARDINAL_SQUARE_DIRECTIONS, SQUARE_DIRECTIONS,
};
use bevy_ecs_tilemap::helpers::square_grid::staggered::StaggeredPos;
use bevy_ecs_tilemap::helpers::square_grid::SquarePos;
use bevy_ecs_tilemap::map::TilemapSize;
use bevy_ecs_tilemap::tiles::storage::TileStorage;
use bevy_ecs_tilemap::tiles::TilePos;

#[test]
fn add_sub_mul_work() {
    let a = SquarePos::new(2, -3);
    let b = SquarePos::new(-4, 8);

    assert_eq!(a + b, SquarePos::new(-2, 5));
    assert_eq!(a - b, SquarePos::new(6, -11));
    assert_eq!(3 * a, SquarePos::new(6, -9));
}

#[test]
fn conversions_are_correct() {
    let tp = TilePos::new(4, 7);
    assert_eq!(SquarePos::from(&tp), SquarePos::new(4, 7));

    let dp = DiamondPos { x: -2, y: 5 };
    assert_eq!(SquarePos::from(dp), SquarePos::new(-2, 5));

    let sp = StaggeredPos { x: 3, y: 1 };
    assert_eq!(SquarePos::from(sp), SquarePos::new(3, 4));
}

#[test]
fn mod_as_tile_pos_respects_bounds() {
    let map_size = TilemapSize { x: 10, y: 10 };
    let inside = SquarePos::new(3, 9);
    assert_eq!(inside.as_tile_pos(&map_size), Some(TilePos::new(3, 9)));

    let neg = SquarePos::new(-1, 0);
    let out = SquarePos::new(10, 0);
    assert!(neg.as_tile_pos(&map_size).is_none());
    assert!(out.as_tile_pos(&map_size).is_none());
}

#[test]
fn offset_matches_square_offsets_table() {
    let origin = SquarePos::new(0, 0);
    for dir in [
        SquareDirection::North,
        SquareDirection::East,
        SquareDirection::South,
        SquareDirection::West,
    ] {
        assert_eq!(origin.offset(&dir), square_offsets()[dir as usize]);
    }
}

#[test]
fn helpers__square_grid__diamond_as_tile_pos_respects_bounds() {
    let map = TilemapSize { x: 5, y: 5 };
    let inside = DiamondPos::new(3, 4);
    let outside = DiamondPos::new(-1, 0);

    assert_eq!(inside.as_tile_pos(&map), Some(TilePos { x: 3, y: 4 }));
    assert_eq!(outside.as_tile_pos(&map), None);
}

#[test]
fn diamond_offset_follows_square_direction() {
    let map = TilemapSize { x: 4, y: 4 };
    let origin = TilePos { x: 1, y: 1 };

    let up = origin.diamond_offset(&SquareDirection::North, &map).unwrap();
    assert_eq!(up, TilePos { x: 1, y: 2 });

    let right = origin.diamond_offset(&SquareDirection::East, &map).unwrap();
    assert_eq!(right, TilePos { x: 2, y: 1 });
}

#[test]
fn square_offset_roundtrip() {
    let map_size = TilemapSize { x: 5, y: 5 };
    let origin = TilePos::new(2, 2);

    // Take a step north then south – we should land back on origin.
    let north = origin
        .square_offset(&SquareDirection::North, &map_size)
        .expect("in-bounds north neighbour");
    let back = north
        .square_offset(&SquareDirection::South, &map_size)
        .expect("in-bounds south neighbour");

    assert_eq!(back, origin);
}

#[test]
fn square_offset_out_of_bounds_returns_none() {
    let map_size = TilemapSize { x: 4, y: 4 };
    let edge = TilePos::new(0, 0);

    assert!(edge
        .square_offset(&SquareDirection::South, &map_size)
        .is_none());
    assert!(edge
        .square_offset(&SquareDirection::West, &map_size)
        .is_none());
}

#[test]
fn square_neighboring_positions_centre_of_small_map() {
    let map = TilemapSize { x: 3, y: 3 };
    let centre = TilePos::new(1, 1);

    let neighbors = Neighbors::get_square_neighboring_positions(&centre, &map, true);

    // we should get all eight neighbouring cells
    for (dx, dy) in [
        (1, 0),
        (1, 1),
        (0, 1),
        (-1, 1),
        (-1, 0),
        (-1, -1),
        (0, -1),
        (1, -1),
    ] {
        let expected = TilePos::new((1isize + dx) as u32, (1isize + dy) as u32);
        assert!(
            neighbors.iter().any(|p| *p == expected),
            "expected to find neighbour at {expected:?}"
        );
    }
}

#[test]
fn square_neighboring_positions_edges_clamp_to_none() {
    let map = TilemapSize { x: 2, y: 2 };
    let corner = TilePos::new(0, 0);

    let neighbors = Neighbors::get_square_neighboring_positions(&corner, &map, true);

    // (0,0) only has East, North, NorthEast inside the map
    assert_eq!(neighbors.east, Some(TilePos::new(1, 0)));
    assert_eq!(neighbors.north, Some(TilePos::new(0, 1)));
    assert_eq!(neighbors.north_east, Some(TilePos::new(1, 1)));

    assert!(neighbors.north_west.is_none());
    assert!(neighbors.west.is_none());
    assert!(neighbors.south_west.is_none());
    assert!(neighbors.south.is_none());
    assert!(neighbors.south_east.is_none());
}

#[test]
fn staggered_neighboring_positions_respects_offset() {
    let map: TilemapSize = TilemapSize { x: 3, y: 3 };
    let start: TilePos = TilePos::new(1, 1);

    let neighbors: Neighbors<TilePos> =
        Neighbors::get_staggered_neighboring_positions(&start, &map, false);

    // only cardinals requested
    assert!(neighbors.north_east.is_none());
    assert!(neighbors.south_west.is_none());
    assert_eq!(
        neighbors.north,
        Some(
            StaggeredPos::from(&start)
                .offset(&SquareDirection::North)
                .as_tile_pos(&map)
                .unwrap()
        )
    );
    assert_eq!(
        neighbors.east,
        Some(
            StaggeredPos::from(&start)
                .offset(&SquareDirection::East)
                .as_tile_pos(&map)
                .unwrap()
        )
    );
}

#[test]
fn tile_storage_entity_lookup() {
    // Smoke-test the `entities` helper.
    let map = TilemapSize { x: 2, y: 2 };
    let mut storage = TileStorage::empty(map);

    let a = Entity::from_raw(1);
    let b = Entity::from_raw(2);
    storage.set(&TilePos::new(1, 0), a);
    storage.set(&TilePos::new(0, 1), b);

    let pos = TilePos::new(0, 0);
    let neighbors = Neighbors::get_square_neighboring_positions(&pos, &map, false);
    let entity_neighbors = neighbors.entities(&storage);

    assert_eq!(entity_neighbors.east, Some(a));
    assert_eq!(entity_neighbors.north, Some(b));
    // other cardinals None, diagonals not requested
    assert!(entity_neighbors.south.is_none());
    assert!(entity_neighbors.west.is_none());
}

#[test]
fn as_tile_pos_bounds() {
    let map = TilemapSize { x: 10, y: 10 };

    let inside = StaggeredPos::new(5, 5);
    let outside = StaggeredPos::new(-1, 0);

    assert_eq!(inside.as_tile_pos(&map).unwrap(), TilePos { x: 5, y: 5 });
    assert!(outside.as_tile_pos(&map).is_none());
}

#[test]
fn tilepos_staggered_offset() {
    let map = TilemapSize { x: 3, y: 3 };

    let origin = TilePos { x: 1, y: 1 };
    assert_eq!(
        origin.staggered_offset(&SquareDirection::North, &map).unwrap(),
        TilePos { x: 1, y: 2 }
    );

    // Edge should return None
    let edge = TilePos { x: 0, y: 0 };
    assert!(edge.staggered_offset(&SquareDirection::West, &map).is_none());
}

#[test]
fn square_offsets_follow_the_direction_order() {
    let table = square_offsets();
    let expected = [(1, 0), (1, 1), (0, 1), (-1, 1), (-1, 0), (-1, -1), (0, -1), (1, -1)];
    for (i, dir) in SQUARE_DIRECTIONS.into_iter().enumerate() {
        assert_eq!(dir.index(), i);
        assert_eq!(dir.offset(), table[i]);
        assert_eq!(table[i], SquarePos::new(expected[i].0, expected[i].1));
        assert_eq!(SquarePos::from(dir), table[i]);
        assert_eq!(SquarePos::from(&dir), table[i]);
        assert_eq!(dir.is_cardinal(), i % 2 == 0);
    }
    for dir in CARDINAL_SQUARE_DIRECTIONS {
        assert!(dir.is_cardinal());
    }
}

#[test]
fn staggered_and_square_positions_round_trip() {
    for x in -6..=6 {
        for y in -6..=6 {
            let staggered = StaggeredPos::new(x, y);
            let square = SquarePos::from(staggered);
            assert_eq!(square, SquarePos::new(x, y + x));
            assert_eq!(StaggeredPos::from(square), staggered);
            assert_eq!(StaggeredPos::from(&square), staggered);
            assert_eq!(SquarePos::from(&staggered), square);

            let diamond = DiamondPos::from(staggered);
            assert_eq!(diamond, DiamondPos::new(x, y + x));
            assert_eq!(StaggeredPos::from(diamond), staggered);
            assert_eq!(StaggeredPos::from(&diamond), staggered);
            assert_eq!(DiamondPos::from(&staggered), diamond);

            let square = SquarePos::new(x, y);
            assert_eq!(SquarePos::from(DiamondPos::from(square)), square);
            assert_eq!(SquarePos::from(&DiamondPos::from(&square)), square);
            assert_eq!(SquarePos::from(StaggeredPos::from(square)), square);
        }
    }
}

#[test]
fn staggered_round_trip_wraps_at_the_ends_of_the_range() {
    let staggered = StaggeredPos::new(i32::MAX, 1);
    let square = SquarePos::from(staggered);
    assert_eq!(square, SquarePos::new(i32::MAX, i32::MIN));
    assert_eq!(StaggeredPos::from(square), staggered);

    let square = SquarePos::new(i32::MAX, i32::MIN);
    assert_eq!(SquarePos::from(StaggeredPos::from(square)), square);
}

#[test]
fn staggered_offsets_shear_the_square_step() {
    let pos = StaggeredPos::new(4, 2);
    let expected = [(5, 1), (5, 2), (4, 3), (3, 4), (3, 3), (3, 2), (4, 1), (5, 0)];
    for (i, dir) in SQUARE_DIRECTIONS.into_iter().enumerate() {
        let neighbor = pos.offset(&dir);
        assert_eq!(neighbor, StaggeredPos::new(expected[i].0, expected[i].1));
        // The same step, taken on the square grid.
        let square = SquarePos::from(pos).offset(&dir);
        assert_eq!(StaggeredPos::from(square), neighbor);
        assert_eq!(
            DiamondPos::from(pos).offset(&dir),
            DiamondPos::from(neighbor)
        );
    }
}

#[test]
fn tile_offsets_agree_with_position_offsets() {
    let map = TilemapSize { x: 4, y: 3 };
    for x in 0..4 {
        for y in 0..3 {
            let tile_pos = TilePos { x, y };
            for dir in SQUARE_DIRECTIONS {
                assert_eq!(
                    tile_pos.square_offset(&dir, &map),
                    SquarePos::from(&tile_pos).offset(&dir).as_tile_pos(&map)
                );
                assert_eq!(
                    tile_pos.diamond_offset(&dir, &map),
                    DiamondPos::from(&tile_pos).offset(&dir).as_tile_pos(&map)
                );
                assert_eq!(
                    tile_pos.staggered_offset(&dir, &map),
                    StaggeredPos::from(&tile_pos).offset(&dir).as_tile_pos(&map)
                );
            }
        }
    }
}

#[test]
fn tile_offsets_at_the_end_of_the_coordinate_range() {
    let map = TilemapSize { x: u32::MAX, y: u32::MAX };
    let last = TilePos { x: u32::MAX - 1, y: u32::MAX - 1 };
    assert_eq!(last.square_offset(&SquareDirection::East, &map), None);
    assert_eq!(last.square_offset(&SquareDirection::North, &map), None);
    assert_eq!(
        last.square_offset(&SquareDirection::SouthWest, &map),
        Some(TilePos { x: u32::MAX - 2, y: u32::MAX - 2 })
    );
    assert_eq!(
        last.staggered_offset(&SquareDirection::West, &map),
        None
    );
    assert_eq!(
        last.staggered_offset(&SquareDirection::East, &map),
        Some(TilePos { x: u32::MAX, y: u32::MAX - 2 }).filter(|p| p.within_map_bounds(&map))
    );
}

#[test]
fn neighbors_without_diagonals_hold_cardinals_only() {
    let map = TilemapSize { x: 3, y: 3 };
    let centre = TilePos::new(1, 1);
    let neighbors = Neighbors::get_square_neighboring_positions(&centre, &map, false);
    assert_eq!(neighbors.east, Some(TilePos::new(2, 1)));
    assert_eq!(neighbors.north, Some(TilePos::new(1, 2)));
    assert_eq!(neighbors.west, Some(TilePos::new(0, 1)));
    assert_eq!(neighbors.south, Some(TilePos::new(1, 0)));
    assert!(neighbors.north_east.is_none());
    assert!(neighbors.north_west.is_none());
    assert!(neighbors.south_west.is_none());
    assert!(neighbors.south_east.is_none());
    let listed: Vec<TilePos> = neighbors.iter().copied().collect();
    assert_eq!(
        listed,
        vec![
            TilePos::new(2, 1),
            TilePos::new(1, 2),
            TilePos::new(0, 1),
            TilePos::new(1, 0)
        ]
    );

    let diamond = Neighbors::get_diamond_neighboring_positions(&centre, &map, false);
    for dir in SQUARE_DIRECTIONS {
        assert_eq!(diamond.get(dir), neighbors.get(dir));
    }
}

#[test]
fn staggered_neighbors_with_diagonals() {
    let map = TilemapSize { x: 3, y: 3 };
    let start = TilePos::new(1, 1);
    let neighbors = Neighbors::get_staggered_neighboring_positions(&start, &map, true);
    assert_eq!(neighbors.east, Some(TilePos::new(2, 0)));
    assert_eq!(neighbors.north_east, Some(TilePos::new(2, 1)));
    assert_eq!(neighbors.north, Some(TilePos::new(1, 2)));
    assert_eq!(neighbors.north_west, None);
    assert_eq!(neighbors.west, Some(TilePos::new(0, 2)));
    assert_eq!(neighbors.south_west, Some(TilePos::new(0, 1)));
    assert_eq!(neighbors.south, Some(TilePos::new(1, 0)));
    assert_eq!(neighbors.south_east, None);
}

#[test]
fn neighbors_get_and_set() {
    let mut neighbors: Neighbors<u32> = Neighbors::default();
    for dir in SQUARE_DIRECTIONS {
        assert_eq!(neighbors.get(dir), None);
    }
    neighbors.set(SquareDirection::NorthWest, 7);
    neighbors.set(SquareDirection::South, 9);
    for dir in SQUARE_DIRECTIONS {
        let expected = match dir {
            SquareDirection::NorthWest => Some(&7),
            SquareDirection::South => Some(&9),
            _ => None,
        };
        assert_eq!(neighbors.get(dir), expected);
    }
    neighbors.set(SquareDirection::South, 11);
    assert_eq!(neighbors.south, Some(11));
    let listed: Vec<u32> = neighbors.iter().copied().collect();
    assert_eq!(listed, vec![7, 11]);
}

#[test]
fn neighbors_from_closures() {
    let neighbors = Neighbors::from_directional_closure(|dir: SquareDirection| {
        if dir.is_cardinal() {
            Some(dir.index() as u32)
        } else {
            None
        }
    });
    assert_eq!(neighbors.east, Some(0));
    assert_eq!(neighbors.north, Some(2));
    assert_eq!(neighbors.west, Some(4));
    assert_eq!(neighbors.south, Some(6));
    assert_eq!(neighbors.north_east, None);

    let doubled = neighbors.map_ref(|v: &u32| v * 2);
    assert_eq!(doubled.north, Some(4));
    assert_eq!(doubled.south, Some(12));
    assert_eq!(doubled.south_east, None);

    let large = neighbors.and_then(|v: &u32| if *v >= 4 { Some(*v) } else { None });
    assert_eq!(large.east, None);
    assert_eq!(large.north, None);
    assert_eq!(large.west, Some(4));
    assert_eq!(large.south, Some(6));
}

#[test]
fn entities_of_neighbors_beyond_the_storage_are_none() {
    let mut storage = TileStorage::empty(TilemapSize { x: 2, y: 2 });
    storage.set(&TilePos::new(1, 1), Entity::from_raw(5));
    // Positions of a larger map than the storage was made for.
    let map = TilemapSize { x: 4, y: 4 };
    let neighbors = Neighbors::get_square_neighboring_positions(&TilePos::new(2, 2), &map, true);
    let entities = neighbors.entities(&storage);
    assert_eq!(entities.south_west, Some(Entity::from_raw(5)));
    assert_eq!(entities.east, None);
    assert_eq!(entities.north, None);
    assert_eq!(entities.south, None);
}
