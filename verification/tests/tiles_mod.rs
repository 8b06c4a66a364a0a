use bevy_ecs_tilemap::map::{TilemapSize, TilemapType};
use bevy_ecs_tilemap::tiles::{TileFlip, TilePos, TilePosOld, TileTextureIndex, TileVisible};

#[test]
fn tile_pos_to_index() {
    let map_size = TilemapSize { x: 10, y: 10 };
    let pos = TilePos::new(3, 4);
    assert_eq!(pos.to_index(&map_size), 4 * 10 + 3);
}

#[test]
fn tile_pos_within_bounds() {
    let map_size = TilemapSize { x: 8, y: 8 };
    assert!(TilePos::new(7, 7).within_map_bounds(&map_size));
    assert!(!TilePos::new(8, 0).within_map_bounds(&map_size));
    assert!(!TilePos::new(0, 8).within_map_bounds(&map_size));
}

#[test]
fn visible_default_is_true() {
    assert!(TileVisible::default().0);
}

#[test]
fn component_defaults_are_zeroed() {
    assert_eq!(TilePos::default(), TilePos { x: 0, y: 0 });
    assert_eq!(TileTextureIndex::default().0, 0);
    assert_eq!(TileFlip::default(), TileFlip { x: false, y: false, d: false });
    assert_eq!(TilePosOld::default().0, TilePos::default());
    assert_eq!(TilemapSize::default(), TilemapSize { x: 0, y: 0 });
    assert_eq!(TilemapType::default(), TilemapType::Square);
}

#[test]
fn index_is_row_major_on_a_wide_map() {
    let map_size = TilemapSize::new(7, 3);
    assert_eq!(TilePos::new(0, 0).to_index(&map_size), 0);
    assert_eq!(TilePos::new(6, 0).to_index(&map_size), 6);
    assert_eq!(TilePos::new(0, 1).to_index(&map_size), 7);
    assert_eq!(TilePos::new(6, 2).to_index(&map_size), 20);
    assert_eq!(map_size.count(), 21);
    assert_eq!(map_size.wide_count(), 21);
}

#[test]
fn wide_count_does_not_overflow() {
    let map_size = TilemapSize::new(u32::MAX, u32::MAX);
    assert_eq!(map_size.wide_count(), (u32::MAX as u64) * (u32::MAX as u64));
}
