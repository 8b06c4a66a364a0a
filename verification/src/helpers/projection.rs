use crate::helpers::hex_grid::axial::{lemma_offset_axial_round_trip, AxialPos};
use crate::helpers::square_grid::diamond::DiamondPos;
use crate::helpers::square_grid::staggered::{lemma_staggered_square_round_trip, StaggeredPos};
use crate::helpers::square_grid::SquarePos;
use crate::map::{HexCoordSystem, IsoCoordSystem, TilemapSize, TilemapType};
use crate::tiles::TilePos;
use vstd::prelude::*;

verus! {

/// The tile at integer coordinates `(x, y)` of a map of the given size, if
/// there is one: both coordinates must be non-negative and below the map's
/// extent.
pub open spec fn tile_at(x: int, y: int, map_size: TilemapSize) -> Option<TilePos> {
    if 0 <= x < map_size.x && 0 <= y < map_size.y {
        Some(TilePos { x: x as u32, y: y as u32 })
    } else {
        None
    }
}

/// The tile at the coordinates `(x, y)`, held in 64 bits, of a map of the given
/// size, if there is one.
pub fn tile_at_wide(x: i64, y: i64, map_size: &TilemapSize) -> (pos: Option<TilePos>)
    ensures
        pos == tile_at(x as int, y as int, *map_size),
{
    if x < 0 || y < 0 || x >= map_size.x as i64 || y >= map_size.y as i64 {
        None
    } else {
        Some(TilePos { x: x as u32, y: y as u32 })
    }
}

impl TilePos {
    /// Try converting a pair of `i32` numbers into a `TilePos`.
    ///
    /// Returns `None` if either one of `x` or `y` is negative, or lies out of
    /// the bounds of `map_size`.
    pub fn from_i32_pair(x: i32, y: i32, map_size: &TilemapSize) -> (pos: Option<TilePos>)
        ensures
            pos == tile_at(x as int, y as int, *map_size),
    {
        if x < 0 || y < 0 {
            None
        } else {
            let tile_pos = TilePos { x: x as u32, y: y as u32 };
            if tile_pos.within_map_bounds(map_size) {
                Some(tile_pos)
            } else {
                None
            }
        }
    }
}

/// The position of a tile on the lattice that the projection of its layout
/// maps linearly to world space. Nine layouts share four projections.
#[derive(Clone, Copy, Debug, PartialEq, Eq, Structural)]
pub enum LatticePos {
    /// Square layout: the axes are scaled by the grid's cell size.
    Square(SquarePos),
    /// Hexes laid out in rows, whatever the shifted rows: axial coordinates.
    HexRow(AxialPos),
    /// Hexes laid out in columns, whatever the shifted columns: axial
    /// coordinates.
    HexColumn(AxialPos),
    /// Both isometric layouts: diamond coordinates.
    Diamond(DiamondPos),
}

impl HexCoordSystem {
    /// Whether the hexes of this system are laid out in rows.
    pub open spec fn spec_in_rows(self) -> bool {
        self == HexCoordSystem::RowEven || self == HexCoordSystem::RowOdd || self
            == HexCoordSystem::Row
    }

    /// Whether the hexes of this system are laid out in rows.
    pub fn in_rows(&self) -> (rows: bool)
        ensures
            rows == self.spec_in_rows(),
    {
        match self {
            HexCoordSystem::RowEven | HexCoordSystem::RowOdd | HexCoordSystem::Row => true,
            _ => false,
        }
    }
}

impl TilePos {
    /// The lattice position from which the projection of the given layout
    /// computes the center of this tile.
    pub open spec fn spec_lattice_pos(self, map_type: TilemapType) -> LatticePos {
        let x = self.x as i32;
        let y = self.y as i32;
        match map_type {
            TilemapType::Square => LatticePos::Square(SquarePos { x, y }),
            TilemapType::Hexagon(hex_coord_sys) => {
                let axial_pos = AxialPos::spec_from_offset_coords(x, y, hex_coord_sys);
                if hex_coord_sys.spec_in_rows() {
                    LatticePos::HexRow(axial_pos)
                } else {
                    LatticePos::HexColumn(axial_pos)
                }
            },
            TilemapType::Isometric(IsoCoordSystem::Diamond) => LatticePos::Diamond(
                DiamondPos { x, y },
            ),
            TilemapType::Isometric(IsoCoordSystem::Staggered) => LatticePos::Diamond(
                DiamondPos::spec_from_square((StaggeredPos { x, y }).spec_to_square()),
            ),
        }
    }

    /// The tile of a map of the given layout and size whose center the
    /// projection computes from the given lattice position: `None` if that
    /// tile would lie off the map, or if the layout has another lattice.
    pub open spec fn spec_from_lattice_pos(
        lattice_pos: LatticePos,
        map_type: TilemapType,
        map_size: TilemapSize,
    ) -> Option<TilePos> {
        match (map_type, lattice_pos) {
            (TilemapType::Square, LatticePos::Square(pos)) => tile_at(
                pos.x as int,
                pos.y as int,
                map_size,
            ),
            (TilemapType::Hexagon(hex_coord_sys), LatticePos::HexRow(pos)) => {
                if hex_coord_sys.spec_in_rows() {
                    tile_at(
                        pos.spec_offset_coords(hex_coord_sys).0 as int,
                        pos.spec_offset_coords(hex_coord_sys).1 as int,
                        map_size,
                    )
                } else {
                    None
                }
            },
            (TilemapType::Hexagon(hex_coord_sys), LatticePos::HexColumn(pos)) => {
                if hex_coord_sys.spec_in_rows() {
                    None
                } else {
                    tile_at(
                        pos.spec_offset_coords(hex_coord_sys).0 as int,
                        pos.spec_offset_coords(hex_coord_sys).1 as int,
                        map_size,
                    )
                }
            },
            (TilemapType::Isometric(IsoCoordSystem::Diamond), LatticePos::Diamond(pos)) => tile_at(
                pos.x as int,
                pos.y as int,
                map_size,
            ),
            (TilemapType::Isometric(IsoCoordSystem::Staggered), LatticePos::Diamond(pos)) => {
                let staggered_pos = StaggeredPos::spec_from_square(pos.spec_to_square());
                tile_at(staggered_pos.x as int, staggered_pos.y as int, map_size)
            },
            _ => None,
        }
    }

    /// The lattice position from which the projection of the given layout
    /// computes the center of this tile in world space.
    pub fn lattice_pos(&self, map_type: &TilemapType) -> (lattice_pos: LatticePos)
        ensures
            lattice_pos == self.spec_lattice_pos(*map_type),
    {
        match map_type {
            TilemapType::Square => LatticePos::Square(SquarePos::from(self)),
            TilemapType::Hexagon(hex_coord_sys) => {
                let axial_pos = AxialPos::from_tile_pos_given_coord_system(self, *hex_coord_sys);
                if hex_coord_sys.in_rows() {
                    LatticePos::HexRow(axial_pos)
                } else {
                    LatticePos::HexColumn(axial_pos)
                }
            },
            TilemapType::Isometric(coord_system) => match coord_system {
                IsoCoordSystem::Diamond => LatticePos::Diamond(DiamondPos::from(self)),
                IsoCoordSystem::Staggered => LatticePos::Diamond(
                    DiamondPos::from(StaggeredPos::from(self)),
                ),
            },
        }
    }

    /// The tile of a map of the given layout and size that has the given
    /// lattice position: the tile that a world position falls in, once the
    /// inverse projection of the layout has rounded it to the lattice.
    ///
    /// Returns `None` if that tile would lie off the map, or if the layout
    /// has another lattice.
    pub fn from_lattice_pos(
        lattice_pos: &LatticePos,
        map_type: &TilemapType,
        map_size: &TilemapSize,
    ) -> (pos: Option<TilePos>)
        ensures
            pos == TilePos::spec_from_lattice_pos(*lattice_pos, *map_type, *map_size),
    {
        match map_type {
            TilemapType::Square => match lattice_pos {
                LatticePos::Square(pos) => pos.as_tile_pos(map_size),
                _ => None,
            },
            TilemapType::Hexagon(hex_coord_sys) => match lattice_pos {
                LatticePos::HexRow(pos) => {
                    if hex_coord_sys.in_rows() {
                        pos.as_tile_pos_given_coord_system_and_map_size(*hex_coord_sys, map_size)
                    } else {
                        None
                    }
                },
                LatticePos::HexColumn(pos) => {
                    if hex_coord_sys.in_rows() {
                        None
                    } else {
                        pos.as_tile_pos_given_coord_system_and_map_size(*hex_coord_sys, map_size)
                    }
                },
                _ => None,
            },
            TilemapType::Isometric(coord_system) => match lattice_pos {
                LatticePos::Diamond(pos) => match coord_system {
                    IsoCoordSystem::Diamond => pos.as_tile_pos(map_size),
                    IsoCoordSystem::Staggered => StaggeredPos::from(pos).as_tile_pos(map_size),
                },
                _ => None,
            },
        }
    }
}

/// Under every layout, the lattice position of a tile of the map leads back
/// to that tile, provided an `i32` can hold the tile's coordinates.
pub proof fn lemma_lattice_round_trip(tile_pos: TilePos, map_type: TilemapType, map_size: TilemapSize)
    requires
        tile_pos.spec_within_map_bounds(map_size),
        tile_pos.x <= i32::MAX,
        tile_pos.y <= i32::MAX,
    ensures
        TilePos::spec_from_lattice_pos(tile_pos.spec_lattice_pos(map_type), map_type, map_size)
            == Some(tile_pos),
{
    let x = tile_pos.x as i32;
    let y = tile_pos.y as i32;
    match map_type {
        TilemapType::Hexagon(hex_coord_sys) => {
            lemma_offset_axial_round_trip(x, y, hex_coord_sys);
        },
        TilemapType::Isometric(IsoCoordSystem::Staggered) => {
            lemma_staggered_square_round_trip(StaggeredPos { x, y });
        },
        _ => {},
    }
}

/// A lattice position that leads to a tile of the map is the lattice
/// position of that tile.
pub proof fn lemma_lattice_pos_unique(
    lattice_pos: LatticePos,
    map_type: TilemapType,
    map_size: TilemapSize,
)
    requires
        TilePos::spec_from_lattice_pos(lattice_pos, map_type, map_size) is Some,
    ensures
        TilePos::spec_from_lattice_pos(lattice_pos, map_type, map_size)->Some_0.spec_lattice_pos(
            map_type,
        ) == lattice_pos,
{
    match (map_type, lattice_pos) {
        (TilemapType::Hexagon(hex_coord_sys), LatticePos::HexRow(pos)) => {
            crate::helpers::hex_grid::axial::lemma_axial_offset_round_trip(pos, hex_coord_sys);
        },
        (TilemapType::Hexagon(hex_coord_sys), LatticePos::HexColumn(pos)) => {
            crate::helpers::hex_grid::axial::lemma_axial_offset_round_trip(pos, hex_coord_sys);
        },
        (TilemapType::Isometric(IsoCoordSystem::Staggered), LatticePos::Diamond(pos)) => {
            crate::helpers::square_grid::staggered::lemma_square_staggered_round_trip(
                pos.spec_to_square(),
            );
        },
        _ => {},
    }
}

} // verus!
