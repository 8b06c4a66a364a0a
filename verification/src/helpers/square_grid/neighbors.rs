use crate::helpers::projection::{tile_at, tile_at_wide};
use crate::helpers::support::{option_seq, push_present, refs};
use crate::helpers::square_grid::staggered::StaggeredPos;
use crate::helpers::square_grid::SquarePos;
use crate::map::TilemapSize;
use crate::tiles::storage::TileStorage;
use crate::tiles::TilePos;
use bevy::ecs::entity::Entity;
use vstd::prelude::*;

verus! {

/// The eight directions in which a neighbor may lie on a square grid, counted
/// counter-clockwise from east.
#[derive(Clone, Copy, Debug, Eq, Hash, PartialEq, Structural)]
pub enum SquareDirection {
    East,
    NorthEast,
    North,
    NorthWest,
    West,
    SouthWest,
    South,
    SouthEast,
}

/// Array of the eight directions, in counter-clockwise order.
pub const SQUARE_DIRECTIONS: [SquareDirection; 8] = [
    SquareDirection::East,
    SquareDirection::NorthEast,
    SquareDirection::North,
    SquareDirection::NorthWest,
    SquareDirection::West,
    SquareDirection::SouthWest,
    SquareDirection::South,
    SquareDirection::SouthEast,
];

/// Array of the four cardinal directions, in counter-clockwise order.
pub const CARDINAL_SQUARE_DIRECTIONS: [SquareDirection; 4] = [
    SquareDirection::East,
    SquareDirection::North,
    SquareDirection::West,
    SquareDirection::South,
];

/// Offsets of the eight neighbors of a square tile, indexed by direction.
pub fn square_offsets() -> (offsets: [SquarePos; 8])
    ensures
        forall|d: SquareDirection| #[trigger] offsets[d.spec_index()] == d.spec_offset(),
{
    let offsets = [
        SquarePos { x: 1, y: 0 },
        SquarePos { x: 1, y: 1 },
        SquarePos { x: 0, y: 1 },
        SquarePos { x: -1, y: 1 },
        SquarePos { x: -1, y: 0 },
        SquarePos { x: -1, y: -1 },
        SquarePos { x: 0, y: -1 },
        SquarePos { x: 1, y: -1 },
    ];
    offsets
}

impl SquareDirection {
    /// Position of this direction in the counter-clockwise order.
    pub open spec fn spec_index(self) -> int {
        match self {
            SquareDirection::East => 0,
            SquareDirection::NorthEast => 1,
            SquareDirection::North => 2,
            SquareDirection::NorthWest => 3,
            SquareDirection::West => 4,
            SquareDirection::SouthWest => 5,
            SquareDirection::South => 6,
            SquareDirection::SouthEast => 7,
        }
    }

    /// The step that leads from a tile to its neighbor in this direction.
    pub open spec fn spec_offset(self) -> SquarePos {
        match self {
            SquareDirection::East => SquarePos { x: 1, y: 0 },
            SquareDirection::NorthEast => SquarePos { x: 1, y: 1 },
            SquareDirection::North => SquarePos { x: 0, y: 1 },
            SquareDirection::NorthWest => SquarePos { x: -1i32, y: 1 },
            SquareDirection::West => SquarePos { x: -1i32, y: 0 },
            SquareDirection::SouthWest => SquarePos { x: -1i32, y: -1i32 },
            SquareDirection::South => SquarePos { x: 0, y: -1i32 },
            SquareDirection::SouthEast => SquarePos { x: 1, y: -1i32 },
        }
    }

    /// Whether this is one of `East`, `North`, `West`, `South`.
    pub open spec fn spec_is_cardinal(self) -> bool {
        self == SquareDirection::East || self == SquareDirection::North || self
            == SquareDirection::West || self == SquareDirection::South
    }

    /// Position of this direction in the counter-clockwise order.
    pub fn index(self) -> (index: usize)
        ensures
            index == self.spec_index(),
    {
        match self {
            SquareDirection::East => 0,
            SquareDirection::NorthEast => 1,
            SquareDirection::North => 2,
            SquareDirection::NorthWest => 3,
            SquareDirection::West => 4,
            SquareDirection::SouthWest => 5,
            SquareDirection::South => 6,
            SquareDirection::SouthEast => 7,
        }
    }

    /// The step that leads from a tile to its neighbor in this direction.
    pub fn offset(self) -> (step: SquarePos)
        ensures
            step == self.spec_offset(),
    {
        match self {
            SquareDirection::East => SquarePos { x: 1, y: 0 },
            SquareDirection::NorthEast => SquarePos { x: 1, y: 1 },
            SquareDirection::North => SquarePos { x: 0, y: 1 },
            SquareDirection::NorthWest => SquarePos { x: -1, y: 1 },
            SquareDirection::West => SquarePos { x: -1, y: 0 },
            SquareDirection::SouthWest => SquarePos { x: -1, y: -1 },
            SquareDirection::South => SquarePos { x: 0, y: -1 },
            SquareDirection::SouthEast => SquarePos { x: 1, y: -1 },
        }
    }

    /// Whether this is one of `East`, `North`, `West`, `South`.
    pub fn is_cardinal(&self) -> (cardinal: bool)
        ensures
            cardinal == self.spec_is_cardinal(),
    {
        match self {
            SquareDirection::East => true,
            SquareDirection::North => true,
            SquareDirection::West => true,
            SquareDirection::South => true,
            _ => false,
        }
    }
}

/// The neighbor of a tile in the given direction on a square map, as integer
/// coordinates that may lie off the map.
pub open spec fn square_neighbor(tile_pos: TilePos, direction: SquareDirection) -> (int, int) {
    (tile_pos.x + direction.spec_offset().x, tile_pos.y + direction.spec_offset().y)
}

/// The neighbor of a tile in the given direction on a staggered isometric
/// map, as integer coordinates that may lie off the map. A step of `dx`
/// columns takes `dx` off the row, because each column stands one row higher
/// than the column before it.
pub open spec fn staggered_neighbor(tile_pos: TilePos, direction: SquareDirection) -> (int, int) {
    (
        tile_pos.x + direction.spec_offset().x,
        tile_pos.y + direction.spec_offset().y - direction.spec_offset().x,
    )
}

/// For a tile whose coordinates an `i32` can hold with room for the shear and
/// one step, the staggered neighbor is found by converting the tile position
/// to a square position, adding the direction's step, and converting back.
pub proof fn lemma_staggered_neighbor_by_conversion(tile_pos: TilePos, direction: SquareDirection)
    requires
        tile_pos.x < 0x4000_0000,
        tile_pos.y < 0x4000_0000,
    ensures
        ({
            let square_pos = (StaggeredPos {
                x: tile_pos.x as i32,
                y: tile_pos.y as i32,
            }).spec_to_square();
            let step = direction.spec_offset();
            let moved = SquarePos {
                x: (square_pos.x + step.x) as i32,
                y: (square_pos.y + step.y) as i32,
            };
            let neighbor = StaggeredPos::spec_from_square(moved);
            &&& square_pos.x + step.x == moved.x
            &&& square_pos.y + step.y == moved.y
            &&& staggered_neighbor(tile_pos, direction) == (neighbor.x as int, neighbor.y as int)
        }),
{
}

impl TilePos {
    /// Get the neighbor lying in the specified direction from this position,
    /// if it fits on the map and assuming that this is a map using the
    /// standard (non-isometric) square coordinate system.
    pub fn square_offset(&self, direction: &SquareDirection, map_size: &TilemapSize) -> (neighbor:
        Option<TilePos>)
        ensures
            neighbor == tile_at(
                square_neighbor(*self, *direction).0,
                square_neighbor(*self, *direction).1,
                *map_size,
            ),
    {
        let step = direction.offset();
        let x: i64 = self.x as i64 + step.x as i64;
        let y: i64 = self.y as i64 + step.y as i64;
        tile_at_wide(x, y, map_size)
    }

    /// Get the neighbor lying in the specified direction from this position,
    /// if it fits on the map and assuming that this is a map using the
    /// isometric diamond coordinate system, whose adjacency is that of the
    /// square system.
    pub fn diamond_offset(&self, direction: &SquareDirection, map_size: &TilemapSize) -> (neighbor:
        Option<TilePos>)
        ensures
            neighbor == tile_at(
                square_neighbor(*self, *direction).0,
                square_neighbor(*self, *direction).1,
                *map_size,
            ),
    {
        self.square_offset(direction, map_size)
    }

    /// Get the neighbor lying in the specified direction from this position,
    /// if it fits on the map and assuming that this is a map using the
    /// isometric staggered coordinate system.
    pub fn staggered_offset(
        &self,
        direction: &SquareDirection,
        map_size: &TilemapSize,
    ) -> (neighbor: Option<TilePos>)
        ensures
            neighbor == tile_at(
                staggered_neighbor(*self, *direction).0,
                staggered_neighbor(*self, *direction).1,
                *map_size,
            ),
    {
        let step = direction.offset();
        let x: i64 = self.x as i64 + step.x as i64;
        let y: i64 = self.y as i64 + step.y as i64 - step.x as i64;
        tile_at_wide(x, y, map_size)
    }
}

/// Stores some data `T` for each of the neighbors of a tile on a square
/// grid: at most eight, one per direction.
#[derive(Debug)]
pub struct Neighbors<T: Copy> {
    pub east: Option<T>,
    pub north_east: Option<T>,
    pub north: Option<T>,
    pub north_west: Option<T>,
    pub west: Option<T>,
    pub south_west: Option<T>,
    pub south: Option<T>,
    pub south_east: Option<T>,
}

impl<T: Copy> Default for Neighbors<T> {
    fn default() -> (neighbors: Neighbors<T>)
        ensures
            forall|d: SquareDirection| #[trigger] neighbors.spec_get(d) == None::<T>,
    {
        Neighbors {
            east: None,
            north_east: None,
            north: None,
            north_west: None,
            west: None,
            south_west: None,
            south: None,
            south_east: None,
        }
    }
}

impl<T: Copy> Neighbors<T> {
    /// The data of the neighbor in the given direction, if there is one.
    pub open spec fn spec_get(&self, direction: SquareDirection) -> Option<T> {
        match direction {
            SquareDirection::East => self.east,
            SquareDirection::NorthEast => self.north_east,
            SquareDirection::North => self.north,
            SquareDirection::NorthWest => self.north_west,
            SquareDirection::West => self.west,
            SquareDirection::SouthWest => self.south_west,
            SquareDirection::South => self.south,
            SquareDirection::SouthEast => self.south_east,
        }
    }

    /// Get an item that lies in a particular square direction.
    ///
    /// Will be `None` if no such item exists.
    pub fn get(&self, direction: SquareDirection) -> (item: Option<&T>)
        ensures
            item == (match self.spec_get(direction) {
                Some(data) => Some(&data),
                None => None,
            }),
    {
        match direction {
            SquareDirection::East => self.east.as_ref(),
            SquareDirection::NorthEast => self.north_east.as_ref(),
            SquareDirection::North => self.north.as_ref(),
            SquareDirection::NorthWest => self.north_west.as_ref(),
            SquareDirection::West => self.west.as_ref(),
            SquareDirection::SouthWest => self.south_west.as_ref(),
            SquareDirection::South => self.south.as_ref(),
            SquareDirection::SouthEast => self.south_east.as_ref(),
        }
    }

    /// Set item that lies in a particular square direction.
    ///
    /// Whatever lay in that direction before is replaced.
    pub fn set(&mut self, direction: SquareDirection, data: T)
        ensures
            final(self).spec_get(direction) == Some(data),
            forall|d: SquareDirection|
                d != direction ==> #[trigger] final(self).spec_get(d) == old(self).spec_get(d),
    {
        match direction {
            SquareDirection::East => {
                self.east = Some(data);
            },
            SquareDirection::NorthEast => {
                self.north_east = Some(data);
            },
            SquareDirection::North => {
                self.north = Some(data);
            },
            SquareDirection::NorthWest => {
                self.north_west = Some(data);
            },
            SquareDirection::West => {
                self.west = Some(data);
            },
            SquareDirection::SouthWest => {
                self.south_west = Some(data);
            },
            SquareDirection::South => {
                self.south = Some(data);
            },
            SquareDirection::SouthEast => {
                self.south_east = Some(data);
            },
        }
    }

    /// The neighbors' data in counter-clockwise order, those directions left
    /// out in which there is no neighbor.
    pub open spec fn spec_present(&self) -> Seq<T> {
        option_seq(self.east) + option_seq(self.north_east) + option_seq(self.north) + option_seq(self.north_west) + option_seq(self.west) + option_seq(self.south_west) + option_seq(self.south) + option_seq(self.south_east)
    }

    /// Iterate over neighbors, in the order specified by [`SQUARE_DIRECTIONS`].
    /// If a neighbor is `None`, this iterator will skip it.
    pub fn iter(&self) -> (items: std::vec::IntoIter<&T>)
        ensures
            vstd::std_specs::vec::into_iter_elts(items) == refs(self.spec_present()),
    {
        let mut items: Vec<&T> = Vec::with_capacity(8);
        proof {
            assert(items@ =~= refs(Seq::<T>::empty()));
        }
        push_present(&mut items, &self.east, Ghost(Seq::<T>::empty()));
        push_present(&mut items, &self.north_east, Ghost(Seq::<T>::empty() + option_seq(self.east)));
        push_present(&mut items, &self.north, Ghost(Seq::<T>::empty() + option_seq(self.east) + option_seq(self.north_east)));
        push_present(&mut items, &self.north_west, Ghost(Seq::<T>::empty() + option_seq(self.east) + option_seq(self.north_east) + option_seq(self.north)));
        push_present(&mut items, &self.west, Ghost(Seq::<T>::empty() + option_seq(self.east) + option_seq(self.north_east) + option_seq(self.north) + option_seq(self.north_west)));
        push_present(&mut items, &self.south_west, Ghost(Seq::<T>::empty() + option_seq(self.east) + option_seq(self.north_east) + option_seq(self.north) + option_seq(self.north_west) + option_seq(self.west)));
        push_present(&mut items, &self.south, Ghost(Seq::<T>::empty() + option_seq(self.east) + option_seq(self.north_east) + option_seq(self.north) + option_seq(self.north_west) + option_seq(self.west) + option_seq(self.south_west)));
        push_present(&mut items, &self.south_east, Ghost(Seq::<T>::empty() + option_seq(self.east) + option_seq(self.north_east) + option_seq(self.north) + option_seq(self.north_west) + option_seq(self.west) + option_seq(self.south_west) + option_seq(self.south)));
        proof {
            assert(Seq::<T>::empty() + option_seq(self.east) + option_seq(self.north_east) + option_seq(self.north) + option_seq(self.north_west) + option_seq(self.west) + option_seq(self.south_west) + option_seq(self.south) + option_seq(self.south_east) =~= self.spec_present());
        }
        items.into_iter()
    }

    /// Constructs neighbors from a closure that gives the data for each
    /// direction, or `None` where there is none.
    pub fn from_directional_closure<F>(f: F) -> (neighbors: Neighbors<T>) where
        F: Fn(SquareDirection) -> Option<T>,

        requires
            forall|d: SquareDirection| #[trigger] f.requires((d,)),
        ensures
            forall|d: SquareDirection| f.ensures((d,), #[trigger] neighbors.spec_get(d)),
    {
        Neighbors {
            east: f(SquareDirection::East),
            north_east: f(SquareDirection::NorthEast),
            north: f(SquareDirection::North),
            north_west: f(SquareDirection::NorthWest),
            west: f(SquareDirection::West),
            south_west: f(SquareDirection::SouthWest),
            south: f(SquareDirection::South),
            south_east: f(SquareDirection::SouthEast),
        }
    }

    /// Applies the supplied closure `f` with an [`Option::and_then`] to each
    /// neighbor element, where `f` takes `T` by reference.
    pub fn and_then<U: Copy, F>(&self, f: F) -> (mapped: Neighbors<U>) where F: Fn(&T) -> Option<U>
        requires
            forall|data: &T| #[trigger] f.requires((data,)),
        ensures
            forall|d: SquareDirection|
                (match self.spec_get(d) {
                    Some(data) => f.ensures((&data,), #[trigger] mapped.spec_get(d)),
                    None => #[trigger] mapped.spec_get(d) is None,
                }),
    {
        Neighbors {
            east: match self.east.as_ref() {
                Some(data) => f(data),
                None => None,
            },
            north_east: match self.north_east.as_ref() {
                Some(data) => f(data),
                None => None,
            },
            north: match self.north.as_ref() {
                Some(data) => f(data),
                None => None,
            },
            north_west: match self.north_west.as_ref() {
                Some(data) => f(data),
                None => None,
            },
            west: match self.west.as_ref() {
                Some(data) => f(data),
                None => None,
            },
            south_west: match self.south_west.as_ref() {
                Some(data) => f(data),
                None => None,
            },
            south: match self.south.as_ref() {
                Some(data) => f(data),
                None => None,
            },
            south_east: match self.south_east.as_ref() {
                Some(data) => f(data),
                None => None,
            },
        }
    }

    /// Applies the supplied closure `f` with an [`Option::map`] to each
    /// neighbor element, where `f` takes `T` by reference.
    pub fn map_ref<U: Copy, F>(&self, f: F) -> (mapped: Neighbors<U>) where F: Fn(&T) -> U
        requires
            forall|data: &T| #[trigger] f.requires((data,)),
        ensures
            forall|d: SquareDirection|
                (match self.spec_get(d) {
                    Some(data) => (#[trigger] mapped.spec_get(d)) is Some && f.ensures(
                        (&data,),
                        mapped.spec_get(d)->Some_0,
                    ),
                    None => #[trigger] mapped.spec_get(d) is None,
                }),
    {
        Neighbors {
            east: match self.east.as_ref() {
                Some(data) => Some(f(data)),
                None => None,
            },
            north_east: match self.north_east.as_ref() {
                Some(data) => Some(f(data)),
                None => None,
            },
            north: match self.north.as_ref() {
                Some(data) => Some(f(data)),
                None => None,
            },
            north_west: match self.north_west.as_ref() {
                Some(data) => Some(f(data)),
                None => None,
            },
            west: match self.west.as_ref() {
                Some(data) => Some(f(data)),
                None => None,
            },
            south_west: match self.south_west.as_ref() {
                Some(data) => Some(f(data)),
                None => None,
            },
            south: match self.south.as_ref() {
                Some(data) => Some(f(data)),
                None => None,
            },
            south_east: match self.south_east.as_ref() {
                Some(data) => Some(f(data)),
                None => None,
            },
        }
    }
}

impl Neighbors<TilePos> {
    /// Returns neighboring tile positions, given a coordinate system.
    ///
    /// In general, if diagonals are not included there are four neighbors
    /// (the cardinal ones); with diagonals there are eight. A direction in
    /// which the neighbor would lie off the map holds `None`.
    pub fn get_square_neighboring_positions(
        tile_pos: &TilePos,
        map_size: &TilemapSize,
        include_diagonals: bool,
    ) -> (neighbors: Neighbors<TilePos>)
        ensures
            forall|d: SquareDirection| #[trigger]
                neighbors.spec_get(d) == (if include_diagonals || d.spec_is_cardinal() {
                    tile_at(
                        square_neighbor(*tile_pos, d).0,
                        square_neighbor(*tile_pos, d).1,
                        *map_size,
                    )
                } else {
                    None
                }),
    {
        let mut neighbors = Neighbors {
            east: tile_pos.square_offset(&SquareDirection::East, map_size),
            north_east: None,
            north: tile_pos.square_offset(&SquareDirection::North, map_size),
            north_west: None,
            west: tile_pos.square_offset(&SquareDirection::West, map_size),
            south_west: None,
            south: tile_pos.square_offset(&SquareDirection::South, map_size),
            south_east: None,
        };
        if include_diagonals {
            neighbors.north_east = tile_pos.square_offset(&SquareDirection::NorthEast, map_size);
            neighbors.north_west = tile_pos.square_offset(&SquareDirection::NorthWest, map_size);
            neighbors.south_west = tile_pos.square_offset(&SquareDirection::SouthWest, map_size);
            neighbors.south_east = tile_pos.square_offset(&SquareDirection::SouthEast, map_size);
        }
        neighbors
    }

    /// Returns neighboring tile positions on an isometric diamond map, whose
    /// adjacency is that of the square system.
    pub fn get_diamond_neighboring_positions(
        tile_pos: &TilePos,
        map_size: &TilemapSize,
        include_diagonals: bool,
    ) -> (neighbors: Neighbors<TilePos>)
        ensures
            forall|d: SquareDirection| #[trigger]
                neighbors.spec_get(d) == (if include_diagonals || d.spec_is_cardinal() {
                    tile_at(
                        square_neighbor(*tile_pos, d).0,
                        square_neighbor(*tile_pos, d).1,
                        *map_size,
                    )
                } else {
                    None
                }),
    {
        Neighbors::get_square_neighboring_positions(tile_pos, map_size, include_diagonals)
    }

    /// Returns neighboring tile positions on an isometric staggered map.
    ///
    /// In general, if diagonals are not included there are four neighbors
    /// (the cardinal ones); with diagonals there are eight. A direction in
    /// which the neighbor would lie off the map holds `None`.
    pub fn get_staggered_neighboring_positions(
        tile_pos: &TilePos,
        map_size: &TilemapSize,
        include_diagonals: bool,
    ) -> (neighbors: Neighbors<TilePos>)
        ensures
            forall|d: SquareDirection| #[trigger]
                neighbors.spec_get(d) == (if include_diagonals || d.spec_is_cardinal() {
                    tile_at(
                        staggered_neighbor(*tile_pos, d).0,
                        staggered_neighbor(*tile_pos, d).1,
                        *map_size,
                    )
                } else {
                    None
                }),
    {
        let mut neighbors = Neighbors {
            east: tile_pos.staggered_offset(&SquareDirection::East, map_size),
            north_east: None,
            north: tile_pos.staggered_offset(&SquareDirection::North, map_size),
            north_west: None,
            west: tile_pos.staggered_offset(&SquareDirection::West, map_size),
            south_west: None,
            south: tile_pos.staggered_offset(&SquareDirection::South, map_size),
            south_east: None,
        };
        if include_diagonals {
            neighbors.north_east = tile_pos.staggered_offset(&SquareDirection::NorthEast, map_size);
            neighbors.north_west = tile_pos.staggered_offset(&SquareDirection::NorthWest, map_size);
            neighbors.south_west = tile_pos.staggered_offset(&SquareDirection::SouthWest, map_size);
            neighbors.south_east = tile_pos.staggered_offset(&SquareDirection::SouthEast, map_size);
        }
        neighbors
    }

    /// Returns the entities associated with each tile position: `None` in a
    /// direction without a neighbor, and where the storage holds no entity for
    /// the neighbor or does not reach that far.
    pub fn entities(&self, tile_storage: &TileStorage) -> (entities: Neighbors<Entity>)
        ensures
            forall|d: SquareDirection| #[trigger]
                entities.spec_get(d) == (match self.spec_get(d) {
                    Some(tile_pos) => tile_storage.spec_get(tile_pos),
                    None => None,
                }),
    {
        Neighbors {
            east: match self.east {
                Some(tile_pos) => tile_storage.checked_get(&tile_pos),
                None => None,
            },
            north_east: match self.north_east {
                Some(tile_pos) => tile_storage.checked_get(&tile_pos),
                None => None,
            },
            north: match self.north {
                Some(tile_pos) => tile_storage.checked_get(&tile_pos),
                None => None,
            },
            north_west: match self.north_west {
                Some(tile_pos) => tile_storage.checked_get(&tile_pos),
                None => None,
            },
            west: match self.west {
                Some(tile_pos) => tile_storage.checked_get(&tile_pos),
                None => None,
            },
            south_west: match self.south_west {
                Some(tile_pos) => tile_storage.checked_get(&tile_pos),
                None => None,
            },
            south: match self.south {
                Some(tile_pos) => tile_storage.checked_get(&tile_pos),
                None => None,
            },
            south_east: match self.south_east {
                Some(tile_pos) => tile_storage.checked_get(&tile_pos),
                None => None,
            },
        }
    }
}

} // verus!
