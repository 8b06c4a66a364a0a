use crate::helpers::hex_grid::axial::AxialPos;
use crate::helpers::hex_grid::offset::{half_ceil, half_floor};
use crate::helpers::projection::{tile_at, tile_at_wide};
use crate::helpers::support::{option_seq, push_present, refs};
use crate::map::{HexCoordSystem, TilemapSize};
use crate::tiles::storage::TileStorage;
use crate::tiles::TilePos;
use bevy::ecs::entity::Entity;
use vstd::prelude::*;

verus! {

/// The six directions to a neighbor on a hexagonal grid, counted
/// counter-clockwise. `Zero` points along the positive `q` axis.
#[derive(Clone, Copy, Debug, Hash, PartialEq, Eq, PartialOrd, Ord, Structural)]
pub enum HexDirection {
    Zero,
    One,
    Two,
    Three,
    Four,
    Five,
}

/// Array of the six directions, in counter-clockwise order.
pub const HEX_DIRECTIONS: [HexDirection; 6] = [
    HexDirection::Zero,
    HexDirection::One,
    HexDirection::Two,
    HexDirection::Three,
    HexDirection::Four,
    HexDirection::Five,
];

/// Offsets of the six neighbors of a hex, indexed by direction.
pub fn hex_offsets() -> (offsets: [AxialPos; 6])
    ensures
        forall|d: HexDirection| #[trigger] offsets[d.spec_index()] == d.spec_offset(),
{
    let offsets = [
        AxialPos { q: 1, r: 0 },
        AxialPos { q: 0, r: 1 },
        AxialPos { q: -1, r: 1 },
        AxialPos { q: -1, r: 0 },
        AxialPos { q: 0, r: -1 },
        AxialPos { q: 1, r: -1 },
    ];
    offsets
}

impl HexDirection {
    /// Position of this direction in the counter-clockwise order.
    pub open spec fn spec_index(self) -> int {
        match self {
            HexDirection::Zero => 0,
            HexDirection::One => 1,
            HexDirection::Two => 2,
            HexDirection::Three => 3,
            HexDirection::Four => 4,
            HexDirection::Five => 5,
        }
    }

    /// The direction at a position of the counter-clockwise order, taken
    /// modulo six.
    pub open spec fn spec_from_index(index: int) -> HexDirection {
        let turn = index % 6;
        if turn == 0 {
            HexDirection::Zero
        } else if turn == 1 {
            HexDirection::One
        } else if turn == 2 {
            HexDirection::Two
        } else if turn == 3 {
            HexDirection::Three
        } else if turn == 4 {
            HexDirection::Four
        } else {
            HexDirection::Five
        }
    }

    /// The step that leads from a hex to its neighbor in this direction.
    pub open spec fn spec_offset(self) -> AxialPos {
        match self {
            HexDirection::Zero => AxialPos { q: 1, r: 0 },
            HexDirection::One => AxialPos { q: 0, r: 1 },
            HexDirection::Two => AxialPos { q: -1i32, r: 1 },
            HexDirection::Three => AxialPos { q: -1i32, r: 0 },
            HexDirection::Four => AxialPos { q: 0, r: -1i32 },
            HexDirection::Five => AxialPos { q: 1, r: -1i32 },
        }
    }

    /// Position of this direction in the counter-clockwise order.
    pub fn index(self) -> (index: usize)
        ensures
            index == self.spec_index(),
    {
        match self {
            HexDirection::Zero => 0,
            HexDirection::One => 1,
            HexDirection::Two => 2,
            HexDirection::Three => 3,
            HexDirection::Four => 4,
            HexDirection::Five => 5,
        }
    }

    /// The step that leads from a hex to its neighbor in this direction.
    pub fn offset(self) -> (step: AxialPos)
        ensures
            step == self.spec_offset(),
    {
        match self {
            HexDirection::Zero => AxialPos { q: 1, r: 0 },
            HexDirection::One => AxialPos { q: 0, r: 1 },
            HexDirection::Two => AxialPos { q: -1, r: 1 },
            HexDirection::Three => AxialPos { q: -1, r: 0 },
            HexDirection::Four => AxialPos { q: 0, r: -1 },
            HexDirection::Five => AxialPos { q: 1, r: -1 },
        }
    }
}

impl From<usize> for HexDirection {
    fn from(choice: usize) -> HexDirection {
        let turn: usize = choice % 6;
        if turn == 0 {
            HexDirection::Zero
        } else if turn == 1 {
            HexDirection::One
        } else if turn == 2 {
            HexDirection::Two
        } else if turn == 3 {
            HexDirection::Three
        } else if turn == 4 {
            HexDirection::Four
        } else {
            HexDirection::Five
        }
    }
}

impl vstd::std_specs::convert::FromSpecImpl<usize> for HexDirection {
    open spec fn obeys_from_spec() -> bool {
        true
    }

    open spec fn from_spec(choice: usize) -> HexDirection {
        HexDirection::spec_from_index(choice as int)
    }
}

/// How far a coordinate system shifts the row or column numbered `along`:
/// by half of `along`, rounded up where the even rows or columns are the
/// shifted ones, rounded down where the odd ones are; not at all under the
/// two axial systems.
pub open spec fn offset_shift(along: int, hex_coord_sys: HexCoordSystem) -> int {
    match hex_coord_sys {
        HexCoordSystem::RowEven | HexCoordSystem::ColumnEven => half_ceil(along),
        HexCoordSystem::RowOdd | HexCoordSystem::ColumnOdd => half_floor(along),
        HexCoordSystem::Row | HexCoordSystem::Column => 0,
    }
}

/// Whether a coordinate system shifts columns rather than rows.
pub open spec fn shifts_columns(hex_coord_sys: HexCoordSystem) -> bool {
    hex_coord_sys == HexCoordSystem::ColumnEven || hex_coord_sys == HexCoordSystem::ColumnOdd
}

/// The axial coordinates of the hex at `(x, y)` under the given coordinate
/// system, over unbounded integers.
pub open spec fn axial_coords(x: int, y: int, hex_coord_sys: HexCoordSystem) -> (int, int) {
    if shifts_columns(hex_coord_sys) {
        (x, y - offset_shift(x, hex_coord_sys))
    } else {
        (x - offset_shift(y, hex_coord_sys), y)
    }
}

/// The coordinates, under the given coordinate system, of the hex at the
/// axial position `(q, r)`, over unbounded integers.
pub open spec fn offset_coords(q: int, r: int, hex_coord_sys: HexCoordSystem) -> (int, int) {
    if shifts_columns(hex_coord_sys) {
        (q, r + offset_shift(q, hex_coord_sys))
    } else {
        (q + offset_shift(r, hex_coord_sys), r)
    }
}

/// The neighbor of a tile in the given direction on a hexagonal map, as
/// integer coordinates that may lie off the map: the tile's axial position,
/// moved by the direction's step, and read under the coordinate system again.
pub open spec fn hex_neighbor(
    tile_pos: TilePos,
    direction: HexDirection,
    hex_coord_sys: HexCoordSystem,
) -> (int, int) {
    let (q, r) = axial_coords(tile_pos.x as int, tile_pos.y as int, hex_coord_sys);
    let step = direction.spec_offset();
    offset_coords(q + step.q, r + step.r, hex_coord_sys)
}

/// Over unbounded integers, the two conversions undo each other under every
/// coordinate system.
pub proof fn lemma_coords_round_trip(x: int, y: int, hex_coord_sys: HexCoordSystem)
    ensures
        ({
            let (q, r) = axial_coords(x, y, hex_coord_sys);
            offset_coords(q, r, hex_coord_sys) == (x, y)
        }),
        ({
            let (q, r) = offset_coords(x, y, hex_coord_sys);
            axial_coords(q, r, hex_coord_sys) == (x, y)
        }),
{
}

/// Every direction's step leads to a hex at distance one, and the steps of
/// opposite directions cancel.
pub proof fn lemma_unit_steps(direction: HexDirection)
    ensures
        direction.spec_offset().spec_distance(AxialPos { q: 0, r: 0 }) == 1,
        ({
            let step = direction.spec_offset();
            let back = HexDirection::spec_from_index(direction.spec_index() + 3).spec_offset();
            step.q + back.q == 0 && step.r + back.r == 0
        }),
{
}

/// For a tile whose coordinates an `i32` can hold with room for one step, the
/// neighbor is found by converting the tile position to an axial position,
/// adding the direction's step, and converting back.
pub proof fn lemma_hex_neighbor_by_conversion(
    tile_pos: TilePos,
    direction: HexDirection,
    hex_coord_sys: HexCoordSystem,
)
    requires
        tile_pos.x < 0x4000_0000,
        tile_pos.y < 0x4000_0000,
    ensures
        ({
            let axial_pos = AxialPos::spec_from_offset_coords(
                tile_pos.x as i32,
                tile_pos.y as i32,
                hex_coord_sys,
            );
            let step = direction.spec_offset();
            let moved = AxialPos { q: (axial_pos.q + step.q) as i32, r: (axial_pos.r + step.r) as i32 };
            let (x, y) = moved.spec_offset_coords(hex_coord_sys);
            &&& axial_pos.q + step.q == moved.q
            &&& axial_pos.r + step.r == moved.r
            &&& hex_neighbor(tile_pos, direction, hex_coord_sys) == (x as int, y as int)
        }),
{
}

/// The shift of the row or column numbered `along`, for coordinates held in
/// 64 bits.
fn shift_wide(along: i64, hex_coord_sys: &HexCoordSystem) -> (shift: i64)
    requires
        -0x1_0000_0000 <= along <= 0x1_0000_0000,
    ensures
        shift == offset_shift(along as int, *hex_coord_sys),
{
    let low: i64 = along >> 1;
    let odd: i64 = along & 1;
    assert(along >> 1 == along / 2) by (bit_vector);
    assert(along & 1 == along % 2) by (bit_vector);
    match hex_coord_sys {
        HexCoordSystem::RowEven | HexCoordSystem::ColumnEven => low + odd,
        HexCoordSystem::RowOdd | HexCoordSystem::ColumnOdd => low,
        HexCoordSystem::Row | HexCoordSystem::Column => 0,
    }
}

impl TilePos {
    /// Get the neighbor lying in the specified direction from this position,
    /// if it fits on the map, on a hexagonal map with the given coordinate
    /// system.
    pub fn hex_offset(
        &self,
        direction: &HexDirection,
        hex_coord_sys: &HexCoordSystem,
        map_size: &TilemapSize,
    ) -> (neighbor: Option<TilePos>)
        ensures
            neighbor == tile_at(
                hex_neighbor(*self, *direction, *hex_coord_sys).0,
                hex_neighbor(*self, *direction, *hex_coord_sys).1,
                *map_size,
            ),
    {
        let step = direction.offset();
        let x: i64 = self.x as i64;
        let y: i64 = self.y as i64;
        match hex_coord_sys {
            HexCoordSystem::ColumnEven | HexCoordSystem::ColumnOdd => {
                let q: i64 = x + step.q as i64;
                let r: i64 = y - shift_wide(x, hex_coord_sys) + step.r as i64;
                tile_at_wide(q, r + shift_wide(q, hex_coord_sys), map_size)
            },
            _ => {
                let r: i64 = y + step.r as i64;
                let q: i64 = x - shift_wide(y, hex_coord_sys) + step.q as i64;
                tile_at_wide(q + shift_wide(r, hex_coord_sys), r, map_size)
            },
        }
    }
}

/// Stores some data `T` for each of the neighbors of a tile on a hexagonal
/// grid: at most six, one per direction.
#[derive(Debug)]
pub struct HexNeighbors<T: Copy> {
    pub zero: Option<T>,
    pub one: Option<T>,
    pub two: Option<T>,
    pub three: Option<T>,
    pub four: Option<T>,
    pub five: Option<T>,
}

impl<T: Copy> Default for HexNeighbors<T> {
    fn default() -> (neighbors: HexNeighbors<T>)
        ensures
            forall|d: HexDirection| #[trigger] neighbors.spec_get(d) == None::<T>,
    {
        HexNeighbors { zero: None, one: None, two: None, three: None, four: None, five: None }
    }
}

impl<T: Copy> HexNeighbors<T> {
    /// The data of the neighbor in the given direction, if there is one.
    pub open spec fn spec_get(&self, direction: HexDirection) -> Option<T> {
        match direction {
            HexDirection::Zero => self.zero,
            HexDirection::One => self.one,
            HexDirection::Two => self.two,
            HexDirection::Three => self.three,
            HexDirection::Four => self.four,
            HexDirection::Five => self.five,
        }
    }

    /// Get an item that lies in a particular hex direction.
    ///
    /// Will be `None` if no such item exists.
    pub fn get(&self, direction: HexDirection) -> (item: Option<&T>)
        ensures
            item == (match self.spec_get(direction) {
                Some(data) => Some(&data),
                None => None,
            }),
    {
        match direction {
            HexDirection::Zero => self.zero.as_ref(),
            HexDirection::One => self.one.as_ref(),
            HexDirection::Two => self.two.as_ref(),
            HexDirection::Three => self.three.as_ref(),
            HexDirection::Four => self.four.as_ref(),
            HexDirection::Five => self.five.as_ref(),
        }
    }

    /// Set item that lies in a particular hex direction.
    ///
    /// Whatever lay in that direction before is replaced.
    pub fn set(&mut self, direction: HexDirection, data: T)
        ensures
            final(self).spec_get(direction) == Some(data),
            forall|d: HexDirection|
                d != direction ==> #[trigger] final(self).spec_get(d) == old(self).spec_get(d),
    {
        match direction {
            HexDirection::Zero => {
                self.zero = Some(data);
            },
            HexDirection::One => {
                self.one = Some(data);
            },
            HexDirection::Two => {
                self.two = Some(data);
            },
            HexDirection::Three => {
                self.three = Some(data);
            },
            HexDirection::Four => {
                self.four = Some(data);
            },
            HexDirection::Five => {
                self.five = Some(data);
            },
        }
    }

    /// The neighbors' data in counter-clockwise order, those directions left
    /// out in which there is no neighbor.
    pub open spec fn spec_present(&self) -> Seq<T> {
        option_seq(self.zero) + option_seq(self.one) + option_seq(self.two) + option_seq(self.three) + option_seq(self.four) + option_seq(self.five)
    }

    /// Iterate over neighbors, in the order specified by [`HEX_DIRECTIONS`].
    /// If a neighbor is `None`, this iterator will skip it.
    pub fn iter(&self) -> (items: std::vec::IntoIter<&T>)
        ensures
            vstd::std_specs::vec::into_iter_elts(items) == refs(self.spec_present()),
    {
        let mut items: Vec<&T> = Vec::with_capacity(6);
        proof {
            assert(items@ =~= refs(Seq::<T>::empty()));
        }
        push_present(&mut items, &self.zero, Ghost(Seq::<T>::empty()));
        push_present(&mut items, &self.one, Ghost(Seq::<T>::empty() + option_seq(self.zero)));
        push_present(&mut items, &self.two, Ghost(Seq::<T>::empty() + option_seq(self.zero) + option_seq(self.one)));
        push_present(&mut items, &self.three, Ghost(Seq::<T>::empty() + option_seq(self.zero) + option_seq(self.one) + option_seq(self.two)));
        push_present(&mut items, &self.four, Ghost(Seq::<T>::empty() + option_seq(self.zero) + option_seq(self.one) + option_seq(self.two) + option_seq(self.three)));
        push_present(&mut items, &self.five, Ghost(Seq::<T>::empty() + option_seq(self.zero) + option_seq(self.one) + option_seq(self.two) + option_seq(self.three) + option_seq(self.four)));
        proof {
            assert(Seq::<T>::empty() + option_seq(self.zero) + option_seq(self.one) + option_seq(self.two) + option_seq(self.three) + option_seq(self.four) + option_seq(self.five) =~= self.spec_present());
        }
        items.into_iter()
    }

    /// Constructs neighbors from a closure that gives the data for each
    /// direction, or `None` where there is none.
    pub fn from_directional_closure<F>(f: F) -> (neighbors: HexNeighbors<T>) where
        F: Fn(HexDirection) -> Option<T>,

        requires
            forall|d: HexDirection| #[trigger] f.requires((d,)),
        ensures
            forall|d: HexDirection| f.ensures((d,), #[trigger] neighbors.spec_get(d)),
    {
        HexNeighbors {
            zero: f(HexDirection::Zero),
            one: f(HexDirection::One),
            two: f(HexDirection::Two),
            three: f(HexDirection::Three),
            four: f(HexDirection::Four),
            five: f(HexDirection::Five),
        }
    }

    /// Applies the supplied closure `f` with an [`Option::and_then`] to each
    /// neighbor element, where `f` takes `T` by reference.
    pub fn and_then<U: Copy, F>(&self, f: F) -> (mapped: HexNeighbors<U>) where F: Fn(&T) -> Option<U>
        requires
            forall|data: &T| #[trigger] f.requires((data,)),
        ensures
            forall|d: HexDirection|
                (match self.spec_get(d) {
                    Some(data) => f.ensures((&data,), #[trigger] mapped.spec_get(d)),
                    None => #[trigger] mapped.spec_get(d) is None,
                }),
    {
        HexNeighbors {
            zero: match self.zero.as_ref() {
                Some(data) => f(data),
                None => None,
            },
            one: match self.one.as_ref() {
                Some(data) => f(data),
                None => None,
            },
            two: match self.two.as_ref() {
                Some(data) => f(data),
                None => None,
            },
            three: match self.three.as_ref() {
                Some(data) => f(data),
                None => None,
            },
            four: match self.four.as_ref() {
                Some(data) => f(data),
                None => None,
            },
            five: match self.five.as_ref() {
                Some(data) => f(data),
                None => None,
            },
        }
    }

    /// Applies the supplied closure `f` with an [`Option::map`] to each
    /// neighbor element, where `f` takes `T` by reference.
    pub fn map_ref<U: Copy, F>(&self, f: F) -> (mapped: HexNeighbors<U>) where F: Fn(&T) -> U
        requires
            forall|data: &T| #[trigger] f.requires((data,)),
        ensures
            forall|d: HexDirection|
                (match self.spec_get(d) {
                    Some(data) => (#[trigger] mapped.spec_get(d)) is Some && f.ensures(
                        (&data,),
                        mapped.spec_get(d)->Some_0,
                    ),
                    None => #[trigger] mapped.spec_get(d) is None,
                }),
    {
        HexNeighbors {
            zero: match self.zero.as_ref() {
                Some(data) => Some(f(data)),
                None => None,
            },
            one: match self.one.as_ref() {
                Some(data) => Some(f(data)),
                None => None,
            },
            two: match self.two.as_ref() {
                Some(data) => Some(f(data)),
                None => None,
            },
            three: match self.three.as_ref() {
                Some(data) => Some(f(data)),
                None => None,
            },
            four: match self.four.as_ref() {
                Some(data) => Some(f(data)),
                None => None,
            },
            five: match self.five.as_ref() {
                Some(data) => Some(f(data)),
                None => None,
            },
        }
    }
}

impl HexNeighbors<TilePos> {
    /// Returns neighboring tile positions, given a coordinate system.
    ///
    /// A tile position will be `None` for a particular direction, if that
    /// neighbor would not lie on the map.
    pub fn get_neighboring_positions(
        tile_pos: &TilePos,
        map_size: &TilemapSize,
        hex_coord_sys: &HexCoordSystem,
    ) -> (neighbors: HexNeighbors<TilePos>)
        ensures
            forall|d: HexDirection| #[trigger]
                neighbors.spec_get(d) == tile_at(
                    hex_neighbor(*tile_pos, d, *hex_coord_sys).0,
                    hex_neighbor(*tile_pos, d, *hex_coord_sys).1,
                    *map_size,
                ),
    {
        HexNeighbors {
            zero: tile_pos.hex_offset(&HexDirection::Zero, hex_coord_sys, map_size),
            one: tile_pos.hex_offset(&HexDirection::One, hex_coord_sys, map_size),
            two: tile_pos.hex_offset(&HexDirection::Two, hex_coord_sys, map_size),
            three: tile_pos.hex_offset(&HexDirection::Three, hex_coord_sys, map_size),
            four: tile_pos.hex_offset(&HexDirection::Four, hex_coord_sys, map_size),
            five: tile_pos.hex_offset(&HexDirection::Five, hex_coord_sys, map_size),
        }
    }

    /// Returns neighboring tile positions on a map whose tile positions are
    /// axial positions ([`HexCoordSystem::Row`] and
    /// [`HexCoordSystem::Column`]).
    pub fn get_neighboring_positions_standard(tile_pos: &TilePos, map_size: &TilemapSize) -> (neighbors:
        HexNeighbors<TilePos>)
        ensures
            forall|d: HexDirection| #[trigger]
                neighbors.spec_get(d) == tile_at(
                    tile_pos.x + d.spec_offset().q,
                    tile_pos.y + d.spec_offset().r,
                    *map_size,
                ),
    {
        HexNeighbors::get_neighboring_positions(tile_pos, map_size, &HexCoordSystem::Row)
    }

    /// Returns neighboring tile positions on a map with the coordinate system
    /// [`HexCoordSystem::RowEven`].
    pub fn get_neighboring_positions_row_even(tile_pos: &TilePos, map_size: &TilemapSize) -> (neighbors:
        HexNeighbors<TilePos>)
        ensures
            forall|d: HexDirection| #[trigger]
                neighbors.spec_get(d) == tile_at(
                    hex_neighbor(*tile_pos, d, HexCoordSystem::RowEven).0,
                    hex_neighbor(*tile_pos, d, HexCoordSystem::RowEven).1,
                    *map_size,
                ),
    {
        HexNeighbors::get_neighboring_positions(tile_pos, map_size, &HexCoordSystem::RowEven)
    }

    /// Returns neighboring tile positions on a map with the coordinate system
    /// [`HexCoordSystem::RowOdd`].
    pub fn get_neighboring_positions_row_odd(tile_pos: &TilePos, map_size: &TilemapSize) -> (neighbors:
        HexNeighbors<TilePos>)
        ensures
            forall|d: HexDirection| #[trigger]
                neighbors.spec_get(d) == tile_at(
                    hex_neighbor(*tile_pos, d, HexCoordSystem::RowOdd).0,
                    hex_neighbor(*tile_pos, d, HexCoordSystem::RowOdd).1,
                    *map_size,
                ),
    {
        HexNeighbors::get_neighboring_positions(tile_pos, map_size, &HexCoordSystem::RowOdd)
    }

    /// Returns neighboring tile positions on a map with the coordinate system
    /// [`HexCoordSystem::ColumnEven`].
    pub fn get_neighboring_positions_col_even(tile_pos: &TilePos, map_size: &TilemapSize) -> (neighbors:
        HexNeighbors<TilePos>)
        ensures
            forall|d: HexDirection| #[trigger]
                neighbors.spec_get(d) == tile_at(
                    hex_neighbor(*tile_pos, d, HexCoordSystem::ColumnEven).0,
                    hex_neighbor(*tile_pos, d, HexCoordSystem::ColumnEven).1,
                    *map_size,
                ),
    {
        HexNeighbors::get_neighboring_positions(tile_pos, map_size, &HexCoordSystem::ColumnEven)
    }

    /// Returns neighboring tile positions on a map with the coordinate system
    /// [`HexCoordSystem::ColumnOdd`].
    pub fn get_neighboring_positions_col_odd(tile_pos: &TilePos, map_size: &TilemapSize) -> (neighbors:
        HexNeighbors<TilePos>)
        ensures
            forall|d: HexDirection| #[trigger]
                neighbors.spec_get(d) == tile_at(
                    hex_neighbor(*tile_pos, d, HexCoordSystem::ColumnOdd).0,
                    hex_neighbor(*tile_pos, d, HexCoordSystem::ColumnOdd).1,
                    *map_size,
                ),
    {
        HexNeighbors::get_neighboring_positions(tile_pos, map_size, &HexCoordSystem::ColumnOdd)
    }

    /// Returns the entities associated with each tile position: `None` in a
    /// direction without a neighbor, and where the storage holds no entity for
    /// the neighbor or does not reach that far.
    pub fn entities(&self, tile_storage: &TileStorage) -> (entities: HexNeighbors<Entity>)
        ensures
            forall|d: HexDirection| #[trigger]
                entities.spec_get(d) == (match self.spec_get(d) {
                    Some(tile_pos) => tile_storage.spec_get(tile_pos),
                    None => None,
                }),
    {
        HexNeighbors {
            zero: match self.zero {
                Some(tile_pos) => tile_storage.checked_get(&tile_pos),
                None => None,
            },
            one: match self.one {
                Some(tile_pos) => tile_storage.checked_get(&tile_pos),
                None => None,
            },
            two: match self.two {
                Some(tile_pos) => tile_storage.checked_get(&tile_pos),
                None => None,
            },
            three: match self.three {
                Some(tile_pos) => tile_storage.checked_get(&tile_pos),
                None => None,
            },
            four: match self.four {
                Some(tile_pos) => tile_storage.checked_get(&tile_pos),
                None => None,
            },
            five: match self.five {
                Some(tile_pos) => tile_storage.checked_get(&tile_pos),
                None => None,
            },
        }
    }
}

} // verus!
