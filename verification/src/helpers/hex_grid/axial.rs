use crate::helpers::hex_grid::cube::CubePos;
use crate::helpers::hex_grid::neighbors::HexDirection;
use crate::helpers::hex_grid::offset::{ColEvenPos, ColOddPos, RowEvenPos, RowOddPos};
use crate::helpers::projection::tile_at;
use crate::helpers::support::fits_i32;
use crate::map::{HexCoordSystem, TilemapSize};
use crate::tiles::TilePos;
use vstd::prelude::*;

verus! {

/// A position on a hexagonal grid, in axial coordinates.
///
/// It is vector-like: two positions can be added and subtracted, and a
/// position can be multiplied by an integer scalar. The third cube coordinate
/// is implied: `s = -q - r`.
#[derive(Clone, Copy, Debug, Ord, PartialOrd, Eq, PartialEq, Hash, Structural)]
pub struct AxialPos {
    pub q: i32,
    pub r: i32,
}

impl core::ops::Add<AxialPos> for AxialPos {
    type Output = AxialPos;

    fn add(self, rhs: AxialPos) -> AxialPos {
        AxialPos { q: self.q + rhs.q, r: self.r + rhs.r }
    }
}

impl vstd::std_specs::ops::AddSpecImpl<AxialPos> for AxialPos {
    open spec fn obeys_add_spec() -> bool {
        true
    }

    open spec fn add_req(self, rhs: AxialPos) -> bool {
        fits_i32(self.q + rhs.q) && fits_i32(self.r + rhs.r)
    }

    open spec fn add_spec(self, rhs: AxialPos) -> AxialPos {
        AxialPos { q: (self.q + rhs.q) as i32, r: (self.r + rhs.r) as i32 }
    }
}

impl core::ops::Sub<AxialPos> for AxialPos {
    type Output = AxialPos;

    fn sub(self, rhs: AxialPos) -> AxialPos {
        AxialPos { q: self.q - rhs.q, r: self.r - rhs.r }
    }
}

impl vstd::std_specs::ops::SubSpecImpl<AxialPos> for AxialPos {
    open spec fn obeys_sub_spec() -> bool {
        true
    }

    open spec fn sub_req(self, rhs: AxialPos) -> bool {
        fits_i32(self.q - rhs.q) && fits_i32(self.r - rhs.r)
    }

    open spec fn sub_spec(self, rhs: AxialPos) -> AxialPos {
        AxialPos { q: (self.q - rhs.q) as i32, r: (self.r - rhs.r) as i32 }
    }
}

impl core::ops::Mul<AxialPos> for i32 {
    type Output = AxialPos;

    fn mul(self, rhs: AxialPos) -> AxialPos {
        AxialPos { q: self * rhs.q, r: self * rhs.r }
    }
}

impl vstd::std_specs::ops::MulSpecImpl<AxialPos> for i32 {
    open spec fn obeys_mul_spec() -> bool {
        true
    }

    open spec fn mul_req(self, rhs: AxialPos) -> bool {
        fits_i32(self * rhs.q) && fits_i32(self * rhs.r)
    }

    open spec fn mul_spec(self, rhs: AxialPos) -> AxialPos {
        AxialPos { q: (self * rhs.q) as i32, r: (self * rhs.r) as i32 }
    }
}

impl core::ops::Mul<AxialPos> for u32 {
    type Output = AxialPos;

    fn mul(self, rhs: AxialPos) -> AxialPos {
        AxialPos { q: (self as i32) * rhs.q, r: (self as i32) * rhs.r }
    }
}

impl vstd::std_specs::ops::MulSpecImpl<AxialPos> for u32 {
    open spec fn obeys_mul_spec() -> bool {
        true
    }

    open spec fn mul_req(self, rhs: AxialPos) -> bool {
        self <= i32::MAX && fits_i32(self * rhs.q) && fits_i32(self * rhs.r)
    }

    open spec fn mul_spec(self, rhs: AxialPos) -> AxialPos {
        AxialPos { q: (self * rhs.q) as i32, r: (self * rhs.r) as i32 }
    }
}

impl From<&TilePos> for AxialPos {
    fn from(tile_pos: &TilePos) -> AxialPos {
        AxialPos {
            q: #[verifier::truncate] (tile_pos.x as i32),
            r: #[verifier::truncate] (tile_pos.y as i32),
        }
    }
}

impl vstd::std_specs::convert::FromSpecImpl<&TilePos> for AxialPos {
    open spec fn obeys_from_spec() -> bool {
        true
    }

    open spec fn from_spec(tile_pos: &TilePos) -> AxialPos {
        AxialPos { q: tile_pos.x as i32, r: tile_pos.y as i32 }
    }
}

impl From<HexDirection> for AxialPos {
    fn from(direction: HexDirection) -> AxialPos {
        direction.offset()
    }
}

impl vstd::std_specs::convert::FromSpecImpl<HexDirection> for AxialPos {
    open spec fn obeys_from_spec() -> bool {
        true
    }

    open spec fn from_spec(direction: HexDirection) -> AxialPos {
        direction.spec_offset()
    }
}

impl From<&HexDirection> for AxialPos {
    fn from(direction: &HexDirection) -> AxialPos {
        direction.offset()
    }
}

impl vstd::std_specs::convert::FromSpecImpl<&HexDirection> for AxialPos {
    open spec fn obeys_from_spec() -> bool {
        true
    }

    open spec fn from_spec(direction: &HexDirection) -> AxialPos {
        direction.spec_offset()
    }
}

impl AxialPos {
    pub fn new(q: i32, r: i32) -> (pos: AxialPos)
        ensures
            pos == (AxialPos { q, r }),
    {
        AxialPos { q, r }
    }

    /// Number of steps between two positions: half the sum of the absolute
    /// differences of the three cube coordinates.
    pub open spec fn spec_distance(self, other: AxialPos) -> nat {
        let dq = self.q - other.q;
        let dr = self.r - other.r;
        let ds = dq + dr;
        (vstd::math::abs(dq) + vstd::math::abs(dr) + vstd::math::abs(ds)) / 2
    }

    /// The position, under the given coordinate system, of the hex at this
    /// axial position. Under `Row` and `Column` it is the axial position
    /// itself.
    pub open spec fn spec_offset_coords(self, hex_coord_sys: HexCoordSystem) -> (i32, i32) {
        match hex_coord_sys {
            HexCoordSystem::RowEven => {
                let pos = RowEvenPos::spec_from_axial(self);
                (pos.q, pos.r)
            },
            HexCoordSystem::RowOdd => {
                let pos = RowOddPos::spec_from_axial(self);
                (pos.q, pos.r)
            },
            HexCoordSystem::ColumnEven => {
                let pos = ColEvenPos::spec_from_axial(self);
                (pos.q, pos.r)
            },
            HexCoordSystem::ColumnOdd => {
                let pos = ColOddPos::spec_from_axial(self);
                (pos.q, pos.r)
            },
            HexCoordSystem::Row | HexCoordSystem::Column => (self.q, self.r),
        }
    }

    /// The axial position of the hex that has the given position under the
    /// given coordinate system.
    pub open spec fn spec_from_offset_coords(
        q: i32,
        r: i32,
        hex_coord_sys: HexCoordSystem,
    ) -> AxialPos {
        match hex_coord_sys {
            HexCoordSystem::RowEven => (RowEvenPos { q, r }).spec_to_axial(),
            HexCoordSystem::RowOdd => (RowOddPos { q, r }).spec_to_axial(),
            HexCoordSystem::ColumnEven => (ColEvenPos { q, r }).spec_to_axial(),
            HexCoordSystem::ColumnOdd => (ColOddPos { q, r }).spec_to_axial(),
            HexCoordSystem::Row | HexCoordSystem::Column => AxialPos { q, r },
        }
    }

    /// The magnitude of a hex position is its distance away from `(0, 0)`.
    pub fn magnitude(&self) -> (m: i32)
        requires
            i32::MIN < self.q,
            i32::MIN < self.r,
            i32::MIN < -self.q - self.r <= i32::MAX,
        ensures
            m == self.spec_distance(AxialPos { q: 0, r: 0 }),
    {
        let cube_pos = CubePos::from(*self);
        cube_pos.magnitude()
    }

    /// Returns the number of steps between `self` and `other`.
    pub fn distance_from(&self, other: &AxialPos) -> (d: i32)
        requires
            i32::MIN < self.q - other.q <= i32::MAX,
            i32::MIN < self.r - other.r <= i32::MAX,
            i32::MIN < (other.q - self.q) + (other.r - self.r) <= i32::MAX,
        ensures
            d == self.spec_distance(*other),
    {
        let diff = *self - *other;
        diff.magnitude()
    }

    /// The neighbor of this position in the given direction.
    pub fn offset(&self, direction: &HexDirection) -> (neighbor: AxialPos)
        requires
            fits_i32(self.q + direction.spec_offset().q),
            fits_i32(self.r + direction.spec_offset().r),
        ensures
            neighbor.q == self.q + direction.spec_offset().q,
            neighbor.r == self.r + direction.spec_offset().r,
    {
        *self + direction.offset()
    }

    /// Try converting into a [`TilePos`].
    ///
    /// Returns `None` if either one of `q` or `r` is negative, or lies out of
    /// the bounds of `map_size`.
    pub fn as_tile_pos_given_map_size(&self, map_size: &TilemapSize) -> (pos: Option<TilePos>)
        ensures
            pos == tile_at(self.q as int, self.r as int, *map_size),
    {
        TilePos::from_i32_pair(self.q, self.r, map_size)
    }

    /// Convert into a [`TilePos`] without a check: a negative coordinate
    /// wraps around modulo 2^32.
    pub fn as_tile_pos_unchecked(&self) -> (pos: TilePos)
        ensures
            pos == (TilePos { x: self.q as u32, y: self.r as u32 }),
    {
        TilePos {
            x: #[verifier::truncate] (self.q as u32),
            y: #[verifier::truncate] (self.r as u32),
        }
    }

    /// Converts an axial position into a tile position under the given
    /// coordinate system, if the hex lies on a map of the given size.
    pub fn as_tile_pos_given_coord_system_and_map_size(
        &self,
        hex_coord_sys: HexCoordSystem,
        map_size: &TilemapSize,
    ) -> (pos: Option<TilePos>)
        ensures
            pos == tile_at(
                self.spec_offset_coords(hex_coord_sys).0 as int,
                self.spec_offset_coords(hex_coord_sys).1 as int,
                *map_size,
            ),
    {
        match hex_coord_sys {
            HexCoordSystem::RowEven => RowEvenPos::from(*self).as_tile_pos_given_map_size(map_size),
            HexCoordSystem::RowOdd => RowOddPos::from(*self).as_tile_pos_given_map_size(map_size),
            HexCoordSystem::ColumnEven => ColEvenPos::from(*self).as_tile_pos_given_map_size(
                map_size,
            ),
            HexCoordSystem::ColumnOdd => ColOddPos::from(*self).as_tile_pos_given_map_size(
                map_size,
            ),
            HexCoordSystem::Row | HexCoordSystem::Column => self.as_tile_pos_given_map_size(
                map_size,
            ),
        }
    }

    /// Converts an axial position into a tile position under the given
    /// coordinate system, without a check: a negative coordinate wraps around
    /// modulo 2^32.
    pub fn as_tile_pos_given_coord_system(&self, hex_coord_sys: HexCoordSystem) -> (pos: TilePos)
        ensures
            pos == (TilePos {
                x: self.spec_offset_coords(hex_coord_sys).0 as u32,
                y: self.spec_offset_coords(hex_coord_sys).1 as u32,
            }),
    {
        match hex_coord_sys {
            HexCoordSystem::RowEven => RowEvenPos::from(*self).as_tile_pos_unchecked(),
            HexCoordSystem::RowOdd => RowOddPos::from(*self).as_tile_pos_unchecked(),
            HexCoordSystem::ColumnEven => ColEvenPos::from(*self).as_tile_pos_unchecked(),
            HexCoordSystem::ColumnOdd => ColOddPos::from(*self).as_tile_pos_unchecked(),
            HexCoordSystem::Row | HexCoordSystem::Column => self.as_tile_pos_unchecked(),
        }
    }

    /// The axial position of the hex that a tile position addresses under
    /// the given coordinate system.
    pub fn from_tile_pos_given_coord_system(
        tile_pos: &TilePos,
        hex_coord_sys: HexCoordSystem,
    ) -> (pos: AxialPos)
        ensures
            pos == AxialPos::spec_from_offset_coords(
                tile_pos.x as i32,
                tile_pos.y as i32,
                hex_coord_sys,
            ),
    {
        match hex_coord_sys {
            HexCoordSystem::RowEven => AxialPos::from(RowEvenPos::from(tile_pos)),
            HexCoordSystem::RowOdd => AxialPos::from(RowOddPos::from(tile_pos)),
            HexCoordSystem::ColumnEven => AxialPos::from(ColEvenPos::from(tile_pos)),
            HexCoordSystem::ColumnOdd => AxialPos::from(ColOddPos::from(tile_pos)),
            HexCoordSystem::Row | HexCoordSystem::Column => AxialPos::from(tile_pos),
        }
    }
}

/// Under each of the six coordinate systems, going from a position of that
/// system to axial coordinates and back gives the position started from.
pub proof fn lemma_offset_axial_round_trip(q: i32, r: i32, hex_coord_sys: HexCoordSystem)
    ensures
        AxialPos::spec_from_offset_coords(q, r, hex_coord_sys).spec_offset_coords(hex_coord_sys)
            == (q, r),
{
}

/// Under each of the six coordinate systems, going from an axial position to
/// a position of that system and back gives the position started from.
pub proof fn lemma_axial_offset_round_trip(axial_pos: AxialPos, hex_coord_sys: HexCoordSystem)
    ensures
        ({
            let (q, r) = axial_pos.spec_offset_coords(hex_coord_sys);
            AxialPos::spec_from_offset_coords(q, r, hex_coord_sys) == axial_pos
        }),
{
}

/// A tile position that is turned into an axial position and back, under one
/// coordinate system, is the tile position started from.
pub proof fn lemma_tile_axial_round_trip(tile_pos: TilePos, hex_coord_sys: HexCoordSystem)
    ensures
        ({
            let axial_pos = AxialPos::spec_from_offset_coords(
                tile_pos.x as i32,
                tile_pos.y as i32,
                hex_coord_sys,
            );
            let (q, r) = axial_pos.spec_offset_coords(hex_coord_sys);
            TilePos { x: q as u32, y: r as u32 } == tile_pos
        }),
{
    lemma_offset_axial_round_trip(tile_pos.x as i32, tile_pos.y as i32, hex_coord_sys);
    let x = tile_pos.x;
    let y = tile_pos.y;
    assert((x as i32) as u32 == x) by (bit_vector);
    assert((y as i32) as u32 == y) by (bit_vector);
}

} // verus!
