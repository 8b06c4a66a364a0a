use crate::helpers::hex_grid::axial::AxialPos;
use crate::helpers::projection::tile_at;
use crate::map::TilemapSize;
use crate::tiles::TilePos;
use vstd::prelude::*;

verus! {

/// Half of `v`, rounded down.
pub open spec fn half_floor(v: int) -> int {
    v / 2
}

/// Half of `v`, rounded up.
pub open spec fn half_ceil(v: int) -> int {
    (v + 1) / 2
}

/// Half of `v`, rounded down: `(v - (v & 1)) / 2`.
pub fn floor_halved(v: i32) -> (h: i32)
    ensures
        h == half_floor(v as int),
{
    let h: i32 = v >> 1;
    assert(v >> 1 == v / 2) by (bit_vector);
    h
}

/// Half of `v`, rounded up: `(v + (v & 1)) / 2`.
pub fn ceil_halved(v: i32) -> (h: i32)
    ensures
        h == half_ceil(v as int),
{
    let low: i32 = v >> 1;
    let odd: i32 = v & 1;
    assert(v >> 1 == v / 2) by (bit_vector);
    assert(v & 1 == v % 2) by (bit_vector);
    low + odd
}

/// Position for hexes laid out in rows, in which every odd row is shifted
/// half a tile to the right.
#[derive(Clone, Copy, Debug, Ord, PartialOrd, Eq, PartialEq, Hash, Structural)]
pub struct RowOddPos {
    pub q: i32,
    pub r: i32,
}

impl RowOddPos {
    pub fn new(q: i32, r: i32) -> (pos: RowOddPos)
        ensures
            pos == (RowOddPos { q, r }),
    {
        RowOddPos { q, r }
    }

    /// The offset position of the hex at the given axial position: `q`
    /// grows by half of `r`, rounded down, modulo 2^32.
    pub open spec fn spec_from_axial(axial_pos: AxialPos) -> RowOddPos {
        RowOddPos {
            q: vstd::wrapping::i32_specs::wrapping_add(
                axial_pos.q,
                half_floor(axial_pos.r as int) as i32,
            ),
            r: axial_pos.r,
        }
    }

    /// The axial position of the hex at this offset position: `q`
    /// shrinks by half of `r`, rounded down, modulo 2^32.
    pub open spec fn spec_to_axial(self) -> AxialPos {
        AxialPos {
            q: vstd::wrapping::i32_specs::wrapping_sub(
                self.q,
                half_floor(self.r as int) as i32,
            ),
            r: self.r,
        }
    }

    /// Try converting into a [`TilePos`].
    ///
    /// Returns `None` if either one of `q` or `r` is negative, or lies out of
    /// the bounds of `map_size`.
    pub fn as_tile_pos_given_map_size(&self, map_size: &TilemapSize) -> (pos: Option<TilePos>)
        ensures
            pos == tile_at(self.q as int, self.r as int, *map_size),
    {
        TilePos::from_i32_pair(self.q, self.r, map_size)
    }

    /// Convert into a [`TilePos`] without a check: a negative coordinate
    /// wraps around modulo 2^32.
    pub fn as_tile_pos_unchecked(&self) -> (pos: TilePos)
        ensures
            pos == (TilePos { x: self.q as u32, y: self.r as u32 }),
    {
        TilePos {
            x: #[verifier::truncate] (self.q as u32),
            y: #[verifier::truncate] (self.r as u32),
        }
    }
}

impl From<AxialPos> for RowOddPos {
    fn from(axial_pos: AxialPos) -> RowOddPos {
        let delta = floor_halved(axial_pos.r);
        RowOddPos { q: axial_pos.q.wrapping_add(delta), r: axial_pos.r }
    }
}

impl vstd::std_specs::convert::FromSpecImpl<AxialPos> for RowOddPos {
    open spec fn obeys_from_spec() -> bool {
        true
    }

    open spec fn from_spec(axial_pos: AxialPos) -> RowOddPos {
        RowOddPos::spec_from_axial(axial_pos)
    }
}

impl From<RowOddPos> for AxialPos {
    fn from(offset_pos: RowOddPos) -> AxialPos {
        let delta = floor_halved(offset_pos.r);
        AxialPos { q: offset_pos.q.wrapping_sub(delta), r: offset_pos.r }
    }
}

impl vstd::std_specs::convert::FromSpecImpl<RowOddPos> for AxialPos {
    open spec fn obeys_from_spec() -> bool {
        true
    }

    open spec fn from_spec(offset_pos: RowOddPos) -> AxialPos {
        offset_pos.spec_to_axial()
    }
}

impl From<&TilePos> for RowOddPos {
    /// Reads the tile position's coordinates as `i32`, modulo 2^32.
    fn from(tile_pos: &TilePos) -> RowOddPos {
        RowOddPos {
            q: #[verifier::truncate] (tile_pos.x as i32),
            r: #[verifier::truncate] (tile_pos.y as i32),
        }
    }
}

impl vstd::std_specs::convert::FromSpecImpl<&TilePos> for RowOddPos {
    open spec fn obeys_from_spec() -> bool {
        true
    }

    open spec fn from_spec(tile_pos: &TilePos) -> RowOddPos {
        RowOddPos { q: tile_pos.x as i32, r: tile_pos.y as i32 }
    }
}

/// Going from a row-odd offset position to axial coordinates and back
/// gives the position started from, for every position.
pub proof fn lemma_row_odd_axial_round_trip(offset_pos: RowOddPos)
    ensures
        RowOddPos::spec_from_axial(offset_pos.spec_to_axial()) == offset_pos,
{
}

/// Going from an axial position to row-odd offset coordinates and back
/// gives the position started from, for every position.
pub proof fn lemma_axial_row_odd_round_trip(axial_pos: AxialPos)
    ensures
        RowOddPos::spec_from_axial(axial_pos).spec_to_axial() == axial_pos,
{
}

/// Where no coordinate leaves the range of `i32`, the conversions of
/// row-odd offset positions are those of unbounded integers.
pub proof fn lemma_row_odd_exact(offset_pos: RowOddPos, axial_pos: AxialPos)
    ensures
        i32::MIN <= offset_pos.q - half_floor(offset_pos.r as int) <= i32::MAX
            ==> offset_pos.spec_to_axial().q == offset_pos.q - half_floor(
            offset_pos.r as int,
        ),
        i32::MIN <= axial_pos.q + half_floor(axial_pos.r as int) <= i32::MAX
            ==> RowOddPos::spec_from_axial(axial_pos).q == axial_pos.q + half_floor(
            axial_pos.r as int,
        ),
{
}

/// Position for hexes laid out in rows, in which every even row is shifted
/// half a tile to the right.
#[derive(Clone, Copy, Debug, Ord, PartialOrd, Eq, PartialEq, Hash, Structural)]
pub struct RowEvenPos {
    pub q: i32,
    pub r: i32,
}

impl RowEvenPos {
    pub fn new(q: i32, r: i32) -> (pos: RowEvenPos)
        ensures
            pos == (RowEvenPos { q, r }),
    {
        RowEvenPos { q, r }
    }

    /// The offset position of the hex at the given axial position: `q`
    /// grows by half of `r`, rounded up, modulo 2^32.
    pub open spec fn spec_from_axial(axial_pos: AxialPos) -> RowEvenPos {
        RowEvenPos {
            q: vstd::wrapping::i32_specs::wrapping_add(
                axial_pos.q,
                half_ceil(axial_pos.r as int) as i32,
            ),
            r: axial_pos.r,
        }
    }

    /// The axial position of the hex at this offset position: `q`
    /// shrinks by half of `r`, rounded up, modulo 2^32.
    pub open spec fn spec_to_axial(self) -> AxialPos {
        AxialPos {
            q: vstd::wrapping::i32_specs::wrapping_sub(
                self.q,
                half_ceil(self.r as int) as i32,
            ),
            r: self.r,
        }
    }

    /// Try converting into a [`TilePos`].
    ///
    /// Returns `None` if either one of `q` or `r` is negative, or lies out of
    /// the bounds of `map_size`.
    pub fn as_tile_pos_given_map_size(&self, map_size: &TilemapSize) -> (pos: Option<TilePos>)
        ensures
            pos == tile_at(self.q as int, self.r as int, *map_size),
    {
        TilePos::from_i32_pair(self.q, self.r, map_size)
    }

    /// Convert into a [`TilePos`] without a check: a negative coordinate
    /// wraps around modulo 2^32.
    pub fn as_tile_pos_unchecked(&self) -> (pos: TilePos)
        ensures
            pos == (TilePos { x: self.q as u32, y: self.r as u32 }),
    {
        TilePos {
            x: #[verifier::truncate] (self.q as u32),
            y: #[verifier::truncate] (self.r as u32),
        }
    }
}

impl From<AxialPos> for RowEvenPos {
    fn from(axial_pos: AxialPos) -> RowEvenPos {
        let delta = ceil_halved(axial_pos.r);
        RowEvenPos { q: axial_pos.q.wrapping_add(delta), r: axial_pos.r }
    }
}

impl vstd::std_specs::convert::FromSpecImpl<AxialPos> for RowEvenPos {
    open spec fn obeys_from_spec() -> bool {
        true
    }

    open spec fn from_spec(axial_pos: AxialPos) -> RowEvenPos {
        RowEvenPos::spec_from_axial(axial_pos)
    }
}

impl From<RowEvenPos> for AxialPos {
    fn from(offset_pos: RowEvenPos) -> AxialPos {
        let delta = ceil_halved(offset_pos.r);
        AxialPos { q: offset_pos.q.wrapping_sub(delta), r: offset_pos.r }
    }
}

impl vstd::std_specs::convert::FromSpecImpl<RowEvenPos> for AxialPos {
    open spec fn obeys_from_spec() -> bool {
        true
    }

    open spec fn from_spec(offset_pos: RowEvenPos) -> AxialPos {
        offset_pos.spec_to_axial()
    }
}

impl From<&TilePos> for RowEvenPos {
    /// Reads the tile position's coordinates as `i32`, modulo 2^32.
    fn from(tile_pos: &TilePos) -> RowEvenPos {
        RowEvenPos {
            q: #[verifier::truncate] (tile_pos.x as i32),
            r: #[verifier::truncate] (tile_pos.y as i32),
        }
    }
}

impl vstd::std_specs::convert::FromSpecImpl<&TilePos> for RowEvenPos {
    open spec fn obeys_from_spec() -> bool {
        true
    }

    open spec fn from_spec(tile_pos: &TilePos) -> RowEvenPos {
        RowEvenPos { q: tile_pos.x as i32, r: tile_pos.y as i32 }
    }
}

/// Going from a row-even offset position to axial coordinates and back
/// gives the position started from, for every position.
pub proof fn lemma_row_even_axial_round_trip(offset_pos: RowEvenPos)
    ensures
        RowEvenPos::spec_from_axial(offset_pos.spec_to_axial()) == offset_pos,
{
}

/// Going from an axial position to row-even offset coordinates and back
/// gives the position started from, for every position.
pub proof fn lemma_axial_row_even_round_trip(axial_pos: AxialPos)
    ensures
        RowEvenPos::spec_from_axial(axial_pos).spec_to_axial() == axial_pos,
{
}

/// Where no coordinate leaves the range of `i32`, the conversions of
/// row-even offset positions are those of unbounded integers.
pub proof fn lemma_row_even_exact(offset_pos: RowEvenPos, axial_pos: AxialPos)
    ensures
        i32::MIN <= offset_pos.q - half_ceil(offset_pos.r as int) <= i32::MAX
            ==> offset_pos.spec_to_axial().q == offset_pos.q - half_ceil(
            offset_pos.r as int,
        ),
        i32::MIN <= axial_pos.q + half_ceil(axial_pos.r as int) <= i32::MAX
            ==> RowEvenPos::spec_from_axial(axial_pos).q == axial_pos.q + half_ceil(
            axial_pos.r as int,
        ),
{
}

/// Position for hexes laid out in columns, in which every odd column is
/// shifted half a tile upwards.
#[derive(Clone, Copy, Debug, Ord, PartialOrd, Eq, PartialEq, Hash, Structural)]
pub struct ColOddPos {
    pub q: i32,
    pub r: i32,
}

impl ColOddPos {
    pub fn new(q: i32, r: i32) -> (pos: ColOddPos)
        ensures
            pos == (ColOddPos { q, r }),
    {
        ColOddPos { q, r }
    }

    /// The offset position of the hex at the given axial position: `r`
    /// grows by half of `q`, rounded down, modulo 2^32.
    pub open spec fn spec_from_axial(axial_pos: AxialPos) -> ColOddPos {
        ColOddPos {
            r: vstd::wrapping::i32_specs::wrapping_add(
                axial_pos.r,
                half_floor(axial_pos.q as int) as i32,
            ),
            q: axial_pos.q,
        }
    }

    /// The axial position of the hex at this offset position: `r`
    /// shrinks by half of `q`, rounded down, modulo 2^32.
    pub open spec fn spec_to_axial(self) -> AxialPos {
        AxialPos {
            r: vstd::wrapping::i32_specs::wrapping_sub(
                self.r,
                half_floor(self.q as int) as i32,
            ),
            q: self.q,
        }
    }

    /// Try converting into a [`TilePos`].
    ///
    /// Returns `None` if either one of `q` or `r` is negative, or lies out of
    /// the bounds of `map_size`.
    pub fn as_tile_pos_given_map_size(&self, map_size: &TilemapSize) -> (pos: Option<TilePos>)
        ensures
            pos == tile_at(self.q as int, self.r as int, *map_size),
    {
        TilePos::from_i32_pair(self.q, self.r, map_size)
    }

    /// Convert into a [`TilePos`] without a check: a negative coordinate
    /// wraps around modulo 2^32.
    pub fn as_tile_pos_unchecked(&self) -> (pos: TilePos)
        ensures
            pos == (TilePos { x: self.q as u32, y: self.r as u32 }),
    {
        TilePos {
            x: #[verifier::truncate] (self.q as u32),
            y: #[verifier::truncate] (self.r as u32),
        }
    }
}

impl From<AxialPos> for ColOddPos {
    fn from(axial_pos: AxialPos) -> ColOddPos {
        let delta = floor_halved(axial_pos.q);
        ColOddPos { r: axial_pos.r.wrapping_add(delta), q: axial_pos.q }
    }
}

impl vstd::std_specs::convert::FromSpecImpl<AxialPos> for ColOddPos {
    open spec fn obeys_from_spec() -> bool {
        true
    }

    open spec fn from_spec(axial_pos: AxialPos) -> ColOddPos {
        ColOddPos::spec_from_axial(axial_pos)
    }
}

impl From<ColOddPos> for AxialPos {
    fn from(offset_pos: ColOddPos) -> AxialPos {
        let delta = floor_halved(offset_pos.q);
        AxialPos { r: offset_pos.r.wrapping_sub(delta), q: offset_pos.q }
    }
}

impl vstd::std_specs::convert::FromSpecImpl<ColOddPos> for AxialPos {
    open spec fn obeys_from_spec() -> bool {
        true
    }

    open spec fn from_spec(offset_pos: ColOddPos) -> AxialPos {
        offset_pos.spec_to_axial()
    }
}

impl From<&TilePos> for ColOddPos {
    /// Reads the tile position's coordinates as `i32`, modulo 2^32.
    fn from(tile_pos: &TilePos) -> ColOddPos {
        ColOddPos {
            q: #[verifier::truncate] (tile_pos.x as i32),
            r: #[verifier::truncate] (tile_pos.y as i32),
        }
    }
}

impl vstd::std_specs::convert::FromSpecImpl<&TilePos> for ColOddPos {
    open spec fn obeys_from_spec() -> bool {
        true
    }

    open spec fn from_spec(tile_pos: &TilePos) -> ColOddPos {
        ColOddPos { q: tile_pos.x as i32, r: tile_pos.y as i32 }
    }
}

/// Going from a column-odd offset position to axial coordinates and back
/// gives the position started from, for every position.
pub proof fn lemma_col_odd_axial_round_trip(offset_pos: ColOddPos)
    ensures
        ColOddPos::spec_from_axial(offset_pos.spec_to_axial()) == offset_pos,
{
}

/// Going from an axial position to column-odd offset coordinates and back
/// gives the position started from, for every position.
pub proof fn lemma_axial_col_odd_round_trip(axial_pos: AxialPos)
    ensures
        ColOddPos::spec_from_axial(axial_pos).spec_to_axial() == axial_pos,
{
}

/// Where no coordinate leaves the range of `i32`, the conversions of
/// column-odd offset positions are those of unbounded integers.
pub proof fn lemma_col_odd_exact(offset_pos: ColOddPos, axial_pos: AxialPos)
    ensures
        i32::MIN <= offset_pos.r - half_floor(offset_pos.q as int) <= i32::MAX
            ==> offset_pos.spec_to_axial().r == offset_pos.r - half_floor(
            offset_pos.q as int,
        ),
        i32::MIN <= axial_pos.r + half_floor(axial_pos.q as int) <= i32::MAX
            ==> ColOddPos::spec_from_axial(axial_pos).r == axial_pos.r + half_floor(
            axial_pos.q as int,
        ),
{
}

/// Position for hexes laid out in columns, in which every even column is
/// shifted half a tile upwards.
#[derive(Clone, Copy, Debug, Ord, PartialOrd, Eq, PartialEq, Hash, Structural)]
pub struct ColEvenPos {
    pub q: i32,
    pub r: i32,
}

impl ColEvenPos {
    pub fn new(q: i32, r: i32) -> (pos: ColEvenPos)
        ensures
            pos == (ColEvenPos { q, r }),
    {
        ColEvenPos { q, r }
    }

    /// The offset position of the hex at the given axial position: `r`
    /// grows by half of `q`, rounded up, modulo 2^32.
    pub open spec fn spec_from_axial(axial_pos: AxialPos) -> ColEvenPos {
        ColEvenPos {
            r: vstd::wrapping::i32_specs::wrapping_add(
                axial_pos.r,
                half_ceil(axial_pos.q as int) as i32,
            ),
            q: axial_pos.q,
        }
    }

    /// The axial position of the hex at this offset position: `r`
    /// shrinks by half of `q`, rounded up, modulo 2^32.
    pub open spec fn spec_to_axial(self) -> AxialPos {
        AxialPos {
            r: vstd::wrapping::i32_specs::wrapping_sub(
                self.r,
                half_ceil(self.q as int) as i32,
            ),
            q: self.q,
        }
    }

    /// Try converting into a [`TilePos`].
    ///
    /// Returns `None` if either one of `q` or `r` is negative, or lies out of
    /// the bounds of `map_size`.
    pub fn as_tile_pos_given_map_size(&self, map_size: &TilemapSize) -> (pos: Option<TilePos>)
        ensures
            pos == tile_at(self.q as int, self.r as int, *map_size),
    {
        TilePos::from_i32_pair(self.q, self.r, map_size)
    }

    /// Convert into a [`TilePos`] without a check: a negative coordinate
    /// wraps around modulo 2^32.
    pub fn as_tile_pos_unchecked(&self) -> (pos: TilePos)
        ensures
            pos == (TilePos { x: self.q as u32, y: self.r as u32 }),
    {
        TilePos {
            x: #[verifier::truncate] (self.q as u32),
            y: #[verifier::truncate] (self.r as u32),
        }
    }
}

impl From<AxialPos> for ColEvenPos {
    fn from(axial_pos: AxialPos) -> ColEvenPos {
        let delta = ceil_halved(axial_pos.q);
        ColEvenPos { r: axial_pos.r.wrapping_add(delta), q: axial_pos.q }
    }
}

impl vstd::std_specs::convert::FromSpecImpl<AxialPos> for ColEvenPos {
    open spec fn obeys_from_spec() -> bool {
        true
    }

    open spec fn from_spec(axial_pos: AxialPos) -> ColEvenPos {
        ColEvenPos::spec_from_axial(axial_pos)
    }
}

impl From<ColEvenPos> for AxialPos {
    fn from(offset_pos: ColEvenPos) -> AxialPos {
        let delta = ceil_halved(offset_pos.q);
        AxialPos { r: offset_pos.r.wrapping_sub(delta), q: offset_pos.q }
    }
}

impl vstd::std_specs::convert::FromSpecImpl<ColEvenPos> for AxialPos {
    open spec fn obeys_from_spec() -> bool {
        true
    }

    open spec fn from_spec(offset_pos: ColEvenPos) -> AxialPos {
        offset_pos.spec_to_axial()
    }
}

impl From<&TilePos> for ColEvenPos {
    /// Reads the tile position's coordinates as `i32`, modulo 2^32.
    fn from(tile_pos: &TilePos) -> ColEvenPos {
        ColEvenPos {
            q: #[verifier::truncate] (tile_pos.x as i32),
            r: #[verifier::truncate] (tile_pos.y as i32),
        }
    }
}

impl vstd::std_specs::convert::FromSpecImpl<&TilePos> for ColEvenPos {
    open spec fn obeys_from_spec() -> bool {
        true
    }

    open spec fn from_spec(tile_pos: &TilePos) -> ColEvenPos {
        ColEvenPos { q: tile_pos.x as i32, r: tile_pos.y as i32 }
    }
}

/// Going from a column-even offset position to axial coordinates and back
/// gives the position started from, for every position.
pub proof fn lemma_col_even_axial_round_trip(offset_pos: ColEvenPos)
    ensures
        ColEvenPos::spec_from_axial(offset_pos.spec_to_axial()) == offset_pos,
{
}

/// Going from an axial position to column-even offset coordinates and back
/// gives the position started from, for every position.
pub proof fn lemma_axial_col_even_round_trip(axial_pos: AxialPos)
    ensures
        ColEvenPos::spec_from_axial(axial_pos).spec_to_axial() == axial_pos,
{
}

/// Where no coordinate leaves the range of `i32`, the conversions of
/// column-even offset positions are those of unbounded integers.
pub proof fn lemma_col_even_exact(offset_pos: ColEvenPos, axial_pos: AxialPos)
    ensures
        i32::MIN <= offset_pos.r - half_ceil(offset_pos.q as int) <= i32::MAX
            ==> offset_pos.spec_to_axial().r == offset_pos.r - half_ceil(
            offset_pos.q as int,
        ),
        i32::MIN <= axial_pos.r + half_ceil(axial_pos.q as int) <= i32::MAX
            ==> ColEvenPos::spec_from_axial(axial_pos).r == axial_pos.r + half_ceil(
            axial_pos.q as int,
        ),
{
}

} // verus!
