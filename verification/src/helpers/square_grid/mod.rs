pub mod diamond;
pub mod neighbors;
pub mod staggered;

use crate::helpers::support::fits_i32;
use crate::helpers::projection::tile_at;
use crate::helpers::square_grid::diamond::DiamondPos;
use crate::helpers::square_grid::neighbors::SquareDirection;
use crate::helpers::square_grid::staggered::StaggeredPos;
use crate::map::TilemapSize;
use crate::tiles::TilePos;
use vstd::prelude::*;

verus! {

/// Position for tiles arranged in a square coordinate system.
///
/// It is vector-like. In other words: it makes sense to add and subtract
/// two `SquarePos`, and it makes sense to multiply a `SquarePos` by
/// an [`i32`] scalar.
#[derive(Clone, Copy, Debug, Ord, PartialOrd, Eq, PartialEq, Hash, Structural)]
pub struct SquarePos {
    pub x: i32,
    pub y: i32,
}

impl core::ops::Add<SquarePos> for SquarePos {
    type Output = SquarePos;

    fn add(self, rhs: SquarePos) -> SquarePos {
        SquarePos { x: self.x + rhs.x, y: self.y + rhs.y }
    }
}

impl vstd::std_specs::ops::AddSpecImpl<SquarePos> for SquarePos {
    open spec fn obeys_add_spec() -> bool {
        true
    }

    open spec fn add_req(self, rhs: SquarePos) -> bool {
        fits_i32(self.x + rhs.x) && fits_i32(self.y + rhs.y)
    }

    open spec fn add_spec(self, rhs: SquarePos) -> SquarePos {
        SquarePos { x: (self.x + rhs.x) as i32, y: (self.y + rhs.y) as i32 }
    }
}

impl core::ops::Sub<SquarePos> for SquarePos {
    type Output = SquarePos;

    fn sub(self, rhs: SquarePos) -> SquarePos {
        SquarePos { x: self.x - rhs.x, y: self.y - rhs.y }
    }
}

impl vstd::std_specs::ops::SubSpecImpl<SquarePos> for SquarePos {
    open spec fn obeys_sub_spec() -> bool {
        true
    }

    open spec fn sub_req(self, rhs: SquarePos) -> bool {
        fits_i32(self.x - rhs.x) && fits_i32(self.y - rhs.y)
    }

    open spec fn sub_spec(self, rhs: SquarePos) -> SquarePos {
        SquarePos { x: (self.x - rhs.x) as i32, y: (self.y - rhs.y) as i32 }
    }
}

impl core::ops::Mul<SquarePos> for i32 {
    type Output = SquarePos;

    fn mul(self, rhs: SquarePos) -> SquarePos {
        SquarePos { x: self * rhs.x, y: self * rhs.y }
    }
}

impl vstd::std_specs::ops::MulSpecImpl<SquarePos> for i32 {
    open spec fn obeys_mul_spec() -> bool {
        true
    }

    open spec fn mul_req(self, rhs: SquarePos) -> bool {
        fits_i32(self * rhs.x) && fits_i32(self * rhs.y)
    }

    open spec fn mul_spec(self, rhs: SquarePos) -> SquarePos {
        SquarePos { x: (self * rhs.x) as i32, y: (self * rhs.y) as i32 }
    }
}

impl From<&TilePos> for SquarePos {
    /// Reads the tile position's coordinates as `i32`, modulo 2^32.
    fn from(tile_pos: &TilePos) -> SquarePos {
        SquarePos {
            x: #[verifier::truncate] (tile_pos.x as i32),
            y: #[verifier::truncate] (tile_pos.y as i32),
        }
    }
}

impl vstd::std_specs::convert::FromSpecImpl<&TilePos> for SquarePos {
    open spec fn obeys_from_spec() -> bool {
        true
    }

    open spec fn from_spec(tile_pos: &TilePos) -> SquarePos {
        SquarePos { x: tile_pos.x as i32, y: tile_pos.y as i32 }
    }
}

impl From<&DiamondPos> for SquarePos {
    fn from(diamond_pos: &DiamondPos) -> SquarePos {
        SquarePos { x: diamond_pos.x, y: diamond_pos.y }
    }
}

impl vstd::std_specs::convert::FromSpecImpl<&DiamondPos> for SquarePos {
    open spec fn obeys_from_spec() -> bool {
        true
    }

    open spec fn from_spec(diamond_pos: &DiamondPos) -> SquarePos {
        diamond_pos.spec_to_square()
    }
}

impl From<DiamondPos> for SquarePos {
    fn from(diamond_pos: DiamondPos) -> SquarePos {
        SquarePos { x: diamond_pos.x, y: diamond_pos.y }
    }
}

impl vstd::std_specs::convert::FromSpecImpl<DiamondPos> for SquarePos {
    open spec fn obeys_from_spec() -> bool {
        true
    }

    open spec fn from_spec(diamond_pos: DiamondPos) -> SquarePos {
        diamond_pos.spec_to_square()
    }
}

impl From<&StaggeredPos> for SquarePos {
    fn from(staggered_pos: &StaggeredPos) -> SquarePos {
        SquarePos { x: staggered_pos.x, y: staggered_pos.y.wrapping_add(staggered_pos.x) }
    }
}

impl vstd::std_specs::convert::FromSpecImpl<&StaggeredPos> for SquarePos {
    open spec fn obeys_from_spec() -> bool {
        true
    }

    open spec fn from_spec(staggered_pos: &StaggeredPos) -> SquarePos {
        staggered_pos.spec_to_square()
    }
}

impl From<StaggeredPos> for SquarePos {
    fn from(staggered_pos: StaggeredPos) -> SquarePos {
        SquarePos { x: staggered_pos.x, y: staggered_pos.y.wrapping_add(staggered_pos.x) }
    }
}

impl vstd::std_specs::convert::FromSpecImpl<StaggeredPos> for SquarePos {
    open spec fn obeys_from_spec() -> bool {
        true
    }

    open spec fn from_spec(staggered_pos: StaggeredPos) -> SquarePos {
        staggered_pos.spec_to_square()
    }
}

impl From<SquareDirection> for SquarePos {
    fn from(direction: SquareDirection) -> SquarePos {
        direction.offset()
    }
}

impl vstd::std_specs::convert::FromSpecImpl<SquareDirection> for SquarePos {
    open spec fn obeys_from_spec() -> bool {
        true
    }

    open spec fn from_spec(direction: SquareDirection) -> SquarePos {
        direction.spec_offset()
    }
}

impl From<&SquareDirection> for SquarePos {
    fn from(direction: &SquareDirection) -> SquarePos {
        direction.offset()
    }
}

impl vstd::std_specs::convert::FromSpecImpl<&SquareDirection> for SquarePos {
    open spec fn obeys_from_spec() -> bool {
        true
    }

    open spec fn from_spec(direction: &SquareDirection) -> SquarePos {
        direction.spec_offset()
    }
}

impl SquarePos {
    pub fn new(x: i32, y: i32) -> (pos: SquarePos)
        ensures
            pos == (SquarePos { x, y }),
    {
        SquarePos { x, y }
    }

    /// Try converting into a [`TilePos`].
    ///
    /// Returns `None` if either one of `self.x` or `self.y` is negative, or
    /// lies outside of the bounds of `map_size`.
    pub fn as_tile_pos(&self, map_size: &TilemapSize) -> (pos: Option<TilePos>)
        ensures
            pos == tile_at(self.x as int, self.y as int, *map_size),
    {
        TilePos::from_i32_pair(self.x, self.y, map_size)
    }

    /// Calculate offset in the given direction.
    pub fn offset(&self, direction: &SquareDirection) -> (neighbor: SquarePos)
        requires
            fits_i32(self.x + direction.spec_offset().x),
            fits_i32(self.y + direction.spec_offset().y),
        ensures
            neighbor.x == self.x + direction.spec_offset().x,
            neighbor.y == self.y + direction.spec_offset().y,
    {
        *self + direction.offset()
    }
}

} // verus!
