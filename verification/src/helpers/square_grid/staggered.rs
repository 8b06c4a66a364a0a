use crate::helpers::support::fits_i32;
use crate::helpers::projection::tile_at;
use crate::helpers::square_grid::diamond::DiamondPos;
use crate::helpers::square_grid::neighbors::SquareDirection;
use crate::helpers::square_grid::SquarePos;
use crate::map::TilemapSize;
use crate::tiles::TilePos;
use vstd::prelude::*;

verus! {

/// Position for tiles arranged in the isometric staggered coordinate system.
///
/// The staggered row of a tile is its square row less its column:
/// `staggered.y == square.y - square.x`.
#[derive(Clone, Copy, Debug, Ord, PartialOrd, Eq, PartialEq, Hash, Structural)]
pub struct StaggeredPos {
    pub x: i32,
    pub y: i32,
}

impl From<&TilePos> for StaggeredPos {
    /// Reads the tile position's coordinates as `i32`, modulo 2^32.
    fn from(tile_pos: &TilePos) -> StaggeredPos {
        StaggeredPos {
            x: #[verifier::truncate] (tile_pos.x as i32),
            y: #[verifier::truncate] (tile_pos.y as i32),
        }
    }
}

impl vstd::std_specs::convert::FromSpecImpl<&TilePos> for StaggeredPos {
    open spec fn obeys_from_spec() -> bool {
        true
    }

    open spec fn from_spec(tile_pos: &TilePos) -> StaggeredPos {
        StaggeredPos { x: tile_pos.x as i32, y: tile_pos.y as i32 }
    }
}

impl From<SquarePos> for StaggeredPos {
    fn from(square_pos: SquarePos) -> StaggeredPos {
        StaggeredPos { x: square_pos.x, y: square_pos.y.wrapping_sub(square_pos.x) }
    }
}

impl vstd::std_specs::convert::FromSpecImpl<SquarePos> for StaggeredPos {
    open spec fn obeys_from_spec() -> bool {
        true
    }

    open spec fn from_spec(square_pos: SquarePos) -> StaggeredPos {
        StaggeredPos::spec_from_square(square_pos)
    }
}

impl From<&SquarePos> for StaggeredPos {
    fn from(square_pos: &SquarePos) -> StaggeredPos {
        StaggeredPos { x: square_pos.x, y: square_pos.y.wrapping_sub(square_pos.x) }
    }
}

impl vstd::std_specs::convert::FromSpecImpl<&SquarePos> for StaggeredPos {
    open spec fn obeys_from_spec() -> bool {
        true
    }

    open spec fn from_spec(square_pos: &SquarePos) -> StaggeredPos {
        StaggeredPos::spec_from_square(*square_pos)
    }
}

impl From<DiamondPos> for StaggeredPos {
    fn from(diamond_pos: DiamondPos) -> StaggeredPos {
        StaggeredPos { x: diamond_pos.x, y: diamond_pos.y.wrapping_sub(diamond_pos.x) }
    }
}

impl vstd::std_specs::convert::FromSpecImpl<DiamondPos> for StaggeredPos {
    open spec fn obeys_from_spec() -> bool {
        true
    }

    open spec fn from_spec(diamond_pos: DiamondPos) -> StaggeredPos {
        StaggeredPos::spec_from_square(diamond_pos.spec_to_square())
    }
}

impl From<&DiamondPos> for StaggeredPos {
    fn from(diamond_pos: &DiamondPos) -> StaggeredPos {
        StaggeredPos { x: diamond_pos.x, y: diamond_pos.y.wrapping_sub(diamond_pos.x) }
    }
}

impl vstd::std_specs::convert::FromSpecImpl<&DiamondPos> for StaggeredPos {
    open spec fn obeys_from_spec() -> bool {
        true
    }

    open spec fn from_spec(diamond_pos: &DiamondPos) -> StaggeredPos {
        StaggeredPos::spec_from_square(diamond_pos.spec_to_square())
    }
}

impl StaggeredPos {
    pub fn new(x: i32, y: i32) -> (pos: StaggeredPos)
        ensures
            pos == (StaggeredPos { x, y }),
    {
        StaggeredPos { x, y }
    }

    /// The square position of the tile at this staggered position: the row
    /// grows by the column, modulo 2^32.
    pub open spec fn spec_to_square(self) -> SquarePos {
        SquarePos { x: self.x, y: vstd::wrapping::i32_specs::wrapping_add(self.y, self.x) }
    }

    /// The staggered position of the tile at the given square position: the
    /// row shrinks by the column, modulo 2^32.
    pub open spec fn spec_from_square(square_pos: SquarePos) -> StaggeredPos {
        StaggeredPos {
            x: square_pos.x,
            y: vstd::wrapping::i32_specs::wrapping_sub(square_pos.y, square_pos.x),
        }
    }

    /// Try converting into a [`TilePos`].
    ///
    /// Returns `None` if either one of `self.x` or `self.y` is negative, or
    /// lies outside of the bounds of `map_size`.
    pub fn as_tile_pos(&self, map_size: &TilemapSize) -> (pos: Option<TilePos>)
        ensures
            pos == tile_at(self.x as int, self.y as int, *map_size),
    {
        TilePos::from_i32_pair(self.x, self.y, map_size)
    }

    /// Calculate offset in the given direction: the step is taken on the
    /// square grid, so a step of `dx` columns takes `dx` off the staggered
    /// row.
    pub fn offset(&self, direction: &SquareDirection) -> (neighbor: StaggeredPos)
        requires
            fits_i32(self.x + direction.spec_offset().x),
            fits_i32(self.y + direction.spec_offset().y - direction.spec_offset().x),
        ensures
            neighbor.x == self.x + direction.spec_offset().x,
            neighbor.y == self.y + direction.spec_offset().y - direction.spec_offset().x,
    {
        let step = direction.offset();
        StaggeredPos { x: self.x + step.x, y: self.y + (step.y - step.x) }
    }
}

/// Going from a staggered position to the square position and back gives the
/// position started from, for every position.
pub proof fn lemma_staggered_square_round_trip(staggered_pos: StaggeredPos)
    ensures
        StaggeredPos::spec_from_square(staggered_pos.spec_to_square()) == staggered_pos,
{
}

/// Going from a square position to the staggered position and back gives the
/// position started from, for every position.
pub proof fn lemma_square_staggered_round_trip(square_pos: SquarePos)
    ensures
        StaggeredPos::spec_from_square(square_pos).spec_to_square() == square_pos,
{
}

/// Where no coordinate leaves the range of `i32`, the square row is the
/// staggered row plus the column.
pub proof fn lemma_staggered_exact(staggered_pos: StaggeredPos, square_pos: SquarePos)
    ensures
        fits_i32(staggered_pos.y + staggered_pos.x) ==> staggered_pos.spec_to_square().y
            == staggered_pos.y + staggered_pos.x,
        fits_i32(square_pos.y - square_pos.x) ==> StaggeredPos::spec_from_square(square_pos).y
            == square_pos.y - square_pos.x,
{
}

} // verus!
