use crate::helpers::support::fits_i32;
use crate::helpers::projection::tile_at;
use crate::helpers::square_grid::neighbors::SquareDirection;
use crate::helpers::square_grid::staggered::StaggeredPos;
use crate::helpers::square_grid::SquarePos;
use crate::map::TilemapSize;
use crate::tiles::TilePos;
use vstd::prelude::*;

verus! {

/// Position for tiles arranged in the isometric diamond coordinate system.
///
/// A diamond position has the coordinates of the square position of the same
/// tile; only the projection to world space differs.
#[derive(Clone, Copy, Debug, Ord, PartialOrd, Eq, PartialEq, Hash, Structural)]
pub struct DiamondPos {
    pub x: i32,
    pub y: i32,
}

impl From<&TilePos> for DiamondPos {
    /// Reads the tile position's coordinates as `i32`, modulo 2^32.
    fn from(tile_pos: &TilePos) -> DiamondPos {
        DiamondPos {
            x: #[verifier::truncate] (tile_pos.x as i32),
            y: #[verifier::truncate] (tile_pos.y as i32),
        }
    }
}

impl vstd::std_specs::convert::FromSpecImpl<&TilePos> for DiamondPos {
    open spec fn obeys_from_spec() -> bool {
        true
    }

    open spec fn from_spec(tile_pos: &TilePos) -> DiamondPos {
        DiamondPos { x: tile_pos.x as i32, y: tile_pos.y as i32 }
    }
}

impl From<SquarePos> for DiamondPos {
    fn from(square_pos: SquarePos) -> DiamondPos {
        DiamondPos { x: square_pos.x, y: square_pos.y }
    }
}

impl vstd::std_specs::convert::FromSpecImpl<SquarePos> for DiamondPos {
    open spec fn obeys_from_spec() -> bool {
        true
    }

    open spec fn from_spec(square_pos: SquarePos) -> DiamondPos {
        DiamondPos::spec_from_square(square_pos)
    }
}

impl From<&SquarePos> for DiamondPos {
    fn from(square_pos: &SquarePos) -> DiamondPos {
        DiamondPos { x: square_pos.x, y: square_pos.y }
    }
}

impl vstd::std_specs::convert::FromSpecImpl<&SquarePos> for DiamondPos {
    open spec fn obeys_from_spec() -> bool {
        true
    }

    open spec fn from_spec(square_pos: &SquarePos) -> DiamondPos {
        DiamondPos::spec_from_square(*square_pos)
    }
}

impl From<StaggeredPos> for DiamondPos {
    fn from(staggered_pos: StaggeredPos) -> DiamondPos {
        DiamondPos { x: staggered_pos.x, y: staggered_pos.y.wrapping_add(staggered_pos.x) }
    }
}

impl vstd::std_specs::convert::FromSpecImpl<StaggeredPos> for DiamondPos {
    open spec fn obeys_from_spec() -> bool {
        true
    }

    open spec fn from_spec(staggered_pos: StaggeredPos) -> DiamondPos {
        DiamondPos::spec_from_square(staggered_pos.spec_to_square())
    }
}

impl From<&StaggeredPos> for DiamondPos {
    fn from(staggered_pos: &StaggeredPos) -> DiamondPos {
        DiamondPos { x: staggered_pos.x, y: staggered_pos.y.wrapping_add(staggered_pos.x) }
    }
}

impl vstd::std_specs::convert::FromSpecImpl<&StaggeredPos> for DiamondPos {
    open spec fn obeys_from_spec() -> bool {
        true
    }

    open spec fn from_spec(staggered_pos: &StaggeredPos) -> DiamondPos {
        DiamondPos::spec_from_square(staggered_pos.spec_to_square())
    }
}

impl DiamondPos {
    pub fn new(x: i32, y: i32) -> (pos: DiamondPos)
        ensures
            pos == (DiamondPos { x, y }),
    {
        DiamondPos { x, y }
    }

    /// The square position of the tile at this diamond position: the same
    /// coordinates.
    pub open spec fn spec_to_square(self) -> SquarePos {
        SquarePos { x: self.x, y: self.y }
    }

    /// The diamond position of the tile at the given square position: the
    /// same coordinates.
    pub open spec fn spec_from_square(square_pos: SquarePos) -> DiamondPos {
        DiamondPos { x: square_pos.x, y: square_pos.y }
    }

    /// Try converting into a [`TilePos`].
    ///
    /// Returns `None` if either one of `self.x` or `self.y` is negative, or
    /// lies outside of the bounds of `map_size`.
    pub fn as_tile_pos(&self, map_size: &TilemapSize) -> (pos: Option<TilePos>)
        ensures
            pos == tile_at(self.x as int, self.y as int, *map_size),
    {
        TilePos::from_i32_pair(self.x, self.y, map_size)
    }

    /// Calculate offset in the given direction.
    pub fn offset(&self, direction: &SquareDirection) -> (neighbor: DiamondPos)
        requires
            fits_i32(self.x + direction.spec_offset().x),
            fits_i32(self.y + direction.spec_offset().y),
        ensures
            neighbor.x == self.x + direction.spec_offset().x,
            neighbor.y == self.y + direction.spec_offset().y,
    {
        DiamondPos::from(SquarePos::from(self).offset(direction))
    }
}

/// Going from a diamond position to the square position and back, or the
/// other way round, gives the position started from.
pub proof fn lemma_diamond_square_round_trip(diamond_pos: DiamondPos, square_pos: SquarePos)
    ensures
        DiamondPos::spec_from_square(diamond_pos.spec_to_square()) == diamond_pos,
        DiamondPos::spec_from_square(square_pos).spec_to_square() == square_pos,
{
}

} // verus!
