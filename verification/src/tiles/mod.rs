pub mod storage;

use crate::map::TilemapSize;
use vstd::prelude::*;

verus! {

/// A tile position in the tilemap grid.
#[derive(Clone, Copy, Debug, Hash, PartialEq, Eq, PartialOrd, Ord, Structural)]
pub struct TilePos {
    pub x: u32,
    pub y: u32,
}

impl TilePos {
    pub fn new(x: u32, y: u32) -> (pos: TilePos)
        ensures
            pos == (TilePos { x, y }),
    {
        TilePos { x, y }
    }

    /// Whether this position lies within a map of the given size.
    pub open spec fn spec_within_map_bounds(&self, map_size: TilemapSize) -> bool {
        self.x < map_size.x && self.y < map_size.y
    }

    /// Row-major index of this position in a map of the given width.
    pub open spec fn spec_index(&self, map_size: TilemapSize) -> int {
        self.y * map_size.x + self.x
    }

    /// Converts a tile position (2D) into an index in a flattened vector (1D),
    /// assuming the tile position lies in a tilemap of the specified size.
    ///
    /// The index has to fit in `usize`, which it always does on a 64-bit
    /// machine.
    pub fn to_index(&self, tilemap_size: &TilemapSize) -> (index: usize)
        requires
            self.spec_index(*tilemap_size) <= usize::MAX,
        ensures
            index == self.spec_index(*tilemap_size),
    {
        assert(self.y * tilemap_size.x <= 0xFFFF_FFFF * 0xFFFF_FFFF) by (nonlinear_arith)
            requires
                0 <= self.y <= 0xFFFF_FFFF,
                0 <= tilemap_size.x <= 0xFFFF_FFFF,
        ;
        let wide: u64 = (self.y as u64) * (tilemap_size.x as u64) + (self.x as u64);
        wide as usize
    }

    /// Checks to see if `self` lies within a tilemap of the specified size.
    pub fn within_map_bounds(&self, map_size: &TilemapSize) -> (inside: bool)
        ensures
            inside == self.spec_within_map_bounds(*map_size),
    {
        self.x < map_size.x && self.y < map_size.y
    }
}

impl Default for TilePos {
    fn default() -> (pos: TilePos)
        ensures
            pos == (TilePos { x: 0, y: 0 }),
    {
        TilePos { x: 0, y: 0 }
    }
}

/// A position inside the map has an index below the map's tile count, and
/// two such positions share an index only if they are equal.
pub proof fn lemma_index_in_bounds(pos: TilePos, map_size: TilemapSize)
    requires
        pos.spec_within_map_bounds(map_size),
    ensures
        0 <= pos.spec_index(map_size) < map_size.spec_count(),
{
    assert(pos.y * map_size.x + pos.x < map_size.x * map_size.y) by (nonlinear_arith)
        requires
            0 <= pos.x < map_size.x,
            0 <= pos.y < map_size.y,
    ;
    assert(0 <= pos.y * map_size.x) by (nonlinear_arith)
        requires
            0 <= pos.y,
            0 <= map_size.x,
    ;
}

/// Within a map, the row-major index determines the position.
pub proof fn lemma_index_injective(a: TilePos, b: TilePos, map_size: TilemapSize)
    requires
        a.spec_within_map_bounds(map_size),
        b.spec_within_map_bounds(map_size),
        a.spec_index(map_size) == b.spec_index(map_size),
    ensures
        a == b,
{
    assert(a.y == b.y) by (nonlinear_arith)
        requires
            0 <= a.x < map_size.x,
            0 <= b.x < map_size.x,
            0 <= a.y,
            0 <= b.y,
            a.y * map_size.x + a.x == b.y * map_size.x + b.x,
    ;
}

/// A texture index into the atlas or texture array for a single tile.
#[derive(Clone, Copy, Debug, Hash, PartialEq, Eq, Structural)]
pub struct TileTextureIndex(pub u32);

impl Default for TileTextureIndex {
    fn default() -> (index: TileTextureIndex)
        ensures
            index == TileTextureIndex(0),
    {
        TileTextureIndex(0)
    }
}

/// Hides or shows a tile based on the boolean. Default: true.
#[derive(Clone, Copy, Debug, Hash, PartialEq, Eq, Structural)]
pub struct TileVisible(pub bool);

impl Default for TileVisible {
    fn default() -> (visible: TileVisible)
        ensures
            visible == TileVisible(true),
    {
        TileVisible(true)
    }
}

/// Flips the tile's texture along the X, Y or diagonal axes.
#[derive(Clone, Copy, Debug, Hash, PartialEq, Eq, Structural)]
pub struct TileFlip {
    /// Flip tile along the x axis.
    pub x: bool,
    /// Flip tile along the y axis.
    pub y: bool,
    /// Flip tile along the anti-diagonal.
    pub d: bool,
}

impl Default for TileFlip {
    fn default() -> (flip: TileFlip)
        ensures
            flip == (TileFlip { x: false, y: false, d: false }),
    {
        TileFlip { x: false, y: false, d: false }
    }
}

/// The position a tile had before it last moved.
#[derive(Clone, Copy, Debug, PartialEq, Eq, Structural)]
pub struct TilePosOld(pub TilePos);

impl Default for TilePosOld {
    fn default() -> (old_pos: TilePosOld)
        ensures
            old_pos == TilePosOld(TilePos { x: 0, y: 0 }),
    {
        TilePosOld(TilePos { x: 0, y: 0 })
    }
}

} // verus!
