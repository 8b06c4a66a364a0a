use vstd::prelude::*;

verus! {

/// Extent of a tilemap, in tiles.
#[derive(Clone, Copy, Debug, PartialEq, Eq, Hash, Structural)]
pub struct TilemapSize {
    pub x: u32,
    pub y: u32,
}

impl TilemapSize {
    pub fn new(x: u32, y: u32) -> (size: TilemapSize)
        ensures
            size == (TilemapSize { x, y }),
    {
        TilemapSize { x, y }
    }

    /// Number of tiles of a map of this size, as a mathematical integer.
    pub open spec fn spec_count(&self) -> nat {
        (self.x as nat) * (self.y as nat)
    }

    /// Number of tiles of a map of this size.
    ///
    /// The product has to fit in `usize`, which it always does on a 64-bit
    /// machine.
    pub fn count(&self) -> (n: usize)
        requires
            self.spec_count() <= usize::MAX,
        ensures
            n == self.spec_count(),
    {
        let wide: u64 = self.wide_count();
        wide as usize
    }

    /// The tile count in 64 bits, where it cannot overflow.
    pub fn wide_count(&self) -> (n: u64)
        ensures
            n == self.spec_count(),
    {
        assert((self.x as nat) * (self.y as nat) <= 0xFFFF_FFFF * 0xFFFF_FFFF) by (nonlinear_arith)
            requires
                self.x <= 0xFFFF_FFFF,
                self.y <= 0xFFFF_FFFF,
        ;
        (self.x as u64) * (self.y as u64)
    }
}

impl Default for TilemapSize {
    fn default() -> (size: TilemapSize)
        ensures
            size == (TilemapSize { x: 0, y: 0 }),
    {
        TilemapSize { x: 0, y: 0 }
    }
}

/// The six conventions by which a hexagonal map addresses its tiles.
#[derive(Clone, Copy, Debug, PartialEq, Eq, Hash, Structural)]
pub enum HexCoordSystem {
    /// Rows of hexes; every even row is shifted half a tile to the right.
    RowEven,
    /// Rows of hexes; every odd row is shifted half a tile to the right.
    RowOdd,
    /// Columns of hexes; every even column is shifted half a tile upwards.
    ColumnEven,
    /// Columns of hexes; every odd column is shifted half a tile upwards.
    ColumnOdd,
    /// Axial coordinates for pointy-topped hexes laid out in rows.
    Row,
    /// Axial coordinates for flat-topped hexes laid out in columns.
    Column,
}

/// The two conventions by which an isometric map addresses its tiles.
#[derive(Clone, Copy, Debug, PartialEq, Eq, Hash, Structural)]
pub enum IsoCoordSystem {
    Diamond,
    Staggered,
}

/// The layout of a tilemap.
#[derive(Clone, Copy, Debug, PartialEq, Eq, Hash, Structural)]
pub enum TilemapType {
    Square,
    Hexagon(HexCoordSystem),
    Isometric(IsoCoordSystem),
}

impl Default for TilemapType {
    fn default() -> (map_type: TilemapType)
        ensures
            map_type == TilemapType::Square,
    {
        TilemapType::Square
    }
}

} // verus!
