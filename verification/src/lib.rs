//! Tile-grid geometry: the coordinate systems of square, hexagonal and
//! isometric tilemaps, the exact conversions between them, neighbor lookup,
//! ring and hexagon regions, and the grid that stores one entity per tile.
//!
//! Everything here computes with integers and is verified with Verus. The
//! contracts are stated over mathematical integers and sequences; where a
//! conversion wraps around at the ends of the `i32` range, its contract says
//! so.

pub mod helpers;
pub mod map;
pub mod tiles;
