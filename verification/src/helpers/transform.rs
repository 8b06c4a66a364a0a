use crate::tiles::TilePos;
use vstd::prelude::*;

verus! {

/// The bottom-left tile of a chunk, its "anchor tile": the chunk with index
/// `(chunk_x, chunk_y)`, where every chunk is `width` tiles wide and `height`
/// tiles high, starts at the tile `(chunk_x * width, chunk_y * height)`.
/// The world-space position of a chunk is the center of that tile.
pub fn chunk_anchor_tile(chunk_x: u32, chunk_y: u32, width: u32, height: u32) -> (anchor: TilePos)
    requires
        chunk_x * width <= u32::MAX,
        chunk_y * height <= u32::MAX,
    ensures
        anchor.x == chunk_x * width,
        anchor.y == chunk_y * height,
{
    TilePos { x: chunk_x * width, y: chunk_y * height }
}

} // verus!
