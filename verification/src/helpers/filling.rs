use crate::helpers::hex_grid::axial::{lemma_axial_offset_round_trip, AxialPos};
use crate::helpers::hex_grid::neighbors::HexDirection;
use crate::map::{HexCoordSystem, TilemapSize};
use crate::tiles::storage::TileStorage;
use crate::tiles::TilePos;
use bevy::ecs::entity::Entity;
use vstd::prelude::*;

verus! {

/// The cell of the ring of the given radius around `origin` that lies `step`
/// steps along the edge `edge`.
///
/// The edge starts at the corner `origin + radius * direction(edge)` and runs
/// along the tangent `direction(edge + 2)`, which leads to the next corner.
pub open spec fn ring_cell(origin: AxialPos, radius: int, edge: int, step: int) -> AxialPos {
    let corner = HexDirection::spec_from_index(edge).spec_offset();
    let tangent = HexDirection::spec_from_index(edge + 2).spec_offset();
    AxialPos {
        q: (origin.q + radius * corner.q + step * tangent.q) as i32,
        r: (origin.r + radius * corner.r + step * tangent.r) as i32,
    }
}

/// The ring of the given radius around `origin`: for a positive radius its
/// six edges in counter-clockwise order, each with `radius` cells, the corner
/// first; for radius zero the origin alone.
pub open spec fn hex_ring(origin: AxialPos, radius: nat) -> Seq<AxialPos> {
    if radius == 0 {
        seq![origin]
    } else {
        Seq::new(
            6 * radius,
            |i: int| ring_cell(origin, radius as int, i / (radius as int), i % (radius as int)),
        )
    }
}

/// The filled hexagon of the given radius around `origin`: the rings of
/// radius `0, 1, ..., radius`, one after the other.
pub open spec fn hexagon(origin: AxialPos, radius: nat) -> Seq<AxialPos>
    decreases radius,
{
    if radius == 0 {
        hex_ring(origin, 0)
    } else {
        hexagon(origin, (radius - 1) as nat) + hex_ring(origin, radius)
    }
}

/// Whether every cell within `radius` steps of `origin` has coordinates that
/// an `i32` can hold.
pub open spec fn ring_fits(origin: AxialPos, radius: int) -> bool {
    &&& i32::MIN <= origin.q - radius
    &&& origin.q + radius <= i32::MAX
    &&& i32::MIN <= origin.r - radius
    &&& origin.r + radius <= i32::MAX
}

/// In a grid of runs of `len` cells each, the cell at the place `step` of
/// the run numbered `run` has the index `run * len + step`.
proof fn lemma_grid_index(len: int, run: int, step: int)
    requires
        0 < len,
        0 <= run,
        0 <= step < len,
    ensures
        (run * len + step) / len == run,
        (run * len + step) % len == step,
{
    vstd::arithmetic::div_mod::lemma_fundamental_div_mod_converse(run * len + step, len, run, step);
}

/// An index into a grid of `count` runs of `len` cells each splits into the
/// number of its run and its place in the run.
proof fn lemma_grid_index_split(len: int, count: int, i: int)
    requires
        0 < len,
        0 <= i < count * len,
    ensures
        0 <= i / len < count,
        0 <= i % len < len,
        i == (i / len) * len + i % len,
{
    vstd::arithmetic::div_mod::lemma_fundamental_div_mod(i, len);
    vstd::arithmetic::div_mod::lemma_mod_bound(i, len);
    let run = i / len;
    let step = i % len;
    assert(i == run * len + step) by (nonlinear_arith)
        requires
            i == len * run + step,
    ;
    assert(0 <= run < count) by (nonlinear_arith)
        requires
            0 < len,
            0 <= step < len,
            0 <= run * len + step < count * len,
    ;
}

/// The coordinates of a ring cell, edge by edge, relative to the origin.
proof fn lemma_ring_cell_coords(origin: AxialPos, radius: int, edge: int, step: int)
    requires
        ring_fits(origin, radius),
        0 <= edge < 6,
        0 <= step < radius,
    ensures
        ({
            let cell = ring_cell(origin, radius, edge, step);
            let dq = cell.q - origin.q;
            let dr = cell.r - origin.r;
            &&& edge == 0 ==> dq == radius - step && dr == step
            &&& edge == 1 ==> dq == -step && dr == radius
            &&& edge == 2 ==> dq == -radius && dr == radius - step
            &&& edge == 3 ==> dq == step - radius && dr == -step
            &&& edge == 4 ==> dq == step && dr == -radius
            &&& edge == 5 ==> dq == radius && dr == step - radius
        }),
{
    let corner = HexDirection::spec_from_index(edge).spec_offset();
    let tangent = HexDirection::spec_from_index(edge + 2).spec_offset();
    assert(radius * 1 == radius && radius * 0 == 0 && radius * (-1) == -radius);
    assert(step * 1 == step && step * 0 == 0 && step * (-1) == -step);
    if edge == 0 {
        assert(corner == AxialPos { q: 1, r: 0 } && tangent == AxialPos { q: -1i32, r: 1 });
    } else if edge == 1 {
        assert(corner == AxialPos { q: 0, r: 1 } && tangent == AxialPos { q: -1i32, r: 0 });
    } else if edge == 2 {
        assert(corner == AxialPos { q: -1i32, r: 1 } && tangent == AxialPos { q: 0, r: -1i32 });
    } else if edge == 3 {
        assert(corner == AxialPos { q: -1i32, r: 0 } && tangent == AxialPos { q: 1, r: -1i32 });
    } else if edge == 4 {
        assert(corner == AxialPos { q: 0, r: -1i32 } && tangent == AxialPos { q: 1, r: 0 });
    } else {
        assert(corner == AxialPos { q: 1, r: -1i32 } && tangent == AxialPos { q: 0, r: 1 });
    }
}

/// A ring of positive radius has six cells per unit of radius; the ring of
/// radius zero has one cell.
pub proof fn lemma_ring_len(origin: AxialPos, radius: nat)
    ensures
        hex_ring(origin, radius).len() == (if radius == 0 { 1 } else { 6 * radius }),
{
}

/// Every cell of a ring lies exactly `radius` steps from the origin.
pub proof fn lemma_ring_distance(origin: AxialPos, radius: nat, i: int)
    requires
        ring_fits(origin, radius as int),
        0 <= i < hex_ring(origin, radius).len(),
    ensures
        hex_ring(origin, radius)[i].spec_distance(origin) == radius,
{
    if radius > 0 {
        lemma_grid_index_split(radius as int, 6, i);
        lemma_ring_cell_coords(origin, radius as int, i / (radius as int), i % (radius as int));
    }
}

/// No cell occurs twice in a ring.
pub proof fn lemma_ring_no_duplicates(origin: AxialPos, radius: nat)
    requires
        ring_fits(origin, radius as int),
    ensures
        hex_ring(origin, radius).no_duplicates(),
{
    let ring = hex_ring(origin, radius);
    if radius > 0 {
        let r = radius as int;
        assert forall|i: int, j: int| 0 <= i < ring.len() && 0 <= j < ring.len() && i != j implies ring[i]
            != ring[j] by {
            lemma_grid_index_split(r, 6, i);
            lemma_grid_index_split(r, 6, j);
            lemma_ring_cell_coords(origin, r, i / r, i % r);
            lemma_ring_cell_coords(origin, r, j / r, j % r);
            if ring[i] == ring[j] {
                assert(i / r == j / r);
                assert(i % r == j % r);
                assert(false);
            }
        }
    }
}

/// Every cell that lies exactly `radius` steps from the origin is in the ring.
pub proof fn lemma_ring_complete(origin: AxialPos, radius: nat, cell: AxialPos)
    requires
        ring_fits(origin, radius as int),
        cell.spec_distance(origin) == radius,
    ensures
        hex_ring(origin, radius).contains(cell),
{
    let ring = hex_ring(origin, radius);
    let r = radius as int;
    let dq = cell.q - origin.q;
    let dr = cell.r - origin.r;
    if radius == 0 {
        assert(dq == 0 && dr == 0);
        assert(ring[0] == cell);
    } else {
        let (edge, step): (int, int) = if dq > 0 && dr >= 0 {
            (0, dr)
        } else if dq <= 0 && dr > 0 && dq + dr > 0 {
            (1, -dq)
        } else if dq < 0 && dr > 0 {
            (2, r - dr)
        } else if dq < 0 && dr <= 0 {
            (3, -dr)
        } else if dq >= 0 && dr < 0 && dq + dr < 0 {
            (4, dq)
        } else {
            (5, dr + r)
        };
        assert(0 <= edge < 6 && 0 <= step < r);
        lemma_ring_cell_coords(origin, r, edge, step);
        lemma_grid_index(r, edge, step);
        let i = edge * r + step;
        assert(0 <= i < 6 * r) by (nonlinear_arith)
            requires
                0 <= edge < 6,
                0 <= step < r,
                i == edge * r + step,
        ;
        assert(ring[i] == cell);
    }
}

/// A cell is in the ring exactly if it lies `radius` steps from the origin.
pub proof fn lemma_ring_contains(origin: AxialPos, radius: nat, cell: AxialPos)
    requires
        ring_fits(origin, radius as int),
    ensures
        hex_ring(origin, radius).contains(cell) <==> cell.spec_distance(origin) == radius,
{
    let ring = hex_ring(origin, radius);
    if cell.spec_distance(origin) == radius {
        lemma_ring_complete(origin, radius, cell);
    }
    if ring.contains(cell) {
        let i = choose|i: int| 0 <= i < ring.len() && ring[i] == cell;
        lemma_ring_distance(origin, radius, i);
    }
}

/// A filled hexagon of radius `r` has `1 + 3 r (r + 1)` cells.
pub proof fn lemma_hexagon_len(origin: AxialPos, radius: nat)
    ensures
        hexagon(origin, radius).len() == 1 + 3 * radius * (radius + 1),
    decreases radius,
{
    if radius > 0 {
        let inner = (radius - 1) as nat;
        lemma_hexagon_len(origin, inner);
        assert(1 + 3 * inner * (inner + 1) + 6 * radius == 1 + 3 * radius * (radius + 1))
            by (nonlinear_arith)
            requires
                inner + 1 == radius,
        ;
    } else {
        assert(3 * radius * (radius + 1) == 0) by (nonlinear_arith)
            requires
                radius == 0,
        ;
    }
}

/// A cell is in the filled hexagon exactly if it lies at most `radius` steps
/// from the origin.
pub proof fn lemma_hexagon_contains(origin: AxialPos, radius: nat, cell: AxialPos)
    requires
        ring_fits(origin, radius as int),
    ensures
        hexagon(origin, radius).contains(cell) <==> cell.spec_distance(origin) <= radius,
    decreases radius,
{
    lemma_ring_contains(origin, radius, cell);
    if radius > 0 {
        let inner = hexagon(origin, (radius - 1) as nat);
        let ring = hex_ring(origin, radius);
        lemma_hexagon_contains(origin, (radius - 1) as nat, cell);
        let whole = inner + ring;
        if inner.contains(cell) {
            let i = choose|i: int| 0 <= i < inner.len() && inner[i] == cell;
            assert(whole[i] == cell);
        }
        if ring.contains(cell) {
            let i = choose|i: int| 0 <= i < ring.len() && ring[i] == cell;
            assert(whole[inner.len() + i] == cell);
        }
        if whole.contains(cell) {
            let i = choose|i: int| 0 <= i < whole.len() && whole[i] == cell;
            if i < inner.len() {
                assert(inner[i] == cell);
            } else {
                assert(ring[i - inner.len()] == cell);
            }
        }
    }
}

/// A filled hexagon holds every cell of each ring of no greater radius
/// around the same origin.
pub proof fn lemma_hexagon_contains_ring(origin: AxialPos, radius: nat, inner: nat, i: int)
    requires
        ring_fits(origin, radius as int),
        inner <= radius,
        0 <= i < hex_ring(origin, inner).len(),
    ensures
        hexagon(origin, radius).contains(hex_ring(origin, inner)[i]),
{
    lemma_ring_distance(origin, inner, i);
    lemma_hexagon_contains(origin, radius, hex_ring(origin, inner)[i]);
}

/// No cell occurs twice in a filled hexagon.
pub proof fn lemma_hexagon_no_duplicates(origin: AxialPos, radius: nat)
    requires
        ring_fits(origin, radius as int),
    ensures
        hexagon(origin, radius).no_duplicates(),
    decreases radius,
{
    lemma_ring_no_duplicates(origin, radius);
    if radius > 0 {
        let inner = hexagon(origin, (radius - 1) as nat);
        let ring = hex_ring(origin, radius);
        lemma_hexagon_no_duplicates(origin, (radius - 1) as nat);
        assert forall|i: int, j: int| 0 <= i < inner.len() && 0 <= j < ring.len() implies inner[i]
            != ring[j] by {
            lemma_hexagon_contains(origin, (radius - 1) as nat, inner[i]);
            lemma_ring_distance(origin, radius, j);
        }
        vstd::seq_lib::lemma_no_dup_in_concat(inner, ring);
    }
}

/// Generates a vector of hex positions that form a ring of given `radius`
/// around the specified `origin`.
///
/// If `radius` is zero, `origin` is the only position in the returned vector.
pub fn generate_hex_ring(origin: AxialPos, radius: u32) -> (ring: Vec<AxialPos>)
    requires
        ring_fits(origin, radius as int),
        6 * radius <= usize::MAX,
    ensures
        ring@ == hex_ring(origin, radius as nat),
        ring@.len() == (if radius == 0 { 1 } else { 6 * radius }),
        ring@.no_duplicates(),
        forall|cell: AxialPos| #[trigger]
            ring@.contains(cell) <==> cell.spec_distance(origin) == radius,
{
    proof {
        lemma_ring_no_duplicates(origin, radius as nat);
        assert forall|cell: AxialPos| #[trigger]
            hex_ring(origin, radius as nat).contains(cell) <==> cell.spec_distance(origin)
                == radius by {
            lemma_ring_contains(origin, radius as nat, cell);
        }
    }
    if radius == 0 {
        let mut ring = Vec::with_capacity(1);
        ring.push(origin);
        assert(ring@ =~= hex_ring(origin, 0));
        ring
    } else {
        let mut ring: Vec<AxialPos> = Vec::new();
        let mut edge: usize = 0;
        while edge < 6
            invariant
                0 < radius,
                0 <= edge <= 6,
                ring_fits(origin, radius as int),
                ring@.len() == edge * radius,
                forall|i: int|
                    0 <= i < ring@.len() ==> ring@[i] == #[trigger] ring_cell(
                        origin,
                        radius as int,
                        i / (radius as int),
                        i % (radius as int),
                    ),
            decreases 6 - edge,
        {
            let corner = origin + radius * AxialPos::from(HexDirection::from(edge));
            // The tangent is the direction to travel in to reach the next corner.
            let tangent = AxialPos::from(HexDirection::from(edge + 2));
            let mut step: u32 = 0;
            while step < radius
                invariant
                    0 < radius,
                    0 <= edge < 6,
                    0 <= step <= radius,
                    ring_fits(origin, radius as int),
                    corner == ring_cell(origin, radius as int, edge as int, 0),
                    tangent == HexDirection::spec_from_index(edge + 2).spec_offset(),
                    ring@.len() == edge * radius + step,
                    forall|i: int|
                        0 <= i < ring@.len() ==> ring@[i] == #[trigger] ring_cell(
                            origin,
                            radius as int,
                            i / (radius as int),
                            i % (radius as int),
                        ),
                decreases radius - step,
            {
                proof {
                    lemma_grid_index(radius as int, edge as int, step as int);
                }
                let cell = corner + step * tangent;
                ring.push(cell);
                step = step + 1;
            }
            edge = edge + 1;
            assert(ring@.len() == edge * radius) by (nonlinear_arith)
                requires
                    ring@.len() == (edge - 1) * radius + radius,
            ;
        }
        assert(ring@ =~= hex_ring(origin, radius as nat));
        ring
    }
}

/// Generates a vector of hex positions that form a hexagon of given `radius`
/// around the specified `origin`.
pub fn generate_hexagon(origin: AxialPos, radius: u32) -> (cells: Vec<AxialPos>)
    requires
        ring_fits(origin, radius as int),
        1 + 3 * radius * (radius + 1) <= usize::MAX,
    ensures
        cells@ == hexagon(origin, radius as nat),
        cells@.len() == 1 + 3 * radius * (radius + 1),
        cells@.no_duplicates(),
        forall|cell: AxialPos| #[trigger]
            cells@.contains(cell) <==> cell.spec_distance(origin) <= radius,
{
    proof {
        lemma_hexagon_len(origin, radius as nat);
        lemma_hexagon_no_duplicates(origin, radius as nat);
        assert forall|cell: AxialPos| #[trigger]
            hexagon(origin, radius as nat).contains(cell) <==> cell.spec_distance(origin)
                <= radius by {
            lemma_hexagon_contains(origin, radius as nat, cell);
        }
    }
    let mut cells: Vec<AxialPos> = Vec::new();
    let mut r: u32 = 0;
    loop
        invariant_except_break
            0 <= r <= radius,
            ring_fits(origin, radius as int),
            1 + 3 * radius * (radius + 1) <= usize::MAX,
            r == 0 ==> cells@.len() == 0,
            r > 0 ==> cells@ == hexagon(origin, (r - 1) as nat),
        ensures
            cells@ == hexagon(origin, radius as nat),
        decreases radius - r,
    {
        assert(6 * r <= 1 + 3 * radius * (radius + 1)) by (nonlinear_arith)
            requires
                0 <= r <= radius,
        ;
        let mut ring = generate_hex_ring(origin, r);
        cells.append(&mut ring);
        assert(cells@ =~= hexagon(origin, r as nat));
        if r == radius {
            break ;
        }
        r = r + 1;
    }
    cells
}

/// The tile positions of the hexes of a filled hexagon around the hex of the
/// tile `origin`, under the given coordinate system, ring by ring. A hex with
/// a negative coordinate gets a tile position beyond every map, as the
/// coordinate wraps around modulo 2^32.
pub open spec fn hexagon_tiles(
    origin: TilePos,
    radius: nat,
    hex_coord_sys: HexCoordSystem,
) -> Seq<TilePos> {
    hexagon(
        AxialPos::spec_from_offset_coords(origin.x as i32, origin.y as i32, hex_coord_sys),
        radius,
    ).map_values(|cell: AxialPos| tile_of(cell, hex_coord_sys))
}

/// The tile position that addresses a hex under the given coordinate system,
/// each coordinate taken modulo 2^32.
pub open spec fn tile_of(cell: AxialPos, hex_coord_sys: HexCoordSystem) -> TilePos {
    TilePos {
        x: cell.spec_offset_coords(hex_coord_sys).0 as u32,
        y: cell.spec_offset_coords(hex_coord_sys).1 as u32,
    }
}

/// Two hexes with the same tile position are the same hex.
pub proof fn lemma_tile_of_injective(a: AxialPos, b: AxialPos, hex_coord_sys: HexCoordSystem)
    requires
        tile_of(a, hex_coord_sys) == tile_of(b, hex_coord_sys),
    ensures
        a == b,
{
    let (aq, ar) = a.spec_offset_coords(hex_coord_sys);
    let (bq, br) = b.spec_offset_coords(hex_coord_sys);
    assert(aq as u32 == bq as u32 ==> aq == bq) by (bit_vector);
    assert(ar as u32 == br as u32 ==> ar == br) by (bit_vector);
    lemma_axial_offset_round_trip(a, hex_coord_sys);
    lemma_axial_offset_round_trip(b, hex_coord_sys);
}

/// No tile position occurs twice among the tiles of a filled hexagon.
pub proof fn lemma_hexagon_tiles_no_duplicates(
    origin: TilePos,
    radius: nat,
    hex_coord_sys: HexCoordSystem,
)
    requires
        ring_fits(
            AxialPos::spec_from_offset_coords(origin.x as i32, origin.y as i32, hex_coord_sys),
            radius as int,
        ),
    ensures
        hexagon_tiles(origin, radius, hex_coord_sys).no_duplicates(),
{
    let center = AxialPos::spec_from_offset_coords(origin.x as i32, origin.y as i32, hex_coord_sys);
    let cells = hexagon(center, radius);
    let tiles = hexagon_tiles(origin, radius, hex_coord_sys);
    lemma_hexagon_no_duplicates(center, radius);
    assert forall|i: int, j: int| 0 <= i < tiles.len() && 0 <= j < tiles.len() && i != j implies tiles[i]
        != tiles[j] by {
        if tiles[i] == tiles[j] {
            lemma_tile_of_injective(cells[i], cells[j], hex_coord_sys);
        }
    }
}

/// The tile positions of the hexes of a filled hexagon of the given `radius`
/// around the hex of the tile `origin`, ring by ring.
pub fn hexagon_positions(origin: TilePos, radius: u32, hex_coord_sys: HexCoordSystem) -> (positions:
    Vec<TilePos>)
    requires
        ring_fits(
            AxialPos::spec_from_offset_coords(origin.x as i32, origin.y as i32, hex_coord_sys),
            radius as int,
        ),
        1 + 3 * radius * (radius + 1) <= usize::MAX,
    ensures
        positions@ == hexagon_tiles(origin, radius as nat, hex_coord_sys),
        positions@.len() == 1 + 3 * radius * (radius + 1),
        positions@.no_duplicates(),
{
    let center = AxialPos::from_tile_pos_given_coord_system(&origin, hex_coord_sys);
    let cells = generate_hexagon(center, radius);
    let mut positions: Vec<TilePos> = Vec::with_capacity(cells.len());
    let mut i: usize = 0;
    while i < cells.len()
        invariant
            i <= cells@.len(),
            positions@ == cells@.take(i as int).map_values(
                |cell: AxialPos| tile_of(cell, hex_coord_sys),
            ),
        decreases cells@.len() - i,
    {
        positions.push(cells[i].as_tile_pos_given_coord_system(hex_coord_sys));
        proof {
            assert(positions@ =~= cells@.take(i + 1).map_values(
                |cell: AxialPos| tile_of(cell, hex_coord_sys),
            ));
        }
        i = i + 1;
    }
    proof {
        assert(cells@.take(cells@.len() as int) =~= cells@);
        lemma_hexagon_tiles_no_duplicates(origin, radius as nat, hex_coord_sys);
    }
    positions
}

/// Fills the hexagonal region of the given `radius` around `origin` with the
/// given tiles: `tile_entities[i]` is stored for the `i`-th position of
/// [`hexagon_positions`].
///
/// Tiles that do not fit in the tilemap are not stored.
pub fn fill_tilemap_hexagon(
    origin: TilePos,
    radius: u32,
    hex_coord_sys: HexCoordSystem,
    tile_entities: &Vec<Entity>,
    tile_storage: &mut TileStorage,
)
    requires
        ring_fits(
            AxialPos::spec_from_offset_coords(origin.x as i32, origin.y as i32, hex_coord_sys),
            radius as int,
        ),
        tile_entities@.len() == 1 + 3 * radius * (radius + 1),
    ensures
        final(tile_storage).spec_size() == old(tile_storage).spec_size(),
        final(tile_storage)@.len() == old(tile_storage)@.len(),
        forall|i: int|
            0 <= i < tile_entities@.len() ==> #[trigger] final(tile_storage).spec_get(
                hexagon_tiles(origin, radius as nat, hex_coord_sys)[i],
            ) == (if hexagon_tiles(
                origin,
                radius as nat,
                hex_coord_sys,
            )[i].spec_within_map_bounds(old(tile_storage).spec_size()) {
                Some(tile_entities@[i])
            } else {
                None
            }),
        forall|other: TilePos|
            !hexagon_tiles(origin, radius as nat, hex_coord_sys).contains(other)
                ==> #[trigger] final(tile_storage).spec_get(other) == old(tile_storage).spec_get(
                other,
            ),
{
    proof {
        assert(tile_entities@.len() == tile_entities.len());
    }
    let positions = hexagon_positions(origin, radius, hex_coord_sys);
    tile_storage.checked_set_each(&positions, tile_entities);
}

/// The `i`-th position of a rectangle of the given `size` whose bottom-left
/// tile is `origin`, counted column by column, each column from the bottom.
pub open spec fn rect_cell(origin: TilePos, size: TilemapSize, i: int) -> TilePos {
    TilePos {
        x: (origin.x + i / (size.y as int)) as u32,
        y: (origin.y + i % (size.y as int)) as u32,
    }
}

/// The positions of a rectangle of the given `size` whose bottom-left tile is
/// `origin`, column by column, each column from the bottom.
pub open spec fn rect_cells(origin: TilePos, size: TilemapSize) -> Seq<TilePos> {
    Seq::new(size.spec_count(), |i: int| rect_cell(origin, size, i))
}

/// Whether a position lies in the rectangle of the given `size` whose
/// bottom-left tile is `origin`.
pub open spec fn in_rect(pos: TilePos, origin: TilePos, size: TilemapSize) -> bool {
    origin.x <= pos.x < origin.x + size.x && origin.y <= pos.y < origin.y + size.y
}

/// Whether a `u32` can hold the coordinates of every position of the
/// rectangle.
pub open spec fn rect_fits(origin: TilePos, size: TilemapSize) -> bool {
    size.x > 0 && size.y > 0 ==> origin.x + size.x - 1 <= u32::MAX && origin.y + size.y - 1
        <= u32::MAX
}

/// The place of a position of the rectangle in [`rect_cells`].
pub open spec fn rect_index(pos: TilePos, origin: TilePos, size: TilemapSize) -> int {
    (pos.x - origin.x) * size.y + (pos.y - origin.y)
}

/// A position lies in the rectangle exactly if it is among its cells, and
/// there it stands at its [`rect_index`]; no position occurs twice.
pub proof fn lemma_rect_cells(origin: TilePos, size: TilemapSize)
    requires
        rect_fits(origin, size),
    ensures
        rect_cells(origin, size).no_duplicates(),
        forall|pos: TilePos| #[trigger]
            rect_cells(origin, size).contains(pos) <==> in_rect(pos, origin, size),
        forall|pos: TilePos|
            in_rect(pos, origin, size) ==> 0 <= #[trigger] rect_index(pos, origin, size)
                < rect_cells(origin, size).len() && rect_cells(origin, size)[rect_index(
                pos,
                origin,
                size,
            )] == pos,
{
    let cells = rect_cells(origin, size);
    let h = size.y as int;
    let w = size.x as int;
    assert(size.spec_count() == w * h) by (nonlinear_arith)
        requires
            size.spec_count() == (size.x as nat) * (size.y as nat),
            w == size.x,
            h == size.y,
    ;
    if h == 0 || w == 0 {
        assert(w * h == 0) by (nonlinear_arith)
            requires
                h == 0 || w == 0,
        ;
    }
    assert forall|i: int| 0 <= i < cells.len() implies in_rect(#[trigger] cells[i], origin, size)
        && rect_index(cells[i], origin, size) == i by {
        assert(h > 0) by (nonlinear_arith)
            requires
                0 <= i < w * h,
                0 <= h,
                0 <= w,
        ;
        lemma_grid_index_split(h, w, i);
    }
    assert forall|pos: TilePos| in_rect(pos, origin, size) implies 0 <= #[trigger] rect_index(
        pos,
        origin,
        size,
    ) < cells.len() && cells[rect_index(pos, origin, size)] == pos by {
        let col = pos.x - origin.x;
        let row = pos.y - origin.y;
        assert(0 <= col * h + row < w * h) by (nonlinear_arith)
            requires
                0 <= col < w,
                0 <= row < h,
        ;
        lemma_grid_index(h, col, row);
    }
    assert forall|pos: TilePos| #[trigger] cells.contains(pos) <==> in_rect(pos, origin, size) by {
        if in_rect(pos, origin, size) {
            assert(cells[rect_index(pos, origin, size)] == pos);
        }
        if cells.contains(pos) {
            let i = choose|i: int| 0 <= i < cells.len() && cells[i] == pos;
            assert(in_rect(cells[i], origin, size));
        }
    }
    assert forall|i: int, j: int| 0 <= i < cells.len() && 0 <= j < cells.len() && i != j implies cells[i]
        != cells[j] by {
        assert(rect_index(cells[i], origin, size) == i);
        assert(rect_index(cells[j], origin, size) == j);
    }
}

/// The positions of a rectangular region, defined by an `origin` in
/// [`TilePos`] and a `size` in tiles ([`TilemapSize`]), column by column.
pub fn rect_positions(origin: TilePos, size: TilemapSize) -> (positions: Vec<TilePos>)
    requires
        rect_fits(origin, size),
        size.spec_count() <= usize::MAX,
    ensures
        positions@ == rect_cells(origin, size),
        positions@.no_duplicates(),
        forall|pos: TilePos| #[trigger] positions@.contains(pos) <==> in_rect(pos, origin, size),
{
    proof {
        lemma_rect_cells(origin, size);
    }
    let mut positions: Vec<TilePos> = Vec::new();
    let mut x: u32 = 0;
    while x < size.x
        invariant
            0 <= x <= size.x,
            rect_fits(origin, size),
            positions@.len() == x * size.y,
            forall|i: int| 0 <= i < positions@.len() ==> positions@[i] == rect_cell(origin, size, i),
        decreases size.x - x,
    {
        let mut y: u32 = 0;
        while y < size.y
            invariant
                0 <= x < size.x,
                0 <= y <= size.y,
                rect_fits(origin, size),
                positions@.len() == x * size.y + y,
                forall|i: int|
                    0 <= i < positions@.len() ==> positions@[i] == rect_cell(origin, size, i),
            decreases size.y - y,
        {
            proof {
                lemma_grid_index(size.y as int, x as int, y as int);
            }
            let tile_pos = TilePos { x: origin.x + x, y: origin.y + y };
            positions.push(tile_pos);
            y = y + 1;
        }
        x = x + 1;
        assert(positions@.len() == x * size.y) by (nonlinear_arith)
            requires
                positions@.len() == (x - 1) * size.y + size.y,
        ;
    }
    proof {
        assert(size.spec_count() == size.x * size.y) by (nonlinear_arith)
            requires
                size.spec_count() == (size.x as nat) * (size.y as nat),
        ;
        assert(positions@ =~= rect_cells(origin, size));
    }
    positions
}

/// Fills a rectangular region with the given tiles.
///
/// The rectangular region is defined by an `origin` in [`TilePos`], and a
/// `size` in tiles ([`TilemapSize`]); it must lie within the underlying tile
/// map. The tile for the position `pos` is
/// `tile_entities[rect_index(pos, origin, size)]`: the tiles come column by
/// column, in the order of [`rect_positions`].
pub fn fill_tilemap_rect(
    origin: TilePos,
    size: TilemapSize,
    tile_entities: &Vec<Entity>,
    tile_storage: &mut TileStorage,
)
    requires
        tile_entities@.len() == size.spec_count(),
        size.x > 0 && size.y > 0 ==> origin.x + size.x <= old(tile_storage).spec_size().x
            && origin.y + size.y <= old(tile_storage).spec_size().y,
    ensures
        final(tile_storage).spec_size() == old(tile_storage).spec_size(),
        final(tile_storage)@.len() == old(tile_storage)@.len(),
        forall|pos: TilePos| #[trigger]
            final(tile_storage).spec_get(pos) == (if in_rect(pos, origin, size) {
                Some(tile_entities@[rect_index(pos, origin, size)])
            } else {
                old(tile_storage).spec_get(pos)
            }),
{
    proof {
        assert(tile_entities@.len() == tile_entities.len());
        lemma_rect_cells(origin, size);
    }
    let positions = rect_positions(origin, size);
    tile_storage.checked_set_each(&positions, tile_entities);
    proof {
        assert forall|pos: TilePos| #[trigger]
            tile_storage.spec_get(pos) == (if in_rect(pos, origin, size) {
                Some(tile_entities@[rect_index(pos, origin, size)])
            } else {
                old(tile_storage).spec_get(pos)
            }) by {
            if in_rect(pos, origin, size) {
                let i = rect_index(pos, origin, size);
                assert(positions@[i] == pos);
                assert(tile_storage.spec_get(positions@[i]) == Some(tile_entities@[i]));
            } else {
                assert(!positions@.contains(pos));
            }
        }
    }
}

/// Fills an entire tile storage of the given `size` with the given tiles.
///
/// The tile for the position `pos` is `tile_entities[pos.x * size.y + pos.y]`:
/// the tiles come column by column, in the order of [`rect_positions`] from
/// the origin.
pub fn fill_tilemap(size: TilemapSize, tile_entities: &Vec<Entity>, tile_storage: &mut TileStorage)
    requires
        tile_entities@.len() == size.spec_count(),
        size.x > 0 && size.y > 0 ==> size.x <= old(tile_storage).spec_size().x && size.y <= old(
            tile_storage,
        ).spec_size().y,
    ensures
        final(tile_storage).spec_size() == old(tile_storage).spec_size(),
        final(tile_storage)@.len() == old(tile_storage)@.len(),
        forall|pos: TilePos| #[trigger]
            final(tile_storage).spec_get(pos) == (if pos.spec_within_map_bounds(size) {
                Some(tile_entities@[pos.x * size.y + pos.y])
            } else {
                old(tile_storage).spec_get(pos)
            }),
{
    fill_tilemap_rect(TilePos { x: 0, y: 0 }, size, tile_entities, tile_storage);
}

} // verus!
