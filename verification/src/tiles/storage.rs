use crate::map::TilemapSize;
use crate::tiles::{lemma_index_in_bounds, lemma_index_injective, TilePos};
use bevy::ecs::entity::Entity;
use vstd::prelude::*;

verus! {

/// The engine's entity handle. Nothing is known of its contents: the storage
/// only carries such values and hands them back.
#[verifier::external_type_specification]
#[verifier::external_body]
pub struct ExEntity(bevy::ecs::entity::Entity);

/// The iterator of std over the cells of a slice that hands out mutable
/// references. Nothing is known of its contents.
#[verifier::external_type_specification]
#[verifier::external_body]
#[verifier::reject_recursive_types(T)]
pub struct ExIterMut<'a, T: 'a>(core::slice::IterMut<'a, T>);

/// Calls `iter_mut` of std on the cells, taken as a slice. The iterator
/// hands out a mutable reference to each cell in turn, so the cells may hold
/// anything once it is dropped; their number cannot change, as a slice has no
/// way to grow or shrink. The call itself does not panic.
#[verifier::external_body]
fn cells_iter_mut<'a>(tiles: &'a mut Vec<Option<Entity>>) -> (iter: core::slice::IterMut<
    'a,
    Option<Entity>,
>)
    ensures
        final(tiles)@.len() == old(tiles)@.len(),
    no_unwind
{
    tiles.iter_mut()
}

/// The entities held by a row of cells, in order, the empty cells left out.
pub open spec fn filled(cells: Seq<Option<Entity>>) -> Seq<Entity>
    decreases cells.len(),
{
    if cells.len() == 0 {
        Seq::empty()
    } else {
        match cells.last() {
            Some(entity) => filled(cells.drop_last()).push(entity),
            None => filled(cells.drop_last()),
        }
    }
}

/// Used to store tile entities for fast look up.
/// Tile entities are stored in a grid, row by row. A cell without a tile
/// holds `None`.
#[derive(Debug)]
pub struct TileStorage {
    tiles: Vec<Option<Entity>>,
    size: TilemapSize,
}

impl TileStorage {
    #[verifier::type_invariant]
    spec fn well_formed(self) -> bool {
        self.tiles@.len() == self.size.spec_count()
    }

    /// The cells of the grid, row by row from the bottom, each row from the
    /// left.
    pub closed spec fn view(&self) -> Seq<Option<Entity>> {
        self.tiles@
    }

    /// The extent of the map that this storage was made for.
    pub closed spec fn spec_size(&self) -> TilemapSize {
        self.size
    }

    /// The entity stored for a tile position: `None` for an empty cell and
    /// for a position off the map.
    pub open spec fn spec_get(&self, tile_pos: TilePos) -> Option<Entity> {
        if tile_pos.spec_within_map_bounds(self.spec_size()) {
            self@[tile_pos.spec_index(self.spec_size())]
        } else {
            None
        }
    }

    /// Creates a new tile storage that is empty.
    ///
    /// The number of tiles has to fit in `usize`, which it always does on a
    /// 64-bit machine.
    pub fn empty(size: TilemapSize) -> (storage: TileStorage)
        requires
            size.spec_count() <= usize::MAX,
        ensures
            storage.spec_size() == size,
            storage@.len() == size.spec_count(),
            forall|i: int| 0 <= i < storage@.len() ==> storage@[i] == None::<Entity>,
    {
        let count = size.count();
        let mut tiles: Vec<Option<Entity>> = Vec::new();
        let mut i: usize = 0;
        while i < count
            invariant
                i <= count,
                tiles@.len() == i,
                forall|j: int| 0 <= j < i ==> tiles@[j] == None::<Entity>,
            decreases count - i,
        {
            tiles.push(None);
            i = i + 1;
        }
        TileStorage { tiles, size }
    }

    /// The extent of the map that this storage was made for.
    pub fn size(&self) -> (size: TilemapSize)
        ensures
            size == self.spec_size(),
            self@.len() == size.spec_count(),
            size.spec_count() <= usize::MAX,
    {
        proof {
            use_type_invariant(self);
            assert(self.tiles@.len() == self.tiles.len());
        }
        self.size
    }

    /// Gets a tile entity for the given tile position, if an entity is
    /// associated with that tile position.
    ///
    /// The given `tile_pos` must lie within the extents of the underlying
    /// tile map.
    pub fn get(&self, tile_pos: &TilePos) -> (entity: Option<Entity>)
        requires
            tile_pos.spec_within_map_bounds(self.spec_size()),
        ensures
            entity == self.spec_get(*tile_pos),
    {
        proof {
            use_type_invariant(self);
            lemma_index_in_bounds(*tile_pos, self.size);
            assert(self.tiles@.len() == self.tiles.len());
        }
        self.tiles[tile_pos.to_index(&self.size)]
    }

    /// Gets a tile entity for the given tile position, if:
    /// 1) the tile position lies within the underlying tile map's extents *and*
    /// 2) there is an entity associated with that tile position;
    ///
    /// otherwise it returns `None`.
    pub fn checked_get(&self, tile_pos: &TilePos) -> (entity: Option<Entity>)
        ensures
            entity == self.spec_get(*tile_pos),
    {
        if tile_pos.within_map_bounds(&self.size) {
            self.get(tile_pos)
        } else {
            None
        }
    }

    /// Sets a tile entity for the given tile position.
    ///
    /// If there is an entity already at that position, it will be replaced.
    ///
    /// The given `tile_pos` must lie within the extents of the underlying
    /// tile map.
    pub fn set(&mut self, tile_pos: &TilePos, tile_entity: Entity)
        requires
            tile_pos.spec_within_map_bounds(old(self).spec_size()),
        ensures
            final(self).spec_size() == old(self).spec_size(),
            final(self)@.len() == old(self)@.len(),
            final(self)@ == old(self)@.update(
                tile_pos.spec_index(old(self).spec_size()),
                Some(tile_entity),
            ),
            forall|other: TilePos| #[trigger]
                final(self).spec_get(other) == (if other == *tile_pos {
                    Some(tile_entity)
                } else {
                    old(self).spec_get(other)
                }),
    {
        proof {
            use_type_invariant(&*self);
            lemma_index_in_bounds(*tile_pos, self.size);
            assert(self.tiles@.len() == self.tiles.len());
            assert forall|other: TilePos|
                other.spec_within_map_bounds(self.size) && other != *tile_pos implies #[trigger]
                other.spec_index(self.size) != tile_pos.spec_index(self.size) by {
                if other.spec_index(self.size) == tile_pos.spec_index(self.size) {
                    lemma_index_injective(other, *tile_pos, self.size);
                }
            }
            assert forall|other: TilePos|
                other.spec_within_map_bounds(self.size) implies 0 <= #[trigger] other.spec_index(
                self.size,
            ) < self.size.spec_count() by {
                lemma_index_in_bounds(other, self.size);
            }
        }
        let index = tile_pos.to_index(&self.size);
        self.tiles[index] = Some(tile_entity);
    }

    /// Sets a tile entity for the given tile position, if the tile position
    /// lies within the underlying tile map's extents.
    ///
    /// If there is an entity already at that position, it will be replaced.
    pub fn checked_set(&mut self, tile_pos: &TilePos, tile_entity: Entity)
        ensures
            final(self).spec_size() == old(self).spec_size(),
            final(self)@.len() == old(self)@.len(),
            tile_pos.spec_within_map_bounds(old(self).spec_size()) ==> final(self)@ == old(
                self,
            )@.update(tile_pos.spec_index(old(self).spec_size()), Some(tile_entity)),
            !tile_pos.spec_within_map_bounds(old(self).spec_size()) ==> final(self)@ == old(self)@,
            forall|other: TilePos| #[trigger]
                final(self).spec_get(other) == (if other == *tile_pos
                    && tile_pos.spec_within_map_bounds(old(self).spec_size()) {
                    Some(tile_entity)
                } else {
                    old(self).spec_get(other)
                }),
    {
        if tile_pos.within_map_bounds(&self.size) {
            self.set(tile_pos, tile_entity);
        }
    }

    /// Removes any stored `Entity` at the given tile position, leaving `None`
    /// in its place and returning the `Entity`.
    ///
    /// The given `tile_pos` must lie within the extents of the underlying
    /// tile map.
    pub fn remove(&mut self, tile_pos: &TilePos) -> (entity: Option<Entity>)
        requires
            tile_pos.spec_within_map_bounds(old(self).spec_size()),
        ensures
            entity == old(self).spec_get(*tile_pos),
            final(self).spec_size() == old(self).spec_size(),
            final(self)@.len() == old(self)@.len(),
            final(self)@ == old(self)@.update(tile_pos.spec_index(old(self).spec_size()), None),
            forall|other: TilePos| #[trigger]
                final(self).spec_get(other) == (if other == *tile_pos {
                    None
                } else {
                    old(self).spec_get(other)
                }),
    {
        proof {
            use_type_invariant(&*self);
            lemma_index_in_bounds(*tile_pos, self.size);
            assert(self.tiles@.len() == self.tiles.len());
            assert forall|other: TilePos|
                other.spec_within_map_bounds(self.size) && other != *tile_pos implies #[trigger]
                other.spec_index(self.size) != tile_pos.spec_index(self.size) by {
                if other.spec_index(self.size) == tile_pos.spec_index(self.size) {
                    lemma_index_injective(other, *tile_pos, self.size);
                }
            }
            assert forall|other: TilePos|
                other.spec_within_map_bounds(self.size) implies 0 <= #[trigger] other.spec_index(
                self.size,
            ) < self.size.spec_count() by {
                lemma_index_in_bounds(other, self.size);
            }
        }
        let index = tile_pos.to_index(&self.size);
        let entity = self.tiles[index];
        self.tiles[index] = None;
        entity
    }

    /// Remove any stored `Entity` at the given tile position, leaving `None`
    /// in its place and returning the `Entity`.
    ///
    /// Checks that the given `tile_pos` lies within the extents of the
    /// underlying map: for a position off the map nothing changes and `None`
    /// is returned.
    pub fn checked_remove(&mut self, tile_pos: &TilePos) -> (entity: Option<Entity>)
        ensures
            entity == old(self).spec_get(*tile_pos),
            final(self).spec_size() == old(self).spec_size(),
            final(self)@.len() == old(self)@.len(),
            tile_pos.spec_within_map_bounds(old(self).spec_size()) ==> final(self)@ == old(
                self,
            )@.update(tile_pos.spec_index(old(self).spec_size()), None),
            !tile_pos.spec_within_map_bounds(old(self).spec_size()) ==> final(self)@ == old(self)@,
            forall|other: TilePos| #[trigger]
                final(self).spec_get(other) == (if other == *tile_pos {
                    None
                } else {
                    old(self).spec_get(other)
                }),
    {
        if tile_pos.within_map_bounds(&self.size) {
            self.remove(tile_pos)
        } else {
            None
        }
    }

    /// Removes all stored `Entity`s, leaving `None` in their place and
    /// returning them in an iterator, in the order of their cells.
    ///
    /// The cells are emptied at once, not as the iterator is advanced.
    pub fn drain(&mut self) -> (drained: std::vec::IntoIter<Entity>)
        ensures
            vstd::std_specs::vec::into_iter_elts(drained) == filled(old(self)@),
            final(self).spec_size() == old(self).spec_size(),
            final(self)@.len() == old(self)@.len(),
            forall|i: int| 0 <= i < final(self)@.len() ==> final(self)@[i] == None::<Entity>,
    {
        proof {
            use_type_invariant(&*self);
        }
        let mut entities: Vec<Entity> = Vec::new();
        let count = self.tiles.len();
        let mut i: usize = 0;
        while i < count
            invariant
                i <= count,
                count == old(self).tiles@.len(),
                self.tiles@.len() == count,
                self.size == old(self).size,
                self.tiles@.len() == self.size.spec_count(),
                entities@ == filled(old(self).tiles@.take(i as int)),
                forall|j: int| 0 <= j < i ==> self.tiles@[j] == None::<Entity>,
                forall|j: int| i <= j < count ==> self.tiles@[j] == old(self).tiles@[j],
            decreases count - i,
        {
            proof {
                let upto = old(self).tiles@.take(i + 1);
                assert(upto.drop_last() =~= old(self).tiles@.take(i as int));
                assert(upto.last() == old(self).tiles@[i as int]);
            }
            let cell = self.tiles[i];
            if let Some(entity) = cell {
                entities.push(entity);
                self.tiles[i] = None;
            }
            i = i + 1;
        }
        proof {
            assert(old(self).tiles@.take(count as int) =~= old(self).tiles@);
        }
        entities.into_iter()
    }

    /// Returns an iterator with all of the positions in the grid.
    pub fn iter(&self) -> (cells: core::slice::Iter<'_, Option<Entity>>)
        ensures
            vstd::std_specs::slice::into_iter_elts(cells) == self@,
    {
        self.tiles.as_slice().iter()
    }

    /// Returns mutable iterator with all of the positions in the grid.
    pub fn iter_mut(&mut self) -> (cells: core::slice::IterMut<'_, Option<Entity>>)
        ensures
            final(self).spec_size() == old(self).spec_size(),
            final(self)@.len() == old(self)@.len(),
    {
        proof {
            use_type_invariant(&*self);
        }
        cells_iter_mut(&mut self.tiles)
    }

    /// The stored entities, in the order of their cells.
    pub fn entities(&self) -> (entities: Vec<Entity>)
        ensures
            entities@ == filled(self@),
    {
        let mut entities: Vec<Entity> = Vec::new();
        let count = self.tiles.len();
        let mut i: usize = 0;
        while i < count
            invariant
                i <= count,
                count == self.tiles@.len(),
                entities@ == filled(self.tiles@.take(i as int)),
            decreases count - i,
        {
            proof {
                let upto = self.tiles@.take(i + 1);
                assert(upto.drop_last() =~= self.tiles@.take(i as int));
                assert(upto.last() == self.tiles@[i as int]);
            }
            if let Some(entity) = self.tiles[i] {
                entities.push(entity);
            }
            i = i + 1;
        }
        proof {
            assert(self.tiles@.take(count as int) =~= self.tiles@);
        }
        entities
    }

    /// Replaces the stored entities, in the order of their cells, by the
    /// given ones. The empty cells stay empty.
    pub fn replace_entities(&mut self, entities: &Vec<Entity>)
        requires
            entities@.len() == filled(old(self)@).len(),
        ensures
            final(self).spec_size() == old(self).spec_size(),
            final(self)@.len() == old(self)@.len(),
            forall|i: int|
                0 <= i < old(self)@.len() ==> (#[trigger] final(self)@[i] is Some <==> old(
                    self,
                )@[i] is Some),
            filled(final(self)@) == entities@,
    {
        proof {
            use_type_invariant(&*self);
        }
        let count = self.tiles.len();
        let mut i: usize = 0;
        let mut next: usize = 0;
        while i < count
            invariant
                i <= count,
                count == old(self).tiles@.len(),
                self.tiles@.len() == count,
                self.size == old(self).size,
                self.tiles@.len() == self.size.spec_count(),
                entities@.len() == filled(old(self).tiles@).len(),
                next == filled(old(self).tiles@.take(i as int)).len(),
                filled(self.tiles@.take(i as int)) == entities@.take(next as int),
                forall|j: int|
                    0 <= j < count ==> (#[trigger] self.tiles@[j] is Some <==> old(
                        self,
                    ).tiles@[j] is Some),
                forall|j: int| i <= j < count ==> self.tiles@[j] == old(self).tiles@[j],
            decreases count - i,
        {
            proof {
                let before = old(self).tiles@.take(i + 1);
                assert(before.drop_last() =~= old(self).tiles@.take(i as int));
                assert(before.last() == old(self).tiles@[i as int]);
                lemma_filled_prefix(old(self).tiles@, i + 1);
            }
            let ghost cells = self.tiles@;
            if self.tiles[i].is_some() {
                proof {
                    assert(entities@.len() == entities.len());
                }
                self.tiles[i] = Some(entities[next]);
                proof {
                    let upto = self.tiles@.take(i + 1);
                    assert(upto.drop_last() =~= cells.take(i as int));
                    assert(entities@.take(next + 1) =~= entities@.take(next as int).push(
                        entities@[next as int],
                    ));
                }
                next = next + 1;
            } else {
                proof {
                    let upto = self.tiles@.take(i + 1);
                    assert(upto.drop_last() =~= cells.take(i as int));
                }
            }
            i = i + 1;
        }
        proof {
            assert(self.tiles@.take(count as int) =~= self.tiles@);
            assert(old(self).tiles@.take(count as int) =~= old(self).tiles@);
            assert(entities@.take(next as int) =~= entities@);
        }
    }

    /// Sets the entity `entities[i]` for the tile position `positions[i]`,
    /// for each `i` in turn, where that position lies within the underlying
    /// tile map's extents. Where a position occurs more than once, the entity
    /// of its last occurrence stays.
    pub fn checked_set_each(&mut self, positions: &Vec<TilePos>, entities: &Vec<Entity>)
        requires
            positions@.len() == entities@.len(),
        ensures
            final(self).spec_size() == old(self).spec_size(),
            final(self)@.len() == old(self)@.len(),
            forall|i: int|
                0 <= i < positions@.len() && last_occurrence(positions@, i)
                    ==> #[trigger] final(self).spec_get(positions@[i]) == (
                if positions@[i].spec_within_map_bounds(old(self).spec_size()) {
                    Some(entities@[i])
                } else {
                    None
                }),
            forall|other: TilePos|
                !positions@.contains(other) ==> #[trigger] final(self).spec_get(other) == old(
                    self,
                ).spec_get(other),
    {
        proof {
            use_type_invariant(&*self);
        }
        let count = positions.len();
        let mut i: usize = 0;
        while i < count
            invariant
                i <= count,
                count == positions@.len(),
                count == entities@.len(),
                self.spec_size() == old(self).spec_size(),
                self@.len() == old(self)@.len(),
                forall|j: int|
                    0 <= j < i && last_occurrence(positions@.take(i as int), j)
                        ==> #[trigger] self.spec_get(positions@[j]) == (
                    if positions@[j].spec_within_map_bounds(old(self).spec_size()) {
                        Some(entities@[j])
                    } else {
                        None
                    }),
                forall|other: TilePos|
                    !positions@.take(i as int).contains(other) ==> #[trigger] self.spec_get(other)
                        == old(self).spec_get(other),
            decreases count - i,
        {
            let ghost before = *self;
            self.checked_set(&positions[i], entities[i]);
            proof {
                let seen = positions@.take(i as int);
                let done = positions@.take(i + 1);
                assert forall|other: TilePos| !done.contains(other) implies #[trigger]
                    self.spec_get(other) == old(self).spec_get(other) by {
                    assert(done[i as int] == positions@[i as int]);
                    assert(other != positions@[i as int]);
                    if seen.contains(other) {
                        let j = choose|j: int| 0 <= j < i && seen[j] == other;
                        assert(done[j] == other);
                    }
                    assert(self.spec_get(other) == before.spec_get(other));
                }
                assert forall|j: int| 0 <= j < i + 1 && last_occurrence(done, j) implies #[trigger]
                    self.spec_get(positions@[j]) == (if positions@[j].spec_within_map_bounds(
                    old(self).spec_size(),
                ) {
                    Some(entities@[j])
                } else {
                    None
                }) by {
                    if j < i {
                        assert(done[i as int] != done[j]);
                        assert forall|k: int| j < k < seen.len() implies seen[k] != seen[j] by {
                            assert(done[k] != done[j]);
                        }
                        assert(last_occurrence(seen, j));
                        assert(self.spec_get(positions@[j]) == before.spec_get(positions@[j]));
                    }
                }
            }
            i = i + 1;
        }
        proof {
            assert(positions@.take(count as int) =~= positions@);
        }
    }
}

/// Whether the item at `i` does not occur again later in the sequence.
pub open spec fn last_occurrence<T>(items: Seq<T>, i: int) -> bool {
    forall|k: int| i < k < items.len() ==> items[k] != items[i]
}

/// The entities of the first `n` cells are the first entities of the whole
/// row.
pub proof fn lemma_filled_prefix(cells: Seq<Option<Entity>>, n: int)
    requires
        0 <= n <= cells.len(),
    ensures
        filled(cells.take(n)).len() <= filled(cells).len(),
        filled(cells.take(n)) == filled(cells).take(filled(cells.take(n)).len() as int),
    decreases cells.len() - n,
{
    if n == cells.len() {
        assert(cells.take(n) =~= cells);
        assert(filled(cells).take(filled(cells).len() as int) =~= filled(cells));
    } else {
        lemma_filled_prefix(cells, n + 1);
        let longer = cells.take(n + 1);
        assert(longer.drop_last() =~= cells.take(n));
        let short = filled(cells.take(n));
        assert(short =~= filled(cells).take(short.len() as int));
    }
}

impl Clone for TileStorage {
    fn clone(&self) -> (copy: TileStorage)
        ensures
            copy@ == self@,
            copy.spec_size() == self.spec_size(),
    {
        proof {
            use_type_invariant(self);
        }
        let count = self.tiles.len();
        let mut tiles: Vec<Option<Entity>> = Vec::with_capacity(count);
        let mut i: usize = 0;
        while i < count
            invariant
                i <= count,
                count == self.tiles@.len(),
                tiles@ == self.tiles@.take(i as int),
            decreases count - i,
        {
            tiles.push(self.tiles[i]);
            proof {
                assert(tiles@ =~= self.tiles@.take(i + 1));
            }
            i = i + 1;
        }
        proof {
            assert(self.tiles@.take(count as int) =~= self.tiles@);
        }
        TileStorage { tiles, size: self.size }
    }
}

} // verus!
