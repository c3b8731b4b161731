//! Layers: dense, sparse, and either.

use crate::chunk::raw_tile::{dense_tiles_to_attributes, sparse_tiles_to_attributes, RawTile, TileTrait};
use crate::chunk::storage::{count_after_write, count_down, is_hidden_form, Storage, COUNT_EVERY_WRITE};
use crate::color::Color;
use crate::dimension::Dimension3;
use std::collections::hash_map::Entry;
use std::collections::HashMap;
use vstd::prelude::*;
use vstd::std_specs::iter::IteratorSpec;

verus! {

/// Common methods for layers in a chunk.
///
/// Each contract is stated over what the layer holds, so it reads the same for
/// every kind of layer. The kind of a layer never changes.
pub trait Layer<T>: 'static where T: TileTrait {
    /// What the layer holds.
    spec fn storage(&self) -> Storage<T>;

    /// Sets a raw tile for a layer at an index, and says whether the layer
    /// took it. A dense layer drops a tile for an index past its last cell.
    fn set_tile(&mut self, index: usize, tile: T) -> (taken: bool)
        ensures
            taken == old(self).storage().accepts(index),
            final(self).storage() == old(self).storage().with_tile(index, tile),
            final(self).storage().kind() == old(self).storage().kind(),
    ;

    /// Removes a tile for a layer at an index.
    fn remove_tile(&mut self, index: usize)
        ensures
            old(self).storage().removes_into(index, final(self).storage()),
            final(self).storage().tile_at(index) is None,
            final(self).storage().kind() == old(self).storage().kind(),
    ;

    /// Gets a tile by an index.
    fn get_tile(&self, index: usize) -> (found: Option<&T>)
        ensures
            match found {
                Some(tile) => self.storage().tile_at(index) == Some(*tile),
                None => self.storage().tile_at(index) is None,
            },
    ;

    /// Gets a tile with a mutable reference by an index. What the caller
    /// leaves behind the reference is what the layer then holds at the index.
    fn get_tile_mut(&mut self, index: usize) -> (found: Option<&mut T>)
        ensures
            match found {
                Some(tile) => {
                    &&& old(self).storage().tile_at(index) == Some(*tile)
                    &&& final(self).storage() == old(self).storage().with_slot(index, *final(tile))
                },
                None => {
                    &&& old(self).storage().tile_at(index) is None
                    &&& final(self).storage() == old(self).storage()
                },
            },
            final(self).storage().kind() == old(self).storage().kind(),
    ;

    /// Gets all the tile indices in the layer that exist.
    fn get_tile_indices(&self) -> (indices: Vec<usize>)
        ensures
            self.storage().lists(indices@),
    ;

    /// Clears a layer of all sprites.
    fn clear(&mut self)
        ensures
            final(self).storage() == old(self).storage().cleared(),
            final(self).storage().kind() == old(self).storage().kind(),
    ;

    /// Takes all the tiles in the layer and returns attributes for the renderer:
    /// the sprite indices and the colors, four entries for each cell.
    fn tiles_to_attributes(&self, dimension: Dimension3) -> (attributes: (Vec<usize>, Vec<Color>))
        requires
            self.storage().flattens(dimension),
        ensures
            attributes.0@ == self.storage().flat_indexes(dimension),
            attributes.1@ == self.storage().flat_colors(dimension),
            attributes.0@.len() == self.storage().flat_cells(dimension) * 4,
            attributes.1@.len() == self.storage().flat_cells(dimension) * 4,
    ;
}

/// A layer with dense sprite tiles.
///
/// The difference between a dense layer and a sparse layer is simply the
/// storage types.
#[derive(Clone, Debug, PartialEq)]
pub struct DenseLayer<T>
where
    T: TileTrait,
{
    /// A vector of all the tiles in the chunk.
    tiles: Vec<T>,
    /// A count of the tiles to keep track if layer is empty or not.
    tile_count: usize,
}

impl<T> View for DenseLayer<T>
where
    T: TileTrait,
{
    type V = Seq<T>;

    /// The tiles of the layer, one for each cell.
    closed spec fn view(&self) -> Seq<T> {
        self.tiles@
    }
}

impl<T> DenseLayer<T>
where
    T: TileTrait,
{
    /// The count that the layer keeps of its visible tiles.
    pub closed spec fn spec_tile_count(&self) -> usize {
        self.tile_count
    }

    /// Constructs a new dense layer with tiles. Its count starts at zero,
    /// whatever the tiles are.
    pub fn new(tiles: Vec<T>) -> (layer: DenseLayer<T>)
        ensures
            layer@ == tiles@,
            layer.tile_count() == 0,
            layer.storage() == Storage::Dense(tiles@, 0),
    {
        DenseLayer { tiles, tile_count: 0 }
    }

    /// The count that the layer keeps of its visible tiles: one up for each
    /// write that was counted, one down for each removal, never below zero.
    #[verifier::when_used_as_spec(spec_tile_count)]
    pub fn tile_count(&self) -> (count: usize)
        ensures
            count == self.tile_count(),
    {
        self.tile_count
    }
}

impl<T> Layer<T> for DenseLayer<T>
where
    T: TileTrait,
{
    /// The tiles of the layer and its count.
    open spec fn storage(&self) -> Storage<T> {
        Storage::Dense(self@, self.tile_count())
    }

    /// Overwrites the tile of a cell and counts the write. A write past the
    /// last cell is dropped: neither the tiles nor the count change.
    fn set_tile(&mut self, index: usize, tile: T) -> (taken: bool)
        ensures
            taken == (index < old(self)@.len()),
            taken ==> final(self)@ == old(self)@.update(index as int, tile),
            taken ==> final(self).tile_count() == count_after_write(
                old(self).tile_count(),
                old(self)@[index as int].tile_color().is_transparent(),
            ),
            !taken ==> final(self)@ == old(self)@ && final(self).tile_count() == old(self).tile_count(),
    {
        if index < self.tiles.len() {
            if COUNT_EVERY_WRITE || self.tiles[index].is_hidden() {
                if self.tile_count < usize::MAX {
                    self.tile_count += 1;
                }
            }
            self.tiles[index] = tile;
            true
        } else {
            false
        }
    }

    /// Hides the tile of a cell and counts down, unless the count is zero. The
    /// cell stays, and so does every other tile.
    fn remove_tile(&mut self, index: usize)
        ensures
            final(self)@.len() == old(self)@.len(),
            forall|other: int| 0 <= other < old(self)@.len() && other != index ==> final(self)@[other] == old(self)@[other],
            index < old(self)@.len() ==> is_hidden_form(old(self)@[index as int], final(self)@[index as int]),
            index < old(self)@.len() ==> final(self).tile_count() == count_down(old(self).tile_count()),
            index >= old(self)@.len() ==> final(self).tile_count() == old(self).tile_count(),
    {
        if index < self.tiles.len() {
            if self.tile_count != 0 {
                self.tile_count -= 1;
            }
            self.tiles[index].hide_tile();
        }
    }

    /// The tile of a cell, unless it is hidden.
    fn get_tile(&self, index: usize) -> (found: Option<&T>)
        ensures
            found is Some == (index < self@.len() && !self@[index as int].tile_color().is_transparent()),
            found is Some ==> found == Some(&self@[index as int]),
    {
        if index < self.tiles.len() {
            let tile = &self.tiles[index];
            if tile.is_hidden() {
                None
            } else {
                Some(tile)
            }
        } else {
            None
        }
    }

    /// The tile of a cell to change in place, unless it is hidden. Nothing is
    /// counted.
    fn get_tile_mut(&mut self, index: usize) -> (found: Option<&mut T>)
        ensures
            found is Some == (index < old(self)@.len() && !old(self)@[index as int].tile_color().is_transparent()),
            final(self).tile_count() == old(self).tile_count(),
            final(self)@.len() == old(self)@.len(),
    {
        if index < self.tiles.len() && !self.tiles[index].is_hidden() {
            Some(&mut self.tiles[index])
        } else {
            None
        }
    }

    /// The cells whose tile is not hidden, in ascending order.
    fn get_tile_indices(&self) -> (indices: Vec<usize>) {
        let mut indices: Vec<usize> = Vec::with_capacity(self.tiles.len());
        let mut index: usize = 0;
        while index < self.tiles.len()
            invariant
                index <= self.tiles@.len(),
                forall|a: int, b: int| 0 <= a < b < indices@.len() ==> indices@[a] < indices@[b],
                forall|a: int|
                    0 <= a < indices@.len() ==> (#[trigger] indices@[a]) < index
                        && !self.tiles@[indices@[a] as int].tile_color().is_transparent(),
                forall|cell: usize|
                    cell < index && !self.tiles@[cell as int].tile_color().is_transparent() ==> indices@.contains(
                        cell,
                    ),
            decreases self.tiles@.len() - index,
        {
            let ghost listed = indices@;
            if !self.tiles[index].is_hidden() {
                indices.push(index);
            }
            proof {
                assert forall|cell: usize|
                    cell <= index && !self.tiles@[cell as int].tile_color().is_transparent() implies indices@.contains(
                    cell,
                ) by {
                    if cell == index {
                        assert(indices@[indices@.len() - 1] == cell);
                    } else {
                        assert(listed.contains(cell));
                        let at = choose|at: int| 0 <= at < listed.len() && listed[at] == cell;
                        assert(indices@[at] == cell);
                    }
                }
            }
            index += 1;
        }
        indices
    }

    /// Leaves the layer without cells. The count is not reset.
    fn clear(&mut self)
        ensures
            final(self)@ == Seq::<T>::empty(),
            final(self).tile_count() == old(self).tile_count(),
    {
        self.tiles.clear();
    }

    /// Four entries for each cell of the layer, hidden or not. The dimension
    /// is not read.
    fn tiles_to_attributes(&self, _dimension: Dimension3) -> (attributes: (Vec<usize>, Vec<Color>)) {
        dense_tiles_to_attributes(self.tiles.as_slice())
    }
}

/// A layer with sparse sprite tiles.
#[derive(Clone, PartialEq, Debug)]
pub struct SparseLayer<T> {
    /// A map of all the tiles in the chunk.
    tiles: HashMap<usize, T>,
}

impl<T> View for SparseLayer<T> {
    type V = Map<usize, T>;

    /// The tiles of the layer, by cell index.
    closed spec fn view(&self) -> Map<usize, T> {
        self.tiles@
    }
}

impl<T> SparseLayer<T> {
    /// Constructs a new sparse layer with a tile hashmap.
    pub fn new(tiles: HashMap<usize, T>) -> (layer: SparseLayer<T>)
        ensures
            layer@ == tiles@,
    {
        SparseLayer { tiles }
    }
}

impl<T> Layer<T> for SparseLayer<T>
where
    T: TileTrait,
{
    /// The tiles of the layer.
    open spec fn storage(&self) -> Storage<T> {
        Storage::Sparse(self@)
    }

    /// Stores the tile under the index, hidden or not, in place of the tile
    /// that was there.
    fn set_tile(&mut self, index: usize, tile: T) -> (taken: bool)
        ensures
            taken,
            final(self)@ == old(self)@.insert(index, tile),
    {
        broadcast use vstd::std_specs::hash::group_hash_axioms;

        if tile.is_hidden() {
            self.tiles.remove(&index);
        }
        self.tiles.insert(index, tile);
        assert(self@ =~= old(self)@.insert(index, tile));
        true
    }

    /// Forgets the tile under the index. Where there is none, nothing changes.
    fn remove_tile(&mut self, index: usize)
        ensures
            final(self)@ == old(self)@.remove(index),
            !old(self)@.contains_key(index) ==> final(self)@ == old(self)@,
    {
        broadcast use vstd::std_specs::hash::group_hash_axioms;

        self.tiles.remove(&index);
        assert(!old(self)@.contains_key(index) ==> old(self)@.remove(index) =~= old(self)@);
    }

    /// The tile under the index, hidden or not.
    fn get_tile(&self, index: usize) -> (found: Option<&T>)
        ensures
            self@.contains_key(index) ==> found == Some(&self@[index]),
            !self@.contains_key(index) ==> found is None,
    {
        broadcast use vstd::std_specs::hash::group_hash_axioms;

        self.tiles.get(&index)
    }

    /// The tile under the index to change in place, hidden or not. Where
    /// there is none, none is added.
    fn get_tile_mut(&mut self, index: usize) -> (found: Option<&mut T>)
        ensures
            found is Some == old(self)@.contains_key(index),
    {
        broadcast use vstd::std_specs::hash::group_hash_axioms;

        match self.tiles.entry(index) {
            Entry::Occupied(entry) => Some(entry.into_mut()),
            Entry::Vacant(_) => {
                assert(old(self)@.remove(index) =~= old(self)@);
                None
            },
        }
    }

    /// The indices under which the layer holds a tile, each once, in the
    /// order in which the map hands them out.
    fn get_tile_indices(&self) -> (indices: Vec<usize>)
        ensures
            indices@.to_set() == self@.dom(),
            indices@.len() == self@.len(),
    {
        broadcast use vstd::std_specs::hash::group_hash_axioms;

        let mut indices: Vec<usize> = Vec::with_capacity(self.tiles.len());
        for index in it: self.tiles.keys()
            invariant
                indices@.len() == it.index(),
                forall|j: int| 0 <= j < it.index() ==> indices@[j] == *it.seq()[j],
        {
            indices.push(*index);
        }
        proof {
            let keys = self.tiles.keys().remaining();
            assert(indices@ =~= keys.unref());
            assert forall|a: int, b: int| 0 <= a < indices@.len() && 0 <= b < indices@.len() && a != b implies indices@[a]
                != indices@[b] by {
                assert(keys[a] != keys[b]);
            }
            assert forall|index: usize| indices@.contains(index) <==> self@.contains_key(index) by {
                assert(indices@.to_set().contains(index) <==> self@.dom().contains(index));
            }
        }
        indices
    }

    /// Leaves the layer without tiles.
    fn clear(&mut self)
        ensures
            final(self)@ == Map::<usize, T>::empty(),
    {
        self.tiles.clear();
    }

    /// Four entries for each cell of the grid. A tile outside the grid gives
    /// none.
    fn tiles_to_attributes(&self, dimension: Dimension3) -> (attributes: (Vec<usize>, Vec<Color>)) {
        sparse_tiles_to_attributes(dimension, &self.tiles)
    }
}

/// Specifies which kind of layer to construct, either a dense or a sparse
/// sprite layer.
///
/// The difference between a dense and sparse layer is namely the storage kind.
/// A dense layer uses a vector and must fully contain tiles. This is ideal for
/// backgrounds. A sparse layer on the other hand uses a map with coordinates
/// to a tile. This is ideal for entities, objects or items.
///
/// It is highly recommended to adhere to the above principles to get the lowest
/// amount of byte usage.
#[derive(Copy, Clone, Eq, PartialEq, Ord, PartialOrd, Hash, Debug)]
pub enum LayerKind {
    /// Specifies the tilemap to add a dense sprite layer.
    Dense,
    /// Specifies the tilemap to add a sparse sprite layer.
    Sparse,
}

/// Inner enum used for storing either a dense or sparse layer.
///
/// It is a layer itself: each method hands the call to the layer inside.
#[derive(Clone, PartialEq, Debug)]
pub enum LayerKindInner<T>
where
    T: TileTrait,
{
    /// Inner dense layer storage.
    Dense(DenseLayer<T>),
    /// Inner sparse layer storage.
    Sparse(SparseLayer<T>),
}

impl<T> Layer<T> for LayerKindInner<T>
where
    T: TileTrait,
{
    /// What the layer inside holds.
    open spec fn storage(&self) -> Storage<T> {
        match self {
            LayerKindInner::Dense(layer) => layer.storage(),
            LayerKindInner::Sparse(layer) => layer.storage(),
        }
    }

    fn set_tile(&mut self, index: usize, tile: T) -> (taken: bool) {
        match self {
            LayerKindInner::Dense(layer) => layer.set_tile(index, tile),
            LayerKindInner::Sparse(layer) => layer.set_tile(index, tile),
        }
    }

    fn remove_tile(&mut self, index: usize) {
        match self {
            LayerKindInner::Dense(layer) => layer.remove_tile(index),
            LayerKindInner::Sparse(layer) => layer.remove_tile(index),
        }
    }

    fn get_tile(&self, index: usize) -> (found: Option<&T>) {
        match self {
            LayerKindInner::Dense(layer) => layer.get_tile(index),
            LayerKindInner::Sparse(layer) => layer.get_tile(index),
        }
    }

    fn get_tile_mut(&mut self, index: usize) -> (found: Option<&mut T>) {
        match self {
            LayerKindInner::Dense(layer) => layer.get_tile_mut(index),
            LayerKindInner::Sparse(layer) => layer.get_tile_mut(index),
        }
    }

    fn get_tile_indices(&self) -> (indices: Vec<usize>) {
        match self {
            LayerKindInner::Dense(layer) => layer.get_tile_indices(),
            LayerKindInner::Sparse(layer) => layer.get_tile_indices(),
        }
    }

    fn clear(&mut self) {
        match self {
            LayerKindInner::Dense(layer) => layer.clear(),
            LayerKindInner::Sparse(layer) => layer.clear(),
        }
    }

    fn tiles_to_attributes(&self, dimension: Dimension3) -> (attributes: (Vec<usize>, Vec<Color>)) {
        match self {
            LayerKindInner::Dense(layer) => layer.tiles_to_attributes(dimension),
            LayerKindInner::Sparse(layer) => layer.tiles_to_attributes(dimension),
        }
    }
}

/// A sprite layer which can either store a sparse or dense layer.
#[derive(Clone, PartialEq, Debug)]
pub struct SpriteLayer {
    /// Enum storage of the kind of layer.
    pub inner: LayerKindInner<RawTile>,
}

} // verus!
