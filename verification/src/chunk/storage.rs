//! What a layer holds, as a mathematical value, and what follows from it.
//!
//! The contracts of the layers speak of a [`Storage`]: the sequence of tiles
//! and the count of a dense layer, or the map of a sparse one. What a write,
//! a read or a removal does is written here once, for both kinds.

use crate::chunk::layer::LayerKind;
use crate::chunk::raw_tile::{dense_colors, dense_indexes, sparse_colors, sparse_indexes, TileTrait};
use crate::color::Color;
use crate::dimension::Dimension3;
use vstd::prelude::*;

verus! {

/// Whether a dense layer counts every write to one of its cells. Where it does,
/// a write over a tile that was visible already is counted again, and the count
/// may come to stand above the number of visible tiles. Where it does not, only
/// a write over a hidden tile is counted.
pub const COUNT_EVERY_WRITE: bool = true;

/// The number that follows `count`, but for the largest, which stays: the count
/// never wraps round.
pub open spec fn count_up(count: usize) -> usize {
    if count < usize::MAX {
        (count + 1) as usize
    } else {
        count
    }
}

/// The number before `count`, but for zero, which stays.
pub open spec fn count_down(count: usize) -> usize {
    if count > 0 {
        (count - 1) as usize
    } else {
        count
    }
}

/// The count of a dense layer after a write to one of its cells, where the tile
/// that the cell held before was hidden or was not.
pub open spec fn count_after_write(count: usize, was_hidden: bool) -> usize {
    if COUNT_EVERY_WRITE || was_hidden {
        count_up(count)
    } else {
        count
    }
}

/// Whether `after` is `before` once hidden: the same sprite in the same color
/// but for an alpha channel of zero.
pub open spec fn is_hidden_form<T: TileTrait>(before: T, after: T) -> bool {
    &&& after.tile_color() == before.tile_color().faded()
    &&& after.tile_index() == before.tile_index()
}

/// What a layer holds.
pub ghost enum Storage<T> {
    /// One tile for each cell, in cell order, and the count that is kept of the
    /// visible ones.
    Dense(Seq<T>, usize),
    /// The tiles that were set, by cell index.
    Sparse(Map<usize, T>),
}

impl<T: TileTrait> Storage<T> {
    /// The kind of layer that holds this.
    pub open spec fn kind(self) -> LayerKind {
        match self {
            Storage::Dense(_, _) => LayerKind::Dense,
            Storage::Sparse(_) => LayerKind::Sparse,
        }
    }

    /// Whether a write to `index` is taken. A dense layer takes a write to one
    /// of its cells; a sparse layer takes every write.
    pub open spec fn accepts(self, index: usize) -> bool {
        match self {
            Storage::Dense(tiles, _) => index < tiles.len(),
            Storage::Sparse(_) => true,
        }
    }

    /// The tile held for `index`, hidden or not.
    pub open spec fn slot(self, index: usize) -> Option<T> {
        match self {
            Storage::Dense(tiles, _) => if index < tiles.len() {
                Some(tiles[index as int])
            } else {
                None
            },
            Storage::Sparse(tiles) => if tiles.contains_key(index) {
                Some(tiles[index])
            } else {
                None
            },
        }
    }

    /// The tile that a read of `index` finds. A dense layer does not show a
    /// hidden tile; a sparse layer shows whatever it holds.
    pub open spec fn tile_at(self, index: usize) -> Option<T> {
        match self {
            Storage::Dense(tiles, _) => if index < tiles.len() && !tiles[index as int].tile_color().is_transparent() {
                Some(tiles[index as int])
            } else {
                None
            },
            Storage::Sparse(tiles) => if tiles.contains_key(index) {
                Some(tiles[index])
            } else {
                None
            },
        }
    }

    /// This storage after `tile` was written to `index`. A dense layer drops a
    /// write past its last cell.
    pub open spec fn with_tile(self, index: usize, tile: T) -> Storage<T> {
        match self {
            Storage::Dense(tiles, count) => if index < tiles.len() {
                Storage::Dense(
                    tiles.update(index as int, tile),
                    count_after_write(count, tiles[index as int].tile_color().is_transparent()),
                )
            } else {
                self
            },
            Storage::Sparse(tiles) => Storage::Sparse(tiles.insert(index, tile)),
        }
    }

    /// This storage with the tile held for `index` replaced by `tile`, and
    /// nothing counted.
    pub open spec fn with_slot(self, index: usize, tile: T) -> Storage<T> {
        match self {
            Storage::Dense(tiles, count) => if index < tiles.len() {
                Storage::Dense(tiles.update(index as int, tile), count)
            } else {
                self
            },
            Storage::Sparse(tiles) => Storage::Sparse(tiles.insert(index, tile)),
        }
    }

    /// Whether `after` is this storage once the tile at `index` was removed.
    ///
    /// A dense layer keeps the cell and hides its tile, and counts down unless
    /// the count is zero; past its last cell it changes nothing. A sparse layer
    /// forgets the cell.
    pub open spec fn removes_into(self, index: usize, after: Storage<T>) -> bool {
        match self {
            Storage::Dense(tiles, count) => if index < tiles.len() {
                &&& after matches Storage::Dense(left, left_count)
                &&& left.len() == tiles.len()
                &&& forall|other: int| 0 <= other < tiles.len() && other != index ==> left[other] == tiles[other]
                &&& is_hidden_form(tiles[index as int], left[index as int])
                &&& left_count == count_down(count)
            } else {
                after == self
            },
            Storage::Sparse(tiles) => after == Storage::Sparse(tiles.remove(index)),
        }
    }

    /// This storage after it was cleared. A dense layer is left without cells;
    /// its count stays.
    pub open spec fn cleared(self) -> Storage<T> {
        match self {
            Storage::Dense(_, count) => Storage::Dense(Seq::empty(), count),
            Storage::Sparse(_) => Storage::Sparse(Map::empty()),
        }
    }

    /// Whether `indices` lists the cells at which a read finds a tile: each of
    /// them once and no other. The list of a dense layer ascends; that of a
    /// sparse layer comes in no order that can be told beforehand.
    pub open spec fn lists(self, indices: Seq<usize>) -> bool {
        &&& indices.no_duplicates()
        &&& forall|index: usize| indices.contains(index) <==> self.tile_at(index) is Some
        &&& self is Dense ==> forall|a: int, b: int| 0 <= a < b < indices.len() ==> indices[a] < indices[b]
    }

    /// Whether the buffers for a grid of this size can be built. Those of a
    /// sparse layer span the grid, so four entries for each of its cells must
    /// fit the longest buffer of the machine.
    pub open spec fn flattens(self, dimension: Dimension3) -> bool {
        match self {
            Storage::Dense(_, _) => true,
            Storage::Sparse(_) => dimension.area() * 4 <= usize::MAX,
        }
    }

    /// The number of cells that the buffers cover: the cells of a dense layer,
    /// or the cells of the grid for a sparse one.
    pub open spec fn flat_cells(self, dimension: Dimension3) -> nat {
        match self {
            Storage::Dense(tiles, _) => tiles.len(),
            Storage::Sparse(_) => dimension.area(),
        }
    }

    /// The buffer of sprite indices, four entries for each cell.
    pub open spec fn flat_indexes(self, dimension: Dimension3) -> Seq<usize> {
        match self {
            Storage::Dense(tiles, _) => dense_indexes(tiles),
            Storage::Sparse(tiles) => sparse_indexes(dimension.area(), tiles),
        }
    }

    /// The buffer of colors, four entries for each cell.
    pub open spec fn flat_colors(self, dimension: Dimension3) -> Seq<Color> {
        match self {
            Storage::Dense(tiles, _) => dense_colors(tiles),
            Storage::Sparse(tiles) => sparse_colors(dimension.area(), tiles),
        }
    }
}

/// A dense layer that holds hidden tiles only lists no cell.
pub proof fn lemma_hidden_tiles_list_nothing<T: TileTrait>(tiles: Seq<T>, count: usize, indices: Seq<usize>)
    requires
        forall|cell: int| 0 <= cell < tiles.len() ==> tiles[cell].tile_color().is_transparent(),
        Storage::Dense(tiles, count).lists(indices),
    ensures
        indices == Seq::<usize>::empty(),
{
    if indices.len() > 0 {
        assert(indices.contains(indices[0]));
    }
    assert(indices =~= Seq::<usize>::empty());
}

/// Once a visible tile was written to a cell of a dense layer, the layer lists
/// that cell.
pub proof fn lemma_visible_write_is_listed<T: TileTrait>(
    tiles: Seq<T>,
    count: usize,
    index: usize,
    tile: T,
    indices: Seq<usize>,
)
    requires
        index < tiles.len(),
        !tile.tile_color().is_transparent(),
        Storage::Dense(tiles, count).with_tile(index, tile).lists(indices),
    ensures
        indices.contains(index),
{
}

/// A write past the last cell of a dense layer changes neither its tiles nor
/// its count.
pub proof fn lemma_dense_write_out_of_bounds<T: TileTrait>(tiles: Seq<T>, count: usize, index: usize, tile: T)
    requires
        index >= tiles.len(),
    ensures
        !Storage::Dense(tiles, count).accepts(index),
        Storage::Dense(tiles, count).with_tile(index, tile) == Storage::Dense(tiles, count),
{
}

/// Removing the tile of a cell for which a sparse layer holds none changes
/// nothing. So a second removal of the same cell changes nothing either.
pub proof fn lemma_sparse_remove_absent<T: TileTrait>(tiles: Map<usize, T>, index: usize, after: Storage<T>)
    requires
        !tiles.contains_key(index),
        Storage::Sparse(tiles).removes_into(index, after),
    ensures
        after == Storage::Sparse(tiles),
{
    assert(tiles.remove(index) =~= tiles);
}

/// A hidden tile that was written to a sparse layer is read back from it. The
/// same tile written to a cell of a dense layer is not.
pub proof fn lemma_hidden_tile_is_read_from_sparse_only<T: TileTrait>(
    dense: Seq<T>,
    count: usize,
    sparse: Map<usize, T>,
    index: usize,
    tile: T,
)
    requires
        index < dense.len(),
        tile.tile_color().is_transparent(),
    ensures
        Storage::Sparse(sparse).with_tile(index, tile).tile_at(index) == Some(tile),
        Storage::Dense(dense, count).with_tile(index, tile).tile_at(index) is None,
{
}

/// Whatever the kind of layer, no read finds a tile at a cell whose tile was
/// removed, and the kind of the layer is what it was.
pub proof fn lemma_removed_tile_is_not_read<T: TileTrait>(before: Storage<T>, index: usize, after: Storage<T>)
    requires
        before.removes_into(index, after),
    ensures
        after.tile_at(index) is None,
        after.kind() == before.kind(),
{
}

/// A tile that is written to a cell of a dense layer and removed at once is
/// not read back, but its cell is still there: the layer is as long as it was,
/// and the four entries of the cell in the buffers are the tile's sprite and
/// the tile's color with an alpha channel of zero.
pub proof fn lemma_dense_write_then_remove<T: TileTrait>(
    tiles: Seq<T>,
    count: usize,
    index: usize,
    tile: T,
    after: Storage<T>,
    dimension: Dimension3,
)
    requires
        index < tiles.len(),
        Storage::Dense(tiles, count).with_tile(index, tile).removes_into(index, after),
    ensures
        after.tile_at(index) is None,
        after.slot(index) is Some,
        after.flat_cells(dimension) == tiles.len(),
        after.flat_indexes(dimension).len() == tiles.len() * 4,
        after.flat_colors(dimension).len() == tiles.len() * 4,
        forall|corner: int|
            0 <= corner < 4 ==> {
                &&& #[trigger] after.flat_indexes(dimension)[index * 4 + corner] == tile.tile_index()
                &&& #[trigger] after.flat_colors(dimension)[index * 4 + corner] == tile.tile_color().faded()
                &&& after.flat_colors(dimension)[index * 4 + corner].is_transparent()
            },
{
}

} // verus!
