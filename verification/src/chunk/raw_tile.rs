//! What a tile is, the plainest tile, and how tiles become the buffers that a
//! renderer reads.

use crate::color::Color;
use crate::dimension::Dimension3;
use std::collections::HashMap;
use vstd::prelude::*;

verus! {

/// What a layer needs of a tile: a sprite index, a color, and a way to hide it.
///
/// A tile carries no visibility flag of its own. It is hidden exactly when its
/// color is transparent, and hiding it sets the alpha channel to zero.
pub trait TileTrait: 'static {
    /// The tile's color.
    spec fn tile_color(&self) -> Color;

    /// The tile's index in the sprite sheet.
    spec fn tile_index(&self) -> usize;

    /// The color, or tint, of the tile.
    fn get_color(&self) -> (color: &Color)
        ensures
            *color == self.tile_color(),
    ;

    /// Whether the tile is hidden: whether its color is transparent.
    fn is_hidden(&self) -> (hidden: bool)
        ensures
            hidden == self.tile_color().is_transparent(),
    ;

    /// Hides the tile by setting its alpha channel to zero. The other channels
    /// and the sprite index stay as they are.
    fn hide_tile(&mut self)
        ensures
            final(self).tile_color() == old(self).tile_color().faded(),
            final(self).tile_index() == old(self).tile_index(),
    ;

    /// The index of the tile in the sprite sheet.
    fn get_index(&self) -> (index: usize)
        ensures
            index == self.tile_index(),
    ;
}

/// A raw tile composed of simply an index and a color.
#[derive(Copy, Clone, PartialEq, Debug)]
pub struct RawTile {
    /// The index of the tile in the sprite sheet.
    pub index: usize,
    /// The color, or tint, of the tile.
    pub color: Color,
}

impl Default for RawTile {
    /// The first sprite of the sheet in opaque white.
    fn default() -> (tile: RawTile)
        ensures
            tile == (RawTile { index: 0, color: Color::white() }),
    {
        RawTile { index: 0, color: Color::white() }
    }
}

impl TileTrait for RawTile {
    open spec fn tile_color(&self) -> Color {
        self.color
    }

    open spec fn tile_index(&self) -> usize {
        self.index
    }

    fn get_color(&self) -> (color: &Color) {
        &self.color
    }

    fn is_hidden(&self) -> (hidden: bool) {
        self.color.alpha_is_zero()
    }

    fn hide_tile(&mut self)
        ensures
            *final(self) == (RawTile { index: old(self).index, color: old(self).color.faded() }),
    {
        self.color.set_a(crate::color::POSITIVE_ZERO);
    }

    fn get_index(&self) -> (index: usize) {
        self.index
    }
}

/// The tile that `tiles` holds for `cell`, if `cell` is a cell index with a tile.
pub open spec fn cell_tile<T>(tiles: Map<usize, T>, cell: int) -> Option<T> {
    if 0 <= cell <= usize::MAX && tiles.contains_key(cell as usize) {
        Some(tiles[cell as usize])
    } else {
        None
    }
}

/// The sprite indices of a run of tiles: four entries for each tile, in order.
pub open spec fn dense_indexes<T: TileTrait>(tiles: Seq<T>) -> Seq<usize> {
    Seq::new((tiles.len() * 4) as nat, |slot: int| tiles[slot / 4].tile_index())
}

/// The colors of a run of tiles: four entries for each tile, in order.
pub open spec fn dense_colors<T: TileTrait>(tiles: Seq<T>) -> Seq<Color> {
    Seq::new((tiles.len() * 4) as nat, |slot: int| tiles[slot / 4].tile_color())
}

/// The sprite indices of a grid of `cells` cells: four entries for each cell,
/// those of its tile where `tiles` holds one and zero where it holds none.
pub open spec fn sparse_indexes<T: TileTrait>(cells: nat, tiles: Map<usize, T>) -> Seq<usize> {
    Seq::new(
        cells * 4,
        |slot: int|
            match cell_tile(tiles, slot / 4) {
                Some(tile) => tile.tile_index(),
                None => 0,
            },
    )
}

/// The colors of a grid of `cells` cells: four entries for each cell, those of
/// its tile where `tiles` holds one and transparent black where it holds none.
pub open spec fn sparse_colors<T: TileTrait>(cells: nat, tiles: Map<usize, T>) -> Seq<Color> {
    Seq::new(
        cells * 4,
        |slot: int|
            match cell_tile(tiles, slot / 4) {
                Some(tile) => tile.tile_color(),
                None => Color::transparent(),
            },
    )
}

/// Writes `value` to `slot` where the buffer has such a slot, and says whether
/// it did. A write past the end changes nothing.
pub fn write_clamped<V>(buffer: &mut Vec<V>, slot: usize, value: V) -> (landed: bool)
    ensures
        landed == (slot < old(buffer)@.len()),
        landed ==> final(buffer)@ == old(buffer)@.update(slot as int, value),
        !landed ==> final(buffer)@ == old(buffer)@,
{
    if slot < buffer.len() {
        buffer[slot] = value;
        true
    } else {
        false
    }
}

/// A utility function that takes an array of `Tile`s and splits the indexes and
/// colors and returns them as separate vectors for use in the renderer.
///
/// Every tile gives four entries to each vector, hidden or not.
pub fn dense_tiles_to_attributes<T>(tiles: &[T]) -> (attributes: (Vec<usize>, Vec<Color>))
    where
        T: TileTrait,
    ensures
        attributes.0@ == dense_indexes(tiles@),
        attributes.1@ == dense_colors(tiles@),
        attributes.0@.len() == tiles@.len() * 4,
        attributes.1@.len() == tiles@.len() * 4,
{
    let mut tile_indexes: Vec<usize> = Vec::new();
    let mut tile_colors: Vec<Color> = Vec::new();
    if let Some(capacity) = tiles.len().checked_mul(4) {
        tile_indexes.reserve(capacity);
        tile_colors.reserve(capacity);
    }
    let mut cell: usize = 0;
    while cell < tiles.len()
        invariant
            cell <= tiles@.len(),
            tile_indexes@.len() == cell * 4,
            tile_colors@.len() == cell * 4,
            forall|slot: int| 0 <= slot < cell * 4 ==> tile_indexes@[slot] == tiles@[slot / 4].tile_index(),
            forall|slot: int| 0 <= slot < cell * 4 ==> tile_colors@[slot] == tiles@[slot / 4].tile_color(),
        decreases tiles@.len() - cell,
    {
        let tile = &tiles[cell];
        for corner in 0..4usize
            invariant
                cell < tiles@.len(),
                *tile == tiles@[cell as int],
                tile_indexes@.len() == cell * 4 + corner,
                tile_colors@.len() == cell * 4 + corner,
                forall|slot: int| 0 <= slot < cell * 4 + corner ==> tile_indexes@[slot] == tiles@[slot / 4].tile_index(),
                forall|slot: int| 0 <= slot < cell * 4 + corner ==> tile_colors@[slot] == tiles@[slot / 4].tile_color(),
        {
            tile_indexes.push(tile.get_index());
            tile_colors.push(*tile.get_color());
        }
        cell += 1;
    }
    assert(tile_indexes@ =~= dense_indexes(tiles@));
    assert(tile_colors@ =~= dense_colors(tiles@));
    (tile_indexes, tile_colors)
}

/// A utility function that takes a sparse map of `Tile`s and splits the indexes
/// and colors and returns them as separate vectors for use in the renderer.
///
/// The vectors span the whole grid. A cell without a tile gives sprite zero in
/// transparent black; a tile outside the grid gives nothing.
pub fn sparse_tiles_to_attributes<T>(dimension: Dimension3, tiles: &HashMap<usize, T>) -> (attributes: (
    Vec<usize>,
    Vec<Color>,
))
    where
        T: TileTrait,
    requires
        dimension.area() * 4 <= usize::MAX,
    ensures
        attributes.0@ == sparse_indexes(dimension.area(), tiles@),
        attributes.1@ == sparse_colors(dimension.area(), tiles@),
        attributes.0@.len() == dimension.area() * 4,
        attributes.1@.len() == dimension.area() * 4,
{
    broadcast use vstd::std_specs::hash::group_hash_axioms;

    assert(dimension.width * dimension.height <= dimension.area() * 4);
    let area: usize = (dimension.width as usize) * (dimension.height as usize);
    let mut tile_indexes: Vec<usize> = vec![0; area * 4];
    let mut tile_colors: Vec<Color> = vec![Color::transparent(); area * 4];
    let ghost mut written: Set<usize> = Set::empty();
    for entry in it: tiles.iter()
        invariant
            area * 4 <= usize::MAX,
            tile_indexes@.len() == area * 4,
            tile_colors@.len() == area * 4,
            forall|j: int| 0 <= j < it.index() ==> written.contains(*(#[trigger] it.seq()[j]).0),
            forall|index: usize| written.contains(index) ==> tiles@.contains_key(index),
            tile_indexes@ =~= sparse_indexes(area as nat, tiles@.restrict(written)),
            tile_colors@ =~= sparse_colors(area as nat, tiles@.restrict(written)),
    {
        let (index, tile) = entry;
        let ghost indexes_before = tile_indexes@;
        let ghost colors_before = tile_colors@;
        for corner in 0..4usize
            invariant
                area * 4 <= usize::MAX,
                tile_indexes@.len() == area * 4,
                tile_colors@.len() == area * 4,
                indexes_before.len() == area * 4,
                colors_before.len() == area * 4,
                forall|slot: int|
                    0 <= slot < area * 4 ==> #[trigger] tile_indexes@[slot] == (if index * 4 <= slot < index * 4
                        + corner {
                        tile.tile_index()
                    } else {
                        indexes_before[slot]
                    }),
                forall|slot: int|
                    0 <= slot < area * 4 ==> #[trigger] tile_colors@[slot] == (if index * 4 <= slot < index * 4
                        + corner {
                        tile.tile_color()
                    } else {
                        colors_before[slot]
                    }),
        {
            let slot = match index.checked_mul(4) {
                Some(first) => first.checked_add(corner),
                None => None,
            };
            if let Some(slot) = slot {
                write_clamped(&mut tile_indexes, slot, tile.get_index());
                write_clamped(&mut tile_colors, slot, *tile.get_color());
            }
        }
        proof {
            written = written.insert(*index);
        }
    }
    assert(tiles@.restrict(written) =~= tiles@);
    (tile_indexes, tile_colors)
}

} // verus!
