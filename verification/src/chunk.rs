//! The tiles of a chunk and the layers that store them.

pub mod layer;
pub mod raw_tile;
pub mod storage;

pub use crate::chunk::layer::{DenseLayer, Layer, LayerKind, LayerKindInner, SparseLayer, SpriteLayer};
pub use crate::chunk::raw_tile::{RawTile, TileTrait};
