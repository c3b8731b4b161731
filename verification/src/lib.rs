//! Tile storage for one rendering layer of a tilemap.
//!
//! A layer holds one tile per cell, addressed by a linear cell index, and
//! flattens its tiles into the two parallel buffers a renderer reads: four
//! entries per cell, one for each corner of the cell's quad.

pub mod color;
pub mod dimension;
pub mod chunk;
