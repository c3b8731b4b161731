//! The size of the grid that a layer spans.

use vstd::prelude::*;

verus! {

/// The width, height and depth of a grid, in cells.
#[derive(Copy, Clone, PartialEq, Eq, Debug)]
pub struct Dimension3 {
    /// The number of cells in a row.
    pub width: u32,
    /// The number of rows.
    pub height: u32,
    /// The number of layers. It has no part in the size of a layer's buffers.
    pub depth: u32,
}

impl Dimension3 {
    /// The number of cells in one layer of the grid: width times height.
    pub open spec fn area(self) -> nat {
        (self.width * self.height) as nat
    }

    /// A grid of the given width, height and depth.
    pub fn new(width: u32, height: u32, depth: u32) -> (dimension: Dimension3)
        ensures
            dimension == (Dimension3 { width, height, depth }),
    {
        Dimension3 { width, height, depth }
    }

    /// The length of a buffer with four entries for each cell of one layer,
    /// or nothing where no buffer on this machine can be that long.
    pub fn quad_slots(&self) -> (slots: Option<usize>)
        ensures
            match slots {
                Some(slots) => slots == self.area() * 4,
                None => self.area() * 4 > usize::MAX,
            },
    {
        match (self.width as usize).checked_mul(self.height as usize) {
            Some(area) => area.checked_mul(4),
            None => None,
        }
    }
}

} // verus!
