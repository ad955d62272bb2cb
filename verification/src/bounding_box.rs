//! Axis-aligned pixel rectangles: the screen-space region a triangle's
//! rasterization loop has to visit, and the tiles the buffers are split into.

use vstd::prelude::*;

verus! {

/// A half-open rectangle of pixels: columns `min_x..max_x`, rows
/// `min_y..max_y`.
#[derive(Debug, Copy, Clone, PartialEq, Eq, Structural)]
pub struct PixelBoundingBox {
    pub min_x: usize,
    pub max_x: usize,
    pub min_y: usize,
    pub max_y: usize,
}

impl PixelBoundingBox {
    /// A box that contains at least one pixel on both axes.
    pub open spec fn wf(self) -> bool {
        self.min_x < self.max_x && self.min_y < self.max_y
    }
}

} // verus!
