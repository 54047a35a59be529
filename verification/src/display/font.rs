//! The monospace console font, reduced to what layout needs: the fixed
//! cell size. The glyph rasters themselves are embedded outside this
//! library; layout only ever asks how wide and tall a character cell is.

use vstd::prelude::*;

verus! {

/// A fixed-cell console font.
#[derive(Clone, Copy, PartialEq, Eq, Structural, Debug)]
pub struct FramebufferFont {
    width: usize,
    height: usize,
}

impl FramebufferFont {
    pub closed spec fn width_spec(&self) -> int {
        self.width as int
    }

    pub closed spec fn height_spec(&self) -> int {
        self.height as int
    }

    /// A usable font has a non-empty cell.
    pub open spec fn wf(&self) -> bool {
        self.width_spec() >= 1 && self.height_spec() >= 1
    }

    pub fn new(width: usize, height: usize) -> (r: Self)
        requires
            width >= 1,
            height >= 1,
        ensures
            r.wf(),
            r.width_spec() == width,
            r.height_spec() == height,
    {
        FramebufferFont { width, height }
    }

    /// A character cell's width in pixels.
    pub fn width(&self) -> (r: usize)
        ensures
            r == self.width_spec(),
    {
        self.width
    }

    /// A character cell's height in pixels.
    pub fn height(&self) -> (r: usize)
        ensures
            r == self.height_spec(),
    {
        self.height
    }
}

} // verus!
