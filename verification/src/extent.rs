//! Drawable sizes as reported by the windowing system.

use vstd::prelude::*;

verus! {

/// Width and height of a drawable surface, in pixels.
///
/// A zero width or height means the window is minimized (or mid-resize) and
/// cannot be rendered to; the swapchain must not be (re)built at such a size.
#[derive(Clone, Copy, Debug, PartialEq, Eq, Structural)]
pub struct Extent {
    pub width: u32,
    pub height: u32,
}

impl Extent {
    /// True when at least one dimension is zero, i.e. the surface is
    /// temporarily unrenderable.
    pub open spec fn spec_is_zero(&self) -> bool {
        self.width == 0 || self.height == 0
    }

    #[verifier::when_used_as_spec(spec_is_zero)]
    pub fn is_zero(&self) -> (r: bool)
        ensures
            r == self.spec_is_zero(),
    {
        self.width == 0 || self.height == 0
    }

    pub fn new(width: u32, height: u32) -> (r: Extent)
        ensures
            r.width == width,
            r.height == height,
    {
        Extent { width, height }
    }
}

} // verus!
