//! Sizes of render targets, in whole pixels.

use vstd::prelude::*;

verus! {

/// Width and height of a surface in pixels.
#[derive(Copy, Clone, Debug, PartialEq, Eq, Structural, Default)]
pub struct Size {
    pub w: usize,
    pub h: usize,
}

impl Size {
    pub fn new(w: usize, h: usize) -> (size: Size)
        ensures
            size == (Size { w, h }),
    {
        Size { w, h }
    }

    /// Whether a surface of size `other` fits into one of this size.
    pub open spec fn spec_contains(self, other: Size) -> bool {
        other.w <= self.w && other.h <= self.h
    }

    /// The smallest size into which both fit.
    pub open spec fn spec_max(self, other: Size) -> Size {
        Size {
            w: if self.w >= other.w { self.w } else { other.w },
            h: if self.h >= other.h { self.h } else { other.h },
        }
    }

    pub fn contains(&self, other: &Size) -> (fits: bool)
        ensures
            fits == self.spec_contains(*other),
    {
        other.w <= self.w && other.h <= self.h
    }

    pub fn max(&self, other: &Size) -> (size: Size)
        ensures
            size == self.spec_max(*other),
    {
        Size {
            w: if self.w >= other.w { self.w } else { other.w },
            h: if self.h >= other.h { self.h } else { other.h },
        }
    }
}

} // verus!
