//! The set of edges of a segment that need anti-aliasing.

use vstd::prelude::*;

verus! {

/// Which of the four edges of a segment are to be anti-aliased.
#[derive(Clone, Copy, Debug, PartialEq, Eq, Hash, Structural)]
pub struct EdgeAaSegmentMask {
    pub left: bool,
    pub top: bool,
    pub right: bool,
    pub bottom: bool,
}

impl EdgeAaSegmentMask {
    /// No edge.
    pub open spec fn spec_empty() -> Self {
        EdgeAaSegmentMask { left: false, top: false, right: false, bottom: false }
    }

    /// All four edges.
    pub open spec fn spec_all() -> Self {
        EdgeAaSegmentMask { left: true, top: true, right: true, bottom: true }
    }

    /// The edges that are in `self` or in `other`.
    pub open spec fn spec_union(self, other: Self) -> Self {
        EdgeAaSegmentMask {
            left: self.left || other.left,
            top: self.top || other.top,
            right: self.right || other.right,
            bottom: self.bottom || other.bottom,
        }
    }

    /// The edges that are in `self` and in `other`.
    pub open spec fn spec_intersection(self, other: Self) -> Self {
        EdgeAaSegmentMask {
            left: self.left && other.left,
            top: self.top && other.top,
            right: self.right && other.right,
            bottom: self.bottom && other.bottom,
        }
    }

    /// The mask as bits: left 1, top 2, right 4, bottom 8.
    pub open spec fn spec_bits(self) -> int {
        (if self.left { 1int } else { 0 }) + (if self.top { 2int } else { 0 }) + (if self.right {
            4int
        } else {
            0
        }) + (if self.bottom { 8int } else { 0 })
    }

    #[verifier::when_used_as_spec(spec_empty)]
    pub fn empty() -> (m: Self)
        ensures
            m == Self::spec_empty(),
    {
        EdgeAaSegmentMask { left: false, top: false, right: false, bottom: false }
    }

    #[verifier::when_used_as_spec(spec_all)]
    pub fn all() -> (m: Self)
        ensures
            m == Self::spec_all(),
    {
        EdgeAaSegmentMask { left: true, top: true, right: true, bottom: true }
    }

    #[verifier::when_used_as_spec(spec_union)]
    pub fn union(self, other: Self) -> (m: Self)
        ensures
            m == self.spec_union(other),
    {
        EdgeAaSegmentMask {
            left: self.left || other.left,
            top: self.top || other.top,
            right: self.right || other.right,
            bottom: self.bottom || other.bottom,
        }
    }

    #[verifier::when_used_as_spec(spec_intersection)]
    pub fn intersection(self, other: Self) -> (m: Self)
        ensures
            m == self.spec_intersection(other),
    {
        EdgeAaSegmentMask {
            left: self.left && other.left,
            top: self.top && other.top,
            right: self.right && other.right,
            bottom: self.bottom && other.bottom,
        }
    }

    pub fn is_empty(self) -> (e: bool)
        ensures
            e == (self == Self::spec_empty()),
    {
        !self.left && !self.top && !self.right && !self.bottom
    }

    pub fn bits(self) -> (b: u8)
        ensures
            b == self.spec_bits(),
    {
        let l: u8 = if self.left { 1 } else { 0 };
        let t: u8 = if self.top { 2 } else { 0 };
        let r: u8 = if self.right { 4 } else { 0 };
        let b: u8 = if self.bottom { 8 } else { 0 };
        l + t + r + b
    }
}

} // verus!
