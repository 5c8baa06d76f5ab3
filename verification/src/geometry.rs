//! Points and axis-aligned rectangles in the pixel space of an atlas.

use vstd::prelude::*;

verus! {

/// A point, or an extent, in whole pixels.
#[derive(Clone, Copy, Debug, PartialEq, Eq, Hash, Structural)]
pub struct IVec2 {
    pub x: i32,
    pub y: i32,
}

impl IVec2 {
    pub fn new(x: i32, y: i32) -> (v: IVec2)
        ensures
            v.x == x,
            v.y == y,
    {
        IVec2 { x, y }
    }
}

/// An axis-aligned region between a minimum and a maximum corner.
///
/// The corners are private so that every rectangle that exists at run time
/// has its minimum corner at or before its maximum corner on both axes.
#[derive(Clone, Copy, Debug, PartialEq, Eq, Hash, Structural)]
pub struct Rect {
    min: IVec2,
    max: IVec2,
}

impl Rect {
    /// Whether `min` and `max` can be the corners of a rectangle.
    pub open spec fn ordered(min: IVec2, max: IVec2) -> bool {
        min.x <= max.x && min.y <= max.y
    }

    #[verifier::type_invariant]
    closed spec fn corners_ordered(self) -> bool {
        Self::ordered(self.min, self.max)
    }

    /// The rectangle with the given corners, as a specification value.
    pub closed spec fn with_corners(min: IVec2, max: IVec2) -> Rect {
        Rect { min, max }
    }

    pub closed spec fn spec_min(&self) -> IVec2 {
        self.min
    }

    pub closed spec fn spec_max(&self) -> IVec2 {
        self.max
    }

    /// The rectangle from `min` to `max`, or nothing where the corners are
    /// out of order on either axis.
    pub fn new(min: IVec2, max: IVec2) -> (r: Option<Rect>)
        ensures
            r is Some <==> Self::ordered(min, max),
            r is Some ==> r == Some(Self::with_corners(min, max)),
            r is Some ==> r.unwrap().min() == min && r.unwrap().max() == max,
    {
        if min.x <= max.x && min.y <= max.y {
            Some(Rect { min, max })
        } else {
            None
        }
    }

    /// The minimum corner.
    #[verifier::when_used_as_spec(spec_min)]
    pub fn min(&self) -> (m: IVec2)
        ensures
            m == self.spec_min(),
            Self::ordered(self.spec_min(), self.spec_max()),
    {
        proof {
            use_type_invariant(self);
        }
        self.min
    }

    /// The maximum corner.
    #[verifier::when_used_as_spec(spec_max)]
    pub fn max(&self) -> (m: IVec2)
        ensures
            m == self.spec_max(),
            Self::ordered(self.spec_min(), self.spec_max()),
    {
        proof {
            use_type_invariant(self);
        }
        self.max
    }

    /// A rectangle is determined by its two corners.
    pub proof fn lemma_corners(min: IVec2, max: IVec2)
        ensures
            Self::with_corners(min, max).min() == min,
            Self::with_corners(min, max).max() == max,
    {
    }

    /// Two rectangles with the same corners are the same rectangle.
    pub proof fn lemma_equal_by_corners(a: Rect, b: Rect)
        requires
            a.min() == b.min(),
            a.max() == b.max(),
        ensures
            a == b,
    {
    }
}

} // verus!
