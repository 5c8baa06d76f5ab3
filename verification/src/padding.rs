//! Margins kept free around every cell of a sliced texture.

use crate::geometry::IVec2;
use vstd::prelude::*;
use vstd::std_specs::convert::FromSpecImpl;

verus! {

/// Four margins, in pixels, that surround each cell of a grid.
///
/// The type only stores the values. Slicing a grid accepts them when none is
/// negative.
#[derive(Clone, Copy, Debug, PartialEq, Eq, Structural)]
pub struct PaddingSpecification {
    pub left: i32,
    pub top: i32,
    pub right: i32,
    pub bottom: i32,
}

impl PaddingSpecification {
    /// Padding that takes its horizontal margins from `value.x` and its
    /// vertical margins from `value.y`.
    pub open spec fn spec_uniform(value: IVec2) -> PaddingSpecification {
        PaddingSpecification { left: value.x, top: value.y, right: value.x, bottom: value.y }
    }

    /// No margin at all.
    pub open spec fn zero() -> PaddingSpecification {
        PaddingSpecification { left: 0, top: 0, right: 0, bottom: 0 }
    }

    /// Whether a grid can be sliced with these margins: none is negative.
    pub open spec fn is_valid(self) -> bool {
        self.left >= 0 && self.top >= 0 && self.right >= 0 && self.bottom >= 0
    }

    /// Pixels that the two horizontal margins add to the width of a cell.
    pub open spec fn horizontal(self) -> int {
        self.left + self.right
    }

    /// Pixels that the two vertical margins add to the height of a cell.
    pub open spec fn vertical(self) -> int {
        self.top + self.bottom
    }

    pub fn new(left: i32, top: i32, right: i32, bottom: i32) -> (p: PaddingSpecification)
        ensures
            p == (PaddingSpecification { left, top, right, bottom }),
    {
        PaddingSpecification { left, top, right, bottom }
    }

    /// The same margin on both sides of each axis.
    #[verifier::when_used_as_spec(spec_uniform)]
    pub fn uniform(value: IVec2) -> (p: PaddingSpecification)
        ensures
            p == Self::spec_uniform(value),
    {
        Self::new(value.x, value.y, value.x, value.y)
    }
}

impl Default for PaddingSpecification {
    fn default() -> (p: PaddingSpecification)
        ensures
            p == PaddingSpecification::zero(),
    {
        PaddingSpecification { left: 0, top: 0, right: 0, bottom: 0 }
    }
}

impl From<IVec2> for PaddingSpecification {
    fn from(value: IVec2) -> (p: PaddingSpecification) {
        PaddingSpecification::uniform(value)
    }
}

impl FromSpecImpl<IVec2> for PaddingSpecification {
    open spec fn obeys_from_spec() -> bool {
        true
    }

    open spec fn from_spec(value: IVec2) -> PaddingSpecification {
        PaddingSpecification::spec_uniform(value)
    }
}

} // verus!
