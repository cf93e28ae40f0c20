//! Finished boxes, of which the vertical list reads only the dimensions.

use vstd::prelude::*;
use crate::dimen::Dimen;

verus! {

/// A typeset box. Each of its dimensions lies within
/// `-MAX_DIMEN ..= MAX_DIMEN`.
#[derive(Clone, Copy, Debug, PartialEq, Eq, Structural)]
pub struct TexBox {
    height: Dimen,
    depth: Dimen,
    width: Dimen,
}

impl TexBox {
    /// Whether each dimension lies within `-MAX_DIMEN ..= MAX_DIMEN`. Every
    /// box that executable code holds is well formed.
    #[verifier::type_invariant]
    pub open spec fn wf(self) -> bool {
        self.spec_height().in_range() && self.spec_depth().in_range()
            && self.spec_width().in_range()
    }

    /// How far the box reaches above its baseline.
    pub closed spec fn spec_height(&self) -> Dimen {
        self.height
    }

    /// How far the box reaches below its baseline.
    pub closed spec fn spec_depth(&self) -> Dimen {
        self.depth
    }

    /// The box's width.
    pub closed spec fn spec_width(&self) -> Dimen {
        self.width
    }

    /// A box of the given dimensions, or `None` if one of them is out of
    /// range.
    pub fn new(height: Dimen, depth: Dimen, width: Dimen) -> (r: Option<TexBox>)
        ensures
            r.is_some() <==> height.in_range() && depth.in_range() && width.in_range(),
            r matches Some(b) ==> b.spec_height() == height && b.spec_depth() == depth
                && b.spec_width() == width,
    {
        if height.is_in_range() && depth.is_in_range() && width.is_in_range() {
            Some(TexBox { height, depth, width })
        } else {
            None
        }
    }

    /// The box's height.
    #[verifier::when_used_as_spec(spec_height)]
    pub fn height(&self) -> (r: Dimen)
        ensures
            r == self.spec_height(),
            r.in_range(),
    {
        proof {
            use_type_invariant(self);
        }
        self.height
    }

    /// The box's depth.
    #[verifier::when_used_as_spec(spec_depth)]
    pub fn depth(&self) -> (r: Dimen)
        ensures
            r == self.spec_depth(),
            r.in_range(),
    {
        proof {
            use_type_invariant(self);
        }
        self.depth
    }

    /// The box's width.
    #[verifier::when_used_as_spec(spec_width)]
    pub fn width(&self) -> (r: Dimen)
        ensures
            r == self.spec_width(),
            r.in_range(),
    {
        proof {
            use_type_invariant(self);
        }
        self.width
    }
}

} // verus!
