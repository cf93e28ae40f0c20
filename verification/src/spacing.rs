//! The spacing parameters that govern interline glue.

use vstd::prelude::*;
use crate::dimen::Dimen;
use crate::glue::Glue;

verus! {

/// The three parameters read when a box joins a vertical list. The natural
/// space of the baseline skip lies within `-MAX_DIMEN ..= MAX_DIMEN`.
#[derive(Clone, Copy, Debug, PartialEq, Eq, Structural)]
pub struct Spacing {
    baselineskip: Glue,
    lineskip: Glue,
    lineskiplimit: Dimen,
}

impl Spacing {
    /// Whether the baseline skip's natural space is in range. Every value
    /// that executable code holds is well formed.
    #[verifier::type_invariant]
    pub open spec fn wf(self) -> bool {
        self.spec_baselineskip().space.in_range()
    }

    /// The distance wanted between the baselines of adjacent boxes.
    pub closed spec fn spec_baselineskip(&self) -> Glue {
        self.baselineskip
    }

    /// The glue used instead where the boxes would come too close.
    pub closed spec fn spec_lineskip(&self) -> Glue {
        self.lineskip
    }

    /// The least natural space that glue computed from the baseline skip may
    /// have.
    pub closed spec fn spec_lineskiplimit(&self) -> Dimen {
        self.lineskiplimit
    }

    /// Whether these are the plain settings: a rigid baseline skip of 12pt,
    /// a rigid line skip of 1pt and a limit of 0pt.
    pub open spec fn is_plain(self) -> bool {
        &&& self.spec_baselineskip() == Glue::rigid(Dimen { sp: 786432 })
        &&& self.spec_lineskip() == Glue::rigid(Dimen { sp: 65536 })
        &&& self.spec_lineskiplimit() == (Dimen { sp: 0 })
    }

    /// The given parameters, or `None` if the baseline skip's natural space
    /// is out of range.
    pub fn new(baselineskip: Glue, lineskip: Glue, lineskiplimit: Dimen) -> (r: Option<Spacing>)
        ensures
            r.is_some() <==> baselineskip.space.in_range(),
            r matches Some(s) ==> s.spec_baselineskip() == baselineskip && s.spec_lineskip()
                == lineskip && s.spec_lineskiplimit() == lineskiplimit,
    {
        if baselineskip.space.is_in_range() {
            Some(Spacing { baselineskip, lineskip, lineskiplimit })
        } else {
            None
        }
    }

    /// The baseline skip.
    #[verifier::when_used_as_spec(spec_baselineskip)]
    pub fn baselineskip(&self) -> (r: Glue)
        ensures
            r == self.spec_baselineskip(),
            r.space.in_range(),
    {
        proof {
            use_type_invariant(self);
        }
        self.baselineskip
    }

    /// The line skip.
    #[verifier::when_used_as_spec(spec_lineskip)]
    pub fn lineskip(&self) -> (r: Glue)
        ensures
            r == self.spec_lineskip(),
    {
        self.lineskip
    }

    /// The line skip limit.
    #[verifier::when_used_as_spec(spec_lineskiplimit)]
    pub fn lineskiplimit(&self) -> (r: Dimen)
        ensures
            r == self.spec_lineskiplimit(),
    {
        self.lineskiplimit
    }
}

impl Default for Spacing {
    /// The plain settings.
    fn default() -> (r: Spacing)
        ensures
            r.is_plain(),
    {
        Spacing {
            baselineskip: Glue::from_dimen(Dimen::from_points(12)),
            lineskip: Glue::from_dimen(Dimen::from_points(1)),
            lineskiplimit: Dimen::zero(),
        }
    }
}

} // verus!
