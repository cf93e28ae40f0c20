//! Elastic spacing: a natural space that may stretch and shrink.

use vstd::prelude::*;
use crate::dimen::Dimen;

verus! {

/// The order of infinity of an infinitely elastic spring.
#[derive(Clone, Copy, Debug, PartialEq, Eq, Structural)]
pub enum FilKind {
    Fil,
    Fill,
    Filll,
}

/// An infinitely elastic amount: `factor / 65536` units of the given order.
#[derive(Clone, Copy, Debug, PartialEq, Eq, Structural)]
pub struct FilDimen {
    pub kind: FilKind,
    pub factor: i64,
}

impl FilDimen {
    /// `factor / 65536` units of order `kind`.
    pub fn new(kind: FilKind, factor: i64) -> (r: FilDimen)
        ensures
            r == (FilDimen { kind, factor }),
    {
        FilDimen { kind, factor }
    }
}

/// How far glue may stretch or shrink: by a finite length or by an infinite
/// amount of some order.
#[derive(Clone, Copy, Debug, PartialEq, Eq, Structural)]
pub enum SpringDimen {
    Dimen(Dimen),
    FilDimen(FilDimen),
}

/// Glue: natural space, stretch and shrink.
#[derive(Clone, Copy, Debug, PartialEq, Eq, Structural)]
pub struct Glue {
    pub space: Dimen,
    pub stretch: SpringDimen,
    pub shrink: SpringDimen,
}

impl Glue {
    /// The rigid glue of natural space `space`: it neither stretches nor
    /// shrinks.
    pub open spec fn rigid(space: Dimen) -> Glue {
        Glue {
            space,
            stretch: SpringDimen::Dimen(Dimen { sp: 0 }),
            shrink: SpringDimen::Dimen(Dimen { sp: 0 }),
        }
    }

    /// This glue with its natural space replaced by `space`.
    pub open spec fn with_space(self, space: Dimen) -> Glue {
        Glue { space, stretch: self.stretch, shrink: self.shrink }
    }

    /// Rigid glue of the given natural space.
    pub fn from_dimen(space: Dimen) -> (r: Glue)
        ensures
            r == Glue::rigid(space),
    {
        Glue {
            space,
            stretch: SpringDimen::Dimen(Dimen { sp: 0 }),
            shrink: SpringDimen::Dimen(Dimen { sp: 0 }),
        }
    }
}

} // verus!
