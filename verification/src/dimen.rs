//! Lengths in scaled points.

use vstd::prelude::*;

verus! {

/// Scaled points in one point.
pub const SP_PER_POINT: i64 = 65536;

/// The largest magnitude, in scaled points, that a box dimension or the
/// natural space of the baseline skip may have.
pub const MAX_DIMEN: i64 = 1073741823;

/// A length, held as a whole number of scaled points.
#[derive(Clone, Copy, Debug, PartialEq, Eq, Structural)]
pub struct Dimen {
    pub sp: i64,
}

impl Dimen {
    /// The length as a mathematical integer of scaled points.
    pub open spec fn value(self) -> int {
        self.sp as int
    }

    /// Whether the length lies within `-MAX_DIMEN ..= MAX_DIMEN`.
    pub open spec fn in_range(self) -> bool {
        -MAX_DIMEN <= self.sp <= MAX_DIMEN
    }

    /// The zero length.
    pub fn zero() -> (r: Dimen)
        ensures
            r.value() == 0,
    {
        Dimen { sp: 0 }
    }

    /// The length of `sp` scaled points.
    pub fn from_scaled_points(sp: i64) -> (r: Dimen)
        ensures
            r.value() == sp,
    {
        Dimen { sp }
    }

    /// The length of `points` whole points.
    pub fn from_points(points: i32) -> (r: Dimen)
        ensures
            r.value() == points * SP_PER_POINT,
    {
        let wide: i64 = points as i64;
        Dimen { sp: wide * SP_PER_POINT }
    }

    /// Tests `-MAX_DIMEN <= self <= MAX_DIMEN`.
    pub fn is_in_range(&self) -> (r: bool)
        ensures
            r == self.in_range(),
    {
        -MAX_DIMEN <= self.sp && self.sp <= MAX_DIMEN
    }
}

} // verus!
