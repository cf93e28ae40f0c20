//! The vertical list and the glue that goes between its boxes.

use vstd::prelude::*;
use crate::dimen::Dimen;
use crate::glue::Glue;
use crate::spacing::Spacing;
use crate::tex_box::TexBox;

verus! {

/// The depth, in scaled points, that stands for "no box yet": -1000pt. While
/// the previous depth has this value no interline glue is inserted.
pub const IGNORE_DEPTH: i64 = -65536000;

/// One element of a vertical list.
#[derive(Clone, Copy, Debug, PartialEq, Eq, Structural)]
pub enum VerticalListElem {
    Box(TexBox),
    VSkip(Glue),
}

/// The glue that goes before a box of height `height` when the box before it
/// had depth `prev_depth`: none while `prev_depth` is the sentinel; else the
/// baseline skip less `height + prev_depth`, unless its natural space would
/// fall below the line skip limit, in which case the line skip as it is.
pub open spec fn interline_glue(spacing: Spacing, prev_depth: Dimen, height: Dimen) -> Option<
    Glue,
> {
    let natural = spacing.spec_baselineskip().space.value() - (height.value()
        + prev_depth.value());
    if prev_depth.sp == IGNORE_DEPTH {
        None
    } else if natural < spacing.spec_lineskiplimit().value() {
        Some(spacing.spec_lineskip())
    } else {
        Some(spacing.spec_baselineskip().with_space(Dimen { sp: natural as i64 }))
    }
}

/// The list `list` after `elem` has joined it: a skip is appended as it is, a
/// box after its interline glue, if any.
pub open spec fn list_with(
    list: Seq<VerticalListElem>,
    spacing: Spacing,
    prev_depth: Dimen,
    elem: VerticalListElem,
) -> Seq<VerticalListElem> {
    match elem {
        VerticalListElem::VSkip(_) => list.push(elem),
        VerticalListElem::Box(b) => match interline_glue(spacing, prev_depth, b.spec_height()) {
            Some(g) => list.push(VerticalListElem::VSkip(g)).push(elem),
            None => list.push(elem),
        },
    }
}

/// The previous depth after `elem` has joined a list: that of the box, or
/// the old one after a skip.
pub open spec fn depth_after(prev_depth: Dimen, elem: VerticalListElem) -> Dimen {
    match elem {
        VerticalListElem::VSkip(_) => prev_depth,
        VerticalListElem::Box(b) => b.spec_depth(),
    }
}

/// A vertical list under construction: the elements so far, the most recent
/// box and the spacing parameters.
pub struct VerticalList {
    elems: Vec<VerticalListElem>,
    last_box: Option<TexBox>,
    spacing: Spacing,
}

impl View for VerticalList {
    type V = Seq<VerticalListElem>;

    closed spec fn view(&self) -> Seq<VerticalListElem> {
        self.elems@
    }
}

impl VerticalList {
    /// The depth of the most recent box, or the sentinel where there is
    /// none yet.
    pub closed spec fn prev_depth(self) -> Dimen {
        match self.last_box {
            Some(b) => b.spec_depth(),
            None => Dimen { sp: IGNORE_DEPTH },
        }
    }

    /// The spacing parameters.
    pub closed spec fn spacing(self) -> Spacing {
        self.spacing
    }

    /// An empty list whose previous depth is the sentinel.
    pub fn new(spacing: Spacing) -> (r: VerticalList)
        ensures
            r@ == Seq::<VerticalListElem>::empty(),
            r.prev_depth().sp == IGNORE_DEPTH,
            r.spacing() == spacing,
    {
        VerticalList { elems: Vec::new(), last_box: None, spacing }
    }

    /// The glue to insert before `tex_box`, if any.
    pub fn interline_glue(&self, tex_box: &TexBox) -> (r: Option<Glue>)
        ensures
            r == interline_glue(self.spacing(), self.prev_depth(), tex_box.spec_height()),
    {
        let prev_depth = match self.last_box {
            Some(b) => b.depth(),
            None => Dimen { sp: IGNORE_DEPTH },
        };
        if prev_depth.sp == IGNORE_DEPTH {
            None
        } else {
            let baselineskip = self.spacing.baselineskip();
            let height = tex_box.height();
            let natural: i64 = baselineskip.space.sp - (height.sp + prev_depth.sp);
            if natural < self.spacing.lineskiplimit().sp {
                Some(self.spacing.lineskip())
            } else {
                Some(
                    Glue {
                        space: Dimen { sp: natural },
                        stretch: baselineskip.stretch,
                        shrink: baselineskip.shrink,
                    },
                )
            }
        }
    }

    /// Appends `elem`, a box after its interline glue, and records a box's
    /// depth as the previous depth.
    pub fn append(&mut self, elem: VerticalListElem)
        ensures
            final(self)@ == list_with(old(self)@, old(self).spacing(), old(self).prev_depth(), elem),
            final(self).prev_depth() == depth_after(old(self).prev_depth(), elem),
            final(self).spacing() == old(self).spacing(),
    {
        if let VerticalListElem::Box(tex_box) = elem {
            if let Some(glue) = self.interline_glue(&tex_box) {
                self.elems.push(VerticalListElem::VSkip(glue));
            }
            self.last_box = Some(tex_box);
        }
        self.elems.push(elem);
    }

    /// The elements, in order.
    pub fn into_elems(self) -> (r: Vec<VerticalListElem>)
        ensures
            r@ == self@,
    {
        self.elems
    }
}

} // verus!
