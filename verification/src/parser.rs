//! The vertical-list parser over a recorded session.

use vstd::prelude::*;
use vstd::pervasive::unreached;
use crate::dimen::Dimen;
use crate::dispatch::{dispatch, step_for, ParseError, Step};
use crate::glue::Glue;
use crate::list::{depth_after, list_with, VerticalList, VerticalListElem, IGNORE_DEPTH};
use crate::spacing::Spacing;
use crate::tex_box::TexBox;
use crate::token::{Lookahead, Token};

verus! {

/// What the session's own parsers make of the tokens of a segment.
#[derive(Clone, Copy, Debug, PartialEq, Eq, Structural)]
pub enum Material {
    /// Nothing that the list needs.
    Nothing,
    /// The glue that follows a vertical skip.
    Glue(Glue),
    /// The box that horizontal mode builds from here on, with paragraph
    /// indentation and without.
    Paragraph { indented: TexBox, plain: TexBox },
    /// The outcome of a box-construction command, which may be no box.
    Box(Option<TexBox>),
}

/// A stretch of the input that vertical mode handles in one step: the token
/// at its head, as the session reports it, and the material parsed from
/// the stretch.
#[derive(Clone, Copy, Debug, PartialEq, Eq, Structural)]
pub struct Segment {
    pub head: Lookahead,
    pub material: Material,
}

impl Segment {
    /// Whether the segment holds the material that the step for its head
    /// asks for: glue after a vertical skip, a paragraph where horizontal
    /// mode is entered, a box outcome at a box command.
    pub open spec fn fits(self) -> bool {
        match step_for(Some(self.head), 1, true) {
            Ok(Step::VSkip) => self.material is Glue,
            Ok(Step::Paragraph { .. }) => self.material is Paragraph,
            Ok(Step::Box) => self.material is Box,
            _ => true,
        }
    }

    /// Tests whether the segment holds the material that its head asks for.
    pub fn is_fitting(&self) -> (r: bool)
        ensures
            r == self.fits(),
    {
        match dispatch(Some(self.head), 1, true) {
            Ok(Step::VSkip) => match self.material {
                Material::Glue(_) => true,
                _ => false,
            },
            Ok(Step::Paragraph { .. }) => match self.material {
                Material::Paragraph { .. } => true,
                _ => false,
            },
            Ok(Step::Box) => match self.material {
                Material::Box(_) => true,
                _ => false,
            },
            _ => true,
        }
    }
}

/// The glue of a segment that follows a vertical skip.
pub open spec fn glue_of(material: Material) -> Glue {
    match material {
        Material::Glue(g) => g,
        _ => arbitrary(),
    }
}

/// The box that horizontal mode returns for a segment when it is entered
/// with indentation flag `indent`.
pub open spec fn paragraph_of(material: Material, indent: bool) -> TexBox {
    match material {
        Material::Paragraph { indented, plain } => if indent {
            indented
        } else {
            plain
        },
        _ => arbitrary(),
    }
}

/// The outcome of the box command of a segment.
pub open spec fn box_of(material: Material) -> Option<TexBox> {
    match material {
        Material::Box(b) => b,
        _ => None,
    }
}

/// How the search for the next element of a list ends: with an element,
/// with the end of the list (`None`) or with a failure; at which position of
/// the input; and at which group level.
pub struct ElemOutcome {
    pub result: Result<Option<VerticalListElem>, ParseError>,
    pub pos: nat,
    pub group_level: nat,
}

/// The next element of a list read from `input` at position `pos` and group
/// level `group_level`. Segments that contribute nothing are passed over:
/// spaces, paragraph ends, assignments, braces (which change the group
/// level) and box commands without a box.
pub open spec fn next_elem(input: Seq<Segment>, pos: nat, group_level: nat, internal: bool) -> ElemOutcome
    decreases input.len() - pos,
{
    let look = if pos < input.len() {
        Some(input[pos as int].head)
    } else {
        None
    };
    match step_for(look, group_level, internal) {
        Err(e) => ElemOutcome { result: Err(e), pos, group_level },
        Ok(step) => if pos >= input.len() {
            ElemOutcome { result: Ok(None), pos, group_level }
        } else {
            let material = input[pos as int].material;
            match step {
                Step::Finish { consume } => ElemOutcome {
                    result: Ok(None),
                    pos: if consume {
                        pos + 1
                    } else {
                        pos
                    },
                    group_level,
                },
                Step::Skip => next_elem(input, pos + 1, group_level, internal),
                Step::Assignment => next_elem(input, pos + 1, group_level, internal),
                Step::OpenGroup => next_elem(input, pos + 1, group_level + 1, internal),
                Step::CloseGroup => next_elem(
                    input,
                    pos + 1,
                    (group_level - 1) as nat,
                    internal,
                ),
                Step::VSkip => ElemOutcome {
                    result: Ok(Some(VerticalListElem::VSkip(glue_of(material)))),
                    pos: pos + 1,
                    group_level,
                },
                Step::Paragraph { consume: _, indent } => ElemOutcome {
                    result: Ok(Some(VerticalListElem::Box(paragraph_of(material, indent)))),
                    pos: pos + 1,
                    group_level,
                },
                Step::Box => match box_of(material) {
                    Some(b) => ElemOutcome {
                        result: Ok(Some(VerticalListElem::Box(b))),
                        pos: pos + 1,
                        group_level,
                    },
                    None => next_elem(input, pos + 1, group_level, internal),
                },
            }
        },
    }
}

/// How a list ends: with its elements or with a failure; at which position
/// of the input; and at which group level.
pub struct ListOutcome {
    pub result: Result<Seq<VerticalListElem>, ParseError>,
    pub pos: nat,
    pub group_level: nat,
}

/// The rest of a list read from `input` at position `pos` and group level
/// `group_level`, when `list` holds its elements so far and the most recent
/// box had depth `prev_depth`: each further element joins the list as
/// [`list_with`] says, until the list ends or fails. (An element always
/// takes at least one segment, see [`lemma_next_elem_advances`]; the test on
/// the positions only shows that the recursion ends.)
pub open spec fn list_from(
    input: Seq<Segment>,
    pos: nat,
    group_level: nat,
    internal: bool,
    spacing: Spacing,
    list: Seq<VerticalListElem>,
    prev_depth: Dimen,
) -> ListOutcome
    decreases input.len() - pos,
{
    let next = next_elem(input, pos, group_level, internal);
    match next.result {
        Err(e) => ListOutcome { result: Err(e), pos: next.pos, group_level: next.group_level },
        Ok(None) => ListOutcome { result: Ok(list), pos: next.pos, group_level: next.group_level },
        Ok(Some(elem)) => if pos < next.pos <= input.len() {
            list_from(
                input,
                next.pos,
                next.group_level,
                internal,
                spacing,
                list_with(list, spacing, prev_depth, elem),
                depth_after(prev_depth, elem),
            )
        } else {
            ListOutcome { result: Ok(list), pos: next.pos, group_level: next.group_level }
        },
    }
}

/// The vertical list read from `input` at position `pos`: it starts empty,
/// at group level 0 and with the sentinel as previous depth.
pub open spec fn vertical_list(input: Seq<Segment>, pos: nat, internal: bool, spacing: Spacing) -> ListOutcome {
    list_from(
        input,
        pos,
        0,
        internal,
        spacing,
        Seq::<VerticalListElem>::empty(),
        Dimen { sp: IGNORE_DEPTH },
    )
}

/// The search for the next element never moves backwards nor past the end
/// of the input, and an element takes at least one segment.
pub proof fn lemma_next_elem_advances(
    input: Seq<Segment>,
    pos: nat,
    group_level: nat,
    internal: bool,
)
    ensures
        pos <= next_elem(input, pos, group_level, internal).pos,
        next_elem(input, pos, group_level, internal).pos <= input.len() || next_elem(
            input,
            pos,
            group_level,
            internal,
        ).pos == pos,
        next_elem(input, pos, group_level, internal).result matches Ok(Some(_)) ==> pos
            < next_elem(input, pos, group_level, internal).pos <= input.len(),
    decreases input.len() - pos,
{
    if pos < input.len() {
        match step_for(Some(input[pos as int].head), group_level, internal) {
            Ok(Step::Skip) | Ok(Step::Assignment) => {
                lemma_next_elem_advances(input, pos + 1, group_level, internal);
            },
            Ok(Step::OpenGroup) => {
                lemma_next_elem_advances(input, pos + 1, group_level + 1, internal);
            },
            Ok(Step::CloseGroup) => {
                lemma_next_elem_advances(input, pos + 1, (group_level - 1) as nat, internal);
            },
            Ok(Step::Box) => {
                lemma_next_elem_advances(input, pos + 1, group_level, internal);
            },
            _ => {},
        }
    }
}

/// A parser at some position of a recorded session. The session is held as
/// the segments that it presents in order; beyond the last one the input has
/// ended. Every segment holds the material that its head asks for. The parser
/// also counts the scope frames that it has pushed and not yet popped.
pub struct Parser {
    input: Vec<Segment>,
    pos: usize,
    scope_depth: usize,
    spacing: Spacing,
}

impl Parser {
    #[verifier::type_invariant]
    spec fn inv(self) -> bool {
        &&& self.scope_depth <= self.pos <= self.input.len()
        &&& forall|i: int| 0 <= i < self.input.len() ==> (#[trigger] self.input[i]).fits()
    }

    /// The segments of the session, consumed or not.
    pub closed spec fn input(self) -> Seq<Segment> {
        self.input@
    }

    /// How many segments have been consumed.
    pub closed spec fn pos(self) -> nat {
        self.pos as nat
    }

    /// How many scope frames are pushed.
    pub closed spec fn scope_depth(self) -> nat {
        self.scope_depth as nat
    }

    /// The spacing parameters.
    pub closed spec fn spacing(self) -> Spacing {
        self.spacing
    }

    /// A parser at the start of `input` with the given spacing parameters, or
    /// `None` if a segment lacks the material that its head asks for.
    pub fn with_spacing(input: Vec<Segment>, spacing: Spacing) -> (r: Option<Parser>)
        ensures
            r.is_some() <==> forall|i: int| 0 <= i < input@.len() ==> (#[trigger] input@[i]).fits(),
            r matches Some(p) ==> p.input() == input@ && p.pos() == 0 && p.scope_depth() == 0
                && p.spacing() == spacing,
    {
        let mut i: usize = 0;
        while i < input.len()
            invariant
                i <= input.len(),
                forall|j: int| 0 <= j < i ==> (#[trigger] input@[j]).fits(),
            decreases input.len() - i,
        {
            if !input[i].is_fitting() {
                return None;
            }
            i += 1;
        }
        Some(Parser { input, pos: 0, scope_depth: 0, spacing })
    }

    /// A parser at the start of `input` with the plain spacing parameters, or
    /// `None` if a segment lacks the material that its head asks for.
    pub fn new(input: Vec<Segment>) -> (r: Option<Parser>)
        ensures
            r.is_some() <==> forall|i: int| 0 <= i < input@.len() ==> (#[trigger] input@[i]).fits(),
            r matches Some(p) ==> p.input() == input@ && p.pos() == 0 && p.scope_depth() == 0
                && p.spacing().is_plain(),
    {
        Parser::with_spacing(input, Spacing::default())
    }

    /// The number of segments consumed so far.
    pub fn position(&self) -> (r: usize)
        ensures
            r == self.pos(),
    {
        self.pos
    }

    /// The number of scope frames pushed and not yet popped.
    pub fn open_frames(&self) -> (r: usize)
        ensures
            r == self.scope_depth(),
    {
        self.scope_depth
    }

    /// What the session reports of the next token, or `None` at the end of
    /// the input. Nothing is consumed.
    pub fn peek(&self) -> (r: Option<Lookahead>)
        ensures
            r == if self.pos() < self.input().len() {
                Some(self.input()[self.pos() as int].head)
            } else {
                None
            },
    {
        if self.pos < self.input.len() {
            Some(self.input[self.pos].head)
        } else {
            None
        }
    }

    /// The next token, or `None` at the end of the input. Nothing is
    /// consumed.
    pub fn peek_expanded_token(&self) -> (r: Option<Token>)
        ensures
            r == if self.pos() < self.input().len() {
                Some(self.input()[self.pos() as int].head.token)
            } else {
                None
            },
    {
        match self.peek() {
            Some(look) => Some(look.token),
            None => None,
        }
    }

    /// Enters horizontal mode at the segment at the head of the input, with
    /// or without paragraph indentation, and returns the box built there as
    /// an element. The segment is consumed.
    fn handle_enter_horizontal_mode(&mut self, indent: bool) -> (r: VerticalListElem)
        requires
            old(self).pos() < old(self).input().len(),
            old(self).input()[old(self).pos() as int].material is Paragraph,
        ensures
            r == VerticalListElem::Box(
                paragraph_of(old(self).input()[old(self).pos() as int].material, indent),
            ),
            final(self).pos() == old(self).pos() + 1,
            final(self).input() == old(self).input(),
            final(self).scope_depth() == old(self).scope_depth(),
            final(self).spacing() == old(self).spacing(),
    {
        proof {
            use_type_invariant(&*self);
        }
        let material = self.input[self.pos].material;
        self.pos += 1;
        match material {
            Material::Paragraph { indented, plain } => VerticalListElem::Box(
                if indent {
                    indented
                } else {
                    plain
                },
            ),
            _ => unreached(),
        }
    }

    /// Reads on to the next element of the list. Segments that contribute
    /// nothing are consumed on the way; braces change `group_level` and push
    /// or pop a scope frame. Returns the element, or `None` where the list
    /// ends, or the failure.
    pub fn parse_vertical_list_elem(&mut self, group_level: &mut usize, internal: bool) -> (r:
        Result<Option<VerticalListElem>, ParseError>)
        requires
            *old(group_level) <= old(self).scope_depth(),
        ensures
            r == next_elem(
                old(self).input(),
                old(self).pos(),
                *old(group_level) as nat,
                internal,
            ).result,
            final(self).pos() == next_elem(
                old(self).input(),
                old(self).pos(),
                *old(group_level) as nat,
                internal,
            ).pos,
            *final(group_level) == next_elem(
                old(self).input(),
                old(self).pos(),
                *old(group_level) as nat,
                internal,
            ).group_level,
            final(self).scope_depth() - *final(group_level) == old(self).scope_depth() - *old(
                group_level,
            ),
            final(self).input() == old(self).input(),
            final(self).spacing() == old(self).spacing(),
    {
        let ghost goal = next_elem(self.input(), self.pos(), *group_level as nat, internal);
        loop
            invariant
                self.input() == old(self).input(),
                self.spacing() == old(self).spacing(),
                goal == next_elem(
                    old(self).input(),
                    old(self).pos(),
                    *old(group_level) as nat,
                    internal,
                ),
                next_elem(self.input(), self.pos(), *group_level as nat, internal) == goal,
                *group_level <= self.scope_depth(),
                self.scope_depth() - *group_level == old(self).scope_depth() - *old(group_level),
            decreases self.input().len() - self.pos(),
        {
            proof {
                use_type_invariant(&*self);
            }
            let step = match dispatch(self.peek(), *group_level, internal) {
                Ok(step) => step,
                Err(e) => {
                    return Err(e);
                },
            };
            if self.pos >= self.input.len() {
                return Ok(None);
            }
            let material = self.input[self.pos].material;
            match step {
                Step::Finish { consume } => {
                    if consume {
                        self.pos += 1;
                    }
                    return Ok(None);
                },
                Step::Skip => {
                    self.pos += 1;
                },
                Step::Assignment => {
                    self.pos += 1;
                },
                Step::OpenGroup => {
                    self.pos += 1;
                    *group_level += 1;
                    self.scope_depth += 1;
                },
                Step::CloseGroup => {
                    self.pos += 1;
                    *group_level -= 1;
                    self.scope_depth -= 1;
                },
                Step::VSkip => {
                    self.pos += 1;
                    match material {
                        Material::Glue(glue) => {
                            return Ok(Some(VerticalListElem::VSkip(glue)));
                        },
                        _ => {
                            return unreached();
                        },
                    }
                },
                Step::Paragraph { consume: _, indent } => {
                    return Ok(Some(self.handle_enter_horizontal_mode(indent)));
                },
                Step::Box => {
                    self.pos += 1;
                    match material {
                        Material::Box(Some(tex_box)) => {
                            return Ok(Some(VerticalListElem::Box(tex_box)));
                        },
                        _ => {},
                    }
                },
            }
        }
    }

    /// Builds a vertical list from the input at the parser's position: an
    /// internal list, which ends at the end of the input or before a closing
    /// brace that matches no brace of its own, or a top-level list, which
    /// ends after `\end`. Each box joins the list after its interline glue.
    /// The parser is left where the list ended or failed, so that a further
    /// call reads on from there.
    pub fn parse_vertical_list(&mut self, internal: bool) -> (r: Result<
        Vec<VerticalListElem>,
        ParseError,
    >)
        ensures
            match r {
                Ok(v) => vertical_list(
                    old(self).input(),
                    old(self).pos(),
                    internal,
                    old(self).spacing(),
                ).result == Ok::<Seq<VerticalListElem>, ParseError>(v@),
                Err(e) => vertical_list(
                    old(self).input(),
                    old(self).pos(),
                    internal,
                    old(self).spacing(),
                ).result == Err::<Seq<VerticalListElem>, ParseError>(e),
            },
            final(self).pos() == vertical_list(
                old(self).input(),
                old(self).pos(),
                internal,
                old(self).spacing(),
            ).pos,
            final(self).scope_depth() == old(self).scope_depth() + vertical_list(
                old(self).input(),
                old(self).pos(),
                internal,
                old(self).spacing(),
            ).group_level,
            final(self).input() == old(self).input(),
            final(self).spacing() == old(self).spacing(),
    {
        let mut list = VerticalList::new(self.spacing);
        let mut group_level: usize = 0;
        let ghost goal = vertical_list(self.input(), self.pos(), internal, self.spacing());
        loop
            invariant
                self.input() == old(self).input(),
                self.spacing() == old(self).spacing(),
                list.spacing() == self.spacing(),
                group_level <= self.scope_depth(),
                self.scope_depth() - group_level == old(self).scope_depth(),
                goal == vertical_list(
                    old(self).input(),
                    old(self).pos(),
                    internal,
                    old(self).spacing(),
                ),
                list_from(
                    self.input(),
                    self.pos(),
                    group_level as nat,
                    internal,
                    self.spacing(),
                    list@,
                    list.prev_depth(),
                ) == goal,
            decreases self.input().len() - self.pos(),
        {
            proof {
                use_type_invariant(&*self);
                lemma_next_elem_advances(self.input(), self.pos(), group_level as nat, internal);
            }
            match self.parse_vertical_list_elem(&mut group_level, internal) {
                Err(e) => {
                    return Err(e);
                },
                Ok(None) => {
                    return Ok(list.into_elems());
                },
                Ok(Some(elem)) => {
                    list.append(elem);
                },
            }
        }
    }
}

} // verus!
