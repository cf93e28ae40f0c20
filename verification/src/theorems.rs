//! What holds of every vertical list, proved from the definitions.

use vstd::prelude::*;
use crate::dimen::Dimen;
use crate::dispatch::{horizontal_mode_head, step_for, ParseError, Step};
use crate::glue::Glue;
use crate::list::{depth_after, interline_glue, list_with, VerticalListElem, IGNORE_DEPTH};
use crate::parser::{
    glue_of, lemma_next_elem_advances, list_from, next_elem, paragraph_of, vertical_list,
    ElemOutcome, ListOutcome, Segment,
};
use crate::spacing::Spacing;
use crate::tex_box::TexBox;
use crate::token::{Category, Primitive, Token};

verus! {

/// While the previous depth is the sentinel, a box joins the list without
/// any glue before it.
pub proof fn no_glue_after_sentinel(list: Seq<VerticalListElem>, spacing: Spacing, tex_box: TexBox)
    ensures
        list_with(list, spacing, Dimen { sp: IGNORE_DEPTH }, VerticalListElem::Box(tex_box))
            == list.push(VerticalListElem::Box(tex_box)),
{
}

/// Between boxes in range the interline glue is exact: with `natural` the
/// baseline skip's space less the new box's height and the previous depth,
/// it is the line skip, elasticity and all, where `natural` is below the
/// line skip limit, and else the baseline skip with `natural` as its space.
/// The previous depth must not be the sentinel.
pub proof fn interline_glue_between_boxes(spacing: Spacing, prev_depth: Dimen, height: Dimen)
    requires
        spacing.wf(),
        prev_depth.in_range(),
        height.in_range(),
        prev_depth.sp != IGNORE_DEPTH,
    ensures
        interline_glue(spacing, prev_depth, height) matches Some(g) && if spacing.spec_baselineskip().space.value()
            - (height.value() + prev_depth.value()) < spacing.spec_lineskiplimit().value() {
            g == spacing.spec_lineskip()
        } else {
            &&& g.space.value() == spacing.spec_baselineskip().space.value() - (height.value()
                + prev_depth.value())
            &&& g.stretch == spacing.spec_baselineskip().stretch
            &&& g.shrink == spacing.spec_baselineskip().shrink
        },
{
}

/// Under the plain settings the glue between two boxes is rigid. Where the
/// second box's height and the first box's depth together are at most 12pt,
/// its space is 12pt less both; else it is the line skip of 1pt. The first
/// box's depth must not be the sentinel.
pub proof fn plain_interline_glue(spacing: Spacing, first: TexBox, second: TexBox)
    requires
        spacing.is_plain(),
        first.wf(),
        second.wf(),
        first.spec_depth().sp != IGNORE_DEPTH,
    ensures
        interline_glue(spacing, first.spec_depth(), second.spec_height()) matches Some(g) && g
            == Glue::rigid(g.space) && g.space.value() == if 786432 - (
        second.spec_height().value() + first.spec_depth().value()) >= 0 {
            786432 - second.spec_height().value() - first.spec_depth().value()
        } else {
            65536
        },
        list_with(
            seq![VerticalListElem::Box(first)],
            spacing,
            first.spec_depth(),
            VerticalListElem::Box(second),
        ) == seq![
            VerticalListElem::Box(first),
            VerticalListElem::VSkip(
                interline_glue(spacing, first.spec_depth(), second.spec_height())->Some_0,
            ),
            VerticalListElem::Box(second),
        ],
{
}

/// A letter, another printable character or the horizontal-skip primitive
/// at the head of the input opens a paragraph with indentation: the next
/// element is the indented box that horizontal mode builds there.
pub proof fn horizontal_material_opens_indented_paragraph(
    input: Seq<Segment>,
    pos: nat,
    group_level: nat,
    internal: bool,
)
    requires
        pos < input.len(),
        horizontal_mode_head(input[pos as int].head),
    ensures
        step_for(Some(input[pos as int].head), group_level, internal) == Ok::<Step, ParseError>(
            Step::Paragraph { consume: false, indent: true },
        ),
        next_elem(input, pos, group_level, internal) == (ElemOutcome {
            result: Ok(
                Some(VerticalListElem::Box(paragraph_of(input[pos as int].material, true))),
            ),
            pos: pos + 1,
            group_level,
        }),
{
}

/// A control sequence that means `\indent` or `\noindent`, and starts no
/// assignment, is consumed and opens a paragraph with indentation or
/// without it, as the primitive says.
pub proof fn indent_primitive_chooses_indentation(
    input: Seq<Segment>,
    pos: nat,
    group_level: nat,
    internal: bool,
)
    requires
        pos < input.len(),
        input[pos as int].head.token is ControlSequence,
        !input[pos as int].head.assignment_head,
        input[pos as int].head.means(Primitive::Indent) || input[pos as int].head.means(
            Primitive::NoIndent,
        ),
    ensures
        step_for(Some(input[pos as int].head), group_level, internal) == Ok::<Step, ParseError>(
            Step::Paragraph {
                consume: true,
                indent: input[pos as int].head.means(Primitive::Indent),
            },
        ),
        next_elem(input, pos, group_level, internal) == (ElemOutcome {
            result: Ok(
                Some(
                    VerticalListElem::Box(
                        paragraph_of(
                            input[pos as int].material,
                            input[pos as int].head.means(Primitive::Indent),
                        ),
                    ),
                ),
            ),
            pos: pos + 1,
            group_level,
        }),
{
}

/// An internal list ends before a closing brace that matches no brace of
/// its own: the list so far is returned and the brace is not consumed.
pub proof fn unmatched_close_group_ends_internal_list(
    input: Seq<Segment>,
    pos: nat,
    spacing: Spacing,
    list: Seq<VerticalListElem>,
    prev_depth: Dimen,
)
    requires
        pos < input.len(),
        input[pos as int].head.token matches Token::Char(_, Category::EndGroup),
        !input[pos as int].head.means(Primitive::HSkip),
    ensures
        list_from(input, pos, 0, true, spacing, list, prev_depth) == (ListOutcome {
            result: Ok(list),
            pos,
            group_level: 0,
        }),
{
}

/// A top-level list fails at a closing brace that matches no brace of its
/// own.
pub proof fn unmatched_close_group_fails_top_level_list(
    input: Seq<Segment>,
    pos: nat,
    spacing: Spacing,
    list: Seq<VerticalListElem>,
    prev_depth: Dimen,
)
    requires
        pos < input.len(),
        input[pos as int].head.token matches Token::Char(_, Category::EndGroup),
        !input[pos as int].head.means(Primitive::HSkip),
    ensures
        list_from(input, pos, 0, false, spacing, list, prev_depth) == (ListOutcome {
            result: Err(ParseError::TooManyCloseGroups),
            pos,
            group_level: 0,
        }),
{
}

/// A control sequence that means `\end` is fatal to an internal list, with
/// a message of its own, at whatever group level it stands.
pub proof fn end_fails_internal_list(
    input: Seq<Segment>,
    pos: nat,
    group_level: nat,
    spacing: Spacing,
    list: Seq<VerticalListElem>,
    prev_depth: Dimen,
)
    requires
        pos < input.len(),
        input[pos as int].head.token is ControlSequence,
        input[pos as int].head.means(Primitive::End),
    ensures
        list_from(input, pos, group_level, true, spacing, list, prev_depth) == (ListOutcome {
            result: Err(ParseError::EndInInternalMode),
            pos,
            group_level,
        }),
        ParseError::EndInInternalMode.text() == "You can't use \\end in internal vertical mode"@,
{
}

/// A control sequence that means `\end` completes a top-level list: it is
/// consumed, and what follows it is not.
pub proof fn end_completes_top_level_list(
    input: Seq<Segment>,
    pos: nat,
    group_level: nat,
    spacing: Spacing,
    list: Seq<VerticalListElem>,
    prev_depth: Dimen,
)
    requires
        pos < input.len(),
        input[pos as int].head.token is ControlSequence,
        input[pos as int].head.means(Primitive::End),
    ensures
        list_from(input, pos, group_level, false, spacing, list, prev_depth) == (ListOutcome {
            result: Ok(list),
            pos: pos + 1,
            group_level,
        }),
{
}

/// At the end of the input a top-level list fails and an internal list is
/// complete.
pub proof fn end_of_input(
    input: Seq<Segment>,
    pos: nat,
    group_level: nat,
    internal: bool,
    spacing: Spacing,
    list: Seq<VerticalListElem>,
    prev_depth: Dimen,
)
    requires
        pos >= input.len(),
    ensures
        list_from(input, pos, group_level, internal, spacing, list, prev_depth) == (ListOutcome {
            result: if internal {
                Ok(list)
            } else {
                Err(ParseError::UnexpectedEndOfInput)
            },
            pos,
            group_level,
        }),
{
}

/// A list only grows: whatever it held stays at its front, in order.
pub proof fn list_keeps_its_front(
    input: Seq<Segment>,
    pos: nat,
    group_level: nat,
    internal: bool,
    spacing: Spacing,
    list: Seq<VerticalListElem>,
    prev_depth: Dimen,
)
    ensures
        list_from(input, pos, group_level, internal, spacing, list, prev_depth).result matches Ok(
            l,
        ) ==> list.len() <= l.len() && l.subrange(0, list.len() as int) == list,
    decreases input.len() - pos,
{
    let next = next_elem(input, pos, group_level, internal);
    lemma_next_elem_advances(input, pos, group_level, internal);
    if let Ok(Some(elem)) = next.result {
        let grown = list_with(list, spacing, prev_depth, elem);
        list_keeps_its_front(
            input,
            next.pos,
            next.group_level,
            internal,
            spacing,
            grown,
            depth_after(prev_depth, elem),
        );
        let out = list_from(input, pos, group_level, internal, spacing, list, prev_depth);
        if let Ok(l) = out.result {
            assert(l.subrange(0, list.len() as int) == l.subrange(
                0,
                grown.len() as int,
            ).subrange(0, list.len() as int));
        }
    }
}

/// No glue stands before the first box of a list: where the first element
/// read is a box, the list begins with that box.
pub proof fn first_box_has_no_glue(
    input: Seq<Segment>,
    pos: nat,
    internal: bool,
    spacing: Spacing,
    tex_box: TexBox,
)
    requires
        next_elem(input, pos, 0, internal).result == Ok::<Option<VerticalListElem>, ParseError>(
            Some(VerticalListElem::Box(tex_box)),
        ),
    ensures
        vertical_list(input, pos, internal, spacing).result matches Ok(l) ==> l.len() >= 1 && l[0]
            == VerticalListElem::Box(tex_box),
{
    let next = next_elem(input, pos, 0, internal);
    lemma_next_elem_advances(input, pos, 0, internal);
    let elem = VerticalListElem::Box(tex_box);
    let sentinel = Dimen { sp: IGNORE_DEPTH };
    let first = list_with(Seq::<VerticalListElem>::empty(), spacing, sentinel, elem);
    list_keeps_its_front(
        input,
        next.pos,
        next.group_level,
        internal,
        spacing,
        first,
        depth_after(sentinel, elem),
    );
    if let Ok(l) = vertical_list(input, pos, internal, spacing).result {
        assert(l.subrange(0, 1)[0] == l[0]);
    }
}

/// Whether the segment is an explicit vertical skip: a control sequence
/// that means `\vskip`, with the glue parsed after it.
pub open spec fn is_skip(segment: Segment) -> bool {
    &&& segment.head.token is ControlSequence
    &&& segment.head.means(Primitive::VSkip)
    &&& segment.material is Glue
}

/// Whether the segment is a space.
pub open spec fn is_space(segment: Segment) -> bool {
    &&& segment.head.token matches Token::Char(_, Category::Space)
    &&& !segment.head.means(Primitive::HSkip)
}

/// The glue of each explicit vertical skip among `segments`, in order, each
/// as a list element.
pub open spec fn skips(segments: Seq<Segment>) -> Seq<VerticalListElem> {
    segments.filter(|s: Segment| is_skip(s)).map_values(
        |s: Segment| VerticalListElem::VSkip(glue_of(s.material)),
    )
}

proof fn lemma_skips_step(input: Seq<Segment>, i: int)
    requires
        0 <= i < input.len(),
    ensures
        skips(input.take(i + 1)) == if is_skip(input[i]) {
            skips(input.take(i)).push(VerticalListElem::VSkip(glue_of(input[i].material)))
        } else {
            skips(input.take(i))
        },
{
    reveal_with_fuel(Seq::filter, 2);
    let longer = input.take(i + 1);
    assert(longer.drop_last() == input.take(i));
    if is_skip(input[i]) {
        assert(skips(longer) =~= skips(input.take(i)).push(
            VerticalListElem::VSkip(glue_of(input[i].material)),
        ));
    }
}

proof fn lemma_next_skip(input: Seq<Segment>, pos: nat)
    requires
        pos <= input.len(),
        forall|i: int| 0 <= i < input.len() ==> is_skip(#[trigger] input[i]) || is_space(input[i]),
    ensures
        next_elem(input, pos, 0, true).group_level == 0,
        match next_elem(input, pos, 0, true).result {
            Ok(None) => next_elem(input, pos, 0, true).pos == input.len() && skips(input) == skips(
                input.take(pos as int),
            ),
            Ok(Some(elem)) => elem is VSkip && pos < next_elem(input, pos, 0, true).pos
                <= input.len() && skips(input.take(next_elem(input, pos, 0, true).pos as int))
                == skips(input.take(pos as int)).push(elem),
            Err(_) => false,
        },
    decreases input.len() - pos,
{
    if pos < input.len() {
        lemma_skips_step(input, pos as int);
        if !is_skip(input[pos as int]) {
            lemma_next_skip(input, pos + 1);
        }
    } else {
        assert(input.take(pos as int) == input);
    }
}

proof fn lemma_skips_from(
    input: Seq<Segment>,
    pos: nat,
    spacing: Spacing,
    prev_depth: Dimen,
)
    requires
        pos <= input.len(),
        forall|i: int| 0 <= i < input.len() ==> is_skip(#[trigger] input[i]) || is_space(input[i]),
    ensures
        list_from(input, pos, 0, true, spacing, skips(input.take(pos as int)), prev_depth) == (
        ListOutcome { result: Ok(skips(input)), pos: input.len() as nat, group_level: 0 }),
    decreases input.len() - pos,
{
    let next = next_elem(input, pos, 0, true);
    lemma_next_skip(input, pos);
    if let Ok(Some(elem)) = next.result {
        lemma_skips_from(input, next.pos, spacing, depth_after(prev_depth, elem));
    }
}

/// Of an input that holds nothing but explicit vertical skips and spaces,
/// the internal list is the glue of the skips, one element each and in
/// their order; the spaces leave no trace. The whole input is consumed.
pub proof fn skips_give_their_glue_in_order(input: Seq<Segment>, spacing: Spacing)
    requires
        forall|i: int| 0 <= i < input.len() ==> is_skip(#[trigger] input[i]) || is_space(input[i]),
    ensures
        vertical_list(input, 0, true, spacing) == (ListOutcome {
            result: Ok(skips(input)),
            pos: input.len() as nat,
            group_level: 0,
        }),
{
    assert(skips(input.take(0)) =~= Seq::<VerticalListElem>::empty()) by {
        reveal_with_fuel(Seq::filter, 1);
    }
    lemma_skips_from(input, 0, spacing, Dimen { sp: IGNORE_DEPTH });
}

proof fn lemma_no_end_no_finish(input: Seq<Segment>, pos: nat, group_level: nat)
    requires
        forall|i: int| pos <= i < input.len() ==> !(#[trigger] input[i]).head.means(Primitive::End),
    ensures
        !(next_elem(input, pos, group_level, false).result matches Ok(None)),
    decreases input.len() - pos,
{
    if pos < input.len() {
        match step_for(Some(input[pos as int].head), group_level, false) {
            Ok(Step::Skip) | Ok(Step::Assignment) | Ok(Step::Box) => {
                lemma_no_end_no_finish(input, pos + 1, group_level);
            },
            Ok(Step::OpenGroup) => {
                lemma_no_end_no_finish(input, pos + 1, group_level + 1);
            },
            Ok(Step::CloseGroup) => {
                lemma_no_end_no_finish(input, pos + 1, (group_level - 1) as nat);
            },
            _ => {},
        }
    }
}

/// A top-level list needs its terminator: where no token of the remaining
/// input means `\end`, the list fails.
pub proof fn top_level_list_needs_end(
    input: Seq<Segment>,
    pos: nat,
    group_level: nat,
    spacing: Spacing,
    list: Seq<VerticalListElem>,
    prev_depth: Dimen,
)
    requires
        forall|i: int| pos <= i < input.len() ==> !(#[trigger] input[i]).head.means(Primitive::End),
    ensures
        list_from(input, pos, group_level, false, spacing, list, prev_depth).result is Err,
    decreases input.len() - pos,
{
    let next = next_elem(input, pos, group_level, false);
    lemma_no_end_no_finish(input, pos, group_level);
    lemma_next_elem_advances(input, pos, group_level, false);
    if let Ok(Some(elem)) = next.result {
        top_level_list_needs_end(
            input,
            next.pos,
            next.group_level,
            spacing,
            list_with(list, spacing, prev_depth, elem),
            depth_after(prev_depth, elem),
        );
    }
}

/// Whether two neighbours of a list may stand side by side: always, unless
/// both are boxes and the first one's depth is not the sentinel.
pub open spec fn may_be_neighbours(first: VerticalListElem, second: VerticalListElem) -> bool {
    match (first, second) {
        (VerticalListElem::Box(b), VerticalListElem::Box(_)) => b.spec_depth().sp == IGNORE_DEPTH,
        _ => true,
    }
}

/// Whether all neighbours in `list` may stand side by side, and `prev_depth`
/// is the depth of its last box where it ends in one.
pub open spec fn boxes_are_spaced(list: Seq<VerticalListElem>, prev_depth: Dimen) -> bool {
    &&& forall|i: int|
        0 <= i < list.len() - 1 ==> may_be_neighbours(#[trigger] list[i], list[i + 1])
    &&& list.len() > 0 ==> (list.last() matches VerticalListElem::Box(b) ==> prev_depth
        == b.spec_depth())
}

proof fn lemma_list_with_keeps_boxes_spaced(
    list: Seq<VerticalListElem>,
    spacing: Spacing,
    prev_depth: Dimen,
    elem: VerticalListElem,
)
    requires
        boxes_are_spaced(list, prev_depth),
    ensures
        boxes_are_spaced(list_with(list, spacing, prev_depth, elem), depth_after(prev_depth, elem)),
{
    let grown = list_with(list, spacing, prev_depth, elem);
    assert forall|i: int| 0 <= i < grown.len() - 1 implies may_be_neighbours(
        #[trigger] grown[i],
        grown[i + 1],
    ) by {
        if i < list.len() - 1 {
            assert(grown[i] == list[i] && grown[i + 1] == list[i + 1]);
        }
    }
}

/// Between any two boxes of a list stands glue, unless the first one's depth
/// is the sentinel: two boxes side by side occur in no other case. This
/// holds of a list that starts empty, and of one continued from a list of
/// which it held.
pub proof fn boxes_are_kept_apart(
    input: Seq<Segment>,
    pos: nat,
    group_level: nat,
    internal: bool,
    spacing: Spacing,
    list: Seq<VerticalListElem>,
    prev_depth: Dimen,
)
    requires
        boxes_are_spaced(list, prev_depth),
    ensures
        list_from(input, pos, group_level, internal, spacing, list, prev_depth).result matches Ok(
            l,
        ) ==> forall|i: int|
            0 <= i < l.len() - 1 ==> may_be_neighbours(#[trigger] l[i], l[i + 1]),
    decreases input.len() - pos,
{
    let next = next_elem(input, pos, group_level, internal);
    lemma_next_elem_advances(input, pos, group_level, internal);
    if let Ok(Some(elem)) = next.result {
        lemma_list_with_keeps_boxes_spaced(list, spacing, prev_depth, elem);
        boxes_are_kept_apart(
            input,
            next.pos,
            next.group_level,
            internal,
            spacing,
            list_with(list, spacing, prev_depth, elem),
            depth_after(prev_depth, elem),
        );
    }
}

/// Whether position `pos` and group level `group_level` are such as a list
/// may end at: an internal one at the end of the input or, at group level 0,
/// before a closing brace; a top-level one right after a token that means
/// `\end`.
pub open spec fn ends_in_order(
    input: Seq<Segment>,
    internal: bool,
    pos: nat,
    group_level: nat,
) -> bool {
    if internal {
        ||| pos >= input.len()
        ||| pos < input.len() && group_level == 0 && input[pos as int].head.token matches Token::Char(
            _,
            Category::EndGroup,
        )
    } else {
        0 < pos <= input.len() && input[pos - 1].head.means(Primitive::End)
    }
}

proof fn lemma_next_elem_ends_in_order(
    input: Seq<Segment>,
    pos: nat,
    group_level: nat,
    internal: bool,
)
    ensures
        next_elem(input, pos, group_level, internal).result matches Ok(None) ==> ends_in_order(
            input,
            internal,
            next_elem(input, pos, group_level, internal).pos,
            next_elem(input, pos, group_level, internal).group_level,
        ),
    decreases input.len() - pos,
{
    if pos < input.len() {
        match step_for(Some(input[pos as int].head), group_level, internal) {
            Ok(Step::Skip) | Ok(Step::Assignment) | Ok(Step::Box) => {
                lemma_next_elem_ends_in_order(input, pos + 1, group_level, internal);
            },
            Ok(Step::OpenGroup) => {
                lemma_next_elem_ends_in_order(input, pos + 1, group_level + 1, internal);
            },
            Ok(Step::CloseGroup) => {
                lemma_next_elem_ends_in_order(input, pos + 1, (group_level - 1) as nat, internal);
            },
            _ => {},
        }
    }
}

/// A list is complete only where it may end: an internal one at the end of
/// the input or before a closing brace that matches none of its own; a
/// top-level one right after `\end`.
pub proof fn lists_end_in_order(
    input: Seq<Segment>,
    pos: nat,
    group_level: nat,
    internal: bool,
    spacing: Spacing,
    list: Seq<VerticalListElem>,
    prev_depth: Dimen,
)
    ensures
        list_from(input, pos, group_level, internal, spacing, list, prev_depth).result is Ok
            ==> ends_in_order(
            input,
            internal,
            list_from(input, pos, group_level, internal, spacing, list, prev_depth).pos,
            list_from(input, pos, group_level, internal, spacing, list, prev_depth).group_level,
        ),
    decreases input.len() - pos,
{
    let next = next_elem(input, pos, group_level, internal);
    lemma_next_elem_ends_in_order(input, pos, group_level, internal);
    lemma_next_elem_advances(input, pos, group_level, internal);
    if let Ok(Some(elem)) = next.result {
        lists_end_in_order(
            input,
            next.pos,
            next.group_level,
            internal,
            spacing,
            list_with(list, spacing, prev_depth, elem),
            depth_after(prev_depth, elem),
        );
    }
}

} // verus!
