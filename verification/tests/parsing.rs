//! The parser over hand-made sessions.

use vertical_mode::dimen::Dimen;
use vertical_mode::dispatch::ParseError;
use vertical_mode::glue::Glue;
use vertical_mode::list::VerticalListElem;
use vertical_mode::parser::{Material, Parser, Segment};
use vertical_mode::spacing::Spacing;
use vertical_mode::tex_box::TexBox;
use vertical_mode::token::{Category, Lookahead, Primitive, Token};

fn pt(points: i32) -> Dimen {
    Dimen::from_points(points)
}

fn tex_box(height: i32, depth: i32, width: i32) -> TexBox {
    TexBox::new(pt(height), pt(depth), pt(width)).unwrap()
}

fn plain(token: Token, prim: Option<Primitive>) -> Segment {
    Segment {
        head: Lookahead { token, prim, assignment_head: false, box_head: false },
        material: Material::Nothing,
    }
}

fn space() -> Segment {
    plain(Token::Char(' ', Category::Space), None)
}

fn open() -> Segment {
    plain(Token::Char('{', Category::BeginGroup), None)
}

fn close() -> Segment {
    plain(Token::Char('}', Category::EndGroup), None)
}

fn end() -> Segment {
    plain(Token::ControlSequence(0), Some(Primitive::End))
}

fn par() -> Segment {
    plain(Token::ControlSequence(1), Some(Primitive::Par))
}

fn unknown() -> Segment {
    plain(Token::ControlSequence(99), None)
}

fn vskip(points: i32) -> Segment {
    let mut segment = plain(Token::ControlSequence(2), Some(Primitive::VSkip));
    segment.material = Material::Glue(Glue::from_dimen(pt(points)));
    segment
}

fn assignment() -> Segment {
    let mut segment = plain(Token::ControlSequence(3), None);
    segment.head.assignment_head = true;
    segment
}

fn box_command(outcome: Option<TexBox>) -> Segment {
    let mut segment = plain(Token::ControlSequence(4), None);
    segment.head.box_head = true;
    segment.material = Material::Box(outcome);
    segment
}

fn paragraph(token: Token, prim: Option<Primitive>, indented: TexBox, plain_box: TexBox) -> Segment {
    let mut segment = plain(token, prim);
    segment.material = Material::Paragraph { indented, plain: plain_box };
    segment
}

fn skip(points: i32) -> VerticalListElem {
    VerticalListElem::VSkip(Glue::from_dimen(pt(points)))
}

fn parser(input: &[Segment]) -> Parser {
    Parser::new(input.to_vec()).unwrap()
}

#[test]
fn an_empty_input_gives_an_empty_internal_list() {
    let mut p = parser(&[]);
    assert_eq!(p.peek(), None);
    assert_eq!(p.peek_expanded_token(), None);
    assert_eq!(p.parse_vertical_list(true), Ok(vec![]));
    assert_eq!(p.position(), 0);
    assert_eq!(p.open_frames(), 0);
}

#[test]
fn an_empty_input_fails_a_top_level_list() {
    let mut p = parser(&[]);
    assert_eq!(p.parse_vertical_list(false), Err(ParseError::UnexpectedEndOfInput));
    assert_eq!(p.position(), 0);
}

#[test]
fn skips_come_out_in_order_and_spaces_leave_no_trace() {
    let input = [space(), vskip(1), space(), space(), vskip(2), vskip(3), space()];
    let mut p = parser(&input);
    assert_eq!(p.parse_vertical_list(true), Ok(vec![skip(1), skip(2), skip(3)]));
    assert_eq!(p.position(), 7);
}

#[test]
fn a_segment_without_its_material_is_refused() {
    let mut no_glue = vskip(1);
    no_glue.material = Material::Nothing;
    assert!(Parser::new(vec![space(), no_glue]).is_none());

    let letter = plain(Token::Char('a', Category::Letter), None);
    assert!(Parser::new(vec![letter]).is_none());

    let hskip = plain(Token::ControlSequence(5), Some(Primitive::HSkip));
    assert!(Parser::new(vec![hskip]).is_none());

    let indent = plain(Token::ControlSequence(6), Some(Primitive::Indent));
    assert!(Parser::new(vec![indent]).is_none());

    let mut no_box = box_command(None);
    no_box.material = Material::Glue(Glue::from_dimen(pt(1)));
    assert!(Parser::new(vec![no_box, space()]).is_none());

    assert!(Parser::with_spacing(vec![space(), no_glue], Spacing::default()).is_none());
}

#[test]
fn material_that_is_not_asked_for_is_ignored() {
    let mut odd_space = space();
    odd_space.material = Material::Glue(Glue::from_dimen(pt(9)));
    let mut odd_end = end();
    odd_end.material = Material::Box(Some(tex_box(1, 1, 1)));
    let mut p = parser(&[odd_space, vskip(1), odd_end]);
    assert_eq!(p.parse_vertical_list(false), Ok(vec![skip(1)]));
}

#[test]
fn the_parser_shows_the_next_token_without_consuming_it() {
    let p = parser(&[vskip(1), space()]);
    assert_eq!(p.peek(), Some(vskip(1).head));
    assert_eq!(p.peek_expanded_token(), Some(Token::ControlSequence(2)));
    assert_eq!(p.position(), 0);
}

#[test]
fn groups_push_and_pop_scope_frames() {
    let input = [open(), vskip(1), open(), open(), close(), vskip(2), close(), open(), close(), close()];
    let mut p = parser(&input);
    assert_eq!(p.parse_vertical_list(true), Ok(vec![skip(1), skip(2)]));
    assert_eq!(p.position(), 10);
    assert_eq!(p.open_frames(), 0);
}

#[test]
fn an_internal_list_may_end_inside_its_groups() {
    let mut p = parser(&[open(), open(), vskip(1), close()]);
    assert_eq!(p.parse_vertical_list(true), Ok(vec![skip(1)]));
    assert_eq!(p.position(), 4);
    assert_eq!(p.open_frames(), 1);
}

#[test]
fn an_unmatched_closing_brace_is_left_for_the_caller() {
    let input = [open(), vskip(1), close(), close(), vskip(2)];
    let mut p = parser(&input);
    assert_eq!(p.parse_vertical_list(true), Ok(vec![skip(1)]));
    assert_eq!(p.position(), 3);
    assert_eq!(p.open_frames(), 0);
    assert_eq!(p.peek_expanded_token(), Some(Token::Char('}', Category::EndGroup)));
    // the brace is still unmatched for a list that starts there
    assert_eq!(p.parse_vertical_list(true), Ok(vec![]));
    assert_eq!(p.position(), 3);
}

#[test]
fn excess_closing_braces_fail_a_top_level_list() {
    let input = [open(), open(), close(), open(), open(), close(), close(), close(), close()];
    let mut p = parser(&input);
    assert_eq!(p.parse_vertical_list(false), Err(ParseError::TooManyCloseGroups));
    assert_eq!(p.position(), 8);
    assert_eq!(p.open_frames(), 0);
}

#[test]
fn end_fails_an_internal_list() {
    let mut p = parser(&[vskip(0), end()]);
    assert_eq!(p.parse_vertical_list(true), Err(ParseError::EndInInternalMode));
    assert_eq!(p.position(), 1);
}

#[test]
fn end_completes_a_top_level_list_and_is_consumed() {
    let letter = paragraph(Token::Char('a', Category::Letter), None, tex_box(1, 0, 25), tex_box(1, 0, 5));
    let mut p = parser(&[vskip(0), vskip(1), end(), letter]);
    assert_eq!(p.parse_vertical_list(false), Ok(vec![skip(0), skip(1)]));
    assert_eq!(p.position(), 3);
    assert_eq!(p.peek_expanded_token(), Some(Token::Char('a', Category::Letter)));
}

#[test]
fn end_completes_a_top_level_list_inside_a_group() {
    let mut p = parser(&[open(), vskip(1), end(), close()]);
    assert_eq!(p.parse_vertical_list(false), Ok(vec![skip(1)]));
    assert_eq!(p.position(), 3);
    assert_eq!(p.open_frames(), 1);
}

#[test]
fn a_top_level_list_without_end_fails_at_the_end_of_the_input() {
    let mut p = parser(&[vskip(0)]);
    assert_eq!(p.parse_vertical_list(false), Err(ParseError::UnexpectedEndOfInput));
    assert_eq!(p.position(), 1);
    let mut p = parser(&[open(), vskip(0), space()]);
    assert_eq!(p.parse_vertical_list(false), Err(ParseError::UnexpectedEndOfInput));
    assert_eq!(p.position(), 3);
    assert_eq!(p.open_frames(), 1);
}

#[test]
fn an_unknown_token_fails_either_list() {
    for internal in [true, false] {
        let mut p = parser(&[vskip(1), unknown(), end()]);
        assert_eq!(p.parse_vertical_list(internal), Err(ParseError::UnrecognizedConstruct));
        assert_eq!(p.position(), 1);
        let mut p = parser(&[plain(Token::Char('$', Category::MathShift), None)]);
        assert_eq!(p.parse_vertical_list(internal), Err(ParseError::UnrecognizedConstruct));
    }
}

#[test]
fn par_and_assignments_contribute_nothing() {
    let mut p = parser(&[par(), assignment(), vskip(1), par(), par(), assignment(), vskip(1)]);
    assert_eq!(p.parse_vertical_list(true), Ok(vec![skip(1), skip(1)]));
    assert_eq!(p.position(), 7);
}

#[test]
fn a_box_command_gives_its_box_or_nothing() {
    let b = tex_box(3, 1, 7);
    let mut p = parser(&[box_command(None), box_command(Some(b)), box_command(None)]);
    assert_eq!(p.parse_vertical_list(true), Ok(vec![VerticalListElem::Box(b)]));
    assert_eq!(p.position(), 3);
}

#[test]
fn boxes_get_interline_glue() {
    let first = tex_box(0, 5, 0);
    let second = tex_box(5, 8, 0);
    let third = tex_box(5, 0, 0);
    let input = [box_command(Some(first)), box_command(Some(second)), box_command(Some(third))];
    let mut p = parser(&input);
    assert_eq!(
        p.parse_vertical_list(true),
        Ok(vec![
            VerticalListElem::Box(first),
            skip(2),
            VerticalListElem::Box(second),
            skip(1),
            VerticalListElem::Box(third),
        ])
    );
}

#[test]
fn the_parser_uses_the_spacing_it_is_given() {
    let spacing =
        Spacing::new(Glue::from_dimen(pt(30)), Glue::from_dimen(pt(4)), pt(21)).unwrap();
    let first = tex_box(0, 5, 0);
    let second = tex_box(4, 5, 0);
    let third = tex_box(5, 0, 0);
    let input = vec![box_command(Some(first)), box_command(Some(second)), box_command(Some(third))];
    let mut p = Parser::with_spacing(input, spacing).unwrap();
    assert_eq!(
        p.parse_vertical_list(true),
        Ok(vec![
            VerticalListElem::Box(first),
            // 30pt - (4pt + 5pt) = 21pt, at the limit
            skip(21),
            VerticalListElem::Box(second),
            // 30pt - (5pt + 5pt) = 20pt < 21pt
            skip(4),
            VerticalListElem::Box(third),
        ])
    );
}

#[test]
fn a_paragraph_head_gives_the_indented_box() {
    let indented = tex_box(4, 0, 25);
    let unindented = tex_box(4, 0, 5);
    let heads = [
        (Token::Char('a', Category::Letter), None),
        (Token::Char('@', Category::Other), None),
        (Token::ControlSequence(5), Some(Primitive::HSkip)),
    ];
    for (token, prim) in heads {
        let mut p = parser(&[paragraph(token, prim, indented, unindented)]);
        assert_eq!(p.parse_vertical_list(true), Ok(vec![VerticalListElem::Box(indented)]));
        assert_eq!(p.position(), 1);
    }
}

#[test]
fn indent_and_noindent_choose_the_paragraph_box() {
    let indented = tex_box(4, 0, 25);
    let unindented = tex_box(4, 0, 5);
    let indent = paragraph(Token::ControlSequence(6), Some(Primitive::Indent), indented, unindented);
    let noindent =
        paragraph(Token::ControlSequence(7), Some(Primitive::NoIndent), indented, unindented);
    let mut p = parser(&[noindent, indent]);
    assert_eq!(
        p.parse_vertical_list(true),
        Ok(vec![
            VerticalListElem::Box(unindented),
            // 12pt - (4pt + 0pt) = 8pt
            skip(8),
            VerticalListElem::Box(indented),
        ])
    );
}

#[test]
fn a_second_list_reads_on_and_starts_afresh() {
    let b = tex_box(5, 5, 0);
    let input = [box_command(Some(b)), open(), end(), box_command(Some(b)), vskip(1), end(), end()];
    let mut p = parser(&input);
    assert_eq!(p.parse_vertical_list(false), Ok(vec![VerticalListElem::Box(b)]));
    assert_eq!(p.position(), 3);
    assert_eq!(p.open_frames(), 1);
    // no glue before the first box of the second list, and its group level
    // starts at zero whatever is open
    assert_eq!(p.parse_vertical_list(false), Ok(vec![VerticalListElem::Box(b), skip(1)]));
    assert_eq!(p.position(), 6);
    assert_eq!(p.open_frames(), 1);
    assert_eq!(p.parse_vertical_list(false), Ok(vec![]));
    assert_eq!(p.position(), 7);
    assert_eq!(p.parse_vertical_list(false), Err(ParseError::UnexpectedEndOfInput));
    assert_eq!(p.parse_vertical_list(true), Ok(vec![]));
}

#[test]
fn a_second_list_does_not_close_the_groups_of_the_first() {
    let mut p = parser(&[open(), end(), close(), vskip(1)]);
    assert_eq!(p.parse_vertical_list(false), Ok(vec![]));
    assert_eq!(p.open_frames(), 1);
    assert_eq!(p.parse_vertical_list(false), Err(ParseError::TooManyCloseGroups));
    assert_eq!(p.position(), 2);
    assert_eq!(p.open_frames(), 1);
}

#[test]
fn elements_can_be_read_one_by_one() {
    let b = tex_box(1, 2, 3);
    let input = [open(), space(), vskip(1), open(), box_command(Some(b)), close(), close(), close()];
    let mut p = parser(&input);
    let mut group_level = 0;
    assert_eq!(p.parse_vertical_list_elem(&mut group_level, true), Ok(Some(skip(1))));
    assert_eq!((p.position(), group_level, p.open_frames()), (3, 1, 1));
    assert_eq!(
        p.parse_vertical_list_elem(&mut group_level, true),
        Ok(Some(VerticalListElem::Box(b)))
    );
    assert_eq!((p.position(), group_level, p.open_frames()), (5, 2, 2));
    assert_eq!(p.parse_vertical_list_elem(&mut group_level, true), Ok(None));
    assert_eq!((p.position(), group_level, p.open_frames()), (7, 0, 0));
    assert_eq!(p.parse_vertical_list_elem(&mut group_level, true), Ok(None));
    assert_eq!((p.position(), group_level, p.open_frames()), (7, 0, 0));
    assert_eq!(
        p.parse_vertical_list_elem(&mut group_level, false),
        Err(ParseError::TooManyCloseGroups)
    );
    assert_eq!((p.position(), group_level, p.open_frames()), (7, 0, 0));
}

#[test]
fn a_failure_keeps_the_group_level_reached() {
    let mut p = parser(&[open(), open(), close(), unknown()]);
    let mut group_level = 0;
    assert_eq!(
        p.parse_vertical_list_elem(&mut group_level, true),
        Err(ParseError::UnrecognizedConstruct)
    );
    assert_eq!((p.position(), group_level, p.open_frames()), (3, 1, 1));
}
