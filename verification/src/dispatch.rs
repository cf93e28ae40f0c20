//! What vertical mode does with the token at the head of the input.

use vstd::prelude::*;
use crate::token::{Category, Lookahead, Primitive, Token};

verus! {

/// The failures of vertical mode. Each one is fatal: the list is abandoned.
#[derive(Clone, Copy, Debug, PartialEq, Eq, Structural)]
pub enum ParseError {
    /// A top-level list met the end of the input before `\end`.
    UnexpectedEndOfInput,
    /// A top-level list met a closing brace that matches no opening one.
    TooManyCloseGroups,
    /// An internal list met `\end`.
    EndInInternalMode,
    /// The token starts nothing that vertical mode knows.
    UnrecognizedConstruct,
}

impl ParseError {
    /// The text of the failure's message.
    pub open spec fn text(self) -> Seq<char> {
        match self {
            ParseError::UnexpectedEndOfInput => "Emergency stop, EOF found before \\end"@,
            ParseError::TooManyCloseGroups => "Too many }'s!"@,
            ParseError::EndInInternalMode => "You can't use \\end in internal vertical mode"@,
            ParseError::UnrecognizedConstruct => "Unrecognized construct in vertical mode"@,
        }
    }

    /// The failure's message.
    pub fn message(&self) -> (r: String)
        ensures
            r@ == self.text(),
    {
        match self {
            ParseError::UnexpectedEndOfInput => "Emergency stop, EOF found before \\end".to_owned(),
            ParseError::TooManyCloseGroups => "Too many }'s!".to_owned(),
            ParseError::EndInInternalMode => "You can't use \\end in internal vertical mode".to_owned(),
            ParseError::UnrecognizedConstruct => "Unrecognized construct in vertical mode".to_owned(),
        }
    }
}

/// What to do with the token at the head of the input.
#[derive(Clone, Copy, Debug, PartialEq, Eq, Structural)]
pub enum Step {
    /// The list is complete. The token, if there is one, is consumed only
    /// where `consume` is set.
    Finish { consume: bool },
    /// Consume the token; it contributes nothing.
    Skip,
    /// Consume the token, enter a group and push a scope frame.
    OpenGroup,
    /// Consume the token, leave a group and pop its scope frame.
    CloseGroup,
    /// Consume the token and parse the glue that follows: a skip.
    VSkip,
    /// Let the assignment be carried out; it contributes nothing.
    Assignment,
    /// Enter horizontal mode, after consuming the token where `consume` is
    /// set, and with paragraph indentation where `indent` is set: a box.
    Paragraph { consume: bool, indent: bool },
    /// Let the box be parsed: a box, or nothing.
    Box,
}

/// Whether the token starts material that belongs to horizontal mode: a
/// letter, another printable character, or the horizontal-skip primitive.
pub open spec fn horizontal_mode_head(look: Lookahead) -> bool {
    ||| look.token matches Token::Char(_, Category::Letter)
    ||| look.token matches Token::Char(_, Category::Other)
    ||| look.means(Primitive::HSkip)
}

/// The step for a character of category `cat` that does not start horizontal
/// material.
pub open spec fn step_for_char(cat: Category, group_level: nat, internal: bool) -> Result<
    Step,
    ParseError,
> {
    match cat {
        Category::Space => Ok(Step::Skip),
        Category::BeginGroup => Ok(Step::OpenGroup),
        Category::EndGroup => if group_level > 0 {
            Ok(Step::CloseGroup)
        } else if internal {
            Ok(Step::Finish { consume: false })
        } else {
            Err(ParseError::TooManyCloseGroups)
        },
        _ => Err(ParseError::UnrecognizedConstruct),
    }
}

/// The step for a control sequence that does not start horizontal material.
/// The terminator, the paragraph end and the vertical skip come before an
/// assignment, an assignment before the indentation primitives, and these
/// before a box.
pub open spec fn step_for_control_sequence(look: Lookahead, internal: bool) -> Result<
    Step,
    ParseError,
> {
    if look.means(Primitive::End) {
        if internal {
            Err(ParseError::EndInInternalMode)
        } else {
            Ok(Step::Finish { consume: true })
        }
    } else if look.means(Primitive::Par) {
        Ok(Step::Skip)
    } else if look.means(Primitive::VSkip) {
        Ok(Step::VSkip)
    } else if look.assignment_head {
        Ok(Step::Assignment)
    } else if look.means(Primitive::Indent) {
        Ok(Step::Paragraph { consume: true, indent: true })
    } else if look.means(Primitive::NoIndent) {
        Ok(Step::Paragraph { consume: true, indent: false })
    } else if look.box_head {
        Ok(Step::Box)
    } else {
        Err(ParseError::UnrecognizedConstruct)
    }
}

/// The step for the next token `look`, `None` at the end of the input, at
/// group level `group_level` of an internal or a top-level list.
pub open spec fn step_for(look: Option<Lookahead>, group_level: nat, internal: bool) -> Result<
    Step,
    ParseError,
> {
    match look {
        None => if internal {
            Ok(Step::Finish { consume: false })
        } else {
            Err(ParseError::UnexpectedEndOfInput)
        },
        Some(l) => if horizontal_mode_head(l) {
            Ok(Step::Paragraph { consume: false, indent: true })
        } else {
            match l.token {
                Token::Char(_, cat) => step_for_char(cat, group_level, internal),
                Token::ControlSequence(_) => step_for_control_sequence(l, internal),
            }
        },
    }
}

/// Tests whether the token starts material that belongs to horizontal mode.
pub fn is_horizontal_mode_head(look: &Lookahead) -> (r: bool)
    ensures
        r == horizontal_mode_head(*look),
{
    if let Token::Char(_, cat) = look.token {
        if cat == Category::Letter || cat == Category::Other {
            return true;
        }
    }
    look.is_token_equal_to_prim(Primitive::HSkip)
}

/// Decides the step for the next token.
pub fn dispatch(look: Option<Lookahead>, group_level: usize, internal: bool) -> (r: Result<
    Step,
    ParseError,
>)
    ensures
        r == step_for(look, group_level as nat, internal),
{
    let l = match look {
        None => {
            return if internal {
                Ok(Step::Finish { consume: false })
            } else {
                Err(ParseError::UnexpectedEndOfInput)
            };
        },
        Some(l) => l,
    };
    if is_horizontal_mode_head(&l) {
        return Ok(Step::Paragraph { consume: false, indent: true });
    }
    match l.token {
        Token::Char(_, cat) => match cat {
            Category::Space => Ok(Step::Skip),
            Category::BeginGroup => Ok(Step::OpenGroup),
            Category::EndGroup => if group_level > 0 {
                Ok(Step::CloseGroup)
            } else if internal {
                Ok(Step::Finish { consume: false })
            } else {
                Err(ParseError::TooManyCloseGroups)
            },
            _ => Err(ParseError::UnrecognizedConstruct),
        },
        Token::ControlSequence(_) => if l.is_token_equal_to_prim(Primitive::End) {
            if internal {
                Err(ParseError::EndInInternalMode)
            } else {
                Ok(Step::Finish { consume: true })
            }
        } else if l.is_token_equal_to_prim(Primitive::Par) {
            Ok(Step::Skip)
        } else if l.is_token_equal_to_prim(Primitive::VSkip) {
            Ok(Step::VSkip)
        } else if l.assignment_head {
            Ok(Step::Assignment)
        } else if l.is_token_equal_to_prim(Primitive::Indent) {
            Ok(Step::Paragraph { consume: true, indent: true })
        } else if l.is_token_equal_to_prim(Primitive::NoIndent) {
            Ok(Step::Paragraph { consume: true, indent: false })
        } else if l.box_head {
            Ok(Step::Box)
        } else {
            Err(ParseError::UnrecognizedConstruct)
        },
    }
}

} // verus!
