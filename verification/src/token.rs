//! Expanded tokens and what the session reports of the token at the head of
//! its input.

use vstd::prelude::*;

verus! {

/// The lexical category of a character.
#[derive(Clone, Copy, Debug, PartialEq, Eq, Structural)]
pub enum Category {
    Escape,
    BeginGroup,
    EndGroup,
    MathShift,
    AlignmentTab,
    EndOfLine,
    Parameter,
    Superscript,
    Subscript,
    Ignored,
    Space,
    Letter,
    Other,
    Active,
    Comment,
    Invalid,
}

/// An expanded token: a character with its category, or a control sequence
/// known by its identity in the session's binding table.
#[derive(Clone, Copy, Debug, PartialEq, Eq, Structural)]
pub enum Token {
    Char(char, Category),
    ControlSequence(u64),
}

/// The primitives that vertical mode tells apart.
#[derive(Clone, Copy, Debug, PartialEq, Eq, Structural)]
pub enum Primitive {
    End,
    Par,
    VSkip,
    HSkip,
    Indent,
    NoIndent,
}

/// What the session reports of the next expanded token without consuming it.
#[derive(Clone, Copy, Debug, PartialEq, Eq, Structural)]
pub struct Lookahead {
    /// The token itself.
    pub token: Token,
    /// The primitive that the token currently means, if it is one of those
    /// that vertical mode tells apart.
    pub prim: Option<Primitive>,
    /// Whether an assignment starts at the token.
    pub assignment_head: bool,
    /// Whether a box-construction command starts at the token.
    pub box_head: bool,
}

impl Lookahead {
    /// Whether the token currently means the primitive `prim`.
    pub open spec fn means(self, prim: Primitive) -> bool {
        self.prim == Some(prim)
    }

    /// Tests whether the token currently means the primitive `prim`.
    pub fn is_token_equal_to_prim(&self, prim: Primitive) -> (r: bool)
        ensures
            r == self.means(prim),
    {
        match self.prim {
            Some(p) => p == prim,
            None => false,
        }
    }
}

} // verus!
