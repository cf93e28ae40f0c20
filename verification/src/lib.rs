//! Vertical-list construction for a TeX-like typesetting engine.
//!
//! Vertical mode turns expanded tokens into a column of boxes and glue. For
//! each token at the head of the input it decides what to do ([`dispatch`]):
//! pass over it, open or close a group, take a skip, hand an assignment or a
//! box command on, enter horizontal mode for a paragraph, or end the list.
//! Each box joins the list after the glue that keeps baselines apart
//! ([`list`]).
//!
//! The interpreter around vertical mode (macro expansion, assignments, glue
//! and box parsing) is not part of this crate. It shows here as data: what
//! it reports of a token ([`token::Lookahead`]) and what its parsers produce
//! ([`parser::Material`]). [`parser::Parser`] builds lists from a session
//! held as such data; a live session is driven with [`dispatch::dispatch`]
//! and [`list::VerticalList`]. What holds of every list is proved in
//! [`theorems`].

pub mod dimen;
pub mod glue;
pub mod tex_box;
pub mod token;
pub mod spacing;
pub mod list;
pub mod dispatch;
pub mod parser;
pub mod theorems;
