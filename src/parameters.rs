//! Parameters shared by several methods.
use vstd::prelude::*;

verus! {

/// How the remote side parses the markup in a text.
#[derive(Debug, PartialEq, Eq, Clone, Copy, Hash, Structural)]
pub enum ParseMode {
    Markdown,
    MarkdownV2,
    Html,
}

/// A text to send, with the way its markup is parsed, if it has markup.
#[derive(Debug, PartialEq, Eq, Clone, Copy, Hash)]
pub struct Text<'a> {
    /// The text itself.
    pub text: &'a str,
    /// How the markup in the text is parsed; `None` for plain text.
    pub parse_mode: Option<ParseMode>,
}

} // verus!
