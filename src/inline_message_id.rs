//! Types representing an inline message ID.
use vstd::prelude::*;

verus! {

/// An inline message ID.
#[derive(Debug, PartialEq, Eq, Clone, Hash)]
pub struct InlineMessageId(pub String);

/// A reference to an inline message ID.
#[derive(Debug, PartialEq, Eq, Clone, Copy, Hash)]
pub struct Ref<'a>(pub &'a str);

impl InlineMessageId {
    /// Constructs a [`Ref`] to `self`.
    pub fn as_ref(&self) -> (r: Ref<'_>)
        ensures
            r.0@ == self.0@,
    {
        Ref(self.0.as_str())
    }
}

impl<'a> Ref<'a> {
    /// Constructs an owned [`InlineMessageId`] with the same text.
    pub fn to_owned(&self) -> (r: InlineMessageId)
        ensures
            r.0@ == self.0@,
    {
        InlineMessageId(String::from_str(self.0))
    }
}

} // verus!
