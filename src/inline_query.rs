//! Types representing an inline query ID.
use vstd::prelude::*;

verus! {

/// An inline query ID.
#[derive(Debug, PartialEq, Eq, Clone, Hash)]
pub struct Id(pub String);

/// A reference to an inline query ID.
#[derive(Debug, PartialEq, Eq, Clone, Copy, Hash)]
pub struct Ref<'a>(pub &'a str);

impl Id {
    /// Constructs a [`Ref`] to `self`.
    pub fn as_ref(&self) -> (r: Ref<'_>)
        ensures
            r.0@ == self.0@,
    {
        Ref(self.0.as_str())
    }
}

impl<'a> Ref<'a> {
    /// Constructs an owned [`Id`] with the same text.
    pub fn to_owned(&self) -> (r: Id)
        ensures
            r.0@ == self.0@,
    {
        Id(String::from_str(self.0))
    }
}

} // verus!
