//! User identity.

use crate::text::same_text;
use vstd::prelude::*;

verus! {

/// Opaque identifier of a user. Two identifiers are the same user exactly
/// when their text is equal.
#[derive(Debug, PartialEq, Eq)]
pub struct UserId(String);

impl View for UserId {
    type V = Seq<char>;

    closed spec fn view(&self) -> Seq<char> {
        self.0@
    }
}

impl Clone for UserId {
    fn clone(&self) -> (copy: Self)
        ensures
            copy == *self,
    {
        Self(self.0.clone())
    }
}

impl UserId {
    pub fn new(s: &str) -> (id: Self)
        ensures
            id@ == s@,
    {
        Self(s.to_owned())
    }

    /// Whether `other` is the text of this identifier.
    pub fn is_same(&self, other: &str) -> (same: bool)
        ensures
            same == (self@ == other@),
    {
        same_text(self.0.as_str(), other)
    }

    pub fn to_string(&self) -> (text: String)
        ensures
            text@ == self@,
    {
        self.0.clone()
    }
}

} // verus!
