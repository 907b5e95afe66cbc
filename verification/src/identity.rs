use vstd::prelude::*;

verus! {

/// The mathematical value of an identity: its text.
pub type Id = Seq<char>;

/// An opaque holder or spender reference. Two identities denote the same
/// party exactly when their texts are equal; the host is responsible for
/// any validation of the text.
#[derive(Debug, PartialEq, Eq, PartialOrd, Ord, Hash)]
pub struct Identity {
    text: String,
}

impl View for Identity {
    type V = Id;

    closed spec fn view(&self) -> Id {
        self.text@
    }
}

impl Clone for Identity {
    fn clone(&self) -> (copy: Self)
        ensures
            copy == *self,
    {
        Identity { text: self.text.clone() }
    }
}

impl Identity {
    /// Wraps an already verified identity string.
    pub fn new(text: String) -> (id: Identity)
        ensures
            id@ == text@,
    {
        Identity { text }
    }

    /// The text of the identity.
    pub fn as_str(&self) -> (text: &str)
        ensures
            text@ == self@,
    {
        self.text.as_str()
    }

    /// The text of the identity, as an owned string.
    pub fn to_string(&self) -> (text: String)
        ensures
            text@ == self@,
    {
        self.text.clone()
    }

    /// Whether both identities denote the same party.
    pub fn same(&self, other: &Identity) -> (equal: bool)
        ensures
            equal == (self@ == other@),
    {
        self.text == other.text
    }
}

/// Builds the identity with the given text, without validating it.
pub fn get_uaddr(text: &str) -> (id: Identity)
    ensures
        id@ == text@,
{
    Identity { text: text.to_owned() }
}

} // verus!
