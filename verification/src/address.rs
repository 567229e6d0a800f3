//! Contract and account identities in their text form.
use vstd::prelude::*;

verus! {

/// The text form of a contract or account identity. Resolving the text to a
/// deployed contract is the host runtime's address-resolution service; the
/// library carries the text opaquely and never inspects it.
pub struct Address {
    text: String,
}

impl View for Address {
    type V = Seq<char>;

    closed spec fn view(&self) -> Seq<char> {
        self.text@
    }
}

impl DeepView for Address {
    type V = Seq<char>;

    open spec fn deep_view(&self) -> Seq<char> {
        self@
    }
}

impl Address {
    /// An address holding the given text.
    pub fn new(text: &str) -> (a: Address)
        ensures
            a@ == text@,
    {
        Address { text: text.to_owned() }
    }

    /// The address's text.
    pub fn text(&self) -> (t: &str)
        ensures
            t@ == self@,
    {
        self.text.as_str()
    }

    /// An equal copy of the address.
    pub fn duplicate(&self) -> (r: Address)
        ensures
            r == *self,
    {
        Address { text: self.text.clone() }
    }
}

impl PartialEq for Address {
    fn eq(&self, other: &Address) -> bool {
        self.text == other.text
    }
}

impl vstd::std_specs::cmp::PartialEqSpecImpl for Address {
    open spec fn obeys_eq_spec() -> bool {
        true
    }

    open spec fn eq_spec(&self, other: &Address) -> bool {
        self@ == other@
    }
}

} // verus!
