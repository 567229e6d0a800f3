//! Short identifiers, as the host runtime's symbol type defines them.
use vstd::prelude::*;
use vstd::string::StrSliceExecFns;

verus! {

/// A character the host accepts inside a symbol: an ASCII letter, a digit,
/// or an underscore.
pub open spec fn symbol_char(c: char) -> bool {
    let u = c as u32;
    c == '_' || ('a' as u32 <= u && u <= 'z' as u32) || ('A' as u32 <= u && u <= 'Z' as u32)
        || ('0' as u32 <= u && u <= '9' as u32)
}

/// The host accepts a symbol of at most 32 such characters; it aborts on any
/// other text.
pub open spec fn valid_symbol(s: Seq<char>) -> bool {
    s.len() <= 32 && (forall|i: int| 0 <= i < s.len() ==> symbol_char(#[trigger] s[i]))
}

/// A short identifier: at most 32 characters, each an ASCII letter, a digit,
/// or an underscore. Used both as a storage key and as the symbolic name of
/// an asset.
pub struct Symbol {
    text: String,
}

impl View for Symbol {
    type V = Seq<char>;

    closed spec fn view(&self) -> Seq<char> {
        self.text@
    }
}

impl DeepView for Symbol {
    type V = Seq<char>;

    open spec fn deep_view(&self) -> Seq<char> {
        self@
    }
}

/// Decides whether the host would accept `text` as a symbol.
pub fn symbol_text_ok(text: &str) -> (ok: bool)
    ensures
        ok == valid_symbol(text@),
{
    let n = text.unicode_len();
    if n > 32 {
        return false;
    }
    let mut i: usize = 0;
    while i < n
        invariant
            0 <= i <= n,
            n == text@.len(),
            n <= 32,
            forall|j: int| 0 <= j < i ==> symbol_char(#[trigger] text@[j]),
        decreases n - i,
    {
        let c = text.get_char(i);
        let u = c as u32;
        let ok = c == '_' || ('a' as u32 <= u && u <= 'z' as u32)
            || ('A' as u32 <= u && u <= 'Z' as u32) || ('0' as u32 <= u && u <= '9' as u32);
        if !ok {
            return false;
        }
        i += 1;
    }
    true
}

impl Symbol {
    /// Accepts exactly the texts the host's symbol constructor accepts and
    /// returns `None` where the host would abort.
    pub fn new(text: &str) -> (r: Option<Symbol>)
        ensures
            r is Some <==> valid_symbol(text@),
            r matches Some(s) ==> s@ == text@,
    {
        if symbol_text_ok(text) {
            Some(Symbol { text: text.to_owned() })
        } else {
            None
        }
    }

    /// The symbol's text.
    pub fn text(&self) -> (t: &str)
        ensures
            t@ == self@,
    {
        self.text.as_str()
    }

    /// An equal copy of the symbol.
    pub fn duplicate(&self) -> (r: Symbol)
        ensures
            r == *self,
    {
        Symbol { text: self.text.clone() }
    }
}

impl PartialEq for Symbol {
    fn eq(&self, other: &Symbol) -> bool {
        self.text == other.text
    }
}

impl vstd::std_specs::cmp::PartialEqSpecImpl for Symbol {
    open spec fn obeys_eq_spec() -> bool {
        true
    }

    open spec fn eq_spec(&self, other: &Symbol) -> bool {
        self@ == other@
    }
}

} // verus!
