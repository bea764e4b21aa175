//! One resolved character of a word, tagged with how it was derived:
//! through the symbol table, or through the alphabetic fallback. The tag
//! records provenance only; equality goes by the text alone.

use vstd::prelude::*;

verus! {

/// The textual result of resolving one key under a shift context.
#[derive(Debug)]
pub enum Letter {
    /// Resolved through the alphabetic fallback: the key's name, cased by
    /// the shift context.
    Alphabet(String),
    /// Resolved through the symbol table.
    Symbol(String),
}

impl Letter {
    /// The letter's text.
    pub open spec fn text(&self) -> Seq<char> {
        match self {
            Letter::Alphabet(s) => s@,
            Letter::Symbol(s) => s@,
        }
    }

    /// Whether the letter came from the symbol table.
    pub open spec fn is_symbol(&self) -> bool {
        self matches Letter::Symbol(_)
    }

    /// The letter's text, borrowed.
    pub fn inner(&self) -> (r: &String)
        ensures
            r@ == self.text(),
    {
        match *self {
            Letter::Symbol(ref inner) => inner,
            Letter::Alphabet(ref inner) => inner,
        }
    }

    /// The letter's text, as an owned copy.
    pub fn inner_clone(&self) -> (r: String)
        ensures
            r@ == self.text(),
    {
        self.inner().clone()
    }

    /// The letter's text, for display.
    pub fn to_string(&self) -> (r: String)
        ensures
            r@ == self.text(),
    {
        self.inner_clone()
    }
}

impl PartialEq for Letter {
    /// Two letters are equal when their texts are: the tag does not count.
    fn eq(&self, other: &Self) -> (r: bool) {
        self.inner().eq(other.inner())
    }
}

impl vstd::std_specs::cmp::PartialEqSpecImpl for Letter {
    open spec fn obeys_eq_spec() -> bool {
        true
    }

    open spec fn eq_spec(&self, other: &Letter) -> bool {
        self.text() == other.text()
    }
}

impl Eq for Letter {}

} // verus!
