//! The diagnostic kind for input that does not parse as an expression.

use vstd::prelude::*;
use crate::errors::ErrorDescription;

verus! {

/// The underlying parser rejected the input; the field holds the
/// parser's own diagnostic message.  Two parse errors are the same
/// error exactly when their messages agree.
#[derive(Debug, Clone)]
pub struct ParseError(pub String);

impl ParseError {
    /// The diagnostic text for this kind: the parser's message, with no
    /// help and no note lines.
    pub fn description(&self) -> (r: ErrorDescription)
        ensures
            r.message@ == self.0@,
            r.help.deep_view() == Seq::<Seq<char>>::empty(),
            r.note.deep_view() == Seq::<Seq<char>>::empty(),
    {
        ErrorDescription::new(self.0.as_str())
    }
}

impl PartialEq for ParseError {
    fn eq(&self, other: &Self) -> (r: bool) {
        self.0 == other.0
    }
}

impl vstd::std_specs::cmp::PartialEqSpecImpl for ParseError {
    open spec fn obeys_eq_spec() -> bool {
        true
    }

    open spec fn eq_spec(&self, other: &Self) -> bool {
        self.0@ == other.0@
    }
}

impl Eq for ParseError {

}

} // verus!
