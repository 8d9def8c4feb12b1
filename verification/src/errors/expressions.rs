//! The diagnostic kind for an expression that is not a closure.

use vstd::prelude::*;
use crate::errors::ErrorDescription;

verus! {

/// The front-end accepts only closure literals.
#[derive(Debug, Clone, Copy, PartialEq, Eq)]
pub struct ClosureExpressionExpected;

impl ClosureExpressionExpected {
    /// The diagnostic text for this kind: the message, one help line and
    /// one note line showing example usage syntax.
    pub fn description(&self) -> (r: ErrorDescription)
        ensures
            r.message@ == "closure expression expected"@,
            r.help.deep_view() == seq![
                "Expressions need to be inside a closure to be unbounded from local context"@,
            ],
            r.note.deep_view() == seq!["Example of usage: expr!(|a| a * 2)"@],
    {
        ErrorDescription::new("closure expression expected").with_help(
            "Expressions need to be inside a closure to be unbounded from local context",
        ).with_note("Example of usage: expr!(|a| a * 2)")
    }
}

} // verus!
