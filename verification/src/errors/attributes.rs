//! The diagnostic kind for a closure that carries attributes.

use vstd::prelude::*;
use crate::errors::ErrorDescription;

verus! {

/// Attributes on the closure are disallowed by the front-end.
#[derive(Debug, Clone, Copy, PartialEq, Eq)]
pub struct AttributesNotSupported;

impl AttributesNotSupported {
    /// The diagnostic text for this kind: a bare message, with no help
    /// and no note lines.
    pub fn description(&self) -> (r: ErrorDescription)
        ensures
            r.message@ == "closure attributes is not supported in expressions"@,
            r.help.deep_view() == Seq::<Seq<char>>::empty(),
            r.note.deep_view() == Seq::<Seq<char>>::empty(),
    {
        ErrorDescription::new("closure attributes is not supported in expressions")
    }
}

} // verus!
