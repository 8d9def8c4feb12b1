//! The front-end's error domain: three diagnostic kinds, a located error,
//! and the diagnostic text with its rendering rule.

pub mod attributes;
pub mod expressions;
pub mod parse_error;

use vstd::prelude::*;
use vstd::string::StringExecFns;
use crate::errors::attributes::AttributesNotSupported;
use crate::errors::expressions::ClosureExpressionExpected;
use crate::errors::parse_error::ParseError;

verus! {

/// The source location a diagnostic is anchored at.  Relies on
/// proc_macro2::Span, carried through opaquely.
#[verifier::external_type_specification]
#[verifier::external_body]
pub struct ExSpan(proc_macro2::Span);

/// A fatal front-end diagnostic: a kind anchored at a source span.
#[derive(Debug)]
pub struct Error {
    pub span: proc_macro2::Span,
    pub kind: ErrorKind,
}

impl Error {
    pub fn new(span: proc_macro2::Span, kind: ErrorKind) -> (r: Self)
        ensures
            r.span == span,
            r.kind == kind,
    {
        Self { span, kind }
    }
}

/// The closed set of front-end diagnostic kinds.
#[derive(Debug, Clone, PartialEq, Eq)]
pub enum ErrorKind {
    AttributesNotSupported(AttributesNotSupported),
    ClosureExpressionExpected(ClosureExpressionExpected),
    ParseError(ParseError),
}

impl From<AttributesNotSupported> for ErrorKind {
    fn from(x: AttributesNotSupported) -> (r: Self) {
        ErrorKind::AttributesNotSupported(x)
    }
}

impl vstd::std_specs::convert::FromSpecImpl<AttributesNotSupported> for ErrorKind {
    open spec fn obeys_from_spec() -> bool {
        true
    }

    open spec fn from_spec(x: AttributesNotSupported) -> Self {
        ErrorKind::AttributesNotSupported(x)
    }
}

impl From<ClosureExpressionExpected> for ErrorKind {
    fn from(x: ClosureExpressionExpected) -> (r: Self) {
        ErrorKind::ClosureExpressionExpected(x)
    }
}

impl vstd::std_specs::convert::FromSpecImpl<ClosureExpressionExpected> for ErrorKind {
    open spec fn obeys_from_spec() -> bool {
        true
    }

    open spec fn from_spec(x: ClosureExpressionExpected) -> Self {
        ErrorKind::ClosureExpressionExpected(x)
    }
}

impl From<ParseError> for ErrorKind {
    fn from(x: ParseError) -> (r: Self) {
        ErrorKind::ParseError(x)
    }
}

impl vstd::std_specs::convert::FromSpecImpl<ParseError> for ErrorKind {
    open spec fn obeys_from_spec() -> bool {
        true
    }

    open spec fn from_spec(x: ParseError) -> Self {
        ErrorKind::ParseError(x)
    }
}

impl ErrorKind {
    /// The primary message each kind carries.
    pub open spec fn spec_message(&self) -> Seq<char> {
        match self {
            ErrorKind::AttributesNotSupported(_) => "closure attributes is not supported in expressions"@,
            ErrorKind::ClosureExpressionExpected(_) => "closure expression expected"@,
            ErrorKind::ParseError(p) => p.0@,
        }
    }

    /// The help lines each kind carries.
    pub open spec fn spec_help(&self) -> Seq<Seq<char>> {
        match self {
            ErrorKind::ClosureExpressionExpected(_) => seq![
                "Expressions need to be inside a closure to be unbounded from local context"@,
            ],
            _ => Seq::empty(),
        }
    }

    /// The note lines each kind carries.
    pub open spec fn spec_note(&self) -> Seq<Seq<char>> {
        match self {
            ErrorKind::ClosureExpressionExpected(_) => seq!["Example of usage: expr!(|a| a * 2)"@],
            _ => Seq::empty(),
        }
    }

    /// The diagnostic text of this kind.
    pub fn description(&self) -> (r: ErrorDescription)
        ensures
            r.message@ == self.spec_message(),
            r.help.deep_view() == self.spec_help(),
            r.note.deep_view() == self.spec_note(),
    {
        match self {
            ErrorKind::AttributesNotSupported(x) => x.description(),
            ErrorKind::ClosureExpressionExpected(x) => x.description(),
            ErrorKind::ParseError(x) => x.description(),
        }
    }
}

/// A diagnostic's text: a primary message with optional help and note
/// annotations.
#[derive(Debug, Clone)]
pub struct ErrorDescription {
    pub message: String,
    pub help: Vec<String>,
    pub note: Vec<String>,
}

impl ErrorDescription {
    /// A description holding the message alone.
    pub fn new(message: &str) -> (r: Self)
        ensures
            r.message@ == message@,
            r.help.deep_view() == Seq::<Seq<char>>::empty(),
            r.note.deep_view() == Seq::<Seq<char>>::empty(),
    {
        let r = Self { message: message.to_owned(), help: Vec::new(), note: Vec::new() };
        proof {
            assert(r.help.deep_view() =~= Seq::<Seq<char>>::empty());
            assert(r.note.deep_view() =~= Seq::<Seq<char>>::empty());
        }
        r
    }

    /// The same description with one more help line, appended last.
    pub fn with_help(self, help: &str) -> (r: Self)
        ensures
            r.message == self.message,
            r.help.deep_view() == self.help.deep_view().push(help@),
            r.note == self.note,
    {
        let mut r = self;
        r.help.push(help.to_owned());
        proof {
            assert(r.help.deep_view() =~= self.help.deep_view().push(help@));
        }
        r
    }

    /// The same description with one more note line, appended last.
    pub fn with_note(self, note: &str) -> (r: Self)
        ensures
            r.message == self.message,
            r.help == self.help,
            r.note.deep_view() == self.note.deep_view().push(note@),
    {
        let mut r = self;
        r.note.push(note.to_owned());
        proof {
            assert(r.note.deep_view() =~= self.note.deep_view().push(note@));
        }
        r
    }

    /// The rendering rule: the primary message line, then one `help:`
    /// line per help entry, then one `note:` line per note entry; a
    /// group without entries contributes no lines.
    pub open spec fn spec_rendered(&self) -> Seq<Seq<char>> {
        seq![self.message@] + self.help.deep_view().map_values(|h: Seq<char>| "help: "@ + h)
            + self.note.deep_view().map_values(|n: Seq<char>| "note: "@ + n)
    }

    /// Renders the description to its diagnostic lines, following the
    /// rendering rule exactly.
    pub fn rendered_lines(&self) -> (lines: Vec<String>)
        ensures
            lines.deep_view() == self.spec_rendered(),
    {
        let ghost helps = self.help.deep_view().map_values(|h: Seq<char>| "help: "@ + h);
        let ghost notes = self.note.deep_view().map_values(|n: Seq<char>| "note: "@ + n);
        let mut lines: Vec<String> = Vec::new();
        lines.push(self.message.clone());
        proof {
            assert(lines.deep_view() =~= seq![self.message@]);
        }
        let mut i: usize = 0;
        while i < self.help.len()
            invariant
                i <= self.help@.len(),
                helps == self.help.deep_view().map_values(|h: Seq<char>| "help: "@ + h),
                lines.deep_view() == seq![self.message@] + helps.take(i as int),
            decreases self.help@.len() - i,
        {
            let ghost prior = lines.deep_view();
            let mut line = "help: ".to_owned();
            line.append(self.help[i].as_str());
            lines.push(line);
            proof {
                assert(self.help.deep_view()[i as int] == self.help@[i as int]@);
                assert(helps[i as int] == "help: "@ + self.help.deep_view()[i as int]);
                assert(line@ == helps[i as int]);
                let whole = seq![self.message@] + helps.take(i as int + 1);
                assert(helps.len() == self.help@.len());
                assert(prior.len() == 1 + i as int);
                assert(lines.deep_view().len() == lines@.len());
                assert(lines@.len() == prior.len() + 1);
                assert(lines.deep_view().len() == whole.len());
                assert forall|k: int| 0 <= k < lines.deep_view().len() implies lines.deep_view()[k]
                    == whole[k] by {
                    if k < prior.len() {
                        assert(lines.deep_view()[k] == prior[k]);
                    } else {
                        assert(lines.deep_view()[k] == line@);
                    }
                }
                assert(lines.deep_view() =~= whole);
            }
            i = i + 1;
        }
        proof {
            assert(helps.take(self.help@.len() as int) =~= helps);
        }
        let mut j: usize = 0;
        while j < self.note.len()
            invariant
                j <= self.note@.len(),
                helps == self.help.deep_view().map_values(|h: Seq<char>| "help: "@ + h),
                notes == self.note.deep_view().map_values(|n: Seq<char>| "note: "@ + n),
                lines.deep_view() == seq![self.message@] + helps + notes.take(j as int),
            decreases self.note@.len() - j,
        {
            let ghost prior = lines.deep_view();
            let mut line = "note: ".to_owned();
            line.append(self.note[j].as_str());
            lines.push(line);
            proof {
                assert(self.note.deep_view()[j as int] == self.note@[j as int]@);
                assert(notes[j as int] == "note: "@ + self.note.deep_view()[j as int]);
                assert(line@ == notes[j as int]);
                let whole = seq![self.message@] + helps + notes.take(j as int + 1);
                assert(notes.len() == self.note@.len());
                assert(prior.len() == 1 + helps.len() + j as int);
                assert(lines.deep_view().len() == lines@.len());
                assert(lines@.len() == prior.len() + 1);
                assert(lines.deep_view().len() == whole.len());
                assert forall|k: int| 0 <= k < lines.deep_view().len() implies lines.deep_view()[k]
                    == whole[k] by {
                    if k < prior.len() {
                        assert(lines.deep_view()[k] == prior[k]);
                    } else {
                        assert(lines.deep_view()[k] == line@);
                    }
                }
                assert(lines.deep_view() =~= whole);
            }
            j = j + 1;
        }
        proof {
            assert(notes.take(self.note@.len() as int) =~= notes);
            assert(lines.deep_view() =~= self.spec_rendered());
        }
        lines
    }
}

} // verus!
