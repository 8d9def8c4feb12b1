//! The syntax front-end: parses a restricted closure-literal syntax and
//! validates it (a single closure, with no attributes) before handing it
//! on.  On success the closure is re-emitted unchanged; on any failure a
//! fatal diagnostic is returned.
//!
//! The parsing itself is done by the syn crate on proc-macro2 token
//! streams; the acceptance rules and the diagnostics around it are the
//! front-end's own logic.  What the parser finds in a given token stream
//! is a function of that stream alone, so its results carry names
//! (`parsed_expression`, `closure_of`, `attributes_of`, ...) that the
//! contracts below speak of: which inputs are accepted, which error kind
//! each rejected input earns, and what comes back on success.

use vstd::prelude::*;
use crate::errors::ErrorKind;
use crate::errors::attributes::AttributesNotSupported;
use crate::errors::expressions::ClosureExpressionExpected;
use crate::errors::parse_error::ParseError;

verus! {

/// A stream of source tokens.  Relies on proc_macro2::TokenStream,
/// carried through opaquely.
#[verifier::external_type_specification]
#[verifier::external_body]
pub struct ExTokenStream(proc_macro2::TokenStream);

/// A parsed expression.  Relies on syn::Expr, carried through opaquely.
#[verifier::external_type_specification]
#[verifier::external_body]
pub struct ExExpr(syn::Expr);

/// A parsed closure literal.  Relies on syn::ExprClosure, carried
/// through opaquely.
#[verifier::external_type_specification]
#[verifier::external_body]
pub struct ExExprClosure(syn::ExprClosure);

/// One attribute on a parsed item.  Relies on syn::Attribute, carried
/// through opaquely.
#[verifier::external_type_specification]
#[verifier::external_body]
pub struct ExAttribute(syn::Attribute);

/// What syn::parse2::<syn::Expr> makes of a token stream: the parsed
/// expression, or nothing where the stream does not parse as one.  The
/// result depends on the tokens alone.
pub uninterp spec fn parsed_expression(input: proc_macro2::TokenStream) -> Option<syn::Expr>;

/// The diagnostic syn's parser reports for a stream that does not parse
/// as an expression: its anchoring span and its message text
/// (syn::Error::span and the error's Display text).  The result depends
/// on the tokens alone.
pub uninterp spec fn parse_failure_of(input: proc_macro2::TokenStream) -> (
    proc_macro2::Span,
    Seq<char>,
);

/// What syn's Expr enum holds where the expression is a closure literal:
/// the closure, or nothing for every other expression shape.  The result
/// depends on the expression alone.
pub uninterp spec fn closure_of(expr: syn::Expr) -> Option<syn::ExprClosure>;

/// The attributes written on a closure (syn::ExprClosure's attrs field),
/// in source order.
pub uninterp spec fn attributes_of(closure: syn::ExprClosure) -> Seq<syn::Attribute>;

/// The source span of an attribute (syn::spanned::Spanned).
pub uninterp spec fn attr_span_of(attr: syn::Attribute) -> proc_macro2::Span;

/// The source span of a whole expression (syn::spanned::Spanned).
pub uninterp spec fn expr_span_of(expr: syn::Expr) -> proc_macro2::Span;

/// The closure's own tokens, as quote's ToTokens re-emits them.  The
/// result depends on the closure alone.
pub uninterp spec fn tokens_of(closure: syn::ExprClosure) -> proc_macro2::TokenStream;

/// That `joined` came from joining `first` and `last`
/// (proc_macro2::Span::join).  Whether the join succeeds or degrades to
/// `first` depends on the build environment, so this is a relation, not
/// a function of the two spans.
pub uninterp spec fn span_joins(
    first: proc_macro2::Span,
    last: proc_macro2::Span,
    joined: proc_macro2::Span,
) -> bool;

/// The acceptance rule of the front-end: the input parses as an
/// expression, that expression is a closure literal, and the closure
/// carries no attributes.
pub open spec fn accepted_input(input: proc_macro2::TokenStream) -> bool {
    parsed_expression(input) matches Some(expr) && closure_of(expr) matches Some(closure)
        && attributes_of(closure).len() == 0
}

/// Relies on syn::parse2::<syn::Expr>: parses the token stream as one
/// generic expression; a failure comes back as the parser's diagnostic,
/// converted to its span and its message (syn::Error::span and the
/// error's Display text).
#[verifier::external_body]
fn parse_expression(input: proc_macro2::TokenStream) -> (r: Result<
    syn::Expr,
    (proc_macro2::Span, String),
>)
    ensures
        r matches Ok(expr) ==> parsed_expression(input) == Some(expr),
        r matches Err(failure) ==> {
            &&& parsed_expression(input) is None
            &&& failure.0 == parse_failure_of(input).0
            &&& failure.1@ == parse_failure_of(input).1
        },
{
    match syn::parse2::<syn::Expr>(input) {
        Ok(expr) => Ok(expr),
        Err(error) => {
            let span = error.span();
            Err((span, error.to_string()))
        },
    }
}

/// Relies on syn's Expr enum: hands back the closure when the parsed
/// expression is a closure literal, and the expression itself, unchanged,
/// otherwise.
#[verifier::external_body]
fn expr_into_closure(expr: syn::Expr) -> (r: Result<syn::ExprClosure, syn::Expr>)
    ensures
        r matches Ok(closure) ==> closure_of(expr) == Some(closure),
        r matches Err(other) ==> closure_of(expr) is None && other == expr,
{
    match expr {
        syn::Expr::Closure(closure) => Ok(closure),
        other => Err(other),
    }
}

/// Relies on syn::ExprClosure's attrs field: the attributes written on
/// the closure.
#[verifier::external_body]
fn closure_attributes(closure: &syn::ExprClosure) -> (r: &Vec<syn::Attribute>)
    ensures
        r@ == attributes_of(*closure),
{
    &closure.attrs
}

/// Relies on syn::spanned::Spanned for syn::Attribute: the source span
/// of the attribute.
#[verifier::external_body]
fn attribute_span(attr: &syn::Attribute) -> (r: proc_macro2::Span)
    ensures
        r == attr_span_of(*attr),
{
    syn::spanned::Spanned::span(attr)
}

/// Relies on syn::spanned::Spanned for syn::Expr: the source span of the
/// whole expression.
#[verifier::external_body]
fn expr_span(expr: &syn::Expr) -> (r: proc_macro2::Span)
    ensures
        r == expr_span_of(*expr),
{
    syn::spanned::Spanned::span(expr)
}

/// Relies on proc_macro2::Span::join: the range covering both spans;
/// where the build cannot join spans it degrades to the first one.
#[verifier::external_body]
fn join_spans(first: proc_macro2::Span, last: proc_macro2::Span) -> (r: proc_macro2::Span)
    ensures
        span_joins(first, last, r),
{
    match first.join(last) {
        Some(joined) => joined,
        None => first,
    }
}

/// Relies on quote's ToTokens for syn::ExprClosure: the closure's own
/// tokens, re-emitted unchanged.
#[verifier::external_body]
fn closure_tokens(closure: &syn::ExprClosure) -> (r: proc_macro2::TokenStream)
    ensures
        r == tokens_of(*closure),
{
    quote::ToTokens::to_token_stream(closure)
}

/// The span covering a non-empty run of attributes: a single attribute's
/// own span, or, from two up, the join of the first and the last
/// attribute's spans (degrading to the first where joining is
/// unavailable).
pub fn span_to_attrs(attrs: &Vec<syn::Attribute>) -> (r: proc_macro2::Span)
    requires
        attrs@.len() > 0,
    ensures
        attrs@.len() == 1 ==> r == attr_span_of(attrs@[0]),
        attrs@.len() > 1 ==> span_joins(
            attr_span_of(attrs@[0]),
            attr_span_of(attrs@[attrs@.len() - 1]),
            r,
        ),
{
    let first = attribute_span(&attrs[0]);
    if attrs.len() == 1 {
        first
    } else {
        let last = attribute_span(&attrs[attrs.len() - 1]);
        join_spans(first, last)
    }
}

/// The attribute rule, over the count the parser found: a closure is
/// accepted exactly when it carries no attributes.
pub fn accepts_attribute_count(n_attrs: usize) -> (accepted: bool)
    ensures
        accepted <==> n_attrs == 0,
{
    n_attrs == 0
}

/// Validates a parsed closure: exactly those with no attributes are
/// accepted and re-emitted unchanged; one with attributes is rejected
/// with `AttributesNotSupported`, anchored at the span of its attributes.
pub fn transform_closure(closure: syn::ExprClosure) -> (r: Result<
    proc_macro2::TokenStream,
    crate::errors::Error,
>)
    ensures
        r matches Ok(_) <==> attributes_of(closure).len() == 0,
        r matches Ok(tokens) ==> tokens == tokens_of(closure),
        r matches Err(e) ==> {
            &&& e.kind == ErrorKind::AttributesNotSupported(AttributesNotSupported)
            &&& attributes_of(closure).len() == 1 ==> e.span == attr_span_of(
                attributes_of(closure)[0],
            )
            &&& attributes_of(closure).len() > 1 ==> span_joins(
                attr_span_of(attributes_of(closure)[0]),
                attr_span_of(attributes_of(closure)[attributes_of(closure).len() - 1]),
                e.span,
            )
        },
{
    let attrs = closure_attributes(&closure);
    if !accepts_attribute_count(attrs.len()) {
        let span = span_to_attrs(attrs);
        return Err(crate::errors::Error::new(span, ErrorKind::from(AttributesNotSupported)));
    }
    Ok(closure_tokens(&closure))
}

/// The whole gate.  Exactly the accepted inputs — those that parse as a
/// closure literal with no attributes — come back `Ok`, holding that
/// closure's tokens re-emitted unchanged.  Every other input earns the
/// one error kind its failure calls for: input that does not parse, a
/// `ParseError` (at the parser's span, with its message); an expression
/// that is no closure, a `ClosureExpressionExpected`, anchored at the
/// whole expression's span; a closure with attributes, an
/// `AttributesNotSupported`.
pub fn transform_expr(input: proc_macro2::TokenStream) -> (r: Result<
    proc_macro2::TokenStream,
    crate::errors::Error,
>)
    ensures
        r matches Ok(_) <==> accepted_input(input),
        r matches Ok(tokens) ==> (parsed_expression(input) matches Some(expr)
            && closure_of(expr) matches Some(closure) && tokens == tokens_of(closure)),
        r matches Err(e) ==> {
            &&& (e.kind matches ErrorKind::ParseError(_) <==> parsed_expression(input) is None)
            &&& (e.kind matches ErrorKind::ClosureExpressionExpected(_) <==> (parsed_expression(
                input,
            ) matches Some(expr) && closure_of(expr) is None))
            &&& (e.kind matches ErrorKind::AttributesNotSupported(_) <==> (parsed_expression(input)
                matches Some(expr) && closure_of(expr) matches Some(closure) && attributes_of(
                closure,
            ).len() > 0))
            &&& e.kind matches ErrorKind::ClosureExpressionExpected(_) ==> (parsed_expression(
                input,
            ) matches Some(expr) && e.span == expr_span_of(expr))
            &&& e.kind matches ErrorKind::ParseError(p) ==> (e.span == parse_failure_of(input).0
                && p.0@ == parse_failure_of(input).1)
            &&& e.kind matches ErrorKind::AttributesNotSupported(_) ==> (parsed_expression(input)
                matches Some(expr) && closure_of(expr) matches Some(closure) && {
                &&& attributes_of(closure).len() == 1 ==> e.span == attr_span_of(
                    attributes_of(closure)[0],
                )
                &&& attributes_of(closure).len() > 1 ==> span_joins(
                    attr_span_of(attributes_of(closure)[0]),
                    attr_span_of(attributes_of(closure)[attributes_of(closure).len() - 1]),
                    e.span,
                )
            })
        },
{
    let expr = match parse_expression(input) {
        Ok(expr) => expr,
        Err((span, message)) => {
            return Err(crate::errors::Error::new(span, ErrorKind::from(ParseError(message))));
        },
    };
    let closure = match expr_into_closure(expr) {
        Ok(closure) => closure,
        Err(other) => {
            let span = expr_span(&other);
            return Err(crate::errors::Error::new(span, ErrorKind::from(ClosureExpressionExpected)));
        },
    };
    transform_closure(closure)
}

} // verus!
