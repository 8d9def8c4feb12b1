use expression::errors::attributes::AttributesNotSupported;
use expression::errors::expressions::ClosureExpressionExpected;
use expression::errors::parse_error::ParseError;
use expression::errors::ErrorDescription;
use expression::errors::ErrorKind;
use expression::frontend::transform_expr;

fn tokens(source: &str) -> proc_macro2::TokenStream {
    source.parse::<proc_macro2::TokenStream>().unwrap()
}

#[test]
fn attributes_not_supported_test() {
    let result = transform_expr(tokens("#[azaz] |x| x * 2"));
    assert!(result.is_err());
    let err = result.unwrap_err();
    assert_eq!(err.kind, AttributesNotSupported.into());
}

#[test]
fn plain_closure_is_accepted_and_reemitted() {
    let input = tokens("|x| x * 2");
    let expected = input.to_string();
    let result = transform_expr(input);
    assert!(result.is_ok());
    assert_eq!(result.unwrap().to_string(), expected);
}

#[test]
fn non_closure_expression_is_rejected() {
    let result = transform_expr(tokens("1 + 2"));
    assert!(result.is_err());
    let err = result.unwrap_err();
    assert_eq!(err.kind, ClosureExpressionExpected.into());
}

#[test]
fn incomplete_closure_is_a_parse_error() {
    let result = transform_expr(tokens("|x|"));
    assert!(result.is_err());
    let err = result.unwrap_err();
    assert!(matches!(err.kind, ErrorKind::ParseError(_)));
}

#[test]
fn multi_attribute_closure_is_rejected() {
    let result = transform_expr(tokens("#[one] #[two] |x| x * 2"));
    assert!(result.is_err());
    let err = result.unwrap_err();
    assert_eq!(err.kind, AttributesNotSupported.into());
}

#[test]
fn attribute_rule_accepts_only_bare_closures() {
    assert!(expression::frontend::accepts_attribute_count(0));
    assert!(!expression::frontend::accepts_attribute_count(1));
    assert!(!expression::frontend::accepts_attribute_count(2));
}

#[test]
fn attributes_not_supported_description_text() {
    let description = AttributesNotSupported.description();
    assert_eq!(description.message, "closure attributes is not supported in expressions");
    assert!(description.help.is_empty());
    assert!(description.note.is_empty());
}

#[test]
fn closure_expression_expected_description_text() {
    let description = ClosureExpressionExpected.description();
    assert_eq!(description.message, "closure expression expected");
    assert_eq!(
        description.help,
        ["Expressions need to be inside a closure to be unbounded from local context"],
    );
    assert_eq!(description.note, ["Example of usage: expr!(|a| a * 2)"]);
}

#[test]
fn parse_error_description_carries_the_parser_message() {
    let parse_error = ParseError(String::from("unexpected end of input"));
    let description = parse_error.description();
    assert_eq!(description.message, "unexpected end of input");
    assert!(description.help.is_empty());
    assert!(description.note.is_empty());
}

#[test]
fn parse_errors_compare_by_message() {
    let a = ParseError(String::from("unexpected token"));
    let b = ParseError(String::from("unexpected token"));
    let c = ParseError(String::from("expected `|`"));
    assert_eq!(a, b);
    assert_ne!(a, c);
}

#[test]
fn error_kind_descriptions_match_their_kinds() {
    let kind: ErrorKind = ClosureExpressionExpected.into();
    let description = kind.description();
    assert_eq!(description.message, "closure expression expected");
    let kind: ErrorKind = ParseError(String::from("bad token")).into();
    assert_eq!(kind.description().message, "bad token");
}

#[test]
fn with_help_and_with_note_append_lines() {
    let description = ErrorDescription::new("base")
        .with_help("first help")
        .with_help("second help")
        .with_note("only note");
    assert_eq!(description.message, "base");
    assert_eq!(description.help, ["first help", "second help"]);
    assert_eq!(description.note, ["only note"]);
}

#[test]
fn rendered_lines_follow_the_rendering_rule() {
    let description = ErrorDescription::new("primary message")
        .with_help("try a closure")
        .with_help("or remove the attribute")
        .with_note("see the examples");
    assert_eq!(
        description.rendered_lines(),
        [
            "primary message",
            "help: try a closure",
            "help: or remove the attribute",
            "note: see the examples",
        ],
    );
}

#[test]
fn rendered_lines_omit_empty_groups() {
    let description = ErrorDescription::new("only the message");
    assert_eq!(description.rendered_lines(), ["only the message"]);
    let with_note = ErrorDescription::new("a message").with_note("a note");
    assert_eq!(with_note.rendered_lines(), ["a message", "note: a note"]);
}
