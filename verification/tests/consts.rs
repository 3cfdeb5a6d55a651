use rooc::consts::{CompilationError, InputSpan, ParseError, Spanned};

fn span(start: usize, len: usize) -> InputSpan {
    InputSpan {
        start_line: 2,
        end_line: 3,
        start_column: 4,
        end_column: 5,
        start,
        len,
        tempered: false,
    }
}

#[test]
fn input_span_default_is_empty() {
    let d = InputSpan::default();
    assert_eq!(d.start_line, 0);
    assert_eq!(d.end_line, 0);
    assert_eq!(d.start_column, 0);
    assert_eq!(d.end_column, 0);
    assert_eq!(d.start, 0);
    assert_eq!(d.len, 0);
    assert!(!d.tempered);
}

#[test]
fn span_text_inside() {
    let text = "max x + y";
    assert_eq!(span(4, 1).get_span_text(text), Ok("x"));
    assert_eq!(span(0, 3).get_span_text(text), Ok("max"));
    assert_eq!(span(2, 0).get_span_text(text), Ok(""));
}

#[test]
fn span_text_refused_at_or_past_the_end() {
    let text = "max x";
    // ends exactly at the end of the text: refused
    assert_eq!(span(4, 1).get_span_text(text), Err(()));
    assert_eq!(span(5, 0).get_span_text(text), Err(()));
    assert_eq!(span(9, 1).get_span_text(text), Err(()));
    assert_eq!(span(0, 0).get_span_text(""), Err(()));
}

#[test]
fn spanned_value_and_span() {
    let s = Spanned::new(String::from("x_1"), span(1, 3));
    assert_eq!(s.get_span_value(), "x_1");
    assert_eq!(*s.get_span(), span(1, 3));
    assert_eq!(s.get_span_text("ax_1 + 2"), Ok("x_1"));
    assert_eq!(s.into_span_value(), "x_1");
}

#[test]
fn parse_error_messages() {
    assert_eq!(
        ParseError::UnexpectedToken("+".to_string()).to_string(),
        "Unexpected token: \"+\""
    );
    assert_eq!(
        ParseError::MissingToken("s.t.".to_string()).to_string(),
        "Missing token: \"s.t.\""
    );
    assert_eq!(
        ParseError::SemanticError("bad".to_string()).to_string(),
        "Semantic error: \"bad\""
    );
    assert_eq!(
        ParseError::WrongNumberOfArguments(1, vec!["a".to_string(), "b".to_string()]).to_string(),
        "Wrong number of arguments: got 1, expected 2: (a, b)"
    );
    assert_eq!(
        ParseError::WrongNumberOfArguments(0, vec![]).to_string(),
        "Wrong number of arguments: got 0, expected 0: ()"
    );
}

#[test]
fn compilation_error_messages() {
    let e = CompilationError::new(
        ParseError::UnexpectedToken("*".to_string()),
        span(0, 1),
        "* 2".to_string(),
    );
    assert_eq!(e.to_string(), "Error at line 2:4 to 3:5\n\tUnexpected token: \"*\" * 2");
    assert_eq!(e.to_error_string(), "Unexpected token: \"*\" * 2");
}
