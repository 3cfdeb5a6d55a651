use rooc::consts::{InputSpan, Spanned};
use rooc::math::operators::{BinOp, UnOp};
use rooc::parser::model_transformer::transform_error::TransformError;
use rooc::primitives::primitive::PrimitiveKind;

fn span(line: usize, column: usize) -> InputSpan {
    InputSpan {
        start_line: line,
        end_line: line,
        start_column: column,
        end_column: column + 1,
        start: 0,
        len: 1,
        tempered: false,
    }
}

fn located(e: TransformError, s: InputSpan, note: Option<&str>) -> TransformError {
    TransformError::SpannedError {
        spanned_error: Spanned::new(Box::new(e), s),
        value: note.map(|n| n.to_string()),
    }
}

#[test]
fn messages_of_each_kind() {
    let cases: Vec<(TransformError, &str)> = vec![
        (
            TransformError::UndeclaredVariable("x".to_string()),
            "[UndeclaredVariable] Variable \"x\" was not declared",
        ),
        (
            TransformError::UndeclaredVariableDomain("y".to_string()),
            "[UndeclaredVariableDomain] The domain of variable \"y\" was not defined",
        ),
        (
            TransformError::AlreadyDeclaredVariable("z".to_string()),
            "[AlreadyDeclaredVariable] Variable z was already declared",
        ),
        (TransformError::OutOfBounds("index 4".to_string()), "[OutOfBounds] index 4"),
        (
            TransformError::WrongArgument { got: PrimitiveKind::String, expected: PrimitiveKind::Integer },
            "[WrongArgument] expected \"Integer\", got \"String\"",
        ),
        (
            TransformError::WrongExpectedArgument {
                got: PrimitiveKind::Boolean,
                one_of: vec![PrimitiveKind::Number, PrimitiveKind::Integer],
            },
            "[WrongExpectedArgument] expected one of \"Number, Integer\", got \"Boolean\"",
        ),
        (
            TransformError::NonExistentFunction("foo".to_string()),
            "[NonExistentFunction] Function \"foo\" does not exist",
        ),
        (
            TransformError::WrongFunctionSignature {
                signature: vec![
                    ("of".to_string(), PrimitiveKind::Graph),
                    ("n".to_string(), PrimitiveKind::Iterable(Box::new(PrimitiveKind::Integer))),
                ],
                got: vec![PrimitiveKind::String],
            },
            "[WrongFunctionSignature] Wrong number of arguments, expected \"of: Graph, n: Integer[]\", got \"String\"",
        ),
        (
            TransformError::BinOpError {
                operator: BinOp::Mul,
                lhs: PrimitiveKind::String,
                rhs: PrimitiveKind::Number,
            },
            "[BinOpError] operator \"*\" cannot be applied to \"String\" and \"Number\"",
        ),
        (
            TransformError::UnOpError { operator: UnOp::Neg, exp: PrimitiveKind::Graph },
            "[UnOpError] operator \"-\" cannot be applied to \"Graph\"",
        ),
        (
            TransformError::Unspreadable(PrimitiveKind::GraphNode),
            "[Unspreadable] type \"GraphNode\" is not spreadable",
        ),
        (
            TransformError::SpreadError {
                to_spread: PrimitiveKind::Tuple(vec![PrimitiveKind::Integer]),
                in_variables: vec!["a".to_string(), "b".to_string()],
            },
            "[SpreadError] type \"(Integer)\" cannot be spread in \"a, b\"",
        ),
        (
            TransformError::TooLarge { message: "too many".to_string(), got: -5, max: 10 },
            "[TooLarge] too many: got -5, max 10",
        ),
        (TransformError::Other("oops".to_string()), "[Other] oops"),
    ];
    for (e, m) in cases {
        assert_eq!(e.to_string(), m);
    }
}

#[test]
fn located_errors_read_as_the_error() {
    let e = located(TransformError::Other("bad".to_string()), span(1, 2), Some("here"));
    assert_eq!(e.to_string(), "[Other] bad");
}

#[test]
fn constructors_locate_the_error() {
    let e = TransformError::from_wrong_type(PrimitiveKind::Integer, PrimitiveKind::Boolean, span(3, 4));
    assert_eq!(e.to_string(), "[WrongArgument] expected \"Integer\", got \"Boolean\"");
    assert_eq!(e.origin_span(), Some(span(3, 4)));
    let e = TransformError::from_wrong_binop(BinOp::And, PrimitiveKind::Number, PrimitiveKind::Integer, span(5, 6));
    assert_eq!(e.to_string(), "[BinOpError] operator \"and\" cannot be applied to \"Number\" and \"Integer\"");
    let e = TransformError::from_wrong_unop(UnOp::Not, PrimitiveKind::String, span(7, 8));
    assert_eq!(e.to_string(), "[UnOpError] operator \"not \" cannot be applied to \"String\"");
    assert_eq!(format!("{:?}", e.trace()), format!("{:?}", vec![(span(7, 8), None::<String>)]));
}

#[test]
fn trace_runs_from_the_origin_outwards() {
    let e = located(
        located(located(TransformError::Other("x".to_string()), span(1, 1), Some("inner")), span(2, 2), None),
        span(3, 3),
        Some("outer"),
    );
    let trace = e.trace();
    assert_eq!(trace.len(), 3);
    assert_eq!(trace[0], (span(1, 1), Some("inner".to_string())));
    assert_eq!(trace[1], (span(2, 2), None));
    assert_eq!(trace[2], (span(3, 3), Some("outer".to_string())));
    assert_eq!(e.origin_span(), Some(span(1, 1)));
}

#[test]
fn neighbouring_layers_with_one_span_count_once() {
    let e = located(
        located(located(TransformError::Other("x".to_string()), span(1, 1), Some("a")), span(1, 1), Some("b")),
        span(2, 2),
        None,
    );
    let trace = e.trace();
    assert_eq!(trace.len(), 2);
    // the outermost layer of the run is kept
    assert_eq!(trace[0], (span(1, 1), Some("b".to_string())));
    assert_eq!(trace[1], (span(2, 2), None));
}

#[test]
fn unlocated_errors_have_no_trace() {
    let e = TransformError::Other("x".to_string());
    assert!(e.trace().is_empty());
    assert_eq!(e.origin_span(), None);
    assert_eq!(e.traced_error(), "[Other] x\n");
}

#[test]
fn traced_error_lists_the_trace() {
    let e = located(
        located(TransformError::UndeclaredVariable("k".to_string()), span(4, 9), Some("in sum")),
        span(6, 2),
        None,
    );
    assert_eq!(
        e.traced_error(),
        "[UndeclaredVariable] Variable \"k\" was not declared\n\tat 4:9\" (in sum)\"\n\tat 6:2\"\""
    );
}

#[test]
fn base_error_strips_locations() {
    let e = located(located(TransformError::OutOfBounds("i".to_string()), span(1, 1), None), span(2, 2), None);
    match e.base_error() {
        TransformError::OutOfBounds(m) => assert_eq!(m, "i"),
        other => panic!("unexpected {:?}", other),
    }
    let plain = TransformError::Other("p".to_string());
    assert_eq!(plain.base_error().to_string(), "[Other] p");
}

#[test]
fn law_add_span_keeps_base_and_message() {
    let inner = located(TransformError::NonExistentFunction("f".to_string()), span(1, 1), None);
    let before = inner.to_string();
    let e = inner.add_span(&span(2, 2));
    assert_eq!(e.to_string(), before);
    assert_eq!(e.base_error().to_string(), "[NonExistentFunction] Function \"f\" does not exist");
    assert!(!matches!(e.base_error(), TransformError::SpannedError { .. }));
}

#[test]
fn law_add_span_trace() {
    let e = TransformError::Other("x".to_string()).add_span(&span(1, 1));
    assert_eq!(e.trace(), vec![(span(1, 1), None)]);
    let e = e.add_span(&span(2, 2));
    assert_eq!(e.trace(), vec![(span(1, 1), None), (span(2, 2), None)]);
    // the same span again takes the place of the last entry
    let e = located(TransformError::Other("x".to_string()), span(5, 5), Some("note")).add_span(&span(5, 5));
    assert_eq!(e.trace(), vec![(span(5, 5), None)]);
}

#[test]
fn law_add_span_keeps_origin() {
    let e = TransformError::Other("x".to_string());
    assert_eq!(e.add_span(&span(9, 9)).origin_span(), Some(span(9, 9)));
    let e = located(TransformError::Other("x".to_string()), span(1, 1), None);
    assert_eq!(e.add_span(&span(9, 9)).origin_span(), Some(span(1, 1)));
}
