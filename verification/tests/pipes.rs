use rooc::parser::model_transformer::model::VariableKind;
use rooc::consts::{InputSpan, Spanned};
use rooc::pipe::{pipe, pipe_definitions, pipe_executors};
use rooc::math::math_enums::check_integer_range;
use rooc::parser::model_transformer::transform_error::TransformError;
use rooc::text::{i64_to_decimal, join_strings, str_eq, u64_to_decimal};

#[test]
fn data_type_names() {
    assert_eq!(pipe_definitions::PipeDataType::String.to_string(), "String");
    assert_eq!(pipe_definitions::PipeDataType::OptimalTableauWithSteps.to_string(), "OptimalTableauWithSteps");
    assert_eq!(pipe_definitions::PipeDataType::MILPSolution.to_string(), "MILPSolution");
    assert_eq!(pipe_definitions::PipeDataType::RealSolution.to_string(), "RealSolution");
    assert_eq!(pipe::PipeDataType::BinarySolution.to_string(), "BinarySolution");
    assert_eq!(pipe::PipeDataType::PreModel.to_string(), "PreModel");
}

#[test]
fn pipes_are_built() {
    let _ = pipe_executors::CompilerPipe::new();
    let _ = pipe_executors::AutoSolverPipe::default();
    let _ = pipe_executors::MILPSolverPipe::new();
    let _ = pipe_executors::StepByStepSimplexPipe::default();
    assert_eq!(format!("{:?}", pipe_executors::Pipes::RealPipe), "RealPipe");
}

fn at() -> InputSpan {
    InputSpan::default()
}

#[test]
fn variable_kind_text() {
    let single = VariableKind::Single(Spanned::new("i".to_string(), at()));
    assert_eq!(single.to_string(), "i");
    let tuple = VariableKind::Tuple(vec![
        Spanned::new("u".to_string(), at()),
        Spanned::new("v".to_string(), at()),
        Spanned::new("c".to_string(), at()),
    ]);
    assert_eq!(tuple.to_string(), "(u, v, c)");
    assert_eq!(VariableKind::Tuple(vec![]).to_string(), "()");
}

fn span(line: usize) -> InputSpan {
    InputSpan { start_line: line, ..InputSpan::default() }
}

#[test]
fn integer_range_bounds() {
    assert_eq!(check_integer_range(-3, span(1), 7, span(2)).ok(), Some((-3, 7)));
    assert_eq!(check_integer_range(5, span(1), 5, span(2)).ok(), Some((5, 5)));
    assert_eq!(
        check_integer_range(i32::MIN as i64, span(1), i32::MAX as i64, span(2)).ok(),
        Some((i32::MIN, i32::MAX))
    );
}

#[test]
fn integer_range_too_large() {
    let e = check_integer_range(1i64 << 40, span(1), 2, span(2)).err().unwrap();
    assert_eq!(
        e.to_string(),
        "[TooLarge] Maximum value of an IntegerRange must be less than or equal to 2147483647: got 1099511627776, max 2147483647"
    );
    assert_eq!(e.origin_span(), Some(span(1)));
    let e = check_integer_range(0, span(1), -(1i64 << 40), span(2)).err().unwrap();
    assert_eq!(e.origin_span(), Some(span(2)));
    match e.base_error() {
        TransformError::TooLarge { got, max, .. } => {
            assert_eq!(*got, -(1i64 << 40));
            assert_eq!(*max, 2147483647);
        }
        other => panic!("unexpected {:?}", other),
    }
    // the lower bound is checked first
    let e = check_integer_range(i64::MAX, span(1), i64::MIN, span(2)).err().unwrap();
    assert_eq!(e.origin_span(), Some(span(1)));
}

#[test]
fn integer_range_reversed() {
    let e = check_integer_range(9, span(1), -2, span(2)).err().unwrap();
    assert_eq!(
        e.to_string(),
        "[Other] Minimum value of an IntegerRange must be less than or equal to the maximum value. Got 9 > -2"
    );
    assert_eq!(e.origin_span(), None);
}

#[test]
fn text_helpers() {
    assert_eq!(u64_to_decimal(0), "0");
    assert_eq!(u64_to_decimal(u64::MAX), "18446744073709551615");
    assert_eq!(i64_to_decimal(i64::MIN), "-9223372036854775808");
    assert_eq!(i64_to_decimal(-42), "-42");
    assert_eq!(join_strings(&vec!["a".to_string(), "b".to_string()], ", "), "a, b");
    assert_eq!(join_strings(&vec![], ", "), "");
    assert!(str_eq("ab", "ab"));
    assert!(!str_eq("ab", "abc"));
    assert!(!str_eq("é", "e"));
}
