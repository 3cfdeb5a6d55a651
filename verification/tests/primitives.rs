use rooc::math::operators::{BinOp, UnOp};
use rooc::primitives::builtin_primitive_traits_impl::{
    apply_binary_op, apply_unary_op, scalar_of, wrap_u64, OpOutcome, Scalar,
};
use rooc::primitives::iterable::latexify_vec;
use rooc::primitives::primitive::{
    duplicate_kinds, number_can_apply_binary_op, number_can_apply_unary_op, Primitive, PrimitiveKind,
};
use rooc::primitives::primitive_traits::{ApplyOp, OperatorError};
use rooc::parser::model_transformer::transform_error::TransformError;

fn dbg<T: std::fmt::Debug>(v: T) -> String {
    format!("{:?}", v)
}

#[test]
fn kind_names() {
    assert_eq!(PrimitiveKind::Number.to_string(), "Number");
    assert_eq!(PrimitiveKind::PositiveInteger.to_string(), "PositiveInteger");
    assert_eq!(PrimitiveKind::Iterable(Box::new(PrimitiveKind::Integer)).to_string(), "Integer[]");
    assert_eq!(
        PrimitiveKind::Iterable(Box::new(PrimitiveKind::Iterable(Box::new(PrimitiveKind::String))))
            .to_string(),
        "String[][]"
    );
    assert_eq!(
        PrimitiveKind::Tuple(vec![PrimitiveKind::String, PrimitiveKind::Boolean]).to_string(),
        "(String, Boolean)"
    );
    assert_eq!(PrimitiveKind::Tuple(vec![]).to_string(), "()");
    assert_eq!(PrimitiveKind::Undefined.to_string(), "Undefined");
    assert_eq!(PrimitiveKind::Any.to_string(), "Any");
}

#[test]
fn kind_predicates() {
    assert!(PrimitiveKind::Number.is_numeric());
    assert!(PrimitiveKind::Boolean.is_numeric());
    assert!(PrimitiveKind::PositiveInteger.is_numeric());
    assert!(!PrimitiveKind::String.is_numeric());
    assert!(PrimitiveKind::Any.is_any());
    assert!(!PrimitiveKind::Undefined.is_any());
    assert!(PrimitiveKind::Iterable(Box::new(PrimitiveKind::Any)).is_iterable());
    assert!(!PrimitiveKind::Tuple(vec![]).is_iterable());
}

#[test]
fn spreading() {
    let t = PrimitiveKind::Tuple(vec![PrimitiveKind::Integer, PrimitiveKind::String]);
    assert_eq!(dbg(t.can_spread_into().ok().unwrap()), "[Integer, String]");
    assert_eq!(
        dbg(PrimitiveKind::GraphEdge.can_spread_into().ok().unwrap()),
        "[String, String, Number]"
    );
    match PrimitiveKind::Graph.can_spread_into() {
        Err(TransformError::Unspreadable(k)) => assert_eq!(k.to_string(), "Graph"),
        _ => panic!("a graph does not spread"),
    }
    match PrimitiveKind::Integer.can_spread_into() {
        Err(e) => assert_eq!(e.to_string(), "[Unspreadable] type \"Integer\" is not spreadable"),
        Ok(_) => panic!("an integer does not spread"),
    }
}

#[test]
fn operator_rules_by_kind() {
    let i = PrimitiveKind::Integer;
    assert!(i.can_apply_binary_op(BinOp::Add, PrimitiveKind::Number));
    assert!(i.can_apply_binary_op(BinOp::Div, PrimitiveKind::Boolean));
    assert!(!i.can_apply_binary_op(BinOp::And, PrimitiveKind::Integer));
    assert!(!i.can_apply_binary_op(BinOp::Add, PrimitiveKind::String));
    assert!(PrimitiveKind::Boolean.can_apply_binary_op(BinOp::Xor, PrimitiveKind::Boolean));
    assert!(!PrimitiveKind::Boolean.can_apply_binary_op(BinOp::Xor, PrimitiveKind::Integer));
    assert!(PrimitiveKind::String.can_apply_binary_op(BinOp::Add, PrimitiveKind::String));
    assert!(!PrimitiveKind::String.can_apply_binary_op(BinOp::Mul, PrimitiveKind::String));
    assert!(PrimitiveKind::Any.can_apply_binary_op(BinOp::Iff, PrimitiveKind::Graph));
    assert!(!PrimitiveKind::Undefined.can_apply_binary_op(BinOp::Add, PrimitiveKind::Integer));
    assert!(!PrimitiveKind::Graph.can_apply_binary_op(BinOp::Add, PrimitiveKind::Graph));
    assert!(PrimitiveKind::Integer.can_apply_unary_op(UnOp::Neg));
    assert!(!PrimitiveKind::Integer.can_apply_unary_op(UnOp::Not));
    assert!(PrimitiveKind::Boolean.can_apply_unary_op(UnOp::Not));
    assert!(PrimitiveKind::Boolean.can_apply_unary_op(UnOp::Neg));
    assert!(PrimitiveKind::Any.can_apply_unary_op(UnOp::Not));
    assert!(!PrimitiveKind::String.can_apply_unary_op(UnOp::Neg));
    assert!(number_can_apply_binary_op(BinOp::Sub, PrimitiveKind::PositiveInteger));
    assert!(!number_can_apply_binary_op(BinOp::Or, PrimitiveKind::Boolean));
    assert!(number_can_apply_unary_op(UnOp::Neg));
    assert!(!number_can_apply_unary_op(UnOp::Not));
    assert!(<String as ApplyOp>::can_apply_binary_op(BinOp::Add, PrimitiveKind::String));
    assert!(<i64 as ApplyOp>::can_apply_binary_op(BinOp::Mul, PrimitiveKind::Boolean));
    assert!(!<u64 as ApplyOp>::can_apply_unary_op(UnOp::Not));
    assert!(<bool as ApplyOp>::can_apply_unary_op(UnOp::Neg));
}

#[test]
fn duplicate_keeps_kinds() {
    let v = vec![PrimitiveKind::Iterable(Box::new(PrimitiveKind::GraphNode)), PrimitiveKind::Any];
    assert_eq!(dbg(duplicate_kinds(&v)), dbg(&v));
    assert_eq!(dbg(v[0].duplicate()), "Iterable(GraphNode)");
}

#[test]
fn operator_error_messages() {
    assert_eq!(
        OperatorError::incompatible_type(BinOp::Add, PrimitiveKind::String, PrimitiveKind::Integer)
            .to_string(),
        "Incompatible types for operator \"+\", expected \"String\", found \"Integer\""
    );
    assert_eq!(
        OperatorError::unsupported_bin_operation(BinOp::And, PrimitiveKind::Number).to_string(),
        "Unsupported binary operation \"and\" for type \"Number\""
    );
    assert_eq!(
        OperatorError::unsupported_un_operation(UnOp::Not, PrimitiveKind::Integer).to_string(),
        "Unsupported unary operation \"not \" for type \"Integer\""
    );
    assert_eq!(OperatorError::UndefinedUse.to_string(), "Used \"Undefined\" in operation");
}

#[test]
fn integer_arithmetic_is_exact() {
    let r = apply_binary_op(&Scalar::Integer(7), BinOp::Sub, &Scalar::Integer(10));
    assert_eq!(dbg(r), "Ok(Value(Integer(-3)))");
    let r = apply_binary_op(&Scalar::Integer(6), BinOp::Mul, &Scalar::Boolean(true));
    assert_eq!(dbg(r), "Ok(Value(Integer(6)))");
    let r = apply_binary_op(&Scalar::Integer(-2), BinOp::Add, &Scalar::PositiveInteger(5));
    assert_eq!(dbg(r), "Ok(Value(Integer(3)))");
}

#[test]
fn integer_overflow_is_an_error() {
    let r = apply_binary_op(&Scalar::Integer(i64::MAX), BinOp::Add, &Scalar::Integer(1));
    assert_eq!(dbg(r), "Err(Overflow { operator: Add, found: Integer })");
    let r = apply_binary_op(&Scalar::PositiveInteger(u64::MAX), BinOp::Mul, &Scalar::PositiveInteger(2));
    assert_eq!(dbg(r), "Err(Overflow { operator: Mul, found: PositiveInteger })");
}

#[test]
fn positive_integers() {
    let r = apply_binary_op(&Scalar::PositiveInteger(3), BinOp::Add, &Scalar::PositiveInteger(4));
    assert_eq!(dbg(r), "Ok(Value(PositiveInteger(7)))");
    // subtraction gives a signed integer
    let r = apply_binary_op(&Scalar::PositiveInteger(3), BinOp::Sub, &Scalar::PositiveInteger(4));
    assert_eq!(dbg(r), "Ok(Value(Integer(-1)))");
    let r = apply_binary_op(&Scalar::PositiveInteger(3), BinOp::Sub, &Scalar::Boolean(true));
    assert_eq!(dbg(r), "Ok(Value(Integer(2)))");
    let r = apply_binary_op(&Scalar::PositiveInteger(2), BinOp::Mul, &Scalar::Integer(-3));
    assert_eq!(dbg(r), "Ok(Value(Integer(-6)))");
}

#[test]
fn divisions_give_real_numbers() {
    let r = apply_binary_op(&Scalar::Integer(7), BinOp::Div, &Scalar::Integer(2));
    assert_eq!(dbg(r), "Ok(Real(Div, 7, 2))");
    let r = apply_binary_op(&Scalar::Integer(7), BinOp::Div, &Scalar::Integer(0));
    assert_eq!(dbg(r), "Err(DivisionByZero)");
    let r = apply_binary_op(&Scalar::PositiveInteger(1), BinOp::Div, &Scalar::Boolean(false));
    assert_eq!(dbg(r), "Err(DivisionByZero)");
}

#[test]
fn booleans() {
    let t = Scalar::Boolean(true);
    let f = Scalar::Boolean(false);
    assert_eq!(dbg(apply_binary_op(&t, BinOp::And, &f)), "Ok(Value(Boolean(false)))");
    assert_eq!(dbg(apply_binary_op(&t, BinOp::Or, &f)), "Ok(Value(Boolean(true)))");
    assert_eq!(dbg(apply_binary_op(&t, BinOp::Xor, &t)), "Ok(Value(Boolean(false)))");
    assert_eq!(dbg(apply_binary_op(&f, BinOp::Implies, &f)), "Ok(Value(Boolean(true)))");
    assert_eq!(dbg(apply_binary_op(&t, BinOp::Implies, &f)), "Ok(Value(Boolean(false)))");
    assert_eq!(dbg(apply_binary_op(&f, BinOp::Iff, &f)), "Ok(Value(Boolean(true)))");
    // arithmetic reads booleans as 0 and 1 and gives a real number
    assert_eq!(dbg(apply_binary_op(&t, BinOp::Add, &Scalar::Integer(2))), "Ok(Real(Add, 1, 2))");
    assert_eq!(
        dbg(apply_binary_op(&t, BinOp::And, &Scalar::Integer(2))),
        "Err(IncompatibleType { operator: And, expected: Boolean, found: Integer })"
    );
    assert_eq!(dbg(apply_unary_op(&t, UnOp::Not)), "Ok(Value(Boolean(false)))");
    assert_eq!(dbg(apply_unary_op(&t, UnOp::Neg)), "Ok(NegReal(1))");
}

#[test]
fn strings_concatenate() {
    let a = Scalar::String("ab".to_string());
    let b = Scalar::String("cd".to_string());
    assert_eq!(dbg(apply_binary_op(&a, BinOp::Add, &b)), "Ok(Value(String(\"abcd\")))");
    assert_eq!(
        dbg(apply_binary_op(&a, BinOp::Sub, &b)),
        "Err(UnsupportedBinOperation { operator: Sub, found: String })"
    );
    assert_eq!(
        dbg(apply_binary_op(&a, BinOp::Add, &Scalar::Integer(1))),
        "Err(IncompatibleType { operator: Add, expected: String, found: Integer })"
    );
    assert_eq!(
        dbg(apply_unary_op(&a, UnOp::Neg)),
        "Err(UnsupportedUnOperation { operator: Neg, found: String })"
    );
}

#[test]
fn division_by_a_number_equal_to_zero() {
    let one = Scalar::Number(1.0f64.to_bits());
    let zero = Scalar::Number(0.0f64.to_bits());
    let neg_zero = Scalar::Number((-0.0f64).to_bits());
    assert_eq!(dbg(apply_binary_op(&one, BinOp::Div, &zero)), "Err(DivisionByZero)");
    assert_eq!(dbg(apply_binary_op(&Scalar::Integer(1), BinOp::Div, &neg_zero)), "Err(DivisionByZero)");
    assert_eq!(dbg(apply_binary_op(&Scalar::PositiveInteger(1), BinOp::Div, &zero)), "Err(DivisionByZero)");
    assert_eq!(dbg(apply_binary_op(&Scalar::Boolean(true), BinOp::Div, &zero)), "Err(DivisionByZero)");
    assert_eq!(dbg(apply_binary_op(&zero, BinOp::Div, &one)), "Ok(FromNumber)");
    assert_eq!(dbg(apply_binary_op(&one, BinOp::Sub, &zero)), "Ok(FromNumber)");
    assert_eq!(dbg(scalar_of(&Primitive::Number(0.0f64.to_bits()))), dbg(zero));
}

#[test]
fn other_kinds() {
    let n = Scalar::Number(2.5f64.to_bits());
    assert_eq!(dbg(apply_binary_op(&n, BinOp::Mul, &Scalar::Integer(3))), "Ok(FromNumber)");
    assert_eq!(dbg(apply_binary_op(&n, BinOp::Div, &Scalar::Integer(0))), "Err(DivisionByZero)");
    assert_eq!(
        dbg(apply_binary_op(&n, BinOp::Or, &Scalar::Integer(0))),
        "Err(UnsupportedBinOperation { operator: Or, found: Number })"
    );
    assert_eq!(dbg(apply_unary_op(&n, UnOp::Neg)), "Ok(FromNumber)");
    let u = Scalar::Opaque(PrimitiveKind::Undefined);
    assert_eq!(dbg(apply_binary_op(&u, BinOp::Add, &Scalar::Integer(1))), "Err(UndefinedUse)");
    assert_eq!(dbg(apply_unary_op(&u, UnOp::Not)), "Err(UndefinedUse)");
    let g = Scalar::Opaque(PrimitiveKind::Graph);
    assert_eq!(
        dbg(apply_binary_op(&g, BinOp::Add, &Scalar::Integer(1))),
        "Err(UnsupportedBinOperation { operator: Add, found: Graph })"
    );
    let it = Scalar::Opaque(PrimitiveKind::Iterable(Box::new(PrimitiveKind::Integer)));
    assert_eq!(
        dbg(apply_binary_op(&it, BinOp::Add, &Scalar::Boolean(true))),
        "Err(UnsupportedBinOperation { operator: Add, found: Boolean })"
    );
    assert_eq!(
        dbg(apply_unary_op(&it, UnOp::Neg)),
        "Err(UnsupportedUnOperation { operator: Neg, found: Integer })"
    );
}

#[test]
fn negation() {
    assert_eq!(dbg(apply_unary_op(&Scalar::Integer(5), UnOp::Neg)), "Ok(Value(Integer(-5)))");
    assert_eq!(
        dbg(apply_unary_op(&Scalar::PositiveInteger(5), UnOp::Neg)),
        "Ok(Value(Integer(-5)))"
    );
    assert_eq!(
        dbg(apply_unary_op(&Scalar::Integer(5), UnOp::Not)),
        "Err(UnsupportedUnOperation { operator: Not, found: Integer })"
    );
}

#[test]
fn unsigned_reads_as_signed() {
    assert_eq!(wrap_u64(5), 5);
    assert_eq!(wrap_u64(u64::MAX), -1);
    assert_eq!(wrap_u64(1u64 << 63), i64::MIN);
}

#[test]
fn scalar_kinds() {
    assert_eq!(dbg(Scalar::Integer(1).get_type()), "Integer");
    assert_eq!(dbg(Scalar::String("x".to_string()).get_type()), "String");
    assert_eq!(dbg(Scalar::Opaque(PrimitiveKind::GraphEdge).get_type()), "GraphEdge");
}

#[test]
fn law_type_rules_agree_with_evaluation() {
    let values = vec![
        Scalar::Integer(3),
        Scalar::PositiveInteger(2),
        Scalar::Boolean(true),
        Scalar::String("s".to_string()),
        Scalar::Number(1.5f64.to_bits()),
        Scalar::Opaque(PrimitiveKind::Graph),
        Scalar::Opaque(PrimitiveKind::Undefined),
    ];
    for l in &values {
        for r in &values {
            for op in BinOp::kinds() {
                let allowed = l.get_type().can_apply_binary_op(op, r.get_type());
                let result = apply_binary_op(l, op, r);
                let type_error = matches!(
                    result,
                    Err(OperatorError::IncompatibleType { .. })
                        | Err(OperatorError::UnsupportedBinOperation { .. })
                        | Err(OperatorError::UndefinedUse)
                );
                assert_eq!(allowed, !type_error, "{:?} {:?} {:?}", l, op, r);
            }
        }
    }
}

#[test]
fn law_unary_type_rules_exact() {
    let values = vec![
        Scalar::Integer(3),
        Scalar::PositiveInteger(2),
        Scalar::Boolean(false),
        Scalar::String("s".to_string()),
        Scalar::Number(1.5f64.to_bits()),
        Scalar::Opaque(PrimitiveKind::Tuple(vec![])),
    ];
    for v in &values {
        for op in UnOp::kinds() {
            let allowed = v.get_type().can_apply_unary_op(op);
            assert_eq!(allowed, apply_unary_op(v, op).is_ok(), "{:?} {:?}", v, op);
        }
    }
}

#[test]
fn law_integer_arithmetic_exact() {
    for (a, b) in [(3i64, 4i64), (-7, 2), (i64::MAX, -1), (0, i64::MIN)] {
        for op in [BinOp::Add, BinOp::Sub, BinOp::Mul] {
            let exact = match op {
                BinOp::Add => a as i128 + b as i128,
                BinOp::Sub => a as i128 - b as i128,
                _ => a as i128 * b as i128,
            };
            let r = apply_binary_op(&Scalar::Integer(a), op, &Scalar::Integer(b));
            match r {
                Ok(OpOutcome::Value(Scalar::Integer(v))) => assert_eq!(v as i128, exact),
                Err(OperatorError::Overflow { .. }) => {
                    assert!(exact > i64::MAX as i128 || exact < i64::MIN as i128)
                }
                other => panic!("unexpected {:?}", other),
            }
        }
    }
}

#[test]
fn law_boolean_logic() {
    for a in [false, true] {
        for b in [false, true] {
            let and = apply_binary_op(&Scalar::Boolean(a), BinOp::And, &Scalar::Boolean(b));
            assert_eq!(dbg(and), format!("Ok(Value(Boolean({})))", a && b));
            let iff = apply_binary_op(&Scalar::Boolean(a), BinOp::Iff, &Scalar::Boolean(b));
            assert_eq!(dbg(iff), format!("Ok(Value(Boolean({})))", a == b));
        }
    }
}

#[test]
fn latex_lists() {
    let items = vec!["1".to_string(), "x".to_string(), "\\pi".to_string()];
    assert_eq!(latexify_vec(&items, false), "1 & x & \\pi");
    assert_eq!(latexify_vec(&items, true), "\\begin{bmatrix} 1 & x & \\pi \\end{bmatrix}");
    assert_eq!(latexify_vec(&vec![], true), "\\begin{bmatrix}  \\end{bmatrix}");
    assert_eq!(latexify_vec(&vec!["a".to_string()], false), "a");
}
