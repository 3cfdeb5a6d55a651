use rooc::math::operators::{BinOp, Operator, UnOp};

#[test]
fn operator_precedence_table() {
    assert_eq!(Operator::Implies.precedence(), 1);
    assert_eq!(Operator::Iff.precedence(), 1);
    assert_eq!(Operator::Or.precedence(), 2);
    assert_eq!(Operator::Xor.precedence(), 3);
    assert_eq!(Operator::And.precedence(), 4);
    assert_eq!(Operator::Add.precedence(), 5);
    assert_eq!(Operator::Sub.precedence(), 5);
    assert_eq!(Operator::Mul.precedence(), 6);
    assert_eq!(Operator::Div.precedence(), 6);
    assert_eq!(Operator::Neg.precedence(), 7);
    assert_eq!(Operator::Not.precedence(), 7);
}

#[test]
fn operator_associativity() {
    assert!(Operator::Add.is_left_associative());
    assert!(Operator::Div.is_left_associative());
    assert!(Operator::Iff.is_left_associative());
    assert!(!Operator::Implies.is_left_associative());
    assert!(!Operator::Neg.is_left_associative());
    assert!(!Operator::Not.is_left_associative());
}

#[test]
fn operator_texts() {
    assert_eq!(Operator::Neg.to_string(), "-");
    assert_eq!(Operator::Implies.to_string(), "implies");
    assert_eq!(Operator::Not.to_string(), "not");
    assert_eq!(Operator::kinds().len(), 11);
}

#[test]
fn bin_op_texts_and_latex() {
    assert_eq!(BinOp::Mul.to_string(), "*");
    assert_eq!(BinOp::Mul.to_latex(), "\\cdot");
    assert_eq!(BinOp::Div.to_latex(), "\\div");
    assert_eq!(BinOp::And.to_latex(), "\\land");
    assert_eq!(BinOp::Xor.to_latex(), "\\oplus");
    assert_eq!(BinOp::Implies.to_latex(), "\\Rightarrow");
    assert_eq!(BinOp::Iff.to_latex(), "\\Leftrightarrow");
    assert_eq!(BinOp::Iff.to_string(), "iff");
}

#[test]
fn bin_op_from_str() {
    assert_eq!(BinOp::from_str("+"), Ok(BinOp::Add));
    assert_eq!(BinOp::from_str("implies"), Ok(BinOp::Implies));
    assert_eq!(BinOp::from_str("xor"), Ok(BinOp::Xor));
    assert_eq!(BinOp::from_str("nand"), Err(()));
    assert_eq!(BinOp::from_str(""), Err(()));
}

#[test]
fn bin_op_logic_and_operator() {
    assert!(BinOp::And.is_logic());
    assert!(BinOp::Iff.is_logic());
    assert!(!BinOp::Add.is_logic());
    assert_eq!(BinOp::Xor.to_operator(), Operator::Xor);
    assert_eq!(BinOp::Div.to_operator(), Operator::Div);
    assert!(!BinOp::Implies.is_left_associative());
    assert!(BinOp::Sub.is_left_associative());
    assert_eq!(BinOp::kinds().len(), 9);
}

#[test]
fn un_op_basics() {
    assert_eq!(UnOp::Neg.precedence(), 7);
    assert_eq!(UnOp::Not.precedence(), 7);
    assert!(!UnOp::Neg.is_left_associative());
    assert_eq!(UnOp::Neg.to_operator(), Operator::Neg);
    assert_eq!(UnOp::Not.to_operator(), Operator::Not);
    assert_eq!(UnOp::Not.to_string(), "not ");
    assert_eq!(UnOp::Not.to_latex(), "\\lnot ");
    assert_eq!(UnOp::Neg.to_latex(), "-");
    assert_eq!(UnOp::from_str("-"), Ok(UnOp::Neg));
    assert_eq!(UnOp::from_str("not"), Ok(UnOp::Not));
    assert_eq!(UnOp::from_str("!"), Err(()));
    assert_eq!(UnOp::kinds().len(), 2);
}

#[test]
fn law_to_operator_keeps_precedence() {
    for op in BinOp::kinds() {
        assert_eq!(op.precedence(), op.to_operator().precedence());
        assert_eq!(op.is_left_associative(), op.to_operator().is_left_associative());
    }
    for op in UnOp::kinds() {
        assert_eq!(op.precedence(), op.to_operator().precedence());
    }
}

#[test]
fn law_arithmetic_binds_tighter_than_logic() {
    for a in BinOp::kinds() {
        for l in BinOp::kinds() {
            if !a.is_logic() && l.is_logic() {
                assert!(a.precedence() > l.precedence());
            }
        }
    }
}

#[test]
fn law_text_round_trip() {
    for op in BinOp::kinds() {
        assert_eq!(BinOp::from_str(&op.to_string()), Ok(op));
    }
    assert_eq!(UnOp::from_str(&UnOp::Neg.to_string()), Ok(UnOp::Neg));
    // the text of `not` carries a trailing space, so it does not read back
    assert_eq!(UnOp::from_str(&UnOp::Not.to_string()), Err(()));
}
