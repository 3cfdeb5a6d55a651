use rooc::consts;
use rooc::lexer::{ConstraintType, ObjectiveType, Operation};
use rooc::math::math_enums::{Comparison, OptimizationType};
use rooc::math_exp_enums;

#[test]
fn comparison_texts() {
    assert_eq!(Comparison::LessOrEqual.to_string(), "<=");
    assert_eq!(Comparison::GreaterOrEqual.to_string(), ">=");
    assert_eq!(Comparison::Equal.to_string(), "=");
    assert_eq!(Comparison::Less.to_string(), "<");
    assert_eq!(Comparison::Greater.to_string(), ">");
    assert_eq!(Comparison::LessOrEqual.to_latex(), "\\leq");
    assert_eq!(Comparison::GreaterOrEqual.to_latex(), "\\geq");
    assert_eq!(Comparison::Less.to_latex(), "<");
    assert_eq!(Comparison::kinds().len(), 5);
}

#[test]
fn comparison_from_str() {
    assert_eq!(Comparison::from_str("<="), Ok(Comparison::LessOrEqual));
    assert_eq!(Comparison::from_str(">"), Ok(Comparison::Greater));
    assert_eq!(Comparison::from_str("=="), Err(()));
    assert_eq!(Comparison::from_str("=<"), Err(()));
}

#[test]
fn law_comparison_round_trip() {
    for c in Comparison::kinds() {
        assert_eq!(Comparison::from_str(&c.to_string()), Ok(c));
    }
}

#[test]
fn optimization_type_texts() {
    assert_eq!(OptimizationType::Min.to_string(), "min");
    assert_eq!(OptimizationType::Max.to_string(), "max");
    assert_eq!(OptimizationType::Satisfy.to_string(), "solve");
    assert_eq!(OptimizationType::Min.to_latex(), "\\min");
    assert_eq!(OptimizationType::Satisfy.to_latex(), "\\solve");
    assert_eq!(OptimizationType::from_str("solve"), Ok(OptimizationType::Satisfy));
    assert_eq!(OptimizationType::from_str("satisfy"), Err(()));
    assert_eq!(OptimizationType::kinds().len(), 3);
}

#[test]
fn law_optimization_type_round_trip() {
    for o in OptimizationType::kinds() {
        assert_eq!(OptimizationType::from_str(&o.to_string()), Ok(o));
    }
}

#[test]
fn first_version_enums() {
    assert_eq!(math_exp_enums::Comparison::LowerOrEqual.to_string(), "<=");
    assert_eq!(math_exp_enums::Comparison::UpperOrEqual.to_string(), ">=");
    assert_eq!(math_exp_enums::Comparison::Equal.to_string(), "=");
    assert_eq!(math_exp_enums::Op::Add.precedence(), 1);
    assert_eq!(math_exp_enums::Op::Sub.precedence(), 1);
    assert_eq!(math_exp_enums::Op::Mul.precedence(), 2);
    assert_eq!(math_exp_enums::Op::Div.precedence(), 2);
    assert_eq!(math_exp_enums::Op::Div.to_string(), "/");
    assert_eq!(math_exp_enums::OptimizationType::Max.to_string(), "max");
    assert_eq!(consts::Op::Mul.to_string(), "*");
    assert_eq!(consts::Comparison::Equal.to_string(), "=");
    assert_eq!(consts::OptimizationType::Min.to_string(), "min");
}

#[test]
fn lexer_enums() {
    assert_eq!(Operation::Add.get_precedence(), 1);
    assert_eq!(Operation::Subtract.get_precedence(), 1);
    assert_eq!(Operation::Multiply.get_precedence(), 2);
    assert_eq!(Operation::Divide.get_precedence(), 2);
    assert_eq!(Operation::from_str("/"), Ok(Operation::Divide));
    assert_eq!(Operation::from_str("%"), Err(()));
    assert_eq!(ObjectiveType::from_str("max"), Ok(ObjectiveType::Max));
    assert_eq!(ObjectiveType::from_str("Max"), Err(()));
    assert_eq!(ConstraintType::from_str("<"), Ok(ConstraintType::Lower));
    assert_eq!(ConstraintType::from_str("<="), Ok(ConstraintType::LowerOrEqual));
    assert_eq!(ConstraintType::from_str(">"), Ok(ConstraintType::Upper));
    assert_eq!(ConstraintType::from_str(">="), Ok(ConstraintType::UpperOrEqual));
    assert_eq!(ConstraintType::from_str("="), Ok(ConstraintType::Equal));
    assert_eq!(ConstraintType::from_str("!="), Err(()));
}
