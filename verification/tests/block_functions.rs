use rooc::math::math_enums::{Comparison, OptimizationType};
use rooc::math::operators::{BinOp, Operator, UnOp};
use rooc::parser::il::block_functions::{BlockFunctionKind, BlockScopedFunctionKind};

#[test]
fn scoped_function_texts() {
    assert_eq!(BlockScopedFunctionKind::Sum.to_string(), "sum");
    assert_eq!(BlockScopedFunctionKind::Prod.to_latex(), "\\prod");
    assert_eq!(BlockScopedFunctionKind::Avg.to_latex(), "avg");
    assert_eq!(BlockScopedFunctionKind::from_str("prod"), Ok(BlockScopedFunctionKind::Prod));
    assert_eq!(BlockScopedFunctionKind::from_str("product"), Err(()));
    assert_eq!(BlockScopedFunctionKind::kinds_to_string().join(", "), "sum, prod, min, max, avg");
}

#[test]
fn block_function_texts() {
    assert_eq!(BlockFunctionKind::Max.to_string(), "max");
    assert_eq!(BlockFunctionKind::Min.to_latex(), "\\min");
    assert_eq!(BlockFunctionKind::from_str("avg"), Ok(BlockFunctionKind::Avg));
    assert_eq!(BlockFunctionKind::from_str("sum"), Err(()));
    assert_eq!(BlockFunctionKind::kinds_to_string(), vec!["min", "max", "avg"]);
}

#[test]
fn law_block_function_names_read_back() {
    for k in BlockScopedFunctionKind::kinds() {
        assert_eq!(BlockScopedFunctionKind::from_str(&k.to_string()), Ok(k));
    }
    for k in BlockFunctionKind::kinds() {
        assert_eq!(BlockFunctionKind::from_str(&k.to_string()), Ok(k));
    }
}

#[test]
fn kind_lists() {
    assert_eq!(
        Operator::kinds_to_string().join(" "),
        "+ - * / - and or xor implies iff not"
    );
    assert_eq!(BinOp::kinds_to_string().len(), 9);
    assert_eq!(UnOp::kinds_to_string(), vec!["-", "not "]);
    assert_eq!(Comparison::kinds_to_string().join(", "), "<=, >=, =, <, >");
    assert_eq!(OptimizationType::kinds_to_string().join(", "), "min, max, solve");
}
