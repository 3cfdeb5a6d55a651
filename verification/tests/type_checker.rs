use rooc::consts::{InputSpan, Spanned};
use rooc::math::math_enums::PreVariableType;
use rooc::math::operators::{BinOp, UnOp};
use rooc::parser::il::block_functions::{BlockFunctionKind, BlockScopedFunctionKind};
use rooc::parser::il::il_exp::{
    AddressableAccess, BlockFunction, BlockScopedFunction, CompoundVariable, FunctionCall, IterableSet, PreExp,
};
use rooc::parser::model_transformer::model::VariableKind;
use rooc::primitives::iterable::IterableKind;
use rooc::primitives::primitive::{Primitive, PrimitiveKind};
use rooc::type_checker::{FunctionContext, FunctionSignature, TypeCheckerContext};

fn at(start: usize) -> InputSpan {
    InputSpan { start_line: 0, end_line: 0, start_column: start, end_column: start + 1, start, len: 1, tempered: false }
}

fn integer(v: i64, start: usize) -> PreExp {
    PreExp::Primitive(Spanned::new(Primitive::Integer(v), at(start)))
}

fn var(name: &str, start: usize) -> PreExp {
    PreExp::Variable(Spanned::new(name.to_string(), at(start)))
}

fn binop(op: BinOp, l: PreExp, r: PreExp, start: usize) -> PreExp {
    PreExp::BinaryOperation(Spanned::new(op, at(start)), Box::new(l), Box::new(r))
}

fn kind(k: &PrimitiveKind) -> String {
    k.to_string()
}

fn context() -> TypeCheckerContext {
    TypeCheckerContext::new(
        vec![
            ("n".to_string(), PrimitiveKind::Integer),
            ("flag".to_string(), PrimitiveKind::Boolean),
            ("xs".to_string(), PrimitiveKind::Iterable(Box::new(PrimitiveKind::Integer))),
        ],
        vec!["x".to_string()],
    )
}

fn functions() -> FunctionContext {
    FunctionContext {
        functions: vec![FunctionSignature {
            name: "len".to_string(),
            params: vec![("of".to_string(), PrimitiveKind::Iterable(Box::new(PrimitiveKind::Any)))],
            ret: PrimitiveKind::PositiveInteger,
        }],
    }
}

#[test]
fn kinds_of_expressions() {
    let c = context();
    let f = functions();
    assert_eq!(kind(&integer(3, 0).get_type(&c, &f)), "Integer");
    assert_eq!(kind(&var("n", 0).get_type(&c, &f)), "Integer");
    assert_eq!(kind(&var("x", 0).get_type(&c, &f)), "Number");
    assert_eq!(kind(&var("nope", 0).get_type(&c, &f)), "Undefined");
    let call = PreExp::FunctionCall(at(0), FunctionCall { name: "len".to_string(), args: vec![var("xs", 4)] });
    assert_eq!(kind(&call.get_type(&c, &f)), "PositiveInteger");
    let unknown = PreExp::FunctionCall(at(0), FunctionCall { name: "foo".to_string(), args: vec![] });
    assert_eq!(kind(&unknown.get_type(&c, &f)), "Undefined");
    let read = PreExp::ArrayAccess(Spanned::new(
        AddressableAccess { name: "xs".to_string(), accesses: vec![integer(0, 3)] },
        at(0),
    ));
    assert_eq!(kind(&read.get_type(&c, &f)), "Integer");
    let too_deep = PreExp::ArrayAccess(Spanned::new(
        AddressableAccess { name: "xs".to_string(), accesses: vec![integer(0, 3), integer(1, 6)] },
        at(0),
    ));
    assert_eq!(kind(&too_deep.get_type(&c, &f)), "Undefined");
    assert_eq!(kind(&binop(BinOp::Add, var("flag", 0), integer(1, 7), 5).get_type(&c, &f)), "Boolean");
}

#[test]
fn checking_operators() {
    let mut c = context();
    let f = functions();
    assert!(binop(BinOp::Add, var("n", 0), integer(1, 4), 2).type_check(&mut c, &f).is_ok());
    let e = binop(BinOp::And, var("n", 0), var("flag", 6), 2).type_check(&mut c, &f).unwrap_err();
    assert_eq!(e.to_string(), "[BinOpError] operator \"and\" cannot be applied to \"Integer\" and \"Boolean\"");
    assert_eq!(e.origin_span(), Some(at(2)));
    let neg = PreExp::UnaryOperation(Spanned::new(UnOp::Not, at(0)), Box::new(var("n", 1)));
    assert!(neg.type_check(&mut c, &f).is_err());
    let undeclared = var("nope", 9).type_check(&mut c, &f).unwrap_err();
    assert_eq!(undeclared.origin_span(), Some(at(9)));
    assert!(format!("{:?}", undeclared).contains("UndeclaredVariable(\"nope\")"));
    assert!(var("x", 0).type_check(&mut c, &f).is_ok());
}

#[test]
fn checking_calls() {
    let mut c = context();
    let f = functions();
    let ok = PreExp::FunctionCall(at(0), FunctionCall { name: "len".to_string(), args: vec![var("xs", 4)] });
    assert!(ok.type_check(&mut c, &f).is_ok());
    let wrong = PreExp::FunctionCall(at(0), FunctionCall { name: "len".to_string(), args: vec![var("n", 4)] });
    let e = wrong.type_check(&mut c, &f).unwrap_err();
    assert!(format!("{:?}", e).contains("WrongFunctionSignature"));
    let arity = PreExp::FunctionCall(at(0), FunctionCall { name: "len".to_string(), args: vec![] });
    assert!(format!("{:?}", arity.type_check(&mut c, &f).unwrap_err()).contains("WrongFunctionSignature"));
    let missing = PreExp::FunctionCall(at(0), FunctionCall { name: "foo".to_string(), args: vec![] });
    assert!(format!("{:?}", missing.type_check(&mut c, &f).unwrap_err()).contains("NonExistentFunction(\"foo\")"));
}

#[test]
fn checking_lists_and_indexes() {
    let mut c = context();
    let f = functions();
    let min = PreExp::BlockFunction(Spanned::new(
        BlockFunction { kind: BlockFunctionKind::Min, exps: vec![var("n", 4), var("x", 7)] },
        at(0),
    ));
    assert!(min.type_check(&mut c, &f).is_ok());
    assert_eq!(kind(&min.get_type(&c, &f)), "Number");
    let bad = PreExp::BlockFunction(Spanned::new(
        BlockFunction { kind: BlockFunctionKind::Max, exps: vec![var("xs", 4)] },
        at(0),
    ));
    assert!(format!("{:?}", bad.type_check(&mut c, &f).unwrap_err()).contains("WrongArgument"));
    let compound = PreExp::CompoundVariable(Spanned::new(
        CompoundVariable { name: "y".to_string(), indexes: vec![var("n", 2), var("xs", 4)] },
        at(0),
    ));
    assert!(format!("{:?}", compound.type_check(&mut c, &f).unwrap_err()).contains("WrongExpectedArgument"));
    let abs = PreExp::Abs(at(0), Box::new(var("flag", 4)));
    assert!(abs.type_check(&mut c, &f).is_ok());
}

#[test]
fn iterations_bind_in_their_own_frame() {
    let mut c = context();
    let f = functions();
    let sum = PreExp::BlockScopedFunction(Spanned::new(
        BlockScopedFunction {
            kind: BlockScopedFunctionKind::Sum,
            iters: vec![IterableSet {
                var: VariableKind::Single(Spanned::new("i".to_string(), at(4))),
                iterator: Spanned::new(var("xs", 9), at(9)),
                span: at(4),
            }],
            exp: Box::new(binop(BinOp::Mul, var("i", 14), var("x", 16), 15)),
        },
        at(0),
    ));
    assert!(sum.type_check(&mut c, &f).is_ok());
    // the bound variable is gone once the iteration is checked
    assert_eq!(kind(&var("i", 0).get_type(&c, &f)), "Undefined");
    let tokens = c.tokens();
    assert_eq!(tokens.len(), 1);
    assert_eq!(tokens[0].2.as_deref(), Some("i"));
    assert_eq!(kind(&tokens[0].1), "Integer");

    let over_number = PreExp::BlockScopedFunction(Spanned::new(
        BlockScopedFunction {
            kind: BlockScopedFunctionKind::Sum,
            iters: vec![IterableSet {
                var: VariableKind::Single(Spanned::new("i".to_string(), at(4))),
                iterator: Spanned::new(var("n", 9), at(9)),
                span: at(4),
            }],
            exp: Box::new(var("i", 14)),
        },
        at(0),
    ));
    assert!(format!("{:?}", over_number.type_check(&mut c, &f).unwrap_err()).contains("WrongArgument"));
}

#[test]
fn tokens_are_recorded_in_order() {
    let mut c = context();
    let f = functions();
    let e = binop(BinOp::Add, var("n", 0), PreExp::Primitive(Spanned::new(Primitive::Boolean(true), at(4))), 2);
    e.populate_token_type_map(&mut c, &f);
    let tokens = c.tokens();
    assert_eq!(tokens.len(), 2);
    assert_eq!(tokens[0].0, at(0));
    assert_eq!(kind(&tokens[0].1), "Integer");
    assert_eq!(tokens[0].2.as_deref(), Some("n"));
    assert_eq!(tokens[1].0, at(4));
    assert_eq!(kind(&tokens[1].1), "Boolean");
    assert_eq!(tokens[1].2, None);
}

#[test]
fn variable_type_bounds() {
    let mut c = context();
    let f = functions();
    assert!(PreVariableType::Boolean.type_check(&mut c, &f).is_ok());
    assert!(PreVariableType::IntegerRange(integer(0, 0), var("n", 3)).type_check(&mut c, &f).is_ok());
    let e = PreVariableType::IntegerRange(integer(0, 0), var("x", 3)).type_check(&mut c, &f).unwrap_err();
    assert_eq!(e.origin_span(), Some(at(3)));
    assert!(PreVariableType::Real(Some(var("x", 0)), None).type_check(&mut c, &f).is_ok());
    let bad = PreVariableType::NonNegativeReal(None, Some(var("xs", 5)));
    assert!(format!("{:?}", bad.type_check(&mut c, &f).unwrap_err()).contains("WrongArgument"));
}

#[test]
fn pop_of_the_outermost_frame_is_refused() {
    let mut c = context();
    assert!(c.pop_scope().is_err());
    c.add_scope();
    assert!(c.add_token_type(PrimitiveKind::Integer, at(0), "k".to_string()).is_ok());
    assert!(c.add_token_type(PrimitiveKind::Integer, at(1), "k".to_string()).is_err());
    assert!(c.pop_scope().is_ok());
    let _ = IterableKind::Integers(vec![]);
}
