use rooc::consts::{InputSpan, Op, Spanned};
use rooc::parser::rules_parser::{
    englobe_if_multiplied_by_constant, parse_exp_list, parse_operator, should_unwind, ExpItem,
    ExpParseError, ExpTree,
};

fn at(start: usize) -> InputSpan {
    InputSpan {
        start_line: 1,
        end_line: 1,
        start_column: start + 1,
        end_column: start + 2,
        start,
        len: 1,
        tempered: false,
    }
}

fn num(v: &'static str, pos: usize) -> ExpItem<&'static str> {
    ExpItem::Number(Spanned::new(v, at(pos)))
}

fn var(v: &'static str, pos: usize) -> ExpItem<&'static str> {
    ExpItem::Operand(ExpTree::Operand(Spanned::new(v, at(pos))))
}

fn bin(op: Op, pos: usize) -> ExpItem<&'static str> {
    ExpItem::BinaryOp(op, at(pos))
}

fn render(t: &ExpTree<&'static str>) -> String {
    match t {
        ExpTree::Number(n) => n.get_span_value().to_string(),
        ExpTree::Zero(_) => "0".to_string(),
        ExpTree::Operand(o) => o.get_span_value().to_string(),
        ExpTree::BinaryOperation(op, l, r) => {
            format!("({} {} {})", render(l), op.get_span_value().to_string(), render(r))
        }
    }
}

fn parse(items: Vec<ExpItem<&'static str>>) -> Result<String, ExpParseError> {
    parse_exp_list(items).map(|t| render(&t))
}

#[test]
fn multiplication_binds_tighter() {
    let r = parse(vec![num("1", 0), bin(Op::Add, 2), num("2", 4), bin(Op::Mul, 6), num("3", 8)]);
    assert_eq!(r, Ok("(1 + (2 * 3))".to_string()));
    let r = parse(vec![num("1", 0), bin(Op::Mul, 2), num("2", 4), bin(Op::Add, 6), num("3", 8)]);
    assert_eq!(r, Ok("((1 * 2) + 3)".to_string()));
}

#[test]
fn equal_strength_groups_to_the_left() {
    let r = parse(vec![num("1", 0), bin(Op::Sub, 2), num("2", 4), bin(Op::Sub, 6), num("3", 8)]);
    assert_eq!(r, Ok("((1 - 2) - 3)".to_string()));
    let r = parse(vec![var("a", 0), bin(Op::Div, 2), var("b", 4), bin(Op::Mul, 6), var("c", 8)]);
    assert_eq!(r, Ok("((a / b) * c)".to_string()));
}

#[test]
fn a_number_before_an_operand_multiplies_it() {
    assert_eq!(parse(vec![num("2", 0), var("x", 1)]), Ok("(2 * x)".to_string()));
    let r = parse(vec![num("3", 0), var("y", 1), bin(Op::Add, 3), num("2", 5), var("x", 6)]);
    assert_eq!(r, Ok("((3 * y) + (2 * x))".to_string()));
}

#[test]
fn leading_minus_subtracts_from_zero() {
    let r = parse(vec![ExpItem::UnaryOp(Op::Sub, at(0)), var("x", 1)]);
    assert_eq!(r, Ok("(0 - x)".to_string()));
}

#[test]
fn unary_operators_other_than_minus_are_refused() {
    let r = parse(vec![ExpItem::UnaryOp(Op::Mul, at(0)), var("x", 1)]);
    assert_eq!(r, Err(ExpParseError::UnexpectedUnary(at(0))));
}

#[test]
fn operator_without_operands_is_refused() {
    let r = parse(vec![num("1", 0), bin(Op::Mul, 2), bin(Op::Add, 4), num("2", 6)]);
    assert_eq!(r, Err(ExpParseError::UnexpectedOperator(at(4))));
    let r = parse(vec![num("1", 0), bin(Op::Add, 2), bin(Op::Mul, 4), num("2", 6)]);
    assert_eq!(r, Err(ExpParseError::MissingTerminal));
    assert_eq!(parse(vec![bin(Op::Add, 0)]), Err(ExpParseError::MissingTerminal));
}

#[test]
fn empty_expression_is_refused() {
    assert_eq!(parse(vec![]), Err(ExpParseError::Empty));
}

#[test]
fn built_nodes_take_the_span_of_the_operator_that_closes_them() {
    let items = vec![num("1", 0), bin(Op::Mul, 2), num("2", 4), bin(Op::Add, 6), num("3", 8)];
    let tree = parse_exp_list(items).ok().unwrap();
    assert_eq!(tree.get_span(), at(6));
    match tree {
        ExpTree::BinaryOperation(_, l, _) => assert_eq!(l.get_span(), at(6)),
        _ => panic!("expected an operation"),
    }
}

#[test]
fn should_unwind_compares_the_top_of_the_stack() {
    assert!(!should_unwind(&vec![], &Op::Add));
    assert!(!should_unwind(&vec![Op::Add], &Op::Mul));
    assert!(should_unwind(&vec![Op::Mul], &Op::Add));
    assert!(should_unwind(&vec![Op::Add], &Op::Sub));
    assert!(should_unwind(&vec![Op::Mul, Op::Add], &Op::Sub));
    assert!(!should_unwind(&vec![Op::Mul, Op::Add], &Op::Div));
}

#[test]
fn parse_operator_reads_the_four_symbols() {
    assert_eq!(parse_operator("+"), Ok(Op::Add));
    assert_eq!(parse_operator("-"), Ok(Op::Sub));
    assert_eq!(parse_operator("*"), Ok(Op::Mul));
    assert_eq!(parse_operator("/"), Ok(Op::Div));
    assert_eq!(parse_operator("^"), Err(ExpParseError::NotAnOperator));
    assert_eq!(parse_operator("++"), Err(ExpParseError::NotAnOperator));
}

#[test]
fn englobe_multiplies_the_last_number() {
    let mut queue = vec![ExpTree::Number(Spanned::new("2", at(0)))];
    let r = englobe_if_multiplied_by_constant(true, &mut queue, ExpTree::Operand(Spanned::new("x", at(1))));
    assert!(queue.is_empty());
    assert_eq!(render(&r.ok().unwrap()), "(2 * x)");
    let mut queue = vec![ExpTree::Number(Spanned::new("2", at(0)))];
    let r = englobe_if_multiplied_by_constant(false, &mut queue, ExpTree::Operand(Spanned::new("x", at(1))));
    assert_eq!(queue.len(), 1);
    assert_eq!(render(&r.ok().unwrap()), "x");
}

fn in_order(t: &ExpTree<&'static str>, out: &mut Vec<String>) {
    match t {
        ExpTree::Number(n) => out.push(n.get_span_value().to_string()),
        ExpTree::Zero(_) => out.push("0".to_string()),
        ExpTree::Operand(o) => out.push(o.get_span_value().to_string()),
        ExpTree::BinaryOperation(op, l, r) => {
            in_order(l, out);
            out.push(op.get_span_value().to_string());
            in_order(r, out);
        }
    }
}

#[test]
fn law_parse_keeps_source_order() {
    let items = vec![
        ExpItem::UnaryOp(Op::Sub, at(0)),
        num("4", 1),
        var("x", 2),
        bin(Op::Div, 3),
        var("y", 4),
        bin(Op::Sub, 5),
        num("7", 6),
        bin(Op::Mul, 7),
        var("z", 8),
    ];
    let tree = parse_exp_list(items).ok().unwrap();
    let mut out = Vec::new();
    in_order(&tree, &mut out);
    assert_eq!(out.join(" "), "0 - 4 * x / y - 7 * z");
}

#[test]
fn law_precedence_grouping() {
    for (op1, op2) in [(Op::Add, Op::Mul), (Op::Mul, Op::Add), (Op::Sub, Op::Add), (Op::Div, Op::Mul)] {
        let r = parse(vec![var("a", 0), bin(op1, 2), var("b", 4), bin(op2, 6), var("c", 8)]).unwrap();
        let (o1, o2) = (op1.to_string(), op2.to_string());
        if op1.precedence() >= op2.precedence() {
            assert_eq!(r, format!("((a {} b) {} c)", o1, o2));
        } else {
            assert_eq!(r, format!("(a {} (b {} c))", o1, o2));
        }
    }
}
