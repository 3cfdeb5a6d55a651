//! Expression parsing by operator precedence (the shunting-yard method).
//!
//! The grammar hands over the parts of an expression in source order:
//! binary and unary operators, numbers, and operands that are already
//! parsed (variables, function calls, parenthesised groups, ...). Operators
//! wait on a stack until an operator of lower or equal binding strength
//! arrives; a number directly followed by an operand multiplies it; a
//! unary minus is read as `0 - ...`.
use vstd::prelude::*;
use crate::consts::{InputSpan, Spanned};
use crate::math_exp_enums::Op;
use crate::text::str_eq;

verus! {

broadcast use Spanned::lemma_spec_new;

/// An expression tree over operands of type `T`.
pub enum ExpTree<T> {
    /// A number as written in the source.
    Number(Spanned<T>),
    /// The zero that a leading unary minus subtracts from.
    Zero(InputSpan),
    /// Any other operand.
    Operand(Spanned<T>),
    /// `lhs op rhs`.
    BinaryOperation(Spanned<Op>, Box<ExpTree<T>>, Box<ExpTree<T>>),
}

impl<T> ExpTree<T> {
    /// The source region of the tree: that of its number, operand, or root
    /// operator.
    pub open spec fn spec_span(self) -> InputSpan {
        match self {
            ExpTree::Number(s) => s.spec_span(),
            ExpTree::Zero(s) => s,
            ExpTree::Operand(s) => s.spec_span(),
            ExpTree::BinaryOperation(o, _, _) => o.spec_span(),
        }
    }

    /// The source region of the tree.
    pub fn get_span(&self) -> (r: InputSpan)
        ensures
            r == self.spec_span(),
    {
        match self {
            ExpTree::Number(s) => *s.get_span(),
            ExpTree::Zero(s) => *s,
            ExpTree::Operand(s) => *s.get_span(),
            ExpTree::BinaryOperation(o, _, _) => *o.get_span(),
        }
    }
}

/// One part of an expression, in source order.
pub enum ExpItem<T> {
    /// A binary operator.
    BinaryOp(Op, InputSpan),
    /// A unary (prefix) operator.
    UnaryOp(Op, InputSpan),
    /// A number.
    Number(Spanned<T>),
    /// An already parsed operand.
    Operand(ExpTree<T>),
}

/// Why an expression could not be parsed.
#[derive(Debug, PartialEq, Eq, Structural, Clone, Copy)]
pub enum ExpParseError {
    /// The text is not one of `+ - * /`.
    NotAnOperator,
    /// An operator at this place found too few operands to combine.
    UnexpectedOperator(InputSpan),
    /// A unary operator other than minus.
    UnexpectedUnary(InputSpan),
    /// Operands are missing at the end of the expression.
    MissingTerminal,
    /// The expression is empty.
    Empty,
}

/// Whether the operator on top of the stack must be applied before `op`
/// is pushed: it binds at least as strongly as `op`.
pub open spec fn spec_should_unwind(operator_stack: Seq<Op>, op: Op) -> bool {
    operator_stack.len() > 0 && operator_stack.last().spec_precedence() >= op.spec_precedence()
}

/// Whether the operator on top of the stack must be applied before `op`.
pub fn should_unwind(operator_stack: &Vec<Op>, op: &Op) -> (r: bool)
    ensures
        r == spec_should_unwind(operator_stack@, *op),
{
    if operator_stack.len() == 0 {
        false
    } else {
        operator_stack[operator_stack.len() - 1].precedence() >= op.precedence()
    }
}

/// Reads an arithmetic operator from its symbol.
pub fn parse_operator(operator: &str) -> (r: Result<Op, ExpParseError>)
    ensures
        operator@ == "+"@ ==> r == Ok::<Op, ExpParseError>(Op::Add),
        operator@ == "-"@ ==> r == Ok::<Op, ExpParseError>(Op::Sub),
        operator@ == "*"@ ==> r == Ok::<Op, ExpParseError>(Op::Mul),
        operator@ == "/"@ ==> r == Ok::<Op, ExpParseError>(Op::Div),
        operator@ != "+"@ && operator@ != "-"@ && operator@ != "*"@ && operator@ != "/"@
            ==> r == Err::<Op, ExpParseError>(ExpParseError::NotAnOperator),
{
    proof {
        reveal_strlit("+");
        reveal_strlit("-");
        reveal_strlit("*");
        reveal_strlit("/");
        assert("+"@.len() == 1 && "+"@[0] == '+');
        assert("-"@.len() == 1 && "-"@[0] == '-');
        assert("*"@.len() == 1 && "*"@[0] == '*');
        assert("/"@.len() == 1 && "/"@[0] == '/');
    }
    if str_eq(operator, "+") {
        Ok(Op::Add)
    } else if str_eq(operator, "-") {
        Ok(Op::Sub)
    } else if str_eq(operator, "*") {
        Ok(Op::Mul)
    } else if str_eq(operator, "/") {
        Ok(Op::Div)
    } else {
        Err(ExpParseError::NotAnOperator)
    }
}

/// `lhs op rhs`, with the span of the operator.
pub open spec fn bin_node<T>(op: Op, span: InputSpan, lhs: ExpTree<T>, rhs: ExpTree<T>) -> ExpTree<T> {
    ExpTree::BinaryOperation(Spanned::spec_new(op, span), Box::new(lhs), Box::new(rhs))
}

/// The output after an operand arrives: multiplied with the number just
/// before it, if the previous part was a number; pushed as it is otherwise.
pub open spec fn spec_englobe<T>(prev_number: bool, queue: Seq<ExpTree<T>>, rhs: ExpTree<T>) -> Seq<ExpTree<T>> {
    if prev_number && queue.len() > 0 {
        queue.drop_last().push(bin_node(Op::Mul, rhs.spec_span(), queue.last(), rhs))
    } else {
        queue.push(rhs)
    }
}

/// If the previous part was a number, multiplies it (taken off the queue)
/// with `rhs`: this is the implicit multiplication of `2x`.
pub fn englobe_if_multiplied_by_constant<T>(
    prev_token_number: bool,
    queue: &mut Vec<ExpTree<T>>,
    rhs: ExpTree<T>,
) -> (r: Result<ExpTree<T>, ExpParseError>)
    requires
        prev_token_number ==> old(queue)@.len() > 0 && old(queue)@.last() is Number,
    ensures
        final(queue)@.push(r->Ok_0) == spec_englobe(prev_token_number, old(queue)@, rhs),
        r is Ok,
{
    if prev_token_number {
        let last_number = queue.pop().unwrap();
        let span = rhs.get_span();
        Ok(ExpTree::BinaryOperation(Spanned::new(Op::Mul, span), Box::new(last_number), Box::new(rhs)))
    } else {
        Ok(rhs)
    }
}

/// The state of the parser between two parts of the expression.
pub struct ExpParseState<T> {
    /// The finished subexpressions.
    pub output: Seq<ExpTree<T>>,
    /// The operators waiting for their right operand.
    pub ops: Seq<Op>,
    /// Whether the previous part was a number.
    pub last_number: bool,
    /// The span of the last operator read.
    pub last_op_span: InputSpan,
}

/// The state before the first part.
pub open spec fn initial_state<T>() -> ExpParseState<T> {
    ExpParseState {
        output: seq![],
        ops: seq![],
        last_number: false,
        last_op_span: InputSpan::spec_default(),
    }
}

/// Applies the waiting operators that bind at least as strongly as
/// `prec`, top first, each to the last two outputs; the new nodes take the
/// span of the incoming operator. `None` if an operator finds fewer than
/// two outputs.
pub open spec fn spec_unwind<T>(output: Seq<ExpTree<T>>, ops: Seq<Op>, prec: u8, span: InputSpan) -> Option<(Seq<ExpTree<T>>, Seq<Op>)>
    decreases ops.len(),
{
    if ops.len() > 0 && ops.last().spec_precedence() >= prec {
        if output.len() < 2 {
            None
        } else {
            let n = output.len() as int;
            spec_unwind(
                output.take(n - 2).push(bin_node(ops.last(), span, output[n - 2], output[n - 1])),
                ops.drop_last(),
                prec,
                span,
            )
        }
    } else {
        Some((output, ops))
    }
}

/// Reading one part of the expression.
pub open spec fn spec_step<T>(st: ExpParseState<T>, item: ExpItem<T>) -> Result<ExpParseState<T>, ExpParseError> {
    match item {
        ExpItem::BinaryOp(op, span) => match spec_unwind(st.output, st.ops, op.spec_precedence(), span) {
            None => Err(ExpParseError::UnexpectedOperator(span)),
            Some((out, ops)) => Ok(ExpParseState {
                output: out,
                ops: ops.push(op),
                last_number: false,
                last_op_span: span,
            }),
        },
        ExpItem::UnaryOp(op, span) => match spec_unwind(st.output, st.ops, op.spec_precedence(), span) {
            None => Err(ExpParseError::UnexpectedOperator(span)),
            Some((out, ops)) => if op == Op::Sub {
                Ok(ExpParseState {
                    output: out.push(ExpTree::Zero(span)),
                    ops: ops.push(op),
                    last_number: false,
                    last_op_span: span,
                })
            } else {
                Err(ExpParseError::UnexpectedUnary(span))
            },
        },
        ExpItem::Number(n) => Ok(ExpParseState {
            output: st.output.push(ExpTree::Number(n)),
            ops: st.ops,
            last_number: true,
            last_op_span: st.last_op_span,
        }),
        ExpItem::Operand(e) => Ok(ExpParseState {
            output: spec_englobe(st.last_number, st.output, e),
            ops: st.ops,
            last_number: false,
            last_op_span: st.last_op_span,
        }),
    }
}

/// Reading the parts in order, stopping at the first error.
pub open spec fn spec_run<T>(st: ExpParseState<T>, items: Seq<ExpItem<T>>) -> Result<ExpParseState<T>, ExpParseError>
    decreases items.len(),
{
    if items.len() == 0 {
        Ok(st)
    } else {
        match spec_step(st, items[0]) {
            Err(e) => Err(e),
            Ok(next) => spec_run(next, items.drop_first()),
        }
    }
}

/// Applies every waiting operator at the end, with the span of the last
/// operator read. `None` if an operator finds fewer than two outputs.
pub open spec fn spec_final_unwind<T>(output: Seq<ExpTree<T>>, ops: Seq<Op>, span: InputSpan) -> Option<Seq<ExpTree<T>>>
    decreases ops.len(),
{
    if ops.len() == 0 {
        Some(output)
    } else if output.len() < 2 {
        None
    } else {
        let n = output.len() as int;
        spec_final_unwind(
            output.take(n - 2).push(bin_node(ops.last(), span, output[n - 2], output[n - 1])),
            ops.drop_last(),
            span,
        )
    }
}

/// The expression once all parts are read: the last finished output.
pub open spec fn spec_finish<T>(st: ExpParseState<T>) -> Result<ExpTree<T>, ExpParseError> {
    match spec_final_unwind(st.output, st.ops, st.last_op_span) {
        None => Err(ExpParseError::MissingTerminal),
        Some(out) => if out.len() == 0 {
            Err(ExpParseError::Empty)
        } else {
            Ok(out.last())
        },
    }
}

/// The expression that a list of parts parses to.
pub open spec fn spec_parse_exp_list<T>(items: Seq<ExpItem<T>>) -> Result<ExpTree<T>, ExpParseError> {
    match spec_run(initial_state(), items) {
        Err(e) => Err(e),
        Ok(st) => spec_finish(st),
    }
}

/// The invariant of every state the parser reaches: after a number, the
/// number is the last output.
pub open spec fn state_ok<T>(st: ExpParseState<T>) -> bool {
    st.last_number ==> st.output.len() > 0 && st.output.last() is Number
}

fn unwind_operators<T>(
    output: &mut Vec<ExpTree<T>>,
    ops: &mut Vec<Op>,
    op: Op,
    span: InputSpan,
) -> (r: bool)
    ensures
        match spec_unwind(old(output)@, old(ops)@, op.spec_precedence(), span) {
            None => !r,
            Some((o, p)) => r && final(output)@ == o && final(ops)@ == p,
        },
{
    let ghost target = spec_unwind(output@, ops@, op.spec_precedence(), span);
    while should_unwind(ops, &op)
        invariant
            target == spec_unwind(output@, ops@, op.spec_precedence(), span),
            target == spec_unwind(old(output)@, old(ops)@, op.spec_precedence(), span),
        decreases ops@.len(),
    {
        if output.len() < 2 {
            return false;
        }
        let ghost n = output@.len() as int;
        let ghost before = output@;
        let top = ops.pop().unwrap();
        let rhs = output.pop().unwrap();
        let lhs = output.pop().unwrap();
        output.push(ExpTree::BinaryOperation(Spanned::new(top, span), Box::new(lhs), Box::new(rhs)));
        proof {
            assert(output@ =~= before.take(n - 2).push(bin_node(top, span, before[n - 2], before[n - 1])));
        }
    }
    true
}

fn final_unwind<T>(output: &mut Vec<ExpTree<T>>, ops: &mut Vec<Op>, span: InputSpan) -> (r: bool)
    ensures
        match spec_final_unwind(old(output)@, old(ops)@, span) {
            None => !r,
            Some(o) => r && final(output)@ == o,
        },
{
    let ghost target = spec_final_unwind(output@, ops@, span);
    while ops.len() > 0
        invariant
            target == spec_final_unwind(output@, ops@, span),
            target == spec_final_unwind(old(output)@, old(ops)@, span),
        decreases ops@.len(),
    {
        if output.len() < 2 {
            return false;
        }
        let ghost n = output@.len() as int;
        let ghost before = output@;
        let top = ops.pop().unwrap();
        let rhs = output.pop().unwrap();
        let lhs = output.pop().unwrap();
        output.push(ExpTree::BinaryOperation(Spanned::new(top, span), Box::new(lhs), Box::new(rhs)));
        proof {
            assert(output@ =~= before.take(n - 2).push(bin_node(top, span, before[n - 2], before[n - 1])));
        }
    }
    true
}

proof fn lemma_step_keeps_state_ok<T>(st: ExpParseState<T>, item: ExpItem<T>)
    requires
        state_ok(st),
    ensures
        spec_step(st, item) is Ok ==> state_ok(spec_step(st, item)->Ok_0),
{
}

/// Parses the parts of an expression, in source order, into a tree.
pub fn parse_exp_list<T>(items: Vec<ExpItem<T>>) -> (r: Result<ExpTree<T>, ExpParseError>)
    ensures
        r == spec_parse_exp_list(items@),
{
    let ghost all = items@;
    let mut rem = items;
    let mut pending: Vec<ExpItem<T>> = Vec::new();
    while rem.len() > 0
        invariant
            rem@ + pending@.reverse() == all,
            all == items@,
        decreases rem@.len(),
    {
        let ghost before_items = rem@;
        let ghost before_pending = pending@;
        let x = rem.pop().unwrap();
        pending.push(x);
        proof {
            assert(pending@.reverse() =~= seq![x] + before_pending.reverse());
            assert(rem@ + pending@.reverse() =~= before_items + before_pending.reverse());
        }
    }
    assert(pending@.reverse() =~= all);
    let mut output: Vec<ExpTree<T>> = Vec::new();
    let mut ops: Vec<Op> = Vec::new();
    let mut last_number = false;
    let mut last_op_span = InputSpan::default();
    while pending.len() > 0
        invariant
            spec_run(initial_state(), all) == spec_run(
                ExpParseState { output: output@, ops: ops@, last_number, last_op_span },
                pending@.reverse(),
            ),
            state_ok(ExpParseState { output: output@, ops: ops@, last_number, last_op_span }),
            all == items@,
        decreases pending@.len(),
    {
        let ghost st = ExpParseState { output: output@, ops: ops@, last_number, last_op_span };
        let ghost rest = pending@.reverse();
        let item = pending.pop().unwrap();
        proof {
            assert(rest[0] == item);
            assert(rest.drop_first() =~= pending@.reverse());
            lemma_step_keeps_state_ok(st, item);
        }
        match item {
            ExpItem::BinaryOp(op, span) => {
                last_op_span = span;
                if !unwind_operators(&mut output, &mut ops, op, span) {
                    proof {
                        assert(spec_unwind(st.output, st.ops, op.spec_precedence(), span) is None);
                        assert(spec_step(st, item) == Err::<ExpParseState<T>, _>(
                            ExpParseError::UnexpectedOperator(span),
                        ));
                        assert(spec_run(st, rest) == Err::<ExpParseState<T>, _>(
                            ExpParseError::UnexpectedOperator(span),
                        ));
                    }
                    return Err(ExpParseError::UnexpectedOperator(span));
                }
                ops.push(op);
                last_number = false;
            },
            ExpItem::UnaryOp(op, span) => {
                last_op_span = span;
                if !unwind_operators(&mut output, &mut ops, op, span) {
                    proof {
                        assert(spec_unwind(st.output, st.ops, op.spec_precedence(), span) is None);
                        assert(spec_step(st, item) == Err::<ExpParseState<T>, _>(
                            ExpParseError::UnexpectedOperator(span),
                        ));
                        assert(spec_run(st, rest) == Err::<ExpParseState<T>, _>(
                            ExpParseError::UnexpectedOperator(span),
                        ));
                    }
                    return Err(ExpParseError::UnexpectedOperator(span));
                }
                match op {
                    Op::Sub => {
                        output.push(ExpTree::Zero(span));
                    },
                    _ => {
                        return Err(ExpParseError::UnexpectedUnary(span));
                    },
                }
                ops.push(op);
                last_number = false;
            },
            ExpItem::Number(n) => {
                output.push(ExpTree::Number(n));
                last_number = true;
            },
            ExpItem::Operand(e) => {
                let next = englobe_if_multiplied_by_constant(last_number, &mut output, e);
                match next {
                    Ok(next) => {
                        output.push(next);
                    },
                    Err(err) => {
                        return Err(err);
                    },
                }
                last_number = false;
            },
        }
    }
    assert(pending@.reverse() =~= Seq::<ExpItem<T>>::empty());
    if !final_unwind(&mut output, &mut ops, last_op_span) {
        return Err(ExpParseError::MissingTerminal);
    }
    match output.pop() {
        Some(exp) => Ok(exp),
        None => Err(ExpParseError::Empty),
    }
}


/// A symbol of an expression read in source order, spans left out.
pub enum Sym<T> {
    /// A number or an operand.
    Value(T),
    /// The zero before a leading unary minus.
    Zero,
    /// An operator.
    Op(Op),
}

/// The symbols of a tree, read in order (left operand, operator, right
/// operand); an operand that is itself a tree contributes its symbols.
pub open spec fn render<T>(e: ExpTree<T>) -> Seq<Sym<T>>
    decreases e,
{
    match e {
        ExpTree::Number(s) => seq![Sym::Value(s.spec_value())],
        ExpTree::Zero(_) => seq![Sym::Zero],
        ExpTree::Operand(s) => seq![Sym::Value(s.spec_value())],
        ExpTree::BinaryOperation(o, l, r) => render(*l) + seq![Sym::Op(o.spec_value())] + render(*r),
    }
}

/// The symbols of a list of parts: a unary minus reads as `0 -`, and a
/// number directly followed by an operand is multiplied with it.
pub open spec fn render_items<T>(items: Seq<ExpItem<T>>) -> Seq<Sym<T>>
    decreases items.len(),
{
    if items.len() == 0 {
        seq![]
    } else {
        let rest = render_items(items.drop_first());
        match items[0] {
            ExpItem::BinaryOp(op, _) => seq![Sym::Op(op)] + rest,
            ExpItem::UnaryOp(op, _) => seq![Sym::Zero, Sym::Op(op)] + rest,
            ExpItem::Number(n) => if items.len() > 1 && items[1] is Operand {
                seq![Sym::Value(n.spec_value()), Sym::Op(Op::Mul)] + rest
            } else {
                seq![Sym::Value(n.spec_value())] + rest
            },
            ExpItem::Operand(e) => render(e) + rest,
        }
    }
}

/// Parts that form a well-made expression when an operand is expected
/// next: a number, an operand, or a number followed by an operand, then
/// what may follow an operand.
pub open spec fn wf_after_op<T>(items: Seq<ExpItem<T>>) -> bool
    decreases items.len(), 1int,
{
    if items.len() == 0 {
        false
    } else {
        match items[0] {
            ExpItem::Number(_) => if items.len() > 1 && items[1] is Operand {
                wf_after_group(items.drop_first().drop_first())
            } else {
                wf_after_group(items.drop_first())
            },
            ExpItem::Operand(_) => wf_after_group(items.drop_first()),
            _ => false,
        }
    }
}

/// Parts that form a well-made rest of an expression after an operand:
/// nothing, or a binary operator and then an operand again.
pub open spec fn wf_after_group<T>(items: Seq<ExpItem<T>>) -> bool
    decreases items.len(), 0int,
{
    items.len() == 0 || (items[0] is BinaryOp && wf_after_op(items.drop_first()))
}

/// A well-made expression: operands and binary operators alternating,
/// optionally led by one unary minus.
pub open spec fn wf_items<T>(items: Seq<ExpItem<T>>) -> bool {
    if items.len() > 0 && items[0] is UnaryOp {
        items[0]->UnaryOp_0 == Op::Sub && wf_after_op(items.drop_first())
    } else {
        wf_after_op(items)
    }
}

/// The symbols of the finished outputs and the waiting operators, in
/// source order.
pub open spec fn interleave<T>(out: Seq<ExpTree<T>>, ops: Seq<Op>) -> Seq<Sym<T>>
    decreases out.len() + ops.len(),
{
    if ops.len() > 0 && ops.len() >= out.len() {
        interleave(out, ops.drop_last()) + seq![Sym::Op(ops.last())]
    } else if out.len() > 0 {
        interleave(out.drop_last(), ops) + render(out.last())
    } else {
        seq![]
    }
}

proof fn lemma_reduce_keeps_order<T>(out: Seq<ExpTree<T>>, ops: Seq<Op>, span: InputSpan)
    requires
        out.len() == ops.len() + 1,
        ops.len() > 0,
    ensures
        ({
            let n = out.len() as int;
            interleave(out.take(n - 2).push(bin_node(ops.last(), span, out[n - 2], out[n - 1])), ops.drop_last())
                == interleave(out, ops)
        }),
{
    let n = out.len() as int;
    let b = bin_node(ops.last(), span, out[n - 2], out[n - 1]);
    let o2 = out.take(n - 2).push(b);
    assert(o2.drop_last() =~= out.take(n - 2));
    assert(out.drop_last().drop_last() =~= out.take(n - 2));
    assert(interleave(o2, ops.drop_last()) == interleave(out.take(n - 2), ops.drop_last()) + render(b));
    assert(interleave(out, ops) == interleave(out.drop_last(), ops) + render(out[n - 1]));
    assert(interleave(out.drop_last(), ops) == interleave(out.drop_last(), ops.drop_last()) + seq![
        Sym::Op(ops.last()),
    ]);
    assert(interleave(out.drop_last(), ops.drop_last()) == interleave(out.take(n - 2), ops.drop_last())
        + render(out[n - 2]));
    assert(render(b) == render(out[n - 2]) + seq![Sym::Op(ops.last())] + render(out[n - 1]));
    assert(interleave(o2, ops.drop_last()) =~= interleave(out, ops));
}

proof fn lemma_unwind_keeps_order<T>(out: Seq<ExpTree<T>>, ops: Seq<Op>, prec: u8, span: InputSpan)
    requires
        out.len() == ops.len() + 1,
    ensures
        spec_unwind(out, ops, prec, span) is Some,
        ({
            let (o2, p2) = spec_unwind(out, ops, prec, span).unwrap();
            o2.len() == p2.len() + 1 && interleave(o2, p2) == interleave(out, ops)
        }),
    decreases ops.len(),
{
    if ops.len() > 0 && ops.last().spec_precedence() >= prec {
        let n = out.len() as int;
        lemma_reduce_keeps_order(out, ops, span);
        lemma_unwind_keeps_order(
            out.take(n - 2).push(bin_node(ops.last(), span, out[n - 2], out[n - 1])),
            ops.drop_last(),
            prec,
            span,
        );
    }
}

proof fn lemma_final_unwind_keeps_order<T>(out: Seq<ExpTree<T>>, ops: Seq<Op>, span: InputSpan)
    requires
        out.len() == ops.len() + 1,
    ensures
        spec_final_unwind(out, ops, span) is Some,
        spec_final_unwind(out, ops, span).unwrap().len() == 1,
        interleave(spec_final_unwind(out, ops, span).unwrap(), seq![]) == interleave(out, ops),
    decreases ops.len(),
{
    if ops.len() == 0 {
        assert(ops =~= seq![]);
    }
    if ops.len() > 0 {
        let n = out.len() as int;
        lemma_reduce_keeps_order(out, ops, span);
        lemma_final_unwind_keeps_order(
            out.take(n - 2).push(bin_node(ops.last(), span, out[n - 2], out[n - 1])),
            ops.drop_last(),
            span,
        );
    }
}

proof fn lemma_run_after_op<T>(st: ExpParseState<T>, items: Seq<ExpItem<T>>)
    requires
        st.output.len() == st.ops.len(),
        !st.last_number,
        wf_after_op(items),
    ensures
        spec_run(st, items) is Ok,
        ({
            let st2 = spec_run(st, items)->Ok_0;
            st2.output.len() == st2.ops.len() + 1 && interleave(st2.output, st2.ops) == interleave(
                st.output,
                st.ops,
            ) + render_items(items)
        }),
    decreases items.len(), 1int,
{
    let i0 = interleave(st.output, st.ops);
    match items[0] {
        ExpItem::Number(n) => {
            let st1 = spec_step(st, items[0])->Ok_0;
            assert(st1.output.drop_last() =~= st.output);
            assert(interleave(st1.output, st1.ops) == i0 + seq![Sym::Value(n.spec_value())]);
            if items.len() > 1 && items[1] is Operand {
                let e = items[1]->Operand_0;
                let st2 = spec_step(st1, items[1])->Ok_0;
                let b = bin_node(Op::Mul, e.spec_span(), ExpTree::Number(n), e);
                assert(st2.output =~= st.output.push(b));
                assert(st2.output.drop_last() =~= st.output);
                assert(interleave(st2.output, st2.ops) == i0 + render(b));
                let rest = items.drop_first().drop_first();
                assert(items.drop_first()[0] == items[1]);
                assert(items.drop_first().drop_first() =~= rest);
                assert(spec_run(st, items) == spec_run(st1, items.drop_first()));
                assert(spec_run(st1, items.drop_first()) == spec_run(st2, rest));
                lemma_run_after_group(st2, rest);
                assert(render_items(items.drop_first()) == render(e) + render_items(rest));
                assert(render_items(items) =~= seq![Sym::Value(n.spec_value()), Sym::Op(Op::Mul)]
                    + render(e) + render_items(rest));
                assert(interleave(st2.output, st2.ops) + render_items(rest) =~= i0 + render_items(items));
            } else {
                lemma_run_after_group(st1, items.drop_first());
                assert(render_items(items) =~= seq![Sym::Value(n.spec_value())] + render_items(items.drop_first()));
                assert(interleave(st1.output, st1.ops) + render_items(items.drop_first()) =~= i0 + render_items(items));
            }
        },
        ExpItem::Operand(e) => {
            let st1 = spec_step(st, items[0])->Ok_0;
            assert(st1.output.drop_last() =~= st.output);
            assert(interleave(st1.output, st1.ops) == i0 + render(e));
            lemma_run_after_group(st1, items.drop_first());
            assert(interleave(st1.output, st1.ops) + render_items(items.drop_first()) =~= i0 + render_items(items));
        },
        _ => {},
    }
}

proof fn lemma_run_after_group<T>(st: ExpParseState<T>, items: Seq<ExpItem<T>>)
    requires
        st.output.len() == st.ops.len() + 1,
        wf_after_group(items),
    ensures
        spec_run(st, items) is Ok,
        ({
            let st2 = spec_run(st, items)->Ok_0;
            st2.output.len() == st2.ops.len() + 1 && interleave(st2.output, st2.ops) == interleave(
                st.output,
                st.ops,
            ) + render_items(items)
        }),
    decreases items.len(), 0int,
{
    if items.len() == 0 {
        assert(interleave(st.output, st.ops) + render_items(items) =~= interleave(st.output, st.ops));
    } else {
        let op = items[0]->BinaryOp_0;
        let span = items[0]->BinaryOp_1;
        lemma_unwind_keeps_order(st.output, st.ops, op.spec_precedence(), span);
        let st1 = spec_step(st, items[0])->Ok_0;
        assert(st1.ops.drop_last() =~= spec_unwind(st.output, st.ops, op.spec_precedence(), span).unwrap().1);
        assert(interleave(st1.output, st1.ops) == interleave(st.output, st.ops) + seq![Sym::Op(op)]);
        lemma_run_after_op(st1, items.drop_first());
        assert(interleave(st1.output, st1.ops) + render_items(items.drop_first()) =~= interleave(
            st.output,
            st.ops,
        ) + render_items(items));
    }
}

/// Parsing keeps the source order: a well-made list of parts always
/// parses, and reading the tree in order gives back the parts (a leading
/// unary minus as `0 -`, an implicit multiplication as `*`).
pub proof fn lemma_parse_keeps_source_order<T>(items: Seq<ExpItem<T>>)
    requires
        wf_items(items),
    ensures
        spec_parse_exp_list(items) is Ok,
        render(spec_parse_exp_list(items)->Ok_0) == render_items(items),
{
    let st0 = initial_state::<T>();
    let st = if items.len() > 0 && items[0] is UnaryOp {
        let span = items[0]->UnaryOp_1;
        let st1 = spec_step(st0, items[0])->Ok_0;
        assert(st1.output =~= seq![ExpTree::<T>::Zero(span)]);
        assert(st1.ops =~= seq![Op::Sub]);
        assert(st1.ops.drop_last() =~= seq![]);
        assert(interleave(st1.output, st1.ops) == interleave(st1.output, seq![]) + seq![Sym::<T>::Op(Op::Sub)]);
        assert(st1.output.drop_last() =~= seq![]);
        assert(interleave(st1.output, seq![]) == interleave(seq![], seq![]) + render(ExpTree::<T>::Zero(span)));
        assert(interleave(st1.output, st1.ops) =~= seq![Sym::Zero, Sym::Op(Op::Sub)]);
        lemma_run_after_op(st1, items.drop_first());
        assert(render_items(items) =~= seq![Sym::Zero, Sym::Op(Op::Sub)] + render_items(items.drop_first()));
        spec_run(st1, items.drop_first())->Ok_0
    } else {
        assert(interleave(st0.output, st0.ops) =~= seq![]);
        lemma_run_after_op(st0, items);
        assert(seq![] + render_items(items) =~= render_items(items));
        spec_run(st0, items)->Ok_0
    };
    assert(spec_run(st0, items) == Ok::<ExpParseState<T>, ExpParseError>(st));
    assert(interleave(st.output, st.ops) == render_items(items));
    lemma_final_unwind_keeps_order(st.output, st.ops, st.last_op_span);
    let fin = spec_final_unwind(st.output, st.ops, st.last_op_span).unwrap();
    assert(fin.drop_last() =~= seq![]);
    assert(interleave(fin, seq![]) == interleave(fin.drop_last(), seq![]) + render(fin.last()));
    assert(interleave(fin.drop_last(), seq![]) =~= seq![]);
    assert(render(fin.last()) =~= interleave(fin, seq![]));
}

/// Precedence and left associativity: in `a op1 b op2 c`, the first
/// operator is applied first exactly when it binds at least as strongly as
/// the second. Nodes built while reading take the span of the operator that
/// caused them (the second one here).
pub proof fn lemma_precedence_grouping<T>(
    a: ExpTree<T>,
    b: ExpTree<T>,
    c: ExpTree<T>,
    op1: Op,
    s1: InputSpan,
    op2: Op,
    s2: InputSpan,
)
    requires
        !(a is Number),
        !(b is Number),
        !(c is Number),
    ensures
        spec_parse_exp_list(
            seq![
                ExpItem::Operand(a),
                ExpItem::BinaryOp(op1, s1),
                ExpItem::Operand(b),
                ExpItem::BinaryOp(op2, s2),
                ExpItem::Operand(c),
            ],
        ) == Ok::<ExpTree<T>, ExpParseError>(
            if op1.spec_precedence() >= op2.spec_precedence() {
                bin_node(op2, s2, bin_node(op1, s2, a, b), c)
            } else {
                bin_node(op1, s2, a, bin_node(op2, s2, b, c))
            },
        ),
{
    let items = seq![
        ExpItem::Operand(a),
        ExpItem::BinaryOp(op1, s1),
        ExpItem::Operand(b),
        ExpItem::BinaryOp(op2, s2),
        ExpItem::Operand(c),
    ];
    let st0 = initial_state::<T>();
    let st1 = spec_step(st0, items[0])->Ok_0;
    assert(st1.output =~= seq![a]);
    let st2 = spec_step(st1, items[1])->Ok_0;
    assert(st2.output =~= seq![a] && st2.ops =~= seq![op1]);
    let st3 = spec_step(st2, items[2])->Ok_0;
    assert(st3.output =~= seq![a, b]);
    let st4r = spec_step(st3, items[3]);
    let st4 = st4r->Ok_0;
    if op1.spec_precedence() >= op2.spec_precedence() {
        let b1 = bin_node(op1, s2, a, b);
        assert(seq![a, b].take(0).push(b1) =~= seq![b1]);
        assert(seq![op1].drop_last() =~= Seq::<Op>::empty());
        assert(spec_unwind(seq![b1], Seq::<Op>::empty(), op2.spec_precedence(), s2) == Some((seq![b1], Seq::<Op>::empty())));
        assert(st4.output =~= seq![b1] && st4.ops =~= seq![op2]);
        let st5 = spec_step(st4, items[4])->Ok_0;
        assert(st5.output =~= seq![b1, c]);
        assert(items.drop_first().drop_first().drop_first().drop_first().drop_first() =~= Seq::<ExpItem<T>>::empty());
        assert(spec_run(st0, items) == Ok::<ExpParseState<T>, ExpParseError>(st5)) by {
            let r1 = items.drop_first();
            let r2 = r1.drop_first();
            let r3 = r2.drop_first();
            let r4 = r3.drop_first();
            let r5 = r4.drop_first();
            assert(r1[0] == items[1]);
            assert(r2[0] == items[2]);
            assert(r3[0] == items[3]);
            assert(r4[0] == items[4]);
            assert(r5 =~= Seq::<ExpItem<T>>::empty());
            assert(spec_run(st5, r5) == Ok::<ExpParseState<T>, ExpParseError>(st5));
            assert(spec_run(st4, r4) == spec_run(st5, r5));
            assert(spec_run(st3, r3) == spec_run(st4, r4));
            assert(spec_run(st2, r2) == spec_run(st3, r3));
            assert(spec_run(st1, r1) == spec_run(st2, r2));
            assert(spec_run(st0, items) == spec_run(st1, r1));
        }
        let fin = bin_node(op2, s2, b1, c);
        assert(seq![b1, c].take(0).push(fin) =~= seq![fin]);
        assert(seq![op2].drop_last() =~= Seq::<Op>::empty());
        assert(spec_final_unwind(seq![fin], Seq::<Op>::empty(), s2) == Some(seq![fin]));
        assert(st5.last_op_span == s2 && st5.ops =~= seq![op2]);
        assert(spec_final_unwind(st5.output, st5.ops, st5.last_op_span) == Some(seq![fin]));
        assert(spec_finish(st5) == Ok::<ExpTree<T>, ExpParseError>(fin));
    } else {
        assert(st4.output =~= seq![a, b] && st4.ops =~= seq![op1, op2]);
        let st5 = spec_step(st4, items[4])->Ok_0;
        assert(st5.output =~= seq![a, b, c]);
        assert(spec_run(st0, items) == Ok::<ExpParseState<T>, ExpParseError>(st5)) by {
            let r1 = items.drop_first();
            let r2 = r1.drop_first();
            let r3 = r2.drop_first();
            let r4 = r3.drop_first();
            let r5 = r4.drop_first();
            assert(r1[0] == items[1]);
            assert(r2[0] == items[2]);
            assert(r3[0] == items[3]);
            assert(r4[0] == items[4]);
            assert(r5 =~= Seq::<ExpItem<T>>::empty());
            assert(spec_run(st5, r5) == Ok::<ExpParseState<T>, ExpParseError>(st5));
            assert(spec_run(st4, r4) == spec_run(st5, r5));
            assert(spec_run(st3, r3) == spec_run(st4, r4));
            assert(spec_run(st2, r2) == spec_run(st3, r3));
            assert(spec_run(st1, r1) == spec_run(st2, r2));
            assert(spec_run(st0, items) == spec_run(st1, r1));
        }
        let inner = bin_node(op2, s2, b, c);
        let fin = bin_node(op1, s2, a, inner);
        assert(seq![a, b, c].take(1).push(inner) =~= seq![a, inner]);
        assert(seq![op1, op2].drop_last() =~= seq![op1]);
        assert(seq![a, inner].take(0).push(fin) =~= seq![fin]);
        assert(seq![op1].drop_last() =~= Seq::<Op>::empty());
        assert(spec_final_unwind(seq![fin], Seq::<Op>::empty(), s2) == Some(seq![fin]));
        assert(st5.last_op_span == s2 && st5.ops =~= seq![op1, op2]);
        assert(spec_final_unwind(seq![a, inner], seq![op1], s2) == Some(seq![fin]));
        assert(spec_final_unwind(st5.output, st5.ops, st5.last_op_span) == Some(seq![fin]));
        assert(spec_finish(st5) == Ok::<ExpTree<T>, ExpParseError>(fin));
    }
}

/// Unwinding before an operator of strength `prec` applies exactly the
/// waiting operators that bind at least as strongly, top first: what stays
/// waiting is the bottom of the stack up to the first weaker operator, every
/// operator taken off binds at least as strongly as `prec`, and each one
/// applied joins two outputs into one.
pub proof fn lemma_unwind_applies_all_stronger<T>(output: Seq<ExpTree<T>>, ops: Seq<Op>, prec: u8, span: InputSpan)
    ensures
        match spec_unwind(output, ops, prec, span) {
            Some((o, q)) => {
                &&& q.len() <= ops.len()
                &&& q == ops.take(q.len() as int)
                &&& !(q.len() > 0 && q.last().spec_precedence() >= prec)
                &&& forall|i: int| q.len() <= i < ops.len() ==> #[trigger] ops[i].spec_precedence() >= prec
                &&& o.len() + ops.len() == output.len() + q.len()
            },
            None => true,
        },
    decreases ops.len(),
{
    if ops.len() > 0 && ops.last().spec_precedence() >= prec {
        if output.len() >= 2 {
            let n = output.len() as int;
            let o1 = output.take(n - 2).push(bin_node(ops.last(), span, output[n - 2], output[n - 1]));
            lemma_unwind_applies_all_stronger(o1, ops.drop_last(), prec, span);
            if let Some((o, q)) = spec_unwind(o1, ops.drop_last(), prec, span) {
                assert(ops.drop_last().take(q.len() as int) =~= ops.take(q.len() as int));
                assert forall|i: int| q.len() <= i < ops.len() implies #[trigger] ops[i].spec_precedence() >= prec by {
                    if i < ops.len() - 1 {
                        assert(ops.drop_last()[i] == ops[i]);
                    }
                }
            }
        }
    } else {
        assert(ops.take(ops.len() as int) =~= ops);
    }
}

} // verus!
