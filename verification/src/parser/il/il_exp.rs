//! Expressions of the intermediate language, and their type rules: the kind
//! of an expression, the check that every operator, function and iteration
//! in it is applied to values of kinds it accepts, and the kinds recorded
//! for its tokens.
use vstd::prelude::*;
use crate::consts::{InputSpan, Spanned};
use crate::math::operators::{BinOp, UnOp};
use crate::parser::il::block_functions::{BlockFunctionKind, BlockScopedFunctionKind};
use crate::parser::il::iterable_set::{BindingView, spec_variable_types, variable_types, bindings_result, binding_views};
use crate::parser::model_transformer::model::VariableKind;
use crate::parser::model_transformer::transform_error::{TransformError, ErrorModel, located, signature_model};
use crate::primitives::primitive::{
    Primitive, PrimitiveKind, KindModel, spec_is_numeric, spec_can_apply_binary_op, spec_can_apply_unary_op,
    spec_spread_kinds, kind_models, same_kind,
};
use crate::type_checker::{
    TypeCheckerContext, TypeCheckerView, FunctionContext, FunctionSignature, TokenView, lookup, find_function,
    spec_declare, spec_record, spec_open_frame, spec_close_frame, token_view, lemma_find_function,
};

verus! {

/// A named value read at positions: `name[i][j]`.
#[derive(Debug)]
pub struct AddressableAccess {
    pub name: String,
    pub accesses: Vec<PreExp>,
}

/// A variable with computed indexes: `name_i_j`.
#[derive(Debug)]
pub struct CompoundVariable {
    pub name: String,
    pub indexes: Vec<PreExp>,
}

/// A function over a list of expressions: `min{a, b}`.
#[derive(Debug)]
pub struct BlockFunction {
    pub kind: BlockFunctionKind,
    pub exps: Vec<PreExp>,
}

/// An iteration: the variables it binds and what it iterates over.
#[derive(Debug)]
pub struct IterableSet {
    pub var: VariableKind,
    pub iterator: Spanned<PreExp>,
    pub span: InputSpan,
}

/// A function over an expression for every binding of some iterations:
/// `sum(i in 0..n) { x_i }`.
#[derive(Debug)]
pub struct BlockScopedFunction {
    pub kind: BlockScopedFunctionKind,
    pub iters: Vec<IterableSet>,
    pub exp: Box<PreExp>,
}

/// A call of a named function.
#[derive(Debug)]
pub struct FunctionCall {
    pub name: String,
    pub args: Vec<PreExp>,
}

/// An expression of the intermediate language.
#[derive(Debug)]
pub enum PreExp {
    Primitive(Spanned<Primitive>),
    Abs(InputSpan, Box<PreExp>),
    BlockFunction(Spanned<BlockFunction>),
    Variable(Spanned<String>),
    CompoundVariable(Spanned<CompoundVariable>),
    ArrayAccess(Spanned<AddressableAccess>),
    BlockScopedFunction(Spanned<BlockScopedFunction>),
    FunctionCall(InputSpan, FunctionCall),
    BinaryOperation(Spanned<BinOp>, Box<PreExp>, Box<PreExp>),
    UnaryOperation(Spanned<UnOp>, Box<PreExp>),
}

/// A result without a value, as plain values.
pub open spec fn unit_result(r: Result<(), TransformError>) -> Result<(), ErrorModel> {
    match r {
        Ok(_) => Ok(()),
        Err(e) => Err(e.model()),
    }
}

/// The error `e`, located at `span` when there is one.
pub open spec fn locate_err(r: Result<(), ErrorModel>, span: InputSpan) -> Result<(), ErrorModel> {
    match r {
        Ok(_) => Ok(()),
        Err(e) => Err(located(e, span)),
    }
}

/// The kinds that can index a list: integers (and values of unknown kind).
pub open spec fn is_index_kind(k: KindModel) -> bool {
    k is Integer || k is PositiveInteger || k is Any
}

/// The kinds whose values can name a compound variable's index.
pub open spec fn is_name_kind(k: KindModel) -> bool {
    k is Number || k is Integer || k is PositiveInteger || k is Boolean || k is String || k is GraphNode
        || k is Any
}

/// The kinds that a compound variable's index is told to take.
pub open spec fn name_kinds() -> Seq<KindModel> {
    seq![KindModel::Number, KindModel::Integer, KindModel::PositiveInteger, KindModel::String, KindModel::GraphNode]
}

/// Whether an argument of kind `t` fits a parameter of kind `p`: `Any`
/// fits and is fitted by every kind, at any depth of lists and tuples.
pub open spec fn fits(t: KindModel, p: KindModel) -> bool
    decreases t, 0nat,
{
    if t is Any || p is Any {
        true
    } else {
        match (t, p) {
            (KindModel::Iterable(a), KindModel::Iterable(b)) => fits(*a, *b),
            (KindModel::Tuple(xs), KindModel::Tuple(ys)) => xs.len() == ys.len() && fits_all(xs, ys, 0),
            _ => t == p,
        }
    }
}

/// Whether the kinds `xs[i..]` fit the kinds `ys[i..]`, position by
/// position.
pub open spec fn fits_all(xs: Seq<KindModel>, ys: Seq<KindModel>, i: nat) -> bool
    decreases xs, xs.len() - i,
{
    if i >= xs.len() || i >= ys.len() {
        true
    } else {
        fits(xs[i as int], ys[i as int]) && fits_all(xs, ys, i + 1)
    }
}

impl PreExp {
    /// Where the expression is written.
    pub open spec fn spec_span(self) -> InputSpan {
        match self {
            PreExp::Primitive(p) => p.spec_span(),
            PreExp::Abs(s, _) => s,
            PreExp::BlockFunction(f) => f.spec_span(),
            PreExp::Variable(n) => n.spec_span(),
            PreExp::CompoundVariable(c) => c.spec_span(),
            PreExp::ArrayAccess(a) => a.spec_span(),
            PreExp::BlockScopedFunction(f) => f.spec_span(),
            PreExp::FunctionCall(s, _) => s,
            PreExp::BinaryOperation(op, _, _) => op.spec_span(),
            PreExp::UnaryOperation(op, _) => op.spec_span(),
        }
    }

    /// The kind of the expression: that of a literal; that of a variable
    /// in scope, `Number` for a variable of the model's domain, `Undefined`
    /// for an unknown name; the return kind of a known function; that of the
    /// left operand of an operator and of the operand of `abs`; what a read
    /// at positions gives, `Undefined` when it is refused; and `Number` for
    /// compound variables and functions over lists or iterations.
    pub open spec fn spec_get_type(self, c: TypeCheckerView, fns: Seq<FunctionSignature>) -> KindModel
        decreases self, 0nat,
    {
        match self {
            PreExp::Primitive(p) => p.spec_value().spec_kind(),
            PreExp::FunctionCall(_, f) => match find_function(fns, f.name@) {
                Some(i) => fns[i].ret.model(),
                None => KindModel::Undefined,
            },
            PreExp::Variable(n) => match lookup(c.frames, n.spec_value()@) {
                Some(k) => k,
                None => if c.domain.contains(n.spec_value()@) {
                    KindModel::Number
                } else {
                    KindModel::Undefined
                },
            },
            PreExp::BinaryOperation(_, l, _) => l.spec_get_type(c, fns),
            PreExp::UnaryOperation(_, x) => x.spec_get_type(c, fns),
            PreExp::Abs(_, x) => x.spec_get_type(c, fns),
            PreExp::ArrayAccess(a) => {
                proof {
                    a.lemma_value_decreases();
                }
                match addressable_kind(a.spec_value(), c, fns) {
                    Ok(k) => k,
                    Err(_) => KindModel::Undefined,
                }
            },
            _ => KindModel::Number,
        }
    }
}

/// The kind that `name[i][j]...` has: the variable must be in scope, each
/// position must be an integer, and each read must be of a list.
pub open spec fn addressable_kind(a: AddressableAccess, c: TypeCheckerView, fns: Seq<FunctionSignature>) -> Result<
    KindModel,
    ErrorModel,
>
    decreases a, 0nat,
{
    match lookup(c.frames, a.name@) {
        None => Err(ErrorModel::UndeclaredVariable(a.name@)),
        Some(k) => access_kind(a.accesses@, 0, k, c, fns),
    }
}

/// The kind after reading a value of kind `k` at the positions `s[i..]`.
pub open spec fn access_kind(s: Seq<PreExp>, i: nat, k: KindModel, c: TypeCheckerView, fns: Seq<
    FunctionSignature,
>) -> Result<KindModel, ErrorModel>
    decreases s, s.len() - i,
{
    if i >= s.len() {
        Ok(k)
    } else {
        let t = s[i as int].spec_get_type(c, fns);
        if !is_index_kind(t) {
            Err(ErrorModel::WrongArgument { got: t, expected: KindModel::PositiveInteger })
        } else {
            match k {
                KindModel::Iterable(inner) => access_kind(s, i + 1, *inner, c, fns),
                KindModel::Any => access_kind(s, i + 1, KindModel::Any, c, fns),
                _ => Err(
                    ErrorModel::WrongArgument { got: k, expected: KindModel::Iterable(Box::new(KindModel::Any)) },
                ),
            }
        }
    }
}

/// The kinds of the first `n` expressions of `s`.
pub open spec fn arg_kinds(s: Seq<PreExp>, n: nat, c: TypeCheckerView, fns: Seq<FunctionSignature>) -> Seq<
    KindModel,
>
    decreases n,
{
    if n == 0 || n > s.len() {
        seq![]
    } else {
        arg_kinds(s, (n - 1) as nat, c, fns).push(s[n - 1].spec_get_type(c, fns))
    }
}

/// Declares the bindings `b[i..]` one by one; the first refused stops.
pub open spec fn declare_all(b: Seq<BindingView>, i: nat, c: TypeCheckerView) -> (Result<(), ErrorModel>, TypeCheckerView)
    decreases b.len() - i,
{
    if i >= b.len() {
        (Ok(()), c)
    } else {
        let (r, c1) = spec_declare(c, b[i as int].0, b[i as int].2, b[i as int].1);
        if r is Err {
            (r, c1)
        } else {
            declare_all(b, i + 1, c1)
        }
    }
}

/// Closes `n` frames; the first refused stops.
pub open spec fn close_frames(n: nat, c: TypeCheckerView) -> (Result<(), ErrorModel>, TypeCheckerView)
    decreases n,
{
    if n == 0 {
        (Ok(()), c)
    } else {
        let (r, c1) = spec_close_frame(c);
        if r is Err {
            (r, c1)
        } else {
            close_frames((n - 1) as nat, c1)
        }
    }
}

/// The outcome of a check: its result and the knowledge after it.
pub type CheckOutcome = (Result<(), ErrorModel>, TypeCheckerView);

impl PreExp {
    /// Checks the expression: every operator must apply to the kinds of its
    /// operands, `abs` and the functions over lists or iterations must be
    /// numeric, variables must be in scope or of the model's domain, reads
    /// at positions must be allowed, calls must match a known signature, and
    /// an iteration binds its variables in a new frame for its body. The
    /// first error found stops the check; what was declared or recorded up
    /// to it stays.
    pub open spec fn spec_type_check(self, c: TypeCheckerView, fns: Seq<FunctionSignature>) -> CheckOutcome
        decreases self, 0nat,
    {
        match self {
            PreExp::FunctionCall(span, f) => match find_function(fns, f.name@) {
                None => (Err(located(ErrorModel::NonExistentFunction(f.name@), span)), c),
                Some(i) => {
                    let (r, c1) = check_call(f.args@, fns[i], c, fns);
                    (locate_err(r, span), c1)
                },
            },
            PreExp::BinaryOperation(op, l, r) => {
                let (r1, c1) = l.spec_type_check(c, fns);
                if r1 is Err {
                    (r1, c1)
                } else {
                    let (r2, c2) = r.spec_type_check(c1, fns);
                    if r2 is Err {
                        (r2, c2)
                    } else {
                        let lt = l.spec_get_type(c2, fns);
                        let rt = r.spec_get_type(c2, fns);
                        if !spec_can_apply_binary_op(lt, op.spec_value(), rt) {
                            (
                                Err(located(ErrorModel::BinOpError { operator: op.spec_value(), lhs: lt, rhs: rt }, op.spec_span())),
                                c2,
                            )
                        } else {
                            (Ok(()), c2)
                        }
                    }
                }
            },
            PreExp::UnaryOperation(op, x) => {
                let (r1, c1) = x.spec_type_check(c, fns);
                if r1 is Err {
                    (locate_err(r1, x.spec_span()), c1)
                } else {
                    let t = x.spec_get_type(c1, fns);
                    if !spec_can_apply_unary_op(t, op.spec_value()) {
                        (Err(located(ErrorModel::UnOpError { operator: op.spec_value(), exp: t }, op.spec_span())), c1)
                    } else {
                        (Ok(()), c1)
                    }
                }
            },
            PreExp::Primitive(_) => (Ok(()), c),
            PreExp::Abs(_, x) => {
                let (r1, c1) = x.spec_type_check(c, fns);
                if r1 is Err {
                    (locate_err(r1, x.spec_span()), c1)
                } else {
                    let t = x.spec_get_type(c1, fns);
                    if !spec_is_numeric(t) {
                        (Err(located(ErrorModel::WrongArgument { got: KindModel::Number, expected: t }, x.spec_span())), c1)
                    } else {
                        (Ok(()), c1)
                    }
                }
            },
            PreExp::Variable(n) => if lookup(c.frames, n.spec_value()@) is Some || c.domain.contains(n.spec_value()@) {
                (Ok(()), c)
            } else {
                (Err(located(ErrorModel::UndeclaredVariable(n.spec_value()@), n.spec_span())), c)
            },
            PreExp::CompoundVariable(cv) => {
                proof {
                    cv.lemma_value_decreases();
                }
                let (r, c1) = check_indexes(cv.spec_value().indexes@, 0, c, fns);
                (locate_err(r, cv.spec_span()), c1)
            },
            PreExp::BlockFunction(f) => {
                proof {
                    f.lemma_value_decreases();
                }
                check_numeric_all(f.spec_value().exps@, 0, f.spec_span(), c, fns)
            },
            PreExp::BlockScopedFunction(sf) => {
                proof {
                    sf.lemma_value_decreases();
                }
                let f = sf.spec_value();
                let span = sf.spec_span();
                let (r1, c1) = check_iters(f.iters@, 0, span, c, fns);
                if r1 is Err {
                    (r1, c1)
                } else {
                    let (res, c2) = f.exp.spec_type_check(c1, fns);
                    let t = f.exp.spec_get_type(c2, fns);
                    let (rp, c3) = close_frames(f.iters@.len(), c2);
                    if rp is Err {
                        (locate_err(rp, span), c3)
                    } else if res is Err {
                        (locate_err(res, span), c3)
                    } else if !spec_is_numeric(t) {
                        (
                            Err(
                                located(
                                    located(ErrorModel::WrongArgument { got: t, expected: KindModel::Number }, f.exp.spec_span()),
                                    span,
                                ),
                            ),
                            c3,
                        )
                    } else {
                        (Ok(()), c3)
                    }
                }
            },
            PreExp::ArrayAccess(a) => {
                proof {
                    a.lemma_value_decreases();
                }
                match addressable_kind(a.spec_value(), c, fns) {
                    Ok(_) => (Ok(()), c),
                    Err(e) => (Err(located(e, a.spec_span())), c),
                }
            },
        }
    }
}

/// Checks the arguments of a call against a signature: as many arguments
/// as parameters, each checked and of a fitting kind.
pub open spec fn check_call(args: Seq<PreExp>, sig: FunctionSignature, c: TypeCheckerView, fns: Seq<FunctionSignature>) -> CheckOutcome
    decreases args, args.len() + 1,
{
    if args.len() != sig.params@.len() {
        (
            Err(ErrorModel::WrongFunctionSignature { signature: signature_model(sig.params@), got: arg_kinds(args, args.len(), c, fns) }),
            c,
        )
    } else {
        check_args(args, 0, sig, c, fns)
    }
}

/// Checks the arguments `args[i..]` of a call, one by one.
pub open spec fn check_args(args: Seq<PreExp>, i: nat, sig: FunctionSignature, c: TypeCheckerView, fns: Seq<FunctionSignature>) -> CheckOutcome
    decreases args, args.len() - i,
{
    if i >= args.len() {
        (Ok(()), c)
    } else {
        let (r, c1) = args[i as int].spec_type_check(c, fns);
        if r is Err {
            (r, c1)
        } else {
            let t = args[i as int].spec_get_type(c1, fns);
            if !fits(t, sig.params@[i as int].1.model()) {
                (
                    Err(
                        ErrorModel::WrongFunctionSignature {
                            signature: signature_model(sig.params@),
                            got: arg_kinds(args, args.len(), c1, fns),
                        },
                    ),
                    c1,
                )
            } else {
                check_args(args, i + 1, sig, c1, fns)
            }
        }
    }
}

/// Checks the indexes `s[i..]` of a compound variable, one by one: each
/// checked and of a kind that can name an index.
pub open spec fn check_indexes(s: Seq<PreExp>, i: nat, c: TypeCheckerView, fns: Seq<FunctionSignature>) -> CheckOutcome
    decreases s, s.len() - i,
{
    if i >= s.len() {
        (Ok(()), c)
    } else {
        let (r, c1) = s[i as int].spec_type_check(c, fns);
        if r is Err {
            (r, c1)
        } else {
            let t = s[i as int].spec_get_type(c1, fns);
            if !is_name_kind(t) {
                (Err(ErrorModel::WrongExpectedArgument { got: t, one_of: name_kinds() }), c1)
            } else {
                check_indexes(s, i + 1, c1, fns)
            }
        }
    }
}

/// Checks the expressions `s[i..]` of a function over a list, one by one:
/// each checked and numeric; errors are located at `span`.
pub open spec fn check_numeric_all(s: Seq<PreExp>, i: nat, span: InputSpan, c: TypeCheckerView, fns: Seq<FunctionSignature>) -> CheckOutcome
    decreases s, s.len() - i,
{
    if i >= s.len() {
        (Ok(()), c)
    } else {
        let (r, c1) = s[i as int].spec_type_check(c, fns);
        if r is Err {
            (locate_err(r, span), c1)
        } else {
            let t = s[i as int].spec_get_type(c1, fns);
            if !spec_is_numeric(t) {
                (
                    Err(located(located(ErrorModel::WrongArgument { got: t, expected: KindModel::Number }, s[i as int].spec_span()), span)),
                    c1,
                )
            } else {
                check_numeric_all(s, i + 1, span, c1, fns)
            }
        }
    }
}

/// Checks the iterations `iters[i..]` of a function over iterations, one by
/// one: what each iterates over is checked, a frame is opened, and the
/// variables it binds are declared there. Errors of the check and of the
/// binding are located at `span`.
pub open spec fn check_iters(iters: Seq<IterableSet>, i: nat, span: InputSpan, c: TypeCheckerView, fns: Seq<FunctionSignature>) -> CheckOutcome
    decreases iters, iters.len() - i,
{
    if i >= iters.len() {
        (Ok(()), c)
    } else {
        let it = iters[i as int];
        proof {
            it.iterator.lemma_value_decreases();
        }
        let (r, c1) = it.iterator.spec_value().spec_type_check(c, fns);
        if r is Err {
            (locate_err(r, span), c1)
        } else {
            let c2 = spec_open_frame(c1);
            let k = it.iterator.spec_value().spec_get_type(c2, fns);
            match spec_variable_types(it.var, k, it.span) {
                Err(e) => (Err(located(e, span)), c2),
                Ok(b) => {
                    let (rd, c3) = declare_all(b, 0, c2);
                    if rd is Err {
                        (rd, c3)
                    } else {
                        check_iters(iters, i + 1, span, c3, fns)
                    }
                },
            }
        }
    }
}

/// The result of a kind computation as plain values.
pub open spec fn kind_result(r: Result<PrimitiveKind, TransformError>) -> Result<KindModel, ErrorModel> {
    match r {
        Ok(k) => Ok(k.model()),
        Err(e) => Err(e.model()),
    }
}

impl PreExp {
    /// Where the expression is written.
    pub fn span(&self) -> (r: InputSpan)
        ensures
            r == self.spec_span(),
    {
        match self {
            PreExp::Primitive(p) => *p.get_span(),
            PreExp::Abs(s, _) => *s,
            PreExp::BlockFunction(f) => *f.get_span(),
            PreExp::Variable(n) => *n.get_span(),
            PreExp::CompoundVariable(c) => *c.get_span(),
            PreExp::ArrayAccess(a) => *a.get_span(),
            PreExp::BlockScopedFunction(f) => *f.get_span(),
            PreExp::FunctionCall(s, _) => *s,
            PreExp::BinaryOperation(op, _, _) => *op.get_span(),
            PreExp::UnaryOperation(op, _) => *op.get_span(),
        }
    }

    /// The kind of the expression (see `spec_get_type`).
    pub fn get_type(&self, context: &TypeCheckerContext, fn_context: &FunctionContext) -> (r: PrimitiveKind)
        ensures
            r.model() == self.spec_get_type(context@, fn_context.functions@),
        decreases self, 0nat,
    {
        match self {
            PreExp::Primitive(p) => p.get_span_value().get_type(),
            PreExp::FunctionCall(_, f) => match fn_context.function(f.name.as_str()) {
                Some(i) => fn_context.functions[i].ret.duplicate(),
                None => PrimitiveKind::Undefined,
            },
            PreExp::Variable(n) => match context.value_of(n.get_span_value().as_str()) {
                Some(k) => k,
                None => if context.is_domain_variable(n.get_span_value().as_str()) {
                    PrimitiveKind::Number
                } else {
                    PrimitiveKind::Undefined
                },
            },
            PreExp::BinaryOperation(_, l, _) => l.get_type(context, fn_context),
            PreExp::UnaryOperation(_, x) => x.get_type(context, fn_context),
            PreExp::Abs(_, x) => x.get_type(context, fn_context),
            PreExp::ArrayAccess(a) => {
                proof {
                    a.lemma_value_decreases();
                }
                match addressable_value(a.get_span_value(), context, fn_context) {
                    Ok(k) => k,
                    Err(_) => PrimitiveKind::Undefined,
                }
            },
            PreExp::BlockFunction(_) | PreExp::BlockScopedFunction(_) | PreExp::CompoundVariable(_) => PrimitiveKind::Number,
        }
    }
}

/// The kind that `name[i][j]...` has (see `addressable_kind`).
pub fn addressable_value(a: &AddressableAccess, context: &TypeCheckerContext, fn_context: &FunctionContext) -> (r: Result<
    PrimitiveKind,
    TransformError,
>)
    ensures
        kind_result(r) == addressable_kind(*a, context@, fn_context.functions@),
    decreases a, 0nat,
{
    match context.value_of(a.name.as_str()) {
        None => Err(TransformError::UndeclaredVariable(a.name.clone())),
        Some(k) => access_value(&a.accesses, 0, k, context, fn_context),
    }
}

/// The kind after reading a value of kind `k` at the positions `s[i..]`.
fn access_value(s: &Vec<PreExp>, i: usize, k: PrimitiveKind, context: &TypeCheckerContext, fn_context: &FunctionContext) -> (r:
    Result<PrimitiveKind, TransformError>)
    requires
        i <= s@.len(),
    ensures
        kind_result(r) == access_kind(s@, i as nat, k.model(), context@, fn_context.functions@),
    decreases s@, s@.len() - i,
{
    if i >= s.len() {
        return Ok(k);
    }
    let t = s[i].get_type(context, fn_context);
    match t {
        PrimitiveKind::Integer | PrimitiveKind::PositiveInteger | PrimitiveKind::Any => {},
        _ => {
            return Err(TransformError::WrongArgument { got: t, expected: PrimitiveKind::PositiveInteger });
        },
    }
    match k {
        PrimitiveKind::Iterable(inner) => access_value(s, i + 1, *inner, context, fn_context),
        PrimitiveKind::Any => access_value(s, i + 1, PrimitiveKind::Any, context, fn_context),
        _ => {
            let e = TransformError::WrongArgument { got: k, expected: PrimitiveKind::Iterable(Box::new(PrimitiveKind::Any)) };
            proof {
                assert(PrimitiveKind::Any.model() == KindModel::Any);
                assert(PrimitiveKind::Iterable(Box::new(PrimitiveKind::Any)).model() == KindModel::Iterable(
                    Box::new(KindModel::Any),
                ));
            }
            Err(e)
        },
    }
}

/// The kinds of the expressions of `s`.
fn kinds_of(s: &Vec<PreExp>, context: &TypeCheckerContext, fn_context: &FunctionContext) -> (r: Vec<PrimitiveKind>)
    ensures
        kind_models(r@) == arg_kinds(s@, s@.len(), context@, fn_context.functions@),
{
    let mut out: Vec<PrimitiveKind> = Vec::new();
    let mut i: usize = 0;
    while i < s.len()
        invariant
            i <= s@.len(),
            kind_models(out@) == arg_kinds(s@, i as nat, context@, fn_context.functions@),
        decreases s.len() - i,
    {
        let k = s[i].get_type(context, fn_context);
        let ghost before = out@;
        out.push(k);
        proof {
            assert(out@.drop_last() =~= before);
        }
        i += 1;
    }
    out
}

/// A copy of a list of parameters.
fn copy_params(p: &Vec<(String, PrimitiveKind)>) -> (r: Vec<(String, PrimitiveKind)>)
    ensures
        signature_model(r@) == signature_model(p@),
{
    let mut out: Vec<(String, PrimitiveKind)> = Vec::new();
    let mut i: usize = 0;
    while i < p.len()
        invariant
            i <= p@.len(),
            out@.len() == i,
            forall|j: int| 0 <= j < i ==> #[trigger] out@[j].0@ == p@[j].0@ && out@[j].1.model() == p@[j].1.model(),
        decreases p.len() - i,
    {
        out.push((p[i].0.clone(), p[i].1.duplicate()));
        i += 1;
    }
    proof {
        assert(signature_model(out@) =~= signature_model(p@));
    }
    out
}

/// Locates an error at `span`.
fn locate(r: Result<(), TransformError>, span: &InputSpan) -> (o: Result<(), TransformError>)
    ensures
        unit_result(o) == locate_err(unit_result(r), *span),
{
    match r {
        Ok(_) => Ok(()),
        Err(e) => {
            proof {
                e.lemma_model_add_span(*span);
            }
            Err(e.add_span(span))
        },
    }
}

impl PreExp {
    /// Checks the expression (see `spec_type_check`).
    pub fn type_check(&self, context: &mut TypeCheckerContext, fn_context: &FunctionContext) -> (r: Result<(), TransformError>)
        ensures
            (unit_result(r), final(context)@) == self.spec_type_check(old(context)@, fn_context.functions@),
        decreases self, 0nat,
    {
        match self {
            PreExp::FunctionCall(span, f) => match fn_context.function(f.name.as_str()) {
                None => {
                    let e = TransformError::NonExistentFunction(f.name.clone());
                    proof {
                        e.lemma_model_add_span(*span);
                    }
                    Err(e.add_span(span))
                },
                Some(i) => {
                    let r = check_call_exec(&f.args, &fn_context.functions[i], context, fn_context);
                    locate(r, span)
                },
            },
            PreExp::BinaryOperation(op, l, r) => {
                l.type_check(context, fn_context)?;
                r.type_check(context, fn_context)?;
                let lt = l.get_type(context, fn_context);
                let rt = r.get_type(context, fn_context);
                let o = *op.get_span_value();
                if !lt.can_apply_binary_op(o, rt.duplicate()) {
                    let e = TransformError::BinOpError { operator: o, lhs: lt, rhs: rt };
                    proof {
                        e.lemma_model_add_span(op.spec_span());
                    }
                    Err(e.add_span(op.get_span()))
                } else {
                    Ok(())
                }
            },
            PreExp::UnaryOperation(op, x) => {
                let r1 = x.type_check(context, fn_context);
                if r1.is_err() {
                    return locate(r1, &x.span());
                }
                let t = x.get_type(context, fn_context);
                let o = *op.get_span_value();
                if !t.can_apply_unary_op(o) {
                    let e = TransformError::UnOpError { operator: o, exp: t };
                    proof {
                        e.lemma_model_add_span(op.spec_span());
                    }
                    Err(e.add_span(op.get_span()))
                } else {
                    Ok(())
                }
            },
            PreExp::Primitive(_) => Ok(()),
            PreExp::Abs(_, x) => {
                let r1 = x.type_check(context, fn_context);
                if r1.is_err() {
                    return locate(r1, &x.span());
                }
                let t = x.get_type(context, fn_context);
                if !t.is_numeric() {
                    let e = TransformError::WrongArgument { got: PrimitiveKind::Number, expected: t };
                    proof {
                        e.lemma_model_add_span(x.spec_span());
                    }
                    Err(e.add_span(&x.span()))
                } else {
                    Ok(())
                }
            },
            PreExp::Variable(n) => {
                let name = n.get_span_value().as_str();
                if context.value_of(name).is_some() || context.is_domain_variable(name) {
                    Ok(())
                } else {
                    let e = TransformError::UndeclaredVariable(n.get_span_value().clone());
                    proof {
                        e.lemma_model_add_span(n.spec_span());
                    }
                    Err(e.add_span(n.get_span()))
                }
            },
            PreExp::CompoundVariable(cv) => {
                proof {
                    cv.lemma_value_decreases();
                }
                let r = check_indexes_exec(&cv.get_span_value().indexes, 0, context, fn_context);
                locate(r, cv.get_span())
            },
            PreExp::BlockFunction(f) => {
                proof {
                    f.lemma_value_decreases();
                }
                check_numeric_all_exec(&f.get_span_value().exps, 0, f.get_span(), context, fn_context)
            },
            PreExp::BlockScopedFunction(sf) => {
                proof {
                    sf.lemma_value_decreases();
                }
                let f = sf.get_span_value();
                let span = sf.get_span();
                let r1 = check_iters_exec(&f.iters, 0, span, context, fn_context);
                if r1.is_err() {
                    return r1;
                }
                let res = f.exp.type_check(context, fn_context);
                let t = f.exp.get_type(context, fn_context);
                let rp = close_frames_exec(f.iters.len(), context);
                if rp.is_err() {
                    return locate(rp, span);
                }
                if res.is_err() {
                    return locate(res, span);
                }
                if !t.is_numeric() {
                    let e = TransformError::WrongArgument { got: t, expected: PrimitiveKind::Number };
                    let e1 = e.add_span(&f.exp.span());
                    proof {
                        e.lemma_model_add_span(f.exp.spec_span());
                        e1.lemma_model_add_span(*span);
                    }
                    return Err(e1.add_span(span));
                }
                Ok(())
            },
            PreExp::ArrayAccess(a) => {
                proof {
                    a.lemma_value_decreases();
                }
                match addressable_value(a.get_span_value(), context, fn_context) {
                    Ok(_) => Ok(()),
                    Err(e) => {
                        proof {
                            e.lemma_model_add_span(a.spec_span());
                        }
                        Err(e.add_span(a.get_span()))
                    },
                }
            },
        }
    }
}

/// Checks the arguments of a call against a signature (see `check_call`).
fn check_call_exec(args: &Vec<PreExp>, sig: &FunctionSignature, context: &mut TypeCheckerContext, fn_context: &FunctionContext) -> (r:
    Result<(), TransformError>)
    ensures
        (unit_result(r), final(context)@) == check_call(args@, *sig, old(context)@, fn_context.functions@),
    decreases args@, args@.len() + 1,
{
    if args.len() != sig.params.len() {
        let got = kinds_of(args, context, fn_context);
        return Err(TransformError::WrongFunctionSignature { signature: copy_params(&sig.params), got });
    }
    check_args_exec(args, 0, sig, context, fn_context)
}

/// Checks the arguments `args[i..]` of a call (see `check_args`).
fn check_args_exec(args: &Vec<PreExp>, i: usize, sig: &FunctionSignature, context: &mut TypeCheckerContext, fn_context: &FunctionContext) -> (r:
    Result<(), TransformError>)
    requires
        i <= args@.len(),
        args@.len() == sig.params@.len(),
    ensures
        (unit_result(r), final(context)@) == check_args(args@, i as nat, *sig, old(context)@, fn_context.functions@),
    decreases args@, args@.len() - i,
{
    if i >= args.len() {
        return Ok(());
    }
    args[i].type_check(context, fn_context)?;
    let t = args[i].get_type(context, fn_context);
    let p = &sig.params[i].1;
    if !kind_fits(&t, p) {
        let got = kinds_of(args, context, fn_context);
        return Err(TransformError::WrongFunctionSignature { signature: copy_params(&sig.params), got });
    }
    check_args_exec(args, i + 1, sig, context, fn_context)
}

/// Checks the indexes `s[i..]` of a compound variable (see
/// `check_indexes`).
fn check_indexes_exec(s: &Vec<PreExp>, i: usize, context: &mut TypeCheckerContext, fn_context: &FunctionContext) -> (r: Result<
    (),
    TransformError,
>)
    requires
        i <= s@.len(),
    ensures
        (unit_result(r), final(context)@) == check_indexes(s@, i as nat, old(context)@, fn_context.functions@),
    decreases s@, s@.len() - i,
{
    if i >= s.len() {
        return Ok(());
    }
    s[i].type_check(context, fn_context)?;
    let t = s[i].get_type(context, fn_context);
    match t {
        PrimitiveKind::Number | PrimitiveKind::Integer | PrimitiveKind::PositiveInteger | PrimitiveKind::Boolean
        | PrimitiveKind::String | PrimitiveKind::GraphNode | PrimitiveKind::Any => {},
        _ => {
            let one_of = vec![
                PrimitiveKind::Number,
                PrimitiveKind::Integer,
                PrimitiveKind::PositiveInteger,
                PrimitiveKind::String,
                PrimitiveKind::GraphNode,
            ];
            proof {
                reveal_with_fuel(kind_models, 6);
                assert(one_of@.drop_last().drop_last().drop_last().drop_last().drop_last() =~= Seq::<PrimitiveKind>::empty());
                assert(kind_models(one_of@) =~= name_kinds());
            }
            return Err(TransformError::WrongExpectedArgument { got: t, one_of });
        },
    }
    check_indexes_exec(s, i + 1, context, fn_context)
}

/// Checks the expressions `s[i..]` of a function over a list (see
/// `check_numeric_all`).
fn check_numeric_all_exec(s: &Vec<PreExp>, i: usize, span: &InputSpan, context: &mut TypeCheckerContext, fn_context: &FunctionContext) -> (r:
    Result<(), TransformError>)
    requires
        i <= s@.len(),
    ensures
        (unit_result(r), final(context)@) == check_numeric_all(s@, i as nat, *span, old(context)@, fn_context.functions@),
    decreases s@, s@.len() - i,
{
    if i >= s.len() {
        return Ok(());
    }
    let r = s[i].type_check(context, fn_context);
    if r.is_err() {
        return locate(r, span);
    }
    let t = s[i].get_type(context, fn_context);
    if !t.is_numeric() {
        let e = TransformError::WrongArgument { got: t, expected: PrimitiveKind::Number };
        let e1 = e.add_span(&s[i].span());
        proof {
            e.lemma_model_add_span(s@[i as int].spec_span());
            e1.lemma_model_add_span(*span);
        }
        return Err(e1.add_span(span));
    }
    check_numeric_all_exec(s, i + 1, span, context, fn_context)
}

/// Declares the bindings `b[i..]` one by one (see `declare_all`).
fn declare_all_exec(b: Vec<(Spanned<String>, PrimitiveKind)>, context: &mut TypeCheckerContext) -> (r: Result<(), TransformError>)
    ensures
        (unit_result(r), final(context)@) == declare_all(binding_views(b@), 0, old(context)@),
{
    let ghost all = binding_views(b@);
    let ghost c0 = context@;
    let mut i: usize = 0;
    while i < b.len()
        invariant
            i <= b@.len(),
            all == binding_views(b@),
            declare_all(all, 0, c0) == declare_all(all, i as nat, context@),
            c0 == old(context)@,
        decreases b.len() - i,
    {
        let name = b[i].0.get_span_value().clone();
        let span = *b[i].0.get_span();
        let kind = b[i].1.duplicate();
        let ghost before = context@;
        let r = context.add_token_type(kind, span, name);
        proof {
            assert(all[i as int] == (b@[i as int].0.spec_value()@, b@[i as int].0.spec_span(), b@[i as int].1.model()));
            assert((unit_result(r), context@) == spec_declare(before, all[i as int].0, all[i as int].2, all[i as int].1));
        }
        if r.is_err() {
            proof {
                assert(declare_all(all, i as nat, before) == (unit_result(r), context@));
            }
            return r;
        }
        i += 1;
    }
    Ok(())
}

/// Closes `n` frames (see `close_frames`).
fn close_frames_exec(n: usize, context: &mut TypeCheckerContext) -> (r: Result<(), TransformError>)
    ensures
        (unit_result(r), final(context)@) == close_frames(n as nat, old(context)@),
{
    let ghost c0 = context@;
    let mut k: usize = n;
    while k > 0
        invariant
            close_frames(n as nat, c0) == close_frames(k as nat, context@),
            c0 == old(context)@,
        decreases k,
    {
        let ghost before = context@;
        let r = context.pop_scope();
        proof {
            assert((unit_result(r), context@) == spec_close_frame(before));
        }
        if r.is_err() {
            proof {
                assert(close_frames(k as nat, before) == (unit_result(r), context@));
            }
            return r;
        }
        k -= 1;
    }
    Ok(())
}

/// Checks the iterations `iters[i..]` (see `check_iters`).
fn check_iters_exec(iters: &Vec<IterableSet>, i: usize, span: &InputSpan, context: &mut TypeCheckerContext, fn_context: &FunctionContext) -> (r:
    Result<(), TransformError>)
    requires
        i <= iters@.len(),
    ensures
        (unit_result(r), final(context)@) == check_iters(iters@, i as nat, *span, old(context)@, fn_context.functions@),
    decreases iters@, iters@.len() - i,
{
    if i >= iters.len() {
        return Ok(());
    }
    let it = &iters[i];
    proof {
        it.iterator.lemma_value_decreases();
    }
    let r = it.iterator.get_span_value().type_check(context, fn_context);
    if r.is_err() {
        return locate(r, span);
    }
    context.add_scope();
    let k = it.iterator.get_span_value().get_type(context, fn_context);
    let b = match variable_types(&it.var, k, it.span) {
        Ok(b) => b,
        Err(e) => {
            proof {
                e.lemma_model_add_span(*span);
            }
            return Err(e.add_span(span));
        },
    };
    let rd = declare_all_exec(b, context);
    if rd.is_err() {
        return rd;
    }
    check_iters_exec(iters, i + 1, span, context, fn_context)
}

/// The kind recorded for the `j`-th variable of a tuple that iterates over
/// values of kind `el`: the inner kind of a list of lists, the `j`-th kind
/// that the values spread into, or `Undefined`.
pub open spec fn var_kind(el: KindModel, j: int) -> KindModel {
    match el {
        KindModel::Iterable(k) => *k,
        _ => match spec_spread_kinds(el) {
            Some(ks) => if 0 <= j < ks.len() {
                ks[j]
            } else {
                KindModel::Undefined
            },
            None => KindModel::Undefined,
        },
    }
}

/// Records the tokens of the variables `vars[i..]` of a tuple.
pub open spec fn record_vars(vars: Seq<Spanned<String>>, i: nat, el: KindModel, c: TypeCheckerView) -> TypeCheckerView
    decreases vars.len() - i,
{
    if i >= vars.len() {
        c
    } else {
        record_vars(
            vars,
            i + 1,
            el,
            spec_record(c, (vars[i as int].spec_span(), var_kind(el, i as int), Some(vars[i as int].spec_value()@))),
        )
    }
}

/// The kind of the elements of a list kind, `Undefined` for other kinds.
pub open spec fn element_kind(t: KindModel) -> KindModel {
    match t {
        KindModel::Iterable(k) => *k,
        _ => KindModel::Undefined,
    }
}

impl PreExp {
    /// Records the kind of each token of the expression, in the order in
    /// which they are written: a literal by its kind; a variable by its
    /// kind in scope (`Number` for a variable of the model's domain,
    /// `Undefined` for an unknown name); a compound variable as a `Number`;
    /// a read at positions by the kind of the variable read; and the
    /// variables of an iteration by the kinds they take. Nothing is declared
    /// and nothing fails.
    pub open spec fn spec_populate(self, c: TypeCheckerView, fns: Seq<FunctionSignature>) -> TypeCheckerView
        decreases self, 0nat,
    {
        match self {
            PreExp::FunctionCall(_, f) => populate_all(f.args@, 0, c, fns),
            PreExp::Abs(_, x) => x.spec_populate(c, fns),
            PreExp::Primitive(p) => spec_record(c, (p.spec_span(), p.spec_value().spec_kind(), None)),
            PreExp::Variable(n) => spec_record(c, (n.spec_span(), PreExp::Variable(n).spec_get_type(c, fns), Some(n.spec_value()@))),
            PreExp::CompoundVariable(cv) => {
                proof {
                    cv.lemma_value_decreases();
                }
                populate_all(cv.spec_value().indexes@, 0, spec_record(c, (cv.spec_span(), KindModel::Number, None)), fns)
            },
            PreExp::BinaryOperation(_, l, r) => r.spec_populate(l.spec_populate(c, fns), fns),
            PreExp::UnaryOperation(_, x) => x.spec_populate(c, fns),
            PreExp::ArrayAccess(a) => {
                proof {
                    a.lemma_value_decreases();
                }
                let k = match lookup(c.frames, a.spec_value().name@) {
                    Some(k) => k,
                    None => KindModel::Undefined,
                };
                populate_all(a.spec_value().accesses@, 0, spec_record(c, (a.spec_span(), k, Some(a.spec_value().name@))), fns)
            },
            PreExp::BlockFunction(f) => {
                proof {
                    f.lemma_value_decreases();
                }
                populate_all(f.spec_value().exps@, 0, c, fns)
            },
            PreExp::BlockScopedFunction(sf) => {
                proof {
                    sf.lemma_value_decreases();
                }
                sf.spec_value().exp.spec_populate(populate_iters(sf.spec_value().iters@, 0, c, fns), fns)
            },
        }
    }
}

/// Records the tokens of the expressions `s[i..]`, one after the other.
pub open spec fn populate_all(s: Seq<PreExp>, i: nat, c: TypeCheckerView, fns: Seq<FunctionSignature>) -> TypeCheckerView
    decreases s, s.len() - i,
{
    if i >= s.len() {
        c
    } else {
        populate_all(s, i + 1, s[i as int].spec_populate(c, fns), fns)
    }
}

/// Records the tokens of the iterations `iters[i..]`: what each iterates
/// over, then the variables it binds, a single variable at the span of the
/// iteration.
pub open spec fn populate_iters(iters: Seq<IterableSet>, i: nat, c: TypeCheckerView, fns: Seq<FunctionSignature>) -> TypeCheckerView
    decreases iters, iters.len() - i,
{
    if i >= iters.len() {
        c
    } else {
        let it = iters[i as int];
        proof {
            it.iterator.lemma_value_decreases();
        }
        let c1 = it.iterator.spec_value().spec_populate(c, fns);
        let el = element_kind(it.iterator.spec_value().spec_get_type(c1, fns));
        let c2 = match it.var {
            VariableKind::Single(name) => spec_record(c1, (it.span, el, Some(name.spec_value()@))),
            VariableKind::Tuple(vars) => record_vars(vars@, 0, el, c1),
        };
        populate_iters(iters, i + 1, c2, fns)
    }
}

impl PreExp {
    /// Records the kind of each token of the expression (see
    /// `spec_populate`).
    pub fn populate_token_type_map(&self, context: &mut TypeCheckerContext, fn_context: &FunctionContext)
        ensures
            final(context)@ == self.spec_populate(old(context)@, fn_context.functions@),
        decreases self, 0nat,
    {
        match self {
            PreExp::FunctionCall(_, f) => populate_all_exec(&f.args, 0, context, fn_context),
            PreExp::Abs(_, x) => x.populate_token_type_map(context, fn_context),
            PreExp::Primitive(p) => {
                context.add_token_type_or_undefined(p.get_span_value().get_type(), *p.get_span(), None);
            },
            PreExp::Variable(n) => {
                let k = self.get_type(context, fn_context);
                context.add_token_type_or_undefined(k, *n.get_span(), Some(n.get_span_value().clone()));
            },
            PreExp::CompoundVariable(cv) => {
                proof {
                    cv.lemma_value_decreases();
                }
                context.add_token_type_or_undefined(PrimitiveKind::Number, *cv.get_span(), None);
                populate_all_exec(&cv.get_span_value().indexes, 0, context, fn_context);
            },
            PreExp::BinaryOperation(_, l, r) => {
                l.populate_token_type_map(context, fn_context);
                r.populate_token_type_map(context, fn_context);
            },
            PreExp::UnaryOperation(_, x) => x.populate_token_type_map(context, fn_context),
            PreExp::ArrayAccess(a) => {
                proof {
                    a.lemma_value_decreases();
                }
                let access = a.get_span_value();
                let k = match context.value_of(access.name.as_str()) {
                    Some(k) => k,
                    None => PrimitiveKind::Undefined,
                };
                context.add_token_type_or_undefined(k, *a.get_span(), Some(access.name.clone()));
                populate_all_exec(&access.accesses, 0, context, fn_context);
            },
            PreExp::BlockFunction(f) => {
                proof {
                    f.lemma_value_decreases();
                }
                populate_all_exec(&f.get_span_value().exps, 0, context, fn_context);
            },
            PreExp::BlockScopedFunction(sf) => {
                proof {
                    sf.lemma_value_decreases();
                }
                populate_iters_exec(&sf.get_span_value().iters, 0, context, fn_context);
                sf.get_span_value().exp.populate_token_type_map(context, fn_context);
            },
        }
    }
}

/// Records the tokens of the expressions `s[i..]` (see `populate_all`).
fn populate_all_exec(s: &Vec<PreExp>, i: usize, context: &mut TypeCheckerContext, fn_context: &FunctionContext)
    requires
        i <= s@.len(),
    ensures
        final(context)@ == populate_all(s@, i as nat, old(context)@, fn_context.functions@),
    decreases s@, s@.len() - i,
{
    if i < s.len() {
        s[i].populate_token_type_map(context, fn_context);
        populate_all_exec(s, i + 1, context, fn_context);
    }
}

/// The kind recorded for the `j`-th variable of a tuple (see `var_kind`).
fn var_kind_exec(el: &PrimitiveKind, j: usize) -> (r: PrimitiveKind)
    ensures
        r.model() == var_kind(el.model(), j as int),
{
    match el {
        PrimitiveKind::Iterable(k) => (**k).duplicate(),
        _ => match el.can_spread_into() {
            Ok(ks) => {
                proof {
                    crate::primitives::primitive::lemma_kind_models_len(ks@);
                }
                if j < ks.len() {
                    proof {
                        crate::primitives::primitive::lemma_kind_models_index(ks@, j as int);
                    }
                    ks[j].duplicate()
                } else {
                    PrimitiveKind::Undefined
                }
            },
            Err(_) => PrimitiveKind::Undefined,
        },
    }
}

/// Records the tokens of the iterations `iters[i..]` (see
/// `populate_iters`).
fn populate_iters_exec(iters: &Vec<IterableSet>, i: usize, context: &mut TypeCheckerContext, fn_context: &FunctionContext)
    requires
        i <= iters@.len(),
    ensures
        final(context)@ == populate_iters(iters@, i as nat, old(context)@, fn_context.functions@),
    decreases iters@, iters@.len() - i,
{
    if i >= iters.len() {
        return;
    }
    let it = &iters[i];
    proof {
        it.iterator.lemma_value_decreases();
    }
    it.iterator.get_span_value().populate_token_type_map(context, fn_context);
    let t = it.iterator.get_span_value().get_type(context, fn_context);
    let el = match t {
        PrimitiveKind::Iterable(k) => *k,
        _ => PrimitiveKind::Undefined,
    };
    match &it.var {
        VariableKind::Single(name) => {
            context.add_token_type_or_undefined(el, it.span, Some(name.get_span_value().clone()));
        },
        VariableKind::Tuple(vars) => {
            let ghost c0 = context@;
            let mut j: usize = 0;
            while j < vars.len()
                invariant
                    j <= vars@.len(),
                    record_vars(vars@, 0, el.model(), c0) == record_vars(vars@, j as nat, el.model(), context@),
                decreases vars.len() - j,
            {
                let k = var_kind_exec(&el, j);
                context.add_token_type_or_undefined(k, *vars[j].get_span(), Some(vars[j].get_span_value().clone()));
                j += 1;
            }
        },
    }
    populate_iters_exec(iters, i + 1, context, fn_context);
}

/// Whether an argument of kind `t` fits a parameter of kind `p` (see
/// `fits`).
pub fn kind_fits(t: &PrimitiveKind, p: &PrimitiveKind) -> (r: bool)
    ensures
        r == fits(t.model(), p.model()),
    decreases t, 0nat,
{
    if t.is_any() || p.is_any() {
        return true;
    }
    match (t, p) {
        (PrimitiveKind::Iterable(a), PrimitiveKind::Iterable(b)) => kind_fits(&**a, &**b),
        (PrimitiveKind::Tuple(xs), PrimitiveKind::Tuple(ys)) => {
            proof {
                crate::primitives::primitive::lemma_kind_models_len(xs@);
                crate::primitives::primitive::lemma_kind_models_len(ys@);
            }
            xs.len() == ys.len() && kinds_fit(xs, ys, 0)
        },
        _ => same_kind(t, p),
    }
}

/// Whether the kinds `xs[i..]` fit the kinds `ys[i..]` (see `fits_all`).
fn kinds_fit(xs: &Vec<PrimitiveKind>, ys: &Vec<PrimitiveKind>, i: usize) -> (r: bool)
    requires
        i <= xs@.len(),
        xs@.len() == ys@.len(),
    ensures
        r == fits_all(kind_models(xs@), kind_models(ys@), i as nat),
    decreases xs@, xs@.len() - i,
{
    proof {
        crate::primitives::primitive::lemma_kind_models_len(xs@);
        crate::primitives::primitive::lemma_kind_models_len(ys@);
    }
    if i >= xs.len() {
        return true;
    }
    proof {
        crate::primitives::primitive::lemma_kind_models_index(xs@, i as int);
        crate::primitives::primitive::lemma_kind_models_index(ys@, i as int);
    }
    kind_fits(&xs[i], &ys[i]) && kinds_fit(xs, ys, i + 1)
}

/// Whether a check kept the variables of the model's domain, and, when it
/// succeeded, the frames it started with.
pub open spec fn keeps_scopes(c: TypeCheckerView, o: CheckOutcome) -> bool {
    o.1.domain == c.domain && (o.0 is Ok ==> o.1.frames == c.frames)
}

/// Scope discipline: checking an expression never changes the variables of
/// the model's domain, and a check that succeeds leaves the frames as it
/// found them: every frame that an iteration opens for its variables is
/// closed again.
pub proof fn lemma_type_check_keeps_scopes(e: PreExp, c: TypeCheckerView, fns: Seq<FunctionSignature>)
    ensures
        keeps_scopes(c, e.spec_type_check(c, fns)),
    decreases e, 0nat,
{
    match e {
        PreExp::FunctionCall(span, f) => {
            if let Some(i) = find_function(fns, f.name@) {
                lemma_check_call_keeps(f.args@, fns[i], c, fns);
            }
        },
        PreExp::BinaryOperation(op, l, r) => {
            lemma_type_check_keeps_scopes(*l, c, fns);
            let c1 = l.spec_type_check(c, fns).1;
            lemma_type_check_keeps_scopes(*r, c1, fns);
        },
        PreExp::UnaryOperation(_, x) => {
            lemma_type_check_keeps_scopes(*x, c, fns);
        },
        PreExp::Abs(_, x) => {
            lemma_type_check_keeps_scopes(*x, c, fns);
        },
        PreExp::CompoundVariable(cv) => {
            cv.lemma_value_decreases();
            lemma_check_indexes_keeps(cv.spec_value().indexes@, 0, c, fns);
        },
        PreExp::BlockFunction(f) => {
            f.lemma_value_decreases();
            lemma_check_numeric_all_keeps(f.spec_value().exps@, 0, f.spec_span(), c, fns);
        },
        PreExp::BlockScopedFunction(sf) => {
            sf.lemma_value_decreases();
            let f = sf.spec_value();
            let span = sf.spec_span();
            let m = f.iters@.len();
            lemma_check_iters_frames(f.iters@, 0, span, c, fns);
            let (r1, c1) = check_iters(f.iters@, 0, span, c, fns);
            if r1 is Ok {
                lemma_type_check_keeps_scopes(*f.exp, c1, fns);
                let (res, c2) = f.exp.spec_type_check(c1, fns);
                lemma_close_frames(m, c2);
                let (rp, c3) = close_frames(m, c2);
                if rp is Ok && res is Ok {
                    assert(c3.frames =~= c.frames);
                }
            }
        },
        PreExp::ArrayAccess(a) => {
            a.lemma_value_decreases();
        },
        _ => {},
    }
}

/// Checking a call keeps the scopes.
pub proof fn lemma_check_call_keeps(args: Seq<PreExp>, sig: FunctionSignature, c: TypeCheckerView, fns: Seq<FunctionSignature>)
    ensures
        keeps_scopes(c, check_call(args, sig, c, fns)),
    decreases args, args.len() + 1,
{
    if args.len() == sig.params@.len() {
        lemma_check_args_keeps(args, 0, sig, c, fns);
    }
}

/// Checking the arguments of a call keeps the scopes.
pub proof fn lemma_check_args_keeps(args: Seq<PreExp>, i: nat, sig: FunctionSignature, c: TypeCheckerView, fns: Seq<FunctionSignature>)
    ensures
        keeps_scopes(c, check_args(args, i, sig, c, fns)),
    decreases args, args.len() - i,
{
    if i < args.len() {
        lemma_type_check_keeps_scopes(args[i as int], c, fns);
        let c1 = args[i as int].spec_type_check(c, fns).1;
        lemma_check_args_keeps(args, i + 1, sig, c1, fns);
    }
}

/// Checking the indexes of a compound variable keeps the scopes.
pub proof fn lemma_check_indexes_keeps(s: Seq<PreExp>, i: nat, c: TypeCheckerView, fns: Seq<FunctionSignature>)
    ensures
        keeps_scopes(c, check_indexes(s, i, c, fns)),
    decreases s, s.len() - i,
{
    if i < s.len() {
        lemma_type_check_keeps_scopes(s[i as int], c, fns);
        let c1 = s[i as int].spec_type_check(c, fns).1;
        lemma_check_indexes_keeps(s, i + 1, c1, fns);
    }
}

/// Checking the expressions of a function over a list keeps the scopes.
pub proof fn lemma_check_numeric_all_keeps(s: Seq<PreExp>, i: nat, span: InputSpan, c: TypeCheckerView, fns: Seq<FunctionSignature>)
    ensures
        keeps_scopes(c, check_numeric_all(s, i, span, c, fns)),
    decreases s, s.len() - i,
{
    if i < s.len() {
        lemma_type_check_keeps_scopes(s[i as int], c, fns);
        let c1 = s[i as int].spec_type_check(c, fns).1;
        lemma_check_numeric_all_keeps(s, i + 1, span, c1, fns);
    }
}

/// Checking iterations keeps the domain; when it succeeds it has opened one
/// frame per iteration on top of the frames it found.
pub proof fn lemma_check_iters_frames(iters: Seq<IterableSet>, i: nat, span: InputSpan, c: TypeCheckerView, fns: Seq<FunctionSignature>)
    ensures
        check_iters(iters, i, span, c, fns).1.domain == c.domain,
        check_iters(iters, i, span, c, fns).0 is Ok && i <= iters.len() ==> check_iters(iters, i, span, c, fns).1.frames.len()
            == c.frames.len() + (iters.len() - i) && check_iters(iters, i, span, c, fns).1.frames.take(
            c.frames.len() as int,
        ) == c.frames,
    decreases iters, iters.len() - i,
{
    if i >= iters.len() {
        assert(c.frames.take(c.frames.len() as int) =~= c.frames);
    } else {
        let it = iters[i as int];
        it.iterator.lemma_value_decreases();
        lemma_type_check_keeps_scopes(it.iterator.spec_value(), c, fns);
        let (r, c1) = it.iterator.spec_value().spec_type_check(c, fns);
        if r is Ok {
            let c2 = spec_open_frame(c1);
            let k = it.iterator.spec_value().spec_get_type(c2, fns);
            if let Ok(b) = spec_variable_types(it.var, k, it.span) {
                lemma_declare_all_frames(b, 0, c2);
                let (rd, c3) = declare_all(b, 0, c2);
                if rd is Ok {
                    lemma_check_iters_frames(iters, i + 1, span, c3, fns);
                    let c4 = check_iters(iters, i + 1, span, c3, fns).1;
                    if check_iters(iters, i + 1, span, c3, fns).0 is Ok {
                        assert(c3.frames.take(c.frames.len() as int) =~= c.frames);
                        assert(c4.frames.take(c.frames.len() as int) =~= c4.frames.take(c3.frames.len() as int).take(
                            c.frames.len() as int,
                        ));
                    }
                }
            }
        }
    }
}

/// Declaring bindings keeps the domain and the number of frames, and
/// changes only the innermost frame.
pub proof fn lemma_declare_all_frames(b: Seq<BindingView>, i: nat, c: TypeCheckerView)
    ensures
        declare_all(b, i, c).1.domain == c.domain,
        declare_all(b, i, c).1.frames.len() == c.frames.len(),
        c.frames.len() > 0 ==> declare_all(b, i, c).1.frames.take(c.frames.len() - 1) == c.frames.take(c.frames.len() - 1),
    decreases b.len() - i,
{
    if i < b.len() {
        let (r, c1) = spec_declare(c, b[i as int].0, b[i as int].2, b[i as int].1);
        if r is Ok {
            assert(c1.frames.take(c.frames.len() - 1) =~= c.frames.take(c.frames.len() - 1));
            lemma_declare_all_frames(b, i + 1, c1);
        }
    }
}

/// Closing `n` frames keeps the domain; when it succeeds the `n` innermost
/// frames are gone.
pub proof fn lemma_close_frames(n: nat, c: TypeCheckerView)
    ensures
        close_frames(n, c).1.domain == c.domain,
        close_frames(n, c).0 is Ok ==> c.frames.len() >= n && close_frames(n, c).1.frames == c.frames.take(
            c.frames.len() - n,
        ),
    decreases n,
{
    if n == 0 {
        assert(c.frames.take(c.frames.len() as int) =~= c.frames);
    } else {
        let (r, c1) = spec_close_frame(c);
        if r is Ok {
            lemma_close_frames((n - 1) as nat, c1);
            if close_frames((n - 1) as nat, c1).0 is Ok {
                assert(c1.frames.take(c1.frames.len() - (n - 1)) =~= c.frames.take(c.frames.len() - n));
            }
        }
    }
}

/// Recording tokens never changes the frames or the domain.
pub proof fn lemma_populate_keeps_scopes(e: PreExp, c: TypeCheckerView, fns: Seq<FunctionSignature>)
    ensures
        e.spec_populate(c, fns).frames == c.frames,
        e.spec_populate(c, fns).domain == c.domain,
    decreases e, 0nat,
{
    match e {
        PreExp::FunctionCall(_, f) => lemma_populate_all_keeps(f.args@, 0, c, fns),
        PreExp::Abs(_, x) => lemma_populate_keeps_scopes(*x, c, fns),
        PreExp::CompoundVariable(cv) => {
            cv.lemma_value_decreases();
            lemma_populate_all_keeps(cv.spec_value().indexes@, 0, spec_record(c, (cv.spec_span(), KindModel::Number, None)), fns);
        },
        PreExp::BinaryOperation(_, l, r) => {
            lemma_populate_keeps_scopes(*l, c, fns);
            lemma_populate_keeps_scopes(*r, l.spec_populate(c, fns), fns);
        },
        PreExp::UnaryOperation(_, x) => lemma_populate_keeps_scopes(*x, c, fns),
        PreExp::ArrayAccess(a) => {
            a.lemma_value_decreases();
            let k = match lookup(c.frames, a.spec_value().name@) {
                Some(k) => k,
                None => KindModel::Undefined,
            };
            lemma_populate_all_keeps(a.spec_value().accesses@, 0, spec_record(c, (a.spec_span(), k, Some(a.spec_value().name@))), fns);
        },
        PreExp::BlockFunction(f) => {
            f.lemma_value_decreases();
            lemma_populate_all_keeps(f.spec_value().exps@, 0, c, fns);
        },
        PreExp::BlockScopedFunction(sf) => {
            sf.lemma_value_decreases();
            lemma_populate_iters_keeps(sf.spec_value().iters@, 0, c, fns);
            lemma_populate_keeps_scopes(*sf.spec_value().exp, populate_iters(sf.spec_value().iters@, 0, c, fns), fns);
        },
        _ => {},
    }
}

/// Recording the tokens of a list of expressions keeps the scopes.
pub proof fn lemma_populate_all_keeps(s: Seq<PreExp>, i: nat, c: TypeCheckerView, fns: Seq<FunctionSignature>)
    ensures
        populate_all(s, i, c, fns).frames == c.frames,
        populate_all(s, i, c, fns).domain == c.domain,
    decreases s, s.len() - i,
{
    if i < s.len() {
        lemma_populate_keeps_scopes(s[i as int], c, fns);
        lemma_populate_all_keeps(s, i + 1, s[i as int].spec_populate(c, fns), fns);
    }
}

/// Recording the tokens of the variables of a tuple keeps the scopes.
pub proof fn lemma_record_vars_keeps(vars: Seq<Spanned<String>>, i: nat, el: KindModel, c: TypeCheckerView)
    ensures
        record_vars(vars, i, el, c).frames == c.frames,
        record_vars(vars, i, el, c).domain == c.domain,
    decreases vars.len() - i,
{
    if i < vars.len() {
        lemma_record_vars_keeps(
            vars,
            i + 1,
            el,
            spec_record(c, (vars[i as int].spec_span(), var_kind(el, i as int), Some(vars[i as int].spec_value()@))),
        );
    }
}

/// Recording the tokens of iterations keeps the scopes.
pub proof fn lemma_populate_iters_keeps(iters: Seq<IterableSet>, i: nat, c: TypeCheckerView, fns: Seq<FunctionSignature>)
    ensures
        populate_iters(iters, i, c, fns).frames == c.frames,
        populate_iters(iters, i, c, fns).domain == c.domain,
    decreases iters, iters.len() - i,
{
    if i < iters.len() {
        let it = iters[i as int];
        it.iterator.lemma_value_decreases();
        lemma_populate_keeps_scopes(it.iterator.spec_value(), c, fns);
        let c1 = it.iterator.spec_value().spec_populate(c, fns);
        let el = element_kind(it.iterator.spec_value().spec_get_type(c1, fns));
        let c2 = match it.var {
            VariableKind::Single(name) => spec_record(c1, (it.span, el, Some(name.spec_value()@))),
            VariableKind::Tuple(vars) => record_vars(vars@, 0, el, c1),
        };
        if let VariableKind::Tuple(vars) = it.var {
            lemma_record_vars_keeps(vars@, 0, el, c1);
        }
        lemma_populate_iters_keeps(iters, i + 1, c2, fns);
    }
}

/// What a check of an operator, `abs`, a literal or a variable accepts:
/// `|x|` exactly when `x` checks and is numeric; `op x` exactly when `x`
/// checks and `op` applies to its kind; `l op r` exactly when both operands
/// check, left first, and `op` applies to their kinds; a literal always; a
/// variable exactly when it is in scope or of the model's domain. The kinds
/// are those after the operands were checked.
pub proof fn lemma_type_check_accepts(e: PreExp, c: TypeCheckerView, fns: Seq<FunctionSignature>)
    ensures
        match e {
            PreExp::Abs(_, x) => {
                let (rx, cx) = x.spec_type_check(c, fns);
                (e.spec_type_check(c, fns).0 is Ok) <==> (rx is Ok && spec_is_numeric(x.spec_get_type(cx, fns)))
            },
            PreExp::UnaryOperation(op, x) => {
                let (rx, cx) = x.spec_type_check(c, fns);
                (e.spec_type_check(c, fns).0 is Ok) <==> (rx is Ok && spec_can_apply_unary_op(
                    x.spec_get_type(cx, fns),
                    op.spec_value(),
                ))
            },
            PreExp::BinaryOperation(op, l, r) => {
                let (rl, cl) = l.spec_type_check(c, fns);
                let (rr, cr) = r.spec_type_check(cl, fns);
                (e.spec_type_check(c, fns).0 is Ok) <==> (rl is Ok && rr is Ok && spec_can_apply_binary_op(
                    l.spec_get_type(cr, fns),
                    op.spec_value(),
                    r.spec_get_type(cr, fns),
                ))
            },
            PreExp::Primitive(_) => e.spec_type_check(c, fns) == (Ok::<(), ErrorModel>(()), c),
            PreExp::Variable(n) => (e.spec_type_check(c, fns).0 is Ok) <==> (lookup(c.frames, n.spec_value()@) is Some
                || c.domain.contains(n.spec_value()@)),
            _ => true,
        },
{
}

/// A read at positions checks only for a variable in scope; a function
/// over a list checks only if its first expression checks and is numeric;
/// a function over iterations checks only if its iterations and its body
/// check and the body is numeric.
pub proof fn lemma_type_check_accepts_functions(e: PreExp, c: TypeCheckerView, fns: Seq<FunctionSignature>)
    ensures
        match e {
            PreExp::ArrayAccess(a) => (e.spec_type_check(c, fns).0 is Ok) ==> lookup(c.frames, a.spec_value().name@) is Some,
            PreExp::BlockFunction(f) => (e.spec_type_check(c, fns).0 is Ok && f.spec_value().exps@.len() > 0) ==> ({
                let x = f.spec_value().exps@[0];
                let (rx, cx) = x.spec_type_check(c, fns);
                rx is Ok && spec_is_numeric(x.spec_get_type(cx, fns))
            }),
            PreExp::BlockScopedFunction(sf) => (e.spec_type_check(c, fns).0 is Ok) ==> ({
                let f = sf.spec_value();
                let (r1, c1) = check_iters(f.iters@, 0, sf.spec_span(), c, fns);
                let (rb, cb) = f.exp.spec_type_check(c1, fns);
                r1 is Ok && rb is Ok && spec_is_numeric(f.exp.spec_get_type(cb, fns))
            }),
            _ => true,
        },
{
    match e {
        PreExp::ArrayAccess(a) => {
            a.lemma_value_decreases();
            if lookup(c.frames, a.spec_value().name@) is None {
                assert(addressable_kind(a.spec_value(), c, fns) is Err);
            }
        },
        PreExp::BlockFunction(f) => {
            f.lemma_value_decreases();
            let ex = f.spec_value().exps@;
            assert(e.spec_type_check(c, fns) == check_numeric_all(ex, 0, f.spec_span(), c, fns));
            if ex.len() > 0 {
                let (rx, cx) = ex[0].spec_type_check(c, fns);
                if rx is Ok && spec_is_numeric(ex[0].spec_get_type(cx, fns)) {
                } else {
                    assert(check_numeric_all(ex, 0, f.spec_span(), c, fns).0 is Err);
                }
            }
        },
        PreExp::BlockScopedFunction(sf) => {
            sf.lemma_value_decreases();
        },
        _ => {},
    }
}

} // verus!
