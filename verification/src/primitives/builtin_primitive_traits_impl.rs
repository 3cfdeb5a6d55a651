//! The operator rules of the exact primitive types (`i64`, `u64`, `bool`,
//! `String`) and the application of operators to exact values.
//!
//! Applying an operator decides, for every pair of operands, one of:
//! an exact result (checked integer arithmetic, logic, string
//! concatenation), an error (type mismatch, unsupported operator, overflow,
//! division by zero, use of `Undefined`), or that the result is a
//! floating-point number: either `a op b` of two exact integers (division,
//! and arithmetic in which a boolean takes part as 0 or 1), or arithmetic
//! in which a `Number` operand takes part, which the caller computes.
use vstd::prelude::*;
use crate::math::operators::{BinOp, UnOp};
use crate::primitives::primitive::{
    Primitive, PrimitiveKind, KindModel, spec_is_numeric, spec_can_apply_binary_op, spec_can_apply_unary_op,
};
use crate::primitives::primitive_traits::{ApplyOp, OperatorError, OperatorErrorModel, Spreadable};
use crate::parser::model_transformer::transform_error::TransformError;

verus! {

impl ApplyOp for String {
    open spec fn spec_can_apply_binary_op(op: BinOp, to: KindModel) -> bool {
        spec_can_apply_binary_op(KindModel::String, op, to)
    }

    open spec fn spec_can_apply_unary_op(op: UnOp) -> bool {
        spec_can_apply_unary_op(KindModel::String, op)
    }

    fn can_apply_binary_op(op: BinOp, to: PrimitiveKind) -> (r: bool) {
        match op {
            BinOp::Add => match to {
                PrimitiveKind::String => true,
                _ => false,
            },
            BinOp::Sub | BinOp::Mul | BinOp::Div | BinOp::And | BinOp::Or | BinOp::Xor
            | BinOp::Implies | BinOp::Iff => false,
        }
    }

    fn can_apply_unary_op(op: UnOp) -> (r: bool) {
        match op {
            UnOp::Neg | UnOp::Not => false,
        }
    }
}

impl ApplyOp for bool {
    open spec fn spec_can_apply_binary_op(op: BinOp, to: KindModel) -> bool {
        spec_can_apply_binary_op(KindModel::Boolean, op, to)
    }

    open spec fn spec_can_apply_unary_op(op: UnOp) -> bool {
        spec_can_apply_unary_op(KindModel::Boolean, op)
    }

    fn can_apply_binary_op(op: BinOp, to: PrimitiveKind) -> (r: bool) {
        match op {
            BinOp::And | BinOp::Or | BinOp::Xor | BinOp::Implies | BinOp::Iff => match to {
                PrimitiveKind::Boolean => true,
                _ => false,
            },
            BinOp::Add | BinOp::Sub | BinOp::Mul | BinOp::Div => to.is_numeric(),
        }
    }

    fn can_apply_unary_op(op: UnOp) -> (r: bool) {
        match op {
            UnOp::Not => true,
            UnOp::Neg => true,
        }
    }
}

impl ApplyOp for i64 {
    open spec fn spec_can_apply_binary_op(op: BinOp, to: KindModel) -> bool {
        spec_can_apply_binary_op(KindModel::Integer, op, to)
    }

    open spec fn spec_can_apply_unary_op(op: UnOp) -> bool {
        spec_can_apply_unary_op(KindModel::Integer, op)
    }

    fn can_apply_binary_op(op: BinOp, to: PrimitiveKind) -> (r: bool) {
        match op {
            BinOp::Add | BinOp::Sub | BinOp::Mul | BinOp::Div => to.is_numeric(),
            BinOp::And | BinOp::Or | BinOp::Xor | BinOp::Implies | BinOp::Iff => false,
        }
    }

    fn can_apply_unary_op(op: UnOp) -> (r: bool) {
        match op {
            UnOp::Neg => true,
            UnOp::Not => false,
        }
    }
}

impl ApplyOp for u64 {
    open spec fn spec_can_apply_binary_op(op: BinOp, to: KindModel) -> bool {
        spec_can_apply_binary_op(KindModel::PositiveInteger, op, to)
    }

    open spec fn spec_can_apply_unary_op(op: UnOp) -> bool {
        spec_can_apply_unary_op(KindModel::PositiveInteger, op)
    }

    fn can_apply_binary_op(op: BinOp, to: PrimitiveKind) -> (r: bool) {
        match op {
            BinOp::Add | BinOp::Sub | BinOp::Mul | BinOp::Div => to.is_numeric(),
            BinOp::And | BinOp::Or | BinOp::Xor | BinOp::Implies | BinOp::Iff => false,
        }
    }

    fn can_apply_unary_op(op: UnOp) -> (r: bool) {
        match op {
            UnOp::Neg => true,
            UnOp::Not => false,
        }
    }
}


impl Spreadable for i64 {
    open spec fn spec_spread(self) -> Result<Seq<Primitive>, KindModel> {
        Err(KindModel::Integer)
    }

    fn to_primitive_set(self) -> (r: Result<Vec<Primitive>, TransformError>) {
        Err(TransformError::Unspreadable(PrimitiveKind::Integer))
    }
}

impl Spreadable for u64 {
    open spec fn spec_spread(self) -> Result<Seq<Primitive>, KindModel> {
        Err(KindModel::PositiveInteger)
    }

    fn to_primitive_set(self) -> (r: Result<Vec<Primitive>, TransformError>) {
        Err(TransformError::Unspreadable(PrimitiveKind::PositiveInteger))
    }
}

impl Spreadable for String {
    open spec fn spec_spread(self) -> Result<Seq<Primitive>, KindModel> {
        Err(KindModel::String)
    }

    fn to_primitive_set(self) -> (r: Result<Vec<Primitive>, TransformError>) {
        Err(TransformError::Unspreadable(PrimitiveKind::String))
    }
}

impl Spreadable for bool {
    open spec fn spec_spread(self) -> Result<Seq<Primitive>, KindModel> {
        Err(KindModel::Boolean)
    }

    fn to_primitive_set(self) -> (r: Result<Vec<Primitive>, TransformError>) {
        Err(TransformError::Unspreadable(PrimitiveKind::Boolean))
    }
}

/// A primitive value as far as operators on exact values need it: the
/// exact scalars themselves, and any other value by its kind alone.
#[derive(Debug)]
pub enum Scalar {
    Integer(i64),
    PositiveInteger(u64),
    Boolean(bool),
    String(String),
    /// A `Number`, by the bit pattern of its `f64` value.
    Number(u64),
    /// A value of another kind (a graph, a tuple, ...), known by its kind.
    Opaque(PrimitiveKind),
}

/// The scalar that stands for a value: an exact value itself, any other
/// value by its kind.
pub open spec fn spec_scalar_of(p: Primitive) -> ScalarModel {
    match p {
        Primitive::Integer(i) => ScalarModel::Integer(i),
        Primitive::PositiveInteger(u) => ScalarModel::PositiveInteger(u),
        Primitive::Boolean(b) => ScalarModel::Boolean(b),
        Primitive::String(s) => ScalarModel::String(s@),
        Primitive::Number(b) => ScalarModel::Number(b),
        _ => ScalarModel::Opaque(p.spec_kind()),
    }
}

/// The scalar that stands for a value.
pub fn scalar_of(p: &Primitive) -> (r: Scalar)
    ensures
        r.model() == spec_scalar_of(*p),
{
    match p {
        Primitive::Integer(i) => Scalar::Integer(*i),
        Primitive::PositiveInteger(u) => Scalar::PositiveInteger(*u),
        Primitive::Boolean(b) => Scalar::Boolean(*b),
        Primitive::String(s) => Scalar::String(s.clone()),
        Primitive::Number(b) => Scalar::Number(*b),
        _ => Scalar::Opaque(p.get_type()),
    }
}

/// The scalar of any value is well formed, so the type rules of the
/// operators hold of every value.
pub proof fn lemma_scalar_of_ok(p: Primitive)
    ensures
        scalar_ok(spec_scalar_of(p)),
        scalar_kind(spec_scalar_of(p)) == p.spec_kind(),
{
}

/// A scalar as a mathematical value.
pub enum ScalarModel {
    Integer(i64),
    PositiveInteger(u64),
    Boolean(bool),
    String(Seq<char>),
    Number(u64),
    Opaque(KindModel),
}

impl Scalar {
    /// The scalar as a mathematical value.
    pub open spec fn model(self) -> ScalarModel {
        match self {
            Scalar::Integer(n) => ScalarModel::Integer(n),
            Scalar::PositiveInteger(n) => ScalarModel::PositiveInteger(n),
            Scalar::Boolean(b) => ScalarModel::Boolean(b),
            Scalar::String(s) => ScalarModel::String(s@),
            Scalar::Number(b) => ScalarModel::Number(b),
            Scalar::Opaque(k) => ScalarModel::Opaque(k.model()),
        }
    }

    /// The kind of the value.
    pub fn get_type(&self) -> (r: PrimitiveKind)
        ensures
            r.model() == scalar_kind(self.model()),
    {
        match self {
            Scalar::Integer(_) => PrimitiveKind::Integer,
            Scalar::PositiveInteger(_) => PrimitiveKind::PositiveInteger,
            Scalar::Boolean(_) => PrimitiveKind::Boolean,
            Scalar::String(_) => PrimitiveKind::String,
            Scalar::Number(_) => PrimitiveKind::Number,
            Scalar::Opaque(k) => k.duplicate(),
        }
    }
}

/// The kind of a scalar.
pub open spec fn scalar_kind(s: ScalarModel) -> KindModel {
    match s {
        ScalarModel::Integer(_) => KindModel::Integer,
        ScalarModel::PositiveInteger(_) => KindModel::PositiveInteger,
        ScalarModel::Boolean(_) => KindModel::Boolean,
        ScalarModel::String(_) => KindModel::String,
        ScalarModel::Number(_) => KindModel::Number,
        ScalarModel::Opaque(k) => k,
    }
}

/// A scalar is well formed when an opaque value is of a kind that values
/// have and that is not one of the exact kinds.
pub open spec fn scalar_ok(s: ScalarModel) -> bool {
    match s {
        ScalarModel::Opaque(k) => !(k is Integer || k is PositiveInteger || k is Boolean
            || k is String || k is Number || k is Any),
        _ => true,
    }
}

/// What applying an operator gives when it does not fail.
#[derive(Debug)]
pub enum OpOutcome {
    /// An exact value.
    Value(Scalar),
    /// The floating-point result of `lhs op rhs`, both exact integers.
    Real(BinOp, i128, i128),
    /// The floating-point negation of an exact integer.
    NegReal(i128),
    /// Floating-point arithmetic in which a `Number` operand takes part.
    FromNumber,
}

/// An outcome as a mathematical value.
pub enum OutcomeModel {
    Value(ScalarModel),
    Real(BinOp, int, int),
    NegReal(int),
    FromNumber,
}

impl OpOutcome {
    /// The outcome as a mathematical value.
    pub open spec fn model(self) -> OutcomeModel {
        match self {
            OpOutcome::Value(s) => OutcomeModel::Value(s.model()),
            OpOutcome::Real(op, a, b) => OutcomeModel::Real(op, a as int, b as int),
            OpOutcome::NegReal(a) => OutcomeModel::NegReal(a as int),
            OpOutcome::FromNumber => OutcomeModel::FromNumber,
        }
    }
}

/// The model of an application result.
pub open spec fn result_model(r: Result<OpOutcome, OperatorError>) -> Result<OutcomeModel, OperatorErrorModel> {
    match r {
        Ok(o) => Ok(o.model()),
        Err(e) => Err(e.model()),
    }
}

/// `x as i64` for a `u64`: the same number when it fits, otherwise wrapped
/// around by 2^64.
pub open spec fn wrap_i64(x: u64) -> int {
    if x <= i64::MAX {
        x as int
    } else {
        x - 18446744073709551616
    }
}

/// `b as i64`: 1 for true, 0 for false.
pub open spec fn bool_int(b: bool) -> int {
    if b { 1 } else { 0 }
}

/// An exact `Integer` result, or `Overflow` when it does not fit.
pub open spec fn checked_i64_spec(v: int, op: BinOp) -> Result<OutcomeModel, OperatorErrorModel> {
    if i64::MIN <= v <= i64::MAX {
        Ok(OutcomeModel::Value(ScalarModel::Integer(v as i64)))
    } else {
        Err(OperatorErrorModel::Overflow { operator: op, found: KindModel::Integer })
    }
}

/// An exact `PositiveInteger` result, or `Overflow` when it does not fit.
pub open spec fn checked_u64_spec(v: int, op: BinOp) -> Result<OutcomeModel, OperatorErrorModel> {
    if 0 <= v <= u64::MAX {
        Ok(OutcomeModel::Value(ScalarModel::PositiveInteger(v as u64)))
    } else {
        Err(OperatorErrorModel::Overflow { operator: op, found: KindModel::PositiveInteger })
    }
}

/// `a op b` on exact integers.
pub open spec fn arith(op: BinOp, a: int, b: int) -> int {
    match op {
        BinOp::Add => a + b,
        BinOp::Sub => a - b,
        _ => a * b,
    }
}

/// A division whose result is a floating-point number; refused when the
/// divisor is zero.
pub open spec fn real_div(a: int, b: int) -> Result<OutcomeModel, OperatorErrorModel> {
    if b == 0 {
        Err(OperatorErrorModel::DivisionByZero)
    } else {
        Ok(OutcomeModel::Real(BinOp::Div, a, b))
    }
}

/// Whether a bit pattern is that of `0.0` or `-0.0`, the two `f64` values
/// equal to zero.
pub open spec fn is_zero_bits(bits: u64) -> bool {
    bits == 0 || bits == 0x8000_0000_0000_0000
}

/// Floating-point arithmetic with a `Number` on the right: a division by a
/// number equal to zero is refused rather than giving an infinity or NaN.
pub open spec fn number_div(op: BinOp, bits: u64) -> Result<OutcomeModel, OperatorErrorModel> {
    if op == BinOp::Div && is_zero_bits(bits) {
        Err(OperatorErrorModel::DivisionByZero)
    } else {
        Ok(OutcomeModel::FromNumber)
    }
}

/// The exact integer value of a numeric scalar other than a `Number`.
pub open spec fn exact_number(s: ScalarModel) -> Option<int> {
    match s {
        ScalarModel::Integer(n) => Some(n as int),
        ScalarModel::PositiveInteger(n) => Some(n as int),
        ScalarModel::Boolean(b) => Some(bool_int(b)),
        _ => None,
    }
}

/// The rules of a floating-point left operand: its exact value `lhs` when
/// it is a boolean read as 0 or 1, or `None` when it is a `Number`.
pub open spec fn spec_apply_real(lhs: Option<int>, op: BinOp, rhs: ScalarModel) -> Result<OutcomeModel, OperatorErrorModel> {
    if op.spec_is_logic() && (exact_number(rhs) is Some || rhs is Number) {
        Err(OperatorErrorModel::UnsupportedBinOperation { operator: op, found: KindModel::Number })
    } else {
        match exact_number(rhs) {
            Some(b) => if op == BinOp::Div && b == 0 {
                Err(OperatorErrorModel::DivisionByZero)
            } else {
                match lhs {
                    Some(a) => Ok(OutcomeModel::Real(op, a, b)),
                    None => Ok(OutcomeModel::FromNumber),
                }
            },
            None => match rhs {
                ScalarModel::Number(bits) => number_div(op, bits),
                _ => Err(OperatorErrorModel::IncompatibleType {
                    operator: op,
                    expected: KindModel::Number,
                    found: scalar_kind(rhs),
                }),
            },
        }
    }
}

/// The rules of an `Integer` left operand.
pub open spec fn spec_apply_integer(a: i64, op: BinOp, rhs: ScalarModel) -> Result<OutcomeModel, OperatorErrorModel> {
    let unsupported = Err(OperatorErrorModel::UnsupportedBinOperation { operator: op, found: KindModel::Integer });
    match rhs {
        ScalarModel::Integer(n) => if op.spec_is_logic() {
            unsupported
        } else if op == BinOp::Div {
            real_div(a as int, n as int)
        } else {
            checked_i64_spec(arith(op, a as int, n as int), op)
        },
        ScalarModel::PositiveInteger(n) => if op.spec_is_logic() {
            unsupported
        } else if op == BinOp::Div {
            real_div(a as int, n as int)
        } else {
            checked_i64_spec(arith(op, a as int, wrap_i64(n)), op)
        },
        ScalarModel::Boolean(b) => if op.spec_is_logic() {
            unsupported
        } else if op == BinOp::Div {
            real_div(a as int, bool_int(b))
        } else {
            checked_i64_spec(arith(op, a as int, bool_int(b)), op)
        },
        ScalarModel::Number(bits) => if op.spec_is_logic() {
            unsupported
        } else {
            number_div(op, bits)
        },
        _ => Err(OperatorErrorModel::IncompatibleType {
            operator: op,
            expected: KindModel::Integer,
            found: scalar_kind(rhs),
        }),
    }
}

/// The rules of a `PositiveInteger` left operand. Subtraction, and any
/// arithmetic with an `Integer`, gives an `Integer`; the unsigned operands
/// are then read as `i64`, as `as i64` does.
pub open spec fn spec_apply_positive(a: u64, op: BinOp, rhs: ScalarModel) -> Result<OutcomeModel, OperatorErrorModel> {
    let unsupported = Err(OperatorErrorModel::UnsupportedBinOperation { operator: op, found: KindModel::PositiveInteger });
    match rhs {
        ScalarModel::PositiveInteger(n) => if op.spec_is_logic() {
            unsupported
        } else if op == BinOp::Div {
            real_div(a as int, n as int)
        } else if op == BinOp::Sub {
            checked_i64_spec(wrap_i64(a) - wrap_i64(n), op)
        } else {
            checked_u64_spec(arith(op, a as int, n as int), op)
        },
        ScalarModel::Integer(n) => if op.spec_is_logic() {
            unsupported
        } else if op == BinOp::Div {
            real_div(a as int, n as int)
        } else {
            checked_i64_spec(arith(op, wrap_i64(a), n as int), op)
        },
        ScalarModel::Boolean(b) => if op.spec_is_logic() {
            unsupported
        } else if op == BinOp::Div {
            real_div(a as int, bool_int(b))
        } else if op == BinOp::Sub {
            checked_i64_spec(wrap_i64(a) - bool_int(b), op)
        } else {
            checked_u64_spec(arith(op, a as int, bool_int(b)), op)
        },
        ScalarModel::Number(bits) => if op.spec_is_logic() {
            unsupported
        } else {
            number_div(op, bits)
        },
        _ => Err(OperatorErrorModel::IncompatibleType {
            operator: op,
            expected: KindModel::PositiveInteger,
            found: scalar_kind(rhs),
        }),
    }
}

/// The rules of a `Boolean` left operand: logic with booleans, arithmetic
/// as the number 0 or 1.
pub open spec fn spec_apply_boolean(a: bool, op: BinOp, rhs: ScalarModel) -> Result<OutcomeModel, OperatorErrorModel> {
    if op.spec_is_logic() {
        match rhs {
            ScalarModel::Boolean(b) => Ok(OutcomeModel::Value(ScalarModel::Boolean(
                match op {
                    BinOp::And => a && b,
                    BinOp::Or => a || b,
                    BinOp::Xor => a != b,
                    BinOp::Implies => !a || b,
                    _ => a == b,
                },
            ))),
            _ => Err(OperatorErrorModel::IncompatibleType {
                operator: op,
                expected: KindModel::Boolean,
                found: scalar_kind(rhs),
            }),
        }
    } else {
        spec_apply_real(Some(bool_int(a)), op, rhs)
    }
}

/// The rules of a `String` left operand: only `+` with a string.
pub open spec fn spec_apply_string(a: Seq<char>, op: BinOp, rhs: ScalarModel) -> Result<OutcomeModel, OperatorErrorModel> {
    match rhs {
        ScalarModel::String(b) => if op == BinOp::Add {
            Ok(OutcomeModel::Value(ScalarModel::String(a + b)))
        } else {
            Err(OperatorErrorModel::UnsupportedBinOperation { operator: op, found: KindModel::String })
        },
        _ => Err(OperatorErrorModel::IncompatibleType {
            operator: op,
            expected: KindModel::String,
            found: scalar_kind(rhs),
        }),
    }
}

/// Applying a binary operator to two values.
pub open spec fn spec_apply_binary_op(lhs: ScalarModel, op: BinOp, rhs: ScalarModel) -> Result<OutcomeModel, OperatorErrorModel> {
    match lhs {
        ScalarModel::Integer(a) => spec_apply_integer(a, op, rhs),
        ScalarModel::PositiveInteger(a) => spec_apply_positive(a, op, rhs),
        ScalarModel::Boolean(a) => spec_apply_boolean(a, op, rhs),
        ScalarModel::String(a) => spec_apply_string(a, op, rhs),
        ScalarModel::Number(_) => spec_apply_real(None, op, rhs),
        ScalarModel::Opaque(k) => match k {
            KindModel::Undefined => Err(OperatorErrorModel::UndefinedUse),
            KindModel::Iterable(_) => Err(OperatorErrorModel::UnsupportedBinOperation {
                operator: op,
                found: scalar_kind(rhs),
            }),
            _ => Err(OperatorErrorModel::UnsupportedBinOperation { operator: op, found: k }),
        },
    }
}

/// Applying a unary operator to a value.
pub open spec fn spec_apply_unary_op(v: ScalarModel, op: UnOp) -> Result<OutcomeModel, OperatorErrorModel> {
    match v {
        ScalarModel::Integer(a) => if op == UnOp::Neg {
            Ok(OutcomeModel::Value(ScalarModel::Integer((-a) as i64)))
        } else {
            Err(OperatorErrorModel::UnsupportedUnOperation { operator: op, found: KindModel::Integer })
        },
        ScalarModel::PositiveInteger(a) => if op == UnOp::Neg {
            Ok(OutcomeModel::Value(ScalarModel::Integer((-wrap_i64(a)) as i64)))
        } else {
            Err(OperatorErrorModel::UnsupportedUnOperation { operator: op, found: KindModel::PositiveInteger })
        },
        ScalarModel::Boolean(b) => if op == UnOp::Not {
            Ok(OutcomeModel::Value(ScalarModel::Boolean(!b)))
        } else {
            Ok(OutcomeModel::NegReal(bool_int(b)))
        },
        ScalarModel::String(_) => Err(OperatorErrorModel::UnsupportedUnOperation { operator: op, found: KindModel::String }),
        ScalarModel::Number(_) => if op == UnOp::Neg {
            Ok(OutcomeModel::FromNumber)
        } else {
            Err(OperatorErrorModel::UnsupportedUnOperation { operator: op, found: KindModel::Number })
        },
        ScalarModel::Opaque(k) => match k {
            KindModel::Undefined => Err(OperatorErrorModel::UndefinedUse),
            KindModel::Iterable(inner) => Err(OperatorErrorModel::UnsupportedUnOperation { operator: op, found: *inner }),
            _ => Err(OperatorErrorModel::UnsupportedUnOperation { operator: op, found: k }),
        },
    }
}

/// Whether negating the value would overflow (and so panic): the least
/// `i64`, or a `u64` that reads as it.
pub open spec fn neg_overflows(v: ScalarModel) -> bool {
    match v {
        ScalarModel::Integer(a) => a == i64::MIN,
        ScalarModel::PositiveInteger(a) => wrap_i64(a) == i64::MIN,
        _ => false,
    }
}

/// `x as i64` for a `u64`.
pub fn wrap_u64(x: u64) -> (r: i64)
    ensures
        r == wrap_i64(x),
{
    if x <= 9223372036854775807u64 {
        x as i64
    } else {
        let over = x - 9223372036854775808u64;
        (over as i64) - 9223372036854775807i64 - 1
    }
}

fn checked_i64(res: Option<i64>, op: BinOp, ghost_v: Ghost<int>) -> (r: Result<OpOutcome, OperatorError>)
    requires
        res == (if i64::MIN <= ghost_v@ <= i64::MAX { Some(ghost_v@ as i64) } else { None::<i64> }),
    ensures
        result_model(r) == checked_i64_spec(ghost_v@, op),
{
    match res {
        Some(v) => Ok(OpOutcome::Value(Scalar::Integer(v))),
        None => Err(OperatorError::overflow(op, PrimitiveKind::Integer)),
    }
}

fn checked_u64(res: Option<u64>, op: BinOp, ghost_v: Ghost<int>) -> (r: Result<OpOutcome, OperatorError>)
    requires
        res == (if 0 <= ghost_v@ <= u64::MAX { Some(ghost_v@ as u64) } else { None::<u64> }),
    ensures
        result_model(r) == checked_u64_spec(ghost_v@, op),
{
    match res {
        Some(v) => Ok(OpOutcome::Value(Scalar::PositiveInteger(v))),
        None => Err(OperatorError::overflow(op, PrimitiveKind::PositiveInteger)),
    }
}

/// The exact integer value of a numeric scalar other than a `Number`.
fn exact_number_of(rhs: &Scalar) -> (r: Option<i128>)
    ensures
        match (r, exact_number(rhs.model())) {
            (Some(x), Some(y)) => x as int == y,
            (None, None) => true,
            _ => false,
        },
{
    match rhs {
        Scalar::Integer(n) => Some(*n as i128),
        Scalar::PositiveInteger(n) => Some(*n as i128),
        Scalar::Boolean(b) => Some(if *b { 1 } else { 0 }),
        _ => None,
    }
}

fn is_number_kind(s: &Scalar) -> (r: bool)
    ensures
        r == (s.model() is Number),
{
    match s {
        Scalar::Number(_) => true,
        _ => false,
    }
}

/// Floating-point arithmetic with a number of bit pattern `bits` on the
/// right.
fn apply_number_div(op: BinOp, bits: u64) -> (r: Result<OpOutcome, OperatorError>)
    ensures
        result_model(r) == number_div(op, bits),
{
    if matches!(op, BinOp::Div) && (bits == 0 || bits == 0x8000_0000_0000_0000u64) {
        Err(OperatorError::division_by_zero())
    } else {
        Ok(OpOutcome::FromNumber)
    }
}

fn apply_real(lhs: Option<i128>, op: BinOp, rhs: &Scalar) -> (r: Result<OpOutcome, OperatorError>)
    ensures
        result_model(r) == spec_apply_real(
            match lhs {
                Some(a) => Some(a as int),
                None => None,
            },
            op,
            rhs.model(),
        ),
{
    let exact = exact_number_of(rhs);
    let is_number = is_number_kind(rhs);
    if op.is_logic() && (exact.is_some() || is_number) {
        return Err(OperatorError::unsupported_bin_operation(op, PrimitiveKind::Number));
    }
    match exact {
        Some(b) => {
            if matches!(op, BinOp::Div) && b == 0 {
                Err(OperatorError::division_by_zero())
            } else {
                match lhs {
                    Some(a) => Ok(OpOutcome::Real(op, a, b)),
                    None => Ok(OpOutcome::FromNumber),
                }
            }
        },
        None => match rhs {
            Scalar::Number(bits) => apply_number_div(op, *bits),
            _ => Err(OperatorError::incompatible_type(op, PrimitiveKind::Number, rhs.get_type())),
        },
    }
}

fn arith_i64(op: BinOp, a: i64, b: i64) -> (r: Result<OpOutcome, OperatorError>)
    requires
        !op.spec_is_logic(),
        op != BinOp::Div,
    ensures
        result_model(r) == checked_i64_spec(arith(op, a as int, b as int), op),
{
    match op {
        BinOp::Add => checked_i64(a.checked_add(b), op, Ghost(a + b)),
        BinOp::Sub => checked_i64(a.checked_sub(b), op, Ghost(a - b)),
        _ => checked_i64(a.checked_mul(b), op, Ghost(a * b)),
    }
}

fn arith_u64(op: BinOp, a: u64, b: u64) -> (r: Result<OpOutcome, OperatorError>)
    requires
        !op.spec_is_logic(),
        op != BinOp::Div,
        op != BinOp::Sub,
    ensures
        result_model(r) == checked_u64_spec(arith(op, a as int, b as int), op),
{
    match op {
        BinOp::Add => checked_u64(a.checked_add(b), op, Ghost(a + b)),
        _ => checked_u64(a.checked_mul(b), op, Ghost(a * b)),
    }
}

fn apply_integer(a: i64, op: BinOp, rhs: &Scalar) -> (r: Result<OpOutcome, OperatorError>)
    ensures
        result_model(r) == spec_apply_integer(a, op, rhs.model()),
{
    let logic = op.is_logic();
    let div = matches!(op, BinOp::Div);
    match rhs {
        Scalar::Integer(n) => {
            if logic {
                Err(OperatorError::unsupported_bin_operation(op, PrimitiveKind::Integer))
            } else if div {
                if *n == 0 {
                    Err(OperatorError::division_by_zero())
                } else {
                    Ok(OpOutcome::Real(BinOp::Div, a as i128, *n as i128))
                }
            } else {
                arith_i64(op, a, *n)
            }
        },
        Scalar::PositiveInteger(n) => {
            if logic {
                Err(OperatorError::unsupported_bin_operation(op, PrimitiveKind::Integer))
            } else if div {
                if *n == 0 {
                    Err(OperatorError::division_by_zero())
                } else {
                    Ok(OpOutcome::Real(BinOp::Div, a as i128, *n as i128))
                }
            } else {
                arith_i64(op, a, wrap_u64(*n))
            }
        },
        Scalar::Boolean(b) => {
            let n: i64 = if *b { 1 } else { 0 };
            if logic {
                Err(OperatorError::unsupported_bin_operation(op, PrimitiveKind::Integer))
            } else if div {
                if n == 0 {
                    Err(OperatorError::division_by_zero())
                } else {
                    Ok(OpOutcome::Real(BinOp::Div, a as i128, n as i128))
                }
            } else {
                arith_i64(op, a, n)
            }
        },
        Scalar::Number(bits) => {
            if logic {
                Err(OperatorError::unsupported_bin_operation(op, PrimitiveKind::Integer))
            } else {
                apply_number_div(op, *bits)
            }
        },
        _ => Err(OperatorError::incompatible_type(op, PrimitiveKind::Integer, rhs.get_type())),
    }
}

fn apply_positive(a: u64, op: BinOp, rhs: &Scalar) -> (r: Result<OpOutcome, OperatorError>)
    ensures
        result_model(r) == spec_apply_positive(a, op, rhs.model()),
{
    let logic = op.is_logic();
    let div = matches!(op, BinOp::Div);
    let sub = matches!(op, BinOp::Sub);
    match rhs {
        Scalar::PositiveInteger(n) => {
            if logic {
                Err(OperatorError::unsupported_bin_operation(op, PrimitiveKind::PositiveInteger))
            } else if div {
                if *n == 0 {
                    Err(OperatorError::division_by_zero())
                } else {
                    Ok(OpOutcome::Real(BinOp::Div, a as i128, *n as i128))
                }
            } else if sub {
                arith_i64(op, wrap_u64(a), wrap_u64(*n))
            } else {
                arith_u64(op, a, *n)
            }
        },
        Scalar::Integer(n) => {
            if logic {
                Err(OperatorError::unsupported_bin_operation(op, PrimitiveKind::PositiveInteger))
            } else if div {
                if *n == 0 {
                    Err(OperatorError::division_by_zero())
                } else {
                    Ok(OpOutcome::Real(BinOp::Div, a as i128, *n as i128))
                }
            } else {
                arith_i64(op, wrap_u64(a), *n)
            }
        },
        Scalar::Boolean(b) => {
            let n: u64 = if *b { 1 } else { 0 };
            if logic {
                Err(OperatorError::unsupported_bin_operation(op, PrimitiveKind::PositiveInteger))
            } else if div {
                if n == 0 {
                    Err(OperatorError::division_by_zero())
                } else {
                    Ok(OpOutcome::Real(BinOp::Div, a as i128, n as i128))
                }
            } else if sub {
                arith_i64(op, wrap_u64(a), n as i64)
            } else {
                arith_u64(op, a, n)
            }
        },
        Scalar::Number(bits) => {
            if logic {
                Err(OperatorError::unsupported_bin_operation(op, PrimitiveKind::PositiveInteger))
            } else {
                apply_number_div(op, *bits)
            }
        },
        _ => Err(OperatorError::incompatible_type(op, PrimitiveKind::PositiveInteger, rhs.get_type())),
    }
}

fn apply_boolean(a: bool, op: BinOp, rhs: &Scalar) -> (r: Result<OpOutcome, OperatorError>)
    ensures
        result_model(r) == spec_apply_boolean(a, op, rhs.model()),
{
    match (op, rhs) {
        (BinOp::And, Scalar::Boolean(b)) => Ok(OpOutcome::Value(Scalar::Boolean(a && *b))),
        (BinOp::Or, Scalar::Boolean(b)) => Ok(OpOutcome::Value(Scalar::Boolean(a || *b))),
        (BinOp::Xor, Scalar::Boolean(b)) => Ok(OpOutcome::Value(Scalar::Boolean(a != *b))),
        (BinOp::Implies, Scalar::Boolean(b)) => Ok(OpOutcome::Value(Scalar::Boolean(!a || *b))),
        (BinOp::Iff, Scalar::Boolean(b)) => Ok(OpOutcome::Value(Scalar::Boolean(a == *b))),
        (BinOp::Add, _) | (BinOp::Sub, _) | (BinOp::Mul, _) | (BinOp::Div, _) => {
            apply_real(Some(if a { 1 } else { 0 }), op, rhs)
        },
        _ => Err(OperatorError::incompatible_type(op, PrimitiveKind::Boolean, rhs.get_type())),
    }
}

fn apply_string(a: &String, op: BinOp, rhs: &Scalar) -> (r: Result<OpOutcome, OperatorError>)
    ensures
        result_model(r) == spec_apply_string(a@, op, rhs.model()),
{
    match rhs {
        Scalar::String(s) => match op {
            BinOp::Add => {
                let mut joined = a.clone();
                joined.append(s.as_str());
                Ok(OpOutcome::Value(Scalar::String(joined)))
            },
            _ => Err(OperatorError::unsupported_bin_operation(op, PrimitiveKind::String)),
        },
        _ => Err(OperatorError::incompatible_type(op, PrimitiveKind::String, rhs.get_type())),
    }
}

/// Applies a binary operator to two values (see the module text for what
/// the outcomes mean).
pub fn apply_binary_op(lhs: &Scalar, op: BinOp, rhs: &Scalar) -> (r: Result<OpOutcome, OperatorError>)
    ensures
        result_model(r) == spec_apply_binary_op(lhs.model(), op, rhs.model()),
{
    match lhs {
        Scalar::Integer(a) => apply_integer(*a, op, rhs),
        Scalar::PositiveInteger(a) => apply_positive(*a, op, rhs),
        Scalar::Boolean(a) => apply_boolean(*a, op, rhs),
        Scalar::String(a) => apply_string(a, op, rhs),
        Scalar::Number(_) => apply_real(None, op, rhs),
        Scalar::Opaque(k) => match k {
            PrimitiveKind::Undefined => Err(OperatorError::UndefinedUse),
            PrimitiveKind::Iterable(_) => Err(OperatorError::unsupported_bin_operation(op, rhs.get_type())),
            _ => Err(OperatorError::unsupported_bin_operation(op, k.duplicate())),
        },
    }
}

/// Applies a unary operator to a value. Negating the least `i64` (or a
/// `u64` that reads as it) overflows and is left out.
pub fn apply_unary_op(v: &Scalar, op: UnOp) -> (r: Result<OpOutcome, OperatorError>)
    requires
        !(op == UnOp::Neg && neg_overflows(v.model())),
    ensures
        result_model(r) == spec_apply_unary_op(v.model(), op),
{
    match v {
        Scalar::Integer(a) => match op {
            UnOp::Neg => Ok(OpOutcome::Value(Scalar::Integer(-*a))),
            UnOp::Not => Err(OperatorError::unsupported_un_operation(op, PrimitiveKind::Integer)),
        },
        Scalar::PositiveInteger(a) => match op {
            UnOp::Neg => Ok(OpOutcome::Value(Scalar::Integer(-wrap_u64(*a)))),
            UnOp::Not => Err(OperatorError::unsupported_un_operation(op, PrimitiveKind::PositiveInteger)),
        },
        Scalar::Boolean(b) => match op {
            UnOp::Not => Ok(OpOutcome::Value(Scalar::Boolean(!*b))),
            UnOp::Neg => Ok(OpOutcome::NegReal(if *b { 1 } else { 0 })),
        },
        Scalar::String(_) => Err(OperatorError::unsupported_un_operation(op, PrimitiveKind::String)),
        Scalar::Number(_) => match op {
            UnOp::Neg => Ok(OpOutcome::FromNumber),
            UnOp::Not => Err(OperatorError::unsupported_un_operation(op, PrimitiveKind::Number)),
        },
        Scalar::Opaque(k) => match k {
            PrimitiveKind::Undefined => Err(OperatorError::UndefinedUse),
            PrimitiveKind::Iterable(inner) => Err(OperatorError::unsupported_un_operation(op, (**inner).duplicate())),
            _ => Err(OperatorError::unsupported_un_operation(op, k.duplicate())),
        },
    }
}

/// The type rules agree with evaluation: when the kinds of two well formed
/// values admit a binary operator, applying it never fails for a reason of
/// type (an incompatible or unsupported operand, or `Undefined`); it can
/// only overflow or divide by zero.
pub proof fn lemma_binary_type_rules_sound(lhs: ScalarModel, op: BinOp, rhs: ScalarModel)
    requires
        scalar_ok(lhs),
        scalar_ok(rhs),
        spec_can_apply_binary_op(scalar_kind(lhs), op, scalar_kind(rhs)),
    ensures
        spec_apply_binary_op(lhs, op, rhs) is Ok || spec_apply_binary_op(lhs, op, rhs)->Err_0 is Overflow
            || spec_apply_binary_op(lhs, op, rhs)->Err_0 is DivisionByZero,
{
}

/// The type rules are exact for binary operators on well formed values:
/// when the kinds do not admit the operator, applying it fails for a reason
/// of type.
pub proof fn lemma_binary_type_rules_complete(lhs: ScalarModel, op: BinOp, rhs: ScalarModel)
    requires
        scalar_ok(lhs),
        scalar_ok(rhs),
        !spec_can_apply_binary_op(scalar_kind(lhs), op, scalar_kind(rhs)),
    ensures
        spec_apply_binary_op(lhs, op, rhs) is Err,
        !(spec_apply_binary_op(lhs, op, rhs)->Err_0 is Overflow),
        !(spec_apply_binary_op(lhs, op, rhs)->Err_0 is DivisionByZero),
{
}

/// The type rules agree with evaluation for unary operators: on a well
/// formed value, an operator succeeds exactly when its kind admits it.
pub proof fn lemma_unary_type_rules_exact(v: ScalarModel, op: UnOp)
    requires
        scalar_ok(v),
    ensures
        spec_apply_unary_op(v, op) is Ok <==> spec_can_apply_unary_op(scalar_kind(v), op),
{
}

/// Division by zero is refused, never a silent infinity or NaN: dividing
/// any numeric value by a zero, whether an exact zero or a `Number` equal to
/// zero, gives `DivisionByZero`.
pub proof fn lemma_division_by_zero_refused(lhs: ScalarModel, rhs: ScalarModel)
    requires
        lhs is Integer || lhs is PositiveInteger || lhs is Boolean || lhs is Number,
        exact_number(rhs) == Some(0int) || (rhs matches ScalarModel::Number(bits) && is_zero_bits(bits)),
    ensures
        spec_apply_binary_op(lhs, BinOp::Div, rhs) == Err::<OutcomeModel, OperatorErrorModel>(
            OperatorErrorModel::DivisionByZero,
        ),
{
}

/// Exact integer arithmetic: adding, subtracting or multiplying two
/// `Integer` values gives the mathematical result when it fits in an `i64`
/// and an overflow error otherwise.
pub proof fn lemma_integer_arithmetic_exact(a: i64, op: BinOp, b: i64)
    requires
        op == BinOp::Add || op == BinOp::Sub || op == BinOp::Mul,
    ensures
        spec_apply_binary_op(ScalarModel::Integer(a), op, ScalarModel::Integer(b)) == (if i64::MIN
            <= arith(op, a as int, b as int) <= i64::MAX {
            Ok::<OutcomeModel, OperatorErrorModel>(
                OutcomeModel::Value(ScalarModel::Integer(arith(op, a as int, b as int) as i64)),
            )
        } else {
            Err(OperatorErrorModel::Overflow { operator: op, found: KindModel::Integer })
        }),
{
}

/// The logic operators on booleans: `and`, `or`, `xor`, `implies` and
/// `iff` give the truth tables of conjunction, disjunction, inequality,
/// implication and equality.
pub proof fn lemma_boolean_logic(a: bool, b: bool)
    ensures
        spec_apply_binary_op(ScalarModel::Boolean(a), BinOp::And, ScalarModel::Boolean(b))
            == Ok::<OutcomeModel, OperatorErrorModel>(OutcomeModel::Value(ScalarModel::Boolean(a && b))),
        spec_apply_binary_op(ScalarModel::Boolean(a), BinOp::Or, ScalarModel::Boolean(b))
            == Ok::<OutcomeModel, OperatorErrorModel>(OutcomeModel::Value(ScalarModel::Boolean(a || b))),
        spec_apply_binary_op(ScalarModel::Boolean(a), BinOp::Xor, ScalarModel::Boolean(b))
            == Ok::<OutcomeModel, OperatorErrorModel>(OutcomeModel::Value(ScalarModel::Boolean(a != b))),
        spec_apply_binary_op(ScalarModel::Boolean(a), BinOp::Implies, ScalarModel::Boolean(b))
            == Ok::<OutcomeModel, OperatorErrorModel>(OutcomeModel::Value(ScalarModel::Boolean(!a || b))),
        spec_apply_binary_op(ScalarModel::Boolean(a), BinOp::Iff, ScalarModel::Boolean(b))
            == Ok::<OutcomeModel, OperatorErrorModel>(OutcomeModel::Value(ScalarModel::Boolean(a == b))),
        spec_apply_unary_op(ScalarModel::Boolean(a), UnOp::Not)
            == Ok::<OutcomeModel, OperatorErrorModel>(OutcomeModel::Value(ScalarModel::Boolean(!a))),
{
}

/// The integer that an exact integer or boolean scalar stands for.
pub open spec fn integer_of(s: ScalarModel) -> int {
    match s {
        ScalarModel::Integer(n) => n as int,
        ScalarModel::PositiveInteger(n) => n as int,
        ScalarModel::Boolean(b) => if b {
            1
        } else {
            0
        },
        _ => 0,
    }
}

/// Exact arithmetic keeps the operands in place: with an `Integer` or a
/// `PositiveInteger` (that fits in an `i64`) on the left and an `Integer`, a
/// `PositiveInteger` (that fits in an `i64`) or a boolean on the right,
/// `+`, `-` and `*` give an exact integer equal to `x + y`, `x - y` or
/// `x * y`, and fail only by overflow, never when the result fits in an
/// `i64`; `/` fails exactly when `y` is zero and otherwise asks for the
/// real quotient `x / y`.
pub proof fn lemma_exact_arithmetic_in_order(lhs: ScalarModel, op: BinOp, rhs: ScalarModel)
    requires
        lhs is Integer || (lhs matches ScalarModel::PositiveInteger(n) && n <= i64::MAX),
        rhs is Integer || rhs is Boolean || (rhs matches ScalarModel::PositiveInteger(n) && n <= i64::MAX),
        op == BinOp::Add || op == BinOp::Sub || op == BinOp::Mul || op == BinOp::Div,
    ensures
        ({
            let x = integer_of(lhs);
            let y = integer_of(rhs);
            let r = spec_apply_binary_op(lhs, op, rhs);
            let v = if op == BinOp::Add {
                x + y
            } else if op == BinOp::Sub {
                x - y
            } else {
                x * y
            };
            &&& op != BinOp::Div ==> (r is Ok ==> (r->Ok_0 is Value && integer_of(r->Ok_0->Value_0) == v
                && (r->Ok_0->Value_0 is Integer || r->Ok_0->Value_0 is PositiveInteger)))
            &&& op != BinOp::Div ==> (r is Err ==> r->Err_0 is Overflow && !(i64::MIN <= v <= i64::MAX))
            &&& op != BinOp::Div ==> (i64::MIN <= v <= i64::MAX ==> r is Ok)
            &&& op == BinOp::Div ==> (y == 0 ==> r == Err::<OutcomeModel, OperatorErrorModel>(OperatorErrorModel::DivisionByZero))
            &&& op == BinOp::Div ==> (y != 0 ==> r == Ok::<OutcomeModel, OperatorErrorModel>(OutcomeModel::Real(BinOp::Div, x, y)))
        }),
{
}

/// Strings join in order: `a + b` is the text of `a` followed by that of
/// `b`, and no other operator applies to two strings.
pub proof fn lemma_string_concatenation(a: Seq<char>, op: BinOp, b: Seq<char>)
    ensures
        ({
            let r = spec_apply_binary_op(ScalarModel::String(a), op, ScalarModel::String(b));
            &&& op == BinOp::Add ==> (r matches Ok(OutcomeModel::Value(ScalarModel::String(t))) && t.len() == a.len()
                + b.len() && t.subrange(0, a.len() as int) == a && t.subrange(a.len() as int, t.len() as int) == b)
            &&& op != BinOp::Add ==> r is Err
        }),
{
    if op == BinOp::Add {
        let t = a + b;
        assert(t.subrange(0, a.len() as int) =~= a);
        assert(t.subrange(a.len() as int, t.len() as int) =~= b);
    }
}

/// Negation of an exact integer gives its opposite: `-a` for an `Integer`
/// `a` (other than the least `i64`), and for a `PositiveInteger` that fits
/// in an `i64`, as an `Integer`.
pub proof fn lemma_negation_exact(v: ScalarModel)
    requires
        (v matches ScalarModel::Integer(a) && a != i64::MIN) || (v matches ScalarModel::PositiveInteger(n) && n
            <= i64::MAX),
    ensures
        spec_apply_unary_op(v, UnOp::Neg) matches Ok(OutcomeModel::Value(ScalarModel::Integer(r))) && r == -integer_of(
            v,
        ),
{
}

} // verus!
