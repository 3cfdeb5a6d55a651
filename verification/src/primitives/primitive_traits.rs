//! The operator rules that each kind of value answers for, and the errors
//! of applying an operator.
use vstd::prelude::*;
use crate::math::operators::{BinOp, UnOp};
use crate::primitives::primitive::{Primitive, PrimitiveKind, KindModel, kind_text};
use crate::parser::model_transformer::transform_error::TransformError;

verus! {

/// Types whose values can have operators applied to them; this part states
/// which operators apply, by the kind of the other operand.
pub trait ApplyOp {
    /// Whether `op` applies with a value of this type on the left and a
    /// value of kind `to` on the right.
    spec fn spec_can_apply_binary_op(op: BinOp, to: KindModel) -> bool;

    /// Whether `op` applies to a value of this type.
    spec fn spec_can_apply_unary_op(op: UnOp) -> bool;

    /// Whether `op` applies with a value of this type on the left.
    fn can_apply_binary_op(op: BinOp, to: PrimitiveKind) -> (r: bool)
        ensures
            r == Self::spec_can_apply_binary_op(op, to.model()),
    ;

    /// Whether `op` applies to a value of this type.
    fn can_apply_unary_op(op: UnOp) -> (r: bool)
        ensures
            r == Self::spec_can_apply_unary_op(op),
    ;
}

/// Values that can be spread into their parts, as in `for (a, b) in ...`.
pub trait Spreadable: Sized {
    /// The parts of the value, or the kind of a value that does not spread.
    spec fn spec_spread(self) -> Result<Seq<Primitive>, KindModel>;

    /// The parts of the value; `Unspreadable` with the value's kind when it
    /// does not spread.
    fn to_primitive_set(self) -> (r: Result<Vec<Primitive>, TransformError>)
        ensures
            match Self::spec_spread(self) {
                Ok(parts) => r is Ok && r->Ok_0@ == parts,
                Err(k) => r is Err && r->Err_0 is Unspreadable && r->Err_0->Unspreadable_0.model() == k,
            },
    ;
}

/// Represents errors that can occur during operator application.
#[derive(Debug)]
pub enum OperatorError {
    /// The operand type was incompatible with the operator
    IncompatibleType { operator: BinOp, expected: PrimitiveKind, found: PrimitiveKind },
    /// The binary operator is not supported for the type
    UnsupportedBinOperation { operator: BinOp, found: PrimitiveKind },
    /// The unary operator is not supported for the type
    UnsupportedUnOperation { operator: UnOp, found: PrimitiveKind },
    /// An undefined value was used in an operation
    UndefinedUse,
    /// The exact result does not fit in the integer type
    Overflow { operator: BinOp, found: PrimitiveKind },
    /// A division by zero
    DivisionByZero,
}

/// An operator error as a mathematical value.
pub enum OperatorErrorModel {
    IncompatibleType { operator: BinOp, expected: KindModel, found: KindModel },
    UnsupportedBinOperation { operator: BinOp, found: KindModel },
    UnsupportedUnOperation { operator: UnOp, found: KindModel },
    UndefinedUse,
    Overflow { operator: BinOp, found: KindModel },
    DivisionByZero,
}

impl OperatorError {
    /// The error as a mathematical value.
    pub open spec fn model(self) -> OperatorErrorModel {
        match self {
            OperatorError::IncompatibleType { operator, expected, found } => OperatorErrorModel::IncompatibleType {
                operator,
                expected: expected.model(),
                found: found.model(),
            },
            OperatorError::UnsupportedBinOperation { operator, found } => OperatorErrorModel::UnsupportedBinOperation {
                operator,
                found: found.model(),
            },
            OperatorError::UnsupportedUnOperation { operator, found } => OperatorErrorModel::UnsupportedUnOperation {
                operator,
                found: found.model(),
            },
            OperatorError::UndefinedUse => OperatorErrorModel::UndefinedUse,
            OperatorError::Overflow { operator, found } => OperatorErrorModel::Overflow {
                operator,
                found: found.model(),
            },
            OperatorError::DivisionByZero => OperatorErrorModel::DivisionByZero,
        }
    }

    /// Creates a new incompatible type error.
    pub fn incompatible_type(op: BinOp, expected: PrimitiveKind, found: PrimitiveKind) -> (r: Self)
        ensures
            r == (OperatorError::IncompatibleType { operator: op, expected, found }),
    {
        OperatorError::IncompatibleType { operator: op, expected, found }
    }

    /// Creates a new unsupported binary operation error.
    pub fn unsupported_bin_operation(op: BinOp, found: PrimitiveKind) -> (r: Self)
        ensures
            r == (OperatorError::UnsupportedBinOperation { operator: op, found }),
    {
        OperatorError::UnsupportedBinOperation { operator: op, found }
    }

    /// Creates a new unsupported unary operation error.
    pub fn unsupported_un_operation(op: UnOp, found: PrimitiveKind) -> (r: Self)
        ensures
            r == (OperatorError::UnsupportedUnOperation { operator: op, found }),
    {
        OperatorError::UnsupportedUnOperation { operator: op, found }
    }

    /// Creates a new overflow error.
    pub fn overflow(op: BinOp, found: PrimitiveKind) -> (r: Self)
        ensures
            r == (OperatorError::Overflow { operator: op, found }),
    {
        OperatorError::Overflow { operator: op, found }
    }

    /// Creates a new division by zero error.
    pub fn division_by_zero() -> (r: Self)
        ensures
            r == OperatorError::DivisionByZero,
    {
        OperatorError::DivisionByZero
    }

    /// The message of the error.
    pub open spec fn spec_message(self) -> Seq<char> {
        match self {
            OperatorError::IncompatibleType { operator, expected, found } => "Incompatible types for operator \""@
                + operator.spec_text() + "\", expected \""@ + kind_text(expected.model())
                + "\", found \""@ + kind_text(found.model()) + "\""@,
            OperatorError::UnsupportedBinOperation { operator, found } => "Unsupported binary operation \""@
                + operator.spec_text() + "\" for type \""@ + kind_text(found.model()) + "\""@,
            OperatorError::UnsupportedUnOperation { operator, found } => "Unsupported unary operation \""@
                + operator.spec_text() + "\" for type \""@ + kind_text(found.model()) + "\""@,
            OperatorError::UndefinedUse => "Used \"Undefined\" in operation"@,
            OperatorError::Overflow { operator, found } => "Overflow applying operator \""@
                + operator.spec_text() + "\" to type \""@ + kind_text(found.model()) + "\""@,
            OperatorError::DivisionByZero => "Division by zero"@,
        }
    }

    /// Renders the message of the error.
    pub fn to_string(&self) -> (r: String)
        ensures
            r@ == self.spec_message(),
    {
        match self {
            OperatorError::IncompatibleType { operator, expected, found } => {
                let mut s = String::from_str("Incompatible types for operator \"");
                s.append(operator.to_string().as_str());
                s.append("\", expected \"");
                s.append(expected.to_string().as_str());
                s.append("\", found \"");
                s.append(found.to_string().as_str());
                s.append("\"");
                s
            },
            OperatorError::UnsupportedBinOperation { operator, found } => {
                let mut s = String::from_str("Unsupported binary operation \"");
                s.append(operator.to_string().as_str());
                s.append("\" for type \"");
                s.append(found.to_string().as_str());
                s.append("\"");
                s
            },
            OperatorError::UnsupportedUnOperation { operator, found } => {
                let mut s = String::from_str("Unsupported unary operation \"");
                s.append(operator.to_string().as_str());
                s.append("\" for type \"");
                s.append(found.to_string().as_str());
                s.append("\"");
                s
            },
            OperatorError::UndefinedUse => String::from_str("Used \"Undefined\" in operation"),
            OperatorError::Overflow { operator, found } => {
                let mut s = String::from_str("Overflow applying operator \"");
                s.append(operator.to_string().as_str());
                s.append("\" to type \"");
                s.append(found.to_string().as_str());
                s.append("\"");
                s
            },
            OperatorError::DivisionByZero => String::from_str("Division by zero"),
        }
    }
}

} // verus!
