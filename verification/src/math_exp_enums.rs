//! The comparison, arithmetic operator and objective kinds of the first
//! version of the language, with their textual forms.
use vstd::prelude::*;

verus! {

/// A comparison between the two sides of a constraint.
#[derive(Debug, PartialEq, Eq, Structural, Clone, Copy)]
pub enum Comparison {
    LowerOrEqual,
    UpperOrEqual,
    Equal,
}

impl Comparison {
    /// The source text of the comparison.
    pub open spec fn spec_text(self) -> Seq<char> {
        match self {
            Comparison::LowerOrEqual => "<="@,
            Comparison::UpperOrEqual => ">="@,
            Comparison::Equal => "="@,
        }
    }

    /// Renders the comparison as it is written in a model.
    pub fn to_string(&self) -> (r: String)
        ensures
            r@ == self.spec_text(),
    {
        match self {
            Comparison::LowerOrEqual => String::from_str("<="),
            Comparison::UpperOrEqual => String::from_str(">="),
            Comparison::Equal => String::from_str("="),
        }
    }
}

/// An arithmetic operator.
#[derive(Debug, PartialEq, Eq, Structural, Clone, Copy)]
pub enum Op {
    Add,
    Sub,
    Mul,
    Div,
}

impl Op {
    /// Binding strength: multiplication and division bind tighter than
    /// addition and subtraction.
    pub open spec fn spec_precedence(self) -> u8 {
        match self {
            Op::Add | Op::Sub => 1,
            Op::Mul | Op::Div => 2,
        }
    }

    /// The source text of the operator.
    pub open spec fn spec_text(self) -> Seq<char> {
        match self {
            Op::Add => "+"@,
            Op::Sub => "-"@,
            Op::Mul => "*"@,
            Op::Div => "/"@,
        }
    }

    /// The binding strength of the operator.
    pub fn precedence(&self) -> (r: u8)
        ensures
            r == self.spec_precedence(),
    {
        match self {
            Op::Add => 1,
            Op::Sub => 1,
            Op::Mul => 2,
            Op::Div => 2,
        }
    }

    /// Renders the operator as it is written in a model.
    pub fn to_string(&self) -> (r: String)
        ensures
            r@ == self.spec_text(),
    {
        match self {
            Op::Add => String::from_str("+"),
            Op::Sub => String::from_str("-"),
            Op::Mul => String::from_str("*"),
            Op::Div => String::from_str("/"),
        }
    }
}

/// The direction of the objective.
#[derive(Debug, PartialEq, Eq, Structural, Clone, Copy)]
pub enum OptimizationType {
    Min,
    Max,
}

impl OptimizationType {
    /// The keyword of the objective direction.
    pub open spec fn spec_text(self) -> Seq<char> {
        match self {
            OptimizationType::Min => "min"@,
            OptimizationType::Max => "max"@,
        }
    }

    /// Renders the objective direction as its keyword.
    pub fn to_string(&self) -> (r: String)
        ensures
            r@ == self.spec_text(),
    {
        match self {
            OptimizationType::Min => String::from_str("min"),
            OptimizationType::Max => String::from_str("max"),
        }
    }
}

} // verus!
