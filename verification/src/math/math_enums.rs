//! Comparison and objective kinds of the language, and the bounds check of
//! integer variable ranges.
use vstd::prelude::*;
use crate::consts::{InputSpan, Spanned};
use crate::parser::model_transformer::transform_error::{TransformError, ErrorModel, located};
use crate::parser::il::il_exp::{PreExp, CheckOutcome, unit_result};
use crate::primitives::primitive::{PrimitiveKind, KindModel, spec_is_numeric};
use crate::text::{str_eq, signed_decimal, i32_to_decimal, views};
use crate::type_checker::{TypeCheckerContext, TypeCheckerView, FunctionContext, FunctionSignature};

verus! {

/// A comparison between the two sides of a constraint.
#[derive(Debug, PartialEq, Eq, Structural, Clone, Copy)]
pub enum Comparison {
    LessOrEqual,
    GreaterOrEqual,
    Equal,
    Less,
    Greater,
}

impl Comparison {
    /// The source text of the comparison.
    pub open spec fn spec_text(self) -> Seq<char> {
        match self {
            Comparison::LessOrEqual => "<="@,
            Comparison::GreaterOrEqual => ">="@,
            Comparison::Equal => "="@,
            Comparison::Less => "<"@,
            Comparison::Greater => ">"@,
        }
    }

    /// The LaTeX form of the comparison.
    pub open spec fn spec_latex(self) -> Seq<char> {
        match self {
            Comparison::LessOrEqual => "\\leq"@,
            Comparison::GreaterOrEqual => "\\geq"@,
            Comparison::Equal => "="@,
            Comparison::Less => "<"@,
            Comparison::Greater => ">"@,
        }
    }

    /// The comparison whose source text is `s`, if any.
    pub open spec fn spec_from_text(s: Seq<char>) -> Option<Comparison> {
        if s == "<="@ {
            Some(Comparison::LessOrEqual)
        } else if s == ">="@ {
            Some(Comparison::GreaterOrEqual)
        } else if s == "="@ {
            Some(Comparison::Equal)
        } else if s == "<"@ {
            Some(Comparison::Less)
        } else if s == ">"@ {
            Some(Comparison::Greater)
        } else {
            None
        }
    }

    /// Renders the comparison as it is written in a model.
    pub fn to_string(&self) -> (r: String)
        ensures
            r@ == self.spec_text(),
    {
        match self {
            Comparison::LessOrEqual => String::from_str("<="),
            Comparison::GreaterOrEqual => String::from_str(">="),
            Comparison::Equal => String::from_str("="),
            Comparison::Less => String::from_str("<"),
            Comparison::Greater => String::from_str(">"),
        }
    }

    /// Renders the comparison in LaTeX.
    pub fn to_latex(&self) -> (r: String)
        ensures
            r@ == self.spec_latex(),
    {
        match self {
            Comparison::LessOrEqual => String::from_str("\\leq"),
            Comparison::GreaterOrEqual => String::from_str("\\geq"),
            Comparison::Equal => String::from_str("="),
            Comparison::Less => String::from_str("<"),
            Comparison::Greater => String::from_str(">"),
        }
    }

    /// Reads a comparison from its source text; `Err(())` for any other text.
    pub fn from_str(s: &str) -> (r: Result<Comparison, ()>)
        ensures
            r == (match Self::spec_from_text(s@) {
                Some(c) => Ok(c),
                None => Err(()),
            }),
    {
        if str_eq(s, "<=") {
            Ok(Comparison::LessOrEqual)
        } else if str_eq(s, ">=") {
            Ok(Comparison::GreaterOrEqual)
        } else if str_eq(s, "=") {
            Ok(Comparison::Equal)
        } else if str_eq(s, "<") {
            Ok(Comparison::Less)
        } else if str_eq(s, ">") {
            Ok(Comparison::Greater)
        } else {
            Err(())
        }
    }

    /// The list of all comparisons, in declaration order.
    pub open spec fn spec_kinds() -> Seq<Comparison> {
        seq![
            Comparison::LessOrEqual,
            Comparison::GreaterOrEqual,
            Comparison::Equal,
            Comparison::Less,
            Comparison::Greater,
        ]
    }

    /// All comparisons, in declaration order.
    pub fn kinds() -> (r: Vec<Comparison>)
        ensures
            r@ == Self::spec_kinds(),
    {
        vec![
            Comparison::LessOrEqual,
            Comparison::GreaterOrEqual,
            Comparison::Equal,
            Comparison::Less,
            Comparison::Greater,
        ]
    }

    /// The texts of all the Comparison kinds, in declaration order.
    pub fn kinds_to_string() -> (r: Vec<String>)
        ensures
            views(r@) == Comparison::spec_kinds().map_values(|k: Comparison| k.spec_text()),
    {
        let kinds = Self::kinds();
        let mut out: Vec<String> = Vec::new();
        let mut i: usize = 0;
        while i < kinds.len()
            invariant
                i <= kinds.len(),
                kinds@ == Comparison::spec_kinds(),
                out@.len() == i,
                forall|j: int| 0 <= j < i ==> #[trigger] out@[j]@ == kinds@[j].spec_text(),
            decreases kinds.len() - i,
        {
            out.push(kinds[i].to_string());
            i += 1;
        }
        proof {
            assert(views(out@) =~= Comparison::spec_kinds().map_values(|k: Comparison| k.spec_text()));
        }
        out
    }
}

/// The direction of the objective.
#[derive(Debug, PartialEq, Eq, Structural, Clone, Copy)]
pub enum OptimizationType {
    Min,
    Max,
    Satisfy,
}

impl OptimizationType {
    /// The keyword of the objective direction.
    pub open spec fn spec_text(self) -> Seq<char> {
        match self {
            OptimizationType::Min => "min"@,
            OptimizationType::Max => "max"@,
            OptimizationType::Satisfy => "solve"@,
        }
    }

    /// The LaTeX form of the objective direction.
    pub open spec fn spec_latex(self) -> Seq<char> {
        match self {
            OptimizationType::Min => "\\min"@,
            OptimizationType::Max => "\\max"@,
            OptimizationType::Satisfy => "\\solve"@,
        }
    }

    /// The objective direction whose keyword is `s`, if any.
    pub open spec fn spec_from_text(s: Seq<char>) -> Option<OptimizationType> {
        if s == "min"@ {
            Some(OptimizationType::Min)
        } else if s == "max"@ {
            Some(OptimizationType::Max)
        } else if s == "solve"@ {
            Some(OptimizationType::Satisfy)
        } else {
            None
        }
    }

    /// Renders the objective direction as its keyword.
    pub fn to_string(&self) -> (r: String)
        ensures
            r@ == self.spec_text(),
    {
        match self {
            OptimizationType::Min => String::from_str("min"),
            OptimizationType::Max => String::from_str("max"),
            OptimizationType::Satisfy => String::from_str("solve"),
        }
    }

    /// Renders the objective direction in LaTeX.
    pub fn to_latex(&self) -> (r: String)
        ensures
            r@ == self.spec_latex(),
    {
        match self {
            OptimizationType::Min => String::from_str("\\min"),
            OptimizationType::Max => String::from_str("\\max"),
            OptimizationType::Satisfy => String::from_str("\\solve"),
        }
    }

    /// Reads an objective direction from its keyword; `Err(())` otherwise.
    pub fn from_str(s: &str) -> (r: Result<OptimizationType, ()>)
        ensures
            r == (match Self::spec_from_text(s@) {
                Some(o) => Ok(o),
                None => Err(()),
            }),
    {
        if str_eq(s, "min") {
            Ok(OptimizationType::Min)
        } else if str_eq(s, "max") {
            Ok(OptimizationType::Max)
        } else if str_eq(s, "solve") {
            Ok(OptimizationType::Satisfy)
        } else {
            Err(())
        }
    }

    /// All objective directions, in declaration order.
    pub fn kinds() -> (r: Vec<OptimizationType>)
        ensures
            r@ == Self::spec_kinds(),
    {
        vec![OptimizationType::Min, OptimizationType::Max, OptimizationType::Satisfy]
    }

    /// The list of all directions, in declaration order.
    pub open spec fn spec_kinds() -> Seq<OptimizationType> {
        seq![OptimizationType::Min, OptimizationType::Max, OptimizationType::Satisfy]
    }

    /// The texts of all the OptimizationType kinds, in declaration order.
    pub fn kinds_to_string() -> (r: Vec<String>)
        ensures
            views(r@) == OptimizationType::spec_kinds().map_values(|k: OptimizationType| k.spec_text()),
    {
        let kinds = Self::kinds();
        let mut out: Vec<String> = Vec::new();
        let mut i: usize = 0;
        while i < kinds.len()
            invariant
                i <= kinds.len(),
                kinds@ == OptimizationType::spec_kinds(),
                out@.len() == i,
                forall|j: int| 0 <= j < i ==> #[trigger] out@[j]@ == kinds@[j].spec_text(),
            decreases kinds.len() - i,
        {
            out.push(kinds[i].to_string());
            i += 1;
        }
        proof {
            assert(views(out@) =~= OptimizationType::spec_kinds().map_values(|k: OptimizationType| k.spec_text()));
        }
        out
    }
}

/// Reading back the text of a comparison gives the comparison.
pub proof fn lemma_comparison_text_round_trip(c: Comparison)
    ensures
        Comparison::spec_from_text(c.spec_text()) == Some(c),
{
    reveal_strlit("<=");
    reveal_strlit(">=");
    reveal_strlit("=");
    reveal_strlit("<");
    reveal_strlit(">");
    assert("<="@.len() == 2 && "<="@[0] == '<');
    assert(">="@.len() == 2 && ">="@[0] == '>');
    assert("="@.len() == 1 && "="@[0] == '=');
    assert("<"@.len() == 1 && "<"@[0] == '<');
    assert(">"@.len() == 1 && ">"@[0] == '>');
}

/// Reading back the keyword of an objective direction gives the direction.
pub proof fn lemma_optimization_type_text_round_trip(o: OptimizationType)
    ensures
        OptimizationType::spec_from_text(o.spec_text()) == Some(o),
{
    reveal_strlit("min");
    reveal_strlit("max");
    reveal_strlit("solve");
    assert("min"@.len() == 3 && "min"@[0] == 'm');
    assert("max"@.len() == 3 && "max"@[0] == 'm' && "max"@[1] == 'a');
    assert("min"@[1] == 'i');
    assert("solve"@.len() == 5 && "solve"@[0] == 's');
}

/// Whether an `i64` fits in an `i32`.
pub open spec fn fits_i32(v: i64) -> bool {
    i32::MIN <= v <= i32::MAX
}

/// `ToPrimitive::to_i32` of num-traits on an `i64`: the same value when it
/// fits in an `i32`, `None` otherwise (the source compares against
/// `i32::MIN` and `i32::MAX` and casts).
#[verifier::external_body]
fn i64_to_i32(v: i64) -> (r: Option<i32>)
    ensures
        r == (if fits_i32(v) { Some(v as i32) } else { None }),
{
    num_traits::ToPrimitive::to_i32(&v)
}

/// The message of a bound of an integer range that does not fit in an `i32`.
pub open spec fn range_too_large_message() -> Seq<char> {
    "Maximum value of an IntegerRange must be less than or equal to "@ + signed_decimal(i32::MAX as int)
}

/// Checks the evaluated bounds of an `IntegerRange(min, max)` declaration,
/// located at `min_span` and `max_span`: both must fit in an `i32` (the lower
/// one is checked first, each refusal located at its bound) and the lower must
/// not exceed the upper (refused without a location).
pub fn check_integer_range(min: i64, min_span: InputSpan, max: i64, max_span: InputSpan) -> (r: Result<
    (i32, i32),
    TransformError,
>)
    ensures
        !fits_i32(min) ==> (r matches Err(e) && e == (TransformError::TooLarge {
            message: e.spec_inner()->TooLarge_message,
            got: min,
            max: i32::MAX as i64,
        }).spec_add_span(min_span) && e.spec_inner()->TooLarge_message@ == range_too_large_message()),
        fits_i32(min) && !fits_i32(max) ==> (r matches Err(e) && e == (TransformError::TooLarge {
            message: e.spec_inner()->TooLarge_message,
            got: max,
            max: i32::MAX as i64,
        }).spec_add_span(max_span) && e.spec_inner()->TooLarge_message@ == range_too_large_message()),
        fits_i32(min) && fits_i32(max) && min > max ==> (r matches Err(e) && e is Other
            && e->Other_0@ == "Minimum value of an IntegerRange must be less than or equal to the maximum value. Got "@
            + signed_decimal(min as int) + " > "@ + signed_decimal(max as int)),
        fits_i32(min) && fits_i32(max) && min <= max ==> r == Ok::<_, TransformError>(
            (min as i32, max as i32),
        ),
{
    let min_i32 = i64_to_i32(min);
    let max_i32 = i64_to_i32(max);
    match (min_i32, max_i32) {
        (None, _) => Err(too_large(min, min_span)),
        (Some(_), None) => Err(too_large(max, max_span)),
        (Some(lo), Some(hi)) => {
            if lo > hi {
                let mut s = String::from_str(
                    "Minimum value of an IntegerRange must be less than or equal to the maximum value. Got ",
                );
                s.append(i32_to_decimal(lo).as_str());
                s.append(" > ");
                s.append(i32_to_decimal(hi).as_str());
                Err(TransformError::Other(s))
            } else {
                Ok((lo, hi))
            }
        },
    }
}

/// The located error of a range bound `got` that does not fit in an `i32`.
fn too_large(got: i64, span: InputSpan) -> (r: TransformError)
    ensures
        r == (TransformError::TooLarge {
            message: r.spec_inner()->TooLarge_message,
            got,
            max: i32::MAX as i64,
        }).spec_add_span(span),
        r.spec_inner()->TooLarge_message@ == range_too_large_message(),
{
    let mut message = String::from_str("Maximum value of an IntegerRange must be less than or equal to ");
    message.append(i32_to_decimal(i32::MAX).as_str());
    let r = TransformError::TooLarge { message, got, max: i32::MAX as i64 }.add_span(&span);
    proof {
        Spanned::lemma_spec_new(Box::new(TransformError::TooLarge { message, got, max: i32::MAX as i64 }), span);
    }
    r
}

/// The type of a variable of the model, before its bounds are computed.
#[derive(Debug)]
pub enum PreVariableType {
    /// A variable that is 0 or 1
    Boolean,
    /// A real number at least zero, within optional bounds
    NonNegativeReal(Option<PreExp>, Option<PreExp>),
    /// A real number within optional bounds
    Real(Option<PreExp>, Option<PreExp>),
    /// An integer within bounds
    IntegerRange(PreExp, PreExp),
}

/// Checks an optional bound: it must check and be numeric.
pub open spec fn check_bound(b: Option<PreExp>, c: TypeCheckerView, fns: Seq<FunctionSignature>) -> CheckOutcome {
    match b {
        None => (Ok(()), c),
        Some(e) => {
            let (r, c1) = e.spec_type_check(c, fns);
            if r is Err {
                (r, c1)
            } else {
                let t = e.spec_get_type(c1, fns);
                if !spec_is_numeric(t) {
                    (Err(located(ErrorModel::WrongArgument { got: t, expected: KindModel::Number }, e.spec_span())), c1)
                } else {
                    (Ok(()), c1)
                }
            }
        },
    }
}

/// Whether a kind is that of an integer bound.
pub open spec fn is_integer_kind(k: KindModel) -> bool {
    k is Integer || k is PositiveInteger
}

impl PreVariableType {
    /// Checks the bounds of the type: the bounds of a real must be numeric,
    /// those of an integer range integers; the lower bound is checked first.
    pub open spec fn spec_type_check(self, c: TypeCheckerView, fns: Seq<FunctionSignature>) -> CheckOutcome {
        match self {
            PreVariableType::Boolean => (Ok(()), c),
            PreVariableType::NonNegativeReal(min, max) | PreVariableType::Real(min, max) => {
                let (r1, c1) = check_bound(min, c, fns);
                if r1 is Err {
                    (r1, c1)
                } else {
                    check_bound(max, c1, fns)
                }
            },
            PreVariableType::IntegerRange(min, max) => {
                let (r1, c1) = min.spec_type_check(c, fns);
                if r1 is Err {
                    (r1, c1)
                } else {
                    let (r2, c2) = max.spec_type_check(c1, fns);
                    if r2 is Err {
                        (r2, c2)
                    } else {
                        let lt = min.spec_get_type(c2, fns);
                        let rt = max.spec_get_type(c2, fns);
                        if !is_integer_kind(lt) {
                            (Err(located(ErrorModel::WrongArgument { got: lt, expected: KindModel::Integer }, min.spec_span())), c2)
                        } else if !is_integer_kind(rt) {
                            (Err(located(ErrorModel::WrongArgument { got: rt, expected: KindModel::Integer }, max.spec_span())), c2)
                        } else {
                            (Ok(()), c2)
                        }
                    }
                }
            },
        }
    }

    /// Records the kinds of the tokens of the bounds, lower bound first.
    pub open spec fn spec_populate(self, c: TypeCheckerView, fns: Seq<FunctionSignature>) -> TypeCheckerView {
        match self {
            PreVariableType::Boolean => c,
            PreVariableType::NonNegativeReal(min, max) | PreVariableType::Real(min, max) => {
                let c1 = match min {
                    Some(e) => e.spec_populate(c, fns),
                    None => c,
                };
                match max {
                    Some(e) => e.spec_populate(c1, fns),
                    None => c1,
                }
            },
            PreVariableType::IntegerRange(min, max) => max.spec_populate(min.spec_populate(c, fns), fns),
        }
    }

    /// Checks the bounds of the type (see `spec_type_check`).
    pub fn type_check(&self, context: &mut TypeCheckerContext, fn_context: &FunctionContext) -> (r: Result<(), TransformError>)
        ensures
            (unit_result(r), final(context)@) == self.spec_type_check(old(context)@, fn_context.functions@),
    {
        match self {
            PreVariableType::Boolean => Ok(()),
            PreVariableType::NonNegativeReal(min, max) | PreVariableType::Real(min, max) => {
                check_bound_exec(min, context, fn_context)?;
                check_bound_exec(max, context, fn_context)
            },
            PreVariableType::IntegerRange(min, max) => {
                min.type_check(context, fn_context)?;
                max.type_check(context, fn_context)?;
                let lhs = min.get_type(context, fn_context);
                let rhs = max.get_type(context, fn_context);
                if !matches!(lhs, PrimitiveKind::Integer | PrimitiveKind::PositiveInteger) {
                    let e = TransformError::WrongArgument { got: lhs, expected: PrimitiveKind::Integer };
                    proof {
                        e.lemma_model_add_span(min.spec_span());
                    }
                    return Err(e.add_span(&min.span()));
                }
                if !matches!(rhs, PrimitiveKind::Integer | PrimitiveKind::PositiveInteger) {
                    let e = TransformError::WrongArgument { got: rhs, expected: PrimitiveKind::Integer };
                    proof {
                        e.lemma_model_add_span(max.spec_span());
                    }
                    return Err(e.add_span(&max.span()));
                }
                Ok(())
            },
        }
    }

    /// Records the kinds of the tokens of the bounds (see `spec_populate`).
    pub fn populate_token_type_map(&self, context: &mut TypeCheckerContext, fn_context: &FunctionContext)
        ensures
            final(context)@ == self.spec_populate(old(context)@, fn_context.functions@),
    {
        match self {
            PreVariableType::Boolean => {},
            PreVariableType::NonNegativeReal(min, max) | PreVariableType::Real(min, max) => {
                if let Some(e) = min {
                    e.populate_token_type_map(context, fn_context);
                }
                if let Some(e) = max {
                    e.populate_token_type_map(context, fn_context);
                }
            },
            PreVariableType::IntegerRange(min, max) => {
                min.populate_token_type_map(context, fn_context);
                max.populate_token_type_map(context, fn_context);
            },
        }
    }
}

/// Checks an optional bound (see `check_bound`).
fn check_bound_exec(b: &Option<PreExp>, context: &mut TypeCheckerContext, fn_context: &FunctionContext) -> (r: Result<(), TransformError>)
    ensures
        (unit_result(r), final(context)@) == check_bound(*b, old(context)@, fn_context.functions@),
{
    match b {
        None => Ok(()),
        Some(e) => {
            e.type_check(context, fn_context)?;
            let t = e.get_type(context, fn_context);
            if !t.is_numeric() {
                let err = TransformError::WrongArgument { got: t, expected: PrimitiveKind::Number };
                proof {
                    err.lemma_model_add_span(e.spec_span());
                }
                return Err(err.add_span(&e.span()));
            }
            Ok(())
        },
    }
}

} // verus!
