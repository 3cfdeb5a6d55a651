//! Errors of turning a parsed problem into a model, and where they arose.
use vstd::prelude::*;
use crate::consts::{InputSpan, Spanned};
use crate::math::operators::{BinOp, UnOp};
use crate::primitives::primitive::{PrimitiveKind, KindModel, kind_text, kind_texts, kind_models, kinds_to_strings};
use crate::text::{decimal, signed_decimal, join, views, join_strings, i64_to_decimal, usize_to_decimal};

verus! {

/// An error of turning a parsed problem into a model.
#[derive(Debug)]
pub enum TransformError {
    /// A variable is used but not declared
    UndeclaredVariable(String),
    /// A variable's domain is referenced but not declared
    UndeclaredVariableDomain(String),
    /// A variable is declared twice
    AlreadyDeclaredVariable(String),
    /// A value is outside its valid range
    OutOfBounds(String),
    /// An argument has the wrong kind
    WrongArgument { got: PrimitiveKind, expected: PrimitiveKind },
    /// An argument's kind is none of the allowed ones
    WrongExpectedArgument { got: PrimitiveKind, one_of: Vec<PrimitiveKind> },
    /// A located error, with an optional note on where it arose
    SpannedError { spanned_error: Spanned<Box<TransformError>>, value: Option<String> },
    /// A function that does not exist is called
    NonExistentFunction(String),
    /// A function is called with arguments of the wrong kinds
    WrongFunctionSignature { signature: Vec<(String, PrimitiveKind)>, got: Vec<PrimitiveKind> },
    /// A binary operator does not apply to the operand kinds
    BinOpError { operator: BinOp, lhs: PrimitiveKind, rhs: PrimitiveKind },
    /// A unary operator does not apply to the operand kind
    UnOpError { operator: UnOp, exp: PrimitiveKind },
    /// A value of this kind cannot be spread
    Unspreadable(PrimitiveKind),
    /// A value cannot be spread into the given variables
    SpreadError { to_spread: PrimitiveKind, in_variables: Vec<String> },
    /// A value exceeds the allowed maximum
    TooLarge { message: String, got: i64, max: i64 },
    /// Generic error with custom message
    Other(String),
}

/// The text of an optional note.
pub open spec fn opt_view(o: Option<String>) -> Option<Seq<char>> {
    match o {
        Some(s) => Some(s@),
        None => None,
    }
}

/// A trace entry as plain values.
pub open spec fn entry_view(e: (InputSpan, Option<String>)) -> (InputSpan, Option<Seq<char>>) {
    (e.0, opt_view(e.1))
}

/// A trace as plain values.
pub open spec fn trace_view(t: Seq<(InputSpan, Option<String>)>) -> Seq<(InputSpan, Option<Seq<char>>)> {
    t.map_values(|e: (InputSpan, Option<String>)| entry_view(e))
}

/// A parameter of a function signature as text: `name: Kind`.
pub open spec fn parameter_text(p: (String, PrimitiveKind)) -> Seq<char> {
    p.0@ + ": "@ + kind_text(p.1.model())
}

/// The parameters of a function signature as text.
pub open spec fn signature_texts(s: Seq<(String, PrimitiveKind)>) -> Seq<Seq<char>> {
    s.map_values(|p: (String, PrimitiveKind)| parameter_text(p))
}

/// A line of a printed trace: `\tat line:column"` and, where the entry has a
/// note, ` (note)`, then `"`.
pub open spec fn trace_line(e: (InputSpan, Option<Seq<char>>)) -> Seq<char> {
    "\tat "@ + decimal(e.0.start_line as nat) + ":"@ + decimal(e.0.start_column as nat) + "\""@
        + match e.1 {
        Some(o) => " ("@ + o + ")"@,
        None => ""@,
    } + "\""@
}

/// The lines of a printed trace.
pub open spec fn trace_lines(t: Seq<(InputSpan, Option<Seq<char>>)>) -> Seq<Seq<char>> {
    t.map_values(|e: (InputSpan, Option<Seq<char>>)| trace_line(e))
}

/// Copies an optional note.
fn clone_note(o: &Option<String>) -> (r: Option<String>)
    ensures
        opt_view(r) == opt_view(*o),
{
    match o {
        Some(s) => Some(s.clone()),
        None => None,
    }
}

/// The parameters of a function signature as text.
fn signature_to_strings(sig: &Vec<(String, PrimitiveKind)>) -> (r: Vec<String>)
    ensures
        views(r@) == signature_texts(sig@),
{
    let mut out: Vec<String> = Vec::new();
    let mut i: usize = 0;
    while i < sig.len()
        invariant
            i <= sig.len(),
            out@.len() == i,
            forall|j: int| 0 <= j < i ==> #[trigger] out@[j]@ == parameter_text(sig@[j]),
        decreases sig.len() - i,
    {
        let mut s = sig[i].0.clone();
        s.append(": ");
        s.append(sig[i].1.to_string().as_str());
        out.push(s);
        i += 1;
    }
    assert(views(out@) =~= signature_texts(sig@));
    out
}

/// An error as a mathematical value: texts as character sequences, kinds
/// as kind models.
pub enum ErrorModel {
    UndeclaredVariable(Seq<char>),
    UndeclaredVariableDomain(Seq<char>),
    AlreadyDeclaredVariable(Seq<char>),
    OutOfBounds(Seq<char>),
    WrongArgument { got: KindModel, expected: KindModel },
    WrongExpectedArgument { got: KindModel, one_of: Seq<KindModel> },
    Located { inner: Box<ErrorModel>, span: InputSpan, value: Option<Seq<char>> },
    NonExistentFunction(Seq<char>),
    WrongFunctionSignature { signature: Seq<(Seq<char>, KindModel)>, got: Seq<KindModel> },
    BinOpError { operator: BinOp, lhs: KindModel, rhs: KindModel },
    UnOpError { operator: UnOp, exp: KindModel },
    Unspreadable(KindModel),
    SpreadError { to_spread: KindModel, in_variables: Seq<Seq<char>> },
    TooLarge { message: Seq<char>, got: i64, max: i64 },
    Other(Seq<char>),
}

/// The error `e` located at `span`, with no note.
pub open spec fn located(e: ErrorModel, span: InputSpan) -> ErrorModel {
    ErrorModel::Located { inner: Box::new(e), span, value: None }
}

/// The parameters of a signature as plain values.
pub open spec fn signature_model(s: Seq<(String, PrimitiveKind)>) -> Seq<(Seq<char>, KindModel)> {
    s.map_values(|p: (String, PrimitiveKind)| (p.0@, p.1.model()))
}

impl TransformError {
    /// The error that a located error locates.
    pub open spec fn spec_inner(self) -> TransformError
        recommends
            self is SpannedError,
    {
        *self->spanned_error.spec_value()
    }

    /// The span of a located error.
    pub open spec fn spec_span(self) -> InputSpan
        recommends
            self is SpannedError,
    {
        self->spanned_error.spec_span()
    }

    /// The error as a mathematical value.
    pub open spec fn model(self) -> ErrorModel
        decreases self,
    {
        match self {
            TransformError::UndeclaredVariable(s) => ErrorModel::UndeclaredVariable(s@),
            TransformError::UndeclaredVariableDomain(s) => ErrorModel::UndeclaredVariableDomain(s@),
            TransformError::AlreadyDeclaredVariable(s) => ErrorModel::AlreadyDeclaredVariable(s@),
            TransformError::OutOfBounds(s) => ErrorModel::OutOfBounds(s@),
            TransformError::WrongArgument { got, expected } => ErrorModel::WrongArgument {
                got: got.model(),
                expected: expected.model(),
            },
            TransformError::WrongExpectedArgument { got, one_of } => ErrorModel::WrongExpectedArgument {
                got: got.model(),
                one_of: kind_models(one_of@),
            },
            TransformError::SpannedError { spanned_error, value } => {
                proof {
                    spanned_error.lemma_value_decreases();
                }
                ErrorModel::Located {
                    inner: Box::new((*spanned_error.spec_value()).model()),
                    span: spanned_error.spec_span(),
                    value: opt_view(value),
                }
            },
            TransformError::NonExistentFunction(s) => ErrorModel::NonExistentFunction(s@),
            TransformError::WrongFunctionSignature { signature, got } => ErrorModel::WrongFunctionSignature {
                signature: signature_model(signature@),
                got: kind_models(got@),
            },
            TransformError::BinOpError { operator, lhs, rhs } => ErrorModel::BinOpError {
                operator,
                lhs: lhs.model(),
                rhs: rhs.model(),
            },
            TransformError::UnOpError { operator, exp } => ErrorModel::UnOpError { operator, exp: exp.model() },
            TransformError::Unspreadable(k) => ErrorModel::Unspreadable(k.model()),
            TransformError::SpreadError { to_spread, in_variables } => ErrorModel::SpreadError {
                to_spread: to_spread.model(),
                in_variables: views(in_variables@),
            },
            TransformError::TooLarge { message, got, max } => ErrorModel::TooLarge { message: message@, got, max },
            TransformError::Other(s) => ErrorModel::Other(s@),
        }
    }

    /// Locating an error locates its model.
    pub proof fn lemma_model_add_span(self, span: InputSpan)
        ensures
            self.spec_add_span(span).model() == located(self.model(), span),
    {
        Spanned::lemma_spec_new(Box::new(self), span);
    }

    /// The error located at `span`, with no note.
    pub open spec fn spec_add_span(self, span: InputSpan) -> TransformError {
        TransformError::SpannedError {
            spanned_error: Spanned::spec_new(Box::new(self), span),
            value: None,
        }
    }

    /// The message of the error. A located error reads as the error it
    /// locates.
    pub open spec fn spec_message(self) -> Seq<char>
        decreases self,
    {
        match self {
            TransformError::UndeclaredVariable(name) => "[UndeclaredVariable] Variable \""@ + name@
                + "\" was not declared"@,
            TransformError::AlreadyDeclaredVariable(name) => "[AlreadyDeclaredVariable] Variable "@
                + name@ + " was already declared"@,
            TransformError::NonExistentFunction(name) => "[NonExistentFunction] Function \""@ + name@
                + "\" does not exist"@,
            TransformError::UndeclaredVariableDomain(name) =>
                "[UndeclaredVariableDomain] The domain of variable \""@ + name@
                + "\" was not defined"@,
            TransformError::WrongFunctionSignature { signature, got } =>
                "[WrongFunctionSignature] Wrong number of arguments, expected \""@ + join(
                signature_texts(signature@),
                ", "@,
            ) + "\", got \""@ + join(kind_texts(kind_models(got@)), ", "@) + "\""@,
            TransformError::OutOfBounds(name) => "[OutOfBounds] "@ + name@,
            TransformError::WrongArgument { got, expected } => "[WrongArgument] expected \""@
                + kind_text(expected.model()) + "\", got \""@ + kind_text(got.model()) + "\""@,
            TransformError::WrongExpectedArgument { got, one_of } =>
                "[WrongExpectedArgument] expected one of \""@ + join(
                kind_texts(kind_models(one_of@)),
                ", "@,
            ) + "\", got \""@ + kind_text(got.model()) + "\""@,
            TransformError::TooLarge { message, got, max } => "[TooLarge] "@ + message@
                + ": got "@ + signed_decimal(got as int) + ", max "@ + signed_decimal(max as int),
            TransformError::SpreadError { to_spread, in_variables } => "[SpreadError] type \""@
                + kind_text(to_spread.model()) + "\" cannot be spread in \""@ + join(
                views(in_variables@),
                ", "@,
            ) + "\""@,
            TransformError::Other(name) => "[Other] "@ + name@,
            TransformError::Unspreadable(kind) => "[Unspreadable] type \""@ + kind_text(kind.model())
                + "\" is not spreadable"@,
            TransformError::SpannedError { spanned_error, .. } => {
                proof {
                    spanned_error.lemma_value_decreases();
                }
                (*spanned_error.spec_value()).spec_message()
            },
            TransformError::BinOpError { operator, lhs, rhs } => "[BinOpError] operator \""@
                + operator.spec_text() + "\" cannot be applied to \""@ + kind_text(lhs.model())
                + "\" and \""@ + kind_text(rhs.model()) + "\""@,
            TransformError::UnOpError { operator, exp } => "[UnOpError] operator \""@
                + operator.spec_text() + "\" cannot be applied to \""@ + kind_text(exp.model())
                + "\""@,
        }
    }

    /// The located layers of the error from the outermost in, each run of
    /// neighbouring layers with the same span kept as its outermost layer.
    pub open spec fn spec_layers(self) -> Seq<(InputSpan, Option<Seq<char>>)>
        decreases self,
    {
        match self {
            TransformError::SpannedError { spanned_error, value } => {
                proof {
                    spanned_error.lemma_value_decreases();
                }
                let inner = *spanned_error.spec_value();
                let head = (spanned_error.spec_span(), opt_view(value));
                if inner is SpannedError && inner.spec_span() == spanned_error.spec_span() {
                    seq![head] + inner.spec_layers().drop_first()
                } else {
                    seq![head] + inner.spec_layers()
                }
            },
            _ => seq![],
        }
    }

    /// Where the error was located, from where it arose outwards.
    pub open spec fn spec_trace(self) -> Seq<(InputSpan, Option<Seq<char>>)> {
        self.spec_layers().reverse()
    }

    /// The span where the error arose, if it was located at all.
    pub open spec fn spec_origin_span(self) -> Option<InputSpan> {
        if self.spec_trace().len() == 0 {
            None
        } else {
            Some(self.spec_trace()[0].0)
        }
    }

    /// The error without any of its locations.
    pub open spec fn spec_base(self) -> TransformError
        decreases self,
    {
        match self {
            TransformError::SpannedError { spanned_error, .. } => {
                proof {
                    spanned_error.lemma_value_decreases();
                }
                (*spanned_error.spec_value()).spec_base()
            },
            _ => self,
        }
    }

    /// The message followed by one line per trace entry.
    pub open spec fn spec_traced_error(self) -> Seq<char> {
        self.spec_message() + "\n"@ + join(trace_lines(self.spec_trace()), "\n"@)
    }

    /// Locates the error at `span`, with no note.
    pub fn add_span(self, span: &InputSpan) -> (r: TransformError)
        ensures
            r == self.spec_add_span(*span),
    {
        TransformError::SpannedError { spanned_error: Spanned::new(Box::new(self), *span), value: None }
    }

    /// A located error: an argument of kind `got` where `expected` was due.
    pub fn from_wrong_type(expected: PrimitiveKind, got: PrimitiveKind, span: InputSpan) -> (r:
        TransformError)
        ensures
            r == (TransformError::WrongArgument { got, expected }).spec_add_span(span),
    {
        TransformError::WrongArgument { got, expected }.add_span(&span)
    }

    /// A located error: `operator` does not apply to `lhs` and `rhs`.
    pub fn from_wrong_binop(operator: BinOp, lhs: PrimitiveKind, rhs: PrimitiveKind, span: InputSpan) -> (r:
        TransformError)
        ensures
            r == (TransformError::BinOpError { operator, lhs, rhs }).spec_add_span(span),
    {
        TransformError::BinOpError { operator, lhs, rhs }.add_span(&span)
    }

    /// A located error: `operator` does not apply to `exp`.
    pub fn from_wrong_unop(operator: UnOp, exp: PrimitiveKind, span: InputSpan) -> (r: TransformError)
        ensures
            r == (TransformError::UnOpError { operator, exp }).spec_add_span(span),
    {
        TransformError::UnOpError { operator, exp }.add_span(&span)
    }

    /// The message of the error.
    pub fn to_string(&self) -> (r: String)
        ensures
            r@ == self.spec_message(),
        decreases self,
    {
        match self {
            TransformError::UndeclaredVariable(name) => {
                let mut s = String::from_str("[UndeclaredVariable] Variable \"");
                s.append(name.as_str());
                s.append("\" was not declared");
                s
            },
            TransformError::AlreadyDeclaredVariable(name) => {
                let mut s = String::from_str("[AlreadyDeclaredVariable] Variable ");
                s.append(name.as_str());
                s.append(" was already declared");
                s
            },
            TransformError::NonExistentFunction(name) => {
                let mut s = String::from_str("[NonExistentFunction] Function \"");
                s.append(name.as_str());
                s.append("\" does not exist");
                s
            },
            TransformError::UndeclaredVariableDomain(name) => {
                let mut s = String::from_str("[UndeclaredVariableDomain] The domain of variable \"");
                s.append(name.as_str());
                s.append("\" was not defined");
                s
            },
            TransformError::WrongFunctionSignature { signature, got } => {
                let params = signature_to_strings(signature);
                let kinds = kinds_to_strings(got);
                let mut s = String::from_str(
                    "[WrongFunctionSignature] Wrong number of arguments, expected \"",
                );
                s.append(join_strings(&params, ", ").as_str());
                s.append("\", got \"");
                s.append(join_strings(&kinds, ", ").as_str());
                s.append("\"");
                s
            },
            TransformError::OutOfBounds(name) => {
                let mut s = String::from_str("[OutOfBounds] ");
                s.append(name.as_str());
                s
            },
            TransformError::WrongArgument { got, expected } => {
                let mut s = String::from_str("[WrongArgument] expected \"");
                s.append(expected.to_string().as_str());
                s.append("\", got \"");
                s.append(got.to_string().as_str());
                s.append("\"");
                s
            },
            TransformError::WrongExpectedArgument { got, one_of } => {
                let kinds = kinds_to_strings(one_of);
                let mut s = String::from_str("[WrongExpectedArgument] expected one of \"");
                s.append(join_strings(&kinds, ", ").as_str());
                s.append("\", got \"");
                s.append(got.to_string().as_str());
                s.append("\"");
                s
            },
            TransformError::TooLarge { message, got, max } => {
                let mut s = String::from_str("[TooLarge] ");
                s.append(message.as_str());
                s.append(": got ");
                s.append(i64_to_decimal(*got).as_str());
                s.append(", max ");
                s.append(i64_to_decimal(*max).as_str());
                s
            },
            TransformError::SpreadError { to_spread, in_variables } => {
                let mut s = String::from_str("[SpreadError] type \"");
                s.append(to_spread.to_string().as_str());
                s.append("\" cannot be spread in \"");
                s.append(join_strings(in_variables, ", ").as_str());
                s.append("\"");
                s
            },
            TransformError::Other(name) => {
                let mut s = String::from_str("[Other] ");
                s.append(name.as_str());
                s
            },
            TransformError::Unspreadable(kind) => {
                let mut s = String::from_str("[Unspreadable] type \"");
                s.append(kind.to_string().as_str());
                s.append("\" is not spreadable");
                s
            },
            TransformError::SpannedError { spanned_error, .. } => {
                proof {
                    spanned_error.lemma_value_decreases();
                }
                let inner: &TransformError = &**spanned_error.get_span_value();
                inner.to_string()
            },
            TransformError::BinOpError { operator, lhs, rhs } => {
                let mut s = String::from_str("[BinOpError] operator \"");
                s.append(operator.to_string().as_str());
                s.append("\" cannot be applied to \"");
                s.append(lhs.to_string().as_str());
                s.append("\" and \"");
                s.append(rhs.to_string().as_str());
                s.append("\"");
                s
            },
            TransformError::UnOpError { operator, exp } => {
                let mut s = String::from_str("[UnOpError] operator \"");
                s.append(operator.to_string().as_str());
                s.append("\" cannot be applied to \"");
                s.append(exp.to_string().as_str());
                s.append("\"");
                s
            },
        }
    }

    /// The located layers, from the outermost in, as `spec_layers` says.
    fn layers(&self) -> (r: Vec<(InputSpan, Option<String>)>)
        ensures
            trace_view(r@) == self.spec_layers(),
        decreases self,
    {
        match self {
            TransformError::SpannedError { spanned_error, value } => {
                proof {
                    spanned_error.lemma_value_decreases();
                }
                let span = *spanned_error.get_span();
                let inner: &TransformError = &**spanned_error.get_span_value();
                let mut rest = inner.layers();
                let same = match inner {
                    TransformError::SpannedError { spanned_error: inner_spanned, .. } => *inner_spanned.get_span() == span,
                    _ => false,
                };
                let ghost rest_before = rest@;
                if same {
                    proof {
                        assert(trace_view(rest@).len() > 0) by {
                            reveal_with_fuel(TransformError::spec_layers, 2);
                        }
                    }
                    rest.remove(0);
                    proof {
                        assert(trace_view(rest@) =~= trace_view(rest_before).drop_first());
                    }
                }
                let mut out = vec![(span, clone_note(value))];
                let ghost first = out@;
                let ghost tail = rest@;
                out.append(&mut rest);
                proof {
                    assert(trace_view(out@) =~= trace_view(first) + trace_view(tail));
                }
                out
            },
            _ => Vec::new(),
        }
    }

    /// Where the error was located, from where it arose outwards: one entry
    /// per layer, neighbouring layers with the same span counted once.
    pub fn trace(&self) -> (r: Vec<(InputSpan, Option<String>)>)
        ensures
            trace_view(r@) == self.spec_trace(),
    {
        let mut layers = self.layers();
        let ghost all = layers@;
        let mut out: Vec<(InputSpan, Option<String>)> = Vec::new();
        while layers.len() > 0
            invariant
                layers@ == all.take(layers@.len() as int),
                layers@.len() <= all.len(),
                out@ =~= all.subrange(layers@.len() as int, all.len() as int).reverse(),
            decreases layers@.len(),
        {
            let e = layers.pop().unwrap();
            out.push(e);
        }
        proof {
            assert(trace_view(out@) =~= trace_view(all).reverse());
        }
        out
    }

    /// The span where the error arose, if it was located at all.
    pub fn origin_span(&self) -> (r: Option<InputSpan>)
        ensures
            r == self.spec_origin_span(),
    {
        let trace = self.trace();
        if trace.len() == 0 {
            None
        } else {
            proof {
                assert(trace_view(trace@)[0] == entry_view(trace@[0]));
            }
            Some(trace[0].0)
        }
    }

    /// The message, then one line per trace entry.
    pub fn traced_error(&self) -> (r: String)
        ensures
            r@ == self.spec_traced_error(),
    {
        let error = self.to_string();
        let trace = self.trace();
        let mut lines: Vec<String> = Vec::new();
        let mut i: usize = 0;
        while i < trace.len()
            invariant
                i <= trace.len(),
                lines@.len() == i,
                forall|j: int| 0 <= j < i ==> #[trigger] lines@[j]@ == trace_line(entry_view(trace@[j])),
            decreases trace.len() - i,
        {
            let mut line = String::from_str("\tat ");
            line.append(usize_to_decimal(trace[i].0.start_line).as_str());
            line.append(":");
            line.append(usize_to_decimal(trace[i].0.start_column).as_str());
            line.append("\"");
            match &trace[i].1 {
                Some(o) => {
                    line.append(" (");
                    line.append(o.as_str());
                    line.append(")");
                },
                None => {
                    line.append("");
                },
            }
            line.append("\"");
            lines.push(line);
            i += 1;
        }
        proof {
            assert(views(lines@) =~= trace_lines(self.spec_trace()));
        }
        let mut s = error;
        s.append("\n");
        s.append(join_strings(&lines, "\n").as_str());
        s
    }

    /// The error without any of its locations.
    pub fn base_error(&self) -> (r: &TransformError)
        ensures
            *r == self.spec_base(),
        decreases self,
    {
        match self {
            TransformError::SpannedError { spanned_error, .. } => {
                proof {
                    spanned_error.lemma_value_decreases();
                }
                let inner: &TransformError = &**spanned_error.get_span_value();
                inner.base_error()
            },
            _ => self,
        }
    }
}

/// Locating an error does not change the error underneath.
pub proof fn lemma_add_span_keeps_base(e: TransformError, span: InputSpan)
    ensures
        e.spec_add_span(span).spec_base() == e.spec_base(),
{
    Spanned::lemma_spec_new(Box::new(e), span);
}

/// The error underneath all locations is itself never a located error.
pub proof fn lemma_base_is_unlocated(e: TransformError)
    ensures
        !(e.spec_base() is SpannedError),
    decreases e,
{
    if let TransformError::SpannedError { spanned_error, .. } = e {
        spanned_error.lemma_value_decreases();
        lemma_base_is_unlocated(*spanned_error.spec_value());
    }
}

/// Locating an error does not change its message.
pub proof fn lemma_add_span_keeps_message(e: TransformError, span: InputSpan)
    ensures
        e.spec_add_span(span).spec_message() == e.spec_message(),
{
    Spanned::lemma_spec_new(Box::new(e), span);
}

/// Locating an error at `span` adds `(span, no note)` as the last entry of
/// its trace; where the error's outermost location is that same span, that
/// entry takes the place of the last one.
pub proof fn lemma_add_span_trace(e: TransformError, span: InputSpan)
    ensures
        e.spec_add_span(span).spec_trace() == if e is SpannedError && e.spec_span() == span {
            e.spec_trace().drop_last().push((span, None))
        } else {
            e.spec_trace().push((span, None))
        },
{
    Spanned::lemma_spec_new(Box::new(e), span);
    let l = e.spec_layers();
    if e is SpannedError && e.spec_span() == span {
        assert(l.len() > 0);
        assert((seq![(span, None::<Seq<char>>)] + l.drop_first()).reverse() =~= l.reverse().drop_last().push(
            (span, None),
        ));
    } else {
        assert((seq![(span, None::<Seq<char>>)] + l).reverse() =~= l.reverse().push((span, None)));
    }
}

/// Locating an error again keeps the span where it arose; an error that was
/// not located arose where it is first located.
pub proof fn lemma_add_span_keeps_origin(e: TransformError, span: InputSpan)
    ensures
        e is SpannedError ==> e.spec_add_span(span).spec_origin_span() == e.spec_origin_span(),
        !(e is SpannedError) ==> e.spec_add_span(span).spec_origin_span() == Some(span),
{
    lemma_add_span_trace(e, span);
    if e is SpannedError {
        assert(e.spec_layers().len() > 0);
        if e.spec_span() == span && e.spec_trace().len() == 1 {
            assert(e.spec_trace()[0].0 == e.spec_layers()[0].0);
        }
    }
}

} // verus!
