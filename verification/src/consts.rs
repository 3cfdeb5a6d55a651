//! Source locations, values tagged with them, and compilation errors.
use vstd::prelude::*;
use vstd::utf8::*;
use vstd::string::StringSliceAdditionalSpecFns;
use crate::text::{decimal, join, views, join_strings, usize_to_decimal};

pub use crate::math_exp_enums::{Comparison, Op, OptimizationType};

verus! {

broadcast use vstd::utf8::group_utf8_lib;

/// A region of the source text: its line and column bounds, and its byte
/// offset and byte length.
#[derive(Debug, Clone, Copy, PartialEq, Eq, Structural)]
pub struct InputSpan {
    pub start_line: usize,
    pub end_line: usize,
    pub start_column: usize,
    pub end_column: usize,
    pub start: usize,
    pub len: usize,
    pub tempered: bool,
}

impl InputSpan {
    /// The empty span at the start of the text.
    pub open spec fn spec_default() -> InputSpan {
        InputSpan {
            start_line: 0,
            end_line: 0,
            start_column: 0,
            end_column: 0,
            start: 0,
            len: 0,
            tempered: false,
        }
    }

    /// The byte offset just past the span.
    pub open spec fn spec_end(self) -> int {
        self.start + self.len
    }

    /// Whether `get_span_text` finds the span inside `bytes`: both its start
    /// and its end must lie strictly before the end of the text.
    pub open spec fn spec_inside(self, bytes: Seq<u8>) -> bool {
        self.start < bytes.len() && self.spec_end() < bytes.len()
    }

    /// The empty span at the start of the text.
    pub fn default() -> (r: InputSpan)
        ensures
            r == Self::spec_default(),
    {
        InputSpan {
            start_line: 0,
            end_line: 0,
            start_column: 0,
            end_column: 0,
            start: 0,
            len: 0,
            tempered: false,
        }
    }

    /// The text that the span covers. `Err(())` unless both the start and
    /// the end of the span lie before the last byte of `text` (a span that
    /// ends exactly at the end of the text is refused too).
    pub fn get_span_text<'a>(&self, text: &'a str) -> (r: Result<&'a str, ()>)
        requires
            self.start + self.len <= usize::MAX,
            text.spec_bytes().len() <= usize::MAX,
            self.spec_inside(text.spec_bytes()) ==> is_char_boundary(
                text.spec_bytes(),
                self.start as int,
            ) && is_char_boundary(text.spec_bytes(), self.spec_end()),
        ensures
            !self.spec_inside(text.spec_bytes()) ==> r is Err,
            self.spec_inside(text.spec_bytes()) ==> r is Ok && r->Ok_0.spec_bytes()
                =~= text.spec_bytes().subrange(self.start as int, self.spec_end()),
    {
        let start = self.start;
        let end = start + self.len;
        if start >= text.len() || end >= text.len() {
            return Err(());
        }
        let ghost bytes = text.spec_bytes();
        proof {
            encode_utf8_valid_utf8(text@);
        }
        let (_, rest) = text.split_at(start);
        proof {
            encode_utf8_valid_utf8(rest@);
            assert(rest.spec_bytes() =~= bytes.subrange(start as int, bytes.len() as int));
            if end > start {
                is_char_boundary_iff_not_is_continuation_byte(bytes, end as int);
                is_char_boundary_iff_not_is_continuation_byte(rest.spec_bytes(), end - start);
            } else {
                is_char_boundary_start_end_of_seq(rest.spec_bytes());
            }
        }
        let (mid, _) = rest.split_at(end - start);
        Ok(mid)
    }
}

/// A value together with the region of the source text it came from.
#[derive(Debug, Clone)]
pub struct Spanned<T> {
    value: T,
    span: InputSpan,
}

impl<T> Spanned<T> {
    /// The tagged value that `new` builds.
    pub closed spec fn spec_new(value: T, span: InputSpan) -> Self {
        Spanned { value, span }
    }

    /// What `spec_new` builds holds the value and the span it was given.
    pub broadcast proof fn lemma_spec_new(value: T, span: InputSpan)
        ensures
            #[trigger] Self::spec_new(value, span).spec_value() == value,
            Self::spec_new(value, span).spec_span() == span,
    {
    }

    /// The value.
    pub closed spec fn spec_value(self) -> T {
        self.value
    }

    /// The value is a part of the tagged value, so a definition may recurse
    /// from the one to the other.
    pub proof fn lemma_value_decreases(self)
        ensures
            decreases_to!(self => self.spec_value()),
    {
    }

    /// The source region.
    pub closed spec fn spec_span(self) -> InputSpan {
        self.span
    }

    /// Tags a value with its source region.
    pub fn new(value: T, span: InputSpan) -> (r: Self)
        ensures
            r == Self::spec_new(value, span),
            r.spec_value() == value,
            r.spec_span() == span,
    {
        Spanned { value, span }
    }

    /// The source region.
    pub fn get_span(&self) -> (r: &InputSpan)
        ensures
            *r == self.spec_span(),
    {
        &self.span
    }

    /// The value.
    pub fn get_span_value(&self) -> (r: &T)
        ensures
            *r == self.spec_value(),
    {
        &self.value
    }

    /// Takes the value out.
    pub fn into_span_value(self) -> (r: T)
        ensures
            r == self.spec_value(),
    {
        self.value
    }

    /// The text of the source region, as `InputSpan::get_span_text` gives it.
    pub fn get_span_text<'a>(&self, text: &'a str) -> (r: Result<&'a str, ()>)
        requires
            self.spec_span().start + self.spec_span().len <= usize::MAX,
            text.spec_bytes().len() <= usize::MAX,
            self.spec_span().spec_inside(text.spec_bytes()) ==> is_char_boundary(
                text.spec_bytes(),
                self.spec_span().start as int,
            ) && is_char_boundary(text.spec_bytes(), self.spec_span().spec_end()),
        ensures
            !self.spec_span().spec_inside(text.spec_bytes()) ==> r is Err,
            self.spec_span().spec_inside(text.spec_bytes()) ==> r is Ok
                && r->Ok_0.spec_bytes() =~= text.spec_bytes().subrange(
                self.spec_span().start as int,
                self.spec_span().spec_end(),
            ),
    {
        self.span.get_span_text(text)
    }
}

/// What went wrong while reading the source.
#[derive(Debug, Clone)]
pub enum ParseError {
    UnexpectedToken(String),
    MissingToken(String),
    SemanticError(String),
    WrongNumberOfArguments(usize, Vec<String>),
}

impl ParseError {
    /// The message of the error.
    pub open spec fn spec_message(self) -> Seq<char> {
        match self {
            ParseError::UnexpectedToken(s) => "Unexpected token: \""@ + s@ + "\""@,
            ParseError::MissingToken(s) => "Missing token: \""@ + s@ + "\""@,
            ParseError::SemanticError(s) => "Semantic error: \""@ + s@ + "\""@,
            ParseError::WrongNumberOfArguments(got, expected) => "Wrong number of arguments: got "@
                + decimal(got as nat) + ", expected "@ + decimal(expected@.len()) + ": ("@ + join(
                views(expected@),
                ", "@,
            ) + ")"@,
        }
    }

    /// Renders the message of the error.
    pub fn to_string(&self) -> (r: String)
        ensures
            r@ == self.spec_message(),
    {
        match self {
            ParseError::UnexpectedToken(s) => {
                let mut r = String::from_str("Unexpected token: \"");
                r.append(s.as_str());
                r.append("\"");
                r
            },
            ParseError::MissingToken(s) => {
                let mut r = String::from_str("Missing token: \"");
                r.append(s.as_str());
                r.append("\"");
                r
            },
            ParseError::SemanticError(s) => {
                let mut r = String::from_str("Semantic error: \"");
                r.append(s.as_str());
                r.append("\"");
                r
            },
            ParseError::WrongNumberOfArguments(got, expected) => {
                let mut r = String::from_str("Wrong number of arguments: got ");
                r.append(usize_to_decimal(*got).as_str());
                r.append(", expected ");
                r.append(usize_to_decimal(expected.len()).as_str());
                r.append(": (");
                r.append(join_strings(expected, ", ").as_str());
                r.append(")");
                r
            },
        }
    }
}

/// A parse error with the region of the source it concerns and, unless
/// left out, that region's text.
pub struct CompilationError {
    kind: ParseError,
    span: InputSpan,
    text: String,
}

impl CompilationError {
    /// The kind of error.
    pub closed spec fn spec_kind(self) -> ParseError {
        self.kind
    }

    /// The source region.
    pub closed spec fn spec_span(self) -> InputSpan {
        self.span
    }

    /// The offending text.
    pub closed spec fn spec_text(self) -> Seq<char> {
        self.text@
    }

    /// The full message: where the error is, then what it is.
    pub open spec fn spec_message(self) -> Seq<char> {
        "Error at line "@ + decimal(self.spec_span().start_line as nat) + ":"@ + decimal(
            self.spec_span().start_column as nat,
        ) + " to "@ + decimal(self.spec_span().end_line as nat) + ":"@ + decimal(
            self.spec_span().end_column as nat,
        ) + "\n\t"@ + self.spec_kind().spec_message() + " "@ + self.spec_text()
    }

    /// The short message: what the error is and the offending text.
    pub open spec fn spec_error_message(self) -> Seq<char> {
        self.spec_kind().spec_message() + " "@ + self.spec_text()
    }

    /// Builds an error from its parts.
    pub fn new(kind: ParseError, span: InputSpan, text: String) -> (r: Self)
        ensures
            r.spec_kind() == kind,
            r.spec_span() == span,
            r.spec_text() == text@,
    {
        CompilationError { kind, span, text }
    }

    /// Renders the error with its position.
    pub fn to_string(&self) -> (r: String)
        ensures
            r@ == self.spec_message(),
    {
        let mut r = String::from_str("Error at line ");
        r.append(usize_to_decimal(self.span.start_line).as_str());
        r.append(":");
        r.append(usize_to_decimal(self.span.start_column).as_str());
        r.append(" to ");
        r.append(usize_to_decimal(self.span.end_line).as_str());
        r.append(":");
        r.append(usize_to_decimal(self.span.end_column).as_str());
        r.append("\n\t");
        r.append(self.kind.to_string().as_str());
        r.append(" ");
        r.append(self.text.as_str());
        r
    }

    /// Renders the error without its position.
    pub fn to_error_string(&self) -> (r: String)
        ensures
            r@ == self.spec_error_message(),
    {
        let mut r = self.kind.to_string();
        r.append(" ");
        r.append(self.text.as_str());
        r
    }
}

} // verus!
