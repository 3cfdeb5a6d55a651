//! The token grammar of the first version of the language:
//!
//! ```text
//! blank      [ \t]+            (skipped)
//! objective  max | min
//! st         s.t.
//! variable   [a-zA-Z][a-zA-Z0-9]*
//! number     [0-9]+(\.[0-9])*  (read as a number: at most one dot)
//! operation  [+*/-]
//! relation   = | <= | < | > | >=
//! ( ) | , and the line break
//! ```
//!
//! At each position the longest match wins; on a tie a keyword wins over a
//! variable. The whole text, once trimmed of surrounding white space, must
//! be covered by tokens.
use vstd::prelude::*;
use crate::text::str_eq;

verus! {

/// An arithmetic operation.
#[derive(Debug, PartialEq, Eq, Structural, Clone, Copy)]
pub enum Operation {
    Add,
    Subtract,
    Multiply,
    Divide,
}

impl Operation {
    /// Binding strength: multiplication and division bind tighter.
    pub open spec fn spec_precedence(self) -> u8 {
        match self {
            Operation::Add | Operation::Subtract => 1,
            Operation::Multiply | Operation::Divide => 2,
        }
    }

    /// The operation written as `s`, if any.
    pub open spec fn spec_from_text(s: Seq<char>) -> Option<Operation> {
        if s == "+"@ {
            Some(Operation::Add)
        } else if s == "-"@ {
            Some(Operation::Subtract)
        } else if s == "*"@ {
            Some(Operation::Multiply)
        } else if s == "/"@ {
            Some(Operation::Divide)
        } else {
            None
        }
    }

    /// The binding strength of the operation.
    pub fn get_precedence(&self) -> (r: u8)
        ensures
            r == self.spec_precedence(),
    {
        match self {
            Operation::Add => 1,
            Operation::Subtract => 1,
            Operation::Multiply => 2,
            Operation::Divide => 2,
        }
    }

    /// Reads an operation from its symbol; `Err(())` for any other text.
    pub fn from_str(s: &str) -> (r: Result<Operation, ()>)
        ensures
            r == (match Self::spec_from_text(s@) {
                Some(o) => Ok(o),
                None => Err(()),
            }),
    {
        if str_eq(s, "+") {
            Ok(Operation::Add)
        } else if str_eq(s, "-") {
            Ok(Operation::Subtract)
        } else if str_eq(s, "*") {
            Ok(Operation::Multiply)
        } else if str_eq(s, "/") {
            Ok(Operation::Divide)
        } else {
            Err(())
        }
    }
}

/// The direction of the objective.
#[derive(Debug, PartialEq, Eq, Structural, Clone, Copy)]
pub enum ObjectiveType {
    Min,
    Max,
}

impl ObjectiveType {
    /// The direction written as `s`, if any.
    pub open spec fn spec_from_text(s: Seq<char>) -> Option<ObjectiveType> {
        if s == "min"@ {
            Some(ObjectiveType::Min)
        } else if s == "max"@ {
            Some(ObjectiveType::Max)
        } else {
            None
        }
    }

    /// Reads a direction from its keyword; `Err(())` for any other text.
    pub fn from_str(s: &str) -> (r: Result<ObjectiveType, ()>)
        ensures
            r == (match Self::spec_from_text(s@) {
                Some(o) => Ok(o),
                None => Err(()),
            }),
    {
        if str_eq(s, "min") {
            Ok(ObjectiveType::Min)
        } else if str_eq(s, "max") {
            Ok(ObjectiveType::Max)
        } else {
            Err(())
        }
    }
}

/// The relation of a constraint.
#[derive(Debug, PartialEq, Eq, Structural, Clone, Copy)]
pub enum ConstraintType {
    Lower,
    LowerOrEqual,
    Upper,
    UpperOrEqual,
    Equal,
}

impl ConstraintType {
    /// The relation written as `s`, if any.
    pub open spec fn spec_from_text(s: Seq<char>) -> Option<ConstraintType> {
        if s == "<"@ {
            Some(ConstraintType::Lower)
        } else if s == "<="@ {
            Some(ConstraintType::LowerOrEqual)
        } else if s == ">"@ {
            Some(ConstraintType::Upper)
        } else if s == ">="@ {
            Some(ConstraintType::UpperOrEqual)
        } else if s == "="@ {
            Some(ConstraintType::Equal)
        } else {
            None
        }
    }

    /// Reads a relation from its symbol; `Err(())` for any other text.
    pub fn from_str(s: &str) -> (r: Result<ConstraintType, ()>)
        ensures
            r == (match Self::spec_from_text(s@) {
                Some(c) => Ok(c),
                None => Err(()),
            }),
    {
        if str_eq(s, "<") {
            Ok(ConstraintType::Lower)
        } else if str_eq(s, "<=") {
            Ok(ConstraintType::LowerOrEqual)
        } else if str_eq(s, ">") {
            Ok(ConstraintType::Upper)
        } else if str_eq(s, ">=") {
            Ok(ConstraintType::UpperOrEqual)
        } else if str_eq(s, "=") {
            Ok(ConstraintType::Equal)
        } else {
            Err(())
        }
    }
}

/// A token of the source text. A number keeps its digits as written.
#[derive(Debug)]
pub enum Token {
    Objective(ObjectiveType),
    St,
    Variable(String),
    Number(String),
    Operation(Operation),
    Relation(ConstraintType),
    LParen,
    RParen,
    Modulus,
    Comma,
    Newline,
}

/// A token as a mathematical value.
pub enum TokenModel {
    Objective(ObjectiveType),
    St,
    Variable(Seq<char>),
    Number(Seq<char>),
    Operation(Operation),
    Relation(ConstraintType),
    LParen,
    RParen,
    Modulus,
    Comma,
    Newline,
}

impl View for Token {
    type V = TokenModel;

    open spec fn view(&self) -> TokenModel {
        match self {
            Token::Objective(o) => TokenModel::Objective(*o),
            Token::St => TokenModel::St,
            Token::Variable(s) => TokenModel::Variable(s@),
            Token::Number(s) => TokenModel::Number(s@),
            Token::Operation(o) => TokenModel::Operation(*o),
            Token::Relation(c) => TokenModel::Relation(*c),
            Token::LParen => TokenModel::LParen,
            Token::RParen => TokenModel::RParen,
            Token::Modulus => TokenModel::Modulus,
            Token::Comma => TokenModel::Comma,
            Token::Newline => TokenModel::Newline,
        }
    }
}

impl Token {
    /// A copy of the token.
    pub fn duplicate(&self) -> (r: Token)
        ensures
            r@ == self@,
    {
        match self {
            Token::Objective(o) => Token::Objective(*o),
            Token::St => Token::St,
            Token::Variable(s) => Token::Variable(s.clone()),
            Token::Number(s) => Token::Number(s.clone()),
            Token::Operation(o) => Token::Operation(*o),
            Token::Relation(c) => Token::Relation(*c),
            Token::LParen => Token::LParen,
            Token::RParen => Token::RParen,
            Token::Modulus => Token::Modulus,
            Token::Comma => Token::Comma,
            Token::Newline => Token::Newline,
        }
    }
}

/// The models of a list of tokens.
pub open spec fn token_models(v: Seq<Token>) -> Seq<TokenModel> {
    v.map_values(|t: Token| t@)
}

/// `[a-zA-Z]`
pub open spec fn is_letter(c: char) -> bool {
    ('a' <= c && c <= 'z') || ('A' <= c && c <= 'Z')
}

/// `[0-9]`
pub open spec fn is_digit(c: char) -> bool {
    '0' <= c && c <= '9'
}

/// `[ \t]`
pub open spec fn is_blank(c: char) -> bool {
    c == ' ' || c == '\t'
}

/// The end of the run of letters and digits of `s` that starts at `j`.
pub open spec fn alnum_end(s: Seq<char>, j: int) -> int
    decreases s.len() - j,
{
    if j < 0 || j >= s.len() {
        j
    } else if is_letter(s[j]) || is_digit(s[j]) {
        alnum_end(s, j + 1)
    } else {
        j
    }
}

/// The end of the run of digits of `s` that starts at `j`.
pub open spec fn digits_end(s: Seq<char>, j: int) -> int
    decreases s.len() - j,
{
    if j < 0 || j >= s.len() {
        j
    } else if is_digit(s[j]) {
        digits_end(s, j + 1)
    } else {
        j
    }
}

/// The end of the run of `.digit` pairs of `s` that starts at `j`.
pub open spec fn fraction_end(s: Seq<char>, j: int) -> int
    decreases s.len() - j,
{
    if 0 <= j && j + 1 < s.len() && s[j] == '.' && is_digit(s[j + 1]) {
        fraction_end(s, j + 2)
    } else {
        j
    }
}

/// Whether `s` starts with `prefix`.
pub open spec fn starts_with(s: Seq<char>, prefix: Seq<char>) -> bool {
    prefix.len() <= s.len() && s.subrange(0, prefix.len() as int) == prefix
}

/// The longest token at the start of `s` (which is not empty and does not
/// start with a blank) and its length, or `None` when no token starts
/// there or the number there has more than one dot.
pub open spec fn spec_next_token(s: Seq<char>) -> Option<(TokenModel, nat)> {
    let c = s[0];
    if is_letter(c) {
        let v = alnum_end(s, 1);
        if starts_with(s, "s.t."@) {
            Some((TokenModel::St, 4))
        } else if v == 3 && starts_with(s, "max"@) {
            Some((TokenModel::Objective(ObjectiveType::Max), 3))
        } else if v == 3 && starts_with(s, "min"@) {
            Some((TokenModel::Objective(ObjectiveType::Min), 3))
        } else {
            Some((TokenModel::Variable(s.subrange(0, v)), v as nat))
        }
    } else if is_digit(c) {
        let d = digits_end(s, 1);
        let e = fraction_end(s, d);
        if e - d <= 2 {
            Some((TokenModel::Number(s.subrange(0, e)), e as nat))
        } else {
            None
        }
    } else if c == '+' {
        Some((TokenModel::Operation(Operation::Add), 1))
    } else if c == '-' {
        Some((TokenModel::Operation(Operation::Subtract), 1))
    } else if c == '*' {
        Some((TokenModel::Operation(Operation::Multiply), 1))
    } else if c == '/' {
        Some((TokenModel::Operation(Operation::Divide), 1))
    } else if c == '=' {
        Some((TokenModel::Relation(ConstraintType::Equal), 1))
    } else if c == '<' {
        if s.len() > 1 && s[1] == '=' {
            Some((TokenModel::Relation(ConstraintType::LowerOrEqual), 2))
        } else {
            Some((TokenModel::Relation(ConstraintType::Lower), 1))
        }
    } else if c == '>' {
        if s.len() > 1 && s[1] == '=' {
            Some((TokenModel::Relation(ConstraintType::UpperOrEqual), 2))
        } else {
            Some((TokenModel::Relation(ConstraintType::Upper), 1))
        }
    } else if c == '(' {
        Some((TokenModel::LParen, 1))
    } else if c == ')' {
        Some((TokenModel::RParen, 1))
    } else if c == '|' {
        Some((TokenModel::Modulus, 1))
    } else if c == ',' {
        Some((TokenModel::Comma, 1))
    } else if c == '\n' {
        Some((TokenModel::Newline, 1))
    } else {
        None
    }
}

/// The tokens of `s`, blanks skipped, or `None` if some part of `s` is not
/// a token.
pub open spec fn spec_lex(s: Seq<char>) -> Option<Seq<TokenModel>>
    decreases s.len(),
{
    if s.len() == 0 {
        Some(seq![])
    } else if is_blank(s[0]) {
        spec_lex(s.drop_first())
    } else {
        match spec_next_token(s) {
            None => None,
            Some((t, n)) => if 0 < n <= s.len() {
                match spec_lex(s.skip(n as int)) {
                    Some(rest) => Some(seq![t] + rest),
                    None => None,
                }
            } else {
                None
            },
        }
    }
}

/// Whether a character is white space: it has the Unicode `White_Space`
/// property, which holds of exactly these 25 code points.
pub open spec fn is_white_space(c: char) -> bool {
    let u = c as u32;
    (0x09 <= u <= 0x0D) || u == 0x20 || u == 0x85 || u == 0xA0 || u == 0x1680 || (0x2000 <= u <= 0x200A)
        || u == 0x2028 || u == 0x2029 || u == 0x202F || u == 0x205F || u == 0x3000
}

/// `char::is_whitespace`: whether the character has the Unicode
/// `White_Space` property, as its documentation says; the contract lists
/// the code points that have it.
#[verifier::external_body]
fn char_is_whitespace(c: char) -> (r: bool)
    ensures
        r == is_white_space(c),
{
    c.is_whitespace()
}

/// The index of the first character of `s` at or after `i` that is not
/// white space (or the length of `s`).
pub open spec fn first_non_space(s: Seq<char>, i: int) -> int
    decreases s.len() - i,
{
    if i < 0 || i >= s.len() {
        i
    } else if is_white_space(s[i]) {
        first_non_space(s, i + 1)
    } else {
        i
    }
}

/// The index just past the last character of `s[..j]` that is not white
/// space, but not below `lo`.
pub open spec fn last_non_space_end(s: Seq<char>, lo: int, j: int) -> int
    decreases j - lo,
{
    if j <= lo || j > s.len() {
        j
    } else if is_white_space(s[j - 1]) {
        last_non_space_end(s, lo, j - 1)
    } else {
        j
    }
}

/// `s` without its leading and trailing white space, as `str::trim` gives it.
pub open spec fn spec_trim(s: Seq<char>) -> Seq<char> {
    let a = first_non_space(s, 0);
    s.subrange(a, last_non_space_end(s, a, s.len() as int))
}

/// Removes leading and trailing white space, as `str::trim` does.
pub fn trim(s: &str) -> (r: String)
    ensures
        r@ == spec_trim(s@),
{
    let n = s.unicode_len();
    let mut a: usize = 0;
    while a < n && char_is_whitespace(s.get_char(a))
        invariant
            n == s@.len(),
            a <= n,
            first_non_space(s@, a as int) == first_non_space(s@, 0),
        decreases n - a,
    {
        a += 1;
    }
    let mut b: usize = n;
    while b > a && char_is_whitespace(s.get_char(b - 1))
        invariant
            n == s@.len(),
            a <= b <= n,
            a == first_non_space(s@, 0),
            last_non_space_end(s@, a as int, b as int) == last_non_space_end(
                s@,
                a as int,
                n as int,
            ),
        decreases b,
    {
        b -= 1;
    }
    String::from_str(s.substring_char(a, b))
}

fn char_is_digit(c: char) -> (r: bool)
    ensures
        r == is_digit(c),
{
    '0' <= c && c <= '9'
}

fn char_is_alnum(c: char) -> (r: bool)
    ensures
        r == (is_letter(c) || is_digit(c)),
{
    ('a' <= c && c <= 'z') || ('A' <= c && c <= 'Z') || ('0' <= c && c <= '9')
}

proof fn lemma_alnum_end_bounds(s: Seq<char>, j: int)
    requires
        0 <= j <= s.len(),
    ensures
        j <= alnum_end(s, j) <= s.len(),
    decreases s.len() - j,
{
    if j < s.len() && (is_letter(s[j]) || is_digit(s[j])) {
        lemma_alnum_end_bounds(s, j + 1);
    }
}

proof fn lemma_digits_end_bounds(s: Seq<char>, j: int)
    requires
        0 <= j <= s.len(),
    ensures
        j <= digits_end(s, j) <= s.len(),
    decreases s.len() - j,
{
    if j < s.len() && is_digit(s[j]) {
        lemma_digits_end_bounds(s, j + 1);
    }
}

proof fn lemma_fraction_end_bounds(s: Seq<char>, j: int)
    requires
        0 <= j <= s.len(),
    ensures
        j <= fraction_end(s, j) <= s.len(),
    decreases s.len() - j,
{
    if j + 1 < s.len() && s[j] == '.' && is_digit(s[j + 1]) {
        lemma_fraction_end_bounds(s, j + 2);
    }
}

proof fn lemma_next_token_len(s: Seq<char>)
    requires
        s.len() > 0,
        spec_next_token(s) is Some,
    ensures
        0 < spec_next_token(s).unwrap().1 <= s.len(),
{
    reveal_strlit("s.t.");
    reveal_strlit("max");
    reveal_strlit("min");
    if is_letter(s[0]) {
        lemma_alnum_end_bounds(s, 1);
    } else if is_digit(s[0]) {
        lemma_digits_end_bounds(s, 1);
        lemma_fraction_end_bounds(s, digits_end(s, 1));
    }
}

/// Reads the longest token that starts at position `i` of `s`, with its
/// length.
fn next_token(s: &str, n: usize, i: usize) -> (r: Option<(Token, usize)>)
    requires
        n == s@.len(),
        i < n,
        !is_blank(s@[i as int]),
    ensures
        match (r, spec_next_token(s@.skip(i as int))) {
            (Some((t, k)), Some((tm, km))) => t@ == tm && k == km,
            (None, None) => true,
            _ => false,
        },
{
    let ghost t = s@.skip(i as int);
    let c = s.get_char(i);
    proof {
        reveal_strlit("s.t.");
        reveal_strlit("max");
        reveal_strlit("min");
        assert(t[0] == c);
        assert("s.t."@.len() == 4 && "s.t."@[0] == 's' && "s.t."@[1] == '.' && "s.t."@[2] == 't'
            && "s.t."@[3] == '.');
        assert("max"@.len() == 3 && "max"@[0] == 'm' && "max"@[1] == 'a' && "max"@[2] == 'x');
        assert("min"@.len() == 3 && "min"@[0] == 'm' && "min"@[1] == 'i' && "min"@[2] == 'n');
    }
    if ('a' <= c && c <= 'z') || ('A' <= c && c <= 'Z') {
        let mut j: usize = i + 1;
        while j < n && char_is_alnum(s.get_char(j))
            invariant
                n == s@.len(),
                i < j <= n,
                t == s@.skip(i as int),
                alnum_end(t, j - i) == alnum_end(t, 1),
            decreases n - j,
        {
            assert(t[j - i] == s@[j as int]);
            j += 1;
        }
        let v = j - i;
        proof {
            if j < n {
                assert(t[j - i] == s@[j as int]);
            }
            assert(alnum_end(t, v as int) == v);
        }
        if n - i > 3 && c == 's' && s.get_char(i + 1) == '.' && s.get_char(i + 2) == 't'
            && s.get_char(i + 3) == '.' {
            proof {
                assert(t.subrange(0, 4) =~= "s.t."@);
            }
            return Some((Token::St, 4));
        }
        proof {
            if starts_with(t, "s.t."@) {
                assert(t.subrange(0, 4)[1] == t[1]);
                assert(t[1] == s@[i + 1]);
                assert(t[2] == s@[i + 2]);
                assert(t[3] == s@[i + 3]);
                assert(t.subrange(0, 4)[2] == t[2]);
                assert(t.subrange(0, 4)[3] == t[3]);
                assert(false);
            }
        }
        if v == 3 && c == 'm' && s.get_char(i + 1) == 'a' && s.get_char(i + 2) == 'x' {
            proof {
                assert(t.subrange(0, 3) =~= "max"@);
            }
            return Some((Token::Objective(ObjectiveType::Max), 3));
        }
        if v == 3 && c == 'm' && s.get_char(i + 1) == 'i' && s.get_char(i + 2) == 'n' {
            proof {
                assert(t.subrange(0, 3) =~= "min"@);
            }
            return Some((Token::Objective(ObjectiveType::Min), 3));
        }
        proof {
            if v == 3 && starts_with(t, "max"@) {
                assert(t.subrange(0, 3)[1] == t[1]);
                assert(t.subrange(0, 3)[2] == t[2]);
                assert(t[1] == s@[i + 1]);
                assert(t[2] == s@[i + 2]);
                assert(false);
            }
            if v == 3 && starts_with(t, "min"@) {
                assert(t.subrange(0, 3)[1] == t[1]);
                assert(t.subrange(0, 3)[2] == t[2]);
                assert(t[1] == s@[i + 1]);
                assert(t[2] == s@[i + 2]);
                assert(false);
            }
            assert(s@.subrange(i as int, j as int) =~= t.subrange(0, v as int));
        }
        let name = String::from_str(s.substring_char(i, j));
        return Some((Token::Variable(name), v));
    }
    if '0' <= c && c <= '9' {
        let mut d: usize = i + 1;
        while d < n && char_is_digit(s.get_char(d))
            invariant
                n == s@.len(),
                i < d <= n,
                t == s@.skip(i as int),
                digits_end(t, d - i) == digits_end(t, 1),
            decreases n - d,
        {
            assert(t[d - i] == s@[d as int]);
            d += 1;
        }
        proof {
            if d < n {
                assert(t[d - i] == s@[d as int]);
            }
            assert(digits_end(t, d - i) == d - i);
        }
        let mut e: usize = d;
        while n - e > 1 && s.get_char(e) == '.' && char_is_digit(s.get_char(e + 1))
            invariant
                n == s@.len(),
                i < d <= e <= n,
                (e - d) % 2 == 0,
                t == s@.skip(i as int),
                fraction_end(t, e - i) == fraction_end(t, d - i),
            decreases n - e,
        {
            assert(t[e - i] == s@[e as int]);
            assert(t[e + 1 - i] == s@[e + 1]);
            e += 2;
        }
        proof {
            if n - e > 1 {
                assert(t[e - i] == s@[e as int]);
                assert(t[e + 1 - i] == s@[e + 1]);
            }
            assert(fraction_end(t, e - i) == e - i);
            assert(s@.subrange(i as int, e as int) =~= t.subrange(0, e - i));
        }
        if e - d <= 2 {
            let text = String::from_str(s.substring_char(i, e));
            return Some((Token::Number(text), e - i));
        } else {
            return None;
        }
    }
    if c == '<' || c == '>' {
        let followed_by_equal = i + 1 < n && s.get_char(i + 1) == '=';
        proof {
            if i + 1 < n {
                assert(t[1] == s@[i + 1]);
            }
        }
        if c == '<' {
            if followed_by_equal {
                return Some((Token::Relation(ConstraintType::LowerOrEqual), 2));
            } else {
                return Some((Token::Relation(ConstraintType::Lower), 1));
            }
        } else {
            if followed_by_equal {
                return Some((Token::Relation(ConstraintType::UpperOrEqual), 2));
            } else {
                return Some((Token::Relation(ConstraintType::Upper), 1));
            }
        }
    }
    if c == '+' {
        Some((Token::Operation(Operation::Add), 1))
    } else if c == '-' {
        Some((Token::Operation(Operation::Subtract), 1))
    } else if c == '*' {
        Some((Token::Operation(Operation::Multiply), 1))
    } else if c == '/' {
        Some((Token::Operation(Operation::Divide), 1))
    } else if c == '=' {
        Some((Token::Relation(ConstraintType::Equal), 1))
    } else if c == '(' {
        Some((Token::LParen, 1))
    } else if c == ')' {
        Some((Token::RParen, 1))
    } else if c == '|' {
        Some((Token::Modulus, 1))
    } else if c == ',' {
        Some((Token::Comma, 1))
    } else if c == '\n' {
        Some((Token::Newline, 1))
    } else {
        None
    }
}

/// Splits an already trimmed text into tokens; `Err(())` as soon as some
/// part of it is not a token.
pub fn lex(s: &str) -> (r: Result<Vec<Token>, ()>)
    ensures
        match (r, spec_lex(s@)) {
            (Ok(v), Some(ts)) => token_models(v@) == ts,
            (Err(_), None) => true,
            _ => false,
        },
{
    let n = s.unicode_len();
    let mut out: Vec<Token> = Vec::new();
    let mut i: usize = 0;
    proof {
        assert(s@.skip(0) =~= s@);
        match spec_lex(s@) {
            Some(ts) => {
                assert(token_models(out@) + ts =~= ts);
            },
            None => {},
        }
    }
    while i < n
        invariant
            n == s@.len(),
            i <= n,
            spec_lex(s@) == (match spec_lex(s@.skip(i as int)) {
                Some(rest) => Some(token_models(out@) + rest),
                None => None,
            }),
        decreases n - i,
    {
        let ghost rest = s@.skip(i as int);
        let c = s.get_char(i);
        assert(rest[0] == c);
        if c == ' ' || c == '\t' {
            assert(rest.drop_first() =~= s@.skip(i + 1));
            i += 1;
        } else {
            match next_token(s, n, i) {
                None => {
                    return Err(());
                },
                Some((tok, k)) => {
                    proof {
                        let (tm, km) = spec_next_token(rest).unwrap();
                        lemma_next_token_len(rest);
                        assert(rest.skip(km as int) =~= s@.skip(i + k));
                        assert(token_models(out@.push(tok)) =~= token_models(out@) + seq![tm]);
                    }
                    out.push(tok);
                    i += k;
                },
            }
        }
    }
    proof {
        assert(s@.skip(n as int) =~= Seq::<char>::empty());
        assert(token_models(out@) + Seq::<TokenModel>::empty() =~= token_models(out@));
    }
    Ok(out)
}

/// The tokens of a problem text.
pub struct Lexer {
    problem: String,
    tokens: Result<Vec<Token>, ()>,
}

impl Lexer {
    /// The problem text as given.
    pub closed spec fn spec_problem(self) -> Seq<char> {
        self.problem@
    }

    /// The tokens of the problem, or `None` when some part is not a token.
    pub closed spec fn spec_tokens(self) -> Option<Seq<TokenModel>> {
        match self.tokens {
            Ok(v) => Some(token_models(v@)),
            Err(_) => None,
        }
    }

    /// Lexes a problem text once it is trimmed of surrounding white space.
    pub fn new(problem: &str) -> (r: Lexer)
        ensures
            r.spec_problem() == problem@,
            r.spec_tokens() == spec_lex(spec_trim(problem@)),
    {
        let trimmed = trim(problem);
        let tokens = lex(trimmed.as_str());
        Lexer { problem: String::from_str(problem), tokens }
    }

    /// The tokens, or `Err(())` when some part of the problem is not a token.
    pub fn get_tokens(&self) -> (r: Result<Vec<Token>, ()>)
        ensures
            match (r, self.spec_tokens()) {
                (Ok(v), Some(ts)) => token_models(v@) == ts,
                (Err(_), None) => true,
                _ => false,
            },
    {
        match &self.tokens {
            Err(_) => Err(()),
            Ok(v) => {
                let mut out: Vec<Token> = Vec::new();
                let mut i: usize = 0;
                while i < v.len()
                    invariant
                        i <= v.len(),
                        out@.len() == i,
                        token_models(out@) == token_models(v@).take(i as int),
                    decreases v.len() - i,
                {
                    let t = v[i].duplicate();
                    proof {
                        assert(t@ == v@[i as int]@);
                        assert(token_models(out@.push(t)) =~= token_models(v@).take(i + 1));
                    }
                    out.push(t);
                    i += 1;
                }
                assert(token_models(v@).take(v.len() as int) =~= token_models(v@));
                Ok(out)
            },
        }
    }
}

/// An operation, relation or objective token reads back, through the
/// `from_str` of its kind, as the value it was lexed to, and a variable or
/// number token holds exactly the characters it covers; a token starting
/// with `+`, `-`, `*` or `/` is that one-character operation.
pub proof fn lemma_next_token_reads_back(s: Seq<char>)
    requires
        s.len() > 0,
    ensures
        match spec_next_token(s) {
            Some((TokenModel::Operation(o), k)) => 0 < k <= s.len() && Operation::spec_from_text(s.subrange(0, k as int))
                == Some(o),
            Some((TokenModel::Relation(r), k)) => 0 < k <= s.len() && ConstraintType::spec_from_text(
                s.subrange(0, k as int),
            ) == Some(r),
            Some((TokenModel::Objective(t), k)) => 0 < k <= s.len() && ObjectiveType::spec_from_text(
                s.subrange(0, k as int),
            ) == Some(t),
            Some((TokenModel::Variable(v), k)) => 0 < k <= s.len() && v == s.subrange(0, k as int),
            Some((TokenModel::Number(d), k)) => 0 < k <= s.len() && d == s.subrange(0, k as int),
            _ => true,
        },
        (s[0] == '+' || s[0] == '-' || s[0] == '*' || s[0] == '/') ==> (spec_next_token(s) matches Some(
            (TokenModel::Operation(_), k),
        ) && k == 1),
        (s[0] == '<' || s[0] == '>' || s[0] == '=') ==> (spec_next_token(s) matches Some((TokenModel::Relation(_), _))),
{
    reveal_strlit("+");
    reveal_strlit("-");
    reveal_strlit("*");
    reveal_strlit("/");
    reveal_strlit("<");
    reveal_strlit("<=");
    reveal_strlit(">");
    reveal_strlit(">=");
    reveal_strlit("=");
    reveal_strlit("min");
    reveal_strlit("max");
    reveal_strlit("s.t.");
    if spec_next_token(s) is Some {
        lemma_next_token_len(s);
    }
    let c = s[0];
    assert("+"@[0] == '+' && "-"@[0] == '-' && "*"@[0] == '*' && "/"@[0] == '/');
    assert("<"@[0] == '<' && ">"@[0] == '>' && "="@[0] == '=' && "<="@[0] == '<' && ">="@[0] == '>');
    assert("<"@.len() == 1 && ">"@.len() == 1 && "<="@.len() == 2 && ">="@.len() == 2);
    assert("min"@[1] == 'i' && "max"@[1] == 'a');
    if is_letter(c) {
        lemma_alnum_end_bounds(s, 1);
        if starts_with(s, "s.t."@) {
        } else if alnum_end(s, 1) == 3 && starts_with(s, "max"@) {
            assert(s.subrange(0, 3) == "max"@);
            assert(ObjectiveType::spec_from_text("max"@) == Some(ObjectiveType::Max));
        } else if alnum_end(s, 1) == 3 && starts_with(s, "min"@) {
            assert(s.subrange(0, 3) == "min"@);
        }
    } else if is_digit(c) {
        lemma_digits_end_bounds(s, 1);
        lemma_fraction_end_bounds(s, digits_end(s, 1));
    } else if c == '+' {
        assert(s.subrange(0, 1) =~= "+"@);
    } else if c == '-' {
        assert(s.subrange(0, 1) =~= "-"@);
        assert(s.subrange(0, 1) != "+"@);
    } else if c == '*' {
        assert(s.subrange(0, 1) =~= "*"@);
        assert(s.subrange(0, 1) != "+"@ && s.subrange(0, 1) != "-"@);
    } else if c == '/' {
        assert(s.subrange(0, 1) =~= "/"@);
        assert(s.subrange(0, 1) != "+"@ && s.subrange(0, 1) != "-"@ && s.subrange(0, 1) != "*"@);
    } else if c == '=' {
        assert(s.subrange(0, 1) =~= "="@);
        assert(s.subrange(0, 1) != "<"@ && s.subrange(0, 1) != "<="@ && s.subrange(0, 1) != ">"@ && s.subrange(0, 1) != ">="@);
    } else if c == '<' {
        if s.len() > 1 && s[1] == '=' {
            assert(s.subrange(0, 2) =~= "<="@);
            assert(s.subrange(0, 2) != "<"@);
        } else {
            assert(s.subrange(0, 1) =~= "<"@);
        }
    } else if c == '>' {
        if s.len() > 1 && s[1] == '=' {
            assert(s.subrange(0, 2) =~= ">="@);
            assert(s.subrange(0, 2) != "<"@ && s.subrange(0, 2) != "<="@ && s.subrange(0, 2) != ">"@);
        } else {
            assert(s.subrange(0, 1) =~= ">"@);
            assert(s.subrange(0, 1) != "<"@ && s.subrange(0, 1) != "<="@);
        }
    }
}

} // verus!
