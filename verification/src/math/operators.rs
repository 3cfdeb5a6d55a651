//! The arithmetic and logic operators of the language: their binding
//! strength, associativity, and textual and LaTeX forms.
use vstd::prelude::*;
use crate::text::{str_eq, views};

verus! {

/// Every operator of the language, binary and unary.
#[derive(Debug, PartialEq, Eq, Structural, Clone, Copy)]
pub enum Operator {
    Add,
    Sub,
    Mul,
    Div,
    Neg,
    And,
    Or,
    Xor,
    Implies,
    Iff,
    Not,
}

impl Operator {
    /// Binding strength; a higher value binds tighter.
    pub open spec fn spec_precedence(self) -> u8 {
        match self {
            Operator::Implies | Operator::Iff => 1,
            Operator::Or => 2,
            Operator::Xor => 3,
            Operator::And => 4,
            Operator::Add | Operator::Sub => 5,
            Operator::Mul | Operator::Div => 6,
            Operator::Neg | Operator::Not => 7,
        }
    }

    /// Whether `a op b op c` groups as `(a op b) op c`.
    pub open spec fn spec_is_left_associative(self) -> bool {
        match self {
            Operator::Add | Operator::Sub | Operator::Mul | Operator::Div => true,
            Operator::And | Operator::Or | Operator::Xor | Operator::Iff => true,
            Operator::Implies => false,
            Operator::Neg | Operator::Not => false,
        }
    }

    /// The source text of the operator.
    pub open spec fn spec_text(self) -> Seq<char> {
        match self {
            Operator::Add => "+"@,
            Operator::Sub => "-"@,
            Operator::Mul => "*"@,
            Operator::Div => "/"@,
            Operator::Neg => "-"@,
            Operator::And => "and"@,
            Operator::Or => "or"@,
            Operator::Xor => "xor"@,
            Operator::Implies => "implies"@,
            Operator::Iff => "iff"@,
            Operator::Not => "not"@,
        }
    }

    /// The list of all operators, in declaration order.
    pub open spec fn spec_kinds() -> Seq<Operator> {
        seq![
            Operator::Add, Operator::Sub, Operator::Mul, Operator::Div, Operator::Neg,
            Operator::And, Operator::Or, Operator::Xor, Operator::Implies, Operator::Iff,
            Operator::Not,
        ]
    }

    /// Returns the precedence level of the operator.
    pub fn precedence(&self) -> (r: u8)
        ensures
            r == self.spec_precedence(),
    {
        match self {
            Operator::Implies | Operator::Iff => 1,
            Operator::Or => 2,
            Operator::Xor => 3,
            Operator::And => 4,
            Operator::Add | Operator::Sub => 5,
            Operator::Mul | Operator::Div => 6,
            Operator::Neg | Operator::Not => 7,
        }
    }

    /// Determines if the operator is left associative.
    pub fn is_left_associative(&self) -> (r: bool)
        ensures
            r == self.spec_is_left_associative(),
    {
        match self {
            Operator::Add | Operator::Sub | Operator::Mul | Operator::Div => true,
            Operator::And | Operator::Or | Operator::Xor | Operator::Iff => true,
            Operator::Implies => false,
            Operator::Neg | Operator::Not => false,
        }
    }

    /// Renders the operator as it is written in a model.
    pub fn to_string(&self) -> (r: String)
        ensures
            r@ == self.spec_text(),
    {
        match self {
            Operator::Add => String::from_str("+"),
            Operator::Sub => String::from_str("-"),
            Operator::Mul => String::from_str("*"),
            Operator::Div => String::from_str("/"),
            Operator::Neg => String::from_str("-"),
            Operator::And => String::from_str("and"),
            Operator::Or => String::from_str("or"),
            Operator::Xor => String::from_str("xor"),
            Operator::Implies => String::from_str("implies"),
            Operator::Iff => String::from_str("iff"),
            Operator::Not => String::from_str("not"),
        }
    }

    /// All operators, in declaration order.
    pub fn kinds() -> (r: Vec<Operator>)
        ensures
            r@ == Self::spec_kinds(),
    {
        vec![
            Operator::Add, Operator::Sub, Operator::Mul, Operator::Div, Operator::Neg,
            Operator::And, Operator::Or, Operator::Xor, Operator::Implies, Operator::Iff,
            Operator::Not,
        ]
    }

    /// The texts of all the Operator kinds, in declaration order.
    pub fn kinds_to_string() -> (r: Vec<String>)
        ensures
            views(r@) == Self::spec_kinds().map_values(|k: Operator| k.spec_text()),
    {
        let kinds = Self::kinds();
        let mut out: Vec<String> = Vec::new();
        let mut i: usize = 0;
        while i < kinds.len()
            invariant
                i <= kinds.len(),
                kinds@ == Self::spec_kinds(),
                out@.len() == i,
                forall|j: int| 0 <= j < i ==> #[trigger] out@[j]@ == kinds@[j].spec_text(),
            decreases kinds.len() - i,
        {
            out.push(kinds[i].to_string());
            i += 1;
        }
        proof {
            assert(views(out@) =~= Self::spec_kinds().map_values(|k: Operator| k.spec_text()));
        }
        out
    }
}

/// A binary operator.
#[derive(Debug, PartialEq, Eq, Structural, Clone, Copy)]
pub enum BinOp {
    Add,
    Sub,
    Mul,
    Div,
    And,
    Or,
    Xor,
    Implies,
    Iff,
}

impl BinOp {
    /// The general operator that this binary operator is.
    pub open spec fn spec_to_operator(self) -> Operator {
        match self {
            BinOp::Add => Operator::Add,
            BinOp::Sub => Operator::Sub,
            BinOp::Mul => Operator::Mul,
            BinOp::Div => Operator::Div,
            BinOp::And => Operator::And,
            BinOp::Or => Operator::Or,
            BinOp::Xor => Operator::Xor,
            BinOp::Implies => Operator::Implies,
            BinOp::Iff => Operator::Iff,
        }
    }

    /// Binding strength; a higher value binds tighter.
    pub open spec fn spec_precedence(self) -> u8 {
        match self {
            BinOp::Implies | BinOp::Iff => 1,
            BinOp::Or => 2,
            BinOp::Xor => 3,
            BinOp::And => 4,
            BinOp::Add | BinOp::Sub => 5,
            BinOp::Mul | BinOp::Div => 6,
        }
    }

    /// Whether `a op b op c` groups as `(a op b) op c`.
    pub open spec fn spec_is_left_associative(self) -> bool {
        match self {
            BinOp::Implies => false,
            _ => true,
        }
    }

    /// Whether the operator works on truth values.
    pub open spec fn spec_is_logic(self) -> bool {
        match self {
            BinOp::And | BinOp::Or | BinOp::Xor | BinOp::Implies | BinOp::Iff => true,
            BinOp::Add | BinOp::Sub | BinOp::Mul | BinOp::Div => false,
        }
    }

    /// The source text of the operator.
    pub open spec fn spec_text(self) -> Seq<char> {
        match self {
            BinOp::Add => "+"@,
            BinOp::Sub => "-"@,
            BinOp::Mul => "*"@,
            BinOp::Div => "/"@,
            BinOp::And => "and"@,
            BinOp::Or => "or"@,
            BinOp::Xor => "xor"@,
            BinOp::Implies => "implies"@,
            BinOp::Iff => "iff"@,
        }
    }

    /// The LaTeX command of the operator.
    pub open spec fn spec_latex(self) -> Seq<char> {
        match self {
            BinOp::Add => "+"@,
            BinOp::Sub => "-"@,
            BinOp::Mul => "\\cdot"@,
            BinOp::Div => "\\div"@,
            BinOp::And => "\\land"@,
            BinOp::Or => "\\lor"@,
            BinOp::Xor => "\\oplus"@,
            BinOp::Implies => "\\Rightarrow"@,
            BinOp::Iff => "\\Leftrightarrow"@,
        }
    }

    /// The operator whose source text is `s`, if any.
    pub open spec fn spec_from_text(s: Seq<char>) -> Option<BinOp> {
        if s == "+"@ {
            Some(BinOp::Add)
        } else if s == "-"@ {
            Some(BinOp::Sub)
        } else if s == "*"@ {
            Some(BinOp::Mul)
        } else if s == "/"@ {
            Some(BinOp::Div)
        } else if s == "and"@ {
            Some(BinOp::And)
        } else if s == "or"@ {
            Some(BinOp::Or)
        } else if s == "xor"@ {
            Some(BinOp::Xor)
        } else if s == "implies"@ {
            Some(BinOp::Implies)
        } else if s == "iff"@ {
            Some(BinOp::Iff)
        } else {
            None
        }
    }

    /// The list of all binary operators, in declaration order.
    pub open spec fn spec_kinds() -> Seq<BinOp> {
        seq![
            BinOp::Add, BinOp::Sub, BinOp::Mul, BinOp::Div, BinOp::And, BinOp::Or,
            BinOp::Xor, BinOp::Implies, BinOp::Iff,
        ]
    }

    /// Returns the precedence level of the binary operator.
    pub fn precedence(&self) -> (r: u8)
        ensures
            r == self.spec_precedence(),
    {
        match self {
            BinOp::Implies | BinOp::Iff => 1,
            BinOp::Or => 2,
            BinOp::Xor => 3,
            BinOp::And => 4,
            BinOp::Add | BinOp::Sub => 5,
            BinOp::Mul | BinOp::Div => 6,
        }
    }

    /// Determines if the binary operator is left associative.
    pub fn is_left_associative(&self) -> (r: bool)
        ensures
            r == self.spec_is_left_associative(),
    {
        match self {
            BinOp::Add | BinOp::Sub | BinOp::Mul | BinOp::Div => true,
            BinOp::And | BinOp::Or | BinOp::Xor | BinOp::Iff => true,
            BinOp::Implies => false,
        }
    }

    /// Returns true if the operator is a logic operator.
    pub fn is_logic(&self) -> (r: bool)
        ensures
            r == self.spec_is_logic(),
    {
        match self {
            BinOp::And | BinOp::Or | BinOp::Xor | BinOp::Implies | BinOp::Iff => true,
            BinOp::Add | BinOp::Sub | BinOp::Mul | BinOp::Div => false,
        }
    }

    /// Converts a binary operator to the corresponding general operator.
    pub fn to_operator(&self) -> (r: Operator)
        ensures
            r == self.spec_to_operator(),
    {
        match self {
            BinOp::Add => Operator::Add,
            BinOp::Sub => Operator::Sub,
            BinOp::Mul => Operator::Mul,
            BinOp::Div => Operator::Div,
            BinOp::And => Operator::And,
            BinOp::Or => Operator::Or,
            BinOp::Xor => Operator::Xor,
            BinOp::Implies => Operator::Implies,
            BinOp::Iff => Operator::Iff,
        }
    }

    /// Renders the operator as it is written in a model.
    pub fn to_string(&self) -> (r: String)
        ensures
            r@ == self.spec_text(),
    {
        match self {
            BinOp::Add => String::from_str("+"),
            BinOp::Sub => String::from_str("-"),
            BinOp::Mul => String::from_str("*"),
            BinOp::Div => String::from_str("/"),
            BinOp::And => String::from_str("and"),
            BinOp::Or => String::from_str("or"),
            BinOp::Xor => String::from_str("xor"),
            BinOp::Implies => String::from_str("implies"),
            BinOp::Iff => String::from_str("iff"),
        }
    }

    /// Renders the operator as a LaTeX command.
    pub fn to_latex(&self) -> (r: String)
        ensures
            r@ == self.spec_latex(),
    {
        match self {
            BinOp::Add => String::from_str("+"),
            BinOp::Sub => String::from_str("-"),
            BinOp::Mul => String::from_str("\\cdot"),
            BinOp::Div => String::from_str("\\div"),
            BinOp::And => String::from_str("\\land"),
            BinOp::Or => String::from_str("\\lor"),
            BinOp::Xor => String::from_str("\\oplus"),
            BinOp::Implies => String::from_str("\\Rightarrow"),
            BinOp::Iff => String::from_str("\\Leftrightarrow"),
        }
    }

    /// Reads an operator from its source text; `Err(())` for any other text.
    pub fn from_str(s: &str) -> (r: Result<BinOp, ()>)
        ensures
            r == (match Self::spec_from_text(s@) {
                Some(op) => Ok(op),
                None => Err(()),
            }),
    {
        if str_eq(s, "+") {
            Ok(BinOp::Add)
        } else if str_eq(s, "-") {
            Ok(BinOp::Sub)
        } else if str_eq(s, "*") {
            Ok(BinOp::Mul)
        } else if str_eq(s, "/") {
            Ok(BinOp::Div)
        } else if str_eq(s, "and") {
            Ok(BinOp::And)
        } else if str_eq(s, "or") {
            Ok(BinOp::Or)
        } else if str_eq(s, "xor") {
            Ok(BinOp::Xor)
        } else if str_eq(s, "implies") {
            Ok(BinOp::Implies)
        } else if str_eq(s, "iff") {
            Ok(BinOp::Iff)
        } else {
            Err(())
        }
    }

    /// All binary operators, in declaration order.
    pub fn kinds() -> (r: Vec<BinOp>)
        ensures
            r@ == Self::spec_kinds(),
    {
        vec![
            BinOp::Add, BinOp::Sub, BinOp::Mul, BinOp::Div, BinOp::And, BinOp::Or,
            BinOp::Xor, BinOp::Implies, BinOp::Iff,
        ]
    }

    /// The texts of all the BinOp kinds, in declaration order.
    pub fn kinds_to_string() -> (r: Vec<String>)
        ensures
            views(r@) == Self::spec_kinds().map_values(|k: BinOp| k.spec_text()),
    {
        let kinds = Self::kinds();
        let mut out: Vec<String> = Vec::new();
        let mut i: usize = 0;
        while i < kinds.len()
            invariant
                i <= kinds.len(),
                kinds@ == Self::spec_kinds(),
                out@.len() == i,
                forall|j: int| 0 <= j < i ==> #[trigger] out@[j]@ == kinds@[j].spec_text(),
            decreases kinds.len() - i,
        {
            out.push(kinds[i].to_string());
            i += 1;
        }
        proof {
            assert(views(out@) =~= Self::spec_kinds().map_values(|k: BinOp| k.spec_text()));
        }
        out
    }
}

/// A unary operator.
#[derive(Debug, PartialEq, Eq, Structural, Clone, Copy)]
pub enum UnOp {
    Neg,
    Not,
}

impl UnOp {
    /// The general operator that this unary operator is.
    pub open spec fn spec_to_operator(self) -> Operator {
        match self {
            UnOp::Neg => Operator::Neg,
            UnOp::Not => Operator::Not,
        }
    }

    /// The source text of the operator, as it is printed before its operand.
    pub open spec fn spec_text(self) -> Seq<char> {
        match self {
            UnOp::Neg => "-"@,
            UnOp::Not => "not "@,
        }
    }

    /// The LaTeX command of the operator.
    pub open spec fn spec_latex(self) -> Seq<char> {
        match self {
            UnOp::Neg => "-"@,
            UnOp::Not => "\\lnot "@,
        }
    }

    /// The operator whose keyword is `s`, if any.
    pub open spec fn spec_from_text(s: Seq<char>) -> Option<UnOp> {
        if s == "-"@ {
            Some(UnOp::Neg)
        } else if s == "not"@ {
            Some(UnOp::Not)
        } else {
            None
        }
    }

    /// Returns the precedence level of the unary operator.
    pub fn precedence(&self) -> (r: u8)
        ensures
            r == 7,
    {
        match self {
            UnOp::Neg | UnOp::Not => 7,
        }
    }

    /// Unary operators are never left associative.
    pub fn is_left_associative(&self) -> (r: bool)
        ensures
            r == false,
    {
        match self {
            UnOp::Neg | UnOp::Not => false,
        }
    }

    /// Converts a unary operator to the corresponding general operator.
    pub fn to_operator(&self) -> (r: Operator)
        ensures
            r == self.spec_to_operator(),
    {
        match self {
            UnOp::Neg => Operator::Neg,
            UnOp::Not => Operator::Not,
        }
    }

    /// Renders the operator as it is printed before its operand.
    pub fn to_string(&self) -> (r: String)
        ensures
            r@ == self.spec_text(),
    {
        match self {
            UnOp::Neg => String::from_str("-"),
            UnOp::Not => String::from_str("not "),
        }
    }

    /// Renders the operator as a LaTeX command.
    pub fn to_latex(&self) -> (r: String)
        ensures
            r@ == self.spec_latex(),
    {
        match self {
            UnOp::Neg => String::from_str("-"),
            UnOp::Not => String::from_str("\\lnot "),
        }
    }

    /// Reads an operator from its keyword; `Err(())` for any other text.
    pub fn from_str(s: &str) -> (r: Result<UnOp, ()>)
        ensures
            r == (match Self::spec_from_text(s@) {
                Some(op) => Ok(op),
                None => Err(()),
            }),
    {
        if str_eq(s, "-") {
            Ok(UnOp::Neg)
        } else if str_eq(s, "not") {
            Ok(UnOp::Not)
        } else {
            Err(())
        }
    }

    /// The list of all unary operators, in declaration order.
    pub open spec fn spec_kinds() -> Seq<UnOp> {
        seq![UnOp::Neg, UnOp::Not]
    }

    /// All unary operators, in declaration order.
    pub fn kinds() -> (r: Vec<UnOp>)
        ensures
            r@ == Self::spec_kinds(),
    {
        vec![UnOp::Neg, UnOp::Not]
    }

    /// The texts of all the UnOp kinds, in declaration order.
    pub fn kinds_to_string() -> (r: Vec<String>)
        ensures
            views(r@) == Self::spec_kinds().map_values(|k: UnOp| k.spec_text()),
    {
        let kinds = Self::kinds();
        let mut out: Vec<String> = Vec::new();
        let mut i: usize = 0;
        while i < kinds.len()
            invariant
                i <= kinds.len(),
                kinds@ == Self::spec_kinds(),
                out@.len() == i,
                forall|j: int| 0 <= j < i ==> #[trigger] out@[j]@ == kinds@[j].spec_text(),
            decreases kinds.len() - i,
        {
            out.push(kinds[i].to_string());
            i += 1;
        }
        proof {
            assert(views(out@) =~= Self::spec_kinds().map_values(|k: UnOp| k.spec_text()));
        }
        out
    }
}

/// Converting a binary operator to a general operator keeps its binding
/// strength and its associativity.
pub proof fn lemma_bin_op_to_operator_keeps_precedence(op: BinOp)
    ensures
        op.spec_to_operator().spec_precedence() == op.spec_precedence(),
        op.spec_to_operator().spec_is_left_associative() == op.spec_is_left_associative(),
        op.spec_to_operator().spec_text() == op.spec_text(),
{
}

/// Converting a unary operator to a general operator keeps its binding
/// strength (the tightest of all) and its right associativity.
pub proof fn lemma_un_op_to_operator_keeps_precedence(op: UnOp)
    ensures
        op.spec_to_operator().spec_precedence() == 7,
        !op.spec_to_operator().spec_is_left_associative(),
{
}

/// Every arithmetic operator binds tighter than every logic operator, and
/// unary operators bind tighter than every binary operator.
pub proof fn lemma_arithmetic_binds_tighter_than_logic(a: BinOp, l: BinOp)
    requires
        !a.spec_is_logic(),
        l.spec_is_logic(),
    ensures
        a.spec_precedence() > l.spec_precedence(),
        a.spec_precedence() < 7,
{
}

/// Reading back the text of a binary operator gives the operator.
pub proof fn lemma_bin_op_text_round_trip(op: BinOp)
    ensures
        BinOp::spec_from_text(op.spec_text()) == Some(op),
{
    reveal_strlit("+");
    reveal_strlit("-");
    reveal_strlit("*");
    reveal_strlit("/");
    reveal_strlit("and");
    reveal_strlit("or");
    reveal_strlit("xor");
    reveal_strlit("implies");
    reveal_strlit("iff");
    assert("+"@.len() == 1 && "+"@[0] == '+');
    assert("-"@.len() == 1 && "-"@[0] == '-');
    assert("*"@.len() == 1 && "*"@[0] == '*');
    assert("/"@.len() == 1 && "/"@[0] == '/');
    assert("and"@.len() == 3 && "and"@[0] == 'a');
    assert("or"@.len() == 2 && "or"@[0] == 'o');
    assert("xor"@.len() == 3 && "xor"@[0] == 'x');
    assert("implies"@.len() == 7 && "implies"@[0] == 'i');
    assert("iff"@.len() == 3 && "iff"@[0] == 'i');
}

/// Reading back the keyword of a unary operator gives the operator
/// (negation is printed as `-`; `not` is printed with a trailing space that
/// its keyword does not have).
pub proof fn lemma_un_op_text_round_trip(op: UnOp)
    ensures
        UnOp::spec_from_text(op.spec_text()) == (match op {
            UnOp::Neg => Some(UnOp::Neg),
            UnOp::Not => None,
        }),
        UnOp::spec_from_text("not"@) == Some(UnOp::Not),
{
    reveal_strlit("-");
    reveal_strlit("not");
    reveal_strlit("not ");
    assert("not"@.len() == 3);
    assert("-"@.len() == 1);
    assert("not "@.len() == 4);
    assert("not"@ != "-"@);
    assert("not "@ != "-"@);
    assert("not "@ != "not"@);
}

/// The LaTeX forms of the operators tell them apart, and `+` and `-` (as
/// well as negation) are written in LaTeX as in the source.
pub proof fn lemma_latex_forms(a: BinOp, b: BinOp, u: UnOp, v: UnOp)
    ensures
        a != b ==> a.spec_latex() != b.spec_latex(),
        (a == BinOp::Add || a == BinOp::Sub) ==> a.spec_latex() == a.spec_text(),
        u != v ==> u.spec_latex() != v.spec_latex(),
        UnOp::Neg.spec_latex() == UnOp::Neg.spec_text(),
{
    reveal_strlit("+");
    reveal_strlit("-");
    reveal_strlit("\\cdot");
    reveal_strlit("\\div");
    reveal_strlit("\\land");
    reveal_strlit("\\lor");
    reveal_strlit("\\oplus");
    reveal_strlit("\\Rightarrow");
    reveal_strlit("\\Leftrightarrow");
    reveal_strlit("\\lnot ");
    assert("+"@.len() == 1 && "+"@[0] == '+');
    assert("-"@.len() == 1 && "-"@[0] == '-');
    assert("\\cdot"@.len() == 5 && "\\cdot"@[1] == 'c');
    assert("\\div"@.len() == 4 && "\\div"@[1] == 'd');
    assert("\\land"@.len() == 5 && "\\land"@[1] == 'l');
    assert("\\lor"@.len() == 4 && "\\lor"@[1] == 'l');
    assert("\\oplus"@.len() == 6 && "\\oplus"@[1] == 'o');
    assert("\\Rightarrow"@.len() == 11 && "\\Rightarrow"@[1] == 'R');
    assert("\\Leftrightarrow"@.len() == 15 && "\\Leftrightarrow"@[1] == 'L');
    assert("\\lnot "@.len() == 6);
}

} // verus!
