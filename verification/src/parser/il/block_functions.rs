//! The functions of the language that take a block: those that iterate
//! over sets (`sum`, `prod`, ...) and those over a list of expressions.
use vstd::prelude::*;
use crate::text::{str_eq, views};

verus! {

/// A function applied over the iterations of one or more sets.
#[derive(Debug, PartialEq, Eq, Structural, Clone, Copy)]
pub enum BlockScopedFunctionKind {
    Sum,
    Prod,
    Min,
    Max,
    Avg,
}

impl BlockScopedFunctionKind {
    /// The name of the function in the source.
    pub open spec fn spec_text(self) -> Seq<char> {
        match self {
            BlockScopedFunctionKind::Sum => "sum"@,
            BlockScopedFunctionKind::Prod => "prod"@,
            BlockScopedFunctionKind::Min => "min"@,
            BlockScopedFunctionKind::Max => "max"@,
            BlockScopedFunctionKind::Avg => "avg"@,
        }
    }

    /// The LaTeX of the function.
    pub open spec fn spec_latex(self) -> Seq<char> {
        match self {
            BlockScopedFunctionKind::Sum => "\\sum"@,
            BlockScopedFunctionKind::Prod => "\\prod"@,
            BlockScopedFunctionKind::Min => "\\min"@,
            BlockScopedFunctionKind::Max => "\\max"@,
            BlockScopedFunctionKind::Avg => "avg"@,
        }
    }

    /// The function named `s`, if any.
    pub open spec fn spec_from_text(s: Seq<char>) -> Option<BlockScopedFunctionKind> {
        if s == "sum"@ {
            Some(BlockScopedFunctionKind::Sum)
        } else if s == "prod"@ {
            Some(BlockScopedFunctionKind::Prod)
        } else if s == "min"@ {
            Some(BlockScopedFunctionKind::Min)
        } else if s == "max"@ {
            Some(BlockScopedFunctionKind::Max)
        } else if s == "avg"@ {
            Some(BlockScopedFunctionKind::Avg)
        } else {
            None
        }
    }

    /// All the functions, in declaration order.
    pub open spec fn spec_kinds() -> Seq<BlockScopedFunctionKind> {
        seq![BlockScopedFunctionKind::Sum, BlockScopedFunctionKind::Prod, BlockScopedFunctionKind::Min, BlockScopedFunctionKind::Max, BlockScopedFunctionKind::Avg]
    }

    /// The name of the function in the source.
    pub fn to_string(&self) -> (r: String)
        ensures
            r@ == self.spec_text(),
    {
        match self {
            BlockScopedFunctionKind::Sum => String::from_str("sum"),
            BlockScopedFunctionKind::Prod => String::from_str("prod"),
            BlockScopedFunctionKind::Min => String::from_str("min"),
            BlockScopedFunctionKind::Max => String::from_str("max"),
            BlockScopedFunctionKind::Avg => String::from_str("avg"),
        }
    }

    /// The LaTeX of the function.
    pub fn to_latex(&self) -> (r: String)
        ensures
            r@ == self.spec_latex(),
    {
        match self {
            BlockScopedFunctionKind::Sum => String::from_str("\\sum"),
            BlockScopedFunctionKind::Prod => String::from_str("\\prod"),
            BlockScopedFunctionKind::Min => String::from_str("\\min"),
            BlockScopedFunctionKind::Max => String::from_str("\\max"),
            BlockScopedFunctionKind::Avg => String::from_str("avg"),
        }
    }

    /// Reads a function from its name; `Err(())` for any other text.
    pub fn from_str(s: &str) -> (r: Result<BlockScopedFunctionKind, ()>)
        ensures
            r == (match Self::spec_from_text(s@) {
                Some(k) => Ok(k),
                None => Err(()),
            }),
    {
        if str_eq(s, "sum") {
            Ok(BlockScopedFunctionKind::Sum)
        } else if str_eq(s, "prod") {
            Ok(BlockScopedFunctionKind::Prod)
        } else if str_eq(s, "min") {
            Ok(BlockScopedFunctionKind::Min)
        } else if str_eq(s, "max") {
            Ok(BlockScopedFunctionKind::Max)
        } else if str_eq(s, "avg") {
            Ok(BlockScopedFunctionKind::Avg)
        } else {
            Err(())
        }
    }

    /// All the functions, in declaration order.
    pub fn kinds() -> (r: Vec<BlockScopedFunctionKind>)
        ensures
            r@ == Self::spec_kinds(),
    {
        vec![BlockScopedFunctionKind::Sum, BlockScopedFunctionKind::Prod, BlockScopedFunctionKind::Min, BlockScopedFunctionKind::Max, BlockScopedFunctionKind::Avg]
    }

    /// The names of all the functions, in declaration order.
    pub fn kinds_to_string() -> (r: Vec<String>)
        ensures
            views(r@) == Self::spec_kinds().map_values(|k: BlockScopedFunctionKind| k.spec_text()),
    {
        let kinds = Self::kinds();
        let mut out: Vec<String> = Vec::new();
        let mut i: usize = 0;
        while i < kinds.len()
            invariant
                i <= kinds.len(),
                kinds@ == Self::spec_kinds(),
                out@.len() == i,
                forall|j: int| 0 <= j < i ==> #[trigger] out@[j]@ == kinds@[j].spec_text(),
            decreases kinds.len() - i,
        {
            out.push(kinds[i].to_string());
            i += 1;
        }
        proof {
            assert(views(out@) =~= Self::spec_kinds().map_values(|k: BlockScopedFunctionKind| k.spec_text()));
        }
        out
    }
}

/// A function applied to a list of expressions.
#[derive(Debug, PartialEq, Eq, Structural, Clone, Copy)]
pub enum BlockFunctionKind {
    Min,
    Max,
    Avg,
}

impl BlockFunctionKind {
    /// The name of the function in the source.
    pub open spec fn spec_text(self) -> Seq<char> {
        match self {
            BlockFunctionKind::Min => "min"@,
            BlockFunctionKind::Max => "max"@,
            BlockFunctionKind::Avg => "avg"@,
        }
    }

    /// The LaTeX of the function.
    pub open spec fn spec_latex(self) -> Seq<char> {
        match self {
            BlockFunctionKind::Min => "\\min"@,
            BlockFunctionKind::Max => "\\max"@,
            BlockFunctionKind::Avg => "avg"@,
        }
    }

    /// The function named `s`, if any.
    pub open spec fn spec_from_text(s: Seq<char>) -> Option<BlockFunctionKind> {
        if s == "min"@ {
            Some(BlockFunctionKind::Min)
        } else if s == "max"@ {
            Some(BlockFunctionKind::Max)
        } else if s == "avg"@ {
            Some(BlockFunctionKind::Avg)
        } else {
            None
        }
    }

    /// All the functions, in declaration order.
    pub open spec fn spec_kinds() -> Seq<BlockFunctionKind> {
        seq![BlockFunctionKind::Min, BlockFunctionKind::Max, BlockFunctionKind::Avg]
    }

    /// The name of the function in the source.
    pub fn to_string(&self) -> (r: String)
        ensures
            r@ == self.spec_text(),
    {
        match self {
            BlockFunctionKind::Min => String::from_str("min"),
            BlockFunctionKind::Max => String::from_str("max"),
            BlockFunctionKind::Avg => String::from_str("avg"),
        }
    }

    /// The LaTeX of the function.
    pub fn to_latex(&self) -> (r: String)
        ensures
            r@ == self.spec_latex(),
    {
        match self {
            BlockFunctionKind::Min => String::from_str("\\min"),
            BlockFunctionKind::Max => String::from_str("\\max"),
            BlockFunctionKind::Avg => String::from_str("avg"),
        }
    }

    /// Reads a function from its name; `Err(())` for any other text.
    pub fn from_str(s: &str) -> (r: Result<BlockFunctionKind, ()>)
        ensures
            r == (match Self::spec_from_text(s@) {
                Some(k) => Ok(k),
                None => Err(()),
            }),
    {
        if str_eq(s, "min") {
            Ok(BlockFunctionKind::Min)
        } else if str_eq(s, "max") {
            Ok(BlockFunctionKind::Max)
        } else if str_eq(s, "avg") {
            Ok(BlockFunctionKind::Avg)
        } else {
            Err(())
        }
    }

    /// All the functions, in declaration order.
    pub fn kinds() -> (r: Vec<BlockFunctionKind>)
        ensures
            r@ == Self::spec_kinds(),
    {
        vec![BlockFunctionKind::Min, BlockFunctionKind::Max, BlockFunctionKind::Avg]
    }

    /// The names of all the functions, in declaration order.
    pub fn kinds_to_string() -> (r: Vec<String>)
        ensures
            views(r@) == Self::spec_kinds().map_values(|k: BlockFunctionKind| k.spec_text()),
    {
        let kinds = Self::kinds();
        let mut out: Vec<String> = Vec::new();
        let mut i: usize = 0;
        while i < kinds.len()
            invariant
                i <= kinds.len(),
                kinds@ == Self::spec_kinds(),
                out@.len() == i,
                forall|j: int| 0 <= j < i ==> #[trigger] out@[j]@ == kinds@[j].spec_text(),
            decreases kinds.len() - i,
        {
            out.push(kinds[i].to_string());
            i += 1;
        }
        proof {
            assert(views(out@) =~= Self::spec_kinds().map_values(|k: BlockFunctionKind| k.spec_text()));
        }
        out
    }
}

/// Every block function's name reads back as that function.
pub proof fn lemma_block_scoped_function_round_trip(k: BlockScopedFunctionKind)
    ensures
        BlockScopedFunctionKind::spec_from_text(k.spec_text()) == Some(k),
{
    reveal_strlit("sum");
    reveal_strlit("prod");
    reveal_strlit("min");
    reveal_strlit("max");
    reveal_strlit("avg");
    assert("sum"@[0] == 's' && "prod"@[0] == 'p' && "min"@[0] == 'm' && "max"@[0] == 'm');
    assert("avg"@[0] == 'a' && "min"@[1] == 'i' && "max"@[1] == 'a');
}

/// Every function's name reads back as that function.
pub proof fn lemma_block_function_round_trip(k: BlockFunctionKind)
    ensures
        BlockFunctionKind::spec_from_text(k.spec_text()) == Some(k),
{
    reveal_strlit("min");
    reveal_strlit("max");
    reveal_strlit("avg");
    assert("min"@[0] == 'm' && "max"@[0] == 'm' && "avg"@[0] == 'a');
    assert("min"@[1] == 'i' && "max"@[1] == 'a');
}

} // verus!
