//! The variables a model's iterations bind.
use vstd::prelude::*;
use crate::consts::Spanned;
use crate::text::{join, join_strings};

verus! {

/// Represents different kinds of variables in the model.
#[derive(Debug)]
pub enum VariableKind {
    /// A single variable with a name
    Single(Spanned<String>),
    /// A tuple of variables with names
    Tuple(Vec<Spanned<String>>),
}

/// The names of a list of located names.
pub open spec fn name_texts(names: Seq<Spanned<String>>) -> Seq<Seq<char>> {
    names.map_values(|n: Spanned<String>| n.spec_value()@)
}

impl VariableKind {
    /// The text of the variable: its name, or the names in parentheses
    /// separated by `, `.
    pub open spec fn spec_text(self) -> Seq<char> {
        match self {
            VariableKind::Single(name) => name.spec_value()@,
            VariableKind::Tuple(names) => "("@ + join(name_texts(names@), ", "@) + ")"@,
        }
    }

    /// The text of the variable: its name, or the names in parentheses
    /// separated by `, `.
    pub fn to_string(&self) -> (r: String)
        ensures
            r@ == self.spec_text(),
    {
        match self {
            VariableKind::Single(name) => name.get_span_value().clone(),
            VariableKind::Tuple(names) => {
                let mut texts: Vec<String> = Vec::new();
                let mut i: usize = 0;
                while i < names.len()
                    invariant
                        i <= names.len(),
                        texts@.len() == i,
                        forall|j: int| 0 <= j < i ==> #[trigger] texts@[j]@ == names@[j].spec_value()@,
                    decreases names.len() - i,
                {
                    texts.push(names[i].get_span_value().clone());
                    i += 1;
                }
                proof {
                    assert(crate::text::views(texts@) =~= name_texts(names@));
                }
                let mut s = String::from_str("(");
                s.append(join_strings(&texts, ", ").as_str());
                s.append(")");
                s
            },
        }
    }
}

} // verus!
