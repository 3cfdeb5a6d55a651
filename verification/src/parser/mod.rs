//! Parsing: expression trees by operator precedence, the nodes and lengths of
//! the first parser design, and the transformation into a model.
use vstd::prelude::*;
use crate::text::{join, views, join_strings};

pub mod domain_declaration;
pub mod il;
pub mod iterable_utils;
pub mod model_transformer;
pub mod rules_parser;

verus! {

/// A node named in a graph literal: a literal name or a variable's value.
#[derive(Debug)]
pub enum PreNode {
    Name(String),
    Variable(String),
}

/// A length: that of a named array, or a literal number.
#[derive(Debug)]
pub enum PreLen {
    LenOfArray(String),
    Number(i32),
}

/// A variable with indexes, written `name_i_j`.
#[derive(Debug)]
pub struct CompoundVariable {
    pub name: String,
    pub indexes: Vec<String>,
}

impl CompoundVariable {
    /// The variable `name` with the given indexes.
    pub fn new(name: String, indexes: Vec<String>) -> (r: Self)
        ensures
            r.name == name,
            r.indexes == indexes,
    {
        Self { name, indexes }
    }

    /// The flat name: the name and the indexes joined by `_`.
    pub open spec fn spec_text(self) -> Seq<char> {
        self.name@ + "_"@ + join(views(self.indexes@), "_"@)
    }

    /// The flat name: the name and the indexes joined by `_`.
    pub fn to_string(&self) -> (r: String)
        ensures
            r@ == self.spec_text(),
    {
        let mut s = self.name.clone();
        s.append("_");
        s.append(join_strings(&self.indexes, "_").as_str());
        s
    }
}

} // verus!
