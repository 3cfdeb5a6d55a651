//! Tuples of values.
use vstd::prelude::*;
use crate::primitives::primitive::{Primitive, PrimitiveKind, KindModel, primitive_kinds, kind_models};
use crate::primitives::primitive_traits::{ApplyOp, Spreadable};
use crate::primitives::primitive::{spec_can_apply_binary_op, spec_can_apply_unary_op};
use crate::math::operators::{BinOp, UnOp};
use crate::parser::model_transformer::transform_error::TransformError;

verus! {

/// An ordered collection of values.
#[derive(Debug)]
pub struct Tuple(pub Vec<Primitive>);

impl Tuple {
    /// The kind of the tuple: the kinds of its values, in order.
    pub open spec fn spec_kind(self) -> KindModel
        decreases self,
    {
        KindModel::Tuple(primitive_kinds(self.0@))
    }

    /// A tuple of the given values.
    pub fn new(v: Vec<Primitive>) -> (r: Self)
        ensures
            r.0 == v,
    {
        Self(v)
    }

    /// The value at `index`, if there is one.
    pub fn get(&self, index: usize) -> (r: Option<&Primitive>)
        ensures
            index < self.0@.len() ==> r == Some(&self.0@[index as int]),
            index >= self.0@.len() ==> r is None,
    {
        if index < self.0.len() {
            Some(&self.0[index])
        } else {
            None
        }
    }

    /// The values, taking the tuple apart.
    pub fn into_primitives(self) -> (r: Vec<Primitive>)
        ensures
            r == self.0,
    {
        self.0
    }

    /// The values.
    pub fn primitives(&self) -> (r: &Vec<Primitive>)
        ensures
            *r == self.0,
    {
        &self.0
    }

    /// The number of values.
    pub fn len(&self) -> (r: usize)
        ensures
            r == self.0@.len(),
    {
        self.0.len()
    }

    /// Whether the tuple has no values.
    pub fn is_empty(&self) -> (r: bool)
        ensures
            r == (self.0@.len() == 0),
    {
        self.0.len() == 0
    }

    /// The kind of the tuple.
    pub fn get_type(&self) -> (r: PrimitiveKind)
        ensures
            r.model() == self.spec_kind(),
    {
        PrimitiveKind::Tuple(self.inner_types())
    }

    /// The kinds of the values, in order.
    pub fn inner_types(&self) -> (r: Vec<PrimitiveKind>)
        ensures
            kind_models(r@) == primitive_kinds(self.0@),
        decreases self,
    {
        let mut out: Vec<PrimitiveKind> = Vec::new();
        let mut i: usize = 0;
        while i < self.0.len()
            invariant
                i <= self.0@.len(),
                kind_models(out@) == primitive_kinds(self.0@.take(i as int)),
            decreases self.0@.len() - i,
        {
            proof {
                assert(decreases_to!(self => self.0@[i as int]));
            }
            let k = self.0[i].get_type();
            proof {
                assert(self.0@.take(i + 1).drop_last() =~= self.0@.take(i as int));
                assert(out@.push(k).drop_last() =~= out@);
            }
            out.push(k);
            i += 1;
        }
        proof {
            assert(self.0@.take(self.0@.len() as int) =~= self.0@);
        }
        out
    }
}

impl Spreadable for Tuple {
    open spec fn spec_spread(self) -> Result<Seq<Primitive>, KindModel> {
        Ok(self.0@)
    }

    fn to_primitive_set(self) -> (r: Result<Vec<Primitive>, TransformError>) {
        Ok(self.0)
    }
}


impl ApplyOp for Tuple {
    open spec fn spec_can_apply_binary_op(op: BinOp, to: KindModel) -> bool {
        spec_can_apply_binary_op(KindModel::Tuple(seq![]), op, to)
    }

    open spec fn spec_can_apply_unary_op(op: UnOp) -> bool {
        spec_can_apply_unary_op(KindModel::Tuple(seq![]), op)
    }

    fn can_apply_binary_op(op: BinOp, to: PrimitiveKind) -> (r: bool) {
        false
    }

    fn can_apply_unary_op(op: UnOp) -> (r: bool) {
        false
    }
}

} // verus!
