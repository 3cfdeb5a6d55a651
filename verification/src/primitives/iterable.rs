//! LaTeX layout of lists of values.
use vstd::prelude::*;
use crate::text::{join, views, join_strings};
use crate::primitives::graph::{Graph, GraphEdge, GraphNode};
use crate::primitives::primitive::{Primitive, PrimitiveKind, KindModel};
use crate::primitives::tuple::Tuple;
use crate::primitives::primitive_traits::{ApplyOp, Spreadable};
use crate::primitives::primitive::{spec_can_apply_binary_op, spec_can_apply_unary_op};
use crate::math::operators::{BinOp, UnOp};
use crate::parser::model_transformer::transform_error::TransformError;

verus! {

/// A list of values of one kind (or of any kinds, for `Anys`). Numbers are
/// held as the bit patterns of their `f64` values.
#[derive(Debug)]
pub enum IterableKind {
    Numbers(Vec<u64>),
    Integers(Vec<i64>),
    PositiveIntegers(Vec<u64>),
    Strings(Vec<String>),
    Edges(Vec<GraphEdge>),
    Nodes(Vec<GraphNode>),
    Graphs(Vec<Graph>),
    Tuples(Vec<Tuple>),
    Booleans(Vec<bool>),
    Iterables(Vec<IterableKind>),
    Anys(Vec<Primitive>),
}

/// The greatest depth among the first `n` lists of `s`, and at least 1.
pub open spec fn deepest(s: Seq<IterableKind>, n: nat) -> nat
    decreases s, n,
{
    if n == 0 || n > s.len() {
        1
    } else {
        let rest = deepest(s, (n - 1) as nat);
        let d = s[n - 1].spec_depth();
        if d > rest {
            d
        } else {
            rest
        }
    }
}

/// `deepest` grows with the prefix it looks at, and bounds each list in it.
pub proof fn lemma_deepest_bounds(s: Seq<IterableKind>, i: nat, n: nat)
    requires
        i <= n <= s.len(),
    ensures
        deepest(s, i) <= deepest(s, n),
        i < n ==> s[i as int].spec_depth() <= deepest(s, n),
        deepest(s, n) >= 1,
    decreases n,
{
    if n > 0 {
        let j: nat = if i < n {
            i
        } else {
            (n - 1) as nat
        };
        lemma_deepest_bounds(s, j, (n - 1) as nat);
    }
}

impl IterableKind {
    /// The kind of the elements: that of the first element for tuples and
    /// nested lists (`Undefined` when there is none).
    pub open spec fn spec_inner_kind(self) -> KindModel
        decreases self,
    {
        match self {
            IterableKind::Numbers(_) => KindModel::Number,
            IterableKind::Integers(_) => KindModel::Integer,
            IterableKind::PositiveIntegers(_) => KindModel::PositiveInteger,
            IterableKind::Strings(_) => KindModel::String,
            IterableKind::Edges(_) => KindModel::GraphEdge,
            IterableKind::Nodes(_) => KindModel::GraphNode,
            IterableKind::Anys(_) => KindModel::Any,
            IterableKind::Tuples(t) => if t@.len() > 0 {
                t@[0].spec_kind()
            } else {
                KindModel::Undefined
            },
            IterableKind::Booleans(_) => KindModel::Boolean,
            IterableKind::Graphs(_) => KindModel::Graph,
            IterableKind::Iterables(i) => KindModel::Iterable(
                Box::new(
                    if i@.len() > 0 {
                        i@[0].spec_inner_kind()
                    } else {
                        KindModel::Undefined
                    },
                ),
            ),
        }
    }

    /// The number of elements.
    pub open spec fn spec_len(self) -> nat {
        match self {
            IterableKind::Numbers(v) => v@.len(),
            IterableKind::Integers(v) => v@.len(),
            IterableKind::PositiveIntegers(v) => v@.len(),
            IterableKind::Strings(v) => v@.len(),
            IterableKind::Edges(v) => v@.len(),
            IterableKind::Nodes(v) => v@.len(),
            IterableKind::Tuples(v) => v@.len(),
            IterableKind::Iterables(v) => v@.len(),
            IterableKind::Booleans(v) => v@.len(),
            IterableKind::Graphs(v) => v@.len(),
            IterableKind::Anys(v) => v@.len(),
        }
    }

    /// The kind of the list: an iterable of its elements' kind.
    pub fn get_type(&self) -> (r: PrimitiveKind)
        ensures
            r.model() == KindModel::Iterable(Box::new(self.spec_inner_kind())),
    {
        PrimitiveKind::Iterable(Box::new(self.inner_type()))
    }

    /// The kind of the elements.
    pub fn inner_type(&self) -> (r: PrimitiveKind)
        ensures
            r.model() == self.spec_inner_kind(),
        decreases self,
    {
        match self {
            IterableKind::Numbers(_) => PrimitiveKind::Number,
            IterableKind::Integers(_) => PrimitiveKind::Integer,
            IterableKind::PositiveIntegers(_) => PrimitiveKind::PositiveInteger,
            IterableKind::Strings(_) => PrimitiveKind::String,
            IterableKind::Edges(_) => PrimitiveKind::GraphEdge,
            IterableKind::Nodes(_) => PrimitiveKind::GraphNode,
            IterableKind::Anys(_) => PrimitiveKind::Any,
            IterableKind::Tuples(t) => if t.len() > 0 {
                proof {
                    assert(decreases_to!(self => t@[0]));
                }
                let r = PrimitiveKind::Tuple(t[0].inner_types());
                proof {
                    assert(r.model() == t@[0].spec_kind());
                }
                r
            } else {
                PrimitiveKind::Undefined
            },
            IterableKind::Booleans(_) => PrimitiveKind::Boolean,
            IterableKind::Graphs(_) => PrimitiveKind::Graph,
            IterableKind::Iterables(i) => {
                let inner = if i.len() > 0 {
                    proof {
                        assert(decreases_to!(self => i@[0]));
                    }
                    i[0].inner_type()
                } else {
                    PrimitiveKind::Undefined
                };
                let r = PrimitiveKind::Iterable(Box::new(inner));
                proof {
                    assert(r.model() == self.spec_inner_kind());
                }
                r
            },
        }
    }

    /// The number of elements.
    pub fn len(&self) -> (r: usize)
        ensures
            r == self.spec_len(),
    {
        match self {
            IterableKind::Numbers(v) => v.len(),
            IterableKind::Integers(v) => v.len(),
            IterableKind::PositiveIntegers(v) => v.len(),
            IterableKind::Strings(v) => v.len(),
            IterableKind::Edges(v) => v.len(),
            IterableKind::Nodes(v) => v.len(),
            IterableKind::Tuples(v) => v.len(),
            IterableKind::Iterables(v) => v.len(),
            IterableKind::Booleans(v) => v.len(),
            IterableKind::Graphs(v) => v.len(),
            IterableKind::Anys(v) => v.len(),
        }
    }

    /// Whether the list has no elements.
    pub fn is_empty(&self) -> (r: bool)
        ensures
            r == (self.spec_len() == 0),
    {
        self.len() == 0
    }

    /// The elements as values, in order.
    pub open spec fn spec_to_primitives(self) -> Seq<Primitive> {
        match self {
            IterableKind::Numbers(v) => v@.map_values(|x: u64| Primitive::Number(x)),
            IterableKind::Integers(v) => v@.map_values(|x: i64| Primitive::Integer(x)),
            IterableKind::PositiveIntegers(v) => v@.map_values(|x: u64| Primitive::PositiveInteger(x)),
            IterableKind::Strings(v) => v@.map_values(|x: String| Primitive::String(x)),
            IterableKind::Edges(v) => v@.map_values(|x: GraphEdge| Primitive::GraphEdge(x)),
            IterableKind::Nodes(v) => v@.map_values(|x: GraphNode| Primitive::GraphNode(x)),
            IterableKind::Tuples(v) => v@.map_values(|x: Tuple| Primitive::Tuple(x)),
            IterableKind::Iterables(v) => v@.map_values(|x: IterableKind| Primitive::Iterable(x)),
            IterableKind::Booleans(v) => v@.map_values(|x: bool| Primitive::Boolean(x)),
            IterableKind::Graphs(v) => v@.map_values(|x: Graph| Primitive::Graph(x)),
            IterableKind::Anys(v) => v@,
        }
    }

    /// The elements as values, in order, taking the list apart.
    pub fn to_primitives(self) -> (r: Vec<Primitive>)
        ensures
            r@ == self.spec_to_primitives(),
    {
        match self {
            IterableKind::Numbers(v) => {
                let r = map_to_values(v, number_value);
                proof {
                    assert(r@ =~= v@.map_values(|x: u64| Primitive::Number(x)));
                }
                r
            },
            IterableKind::Integers(v) => {
                let r = map_to_values(v, integer_value);
                proof {
                    assert(r@ =~= v@.map_values(|x: i64| Primitive::Integer(x)));
                }
                r
            },
            IterableKind::PositiveIntegers(v) => {
                let r = map_to_values(v, positive_integer_value);
                proof {
                    assert(r@ =~= v@.map_values(|x: u64| Primitive::PositiveInteger(x)));
                }
                r
            },
            IterableKind::Strings(v) => {
                let r = map_to_values(v, string_value);
                proof {
                    assert(r@ =~= v@.map_values(|x: String| Primitive::String(x)));
                }
                r
            },
            IterableKind::Edges(v) => {
                let r = map_to_values(v, edge_value);
                proof {
                    assert(r@ =~= v@.map_values(|x: GraphEdge| Primitive::GraphEdge(x)));
                }
                r
            },
            IterableKind::Nodes(v) => {
                let r = map_to_values(v, node_value);
                proof {
                    assert(r@ =~= v@.map_values(|x: GraphNode| Primitive::GraphNode(x)));
                }
                r
            },
            IterableKind::Tuples(v) => {
                let r = map_to_values(v, tuple_value);
                proof {
                    assert(r@ =~= v@.map_values(|x: Tuple| Primitive::Tuple(x)));
                }
                r
            },
            IterableKind::Iterables(v) => {
                let r = map_to_values(v, iterable_value);
                proof {
                    assert(r@ =~= v@.map_values(|x: IterableKind| Primitive::Iterable(x)));
                }
                r
            },
            IterableKind::Booleans(v) => {
                let r = map_to_values(v, boolean_value);
                proof {
                    assert(r@ =~= v@.map_values(|x: bool| Primitive::Boolean(x)));
                }
                r
            },
            IterableKind::Graphs(v) => {
                let r = map_to_values(v, graph_value);
                proof {
                    assert(r@ =~= v@.map_values(|x: Graph| Primitive::Graph(x)));
                }
                r
            },
            IterableKind::Anys(v) => v,
        }
    }

    /// The nesting depth: 1 for a list of values; for a list of lists, one
    /// more than the deepest of its elements (an empty list of lists counts
    /// as two levels).
    pub open spec fn spec_depth(self) -> nat
        decreases self, 0nat,
    {
        match self {
            IterableKind::Iterables(v) => 1 + deepest(v@, v@.len()),
            _ => 1,
        }
    }

    /// Every list has depth at least one.
    pub proof fn lemma_depth_positive(self)
        ensures
            self.spec_depth() >= 1,
    {
    }

    /// The maximum nesting depth. A nesting deeper than `usize::MAX` cannot
    /// be held in memory.
    pub fn depth(&self) -> (r: usize)
        requires
            self.spec_depth() <= usize::MAX,
        ensures
            r == self.spec_depth(),
        decreases self,
    {
        match self {
            IterableKind::Iterables(v) => {
                let mut best: usize = 1;
                let mut i: usize = 0;
                while i < v.len()
                    invariant
                        i <= v@.len(),
                        best == deepest(v@, i as nat),
                        1 + deepest(v@, v@.len()) == self.spec_depth(),
                        self.spec_depth() <= usize::MAX,
                        *self == IterableKind::Iterables(*v),
                    decreases v@.len() - i,
                {
                    proof {
                        lemma_deepest_bounds(v@, (i + 1) as nat, v@.len());
                        lemma_deepest_bounds(v@, i as nat, (i + 1) as nat);
                    }
                    let d = v[i].depth();
                    if d > best {
                        best = d;
                    }
                    i += 1;
                }
                best + 1
            },
            _ => 1,
        }
    }

    /// The list as a value.
    pub fn into_primitive(self) -> (r: Primitive)
        ensures
            r == Primitive::Iterable(self),
    {
        Primitive::Iterable(self)
    }
}

impl Spreadable for IterableKind {
    open spec fn spec_spread(self) -> Result<Seq<Primitive>, KindModel> {
        Ok(self.spec_to_primitives())
    }

    fn to_primitive_set(self) -> (r: Result<Vec<Primitive>, TransformError>) {
        Ok(self.to_primitives())
    }
}

impl ApplyOp for IterableKind {
    open spec fn spec_can_apply_binary_op(op: BinOp, to: KindModel) -> bool {
        spec_can_apply_binary_op(KindModel::Iterable(Box::new(KindModel::Any)), op, to)
    }

    open spec fn spec_can_apply_unary_op(op: UnOp) -> bool {
        spec_can_apply_unary_op(KindModel::Iterable(Box::new(KindModel::Any)), op)
    }

    fn can_apply_binary_op(op: BinOp, to: PrimitiveKind) -> (r: bool) {
        false
    }

    fn can_apply_unary_op(op: UnOp) -> (r: bool) {
        false
    }
}

/// Applies `f` to each element, in order, taking the list apart.
fn map_to_values<T, F: Fn(T) -> Primitive>(values: Vec<T>, f: F) -> (r: Vec<Primitive>)
    requires
        forall|i: int| 0 <= i < values@.len() ==> call_requires(f, (#[trigger] values@[i],)),
    ensures
        r@.len() == values@.len(),
        forall|i: int| 0 <= i < values@.len() ==> call_ensures(f, (values@[i],), #[trigger] r@[i]),
{
    let ghost all = values@;
    let mut rest = values;
    let mut out: Vec<Primitive> = Vec::new();
    while rest.len() > 0
        invariant
            out@.len() + rest@.len() == all.len(),
            rest@ == all.skip(out@.len() as int),
            forall|i: int| 0 <= i < all.len() ==> call_requires(f, (#[trigger] all[i],)),
            forall|i: int| 0 <= i < out@.len() ==> call_ensures(f, (all[i],), #[trigger] out@[i]),
        decreases rest@.len(),
    {
        let ghost k = out@.len() as int;
        let x = rest.remove(0);
        proof {
            assert(all[k] == x);
            assert(rest@ =~= all.skip(k + 1));
        }
        let y = f(x);
        out.push(y);
    }
    out
}

/// The value holding `x`.
fn number_value(x: u64) -> (r: Primitive)
    ensures
        r == Primitive::Number(x),
{
    Primitive::Number(x)
}

/// The value holding `x`.
fn integer_value(x: i64) -> (r: Primitive)
    ensures
        r == Primitive::Integer(x),
{
    Primitive::Integer(x)
}

/// The value holding `x`.
fn positive_integer_value(x: u64) -> (r: Primitive)
    ensures
        r == Primitive::PositiveInteger(x),
{
    Primitive::PositiveInteger(x)
}

/// The value holding `x`.
fn string_value(x: String) -> (r: Primitive)
    ensures
        r == Primitive::String(x),
{
    Primitive::String(x)
}

/// The value holding `x`.
fn edge_value(x: GraphEdge) -> (r: Primitive)
    ensures
        r == Primitive::GraphEdge(x),
{
    Primitive::GraphEdge(x)
}

/// The value holding `x`.
fn node_value(x: GraphNode) -> (r: Primitive)
    ensures
        r == Primitive::GraphNode(x),
{
    Primitive::GraphNode(x)
}

/// The value holding `x`.
fn tuple_value(x: Tuple) -> (r: Primitive)
    ensures
        r == Primitive::Tuple(x),
{
    Primitive::Tuple(x)
}

/// The value holding `x`.
fn iterable_value(x: IterableKind) -> (r: Primitive)
    ensures
        r == Primitive::Iterable(x),
{
    Primitive::Iterable(x)
}

/// The value holding `x`.
fn boolean_value(x: bool) -> (r: Primitive)
    ensures
        r == Primitive::Boolean(x),
{
    Primitive::Boolean(x)
}

/// The value holding `x`.
fn graph_value(x: Graph) -> (r: Primitive)
    ensures
        r == Primitive::Graph(x),
{
    Primitive::Graph(x)
}

/// The LaTeX of a list whose items read `items`: the items separated by
/// ` & `, inside a `bmatrix` block when `include_block` holds.
pub open spec fn spec_latexify_vec(items: Seq<Seq<char>>, include_block: bool) -> Seq<char> {
    let values = join(items, " & "@);
    if include_block {
        "\\begin{bmatrix} "@ + values + " \\end{bmatrix}"@
    } else {
        values
    }
}

/// Lays out a list in LaTeX, given the LaTeX of each of its items: the items
/// separated by ` & `, inside a `bmatrix` block when `include_block` holds.
pub fn latexify_vec(items: &Vec<String>, include_block: bool) -> (r: String)
    ensures
        r@ == spec_latexify_vec(views(items@), include_block),
{
    let values = join_strings(items, " & ");
    if include_block {
        let mut s = String::from_str("\\begin{bmatrix} ");
        s.append(values.as_str());
        s.append(" \\end{bmatrix}");
        s
    } else {
        values
    }
}

} // verus!
