//! Turning a list of values into a list of one kind.
use vstd::prelude::*;
use crate::primitives::graph::{Graph, GraphEdge, GraphNode};
use crate::primitives::iterable::IterableKind;
use crate::primitives::primitive::{Primitive, PrimitiveKind, KindModel, same_kind};
use crate::primitives::tuple::Tuple;

verus! {

/// Whether every value of the list is of kind `k`.
pub open spec fn all_of_kind(values: Seq<Primitive>, k: KindModel) -> bool {
    forall|i: int| 0 <= i < values.len() ==> #[trigger] values[i].spec_kind() == k
}

/// The list that `flatten_primitive_array_values` makes of `values`.
pub open spec fn flattened(values: Seq<Primitive>, r: Primitive) -> bool {
    if values.len() == 0 {
        r matches Primitive::Iterable(IterableKind::Anys(v)) && v@.len() == 0
    } else if !all_of_kind(values, values[0].spec_kind()) {
        r matches Primitive::Iterable(IterableKind::Anys(v)) && v@ == values
    } else {
        match values[0].spec_kind() {
            KindModel::Boolean => r matches Primitive::Iterable(IterableKind::Booleans(v)) && v@
                == values.map_values(|p: Primitive| p->Boolean_0),
            KindModel::Number => r matches Primitive::Iterable(IterableKind::Numbers(v)) && v@
                == values.map_values(|p: Primitive| p->Number_0),
            KindModel::Integer => r matches Primitive::Iterable(IterableKind::Integers(v)) && v@
                == values.map_values(|p: Primitive| p->Integer_0),
            KindModel::PositiveInteger => r matches Primitive::Iterable(
                IterableKind::PositiveIntegers(v),
            ) && v@ == values.map_values(|p: Primitive| p->PositiveInteger_0),
            KindModel::String => r matches Primitive::Iterable(IterableKind::Strings(v)) && v@
                == values.map_values(|p: Primitive| p->String_0),
            KindModel::GraphEdge => r matches Primitive::Iterable(IterableKind::Edges(v)) && v@
                == values.map_values(|p: Primitive| p->GraphEdge_0),
            KindModel::GraphNode => r matches Primitive::Iterable(IterableKind::Nodes(v)) && v@
                == values.map_values(|p: Primitive| p->GraphNode_0),
            KindModel::Tuple(_) => r matches Primitive::Iterable(IterableKind::Tuples(v)) && v@
                == values.map_values(|p: Primitive| p->Tuple_0),
            KindModel::Iterable(_) => r matches Primitive::Iterable(IterableKind::Iterables(v)) && v@
                == values.map_values(|p: Primitive| p->Iterable_0),
            KindModel::Graph => r matches Primitive::Iterable(IterableKind::Graphs(v)) && v@
                == values.map_values(|p: Primitive| p->Graph_0),
            _ => r matches Primitive::Iterable(IterableKind::Anys(v)) && v@ == values,
        }
    }
}

/// A list of values of one kind becomes a list of that kind; undefined
/// values, or values of different kinds, give a list of any kind.
pub proof fn lemma_flatten_kind(values: Seq<Primitive>, r: Primitive)
    requires
        flattened(values, r),
        values.len() > 0,
    ensures
        all_of_kind(values, values[0].spec_kind()) && values[0].spec_kind() != KindModel::Undefined
            ==> r.spec_kind() == KindModel::Iterable(Box::new(values[0].spec_kind())),
        all_of_kind(values, values[0].spec_kind()) && values[0].spec_kind() == KindModel::Undefined
            ==> r.spec_kind() == KindModel::Iterable(Box::new(KindModel::Any)),
        !all_of_kind(values, values[0].spec_kind()) ==> r.spec_kind() == KindModel::Iterable(
            Box::new(KindModel::Any),
        ),
{
    if all_of_kind(values, values[0].spec_kind()) {
        match values[0] {
            Primitive::Tuple(t) => {
                let v = r->Iterable_0->Tuples_0;
                assert(v@.len() == values.len());
                assert(v@[0] == t);
                assert(r.spec_kind() == KindModel::Iterable(Box::new(t.spec_kind())));
            },
            Primitive::Iterable(i) => {
                let v = r->Iterable_0->Iterables_0;
                assert(v@.len() == values.len());
                assert(v@[0] == i);
            },
            _ => {},
        }
    }
}

/// Applies `f` to each value, in order, taking the list apart.
fn convert_all<T, F: Fn(Primitive) -> T>(values: Vec<Primitive>, f: F) -> (r: Vec<T>)
    requires
        forall|i: int| 0 <= i < values@.len() ==> call_requires(f, (#[trigger] values@[i],)),
    ensures
        r@.len() == values@.len(),
        forall|i: int| 0 <= i < values@.len() ==> call_ensures(f, (values@[i],), #[trigger] r@[i]),
{
    let ghost all = values@;
    let mut rest = values;
    let mut out: Vec<T> = Vec::new();
    while rest.len() > 0
        invariant
            out@.len() + rest@.len() == all.len(),
            rest@ == all.skip(out@.len() as int),
            forall|i: int| 0 <= i < all.len() ==> call_requires(f, (#[trigger] all[i],)),
            forall|i: int| 0 <= i < out@.len() ==> call_ensures(f, (all[i],), #[trigger] out@[i]),
        decreases rest@.len(),
    {
        let ghost k = out@.len() as int;
        let x = rest.remove(0);
        proof {
            assert(all[k] == x);
            assert(rest@ =~= all.skip(k + 1));
        }
        let y = f(x);
        out.push(y);
    }
    out
}

/// Makes a list of one kind from a list of values: the list of their
/// contents when all the values are of one kind, the values as they are
/// when their kinds differ or are undefined, so that no value is lost. An
/// empty list gives an empty list of any kind.
pub fn flatten_primitive_array_values(values: Vec<Primitive>) -> (r: Primitive)
    ensures
        flattened(values@, r),
{
    if values.len() == 0 {
        return Primitive::Iterable(IterableKind::Anys(Vec::new()));
    }
    let first_kind = values[0].get_type();
    let ghost k = values@[0].spec_kind();
    let mut i: usize = 0;
    while i < values.len()
        invariant
            i <= values@.len(),
            values@.len() > 0,
            k == values@[0].spec_kind(),
            first_kind.model() == k,
            forall|j: int| 0 <= j < i ==> #[trigger] values@[j].spec_kind() == k,
        decreases values@.len() - i,
    {
        let t = values[i].get_type();
        if !same_kind(&t, &first_kind) {
            proof {
                assert(values@[i as int].spec_kind() != k);
                assert(!all_of_kind(values@, values@[0].spec_kind()));
            }
            return Primitive::Iterable(IterableKind::Anys(values));
        }
        i += 1;
    }
    assert(all_of_kind(values@, k));
    let ghost all = values@;
    match first_kind {
        PrimitiveKind::Boolean => {
            let v = convert_all(values, take_boolean);
            proof {
                assert(v@ =~= all.map_values(|p: Primitive| p->Boolean_0));
            }
            Primitive::Iterable(IterableKind::Booleans(v))
        },
        PrimitiveKind::Number => {
            let v = convert_all(values, take_number);
            proof {
                assert(v@ =~= all.map_values(|p: Primitive| p->Number_0));
            }
            Primitive::Iterable(IterableKind::Numbers(v))
        },
        PrimitiveKind::Integer => {
            let v = convert_all(values, take_integer);
            proof {
                assert(v@ =~= all.map_values(|p: Primitive| p->Integer_0));
            }
            Primitive::Iterable(IterableKind::Integers(v))
        },
        PrimitiveKind::PositiveInteger => {
            let v = convert_all(values, take_positive_integer);
            proof {
                assert(v@ =~= all.map_values(|p: Primitive| p->PositiveInteger_0));
            }
            Primitive::Iterable(IterableKind::PositiveIntegers(v))
        },
        PrimitiveKind::String => {
            let v = convert_all(values, take_string);
            proof {
                assert(v@ =~= all.map_values(|p: Primitive| p->String_0));
            }
            Primitive::Iterable(IterableKind::Strings(v))
        },
        PrimitiveKind::GraphEdge => {
            let v = convert_all(values, take_edge);
            proof {
                assert(v@ =~= all.map_values(|p: Primitive| p->GraphEdge_0));
            }
            Primitive::Iterable(IterableKind::Edges(v))
        },
        PrimitiveKind::GraphNode => {
            let v = convert_all(values, take_node);
            proof {
                assert(v@ =~= all.map_values(|p: Primitive| p->GraphNode_0));
            }
            Primitive::Iterable(IterableKind::Nodes(v))
        },
        PrimitiveKind::Tuple(_) => {
            let v = convert_all(values, take_tuple);
            proof {
                assert(v@ =~= all.map_values(|p: Primitive| p->Tuple_0));
            }
            Primitive::Iterable(IterableKind::Tuples(v))
        },
        PrimitiveKind::Iterable(_) => {
            let v = convert_all(values, take_iterable);
            proof {
                assert(v@ =~= all.map_values(|p: Primitive| p->Iterable_0));
            }
            Primitive::Iterable(IterableKind::Iterables(v))
        },
        PrimitiveKind::Graph => {
            let v = convert_all(values, take_graph);
            proof {
                assert(v@ =~= all.map_values(|p: Primitive| p->Graph_0));
            }
            Primitive::Iterable(IterableKind::Graphs(v))
        },
        PrimitiveKind::Any | PrimitiveKind::Undefined => Primitive::Iterable(IterableKind::Anys(values)),
    }
}

/// The content of a value of kind `Boolean`.
fn take_boolean(p: Primitive) -> (r: bool)
    requires
        p.spec_kind() == KindModel::Boolean,
    ensures
        r == p->Boolean_0,
{
    match p {
        Primitive::Boolean(x) => x,
        _ => {
            proof {
                assert(false);
            }
            false
        },
    }
}

/// The content of a value of kind `Number`.
fn take_number(p: Primitive) -> (r: u64)
    requires
        p.spec_kind() == KindModel::Number,
    ensures
        r == p->Number_0,
{
    match p {
        Primitive::Number(x) => x,
        _ => {
            proof {
                assert(false);
            }
            0
        },
    }
}

/// The content of a value of kind `Integer`.
fn take_integer(p: Primitive) -> (r: i64)
    requires
        p.spec_kind() == KindModel::Integer,
    ensures
        r == p->Integer_0,
{
    match p {
        Primitive::Integer(x) => x,
        _ => {
            proof {
                assert(false);
            }
            0
        },
    }
}

/// The content of a value of kind `PositiveInteger`.
fn take_positive_integer(p: Primitive) -> (r: u64)
    requires
        p.spec_kind() == KindModel::PositiveInteger,
    ensures
        r == p->PositiveInteger_0,
{
    match p {
        Primitive::PositiveInteger(x) => x,
        _ => {
            proof {
                assert(false);
            }
            0
        },
    }
}

/// The content of a value of kind `String`.
fn take_string(p: Primitive) -> (r: String)
    requires
        p.spec_kind() == KindModel::String,
    ensures
        r == p->String_0,
{
    match p {
        Primitive::String(x) => x,
        _ => {
            proof {
                assert(false);
            }
            String::new()
        },
    }
}

/// The content of a value of kind `GraphEdge`.
fn take_edge(p: Primitive) -> (r: GraphEdge)
    requires
        p.spec_kind() == KindModel::GraphEdge,
    ensures
        r == p->GraphEdge_0,
{
    match p {
        Primitive::GraphEdge(x) => x,
        _ => {
            proof {
                assert(false);
            }
            GraphEdge::new(String::new(), String::new(), None)
        },
    }
}

/// The content of a value of kind `GraphNode`.
fn take_node(p: Primitive) -> (r: GraphNode)
    requires
        p.spec_kind() == KindModel::GraphNode,
    ensures
        r == p->GraphNode_0,
{
    match p {
        Primitive::GraphNode(x) => x,
        _ => {
            proof {
                assert(false);
            }
            GraphNode::new(String::new(), Vec::new())
        },
    }
}

/// The content of a value of kind `Tuple`.
fn take_tuple(p: Primitive) -> (r: Tuple)
    requires
        p.spec_kind() is Tuple,
    ensures
        r == p->Tuple_0,
{
    match p {
        Primitive::Tuple(x) => x,
        _ => {
            proof {
                assert(false);
            }
            Tuple::new(Vec::new())
        },
    }
}

/// The content of a value of kind `Iterable`.
fn take_iterable(p: Primitive) -> (r: IterableKind)
    requires
        p.spec_kind() is Iterable,
    ensures
        r == p->Iterable_0,
{
    match p {
        Primitive::Iterable(x) => x,
        _ => {
            proof {
                assert(false);
            }
            IterableKind::Anys(Vec::new())
        },
    }
}

/// The content of a value of kind `Graph`.
fn take_graph(p: Primitive) -> (r: Graph)
    requires
        p.spec_kind() == KindModel::Graph,
    ensures
        r == p->Graph_0,
{
    match p {
        Primitive::Graph(x) => x,
        _ => {
            proof {
                assert(false);
            }
            Graph::new(Vec::new())
        },
    }
}

} // verus!
