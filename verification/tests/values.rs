use rooc::parser::iterable_utils::flatten_primitive_array_values;
use rooc::primitives::graph::{Graph, GraphEdge, GraphNode};
use rooc::primitives::iterable::IterableKind;
use rooc::primitives::primitive::{same_kind, Primitive, PrimitiveKind};
use rooc::primitives::tuple::Tuple;

fn num(x: f64) -> Primitive {
    Primitive::Number(x.to_bits())
}

fn kind(p: &Primitive) -> String {
    p.get_type().to_string()
}

#[test]
fn kinds_of_values() {
    assert_eq!(kind(&num(1.5)), "Number");
    assert_eq!(kind(&Primitive::Integer(-1)), "Integer");
    assert_eq!(kind(&Primitive::PositiveInteger(1)), "PositiveInteger");
    assert_eq!(kind(&Primitive::String("s".to_string())), "String");
    assert_eq!(kind(&Primitive::Boolean(true)), "Boolean");
    assert_eq!(kind(&Primitive::Undefined), "Undefined");
    assert_eq!(kind(&Primitive::Graph(Graph::new(vec![]))), "Graph");
    assert_eq!(
        kind(&Primitive::GraphEdge(GraphEdge::new("a".to_string(), "b".to_string(), None))),
        "GraphEdge"
    );
    assert_eq!(kind(&Primitive::GraphNode(GraphNode::new("a".to_string(), vec![]))), "GraphNode");
    let t = Tuple::new(vec![Primitive::Integer(1), Primitive::String("x".to_string())]);
    assert_eq!(kind(&Primitive::Tuple(t)), "(Integer, String)");
    assert_eq!(Primitive::Boolean(false).type_string(), "Boolean");
    assert_eq!(PrimitiveKind::from_primitive(&Primitive::Integer(3)).to_string(), "Integer");
}

#[test]
fn kinds_of_lists() {
    let ints = IterableKind::Integers(vec![1, 2]);
    assert_eq!(ints.get_type().to_string(), "Integer[]");
    assert_eq!(IterableKind::Anys(vec![]).get_type().to_string(), "Any[]");
    assert_eq!(IterableKind::Tuples(vec![]).inner_type().to_string(), "Undefined");
    let tuples = IterableKind::Tuples(vec![Tuple::new(vec![Primitive::Boolean(true), num(1.0)])]);
    assert_eq!(tuples.get_type().to_string(), "(Boolean, Number)[]");
    let nested = IterableKind::Iterables(vec![IterableKind::Strings(vec!["a".to_string()])]);
    assert_eq!(nested.get_type().to_string(), "String[][]");
    assert_eq!(IterableKind::Iterables(vec![]).get_type().to_string(), "Undefined[][]");
    assert_eq!(kind(&Primitive::Iterable(nested)), "String[][]");
}

#[test]
fn list_sizes_and_depth() {
    let m = IterableKind::Iterables(vec![
        IterableKind::Integers(vec![1, 2]),
        IterableKind::Integers(vec![3]),
    ]);
    assert_eq!(m.len(), 2);
    assert!(!m.is_empty());
    assert_eq!(m.depth(), 2);
    assert_eq!(IterableKind::Booleans(vec![]).depth(), 1);
    assert!(IterableKind::Booleans(vec![]).is_empty());
    assert_eq!(IterableKind::Iterables(vec![]).depth(), 2);
    let deep = IterableKind::Iterables(vec![IterableKind::Iterables(vec![IterableKind::Anys(vec![])])]);
    assert_eq!(deep.depth(), 3);
}

#[test]
fn depth_is_the_deepest_element() {
    let mixed = IterableKind::Iterables(vec![
        IterableKind::Numbers(vec![1.0f64.to_bits()]),
        IterableKind::Iterables(vec![IterableKind::Numbers(vec![2.0f64.to_bits()])]),
    ]);
    assert_eq!(mixed.depth(), 3);
}

#[test]
fn lists_to_values() {
    let v = IterableKind::Integers(vec![4, 5]).to_primitives();
    assert_eq!(format!("{:?}", v), "[Integer(4), Integer(5)]");
    let v = IterableKind::Strings(vec!["a".to_string()]).to_primitives();
    assert_eq!(format!("{:?}", v), "[String(\"a\")]");
    let v = IterableKind::Anys(vec![Primitive::Undefined, Primitive::Boolean(true)]).to_primitives();
    assert_eq!(format!("{:?}", v), "[Undefined, Boolean(true)]");
    match IterableKind::Numbers(vec![2.5f64.to_bits()]).to_primitives().pop() {
        Some(Primitive::Number(b)) => assert_eq!(f64::from_bits(b), 2.5),
        other => panic!("unexpected {:?}", other),
    }
    match IterableKind::Booleans(vec![true]).into_primitive() {
        Primitive::Iterable(IterableKind::Booleans(v)) => assert_eq!(v, vec![true]),
        other => panic!("unexpected {:?}", other),
    }
}

#[test]
fn tuples() {
    let t = Tuple::new(vec![Primitive::Integer(7), Primitive::Undefined]);
    assert_eq!(t.len(), 2);
    assert!(!t.is_empty());
    assert!(matches!(t.get(0), Some(Primitive::Integer(7))));
    assert!(t.get(2).is_none());
    assert_eq!(t.primitives().len(), 2);
    assert_eq!(format!("{:?}", t.inner_types()), "[Integer, Undefined]");
    assert_eq!(t.get_type().to_string(), "(Integer, Undefined)");
    assert_eq!(t.into_primitives().len(), 2);
    assert!(Tuple::new(vec![]).is_empty());
}

#[test]
fn kind_equality() {
    let a = PrimitiveKind::Tuple(vec![PrimitiveKind::Integer, PrimitiveKind::Iterable(Box::new(PrimitiveKind::String))]);
    let b = PrimitiveKind::Tuple(vec![PrimitiveKind::Integer, PrimitiveKind::Iterable(Box::new(PrimitiveKind::String))]);
    let c = PrimitiveKind::Tuple(vec![PrimitiveKind::Integer, PrimitiveKind::Iterable(Box::new(PrimitiveKind::Number))]);
    let d = PrimitiveKind::Tuple(vec![PrimitiveKind::Integer]);
    assert!(same_kind(&a, &b));
    assert!(!same_kind(&a, &c));
    assert!(!same_kind(&a, &d));
    assert!(same_kind(&PrimitiveKind::Any, &PrimitiveKind::Any));
    assert!(!same_kind(&PrimitiveKind::Number, &PrimitiveKind::Integer));
}

fn flat(values: Vec<Primitive>) -> String {
    format!("{:?}", flatten_primitive_array_values(values))
}

#[test]
fn flatten_values_of_one_kind() {
    assert_eq!(flat(vec![Primitive::Boolean(true), Primitive::Boolean(false)]), "Iterable(Booleans([true, false]))");
    assert_eq!(flat(vec![Primitive::Integer(1), Primitive::Integer(-2)]), "Iterable(Integers([1, -2]))");
    assert_eq!(flat(vec![Primitive::PositiveInteger(3)]), "Iterable(PositiveIntegers([3]))");
    assert_eq!(
        flat(vec![Primitive::String("a".to_string()), Primitive::String("b".to_string())]),
        "Iterable(Strings([\"a\", \"b\"]))"
    );
    match flatten_primitive_array_values(vec![num(1.5), num(-2.0)]) {
        Primitive::Iterable(IterableKind::Numbers(v)) => {
            assert_eq!(v.iter().map(|b| f64::from_bits(*b)).collect::<Vec<_>>(), vec![1.5, -2.0])
        }
        other => panic!("unexpected {:?}", other),
    }
    let r = flatten_primitive_array_values(vec![
        Primitive::Iterable(IterableKind::Integers(vec![1])),
        Primitive::Iterable(IterableKind::Integers(vec![2, 3])),
    ]);
    assert_eq!(format!("{:?}", r), "Iterable(Iterables([Integers([1]), Integers([2, 3])]))");
    let r = flatten_primitive_array_values(vec![
        Primitive::Tuple(Tuple::new(vec![Primitive::Integer(1)])),
        Primitive::Tuple(Tuple::new(vec![Primitive::Integer(2)])),
    ]);
    assert_eq!(r.get_type().to_string(), "(Integer)[]");
}

#[test]
fn flatten_mixed_and_empty() {
    assert_eq!(flat(vec![]), "Iterable(Anys([]))");
    assert_eq!(
        flat(vec![Primitive::Integer(1), Primitive::PositiveInteger(1)]),
        "Iterable(Anys([Integer(1), PositiveInteger(1)]))"
    );
    // tuples of different shapes are of different kinds
    let r = flatten_primitive_array_values(vec![
        Primitive::Tuple(Tuple::new(vec![Primitive::Integer(1)])),
        Primitive::Tuple(Tuple::new(vec![Primitive::Integer(1), Primitive::Integer(2)])),
    ]);
    assert_eq!(r.get_type().to_string(), "Any[]");
    // undefined values are kept, as a list of any kind
    assert_eq!(flat(vec![Primitive::Undefined, Primitive::Undefined]), "Iterable(Anys([Undefined, Undefined]))");
}

#[test]
fn law_flatten_keeps_the_kind() {
    let cases = vec![
        vec![Primitive::Boolean(true)],
        vec![Primitive::Integer(1), Primitive::Integer(2)],
        vec![Primitive::GraphEdge(GraphEdge::new("a".to_string(), "b".to_string(), None))],
        vec![Primitive::Graph(Graph::new(vec![]))],
        vec![Primitive::GraphNode(GraphNode::new("n".to_string(), vec![]))],
    ];
    for values in cases {
        let k = values[0].get_type().to_string();
        assert_eq!(flatten_primitive_array_values(values).get_type().to_string(), format!("{}[]", k));
    }
    let mixed = flatten_primitive_array_values(vec![Primitive::Boolean(true), Primitive::Undefined]);
    assert_eq!(mixed.get_type().to_string(), "Any[]");
}

use rooc::primitives::primitive_traits::Spreadable;

fn spread(p: Primitive) -> String {
    match p.to_primitive_set() {
        Ok(v) => format!("{:?}", v),
        Err(e) => e.to_string(),
    }
}

#[test]
fn spreading_values() {
    let t = Tuple::new(vec![Primitive::Integer(1), Primitive::Boolean(false)]);
    assert_eq!(spread(Primitive::Tuple(t)), "[Integer(1), Boolean(false)]");
    let e = GraphEdge::new("a".to_string(), "b".to_string(), Some(2.5f64.to_bits()));
    match Primitive::GraphEdge(e).to_primitive_set() {
        Ok(v) => {
            assert_eq!(format!("{:?}", &v[..2]), "[String(\"a\"), String(\"b\")]");
            match v[2] {
                Primitive::Number(w) => assert_eq!(f64::from_bits(w), 2.5),
                _ => panic!("a weight is a number"),
            }
        }
        Err(_) => panic!("an edge spreads"),
    }
    // an edge without a weight spreads with weight 1
    let e = GraphEdge::new("a".to_string(), "b".to_string(), None);
    match Primitive::GraphEdge(e).to_primitive_set().ok().unwrap()[2] {
        Primitive::Number(w) => assert_eq!(f64::from_bits(w), 1.0),
        _ => panic!("a weight is a number"),
    }
    assert_eq!(spread(Primitive::Iterable(IterableKind::Integers(vec![1, 2]))), "[Integer(1), Integer(2)]");
    assert_eq!(spread(Primitive::Integer(3)), "[Unspreadable] type \"Integer\" is not spreadable");
    assert_eq!(spread(num(1.0)), "[Unspreadable] type \"Number\" is not spreadable");
    assert_eq!(spread(Primitive::Undefined), "[Unspreadable] type \"Undefined\" is not spreadable");
    assert_eq!(
        spread(Primitive::GraphNode(GraphNode::new("n".to_string(), vec![]))),
        "[Unspreadable] type \"GraphNode\" is not spreadable"
    );
    assert_eq!(spread(Primitive::Graph(Graph::new(vec![]))), "[Unspreadable] type \"Graph\" is not spreadable");
}

#[test]
fn law_spread_agrees_with_kind() {
    let values = vec![
        Primitive::Tuple(Tuple::new(vec![Primitive::String("x".to_string()), Primitive::PositiveInteger(2)])),
        Primitive::GraphEdge(GraphEdge::new("a".to_string(), "b".to_string(), None)),
        Primitive::Boolean(true),
        Primitive::String("s".to_string()),
        Primitive::Undefined,
    ];
    for p in values {
        let kinds = p.get_type().can_spread_into();
        match (p.to_primitive_set(), kinds) {
            (Ok(parts), Ok(ks)) => {
                let got: Vec<String> = parts.iter().map(|x| x.get_type().to_string()).collect();
                let want: Vec<String> = ks.iter().map(|k| k.to_string()).collect();
                assert_eq!(got, want);
            }
            (Err(e), Err(f)) => assert_eq!(e.to_string(), f.to_string()),
            _ => panic!("spreading disagrees with the kind"),
        }
    }
}

use rooc::consts::{InputSpan, Spanned};
use rooc::parser::il::iterable_set::variable_types;
use rooc::parser::model_transformer::model::VariableKind;
use rooc::parser::model_transformer::transform_error::TransformError;

fn at(line: usize) -> InputSpan {
    InputSpan { start_line: line, ..InputSpan::default() }
}

fn names(v: &[&str]) -> VariableKind {
    VariableKind::Tuple(v.iter().enumerate().map(|(i, n)| Spanned::new(n.to_string(), at(i))).collect())
}

fn bound(r: Result<Vec<(Spanned<String>, PrimitiveKind)>, TransformError>) -> Result<String, String> {
    r.map(|v| {
        v.iter()
            .map(|(n, k)| format!("{}: {}", n.get_span_value(), k.to_string()))
            .collect::<Vec<_>>()
            .join(", ")
    })
    .map_err(|e| e.to_string())
}

fn list_of(k: PrimitiveKind) -> PrimitiveKind {
    PrimitiveKind::Iterable(Box::new(k))
}

#[test]
fn single_variable_takes_the_element_kind() {
    let v = VariableKind::Single(Spanned::new("i".to_string(), at(1)));
    assert_eq!(bound(variable_types(&v, list_of(PrimitiveKind::Integer), at(9))), Ok("i: Integer".to_string()));
}

#[test]
fn iterating_over_a_non_list_is_an_error() {
    let v = VariableKind::Single(Spanned::new("i".to_string(), at(1)));
    let r = variable_types(&v, PrimitiveKind::Integer, at(9));
    match r {
        Err(e) => {
            assert_eq!(e.to_string(), "[WrongArgument] expected \"Any[]\", got \"Integer\"");
            assert_eq!(e.origin_span(), Some(at(9)));
        }
        Ok(_) => panic!("expected an error"),
    }
}

#[test]
fn tuples_over_lists_of_lists() {
    let r = variable_types(&names(&["a", "b"]), list_of(list_of(PrimitiveKind::String)), at(0));
    assert_eq!(bound(r), Ok("a: String, b: String".to_string()));
}

#[test]
fn tuples_over_spreadable_values() {
    let r = variable_types(&names(&["u", "v", "c"]), list_of(PrimitiveKind::GraphEdge), at(0));
    assert_eq!(bound(r), Ok("u: String, v: String, c: Number".to_string()));
    let r = variable_types(&names(&["u"]), list_of(PrimitiveKind::GraphEdge), at(0));
    assert_eq!(bound(r), Ok("u: String".to_string()));
    let tuple = PrimitiveKind::Tuple(vec![PrimitiveKind::Integer, PrimitiveKind::Boolean]);
    let r = variable_types(&names(&["x", "y"]), list_of(tuple), at(0));
    assert_eq!(bound(r), Ok("x: Integer, y: Boolean".to_string()));
}

#[test]
fn too_many_variables_is_an_error() {
    let r = variable_types(&names(&["a", "b", "c", "d"]), list_of(PrimitiveKind::GraphEdge), at(4));
    match r {
        Err(e) => {
            assert_eq!(e.to_string(), "[SpreadError] type \"GraphEdge\" cannot be spread in \"a, b, c, d\"");
            assert_eq!(e.origin_span(), Some(at(4)));
        }
        Ok(_) => panic!("expected an error"),
    }
}

#[test]
fn unspreadable_elements_are_an_error() {
    let r = variable_types(&names(&["a", "b"]), list_of(PrimitiveKind::Integer), at(4));
    assert_eq!(bound(r), Err("[Unspreadable] type \"Integer\" is not spreadable".to_string()));
}
