//! The kinds of primitive values and the type rules of the operators.
use vstd::prelude::*;
use crate::math::operators::{BinOp, UnOp};
use crate::parser::model_transformer::transform_error::TransformError;
use crate::primitives::primitive_traits::{ApplyOp, Spreadable};
use crate::text::{join, join_strings};
use crate::primitives::graph::{Graph, GraphEdge, GraphNode};
use crate::primitives::iterable::IterableKind;
use crate::primitives::tuple::Tuple;

verus! {

/// The kind (type) of a primitive value.
#[derive(Debug)]
pub enum PrimitiveKind {
    /// Floating point number type
    Number,
    /// Signed integer type
    Integer,
    /// Unsigned integer type
    PositiveInteger,
    /// String type
    String,
    /// Iterable type containing elements of the specified kind
    Iterable(Box<PrimitiveKind>),
    /// Graph type
    Graph,
    /// Graph edge type
    GraphEdge,
    /// Graph node type
    GraphNode,
    /// Tuple type containing a sequence of primitive kinds
    Tuple(Vec<PrimitiveKind>),
    /// Boolean type
    Boolean,
    /// Undefined type
    Undefined,
    /// Any type (used for type checking)
    Any,
}

/// A value of the language. A `Number` is held as the bit pattern of its
/// `f64` value.
#[derive(Debug)]
pub enum Primitive {
    /// A floating point number
    Number(u64),
    /// A signed integer
    Integer(i64),
    /// An unsigned integer
    PositiveInteger(u64),
    /// A text string
    String(String),
    /// An iterable collection of values
    Iterable(IterableKind),
    /// A graph structure
    Graph(Graph),
    /// An edge in a graph
    GraphEdge(GraphEdge),
    /// A node in a graph
    GraphNode(GraphNode),
    /// An ordered collection of primitives
    Tuple(Tuple),
    /// A boolean value
    Boolean(bool),
    /// Represents an undefined value
    Undefined,
}

impl Primitive {
    /// The kind of the value.
    pub open spec fn spec_kind(self) -> KindModel
        decreases self,
    {
        match self {
            Primitive::Number(_) => KindModel::Number,
            Primitive::Integer(_) => KindModel::Integer,
            Primitive::PositiveInteger(_) => KindModel::PositiveInteger,
            Primitive::String(_) => KindModel::String,
            Primitive::Iterable(i) => KindModel::Iterable(Box::new(i.spec_inner_kind())),
            Primitive::Graph(_) => KindModel::Graph,
            Primitive::GraphEdge(_) => KindModel::GraphEdge,
            Primitive::GraphNode(_) => KindModel::GraphNode,
            Primitive::Tuple(t) => KindModel::Tuple(primitive_kinds(t.0@)),
            Primitive::Boolean(_) => KindModel::Boolean,
            Primitive::Undefined => KindModel::Undefined,
        }
    }
}

/// The kinds of a list of values.
pub open spec fn primitive_kinds(v: Seq<Primitive>) -> Seq<KindModel>
    decreases v,
{
    if v.len() == 0 {
        seq![]
    } else {
        primitive_kinds(v.drop_last()).push(v.last().spec_kind())
    }
}

/// A primitive kind as a mathematical value.
pub enum KindModel {
    Number,
    Integer,
    PositiveInteger,
    String,
    Iterable(Box<KindModel>),
    Graph,
    GraphEdge,
    GraphNode,
    Tuple(Seq<KindModel>),
    Boolean,
    Undefined,
    Any,
}

impl PrimitiveKind {
    /// The kind as a mathematical value.
    pub open spec fn model(self) -> KindModel
        decreases self,
    {
        match self {
            PrimitiveKind::Number => KindModel::Number,
            PrimitiveKind::Integer => KindModel::Integer,
            PrimitiveKind::PositiveInteger => KindModel::PositiveInteger,
            PrimitiveKind::String => KindModel::String,
            PrimitiveKind::Iterable(b) => KindModel::Iterable(Box::new((*b).model())),
            PrimitiveKind::Graph => KindModel::Graph,
            PrimitiveKind::GraphEdge => KindModel::GraphEdge,
            PrimitiveKind::GraphNode => KindModel::GraphNode,
            PrimitiveKind::Tuple(v) => KindModel::Tuple(kind_models(v@)),
            PrimitiveKind::Boolean => KindModel::Boolean,
            PrimitiveKind::Undefined => KindModel::Undefined,
            PrimitiveKind::Any => KindModel::Any,
        }
    }
}

/// The models of a list of kinds.
pub open spec fn kind_models(v: Seq<PrimitiveKind>) -> Seq<KindModel>
    decreases v,
{
    if v.len() == 0 {
        seq![]
    } else {
        kind_models(v.drop_last()).push(v.last().model())
    }
}

/// A list of kinds has as many models as kinds.
pub proof fn lemma_kind_models_len(v: Seq<PrimitiveKind>)
    ensures
        kind_models(v).len() == v.len(),
    decreases v.len(),
{
    if v.len() > 0 {
        lemma_kind_models_len(v.drop_last());
    }
}

/// The model at a position is the model of the kind at that position.
pub proof fn lemma_kind_models_index(v: Seq<PrimitiveKind>, i: int)
    requires
        0 <= i < v.len(),
    ensures
        kind_models(v)[i] == v[i].model(),
        kind_models(v).len() == v.len(),
    decreases v.len(),
{
    lemma_kind_models_len(v);
    if i < v.len() - 1 {
        lemma_kind_models_index(v.drop_last(), i);
    }
}

/// The name of a kind: `T[]` for an iterable of `T`, `(A, B)` for a tuple.
pub open spec fn kind_text(k: KindModel) -> Seq<char>
    decreases k,
{
    match k {
        KindModel::Number => "Number"@,
        KindModel::String => "String"@,
        KindModel::Integer => "Integer"@,
        KindModel::PositiveInteger => "PositiveInteger"@,
        KindModel::Iterable(i) => kind_text(*i) + "[]"@,
        KindModel::Graph => "Graph"@,
        KindModel::GraphEdge => "GraphEdge"@,
        KindModel::GraphNode => "GraphNode"@,
        KindModel::Tuple(t) => "("@ + join(kind_texts(t), ", "@) + ")"@,
        KindModel::Boolean => "Boolean"@,
        KindModel::Undefined => "Undefined"@,
        KindModel::Any => "Any"@,
    }
}

/// The names of a list of kinds.
pub open spec fn kind_texts(t: Seq<KindModel>) -> Seq<Seq<char>>
    decreases t,
{
    if t.len() == 0 {
        seq![]
    } else {
        kind_texts(t.drop_last()).push(kind_text(t.last()))
    }
}

/// Whether values of the kind take part in arithmetic.
pub open spec fn spec_is_numeric(k: KindModel) -> bool {
    k is Number || k is Integer || k is PositiveInteger || k is Boolean
}

/// What a value of the kind spreads into when it is destructured: the
/// element kinds of a tuple, `(String, String, Number)` for an edge (its
/// ends and weight); `None` for every other kind.
pub open spec fn spec_spread_kinds(k: KindModel) -> Option<Seq<KindModel>> {
    match k {
        KindModel::Tuple(t) => Some(t),
        KindModel::GraphEdge => Some(seq![KindModel::String, KindModel::String, KindModel::Number]),
        _ => None,
    }
}

/// The binary operators that apply to a left operand of kind `k` and a
/// right operand of kind `to`: anything for `Any`; arithmetic between
/// numeric kinds; logic between booleans; `+` between strings.
pub open spec fn spec_can_apply_binary_op(k: KindModel, op: BinOp, to: KindModel) -> bool {
    match k {
        KindModel::Any => true,
        KindModel::Integer | KindModel::PositiveInteger | KindModel::Number => !op.spec_is_logic()
            && spec_is_numeric(to),
        KindModel::Boolean => if op.spec_is_logic() {
            to is Boolean
        } else {
            spec_is_numeric(to)
        },
        KindModel::String => op == BinOp::Add && to is String,
        _ => false,
    }
}

/// The unary operators that apply to an operand of kind `k`: anything for
/// `Any`; negation for numbers; negation and `not` for booleans.
pub open spec fn spec_can_apply_unary_op(k: KindModel, op: UnOp) -> bool {
    match k {
        KindModel::Any => true,
        KindModel::Integer | KindModel::PositiveInteger | KindModel::Number => op == UnOp::Neg,
        KindModel::Boolean => true,
        _ => false,
    }
}

impl PrimitiveKind {
    /// A copy of the kind.
    pub fn duplicate(&self) -> (r: PrimitiveKind)
        ensures
            r.model() == self.model(),
        decreases self,
    {
        match self {
            PrimitiveKind::Number => PrimitiveKind::Number,
            PrimitiveKind::Integer => PrimitiveKind::Integer,
            PrimitiveKind::PositiveInteger => PrimitiveKind::PositiveInteger,
            PrimitiveKind::String => PrimitiveKind::String,
            PrimitiveKind::Iterable(b) => {
                let inner = (**b).duplicate();
                PrimitiveKind::Iterable(Box::new(inner))
            },
            PrimitiveKind::Graph => PrimitiveKind::Graph,
            PrimitiveKind::GraphEdge => PrimitiveKind::GraphEdge,
            PrimitiveKind::GraphNode => PrimitiveKind::GraphNode,
            PrimitiveKind::Tuple(v) => PrimitiveKind::Tuple(duplicate_kinds(v)),
            PrimitiveKind::Boolean => PrimitiveKind::Boolean,
            PrimitiveKind::Undefined => PrimitiveKind::Undefined,
            PrimitiveKind::Any => PrimitiveKind::Any,
        }
    }

    /// Checks if the type is numeric (Number, Integer, PositiveInteger, or
    /// Boolean).
    pub fn is_numeric(&self) -> (r: bool)
        ensures
            r == spec_is_numeric(self.model()),
    {
        match self {
            PrimitiveKind::Number | PrimitiveKind::Integer | PrimitiveKind::PositiveInteger
            | PrimitiveKind::Boolean => true,
            _ => false,
        }
    }

    /// Whether the kind is `Any`.
    pub fn is_any(&self) -> (r: bool)
        ensures
            r == (self.model() is Any),
    {
        match self {
            PrimitiveKind::Any => true,
            _ => false,
        }
    }

    /// Whether the kind is an iterable.
    pub fn is_iterable(&self) -> (r: bool)
        ensures
            r == (self.model() is Iterable),
    {
        match self {
            PrimitiveKind::Iterable(_) => true,
            _ => false,
        }
    }

    /// Returns the types that this primitive kind can be spread into, or
    /// `Unspreadable` with the kind.
    pub fn can_spread_into(&self) -> (r: Result<Vec<PrimitiveKind>, TransformError>)
        ensures
            match (r, spec_spread_kinds(self.model())) {
                (Ok(v), Some(ks)) => kind_models(v@) == ks,
                (Err(e), None) => e is Unspreadable && e->Unspreadable_0.model() == self.model(),
                _ => false,
            },
    {
        match self {
            PrimitiveKind::Tuple(t) => Ok(duplicate_kinds(t)),
            PrimitiveKind::GraphEdge => {
                let r = vec![PrimitiveKind::String, PrimitiveKind::String, PrimitiveKind::Number];
                proof {
                    reveal_with_fuel(kind_models, 4);
                    assert(r@.drop_last().drop_last().drop_last() =~= Seq::<PrimitiveKind>::empty());
                    assert(kind_models(r@) =~= seq![KindModel::String, KindModel::String, KindModel::Number]);
                }
                Ok(r)
            },
            _ => Err(TransformError::Unspreadable(self.duplicate())),
        }
    }

    /// Whether `op` applies with this kind on the left and `to` on the
    /// right.
    pub fn can_apply_binary_op(&self, op: BinOp, to: PrimitiveKind) -> (r: bool)
        ensures
            r == spec_can_apply_binary_op(self.model(), op, to.model()),
    {
        match self {
            PrimitiveKind::Any => true,
            PrimitiveKind::Undefined => false,
            PrimitiveKind::Integer => <i64 as ApplyOp>::can_apply_binary_op(op, to),
            PrimitiveKind::PositiveInteger => <u64 as ApplyOp>::can_apply_binary_op(op, to),
            PrimitiveKind::Number => number_can_apply_binary_op(op, to),
            PrimitiveKind::Boolean => <bool as ApplyOp>::can_apply_binary_op(op, to),
            PrimitiveKind::Graph | PrimitiveKind::GraphEdge | PrimitiveKind::GraphNode
            | PrimitiveKind::Tuple(_) | PrimitiveKind::Iterable(_) => false,
            PrimitiveKind::String => <String as ApplyOp>::can_apply_binary_op(op, to),
        }
    }

    /// Whether `op` applies to an operand of this kind.
    pub fn can_apply_unary_op(&self, op: UnOp) -> (r: bool)
        ensures
            r == spec_can_apply_unary_op(self.model(), op),
    {
        match self {
            PrimitiveKind::Any => true,
            PrimitiveKind::Undefined => false,
            PrimitiveKind::Integer => <i64 as ApplyOp>::can_apply_unary_op(op),
            PrimitiveKind::PositiveInteger => <u64 as ApplyOp>::can_apply_unary_op(op),
            PrimitiveKind::Number => number_can_apply_unary_op(op),
            PrimitiveKind::Boolean => <bool as ApplyOp>::can_apply_unary_op(op),
            PrimitiveKind::Graph | PrimitiveKind::GraphEdge | PrimitiveKind::GraphNode
            | PrimitiveKind::Tuple(_) | PrimitiveKind::Iterable(_) => false,
            PrimitiveKind::String => <String as ApplyOp>::can_apply_unary_op(op),
        }
    }

    /// The name of the kind.
    pub fn to_string(&self) -> (r: String)
        ensures
            r@ == kind_text(self.model()),
        decreases self,
    {
        match self {
            PrimitiveKind::Number => String::from_str("Number"),
            PrimitiveKind::String => String::from_str("String"),
            PrimitiveKind::Integer => String::from_str("Integer"),
            PrimitiveKind::PositiveInteger => String::from_str("PositiveInteger"),
            PrimitiveKind::Iterable(i) => {
                let mut s = (**i).to_string();
                s.append("[]");
                s
            },
            PrimitiveKind::Graph => String::from_str("Graph"),
            PrimitiveKind::GraphEdge => String::from_str("GraphEdge"),
            PrimitiveKind::GraphNode => String::from_str("GraphNode"),
            PrimitiveKind::Tuple(t) => {
                let names = kinds_to_strings(t);
                let mut s = String::from_str("(");
                s.append(join_strings(&names, ", ").as_str());
                s.append(")");
                s
            },
            PrimitiveKind::Boolean => String::from_str("Boolean"),
            PrimitiveKind::Undefined => String::from_str("Undefined"),
            PrimitiveKind::Any => String::from_str("Any"),
        }
    }
}

impl PrimitiveKind {
    /// The kind of a value.
    pub fn from_primitive(p: &Primitive) -> (r: PrimitiveKind)
        ensures
            r.model() == p.spec_kind(),
    {
        p.get_type()
    }
}

impl Primitive {
    /// The kind of the value.
    pub fn get_type(&self) -> (r: PrimitiveKind)
        ensures
            r.model() == self.spec_kind(),
        decreases self,
    {
        match self {
            Primitive::Number(_) => PrimitiveKind::Number,
            Primitive::Integer(_) => PrimitiveKind::Integer,
            Primitive::PositiveInteger(_) => PrimitiveKind::PositiveInteger,
            Primitive::String(_) => PrimitiveKind::String,
            Primitive::Iterable(i) => PrimitiveKind::Iterable(Box::new(i.inner_type())),
            Primitive::Graph(_) => PrimitiveKind::Graph,
            Primitive::GraphEdge(_) => PrimitiveKind::GraphEdge,
            Primitive::GraphNode(_) => PrimitiveKind::GraphNode,
            Primitive::Tuple(t) => PrimitiveKind::Tuple(t.inner_types()),
            Primitive::Boolean(_) => PrimitiveKind::Boolean,
            Primitive::Undefined => PrimitiveKind::Undefined,
        }
    }

    /// The name of the kind of the value.
    pub fn type_string(&self) -> (r: String)
        ensures
            r@ == kind_text(self.spec_kind()),
    {
        self.get_type().to_string()
    }
}

impl ApplyOp for Primitive {
    open spec fn spec_can_apply_binary_op(op: BinOp, to: KindModel) -> bool {
        false
    }

    open spec fn spec_can_apply_unary_op(op: UnOp) -> bool {
        false
    }

    fn can_apply_binary_op(op: BinOp, to: PrimitiveKind) -> (r: bool) {
        false
    }

    fn can_apply_unary_op(op: UnOp) -> (r: bool) {
        false
    }
}

impl Spreadable for Primitive {
    open spec fn spec_spread(self) -> Result<Seq<Primitive>, KindModel> {
        match self {
            Primitive::Boolean(b) => b.spec_spread(),
            Primitive::String(s) => s.spec_spread(),
            Primitive::Tuple(t) => t.spec_spread(),
            Primitive::GraphNode(n) => n.spec_spread(),
            Primitive::GraphEdge(e) => e.spec_spread(),
            Primitive::Graph(g) => g.spec_spread(),
            Primitive::Iterable(i) => i.spec_spread(),
            Primitive::Number(_) => Err(KindModel::Number),
            Primitive::Integer(i) => i.spec_spread(),
            Primitive::PositiveInteger(u) => u.spec_spread(),
            Primitive::Undefined => Err(KindModel::Undefined),
        }
    }

    fn to_primitive_set(self) -> (r: Result<Vec<Primitive>, TransformError>) {
        match self {
            Primitive::Boolean(b) => b.to_primitive_set(),
            Primitive::String(s) => s.to_primitive_set(),
            Primitive::Tuple(t) => t.to_primitive_set(),
            Primitive::GraphNode(n) => n.to_primitive_set(),
            Primitive::GraphEdge(e) => e.to_primitive_set(),
            Primitive::Graph(g) => g.to_primitive_set(),
            Primitive::Iterable(i) => i.to_primitive_set(),
            Primitive::Number(_) => Err(TransformError::Unspreadable(PrimitiveKind::Number)),
            Primitive::Integer(i) => i.to_primitive_set(),
            Primitive::PositiveInteger(u) => u.to_primitive_set(),
            Primitive::Undefined => Err(TransformError::Unspreadable(PrimitiveKind::Undefined)),
        }
    }
}

/// Spreading a value agrees with what its kind says it spreads into: a
/// value that is not a list spreads exactly when its kind does, into values
/// of the kinds that `can_spread_into` lists, and otherwise is refused with
/// its own kind. (A list spreads into its elements although its kind is not
/// spreadable.)
pub proof fn lemma_spread_agrees_with_kind(p: Primitive)
    requires
        !(p is Iterable),
    ensures
        match (p.spec_spread(), spec_spread_kinds(p.spec_kind())) {
            (Ok(parts), Some(kinds)) => primitive_kinds(parts) == kinds,
            (Err(k), None) => k == p.spec_kind(),
            _ => false,
        },
{
    if let Primitive::GraphEdge(e) = p {
        let parts = p.spec_spread()->Ok_0;
        assert(parts.drop_last().drop_last().drop_last() =~= Seq::<Primitive>::empty());
        reveal_with_fuel(primitive_kinds, 4);
        assert(primitive_kinds(parts) =~= seq![KindModel::String, KindModel::String, KindModel::Number]);
    }
}

/// Whether two kinds are the same kind, as `==` on kinds decides.
pub fn same_kind(a: &PrimitiveKind, b: &PrimitiveKind) -> (r: bool)
    ensures
        r == (a.model() == b.model()),
    decreases a,
{
    match (a, b) {
        (PrimitiveKind::Number, PrimitiveKind::Number) => true,
        (PrimitiveKind::Integer, PrimitiveKind::Integer) => true,
        (PrimitiveKind::PositiveInteger, PrimitiveKind::PositiveInteger) => true,
        (PrimitiveKind::String, PrimitiveKind::String) => true,
        (PrimitiveKind::Iterable(x), PrimitiveKind::Iterable(y)) => same_kind(&**x, &**y),
        (PrimitiveKind::Graph, PrimitiveKind::Graph) => true,
        (PrimitiveKind::GraphEdge, PrimitiveKind::GraphEdge) => true,
        (PrimitiveKind::GraphNode, PrimitiveKind::GraphNode) => true,
        (PrimitiveKind::Tuple(xs), PrimitiveKind::Tuple(ys)) => {
            proof {
                lemma_kind_models_len(xs@);
                lemma_kind_models_len(ys@);
            }
            if xs.len() != ys.len() {
                return false;
            }
            let mut i: usize = 0;
            while i < xs.len()
                invariant
                    i <= xs@.len(),
                    xs@.len() == ys@.len(),
                    *a == PrimitiveKind::Tuple(*xs),
                    *b == PrimitiveKind::Tuple(*ys),
                    kind_models(xs@).len() == xs@.len(),
                    kind_models(ys@).len() == ys@.len(),
                    forall|j: int| 0 <= j < i ==> kind_models(xs@)[j] == kind_models(ys@)[j],
                decreases xs@.len() - i,
            {
                proof {
                    assert(decreases_to!(a => xs@[i as int]));
                    lemma_kind_models_index(xs@, i as int);
                    lemma_kind_models_index(ys@, i as int);
                }
                if !same_kind(&xs[i], &ys[i]) {
                    proof {
                        assert(kind_models(xs@)[i as int] != kind_models(ys@)[i as int]);
                    }
                    return false;
                }
                i += 1;
            }
            proof {
                assert(kind_models(xs@) =~= kind_models(ys@));
            }
            true
        },
        (PrimitiveKind::Boolean, PrimitiveKind::Boolean) => true,
        (PrimitiveKind::Undefined, PrimitiveKind::Undefined) => true,
        (PrimitiveKind::Any, PrimitiveKind::Any) => true,
        _ => false,
    }
}

/// The arithmetic rules of a `Number` operand on the left.
pub fn number_can_apply_binary_op(op: BinOp, to: PrimitiveKind) -> (r: bool)
    ensures
        r == spec_can_apply_binary_op(KindModel::Number, op, to.model()),
{
    match op {
        BinOp::Add | BinOp::Sub | BinOp::Mul | BinOp::Div => to.is_numeric(),
        BinOp::And | BinOp::Or | BinOp::Xor | BinOp::Implies | BinOp::Iff => false,
    }
}

/// The unary rules of a `Number` operand.
pub fn number_can_apply_unary_op(op: UnOp) -> (r: bool)
    ensures
        r == spec_can_apply_unary_op(KindModel::Number, op),
{
    match op {
        UnOp::Neg => true,
        UnOp::Not => false,
    }
}

/// Copies a list of kinds.
pub fn duplicate_kinds(v: &Vec<PrimitiveKind>) -> (r: Vec<PrimitiveKind>)
    ensures
        kind_models(r@) == kind_models(v@),
    decreases v,
{
    let mut out: Vec<PrimitiveKind> = Vec::new();
    let mut i: usize = 0;
    while i < v.len()
        invariant
            i <= v.len(),
            out@.len() == i,
            kind_models(out@) == kind_models(v@.take(i as int)),
        decreases v.len() - i,
    {
        let k = v[i].duplicate();
        proof {
            assert(out@.push(k).drop_last() =~= out@);
            assert(v@.take(i + 1).drop_last() =~= v@.take(i as int));
            assert(v@.take(i + 1).last() == v@[i as int]);
        }
        out.push(k);
        i += 1;
    }
    assert(v@.take(v.len() as int) =~= v@);
    out
}

/// The names of a list of kinds.
pub(crate) fn kinds_to_strings(v: &Vec<PrimitiveKind>) -> (r: Vec<String>)
    ensures
        crate::text::views(r@) == kind_texts(kind_models(v@)),
    decreases v,
{
    let mut out: Vec<String> = Vec::new();
    let mut i: usize = 0;
    while i < v.len()
        invariant
            i <= v.len(),
            out@.len() == i,
            crate::text::views(out@) == kind_texts(kind_models(v@.take(i as int))),
        decreases v.len() - i,
    {
        let s = v[i].to_string();
        proof {
            assert(v@.take(i + 1).drop_last() =~= v@.take(i as int));
            assert(v@.take(i + 1).last() == v@[i as int]);
            lemma_kind_models_len(v@.take(i + 1));
            assert(kind_models(v@.take(i + 1)).drop_last() =~= kind_models(v@.take(i as int)));
            assert(crate::text::views(out@.push(s)) =~= crate::text::views(out@).push(s@));
        }
        out.push(s);
        i += 1;
    }
    assert(v@.take(v.len() as int) =~= v@);
    out
}

} // verus!
