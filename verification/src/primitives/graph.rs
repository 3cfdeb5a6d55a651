//! Graphs: nodes with their outgoing edges, one edge per target node.
use vstd::prelude::*;
use indexmap::IndexMap;
use crate::math::operators::{BinOp, UnOp};
use crate::parser::model_transformer::transform_error::TransformError;
use crate::primitives::primitive::{PrimitiveKind, KindModel, spec_can_apply_binary_op, spec_can_apply_unary_op};
use crate::primitives::primitive::Primitive;
use crate::primitives::primitive_traits::{ApplyOp, Spreadable};
use crate::text::{str_eq, first_index, lemma_first_index, first_appearances, join, views, join_strings};

verus! {

/// The insertion-ordered map of the `indexmap` crate.
#[verifier::external_type_specification]
#[verifier::external_body]
#[verifier::reject_recursive_types(K)]
#[verifier::reject_recursive_types(V)]
#[verifier::reject_recursive_types(S)]
pub struct ExIndexMap<K, V, S>(IndexMap<K, V, S>);

/// An edge of a graph, from one node to another, with an optional weight.
/// The weight is held as the bit pattern of its `f64` value.
#[derive(Debug)]
pub struct GraphEdge {
    pub from: String,
    pub to: String,
    pub weight: Option<u64>,
}

/// An edge as plain values: source, target and weight.
pub type EdgeView = (Seq<char>, Seq<char>, Option<u64>);

/// An edge as plain values.
pub open spec fn edge_view(e: GraphEdge) -> EdgeView {
    (e.from@, e.to@, e.weight)
}

/// A list of edges as plain values.
pub open spec fn edge_views(v: Seq<GraphEdge>) -> Seq<EdgeView> {
    v.map_values(|e: GraphEdge| edge_view(e))
}

/// What an `IndexMap` from target names to edges holds, in its order: each
/// key's text with its edge as plain values.
pub uninterp spec fn edge_entries(m: IndexMap<String, GraphEdge>) -> Seq<(Seq<char>, EdgeView)>;

/// The keys of a list of entries, in order.
pub open spec fn entry_keys(entries: Seq<(Seq<char>, EdgeView)>) -> Seq<Seq<char>> {
    entries.map_values(|e: (Seq<char>, EdgeView)| e.0)
}

/// The first position of `key` among the keys of `entries`.
pub open spec fn key_index(entries: Seq<(Seq<char>, EdgeView)>, key: Seq<char>) -> Option<int> {
    first_index(entry_keys(entries), key)
}

/// `entries` after inserting `value` under `key`: an entry with that key
/// keeps its place and takes the new value; otherwise the pair comes last.
pub open spec fn spec_insert(entries: Seq<(Seq<char>, EdgeView)>, key: Seq<char>, value: EdgeView) -> Seq<
    (Seq<char>, EdgeView),
> {
    match key_index(entries, key) {
        Some(i) => entries.update(i, (entries[i].0, value)),
        None => entries.push((key, value)),
    }
}

/// The entries of the map built from `edges` in order, each keyed by its
/// target.
pub open spec fn spec_collect(edges: Seq<EdgeView>) -> Seq<(Seq<char>, EdgeView)>
    decreases edges.len(),
{
    if edges.len() == 0 {
        seq![]
    } else {
        spec_insert(spec_collect(edges.drop_last()), edges.last().1, edges.last())
    }
}

/// The values of a list of entries, in order.
pub open spec fn entry_values(entries: Seq<(Seq<char>, EdgeView)>) -> Seq<EdgeView> {
    entries.map_values(|e: (Seq<char>, EdgeView)| e.1)
}

/// `IndexMap::new`: a map with no entries.
#[verifier::external_body]
fn new_edge_map() -> (r: IndexMap<String, GraphEdge>)
    ensures
        edge_entries(r) == Seq::<(Seq<char>, EdgeView)>::empty(),
{
    IndexMap::new()
}

/// `IndexMap::insert`: an entry with an equal key keeps its place and takes
/// the new value, and the old value is returned; otherwise the pair is added
/// last and `None` is returned.
#[verifier::external_body]
fn edge_map_insert(m: &mut IndexMap<String, GraphEdge>, key: String, value: GraphEdge) -> (r: Option<
    GraphEdge,
>)
    ensures
        edge_entries(*final(m)) == spec_insert(edge_entries(*old(m)), key@, edge_view(value)),
        match key_index(edge_entries(*old(m)), key@) {
            Some(i) => r is Some && edge_view(r->0) == edge_entries(*old(m))[i].1,
            None => r is None,
        },
{
    m.insert(key, value)
}

/// `IndexMap::into_values`, collected: the values in the map's order.
#[verifier::external_body]
fn edge_map_into_values(m: IndexMap<String, GraphEdge>) -> (r: Vec<GraphEdge>)
    ensures
        edge_views(r@) == entry_values(edge_entries(m)),
{
    m.into_values().collect()
}

/// `IndexMap::values`, collected: the values in the map's order.
#[verifier::external_body]
fn edge_map_values(m: &IndexMap<String, GraphEdge>) -> (r: Vec<&GraphEdge>)
    ensures
        r@.len() == edge_entries(*m).len(),
        forall|i: int| 0 <= i < r@.len() ==> edge_view(*#[trigger] r@[i]) == edge_entries(*m)[i].1,
{
    m.values().collect()
}

impl GraphEdge {
    /// An edge from `from` to `to`, with an optional weight.
    pub fn new(from: String, to: String, weight: Option<u64>) -> (r: Self)
        ensures
            r.from == from,
            r.to == to,
            r.weight == weight,
    {
        Self { from, to, weight }
    }
}

/// The targets of a list of edges, in order.
pub open spec fn targets(edges: Seq<EdgeView>) -> Seq<Seq<char>> {
    edges.map_values(|e: EdgeView| e.1)
}

/// Inserting under a key that is present keeps the keys; inserting under a
/// new one adds it last.
proof fn lemma_insert_keys(entries: Seq<(Seq<char>, EdgeView)>, key: Seq<char>, value: EdgeView)
    ensures
        entry_keys(spec_insert(entries, key, value)) == if entry_keys(entries).contains(key) {
            entry_keys(entries)
        } else {
            entry_keys(entries).push(key)
        },
{
    lemma_first_index(entry_keys(entries), key);
    let r = spec_insert(entries, key, value);
    match key_index(entries, key) {
        Some(i) => {
            assert(entry_keys(entries)[i] == key);
            assert(entry_keys(r) =~= entry_keys(entries));
        },
        None => {
            assert(entry_keys(r) =~= entry_keys(entries).push(key));
        },
    }
}

/// A node lists the targets of its edges once each, in the order in which
/// they first appear among the edges it was built from.
pub proof fn lemma_collect_keys(edges: Seq<EdgeView>)
    ensures
        entry_keys(spec_collect(edges)) == first_appearances(targets(edges)),
    decreases edges.len(),
{
    if edges.len() > 0 {
        lemma_collect_keys(edges.drop_last());
        assert(targets(edges).drop_last() =~= targets(edges.drop_last()));
        lemma_insert_keys(spec_collect(edges.drop_last()), edges.last().1, edges.last());
    }
}

/// Every edge of a node is stored under the name of its target.
pub proof fn lemma_collect_keyed_by_target(edges: Seq<EdgeView>)
    ensures
        forall|i: int|
            0 <= i < spec_collect(edges).len() ==> #[trigger] spec_collect(edges)[i].0
                == spec_collect(edges)[i].1.1,
    decreases edges.len(),
{
    if edges.len() > 0 {
        lemma_collect_keyed_by_target(edges.drop_last());
        let before = spec_collect(edges.drop_last());
        lemma_first_index(entry_keys(before), edges.last().1);
        match key_index(before, edges.last().1) {
            Some(k) => {
                assert(entry_keys(before)[k] == before[k].0);
            },
            None => {},
        }
    }
}

/// Where several edges share a target, the node keeps the last of them:
/// an edge that no later edge shares a target with is stored as it is.
pub proof fn lemma_collect_last_edge_wins(edges: Seq<EdgeView>, p: int)
    requires
        0 <= p < edges.len(),
        forall|q: int| p < q < edges.len() ==> edges[q].1 != edges[p].1,
    ensures
        exists|i: int|
            0 <= i < spec_collect(edges).len() && #[trigger] spec_collect(edges)[i] == (
                edges[p].1,
                edges[p],
            ),
    decreases edges.len(),
{
    let before = spec_collect(edges.drop_last());
    let key = edges.last().1;
    lemma_first_index(entry_keys(before), key);
    if p == edges.len() - 1 {
        match key_index(before, key) {
            Some(k) => {
                assert(entry_keys(before)[k] == before[k].0);
                assert(spec_collect(edges)[k] == (edges[p].1, edges[p]));
            },
            None => {
                assert(spec_collect(edges)[before.len() as int] == (edges[p].1, edges[p]));
            },
        }
    } else {
        lemma_collect_last_edge_wins(edges.drop_last(), p);
        let i = choose|i: int| 0 <= i < before.len() && #[trigger] before[i] == (edges[p].1, edges[p]);
        match key_index(before, key) {
            Some(k) => {
                assert(entry_keys(before)[k] == key);
                assert(entry_keys(before)[i] == edges[p].1);
                assert(k != i);
                assert(spec_collect(edges)[i] == (edges[p].1, edges[p]));
            },
            None => {
                assert(spec_collect(edges)[i] == (edges[p].1, edges[p]));
            },
        }
    }
}

/// A node of a graph with its outgoing edges, keyed by their targets.
#[derive(Debug)]
pub struct GraphNode {
    name: String,
    edges: IndexMap<String, GraphEdge>,
}

impl GraphNode {
    /// The name of the node.
    pub closed spec fn spec_name(self) -> Seq<char> {
        self.name@
    }

    /// The outgoing edges, in order, each under the name of its target.
    pub closed spec fn spec_edges(self) -> Seq<(Seq<char>, EdgeView)> {
        edge_entries(self.edges)
    }

    /// A node named `name` with the given outgoing edges: one edge per
    /// target, in the order in which the targets first appear, the last
    /// edge given for a target replacing the earlier ones.
    pub fn new(name: String, edges: Vec<GraphEdge>) -> (r: Self)
        ensures
            r.spec_name() == name@,
            r.spec_edges() == spec_collect(edge_views(edges@)),
    {
        let ghost all = edge_views(edges@);
        let mut rest = edges;
        let mut map = new_edge_map();
        let mut k: usize = 0;
        let n: usize = rest.len();
        proof {
            assert(all.len() == rest@.len());
            assert(all.take(0) =~= Seq::<EdgeView>::empty());
        }
        while rest.len() > 0
            invariant
                k + rest@.len() == all.len(),
                all.len() == n,
                edge_views(rest@) == all.skip(k as int),
                edge_entries(map) == spec_collect(all.take(k as int)),
            decreases rest.len(),
        {
            proof {
                assert(edge_views(rest@)[0] == edge_view(rest@[0]));
            }
            let ghost before = rest@;
            let edge = rest.remove(0);
            proof {
                assert(edge_views(rest@) =~= edge_views(before).drop_first());
                assert(all.take(k + 1).drop_last() =~= all.take(k as int));
                assert(all.take(k + 1).last() == all[k as int]);
            }
            let key = edge.to.clone();
            edge_map_insert(&mut map, key, edge);
            k += 1;
        }
        proof {
            assert(all.take(k as int) =~= all);
        }
        Self { name, edges: map }
    }

    /// The outgoing edges, in order.
    pub fn to_edges(self) -> (r: Vec<GraphEdge>)
        ensures
            edge_views(r@) == entry_values(self.spec_edges()),
    {
        edge_map_into_values(self.edges)
    }

    /// The name of the node.
    pub fn name(&self) -> (r: &String)
        ensures
            r@ == self.spec_name(),
    {
        &self.name
    }
}

/// A graph: its nodes, in order.
#[derive(Debug)]
pub struct Graph {
    vertices: Vec<GraphNode>,
}

/// The names of a list of nodes, in order.
pub open spec fn node_names(nodes: Seq<GraphNode>) -> Seq<Seq<char>> {
    nodes.map_values(|n: GraphNode| n.spec_name())
}

/// The edges of a list of nodes: those of the first node, then those of the
/// next, and so on.
pub open spec fn all_edges(nodes: Seq<GraphNode>) -> Seq<EdgeView>
    decreases nodes.len(),
{
    if nodes.len() == 0 {
        seq![]
    } else {
        all_edges(nodes.drop_last()) + entry_values(nodes.last().spec_edges())
    }
}

/// The message of a lookup of a node that the graph does not have.
pub open spec fn node_not_found(name: Seq<char>) -> Seq<char> {
    "node "@ + name + " not found in graph"@
}

/// The error of a lookup of a node that the graph does not have.
fn not_found(node_name: &str) -> (r: TransformError)
    ensures
        r is Other && r->Other_0@ == node_not_found(node_name@),
{
    let mut s = String::from_str("node ");
    s.append(node_name);
    s.append(" not found in graph");
    TransformError::Other(s)
}

impl Graph {
    /// The nodes, in order.
    pub closed spec fn spec_vertices(self) -> Seq<GraphNode> {
        self.vertices@
    }

    /// The first node named `name`, if any.
    pub open spec fn spec_node_index(self, name: Seq<char>) -> Option<int> {
        first_index(node_names(self.spec_vertices()), name)
    }

    /// A graph with the given nodes.
    pub fn new(vertices: Vec<GraphNode>) -> (r: Self)
        ensures
            r.spec_vertices() == vertices@,
    {
        Self { vertices }
    }

    /// The position of the first node named `node_name`.
    fn find_node(&self, node_name: &str) -> (r: Option<usize>)
        ensures
            match r {
                Some(i) => i < self.spec_vertices().len() && self.spec_node_index(node_name@) == Some(
                    i as int,
                ),
                None => self.spec_node_index(node_name@) is None,
            },
    {
        let ghost names = node_names(self.vertices@);
        proof {
            lemma_first_index(names, node_name@);
        }
        let mut i: usize = 0;
        while i < self.vertices.len()
            invariant
                i <= self.vertices.len(),
                names == node_names(self.vertices@),
                forall|j: int| 0 <= j < i ==> names[j] != node_name@,
                match first_index(names, node_name@) {
                    Some(k) => 0 <= k < names.len() && names[k] == node_name@ && forall|j: int|
                        0 <= j < k ==> names[j] != node_name@,
                    None => forall|j: int| 0 <= j < names.len() ==> names[j] != node_name@,
                },
            decreases self.vertices.len() - i,
        {
            if str_eq(self.vertices[i].name.as_str(), node_name) {
                proof {
                    assert(names[i as int] == node_name@);
                }
                return Some(i);
            }
            i += 1;
        }
        None
    }

    /// The outgoing edges of the first node named `node_name`, in order; an
    /// error when the graph has no such node.
    pub fn neighbour_of(&self, node_name: &str) -> (r: Result<Vec<&GraphEdge>, TransformError>)
        ensures
            match self.spec_node_index(node_name@) {
                Some(i) => r is Ok && r->Ok_0@.len() == self.spec_vertices()[i].spec_edges().len()
                    && forall|j: int|
                    0 <= j < r->Ok_0@.len() ==> edge_view(*#[trigger] r->Ok_0@[j])
                        == self.spec_vertices()[i].spec_edges()[j].1,
                None => r is Err && r->Err_0 is Other && r->Err_0->Other_0@ == node_not_found(
                    node_name@,
                ),
            },
    {
        match self.find_node(node_name) {
            Some(i) => Ok(edge_map_values(&self.vertices[i].edges)),
            None => Err(not_found(node_name)),
        }
    }

    /// The outgoing edges of the first node named `node_name`, in order,
    /// taking the graph apart; an error when the graph has no such node.
    pub fn into_neighbours_of(self, node_name: &str) -> (r: Result<Vec<GraphEdge>, TransformError>)
        ensures
            match self.spec_node_index(node_name@) {
                Some(i) => r is Ok && edge_views(r->Ok_0@) == entry_values(
                    self.spec_vertices()[i].spec_edges(),
                ),
                None => r is Err && r->Err_0 is Other && r->Err_0->Other_0@ == node_not_found(
                    node_name@,
                ),
            },
    {
        match self.find_node(node_name) {
            Some(i) => {
                let mut vertices = self.vertices;
                let node = vertices.remove(i);
                Ok(node.to_edges())
            },
            None => Err(not_found(node_name)),
        }
    }

    /// All the edges of the graph: those of the first node, then those of
    /// the next, and so on.
    pub fn to_edges(self) -> (r: Vec<GraphEdge>)
        ensures
            edge_views(r@) == all_edges(self.spec_vertices()),
    {
        let ghost all = self.vertices@;
        let mut rest = self.vertices;
        let mut out: Vec<GraphEdge> = Vec::new();
        let mut k: usize = 0;
        let n: usize = rest.len();
        while rest.len() > 0
            invariant
                k + rest@.len() == all.len(),
                all.len() == n,
                rest@ == all.skip(k as int),
                edge_views(out@) == all_edges(all.take(k as int)),
            decreases rest.len(),
        {
            let ghost before = rest@;
            let node = rest.remove(0);
            proof {
                assert(rest@ =~= all.skip(k + 1));
                assert(all.take(k + 1).drop_last() =~= all.take(k as int));
                assert(all.take(k + 1).last() == node);
            }
            let mut edges = node.to_edges();
            let ghost out_before = out@;
            let ghost edges_before = edges@;
            out.append(&mut edges);
            proof {
                assert(edge_views(out@) =~= edge_views(out_before) + edge_views(edges_before));
            }
            k += 1;
        }
        proof {
            assert(all.take(k as int) =~= all);
        }
        out
    }

    /// The nodes, in order.
    pub fn nodes(&self) -> (r: &Vec<GraphNode>)
        ensures
            r@ == self.spec_vertices(),
    {
        &self.vertices
    }

    /// The nodes, in order, taking the graph apart.
    pub fn to_nodes(self) -> (r: Vec<GraphNode>)
        ensures
            r@ == self.spec_vertices(),
    {
        self.vertices
    }

    /// The nodes, in order.
    pub fn vertices(&self) -> (r: &Vec<GraphNode>)
        ensures
            r@ == self.spec_vertices(),
    {
        &self.vertices
    }
}

impl ApplyOp for GraphNode {
    open spec fn spec_can_apply_binary_op(op: BinOp, to: KindModel) -> bool {
        spec_can_apply_binary_op(KindModel::GraphNode, op, to)
    }

    open spec fn spec_can_apply_unary_op(op: UnOp) -> bool {
        spec_can_apply_unary_op(KindModel::GraphNode, op)
    }

    fn can_apply_binary_op(op: BinOp, to: PrimitiveKind) -> (r: bool) {
        false
    }

    fn can_apply_unary_op(op: UnOp) -> (r: bool) {
        false
    }
}

impl ApplyOp for GraphEdge {
    open spec fn spec_can_apply_binary_op(op: BinOp, to: KindModel) -> bool {
        spec_can_apply_binary_op(KindModel::GraphEdge, op, to)
    }

    open spec fn spec_can_apply_unary_op(op: UnOp) -> bool {
        spec_can_apply_unary_op(KindModel::GraphEdge, op)
    }

    fn can_apply_binary_op(op: BinOp, to: PrimitiveKind) -> (r: bool) {
        false
    }

    fn can_apply_unary_op(op: UnOp) -> (r: bool) {
        false
    }
}

impl ApplyOp for Graph {
    open spec fn spec_can_apply_binary_op(op: BinOp, to: KindModel) -> bool {
        spec_can_apply_binary_op(KindModel::Graph, op, to)
    }

    open spec fn spec_can_apply_unary_op(op: UnOp) -> bool {
        spec_can_apply_unary_op(KindModel::Graph, op)
    }

    fn can_apply_binary_op(op: BinOp, to: PrimitiveKind) -> (r: bool) {
        false
    }

    fn can_apply_unary_op(op: UnOp) -> (r: bool) {
        false
    }
}

/// The bit pattern of the `f64` value 1, the weight of an edge that has
/// none.
pub const UNIT_WEIGHT: u64 = 4607182418800017408;

impl Spreadable for GraphEdge {
    open spec fn spec_spread(self) -> Result<Seq<Primitive>, KindModel> {
        Ok(
            seq![
                Primitive::String(self.from),
                Primitive::String(self.to),
                Primitive::Number(
                    match self.weight {
                        Some(w) => w,
                        None => UNIT_WEIGHT,
                    },
                ),
            ],
        )
    }

    fn to_primitive_set(self) -> (r: Result<Vec<Primitive>, TransformError>) {
        let weight = match self.weight {
            Some(w) => w,
            None => UNIT_WEIGHT,
        };
        Ok(vec![Primitive::String(self.from), Primitive::String(self.to), Primitive::Number(weight)])
    }
}

impl Spreadable for GraphNode {
    open spec fn spec_spread(self) -> Result<Seq<Primitive>, KindModel> {
        Err(KindModel::GraphNode)
    }

    fn to_primitive_set(self) -> (r: Result<Vec<Primitive>, TransformError>) {
        Err(TransformError::Unspreadable(PrimitiveKind::GraphNode))
    }
}

impl Spreadable for Graph {
    open spec fn spec_spread(self) -> Result<Seq<Primitive>, KindModel> {
        Err(KindModel::Graph)
    }

    fn to_primitive_set(self) -> (r: Result<Vec<Primitive>, TransformError>) {
        Err(TransformError::Unspreadable(PrimitiveKind::Graph))
    }
}

/// The text of an edge: its target, then `:` and the text of its weight
/// when it has one.
pub open spec fn spec_edge_text(to: Seq<char>, weight: Option<Seq<char>>) -> Seq<char> {
    match weight {
        Some(w) => to + ":"@ + w,
        None => to,
    }
}

/// The text of an edge, given the text of its weight.
pub fn edge_text(to: &str, weight: Option<&str>) -> (r: String)
    ensures
        r@ == spec_edge_text(to@, match weight {
            Some(w) => Some(w@),
            None => None,
        }),
{
    let mut s = String::from_str(to);
    match weight {
        Some(w) => {
            s.append(":");
            s.append(w);
        },
        None => {},
    }
    s
}

/// The text of a node: its name, and when it has edges, ` -> [ `, the texts
/// of its edges separated by `, `, and ` ]`.
pub open spec fn spec_node_text(name: Seq<char>, edges: Seq<Seq<char>>) -> Seq<char> {
    let joined = join(edges, ", "@);
    if joined.len() == 0 {
        name
    } else {
        name + " -> [ "@ + joined + " ]"@
    }
}

/// The text of a node, given the texts of its edges.
pub fn node_text(name: &str, edge_texts: &Vec<String>) -> (r: String)
    ensures
        r@ == spec_node_text(name@, views(edge_texts@)),
{
    let joined = join_strings(edge_texts, ", ");
    if joined.unicode_len() == 0 {
        String::from_str(name)
    } else {
        let mut s = String::from_str(name);
        s.append(" -> [ ");
        s.append(joined.as_str());
        s.append(" ]");
        s
    }
}

/// The texts of the nodes, each indented by four spaces.
pub open spec fn indented(nodes: Seq<Seq<char>>) -> Seq<Seq<char>> {
    nodes.map_values(|t: Seq<char>| "    "@ + t)
}

/// The text of a graph: `Graph { }` when it has no nodes, otherwise
/// `Graph {`, the indented texts of its nodes on lines of their own
/// separated by commas, and `}`.
pub open spec fn spec_graph_text(nodes: Seq<Seq<char>>) -> Seq<char> {
    let joined = join(indented(nodes), ",\n"@);
    if joined.len() == 0 {
        "Graph { }"@
    } else {
        "Graph {\n"@ + joined + "\n}"@
    }
}

/// The text of a graph, given the texts of its nodes.
pub fn graph_text(node_texts: &Vec<String>) -> (r: String)
    ensures
        r@ == spec_graph_text(views(node_texts@)),
{
    let mut lines: Vec<String> = Vec::new();
    let mut i: usize = 0;
    while i < node_texts.len()
        invariant
            i <= node_texts@.len(),
            lines@.len() == i,
            forall|j: int| 0 <= j < i ==> #[trigger] lines@[j]@ == "    "@ + node_texts@[j]@,
        decreases node_texts.len() - i,
    {
        let mut l = String::from_str("    ");
        l.append(node_texts[i].as_str());
        lines.push(l);
        i += 1;
    }
    proof {
        assert(views(lines@) =~= indented(views(node_texts@)));
    }
    let joined = join_strings(&lines, ",\n");
    if joined.unicode_len() == 0 {
        String::from_str("Graph { }")
    } else {
        let mut s = String::from_str("Graph {\n");
        s.append(joined.as_str());
        s.append("\n}");
        s
    }
}

} // verus!
