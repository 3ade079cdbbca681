//! The flat operator graph: identifiers, ports, nodes, edges.
use vstd::prelude::*;

use crate::diagnostic::Span;
use crate::ops::OperatorConstraints;

verus! {

/// The text of an identifier: written in the code (`Given`), or one of the
/// names that the builder gives to nodes it makes itself (`Fixed`).
#[derive(Debug)]
pub enum Name {
    Given(String),
    Fixed(&'static str),
}

impl View for Name {
    type V = Seq<char>;

    open spec fn view(&self) -> Seq<char> {
        match self {
            Name::Given(s) => s@,
            Name::Fixed(s) => s@,
        }
    }
}

impl Name {
    /// The text of the name.
    pub fn as_str(&self) -> (s: &str)
        ensures
            s@ == self@,
    {
        match self {
            Name::Given(s) => s.as_str(),
            Name::Fixed(s) => s,
        }
    }

    /// A copy of this name.
    pub fn duplicate(&self) -> (n: Name)
        ensures
            n == *self,
    {
        match self {
            Name::Given(s) => Name::Given(s.clone()),
            Name::Fixed(s) => Name::Fixed(s),
        }
    }

    /// The text of the name, as an owned string.
    pub fn to_owned_string(&self) -> (s: String)
        ensures
            s@ == self@,
    {
        String::from_str(self.as_str())
    }
}

/// An identifier of the dataflow language: a name and where it stands.
/// Two identifiers are the same name when their texts are equal.
#[derive(Debug)]
pub struct Ident {
    pub name: Name,
    pub span: Span,
}

impl Ident {
    /// An identifier with one of the builder's own names.
    pub fn new(name: &'static str, span: Span) -> (i: Ident)
        ensures
            i == (Ident { name: Name::Fixed(name), span }),
            i.name@ == name@,
    {
        Ident { name: Name::Fixed(name), span }
    }

    /// An identifier written in the code.
    pub fn given(name: String, span: Span) -> (i: Ident)
        ensures
            i == (Ident { name: Name::Given(name), span }),
            i.name@ == name@,
    {
        Ident { name: Name::Given(name), span }
    }

    /// A copy of this identifier.
    pub fn duplicate(&self) -> (i: Ident)
        ensures
            i == *self,
    {
        Ident { name: self.name.duplicate(), span: self.span }
    }

    /// Whether the two identifiers name the same thing.
    pub fn same_name(&self, other: &Ident) -> (b: bool)
        ensures
            b == (self.name@ == other.name@),
    {
        let a = self.name.to_owned_string();
        let b = other.name.to_owned_string();
        a == b
    }
}

/// A copy of an optional identifier.
pub fn duplicate_opt_ident(i: &Option<Ident>) -> (r: Option<Ident>)
    ensures
        r == *i,
{
    match i {
        Some(i) => Some(i.duplicate()),
        None => None,
    }
}

/// An integer port index, such as the `0` of `[0]`.
#[derive(Debug)]
pub struct IndexInt {
    pub value: usize,
    pub span: Span,
}

/// A named port index, such as the `pos` of `[pos]`.
#[derive(Debug)]
pub struct ExprPath {
    pub path: String,
    pub span: Span,
}

/// A port index written by the user.
#[derive(Debug)]
pub enum PortIndex {
    Int(IndexInt),
    Path(ExprPath),
}

/// The port of an end of an edge: written, or left out (elided).
#[derive(Debug)]
pub enum PortIndexValue {
    Int(IndexInt),
    Path(ExprPath),
    Elided(Option<Span>),
}

/// Whether two ports are the same port: integers by value, paths by text, and
/// any two elided ports.
pub open spec fn same_port(a: PortIndexValue, b: PortIndexValue) -> bool {
    match (a, b) {
        (PortIndexValue::Int(x), PortIndexValue::Int(y)) => x.value == y.value,
        (PortIndexValue::Path(x), PortIndexValue::Path(y)) => x.path@ == y.path@,
        (PortIndexValue::Elided(_), PortIndexValue::Elided(_)) => true,
        _ => false,
    }
}

/// The port value that a written port index stands for.
pub open spec fn port_of_index(p: PortIndex) -> PortIndexValue {
    match p {
        PortIndex::Int(i) => PortIndexValue::Int(i),
        PortIndex::Path(p) => PortIndexValue::Path(p),
    }
}

/// The port value of an optional written index: the index itself, or an elided
/// port at the span of what it would have indexed.
pub open spec fn port_of_ported(p: Option<PortIndex>, span: Span) -> PortIndexValue {
    match p {
        Some(i) => port_of_index(i),
        None => PortIndexValue::Elided(Some(span)),
    }
}

/// The span of a port: where it was written, the span that an elided port
/// carries, or the call site.
pub open spec fn port_span(p: PortIndexValue) -> Span {
    match p {
        PortIndexValue::Int(i) => i.span,
        PortIndexValue::Path(p) => p.span,
        PortIndexValue::Elided(Some(s)) => s,
        PortIndexValue::Elided(None) => Span::spec_call_site(),
    }
}

/// Combining an outer port with an inner one: an elided port takes the other
/// one; two written ports cannot be combined and the first comes back as the error.
pub open spec fn combine_ports(a: PortIndexValue, b: PortIndexValue) -> Result<PortIndexValue, PortIndexValue> {
    if a.is_specified() {
        if b.is_specified() {
            Err(a)
        } else {
            Ok(a)
        }
    } else {
        Ok(b)
    }
}

impl PortIndexValue {
    pub open spec fn is_specified(&self) -> bool {
        !(self is Elided)
    }

    /// Whether the port was written (not elided).
    pub fn specified(&self) -> (b: bool)
        ensures
            b == self.is_specified(),
    {
        match self {
            PortIndexValue::Elided(_) => false,
            _ => true,
        }
    }

    /// The port that a written index stands for.
    pub fn from_index(p: PortIndex) -> (v: PortIndexValue)
        ensures
            v == port_of_index(p),
    {
        match p {
            PortIndex::Int(i) => PortIndexValue::Int(i),
            PortIndex::Path(p) => PortIndexValue::Path(p),
        }
    }

    /// The input port, inner value and output port of a ported item whose inner
    /// part stands at `span`.
    pub fn from_ported<T>(inn: Option<PortIndex>, inner: T, out: Option<PortIndex>, span: Span) -> (r: (
        PortIndexValue,
        T,
        PortIndexValue,
    ))
        ensures
            r.0 == port_of_ported(inn, span),
            r.1 == inner,
            r.2 == port_of_ported(out, span),
    {
        let port_inn = match inn {
            Some(i) => PortIndexValue::from_index(i),
            None => PortIndexValue::Elided(Some(span)),
        };
        let port_out = match out {
            Some(i) => PortIndexValue::from_index(i),
            None => PortIndexValue::Elided(Some(span)),
        };
        (port_inn, inner, port_out)
    }

    /// Combines this (outer) port with `other`; see [`combine_ports`].
    pub fn combine(self, other: PortIndexValue) -> (r: Result<PortIndexValue, PortIndexValue>)
        ensures
            r == combine_ports(self, other),
    {
        if self.specified() {
            if other.specified() {
                Err(self)
            } else {
                Ok(self)
            }
        } else {
            Ok(other)
        }
    }

    /// The span of this port; see [`port_span`].
    pub fn span(&self) -> (s: Span)
        ensures
            s == port_span(*self),
    {
        match self {
            PortIndexValue::Int(i) => i.span,
            PortIndexValue::Path(p) => p.span,
            PortIndexValue::Elided(Some(s)) => *s,
            PortIndexValue::Elided(None) => Span::call_site(),
        }
    }

    /// Whether this is the same port as `other`; see [`same_port`].
    pub fn is_same_port(&self, other: &PortIndexValue) -> (b: bool)
        ensures
            b == same_port(*self, *other),
    {
        match (self, other) {
            (PortIndexValue::Int(x), PortIndexValue::Int(y)) => x.value == y.value,
            (PortIndexValue::Path(x), PortIndexValue::Path(y)) => x.path == y.path,
            (PortIndexValue::Elided(_), PortIndexValue::Elided(_)) => true,
            _ => false,
        }
    }

    /// A copy of this port.
    pub fn duplicate(&self) -> (p: PortIndexValue)
        ensures
            p == *self,
    {
        match self {
            PortIndexValue::Int(i) => PortIndexValue::Int(IndexInt { value: i.value, span: i.span }),
            PortIndexValue::Path(p) => PortIndexValue::Path(
                ExprPath { path: p.path.clone(), span: p.span },
            ),
            PortIndexValue::Elided(s) => PortIndexValue::Elided(*s),
        }
    }
}

/// An operator written in the dataflow language, such as `reduce(|a, b| ...)`:
/// its name, the text of each argument, and its span.
#[derive(Debug)]
pub struct Operator {
    pub name: String,
    pub args: Vec<String>,
    pub span: Span,
}

/// A node of the graph.
#[derive(Debug)]
pub enum GraphNode {
    /// An operator.
    Operator(Operator),
    /// The entry (`input: true`) or exit of an imported module.
    ModuleBoundary { input: bool, import_expr: Span },
}

/// The kind of data that flows along an edge.
#[derive(Clone, Copy, PartialEq, Eq, Debug, Structural)]
pub enum GraphEdgeType {
    Value,
    Reference,
}

/// What is known about an operator node once its constraints are found.
#[derive(Clone, Copy, Debug)]
pub struct OperatorInstance {
    pub op_constraints: OperatorConstraints,
}

/// A node with its variable name and, for a known operator, its instance.
#[derive(Debug)]
pub struct NodeEntry {
    pub node: GraphNode,
    pub varname: Option<Ident>,
    pub op_inst: Option<OperatorInstance>,
}

/// An edge from the output port `src_port` of node `src` to the input port
/// `dst_port` of node `dst`, with its type once it is known.
#[derive(Debug)]
pub struct Edge {
    pub src: usize,
    pub src_port: PortIndexValue,
    pub dst: usize,
    pub dst_port: PortIndexValue,
    pub edge_type: Option<GraphEdgeType>,
}

/// The mathematical value of a graph: its nodes and its edges, each identified
/// by its position.
pub struct GraphView {
    pub nodes: Seq<NodeEntry>,
    pub edges: Seq<Edge>,
}

impl GraphView {
    /// Every edge joins two nodes of the graph.
    pub open spec fn wf(self) -> bool {
        forall|e: int|
            #![trigger self.edges[e]]
            0 <= e < self.edges.len() ==> self.edges[e].src < self.nodes.len() && self.edges[e].dst
                < self.nodes.len()
    }

    /// The edges numbered below `k` that leave node `n`, in order.
    pub open spec fn succ_edges_below(self, n: int, k: int) -> Seq<int>
        decreases k,
    {
        if k <= 0 {
            Seq::empty()
        } else if self.edges[k - 1].src == n {
            self.succ_edges_below(n, k - 1).push(k - 1)
        } else {
            self.succ_edges_below(n, k - 1)
        }
    }

    /// The edges numbered below `k` that enter node `n`, in order.
    pub open spec fn pred_edges_below(self, n: int, k: int) -> Seq<int>
        decreases k,
    {
        if k <= 0 {
            Seq::empty()
        } else if self.edges[k - 1].dst == n {
            self.pred_edges_below(n, k - 1).push(k - 1)
        } else {
            self.pred_edges_below(n, k - 1)
        }
    }

    /// The edges that leave node `n`, in the order they were added.
    pub open spec fn succ_edges(self, n: int) -> Seq<int> {
        self.succ_edges_below(n, self.edges.len() as int)
    }

    /// The edges that enter node `n`, in the order they were added.
    pub open spec fn pred_edges(self, n: int) -> Seq<int> {
        self.pred_edges_below(n, self.edges.len() as int)
    }
}

/// A graph of operators and the edges between their ports.
#[derive(Debug)]
pub struct HydroflowGraph {
    nodes: Vec<NodeEntry>,
    edges: Vec<Edge>,
}

impl View for HydroflowGraph {
    type V = GraphView;

    closed spec fn view(&self) -> GraphView {
        GraphView { nodes: self.nodes@, edges: self.edges@ }
    }
}

/// The edges that leave node `n` among the first `k` are edges numbered
/// below `k` whose source is `n`.
pub proof fn lemma_succ_below_bounds(g: GraphView, n: int, k: int)
    ensures
        forall|j: int|
            0 <= j < g.succ_edges_below(n, k).len() ==> 0 <= #[trigger] g.succ_edges_below(n, k)[j]
                < k && g.edges[g.succ_edges_below(n, k)[j]].src == n,
    decreases k,
{
    if k > 0 {
        lemma_succ_below_bounds(g, n, k - 1);
    }
}

/// The edges that enter node `n` among the first `k` are edges numbered
/// below `k` whose destination is `n`.
pub proof fn lemma_pred_below_bounds(g: GraphView, n: int, k: int)
    ensures
        forall|j: int|
            0 <= j < g.pred_edges_below(n, k).len() ==> 0 <= #[trigger] g.pred_edges_below(n, k)[j]
                < k && g.edges[g.pred_edges_below(n, k)[j]].dst == n,
    decreases k,
{
    if k > 0 {
        lemma_pred_below_bounds(g, n, k - 1);
    }
}

impl HydroflowGraph {
    /// An empty graph.
    pub fn new() -> (g: HydroflowGraph)
        ensures
            g@.nodes.len() == 0,
            g@.edges.len() == 0,
    {
        HydroflowGraph { nodes: Vec::new(), edges: Vec::new() }
    }

    /// The number of nodes.
    pub fn node_count(&self) -> (n: usize)
        ensures
            n == self@.nodes.len(),
    {
        self.nodes.len()
    }

    /// The number of edges.
    pub fn edge_count(&self) -> (n: usize)
        ensures
            n == self@.edges.len(),
    {
        self.edges.len()
    }

    /// Adds a node with an optional variable name; returns its id.
    pub fn insert_node(&mut self, node: GraphNode, varname: Option<Ident>) -> (id: usize)
        ensures
            id == old(self)@.nodes.len(),
            final(self)@.nodes == old(self)@.nodes.push(
                NodeEntry { node, varname, op_inst: None },
            ),
            final(self)@.edges == old(self)@.edges,
    {
        let id = self.nodes.len();
        self.nodes.push(NodeEntry { node, varname, op_inst: None });
        id
    }

    /// Adds an edge from port `src_port` of `src` to port `dst_port` of `dst`,
    /// with no type yet; returns its id.
    pub fn insert_edge(
        &mut self,
        src: usize,
        src_port: PortIndexValue,
        dst: usize,
        dst_port: PortIndexValue,
    ) -> (id: usize)
        ensures
            id == old(self)@.edges.len(),
            final(self)@.edges == old(self)@.edges.push(
                Edge { src, src_port, dst, dst_port, edge_type: None },
            ),
            final(self)@.nodes == old(self)@.nodes,
    {
        let id = self.edges.len();
        self.edges.push(Edge { src, src_port, dst, dst_port, edge_type: None });
        id
    }

    /// The node with id `id`.
    pub fn node(&self, id: usize) -> (n: &GraphNode)
        requires
            id < self@.nodes.len(),
        ensures
            *n == self@.nodes[id as int].node,
    {
        &self.nodes[id].node
    }

    /// The variable name of node `id`, if it has one.
    pub fn node_varname(&self, id: usize) -> (v: Option<Ident>)
        requires
            id < self@.nodes.len(),
        ensures
            v == self@.nodes[id as int].varname,
    {
        duplicate_opt_ident(&self.nodes[id].varname)
    }

    /// The operator instance of node `id`, if one was made.
    pub fn node_op_inst(&self, id: usize) -> (o: Option<OperatorInstance>)
        requires
            id < self@.nodes.len(),
        ensures
            o == self@.nodes[id as int].op_inst,
    {
        self.nodes[id].op_inst
    }

    /// Sets the operator instance of node `id`.
    pub fn insert_node_op_inst(&mut self, id: usize, op_inst: OperatorInstance)
        requires
            id < old(self)@.nodes.len(),
        ensures
            final(self)@.edges == old(self)@.edges,
            final(self)@.nodes.len() == old(self)@.nodes.len(),
            forall|i: int|
                0 <= i < old(self)@.nodes.len() && i != id ==> #[trigger] final(self)@.nodes[i]
                    == old(self)@.nodes[i],
            final(self)@.nodes[id as int].node == old(self)@.nodes[id as int].node,
            final(self)@.nodes[id as int].varname == old(self)@.nodes[id as int].varname,
            final(self)@.nodes[id as int].op_inst == Some(op_inst),
    {
        let ghost old_nodes = self.nodes@;
        let mut entry = self.nodes.remove(id);
        entry.op_inst = Some(op_inst);
        self.nodes.insert(id, entry);
        assert forall|i: int|
            0 <= i < old_nodes.len() && i != id implies #[trigger] self.nodes@[i] == old_nodes[i] by {
            if i < id {
            } else {
            }
        }
    }

    /// The source and destination nodes of edge `id`.
    pub fn edge(&self, id: usize) -> (r: (usize, usize))
        requires
            id < self@.edges.len(),
        ensures
            r == (self@.edges[id as int].src, self@.edges[id as int].dst),
    {
        (self.edges[id].src, self.edges[id].dst)
    }

    /// The source and destination ports of edge `id`.
    pub fn edge_ports(&self, id: usize) -> (r: (&PortIndexValue, &PortIndexValue))
        requires
            id < self@.edges.len(),
        ensures
            *r.0 == self@.edges[id as int].src_port,
            *r.1 == self@.edges[id as int].dst_port,
    {
        (&self.edges[id].src_port, &self.edges[id].dst_port)
    }

    /// The type of edge `id`, if known.
    pub fn edge_type(&self, id: usize) -> (t: Option<GraphEdgeType>)
        requires
            id < self@.edges.len(),
        ensures
            t == self@.edges[id as int].edge_type,
    {
        self.edges[id].edge_type
    }

    /// Sets the type of edge `id`; returns the type it had before.
    pub fn insert_edge_type(&mut self, id: usize, t: GraphEdgeType) -> (prev: Option<GraphEdgeType>)
        requires
            id < old(self)@.edges.len(),
        ensures
            prev == old(self)@.edges[id as int].edge_type,
            final(self)@.nodes == old(self)@.nodes,
            final(self)@.edges.len() == old(self)@.edges.len(),
            forall|i: int|
                0 <= i < old(self)@.edges.len() && i != id ==> #[trigger] final(self)@.edges[i]
                    == old(self)@.edges[i],
            final(self)@.edges[id as int].src == old(self)@.edges[id as int].src,
            final(self)@.edges[id as int].dst == old(self)@.edges[id as int].dst,
            final(self)@.edges[id as int].src_port == old(self)@.edges[id as int].src_port,
            final(self)@.edges[id as int].dst_port == old(self)@.edges[id as int].dst_port,
            final(self)@.edges[id as int].edge_type == Some(t),
    {
        let ghost old_edges = self.edges@;
        let mut e = self.edges.remove(id);
        let prev = e.edge_type;
        e.edge_type = Some(t);
        self.edges.insert(id, e);
        assert forall|i: int|
            0 <= i < old_edges.len() && i != id implies #[trigger] self.edges@[i] == old_edges[i] by {
            if i < id {
            } else {
            }
        }
        prev
    }

    /// The edges that leave node `id`, in the order they were added.
    pub fn node_successor_edges(&self, id: usize) -> (es: Vec<usize>)
        ensures
            es@.map_values(|e: usize| e as int) == self@.succ_edges(id as int),
    {
        let mut es: Vec<usize> = Vec::new();
        let mut k: usize = 0;
        while k < self.edges.len()
            invariant
                k <= self.edges.len(),
                es@.map_values(|e: usize| e as int) == self@.succ_edges_below(id as int, k as int),
            decreases self.edges.len() - k,
        {
            if self.edges[k].src == id {
                es.push(k);
            }
            k = k + 1;
            assert(es@.map_values(|e: usize| e as int) =~= self@.succ_edges_below(id as int, k as int));
        }
        es
    }

    /// The edges that enter node `id`, in the order they were added.
    pub fn node_predecessor_edges(&self, id: usize) -> (es: Vec<usize>)
        ensures
            es@.map_values(|e: usize| e as int) == self@.pred_edges(id as int),
    {
        let mut es: Vec<usize> = Vec::new();
        let mut k: usize = 0;
        while k < self.edges.len()
            invariant
                k <= self.edges.len(),
                es@.map_values(|e: usize| e as int) == self@.pred_edges_below(id as int, k as int),
            decreases self.edges.len() - k,
        {
            if self.edges[k].dst == id {
                es.push(k);
            }
            k = k + 1;
            assert(es@.map_values(|e: usize| e as int) =~= self@.pred_edges_below(id as int, k as int));
        }
        es
    }

    /// The number of edges that enter node `id`.
    pub fn node_degree_in(&self, id: usize) -> (d: usize)
        ensures
            d == self@.pred_edges(id as int).len(),
    {
        let es = self.node_predecessor_edges(id);
        assert(es@.len() == es@.map_values(|e: usize| e as int).len());
        es.len()
    }

    /// The number of edges that leave node `id`.
    pub fn node_degree_out(&self, id: usize) -> (d: usize)
        ensures
            d == self@.succ_edges(id as int).len(),
    {
        let es = self.node_successor_edges(id);
        assert(es@.len() == es@.map_values(|e: usize| e as int).len());
        es.len()
    }

    /// Takes the graph apart into its nodes and edges.
    pub fn into_parts(self) -> (r: (Vec<NodeEntry>, Vec<Edge>))
        ensures
            r.0@ == self@.nodes,
            r.1@ == self@.edges,
    {
        (self.nodes, self.edges)
    }
}

} // verus!
