//! Locations of a flow (processes and clusters) and the streams they start:
//! each new stream gets a fresh name `stream_<n>` and a statement in the
//! graph builder of its location.
use std::collections::BTreeMap;
use vstd::laws_cmp::obeys_cmp;
use vstd::prelude::*;

use crate::diagnostic::Span;
use crate::flat_graph_builder::{spec_add_statement, spec_new_builder, BuilderView, FlatGraphBuilder};
use crate::graph::{Ident, Operator};
use crate::parse::{HfStatement, NamedHfStatement, Pipeline};
use crate::text::{decimal, views};

verus! {

/// A stream of a flow: the name it has in the statements of its location.
#[derive(Debug)]
pub struct Stream {
    pub ident: Ident,
    pub location_id: usize,
    pub is_delta: bool,
}

/// The sending end of a cycle: the name of the stream that it feeds.
#[derive(Debug)]
pub struct HfCycle {
    pub ident: Ident,
    pub location_id: usize,
}

/// What the locations of one flow share: the number of the next stream, and
/// the graph builder of each location (until they are taken out to be built).
pub struct FlowState {
    next_id: usize,
    builders: Option<BTreeMap<usize, FlatGraphBuilder>>,
}

/// The mathematical value of a [`FlowState`].
pub struct FlowView {
    pub next_id: usize,
    pub builders: Option<Map<usize, BuilderView>>,
}

/// The views of the builders of the locations, by location id.
pub open spec fn builder_views(m: Map<usize, FlatGraphBuilder>) -> Map<usize, BuilderView> {
    m.map_values(|b: FlatGraphBuilder| b@)
}

impl View for FlowState {
    type V = FlowView;

    closed spec fn view(&self) -> FlowView {
        FlowView {
            next_id: self.next_id,
            builders: match self.builders {
                Some(m) => Some(builder_views(m@)),
                None => None,
            },
        }
    }
}

impl FlowView {
    /// The builders are there (not yet taken out), each well-formed.
    pub open spec fn builders_ok(self) -> bool {
        &&& self.builders matches Some(bs)
        &&& forall|l: usize| #[trigger] bs.contains_key(l) ==> bs[l].wf()
    }

    /// Statements can still be added, and another stream number is available.
    pub open spec fn ready(self) -> bool {
        &&& self.builders_ok()
        &&& self.next_id < usize::MAX
    }
}

/// Adds `stmt` to the builder of location `loc`, which starts empty.
pub open spec fn add_to_location(bs: Map<usize, BuilderView>, loc: usize, stmt: HfStatement) -> Map<
    usize,
    BuilderView,
> {
    let b = if bs.contains_key(loc) {
        bs[loc]
    } else {
        spec_new_builder(Seq::empty())
    };
    bs.insert(loc, spec_add_statement(b, stmt))
}

/// The name of stream number `n`: `stream_<n>`.
pub open spec fn stream_name(n: nat) -> Seq<char> {
    "stream_"@ + decimal(n)
}

/// Streams with different numbers have different names, so no two streams
/// that one flow starts share a name.
pub proof fn lemma_stream_names_distinct(n: nat, m: nat)
    requires
        n != m,
    ensures
        stream_name(n) != stream_name(m),
{
    if stream_name(n) == stream_name(m) {
        let k = "stream_"@.len() as int;
        assert(stream_name(n).skip(k) =~= decimal(n));
        assert(stream_name(m).skip(k) =~= decimal(m));
        crate::text::lemma_decimal_injective(n, m);
    }
}

/// Every stream a flow starts is named apart from all the streams it started
/// before. An earlier stream was named `stream_<k>` when the counter stood at
/// `k`, and the counter only moves forward (each method on a flow keeps it or
/// steps it), so `k` is below the counter from then on. A stream started now
/// gets a different name, and `k` stays below the counter afterwards.
pub proof fn lemma_new_stream_named_apart(
    earlier: Stream,
    k: nat,
    before: FlowView,
    after: FlowView,
    later: Stream,
    loc: usize,
    pipeline: spec_fn(Pipeline) -> bool,
)
    requires
        earlier.ident.name@ == stream_name(k),
        k < before.next_id,
        stream_started(before, after, later, loc, pipeline),
    ensures
        later.ident.name@ != earlier.ident.name@,
        k < after.next_id,
{
    lemma_stream_names_distinct(before.next_id as nat, k);
}

/// `p` is the operator `name(args...)` written at the call site.
pub open spec fn is_op(p: Pipeline, name: Seq<char>, args: Seq<Seq<char>>) -> bool {
    &&& p matches Pipeline::Operator(op)
    &&& op.name@ == name
    &&& views(op.args@) == args
    &&& op.span == Span::spec_call_site()
}

/// `stmt` is `ident = pipeline;` written at the call site.
pub open spec fn is_named(stmt: HfStatement, ident: Ident, pipeline: spec_fn(Pipeline) -> bool) -> bool {
    &&& stmt matches HfStatement::Named(n)
    &&& n.name == ident
    &&& n.span == Span::spec_call_site()
    &&& pipeline(n.pipeline)
}

/// `p` is `source -> tee()`.
pub open spec fn is_tee_of(p: Pipeline, source: spec_fn(Pipeline) -> bool) -> bool {
    &&& p matches Pipeline::Link { lhs, rhs }
    &&& source(*lhs)
    &&& is_op(*rhs, "tee"@, Seq::empty())
}

/// The operator `name()` with no arguments, at the call site.
fn op0(name: &str) -> (p: Pipeline)
    ensures
        is_op(p, name@, Seq::empty()),
{
    let op = Operator { name: String::from_str(name), args: Vec::new(), span: Span::call_site() };
    assert(views(op.args@) =~= Seq::<Seq<char>>::empty());
    Pipeline::Operator(op)
}

/// The operator `name(arg)`, at the call site.
fn op1(name: &str, arg: String) -> (p: Pipeline)
    ensures
        is_op(p, name@, seq![arg@]),
{
    let mut args = Vec::new();
    args.push(arg);
    let op = Operator { name: String::from_str(name), args, span: Span::call_site() };
    assert(views(op.args@) =~= seq![arg@]);
    Pipeline::Operator(op)
}

/// `lhs -> rhs`.
fn link(lhs: Pipeline, rhs: Pipeline) -> (p: Pipeline)
    ensures
        p == (Pipeline::Link { lhs: Box::new(lhs), rhs: Box::new(rhs) }),
{
    Pipeline::Link { lhs: Box::new(lhs), rhs: Box::new(rhs) }
}

impl FlowState {
    /// A flow with no streams and no statements yet.
    pub fn new() -> (f: FlowState)
        ensures
            f@.next_id == 0,
            f@.builders == Some(Map::<usize, BuilderView>::empty()),
            f@.ready(),
    {
        let m: BTreeMap<usize, FlatGraphBuilder> = BTreeMap::new();
        assert(builder_views(m@) =~= Map::<usize, BuilderView>::empty());
        FlowState { next_id: 0, builders: Some(m) }
    }

    /// A fresh stream name, `stream_<n>` for the next number `n`.
    pub fn next_ident(&mut self) -> (i: Ident)
        requires
            old(self)@.next_id < usize::MAX,
        ensures
            i.name@ == stream_name(old(self)@.next_id as nat),
            i.span == Span::spec_call_site(),
            final(self)@.next_id == old(self)@.next_id + 1,
            final(self)@.builders == old(self)@.builders,
    {
        let id = self.next_id;
        self.next_id = self.next_id + 1;
        let mut name = String::new();
        name.append("stream_");
        crate::text::push_decimal(&mut name, id);
        assert(name@ =~= stream_name(id as nat));
        Ident::given(name, Span::call_site())
    }

    /// Adds a statement to the builder of location `loc`, creating that
    /// builder if the location has none yet.
    pub fn add_statement(&mut self, loc: usize, stmt: HfStatement)
        requires
            old(self)@.builders_ok(),
        ensures
            final(self)@.builders_ok(),
            final(self)@.next_id == old(self)@.next_id,
            final(self)@.builders == Some(add_to_location(old(self)@.builders->Some_0, loc, stmt)),
    {
        broadcast use vstd::laws_cmp::group_laws_cmp;
        let mut m: BTreeMap<usize, FlatGraphBuilder> = match self.builders.take() {
            Some(m) => m,
            None => BTreeMap::new(),
        };
        let ghost old_m = m@;
        assert(old(self)@.builders == Some(builder_views(old_m)));
        let removed = m.remove(&loc);
        proof {
            assert(obeys_cmp::<usize>());
            assert(m@ == old_m.remove(loc));
            if removed is Some {
                assert(old_m.contains_key(loc) && old_m[loc] == removed->Some_0);
            } else {
                assert(!old_m.contains_key(loc));
            }
        }
        let mut b = match removed {
            Some(b) => b,
            None => FlatGraphBuilder::new(),
        };
        proof {
            let bs = old(self)@.builders->Some_0;
            assert(bs == builder_views(old_m));
            if old_m.contains_key(loc) {
                assert(bs.contains_key(loc));
                assert(bs[loc].wf());
                assert(bs[loc] == b@);
            }
        }
        b.add_statement(stmt);
        m.insert(loc, b);
        let ghost new_bs = builder_views(m@);
        assert(new_bs =~= add_to_location(builder_views(old_m), loc, stmt));
        self.builders = Some(m);
        proof {
            assert forall|l: usize| #[trigger] new_bs.contains_key(l) implies new_bs[l].wf() by {
                if l != loc {
                    let bs = old(self)@.builders->Some_0;
                    assert(bs.contains_key(l));
                    assert(bs[l].wf());
                    assert(builder_views(old_m).contains_key(l));
                    assert(new_bs[l] == builder_views(old_m)[l]);
                }
            }
        }
    }

    /// Takes the builders out, one per location in order of location id, to
    /// build them; no statement can be added afterwards.
    pub fn take_builders(&mut self) -> (r: BTreeMap<usize, FlatGraphBuilder>)
        requires
            old(self)@.builders is Some,
        ensures
            old(self)@.builders == Some(builder_views(r@)),
            final(self)@.builders is None,
            final(self)@.next_id == old(self)@.next_id,
    {
        match self.builders.take() {
            Some(m) => m,
            None => BTreeMap::new(),
        }
    }
}

/// What starting a stream does: the stream gets the next number's name, at
/// location `loc`; a statement `stream_<n> = pipeline;` whose pipeline meets
/// `pipeline` is added to the builder of `loc`.
pub open spec fn stream_started(
    before: FlowView,
    after: FlowView,
    s: Stream,
    loc: usize,
    pipeline: spec_fn(Pipeline) -> bool,
) -> bool {
    &&& s.ident.name@ == stream_name(before.next_id as nat)
    &&& s.ident.span == Span::spec_call_site()
    &&& s.location_id == loc
    &&& !s.is_delta
    &&& after.next_id == before.next_id + 1
    &&& after.builders_ok()
    &&& exists|stmt: HfStatement|
        is_named(stmt, s.ident, pipeline) && after.builders == Some(
            add_to_location(before.builders->Some_0, loc, stmt),
        )
}

proof fn lemma_started(
    before: FlowView,
    after: FlowView,
    s: Stream,
    loc: usize,
    pipeline: spec_fn(Pipeline) -> bool,
    made: Pipeline,
)
    requires
        pipeline(made),
        s.ident.name@ == stream_name(before.next_id as nat),
        s.ident.span == Span::spec_call_site(),
        s.location_id == loc,
        !s.is_delta,
        after.next_id == before.next_id + 1,
        after.builders_ok(),
        after.builders == Some(
            add_to_location(
                before.builders->Some_0,
                loc,
                HfStatement::Named(NamedHfStatement { name: s.ident, pipeline: made, span: Span::spec_call_site() }),
            ),
        ),
    ensures
        stream_started(before, after, s, loc, pipeline),
{
    let stmt = HfStatement::Named(NamedHfStatement { name: s.ident, pipeline: made, span: Span::spec_call_site() });
    assert(is_named(stmt, s.ident, pipeline));
}

/// The statement `ident = pipeline;` at the call site.
fn named(ident: Ident, pipeline: Pipeline) -> (stmt: HfStatement)
    ensures
        stmt == HfStatement::Named(NamedHfStatement { name: ident, pipeline, span: Span::spec_call_site() }),
{
    HfStatement::Named(NamedHfStatement { name: ident, pipeline, span: Span::call_site() })
}

/// Starts a stream at `loc` whose statement is `stream_<n> = pipeline`.
fn start_stream(flow: &mut FlowState, loc: usize, make: Pipeline) -> (s: Stream)
    requires
        old(flow)@.ready(),
    ensures
        s.ident.name@ == stream_name(old(flow)@.next_id as nat),
        s.ident.span == Span::spec_call_site(),
        s.location_id == loc,
        !s.is_delta,
        final(flow)@.next_id == old(flow)@.next_id + 1,
        final(flow)@.builders_ok(),
        final(flow)@.builders == Some(
            add_to_location(
                old(flow)@.builders->Some_0,
                loc,
                HfStatement::Named(NamedHfStatement { name: s.ident, pipeline: make, span: Span::spec_call_site() }),
            ),
        ),
{
    let ident = flow.next_ident();
    let stmt = named(ident.duplicate(), make);
    flow.add_statement(loc, stmt);
    Stream { ident, location_id: loc, is_delta: false }
}

/// A place where part of a flow runs: a process or a cluster, known by its id.
/// Each method that starts a stream names it `stream_<n>` with the next
/// number of the flow and adds its statement to the location's builder.
pub trait Location {
    spec fn spec_id(&self) -> usize;

    /// The number of ports handed out so far.
    spec fn ports_used(&self) -> usize;

    /// The identifier by which generated code refers to this location's
    /// runtime data.
    spec fn spec_cli(&self) -> Seq<char>;

    /// Whether this kind of location is a cluster.
    spec fn spec_is_cluster() -> bool;

    /// The id of this location.
    fn id(&self) -> (r: usize)
        ensures
            r == self.spec_id(),
    ;

    /// Whether this kind of location is a cluster.
    fn is_cluster() -> (b: bool)
        ensures
            b == Self::spec_is_cluster(),
    ;

    /// The identifier by which generated code refers to this location's
    /// runtime data.
    fn cli(&self) -> (s: &String)
        ensures
            s@ == self.spec_cli(),
    ;

    /// A fresh port of this location: `port_0`, `port_1`, and so on.
    fn next_port(&mut self) -> (p: String)
        requires
            old(self).ports_used() < usize::MAX,
        ensures
            p@ == crate::runtime::port_name(old(self).ports_used() as nat),
            final(self).ports_used() == old(self).ports_used() + 1,
            final(self).spec_id() == old(self).spec_id(),
            final(self).spec_cli() == old(self).spec_cli(),
    ;

    /// A stream that yields `()` again and again: `stream_<n> = spin() -> tee();`.
    fn spin(&self, flow: &mut FlowState) -> (s: Stream)
        requires
            old(flow)@.ready(),
        ensures
            stream_started(
                old(flow)@,
                final(flow)@,
                s,
                self.spec_id(),
                |p: Pipeline| is_tee_of(p, |q: Pipeline| is_op(q, "spin"@, Seq::empty())),
            ),
    {
        let loc = self.id();
        let p = link(op0("spin"), op0("tee"));
        let ghost made = p;
        let ghost before = flow@;
        let s = start_stream(flow, loc, p);
        proof {
            lemma_started(
                before,
                flow@,
                s,
                loc,
                |p: Pipeline| is_tee_of(p, |q: Pipeline| is_op(q, "spin"@, Seq::empty())),
                made,
            );
        }
        s
    }

    /// A stream of the items of the asynchronous stream written as `e`:
    /// `stream_<n> = source_stream(e) -> tee();`.
    fn source_stream(&self, flow: &mut FlowState, e: String) -> (s: Stream)
        requires
            old(flow)@.ready(),
        ensures
            stream_started(
                old(flow)@,
                final(flow)@,
                s,
                self.spec_id(),
                |p: Pipeline| is_tee_of(p, |q: Pipeline| is_op(q, "source_stream"@, seq![e@])),
            ),
    {
        let loc = self.id();
        let ghost arg_view = e@;
        let p = link(op1("source_stream", e), op0("tee"));
        let ghost made = p;
        let ghost before = flow@;
        let s = start_stream(flow, loc, p);
        proof {
            lemma_started(
                before,
                flow@,
                s,
                loc,
                |p: Pipeline| is_tee_of(p, |q: Pipeline| is_op(q, "source_stream"@, seq![arg_view])),
                made,
            );
        }
        s
    }

    /// A stream of the items of the iterable written as `e`:
    /// `stream_<n> = source_iter(e) -> tee();`.
    fn source_iter(&self, flow: &mut FlowState, e: String) -> (s: Stream)
        requires
            old(flow)@.ready(),
        ensures
            stream_started(
                old(flow)@,
                final(flow)@,
                s,
                self.spec_id(),
                |p: Pipeline| is_tee_of(p, |q: Pipeline| is_op(q, "source_iter"@, seq![e@])),
            ),
    {
        let loc = self.id();
        let ghost arg_view = e@;
        let p = link(op1("source_iter", e), op0("tee"));
        let ghost made = p;
        let ghost before = flow@;
        let s = start_stream(flow, loc, p);
        proof {
            lemma_started(
                before,
                flow@,
                s,
                loc,
                |p: Pipeline| is_tee_of(p, |q: Pipeline| is_op(q, "source_iter"@, seq![arg_view])),
                made,
            );
        }
        s
    }

    /// A stream that ticks every `interval`:
    /// `stream_<n> = source_interval(interval) -> tee();`.
    fn source_interval(&self, flow: &mut FlowState, interval: String) -> (s: Stream)
        requires
            old(flow)@.ready(),
        ensures
            stream_started(
                old(flow)@,
                final(flow)@,
                s,
                self.spec_id(),
                |p: Pipeline| is_tee_of(p, |q: Pipeline| is_op(q, "source_interval"@, seq![interval@])),
            ),
    {
        let loc = self.id();
        let ghost arg_view = interval@;
        let p = link(op1("source_interval", interval), op0("tee"));
        let ghost made = p;
        let ghost before = flow@;
        let s = start_stream(flow, loc, p);
        proof {
            lemma_started(
                before,
                flow@,
                s,
                loc,
                |p: Pipeline| is_tee_of(p, |q: Pipeline| is_op(q, "source_interval"@, seq![arg_view])),
                made,
            );
        }
        s
    }

    /// A stream of what arrives on a fresh port of this location from a
    /// location of the same kind: the port is drawn, and the stream is
    /// `stream_<n> = <pipeline receiving on the port> -> tee();`. Returns the
    /// port and the stream.
    fn source_external(&mut self, flow: &mut FlowState) -> (r: (String, Stream))
        requires
            old(flow)@.ready(),
            old(self).ports_used() < usize::MAX,
        ensures
            r.0@ == crate::runtime::port_name(old(self).ports_used() as nat),
            final(self).ports_used() == old(self).ports_used() + 1,
            final(self).spec_id() == old(self).spec_id(),
            final(self).spec_cli() == old(self).spec_cli(),
            stream_started(
                old(flow)@,
                final(flow)@,
                r.1,
                old(self).spec_id(),
                |p: Pipeline|
                    is_tee_of(
                        p,
                        |q: Pipeline|
                            crate::runtime::is_source_statement(
                                q,
                                old(self).spec_cli(),
                                crate::runtime::port_name(old(self).ports_used() as nat),
                                Self::spec_is_cluster(),
                            ),
                    ),
            ),
    {
        self.receive_external(flow, Self::is_cluster())
    }

    /// A stream of what arrives on a fresh port of this location from the
    /// locations of another kind, whose kind chooses how it is received
    /// (tagged when the senders form a cluster, `sender_is_cluster`): as
    /// [`source_external`](Self::source_external), with the senders' kind.
    fn many_source_external(&mut self, flow: &mut FlowState, sender_is_cluster: bool) -> (r: (String, Stream))
        requires
            old(flow)@.ready(),
            old(self).ports_used() < usize::MAX,
        ensures
            r.0@ == crate::runtime::port_name(old(self).ports_used() as nat),
            final(self).ports_used() == old(self).ports_used() + 1,
            final(self).spec_id() == old(self).spec_id(),
            final(self).spec_cli() == old(self).spec_cli(),
            stream_started(
                old(flow)@,
                final(flow)@,
                r.1,
                old(self).spec_id(),
                |p: Pipeline|
                    is_tee_of(
                        p,
                        |q: Pipeline|
                            crate::runtime::is_source_statement(
                                q,
                                old(self).spec_cli(),
                                crate::runtime::port_name(old(self).ports_used() as nat),
                                sender_is_cluster,
                            ),
                    ),
            ),
    {
        self.receive_external(flow, sender_is_cluster)
    }

    /// Draws a fresh port and starts the stream that receives on it from a
    /// sender that is a cluster (`from_cluster`) or a process.
    fn receive_external(&mut self, flow: &mut FlowState, from_cluster: bool) -> (r: (String, Stream))
        requires
            old(flow)@.ready(),
            old(self).ports_used() < usize::MAX,
        ensures
            r.0@ == crate::runtime::port_name(old(self).ports_used() as nat),
            final(self).ports_used() == old(self).ports_used() + 1,
            final(self).spec_id() == old(self).spec_id(),
            final(self).spec_cli() == old(self).spec_cli(),
            stream_started(
                old(flow)@,
                final(flow)@,
                r.1,
                old(self).spec_id(),
                |p: Pipeline|
                    is_tee_of(
                        p,
                        |q: Pipeline|
                            crate::runtime::is_source_statement(
                                q,
                                old(self).spec_cli(),
                                crate::runtime::port_name(old(self).ports_used() as nat),
                                from_cluster,
                            ),
                    ),
            ),
    {
        let port = self.next_port();
        let loc = self.id();
        let source = crate::runtime::gen_source_statement(self.cli(), &port, from_cluster);
        let ghost cli = self.spec_cli();
        let ghost port_view = port@;
        let p = link(source, op0("tee"));
        let ghost made = p;
        let ghost before = flow@;
        let s = start_stream(flow, loc, p);
        proof {
            lemma_started(
                before,
                flow@,
                s,
                loc,
                |p: Pipeline|
                    is_tee_of(
                        p,
                        |q: Pipeline| crate::runtime::is_source_statement(q, cli, port_view, from_cluster),
                    ),
                made,
            );
        }
        (port, s)
    }

    /// A cycle: a stream `stream_<n> = tee();` and the handle through which it
    /// is fed later.
    fn cycle(&self, flow: &mut FlowState) -> (r: (HfCycle, Stream))
        requires
            old(flow)@.ready(),
        ensures
            stream_started(
                old(flow)@,
                final(flow)@,
                r.1,
                self.spec_id(),
                |p: Pipeline| is_op(p, "tee"@, Seq::empty()),
            ),
            r.0.ident == r.1.ident,
            r.0.location_id == self.spec_id(),
    {
        let loc = self.id();
        let p = op0("tee");
        let ghost made = p;
        let ghost before = flow@;
        let s = start_stream(flow, loc, p);
        proof {
            lemma_started(before, flow@, s, loc, |p: Pipeline| is_op(p, "tee"@, Seq::empty()), made);
        }
        (HfCycle { ident: s.ident.duplicate(), location_id: loc }, s)
    }
}

/// A location that is a cluster of processes.
pub trait Cluster: Location {}

/// What a deployment provides for a flow to be laid out on: the type of its
/// processes, of its clusters, of the data they are built with, and of the
/// ids that it gives them at run time.
pub trait LocalDeploy {
    type Process: Location;
    type Cluster: Location + Cluster;
    type Meta;
    type RuntimeID;
}

/// A deployment whose processes and clusters can send to one another, with
/// the types of their ports.
pub trait Deploy {
    type Process: Location;
    type Cluster: Location + Cluster;
    type ProcessPort;
    type ClusterPort;
    type Meta;
    type RuntimeID;
}

impl<T: Deploy> LocalDeploy for T {
    type Process = T::Process;
    type Cluster = T::Cluster;
    type Meta = T::Meta;
    type RuntimeID = T::RuntimeID;
}

/// How a deployment makes the process with location id `id`; it refers to
/// the deployment's runtime data and has handed out no port yet, so its first
/// port is `port_0`.
pub trait ProcessSpec<D: LocalDeploy + ?Sized> {
    /// The identifier of the runtime data that the processes refer to.
    spec fn process_runtime_data(&self) -> Seq<char>;

    fn build(&self, id: usize, meta: &mut D::Meta) -> (p: D::Process)
        ensures
            p.spec_id() == id,
            p.ports_used() == 0,
            p.spec_cli() == self.process_runtime_data(),
    ;
}

/// How a deployment makes the cluster with location id `id`; it refers to
/// the deployment's runtime data and has handed out no port yet, so its first
/// port is `port_0`.
pub trait ClusterSpec<D: LocalDeploy + ?Sized> {
    /// The identifier of the runtime data that the clusters refer to.
    spec fn cluster_runtime_data(&self) -> Seq<char>;

    fn build(&self, id: usize, meta: &mut D::Meta) -> (c: D::Cluster)
        ensures
            c.spec_id() == id,
            c.ports_used() == 0,
            c.spec_cli() == self.cluster_runtime_data(),
    ;
}

impl Deploy for crate::runtime::CLIRuntime {
    type Process = crate::runtime::CLIRuntimeNode;
    type Cluster = crate::runtime::CLIRuntimeCluster;
    type ProcessPort = String;
    type ClusterPort = String;
    type Meta = ();
    type RuntimeID = usize;
}

impl Cluster for crate::runtime::CLIRuntimeCluster {}

impl ProcessSpec<crate::runtime::CLIRuntime> for crate::runtime::CLIRuntimeData {
    /// The identifier of this runtime data.
    open spec fn process_runtime_data(&self) -> Seq<char> {
        self.ident@
    }

    /// A process that refers to this runtime data, with no port used yet.
    fn build(&self, id: usize, meta: &mut ()) -> (p: crate::runtime::CLIRuntimeNode) {
        crate::runtime::CLIRuntimeNode::new(id, self.ident.clone())
    }
}

impl ClusterSpec<crate::runtime::CLIRuntime> for crate::runtime::CLIRuntimeData {
    /// The identifier of this runtime data.
    open spec fn cluster_runtime_data(&self) -> Seq<char> {
        self.ident@
    }

    /// A cluster that refers to this runtime data, with no port used yet.
    fn build(&self, id: usize, meta: &mut ()) -> (c: crate::runtime::CLIRuntimeCluster) {
        crate::runtime::CLIRuntimeCluster::new(id, self.ident.clone())
    }
}

impl Location for crate::runtime::CLIRuntimeNode {
    open spec fn spec_id(&self) -> usize {
        crate::runtime::CLIRuntimeNode::spec_id(self)
    }

    open spec fn ports_used(&self) -> usize {
        crate::runtime::CLIRuntimeNode::ports_used(self)
    }

    open spec fn spec_cli(&self) -> Seq<char> {
        crate::runtime::CLIRuntimeNode::spec_cli(self)
    }

    open spec fn spec_is_cluster() -> bool {
        false
    }

    fn id(&self) -> (r: usize) {
        crate::runtime::CLIRuntimeNode::id(self)
    }

    fn is_cluster() -> (b: bool) {
        false
    }

    fn cli(&self) -> (s: &String) {
        crate::runtime::CLIRuntimeNode::cli(self)
    }

    fn next_port(&mut self) -> (p: String) {
        crate::runtime::CLIRuntimeNode::next_port(self)
    }
}

impl Location for crate::runtime::CLIRuntimeCluster {
    open spec fn spec_id(&self) -> usize {
        crate::runtime::CLIRuntimeCluster::spec_id(self)
    }

    open spec fn ports_used(&self) -> usize {
        crate::runtime::CLIRuntimeCluster::ports_used(self)
    }

    open spec fn spec_cli(&self) -> Seq<char> {
        crate::runtime::CLIRuntimeCluster::spec_cli(self)
    }

    open spec fn spec_is_cluster() -> bool {
        true
    }

    fn id(&self) -> (r: usize) {
        crate::runtime::CLIRuntimeCluster::id(self)
    }

    fn is_cluster() -> (b: bool) {
        true
    }

    fn cli(&self) -> (s: &String) {
        crate::runtime::CLIRuntimeCluster::cli(self)
    }

    fn next_port(&mut self) -> (p: String) {
        crate::runtime::CLIRuntimeCluster::next_port(self)
    }
}

} // verus!
