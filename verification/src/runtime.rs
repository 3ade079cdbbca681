//! Deployment through the command-line runtime: runtime markers, and the
//! processes and clusters of a flow with their port numbering.
use std::marker::PhantomData;
use vstd::prelude::*;

use crate::diagnostic::Span;
use crate::graph::Operator;
use crate::location::is_op;
use crate::parse::Pipeline;
use crate::text::decimal;

verus! {

/// The deployment that runs a flow through the command-line interface.
pub struct CLIRuntime {}

/// The data that the command-line runtime hands a flow when it starts, known
/// in generated code by the identifier `ident`; the processes and clusters
/// of the flow are built from it.
pub struct CLIRuntimeData {
    pub ident: String,
}

/// How the command-line runtime connects a port: straight, tagged with the
/// sender's id (what a process receives from a cluster), or demultiplexed by
/// the recipient's id (what is sent to a cluster).
#[derive(Clone, Copy, PartialEq, Eq, Debug, Structural)]
pub enum Connection {
    Direct,
    Tagged,
    Demux,
}

/// The type that names a connection in generated code.
pub open spec fn connection_type(c: Connection) -> Seq<char> {
    match c {
        Connection::Direct => "ConnectedDirect"@,
        Connection::Tagged => "ConnectedTagged<ConnectedDirect>"@,
        Connection::Demux => "ConnectedDemux<ConnectedDirect>"@,
    }
}

/// The code that connects `port` of the runtime data `cli` with `connection`
/// and turns it into a source or a sink (`end`):
/// `{ cli.port("port").connect_local_blocking::<C>().end() }`.
pub open spec fn connection_code(cli: Seq<char>, port: Seq<char>, connection: Connection, end: Seq<char>) -> Seq<
    char,
> {
    "{ "@ + cli + ".port(\""@ + port + "\").connect_local_blocking::<"@ + connection_type(connection)
        + ">()."@ + end + "() }"@
}

/// How a location receives from a sender: tagged when the sender is a cluster.
pub open spec fn source_connection(from_cluster: bool) -> Connection {
    if from_cluster {
        Connection::Tagged
    } else {
        Connection::Direct
    }
}

/// How a location sends to a recipient: demultiplexed when the recipient is a cluster.
pub open spec fn sink_connection(to_cluster: bool) -> Connection {
    if to_cluster {
        Connection::Demux
    } else {
        Connection::Direct
    }
}

/// `p` is the pipeline that receives on `port` of the runtime data `cli` from
/// a sender that is a cluster or not: `source_stream({ ... .into_source() })`.
pub open spec fn is_source_statement(p: Pipeline, cli: Seq<char>, port: Seq<char>, from_cluster: bool) -> bool {
    is_op(p, "source_stream"@, seq![connection_code(cli, port, source_connection(from_cluster), "into_source"@)])
}

/// `p` is the pipeline that sends into `port` of the runtime data `cli` to a
/// recipient that is a cluster or not: `dest_sink({ ... .into_sink() })`.
pub open spec fn is_sink_statement(p: Pipeline, cli: Seq<char>, port: Seq<char>, to_cluster: bool) -> bool {
    is_op(p, "dest_sink"@, seq![connection_code(cli, port, sink_connection(to_cluster), "into_sink"@)])
}

/// What the generated statements connect with: a sink toward a process
/// connects its port straight (`ConnectedDirect`) and only a sink toward a
/// cluster demultiplexes (`ConnectedDemux<ConnectedDirect>`); a source fed by
/// a process connects straight, and only one fed by a cluster is tagged
/// (`ConnectedTagged<ConnectedDirect>`).
pub proof fn lemma_statement_connections(cli: Seq<char>, port: Seq<char>, p: Pipeline, cluster: bool)
    ensures
        is_sink_statement(p, cli, port, cluster) ==> is_op(
            p,
            "dest_sink"@,
            seq![
                "{ "@ + cli + ".port(\""@ + port + "\").connect_local_blocking::<"@ + (if cluster {
                    "ConnectedDemux<ConnectedDirect>"@
                } else {
                    "ConnectedDirect"@
                }) + ">()."@ + "into_sink"@ + "() }"@,
            ],
        ),
        is_source_statement(p, cli, port, cluster) ==> is_op(
            p,
            "source_stream"@,
            seq![
                "{ "@ + cli + ".port(\""@ + port + "\").connect_local_blocking::<"@ + (if cluster {
                    "ConnectedTagged<ConnectedDirect>"@
                } else {
                    "ConnectedDirect"@
                }) + ">()."@ + "into_source"@ + "() }"@,
            ],
        ),
{
    let c = if cluster {
        "ConnectedDemux<ConnectedDirect>"@
    } else {
        "ConnectedDirect"@
    };
    assert(connection_code(cli, port, sink_connection(cluster), "into_sink"@) =~= "{ "@ + cli + ".port(\""@ + port
        + "\").connect_local_blocking::<"@ + c + ">()."@ + "into_sink"@ + "() }"@);
    let t = if cluster {
        "ConnectedTagged<ConnectedDirect>"@
    } else {
        "ConnectedDirect"@
    };
    assert(connection_code(cli, port, source_connection(cluster), "into_source"@) =~= "{ "@ + cli + ".port(\""@
        + port + "\").connect_local_blocking::<"@ + t + ">()."@ + "into_source"@ + "() }"@);
}

fn connection_text(connection: Connection) -> (s: &'static str)
    ensures
        s@ == connection_type(connection),
{
    match connection {
        Connection::Direct => "ConnectedDirect",
        Connection::Tagged => "ConnectedTagged<ConnectedDirect>",
        Connection::Demux => "ConnectedDemux<ConnectedDirect>",
    }
}

/// The operator `name(code)`, with the connection code of `port`.
fn port_operator(name: &str, cli: &String, port: &String, connection: Connection, end: &str) -> (p: Pipeline)
    ensures
        is_op(p, name@, seq![connection_code(cli@, port@, connection, end@)]),
{
    let mut code = String::new();
    code.append("{ ");
    code.append(cli.as_str());
    code.append(".port(\"");
    code.append(port.as_str());
    code.append("\").connect_local_blocking::<");
    code.append(connection_text(connection));
    code.append(">().");
    code.append(end);
    code.append("() }");
    assert(code@ =~= connection_code(cli@, port@, connection, end@));
    let mut args = Vec::new();
    args.push(code);
    let op = Operator { name: String::from_str(name), args, span: Span::call_site() };
    assert(crate::text::views(op.args@) =~= seq![connection_code(cli@, port@, connection, end@)]);
    Pipeline::Operator(op)
}

/// The pipeline that receives on `port` of a location whose runtime data is
/// `cli`, from a sender that is a cluster (`from_cluster`) or a process.
pub fn gen_source_statement(cli: &String, port: &String, from_cluster: bool) -> (p: Pipeline)
    ensures
        is_source_statement(p, cli@, port@, from_cluster),
{
    let connection = if from_cluster {
        Connection::Tagged
    } else {
        Connection::Direct
    };
    port_operator("source_stream", cli, port, connection, "into_source")
}

/// The pipeline that sends into `port` from a location whose runtime data is
/// `cli`, to a recipient that is a cluster (`to_cluster`) or a process.
pub fn gen_sink_statement(cli: &String, port: &String, to_cluster: bool) -> (p: Pipeline)
    ensures
        is_sink_statement(p, cli@, port@, to_cluster),
{
    let connection = if to_cluster {
        Connection::Demux
    } else {
        Connection::Direct
    };
    port_operator("dest_sink", cli, port, connection, "into_sink")
}

/// A handle on the runtime context of a running flow.
#[derive(Clone, Copy)]
pub struct RuntimeContext<'a> {
    _phantom: PhantomData<&'a ()>,
}

/// The name of port number `n`: `port_<n>`.
pub open spec fn port_name(n: nat) -> Seq<char> {
    "port_"@ + decimal(n)
}

/// Ports with different numbers have different names, so no two ports that
/// one process or cluster hands out share a name.
pub proof fn lemma_port_names_distinct(n: nat, m: nat)
    requires
        n != m,
    ensures
        port_name(n) != port_name(m),
{
    if port_name(n) == port_name(m) {
        let k = "port_"@.len() as int;
        assert(port_name(n).skip(k) =~= decimal(n));
        assert(port_name(m).skip(k) =~= decimal(m));
        crate::text::lemma_decimal_injective(n, m);
    }
}

/// A process of a flow run through the command-line runtime: its location id
/// and the number of its next port.
pub struct CLIRuntimeNode {
    id: usize,
    next_port: usize,
    cli: String,
}

/// A cluster of a flow run through the command-line runtime: its location id
/// and the number of its next port.
pub struct CLIRuntimeCluster {
    id: usize,
    next_port: usize,
    cli: String,
}

impl CLIRuntimeNode {
    pub closed spec fn spec_id(&self) -> usize {
        self.id
    }

    /// The number of the port that [`next_port`](Self::next_port) gives next.
    pub closed spec fn ports_used(&self) -> usize {
        self.next_port
    }

    /// The identifier of the runtime data in generated code.
    pub closed spec fn spec_cli(&self) -> Seq<char> {
        self.cli@
    }

    /// A process with location id `id`, whose runtime data is known as `cli`,
    /// and no ports yet.
    pub fn new(id: usize, cli: String) -> (n: Self)
        ensures
            n.spec_id() == id,
            n.ports_used() == 0,
            n.spec_cli() == cli@,
    {
        CLIRuntimeNode { id, next_port: 0, cli }
    }

    /// The identifier of the runtime data in generated code.
    pub fn cli(&self) -> (s: &String)
        ensures
            s@ == self.spec_cli(),
    {
        &self.cli
    }

    /// The location id of this process.
    pub fn id(&self) -> (r: usize)
        ensures
            r == self.spec_id(),
    {
        self.id
    }

    /// A fresh port: `port_0`, `port_1`, and so on.
    pub fn next_port(&mut self) -> (p: String)
        requires
            old(self).ports_used() < usize::MAX,
        ensures
            p@ == port_name(old(self).ports_used() as nat),
            final(self).ports_used() == old(self).ports_used() + 1,
            final(self).spec_id() == old(self).spec_id(),
            final(self).spec_cli() == old(self).spec_cli(),
    {
        let next_send_port = self.next_port;
        self.next_port = self.next_port + 1;
        port_string(next_send_port)
    }
}

impl CLIRuntimeCluster {
    pub closed spec fn spec_id(&self) -> usize {
        self.id
    }

    /// The number of the port that [`next_port`](Self::next_port) gives next.
    pub closed spec fn ports_used(&self) -> usize {
        self.next_port
    }

    /// The identifier of the runtime data in generated code.
    pub closed spec fn spec_cli(&self) -> Seq<char> {
        self.cli@
    }

    /// A cluster with location id `id`, whose runtime data is known as `cli`,
    /// and no ports yet.
    pub fn new(id: usize, cli: String) -> (c: Self)
        ensures
            c.spec_id() == id,
            c.ports_used() == 0,
            c.spec_cli() == cli@,
    {
        CLIRuntimeCluster { id, next_port: 0, cli }
    }

    /// The identifier of the runtime data in generated code.
    pub fn cli(&self) -> (s: &String)
        ensures
            s@ == self.spec_cli(),
    {
        &self.cli
    }

    /// The location id of this cluster.
    pub fn id(&self) -> (r: usize)
        ensures
            r == self.spec_id(),
    {
        self.id
    }

    /// A fresh port: `port_0`, `port_1`, and so on.
    pub fn next_port(&mut self) -> (p: String)
        requires
            old(self).ports_used() < usize::MAX,
        ensures
            p@ == port_name(old(self).ports_used() as nat),
            final(self).ports_used() == old(self).ports_used() + 1,
            final(self).spec_id() == old(self).spec_id(),
            final(self).spec_cli() == old(self).spec_cli(),
    {
        let next_send_port = self.next_port;
        self.next_port = self.next_port + 1;
        port_string(next_send_port)
    }
}

/// The name of port number `n`.
pub fn port_string(n: usize) -> (s: String)
    ensures
        s@ == port_name(n as nat),
{
    let mut s = String::new();
    s.append("port_");
    crate::text::push_decimal(&mut s, n);
    assert(s@ =~= port_name(n as nat));
    s
}

} // verus!
