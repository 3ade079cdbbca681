use std::cmp::Ordering;

use hydroflow::diagnostic::{Level, Span};
use hydroflow::handoff_list::{BasePort, BasePortList, HandoffData};
use hydroflow::lattice::{Merge, NaiveLatticeOrd};
use hydroflow::graph::GraphNode;
use hydroflow::location::{ClusterSpec, FlowState, Location, ProcessSpec};
use hydroflow::parse::Pipeline;
use hydroflow::ops::{reduce_persistence, Persistence};
use hydroflow::runtime::{gen_sink_statement, gen_source_statement, CLIRuntime, CLIRuntimeCluster, CLIRuntimeData, CLIRuntimeNode};
use hydroflow::text::{decimal_string, join_strings};

#[derive(Clone, Debug, PartialEq)]
struct MaxU64(u64);

impl Merge<MaxU64> for MaxU64 {
    fn merged(self, other: MaxU64) -> Self {
        if other.0 > self.0 {
            other
        } else {
            self
        }
    }

    fn merge(&mut self, other: MaxU64) -> bool {
        if other.0 > self.0 {
            self.0 = other.0;
            true
        } else {
            false
        }
    }
}

#[derive(Clone, Debug, PartialEq)]
struct SetU8(u8);

impl Merge<SetU8> for SetU8 {
    fn merged(self, other: SetU8) -> Self {
        SetU8(self.0 | other.0)
    }

    fn merge(&mut self, other: SetU8) -> bool {
        let old = self.0;
        self.0 |= other.0;
        self.0 != old
    }
}

#[test]
fn merge_reports_change() {
    let mut a = MaxU64(3);
    assert!(a.merge(MaxU64(5)));
    assert_eq!(a, MaxU64(5));
    assert!(!a.merge(MaxU64(4)));
    assert_eq!(a, MaxU64(5));
    assert_eq!(MaxU64::merge_owned(MaxU64(1), MaxU64(7)), MaxU64(7));
}

#[test]
fn naive_cmp_orders_by_merges() {
    assert_eq!(MaxU64(1).naive_cmp(&MaxU64(2)), Some(Ordering::Less));
    assert_eq!(MaxU64(2).naive_cmp(&MaxU64(1)), Some(Ordering::Greater));
    assert_eq!(MaxU64(2).naive_cmp(&MaxU64(2)), Some(Ordering::Equal));
    assert_eq!(SetU8(0b01).naive_cmp(&SetU8(0b10)), None);
    assert_eq!(SetU8(0b01).naive_cmp(&SetU8(0b11)), Some(Ordering::Less));
    assert_eq!(SetU8(0b11).naive_cmp(&SetU8(0b01)), Some(Ordering::Greater));
}

struct H;
impl hydroflow::handoff_list::Handoff for H {}

#[test]
fn set_graph_meta_records_preds_succs_and_ids() {
    let ports = (
        BasePort::<H, true> { handoff_id: 2, _marker: std::marker::PhantomData },
        (BasePort::<H, true> { handoff_id: 0, _marker: std::marker::PhantomData }, ()),
    );
    let mut handoffs: Vec<HandoffData> = (0..3).map(|_| HandoffData { preds: vec![], succs: vec![] }).collect();
    let mut out = vec![9];
    ports.set_graph_meta(&mut handoffs, Some(7), None, &mut out);
    assert_eq!(out, vec![9, 2, 0]);
    assert_eq!(handoffs[2].preds, vec![7]);
    assert_eq!(handoffs[0].preds, vec![7]);
    assert!(handoffs[1].preds.is_empty());
    assert!(handoffs[0].succs.is_empty());
}

#[test]
fn decimal_and_join() {
    assert_eq!(decimal_string(0), "0");
    assert_eq!(decimal_string(1024), "1024");
    assert_eq!(decimal_string(usize::MAX), usize::MAX.to_string());
    let items = vec!["a".to_string(), "bc".to_string(), "d".to_string()];
    assert_eq!(join_strings(&items, "` -> `"), "a` -> `bc` -> `d");
    assert_eq!(join_strings(&vec![], ", "), "");
}

#[test]
fn reduce_persistence_defaults_to_tick() {
    let mut diags = vec![];
    let span = Span { line: 1, column: 2 };
    assert_eq!(reduce_persistence(&vec![], span, &mut diags), Ok(Persistence::Tick));
    assert_eq!(reduce_persistence(&vec![Persistence::Static], span, &mut diags), Ok(Persistence::Static));
    assert!(diags.is_empty());
    assert_eq!(reduce_persistence(&vec![Persistence::Mutable], span, &mut diags), Err(()));
    assert_eq!(diags.len(), 1);
    assert_eq!(diags[0].message, "An implementation of 'mutable does not exist");
    assert_eq!(diags[0].span, span);
}

#[test]
fn ports_are_numbered() {
    let mut node = CLIRuntimeNode::new(3, "cli".to_string());
    assert_eq!(node.next_port(), "port_0");
    assert_eq!(node.next_port(), "port_1");
    assert_eq!(node.id(), 3);
    let mut cluster = CLIRuntimeCluster::new(4, "cli".to_string());
    assert_eq!(cluster.next_port(), "port_0");
}

#[test]
fn streams_get_fresh_names_per_flow() {
    let mut flow = FlowState::new();
    let process = CLIRuntimeNode::new(0, "cli".to_string());
    let cluster = CLIRuntimeCluster::new(1, "cli".to_string());
    let s0 = process.spin(&mut flow);
    let s1 = cluster.source_iter(&mut flow, "0..5".to_string());
    let (c, s2) = process.cycle(&mut flow);
    assert_eq!(s0.ident.name.as_str(), "stream_0");
    assert_eq!(s1.ident.name.as_str(), "stream_1");
    assert_eq!(s2.ident.name.as_str(), "stream_2");
    assert_eq!(c.ident.name.as_str(), "stream_2");
    assert_eq!(s1.location_id, 1);
    let builders = flow.take_builders();
    assert_eq!(builders.len(), 2);
    assert_eq!(builders.keys().copied().collect::<Vec<_>>(), vec![0, 1]);
    let mut it = builders.into_iter();
    let (_, process_builder) = it.next().unwrap();
    let (graph, _, _) = process_builder.build();
    // `stream_0 = spin() -> tee();` and `stream_2 = tee();`
    assert_eq!(graph.node_count(), 3);
    assert_eq!(graph.edge_count(), 1);
    assert_eq!(graph.node_varname(0).unwrap().name.as_str(), "stream_0");
    assert_eq!(graph.node_varname(2).unwrap().name.as_str(), "stream_2");
}

#[test]
fn cli_runtime_builds_locations_with_their_ids() {
    let data = CLIRuntimeData { ident: "__cli".to_string() };
    let process = <CLIRuntimeData as ProcessSpec<CLIRuntime>>::build(&data, 5, &mut ());
    let mut cluster = <CLIRuntimeData as ClusterSpec<CLIRuntime>>::build(&data, 6, &mut ());
    assert_eq!(process.id(), 5);
    assert_eq!(cluster.id(), 6);
    assert_eq!(process.cli(), "__cli");
    assert_eq!(cluster.cli(), "__cli");
    assert_eq!(cluster.next_port(), "port_0");
}

#[test]
fn external_sources_draw_a_port_and_receive_on_it() {
    let mut flow = FlowState::new();
    let mut node = CLIRuntimeNode::new(0, "__cli".to_string());
    let mut cluster = CLIRuntimeCluster::new(1, "__cli".to_string());
    let (p0, s0) = node.source_external(&mut flow);
    let (p1, s1) = cluster.many_source_external(&mut flow, false);
    let (p2, s2) = node.many_source_external(&mut flow, true);
    assert_eq!((p0.as_str(), p1.as_str(), p2.as_str()), ("port_0", "port_0", "port_1"));
    assert_eq!(s0.ident.name.as_str(), "stream_0");
    assert_eq!(s1.ident.name.as_str(), "stream_1");
    assert_eq!(s2.ident.name.as_str(), "stream_2");
    assert_eq!(node.next_port(), "port_2");
    let builders = flow.take_builders();
    let mut it = builders.into_iter();
    let (_, node_builder) = it.next().unwrap();
    let (graph, _, diags) = node_builder.build();
    let warning = "`tee` should have at least 2 output(s), actually has 0.".to_string();
    assert_eq!(diags.iter().map(|d| d.message.clone()).collect::<Vec<_>>(), vec![warning.clone(), warning]);
    assert!(diags.iter().all(|d| d.level == Level::Warning));
    assert_eq!(graph.node_count(), 4);
    match graph.node(0) {
        GraphNode::Operator(op) => {
            assert_eq!(op.name, "source_stream");
            assert_eq!(
                op.args,
                vec!["{ __cli.port(\"port_0\").connect_local_blocking::<ConnectedDirect>().into_source() }".to_string()]
            );
        }
        _ => panic!("expected an operator"),
    }
    match graph.node(2) {
        GraphNode::Operator(op) => assert_eq!(
            op.args,
            vec!["{ __cli.port(\"port_1\").connect_local_blocking::<ConnectedTagged<ConnectedDirect>>().into_source() }".to_string()]
        ),
        _ => panic!("expected an operator"),
    }
}

#[test]
fn sink_statements_demultiplex_to_clusters() {
    let to_cluster = gen_sink_statement(&"__cli".to_string(), &"port_3".to_string(), true);
    match to_cluster {
        Pipeline::Operator(op) => {
            assert_eq!(op.name, "dest_sink");
            assert_eq!(
                op.args,
                vec!["{ __cli.port(\"port_3\").connect_local_blocking::<ConnectedDemux<ConnectedDirect>>().into_sink() }".to_string()]
            );
        }
        _ => panic!("expected an operator"),
    }
    match gen_source_statement(&"c".to_string(), &"p".to_string(), false) {
        Pipeline::Operator(op) => assert_eq!(op.args, vec!["{ c.port(\"p\").connect_local_blocking::<ConnectedDirect>().into_source() }".to_string()]),
        _ => panic!("expected an operator"),
    }
}

#[test]
fn builders_come_out_in_order_of_location_id() {
    let mut flow = FlowState::new();
    let later = CLIRuntimeCluster::new(5, "cli".to_string());
    let earlier = CLIRuntimeNode::new(2, "cli".to_string());
    later.spin(&mut flow);
    earlier.spin(&mut flow);
    later.cycle(&mut flow);
    let builders = flow.take_builders();
    assert_eq!(builders.keys().copied().collect::<Vec<_>>(), vec![2, 5]);
    let (graph, _, _) = builders.into_iter().nth(1).unwrap().1.build();
    assert_eq!(graph.node_count(), 3);
}
