//! Laws of the flat graph builder, proved over its specification.
use vstd::prelude::*;

use crate::flat_graph_builder::{
    edge_type_step, edge_types_upto, make_op_insts, op_inst_step, spec_add_pipeline, spec_add_statement,
    spec_build, spec_check_operator_errors, spec_combine_end, spec_connect_link, spec_connect_links,
    spec_connect_operator_links, spec_connect_operators, spec_insert_operator_edge_types,
    spec_make_operator_instances, spec_mark_cycle, spec_resolve, spec_module_start, spec_process_statements, with_diag, ident_names, resolve_limit,
    BuilderView, Ends, GraphDet, find_name, in_conflicts, out_conflicts,
};
use crate::diagnostic::{diag, Level};
use crate::messages::msg_recursion_limit;
use crate::graph::{combine_ports, same_port, PortIndexValue};
use crate::diagnostic::Span;
use crate::parse::{HfStatement, ImportedModule, Pipeline};

verus! {

/// The number of nodes a pipeline adds: one per operator, and the nodes of
/// the graph of each module it imports.
pub open spec fn count_operators(p: Pipeline) -> nat
    decreases p,
{
    match p {
        Pipeline::Paren { pipeline, .. } => count_operators(*pipeline),
        Pipeline::Link { lhs, rhs } => count_operators(*lhs) + count_operators(*rhs),
        Pipeline::Operator(_) => 1,
        Pipeline::Import { module, .. } => match *module {
            ImportedModule::Parsed { code, file_path } => {
                let m = spec_process_statements(spec_module_start(file_path@), code.statements@);
                spec_build(BuilderView { module_diagnostics: Seq::empty(), ..m }).graph.nodes.len()
            },
            _ => 0,
        },
        _ => 0,
    }
}

/// The number of `->` links in a pipeline.
pub open spec fn count_links(p: Pipeline) -> nat
    decreases p,
{
    match p {
        Pipeline::Paren { pipeline, .. } => count_links(*pipeline),
        Pipeline::Link { lhs, rhs } => count_links(*lhs) + count_links(*rhs) + 1,
        _ => 0,
    }
}

/// `t` is `s` with more diagnostics, the same nodes (up to their operator
/// instances), no fewer edges (the first ones kept in place, up to their
/// types), and the same `use` items, path and module boundary.
pub open spec fn extends(s: BuilderView, t: BuilderView) -> bool {
    &&& s.diagnostics.is_prefix_of(t.diagnostics)
    &&& t.graph.nodes.len() == s.graph.nodes.len()
    &&& forall|i: int|
        #![trigger t.graph.nodes[i]]
        0 <= i < s.graph.nodes.len() ==> t.graph.nodes[i].node == s.graph.nodes[i].node
            && t.graph.nodes[i].varname == s.graph.nodes[i].varname
    &&& s.graph.edges.len() <= t.graph.edges.len()
    &&& forall|i: int|
        #![trigger t.graph.edges[i]]
        0 <= i < s.graph.edges.len() ==> t.graph.edges[i].src == s.graph.edges[i].src
            && t.graph.edges[i].dst == s.graph.edges[i].dst
            && t.graph.edges[i].src_port == s.graph.edges[i].src_port
            && t.graph.edges[i].dst_port == s.graph.edges[i].dst_port
    &&& t.uses == s.uses
    &&& t.path == s.path
    &&& t.module_boundary_nodes == s.module_boundary_nodes
}

proof fn lemma_extends_trans(a: BuilderView, b: BuilderView, c: BuilderView)
    requires
        extends(a, b),
        extends(b, c),
    ensures
        extends(a, c),
{
    assert forall|i: int| 0 <= i < a.graph.nodes.len() implies #[trigger] c.graph.nodes[i].node == a.graph.nodes[i].node
        && c.graph.nodes[i].varname == a.graph.nodes[i].varname by {
        assert(b.graph.nodes[i].node == a.graph.nodes[i].node);
    }
    assert forall|i: int| 0 <= i < a.graph.edges.len() implies #[trigger] c.graph.edges[i].src == a.graph.edges[i].src
        && c.graph.edges[i].dst == a.graph.edges[i].dst && c.graph.edges[i].src_port == a.graph.edges[i].src_port
        && c.graph.edges[i].dst_port == a.graph.edges[i].dst_port by {
        assert(b.graph.edges[i].src == a.graph.edges[i].src);
    }
    assert(a.diagnostics.is_prefix_of(c.diagnostics)) by {
        assert forall|i: int| 0 <= i < a.diagnostics.len() implies a.diagnostics[i] == c.diagnostics[i] by {
            assert(a.diagnostics[i] == b.diagnostics[i]);
        }
    }
}

proof fn lemma_extends_refl(a: BuilderView)
    ensures
        extends(a, a),
{
    assert(a.diagnostics.is_prefix_of(a.diagnostics));
}

proof fn lemma_extends_diags(a: BuilderView, ds: Seq<crate::diagnostic::DiagnosticView>)
    ensures
        extends(a, crate::flat_graph_builder::with_diags(a, ds)),
{
    let b = crate::flat_graph_builder::with_diags(a, ds);
    assert(a.diagnostics.is_prefix_of(b.diagnostics)) by {
        assert forall|i: int| 0 <= i < a.diagnostics.len() implies a.diagnostics[i] == b.diagnostics[i] by {}
    }
}

proof fn lemma_mark_cycle_extends(s: BuilderView, names: Seq<crate::graph::Ident>)
    ensures
        extends(s, spec_mark_cycle(s, names)),
        spec_mark_cycle(s, names).graph == s.graph,
{
    let t = spec_mark_cycle(s, names);
    assert(s.diagnostics.is_prefix_of(t.diagnostics)) by {
        assert forall|i: int| 0 <= i < s.diagnostics.len() implies s.diagnostics[i] == t.diagnostics[i] by {}
    }
}

/// Resolving a name never touches the graph, and only adds diagnostics.
pub proof fn lemma_resolve_extends(
    s: BuilderView,
    port_det: Option<(PortIndexValue, GraphDet)>,
    names: Seq<crate::graph::Ident>,
    is_in: bool,
    fuel: nat,
)
    ensures
        extends(s, spec_resolve(s, port_det, names, is_in, fuel).0),
        spec_resolve(s, port_det, names, is_in, fuel).0.graph == s.graph,
    decreases fuel,
{
    let t = spec_resolve(s, port_det, names, is_in, fuel).0;
    if fuel == 0 {
        lemma_extends_diags(s, seq![t.diagnostics.last()]);
        assert(t.diagnostics =~= s.diagnostics + seq![t.diagnostics.last()]);
    } else {
        match port_det {
            None => lemma_extends_refl(s),
            Some((port, GraphDet::Determined(id))) => lemma_extends_refl(s),
            Some((port, GraphDet::Undetermined(ident))) => match find_name(s.varname_ends, ident.name@) {
                None => {
                    lemma_extends_diags(s, seq![t.diagnostics.last()]);
                    assert(t.diagnostics =~= s.diagnostics + seq![t.diagnostics.last()]);
                },
                Some(k) => {
                    let cycle_found = crate::flat_graph_builder::names_contain(names, ident.name@);
                    let names2 = if cycle_found {
                        names
                    } else {
                        names.push(ident)
                    };
                    match s.varname_ends[k].1 {
                        Err(_) => lemma_mark_cycle_extends(s, names2),
                        Ok(ends) => if cycle_found {
                            lemma_mark_cycle_extends(s, names2);
                        } else {
                            let prev = if is_in {
                                ends.inn
                            } else {
                                ends.out
                            };
                            let (s1, pd) = spec_combine_end(
                                s,
                                prev,
                                port,
                                crate::flat_graph_builder::io_text(is_in),
                            );
                            lemma_extends_diags(s, crate::flat_graph_builder::combine_end_diags(prev, port, crate::flat_graph_builder::io_text(is_in)));
                            lemma_resolve_extends(s1, pd, names2, is_in, (fuel - 1) as nat);
                            lemma_extends_trans(s, s1, t);
                        },
                    }
                },
            },
        }
    }
}

proof fn lemma_connect_operators_extends(
    s: BuilderView,
    src_port: PortIndexValue,
    src: usize,
    dst_port: PortIndexValue,
    dst: usize,
)
    ensures
        extends(s, spec_connect_operators(s, src_port, src, dst_port, dst)),
        spec_connect_operators(s, src_port, src, dst_port, dst).graph.edges.len() == s.graph.edges.len() + 1,
{
    let t = spec_connect_operators(s, src_port, src, dst_port, dst);
    assert(s.diagnostics.is_prefix_of(t.diagnostics)) by {
        assert forall|i: int| 0 <= i < s.diagnostics.len() implies s.diagnostics[i] == t.diagnostics[i] by {}
    }
}

proof fn lemma_connect_link_extends(s: BuilderView, link: Ends)
    ensures
        extends(s, spec_connect_link(s, link)),
        spec_connect_link(s, link).graph.edges.len() <= s.graph.edges.len() + 1,
{
    let limit = crate::flat_graph_builder::resolve_limit();
    let (s1, out_opt) = spec_resolve(s, link.out, Seq::empty(), false, limit);
    let (s2, inn_opt) = spec_resolve(s1, link.inn, Seq::empty(), true, limit);
    lemma_resolve_extends(s, link.out, Seq::empty(), false, limit);
    lemma_resolve_extends(s1, link.inn, Seq::empty(), true, limit);
    lemma_extends_trans(s, s1, s2);
    match (out_opt, inn_opt) {
        (Some((out_port, out_node)), Some((inn_port, inn_node))) => {
            lemma_connect_operators_extends(s2, out_port, out_node, inn_port, inn_node);
            lemma_extends_trans(s, s2, spec_connect_link(s, link));
        },
        _ => {},
    }
}

proof fn lemma_connect_links_extends(s: BuilderView, links: Seq<Ends>)
    ensures
        extends(s, spec_connect_links(s, links)),
        spec_connect_links(s, links).graph.edges.len() <= s.graph.edges.len() + links.len(),
    decreases links.len(),
{
    if links.len() == 0 {
        lemma_extends_refl(s);
    } else {
        let mid = spec_connect_links(s, links.drop_last());
        lemma_connect_links_extends(s, links.drop_last());
        lemma_connect_link_extends(mid, links.last());
        lemma_extends_trans(s, mid, spec_connect_links(s, links));
    }
}

proof fn lemma_make_op_insts_extends(s: BuilderView, k: int)
    requires
        k <= s.graph.nodes.len(),
    ensures
        extends(s, make_op_insts(s, k)),
        make_op_insts(s, k).graph.edges == s.graph.edges,
    decreases k,
{
    if k <= 0 {
        lemma_extends_refl(s);
    } else {
        let mid = make_op_insts(s, k - 1);
        lemma_make_op_insts_extends(s, k - 1);
        let t = op_inst_step(mid, k - 1);
        assert(extends(mid, t)) by {
            assert(mid.diagnostics.is_prefix_of(t.diagnostics)) by {
                assert forall|i: int| 0 <= i < mid.diagnostics.len() implies mid.diagnostics[i] == t.diagnostics[i] by {}
            }
        }
        lemma_extends_trans(s, mid, t);
    }
}

proof fn lemma_edge_types_extends(s: BuilderView, k: int)
    requires
        k <= s.graph.edges.len(),
    ensures
        extends(s, edge_types_upto(s, k)),
        edge_types_upto(s, k).graph.nodes == s.graph.nodes,
        edge_types_upto(s, k).graph.edges.len() == s.graph.edges.len(),
        edge_types_upto(s, k).diagnostics == s.diagnostics,
    decreases k,
{
    if k <= 0 {
        lemma_extends_refl(s);
    } else {
        let mid = edge_types_upto(s, k - 1);
        lemma_edge_types_extends(s, k - 1);
        let t = edge_type_step(mid, k - 1);
        assert(extends(mid, t)) by {
            assert(mid.diagnostics.is_prefix_of(t.diagnostics));
        }
        lemma_extends_trans(s, mid, t);
    }
}

/// Building adds diagnostics and edges and never removes any: it keeps every
/// node (only filling in operator instances), keeps the edges already there,
/// adds at most one edge per stored link, and keeps the `use` items.
pub proof fn lemma_build_extends(s: BuilderView)
    requires
        s.wf(),
    ensures
        extends(s, spec_build(s)),
        spec_build(s).graph.edges.len() <= s.graph.edges.len() + s.links.len(),
{
    let s0 = BuilderView { links: Seq::empty(), ..s };
    lemma_extends_refl(s);
    assert(extends(s, s0));
    let c = spec_connect_operator_links(s);
    lemma_connect_links_extends(s0, s.links);
    lemma_extends_trans(s, s0, c);
    let m = spec_make_operator_instances(c);
    lemma_make_op_insts_extends(c, c.graph.nodes.len() as int);
    lemma_extends_trans(s, c, m);
    let e = spec_insert_operator_edge_types(m);
    lemma_edge_types_extends(m, m.graph.edges.len() as int);
    lemma_extends_trans(s, m, e);
    let t = spec_check_operator_errors(e);
    lemma_extends_diags(e, t.diagnostics.subrange(e.diagnostics.len() as int, t.diagnostics.len() as int));
    assert(t.diagnostics =~= e.diagnostics + t.diagnostics.subrange(e.diagnostics.len() as int, t.diagnostics.len() as int));
    lemma_extends_trans(s, e, t);
}

/// Adding a pipeline adds one node per operator (and the nodes of each
/// imported module), in order after the existing ones, and one link per `->`;
/// it keeps the existing nodes, links, edges, names and `use` items, and only
/// adds diagnostics.
pub proof fn lemma_add_pipeline_counts(s: BuilderView, p: Pipeline, v: Option<crate::graph::Ident>)
    ensures
        ({
            let t = spec_add_pipeline(s, p, v).0;
            &&& t.graph.nodes.len() == s.graph.nodes.len() + count_operators(p)
            &&& t.links.len() == s.links.len() + count_links(p)
            &&& s.graph.edges.is_prefix_of(t.graph.edges)
            &&& t.varname_ends == s.varname_ends
            &&& t.uses == s.uses
            &&& t.path == s.path
            &&& t.module_boundary_nodes == s.module_boundary_nodes
            &&& s.diagnostics.is_prefix_of(t.diagnostics)
            &&& s.graph.nodes.is_prefix_of(t.graph.nodes)
            &&& s.links.is_prefix_of(t.links)
        }),
    decreases p,
{
    let t = spec_add_pipeline(s, p, v).0;
    match p {
        Pipeline::Paren { inn, pipeline, out, span } => {
            lemma_add_pipeline_counts(s, *pipeline, v);
            let s1 = spec_add_pipeline(s, *pipeline, v).0;
            assert(s.diagnostics.is_prefix_of(t.diagnostics)) by {
                assert forall|i: int| 0 <= i < s.diagnostics.len() implies s.diagnostics[i] == t.diagnostics[i] by {
                    assert(s.diagnostics[i] == s1.diagnostics[i]);
                }
            }
        },
        Pipeline::Name { .. } => {
            assert(s.diagnostics.is_prefix_of(t.diagnostics));
            assert(s.graph.nodes.is_prefix_of(t.graph.nodes));
            assert(s.links.is_prefix_of(t.links));
        },
        Pipeline::ModuleBoundary { .. } => {
            assert(s.diagnostics.is_prefix_of(t.diagnostics));
            assert(s.graph.nodes.is_prefix_of(t.graph.nodes));
            assert(s.links.is_prefix_of(t.links));
        },
        Pipeline::Link { lhs, rhs } => {
            lemma_add_pipeline_counts(s, *lhs, v);
            let s1 = spec_add_pipeline(s, *lhs, v).0;
            lemma_add_pipeline_counts(s1, *rhs, v);
            let s2 = spec_add_pipeline(s1, *rhs, v).0;
            assert(s.diagnostics.is_prefix_of(t.diagnostics)) by {
                assert forall|i: int| 0 <= i < s.diagnostics.len() implies s.diagnostics[i] == t.diagnostics[i] by {
                    assert(s.diagnostics[i] == s1.diagnostics[i]);
                }
            }
            assert(s.graph.nodes.is_prefix_of(t.graph.nodes)) by {
                assert forall|i: int| 0 <= i < s.graph.nodes.len() implies s.graph.nodes[i] == t.graph.nodes[i] by {
                    assert(s.graph.nodes[i] == s1.graph.nodes[i]);
                }
            }
            assert(s.links.is_prefix_of(t.links)) by {
                assert forall|i: int| 0 <= i < s.links.len() implies s.links[i] == t.links[i] by {
                    assert(s.links[i] == s1.links[i]);
                    assert(s1.links[i] == s2.links[i]);
                }
            }
            assert(s.graph.edges.is_prefix_of(t.graph.edges)) by {
                assert forall|i: int| 0 <= i < s.graph.edges.len() implies s.graph.edges[i] == t.graph.edges[i] by {
                    assert(s.graph.edges[i] == s1.graph.edges[i]);
                }
            }
        },
        Pipeline::Operator(_) => {
            assert(s.diagnostics.is_prefix_of(t.diagnostics));
            assert(s.graph.nodes.is_prefix_of(t.graph.nodes));
            assert(s.links.is_prefix_of(t.links));
        },
        Pipeline::Import { .. } => {
            assert(s.diagnostics.is_prefix_of(t.diagnostics));
            assert(s.graph.nodes.is_prefix_of(t.graph.nodes));
            assert(s.graph.edges.is_prefix_of(t.graph.edges));
            assert(s.links.is_prefix_of(t.links));
        },
    }
}

/// No entry of `v` is named `name` when the search finds none.
pub proof fn lemma_find_name_none(v: Seq<(crate::graph::Ident, Result<Ends, ()>)>, name: Seq<char>)
    ensures
        find_name(v, name) is None <==> forall|i: int| 0 <= i < v.len() ==> (#[trigger] v[i]).0.name@ != name,
        find_name(v, name) matches Some(k) ==> 0 <= k < v.len() && v[k].0.name@ == name,
    decreases v.len(),
{
    if v.len() > 0 {
        lemma_find_name_none(v.drop_last(), name);
        if find_name(v, name) is None {
            assert forall|i: int| 0 <= i < v.len() implies (#[trigger] v[i]).0.name@ != name by {
                if i < v.len() - 1 {
                    assert(v.drop_last()[i] == v[i]);
                }
            }
        } else {
            if find_name(v.drop_last(), name) is Some {
                let k = find_name(v.drop_last(), name)->Some_0;
                assert(v.drop_last()[k] == v[k]);
            }
        }
    }
}

/// Names are unique among the named pipelines.
pub open spec fn names_unique(v: Seq<(crate::graph::Ident, Result<Ends, ()>)>) -> bool {
    forall|i: int, j: int| 0 <= i < j < v.len() ==> (#[trigger] v[i]).0.name@ != (#[trigger] v[j]).0.name@
}

/// A name is bound by its first assignment: a later assignment to the same
/// name leaves the bindings as they were and is reported twice, at both
/// assignments. A fresh name is bound to the ends of its pipeline. Either way,
/// names stay unique.
pub proof fn lemma_named_first_assignment_wins(s: BuilderView, named: crate::parse::NamedHfStatement)
    requires
        names_unique(s.varname_ends),
    ensures
        ({
            let (s1, ends) = spec_add_pipeline(s, named.pipeline, Some(named.name));
            let t = spec_add_statement(s, HfStatement::Named(named));
            &&& names_unique(t.varname_ends)
            &&& match find_name(s.varname_ends, named.name.name@) {
                Some(k) => t.varname_ends == s.varname_ends && t.diagnostics.len() == s1.diagnostics.len()
                    + 2,
                None => t.varname_ends == s.varname_ends.push((named.name, Ok(ends))) && find_name(
                    t.varname_ends,
                    named.name.name@,
                ) == Some(s.varname_ends.len() as int) && t.diagnostics == s1.diagnostics,
            }
        }),
{
    lemma_add_pipeline_counts(s, named.pipeline, Some(named.name));
    let (s1, ends) = spec_add_pipeline(s, named.pipeline, Some(named.name));
    let t = spec_add_statement(s, HfStatement::Named(named));
    lemma_find_name_none(s.varname_ends, named.name.name@);
    match find_name(s.varname_ends, named.name.name@) {
        Some(k) => {},
        None => {
            let v2 = s.varname_ends.push((named.name, Ok(ends)));
            assert(v2.drop_last() =~= s.varname_ends);
            assert(names_unique(v2)) by {
                assert forall|i: int, j: int| 0 <= i < j < v2.len() implies (#[trigger] v2[i]).0.name@ != (
                #[trigger] v2[j]).0.name@ by {
                    if j == v2.len() - 1 {
                        assert(v2[i] == s.varname_ends[i]);
                    } else {
                        assert(v2[i] == s.varname_ends[i]);
                        assert(v2[j] == s.varname_ends[j]);
                    }
                }
            }
        },
    }
}

/// What resolving an end of a link comes to, within the limit of
/// [`resolve_limit`] steps: no end resolves to nothing and changes nothing; an
/// end at a known node resolves to it at once, unchanged; and when the steps
/// run out on a chain of names, the result is nothing, with one error at the
/// call site that lists the names visited.
pub proof fn lemma_resolve_outcomes(
    s: BuilderView,
    port: PortIndexValue,
    id: usize,
    names: Seq<crate::graph::Ident>,
    is_in: bool,
    fuel: nat,
    end: Option<(PortIndexValue, GraphDet)>,
)
    ensures
        spec_resolve(s, None, names, is_in, fuel + 1) == (s, None::<(PortIndexValue, usize)>),
        spec_resolve(s, Some((port, GraphDet::Determined(id))), names, is_in, fuel + 1) == (s, Some((port, id))),
        spec_resolve(s, end, names, is_in, 0) == (
            with_diag(
                s,
                diag(Span::spec_call_site(), Level::Error, msg_recursion_limit(ident_names(names))),
            ),
            None::<(PortIndexValue, usize)>,
        ),
        resolve_limit() == 1024,
{
}

/// Two ports are the same port exactly when they are equal: named ports
/// with equal names, numbered ports with equal numbers, or both left out
/// (elided). A named port is never a numbered one, and a written port is
/// never an elided one.
pub proof fn lemma_same_port_is_equality(a: PortIndexValue, b: PortIndexValue)
    ensures
        (a is Path && b is Path) ==> (same_port(a, b) <==> a->Path_0.path@ == b->Path_0.path@),
        (a is Int && b is Int) ==> (same_port(a, b) <==> a->Int_0.value == b->Int_0.value),
        (a is Elided && b is Elided) ==> same_port(a, b),
        (a is Elided) != (b is Elided) ==> !same_port(a, b),
        (a is Int && b is Path) ==> !same_port(a, b),
        (a is Path && b is Int) ==> !same_port(a, b),
        same_port(a, b) == same_port(b, a),
{
}

/// An input port conflicts only with an equal port of the same node: when
/// every edge that already enters `dst` does so at a named port whose name
/// differs from `name`, connecting another edge at the port named `name`
/// reports nothing (as with `[pos]` and `[neg]` into one `anti_join`).
pub proof fn lemma_differently_named_inputs_do_not_conflict(
    edges: Seq<crate::graph::Edge>,
    dst: usize,
    port: crate::graph::ExprPath,
    k: int,
)
    requires
        forall|i: int|
            0 <= i < k && #[trigger] edges[i].dst == dst ==> edges[i].dst_port is Path
                && edges[i].dst_port->Path_0.path@ != port.path@,
    ensures
        in_conflicts(edges, dst, PortIndexValue::Path(port), k) == Seq::<crate::diagnostic::DiagnosticView>::empty(),
    decreases k,
{
    if k > 0 {
        lemma_differently_named_inputs_do_not_conflict(edges, dst, port, k - 1);
        lemma_same_port_is_equality(edges[k - 1].dst_port, PortIndexValue::Path(port));
    }
}

/// The same for output ports: an edge that leaves `src` at the port named
/// `name` conflicts with no edge that leaves `src` at a port named otherwise.
pub proof fn lemma_differently_named_outputs_do_not_conflict(
    edges: Seq<crate::graph::Edge>,
    src: usize,
    port: crate::graph::ExprPath,
    k: int,
)
    requires
        forall|i: int|
            0 <= i < k && #[trigger] edges[i].src == src ==> edges[i].src_port is Path
                && edges[i].src_port->Path_0.path@ != port.path@,
    ensures
        out_conflicts(edges, src, PortIndexValue::Path(port), k) == Seq::<crate::diagnostic::DiagnosticView>::empty(),
    decreases k,
{
    if k > 0 {
        lemma_differently_named_outputs_do_not_conflict(edges, src, port, k - 1);
        lemma_same_port_is_equality(edges[k - 1].src_port, PortIndexValue::Path(port));
    }
}

/// Combining with an elided port is neutral, on either side; two written
/// ports do not combine, and the first one is kept.
pub proof fn lemma_combine_ports(a: PortIndexValue, b: PortIndexValue, span: Option<Span>)
    ensures
        combine_ports(PortIndexValue::Elided(span), b) == Ok::<PortIndexValue, PortIndexValue>(b),
        a.is_specified() ==> combine_ports(a, PortIndexValue::Elided(span)) == Ok::<
            PortIndexValue,
            PortIndexValue,
        >(a),
        a.is_specified() && b.is_specified() ==> combine_ports(a, b) == Err::<PortIndexValue, PortIndexValue>(
            a,
        ),
{
}

} // verus!
