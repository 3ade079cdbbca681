//! Builds a flat graph from dataflow statements: operators become nodes, links
//! become edges once names are resolved, and every problem found on the way is
//! reported as a diagnostic.
use vstd::prelude::*;

use crate::diagnostic::{diag, diag_views, Diagnostic, DiagnosticView, Level, Span};
use crate::graph::{
    combine_ports, port_of_ported, port_span, same_port, Edge, GraphEdgeType,
    GraphNode, GraphView, HydroflowGraph, Ident, Name, NodeEntry, Operator, OperatorInstance, PortIndexValue,
};
use crate::messages::{
    already_indexed, msg_import_unreadable, conflict_above, conflict_below, edge_type_mismatch, index_overwritten, mod_outside_module, msg_already_indexed, msg_conflict_above, msg_conflict_below, msg_edge_type_mismatch, msg_index_overwritten, msg_mod_outside_module, msg_name_conflict_first, msg_name_conflict_second, msg_name_cycle, msg_name_never_assigned, msg_no_edge_type, msg_recursion_limit, msg_unknown_operator, msg_wrong_arg_count, name_conflict_first, name_conflict_second, name_cycle, name_never_assigned, no_edge_type, recursion_limit, unknown_operator, wrong_arg_count,
};
use crate::port_check::{emit_port_error, port_diags};
use crate::ops::{find_op_op_constraints, find_op_ports, op_constraints_named, op_ports_named, range_text, ArityRange, OperatorConstraints};
use crate::text::decimal;
use crate::parse::{HfCode, HfStatement, ImportedModule, NamedHfStatement, Pipeline};

verus! {

/// Where an end of a pipeline attaches: a known node, or a name that is
/// resolved once every statement has been added.
#[derive(Debug)]
pub enum GraphDet {
    Determined(usize),
    Undetermined(Ident),
}

/// The input and output ends of a pipeline, each with its port, if it has one.
#[derive(Debug)]
pub struct Ends {
    pub inn: Option<(PortIndexValue, GraphDet)>,
    pub out: Option<(PortIndexValue, GraphDet)>,
}

/// The mathematical value of a [`FlatGraphBuilder`].
pub struct BuilderView {
    pub diagnostics: Seq<DiagnosticView>,
    pub graph: GraphView,
    pub varname_ends: Seq<(Ident, Result<Ends, ()>)>,
    pub links: Seq<Ends>,
    pub uses: Seq<String>,
    pub path: Seq<char>,
    pub module_boundary_nodes: Option<(usize, usize)>,
    pub module_diagnostics: Seq<DiagnosticView>,
}

/// Builds a flat graph from dataflow statements.
#[derive(Debug)]
pub struct FlatGraphBuilder {
    /// Diagnostics found so far.
    diagnostics: Vec<Diagnostic>,
    /// The graph being built.
    flat_graph: HydroflowGraph,
    /// The ends of each named pipeline; `Err(())` marks a name that takes part in
    /// a self-referential cycle. Names are unique.
    varname_ends: Vec<(Ident, Result<Ends, ()>)>,
    /// Each `out -> inn` link, connected when the graph is built.
    links: Vec<Ends>,
    /// The `use` items.
    uses: Vec<String>,
    /// The file that holds the code, to which imports are relative.
    invocating_file_path: String,
    /// The input and output boundary nodes, when the code is a module.
    module_boundary_nodes: Option<(usize, usize)>,
    /// The diagnostics of imported modules, which are reported on their own.
    module_diagnostics: Vec<Diagnostic>,
}

impl View for FlatGraphBuilder {
    type V = BuilderView;

    closed spec fn view(&self) -> BuilderView {
        BuilderView {
            diagnostics: diag_views(self.diagnostics@),
            graph: self.flat_graph@,
            varname_ends: self.varname_ends@,
            links: self.links@,
            uses: self.uses@,
            path: self.invocating_file_path@,
            module_boundary_nodes: self.module_boundary_nodes,
            module_diagnostics: diag_views(self.module_diagnostics@),
        }
    }
}

// ---------------------------------------------------------------------------
// Well-formedness: every node id that the builder holds names a node.

pub open spec fn det_wf(d: GraphDet, n: nat) -> bool {
    d matches GraphDet::Determined(id) ==> id < n
}

pub open spec fn end_wf(e: Option<(PortIndexValue, GraphDet)>, n: nat) -> bool {
    e matches Some((_, d)) ==> det_wf(d, n)
}

pub open spec fn ends_wf(e: Ends, n: nat) -> bool {
    end_wf(e.inn, n) && end_wf(e.out, n)
}

impl BuilderView {
    pub open spec fn wf(self) -> bool {
        let n = self.graph.nodes.len();
        &&& self.graph.wf()
        &&& forall|i: int| #![trigger self.links[i]] 0 <= i < self.links.len() ==> ends_wf(self.links[i], n)
        &&& forall|i: int|
            #![trigger self.varname_ends[i]]
            0 <= i < self.varname_ends.len() ==> (self.varname_ends[i].1 matches Ok(e) ==> ends_wf(e, n))
        &&& (self.module_boundary_nodes matches Some((a, b)) ==> a < n && b < n)
    }
}

// ---------------------------------------------------------------------------
// Specification of adding statements.

/// The first entry of `v` whose name is `name`.
pub open spec fn find_name(v: Seq<(Ident, Result<Ends, ()>)>, name: Seq<char>) -> Option<int>
    decreases v.len(),
{
    if v.len() == 0 {
        None
    } else {
        match find_name(v.drop_last(), name) {
            Some(j) => Some(j),
            None => if v.last().0.name@ == name {
                Some(v.len() - 1)
            } else {
                None
            },
        }
    }
}

pub open spec fn with_diag(s: BuilderView, d: DiagnosticView) -> BuilderView {
    BuilderView { diagnostics: s.diagnostics.push(d), ..s }
}

pub open spec fn with_diags(s: BuilderView, ds: Seq<DiagnosticView>) -> BuilderView {
    BuilderView { diagnostics: s.diagnostics + ds, ..s }
}

pub open spec fn io_text(is_in: bool) -> Seq<char> {
    if is_in {
        "input"@
    } else {
        "output"@
    }
}

/// The end that results from combining the port indexing `other` around a
/// name with the end `og` that the name stands for.
pub open spec fn combine_end_result(og: Option<(PortIndexValue, GraphDet)>, other: PortIndexValue) -> Option<
    (PortIndexValue, GraphDet),
> {
    match og {
        None => None,
        Some((og_port, node)) => match combine_ports(og_port, other) {
            Ok(c) => Some((c, node)),
            Err(p) => Some((p, node)),
        },
    }
}

/// The diagnostics of that combination: two written ports are an error,
/// reported at both of them.
pub open spec fn combine_end_diags(
    og: Option<(PortIndexValue, GraphDet)>,
    other: PortIndexValue,
    io: Seq<char>,
) -> Seq<DiagnosticView> {
    match og {
        None => Seq::empty(),
        Some((og_port, node)) => match combine_ports(og_port, other) {
            Ok(c) => Seq::empty(),
            Err(p) => seq![
                diag(port_span(p), Level::Error, msg_index_overwritten(io, port_span(other))),
                diag(port_span(other), Level::Error, msg_already_indexed(io, port_span(p))),
            ],
        },
    }
}

/// Combines the port indexing around a name with the end it names; the
/// original end is kept when both are indexed.
pub open spec fn spec_combine_end(
    s: BuilderView,
    og: Option<(PortIndexValue, GraphDet)>,
    other: PortIndexValue,
    io: Seq<char>,
) -> (BuilderView, Option<(PortIndexValue, GraphDet)>) {
    (with_diags(s, combine_end_diags(og, other, io)), combine_end_result(og, other))
}

pub open spec fn spec_combine_ends(
    s: BuilderView,
    og: Ends,
    inn_port: PortIndexValue,
    out_port: PortIndexValue,
) -> (BuilderView, Ends) {
    let (s1, inn) = spec_combine_end(s, og.inn, inn_port, "input"@);
    let (s2, out) = spec_combine_end(s1, og.out, out_port, "output"@);
    (s2, Ends { inn, out })
}

pub open spec fn no_ends() -> Ends {
    Ends { inn: None, out: None }
}

/// Adds a pipeline; returns the state after and the input and output ends.
pub open spec fn spec_add_pipeline(s: BuilderView, p: Pipeline, varname: Option<Ident>) -> (
    BuilderView,
    Ends,
)
    decreases p,
{
    match p {
        Pipeline::Paren { inn, pipeline, out, span } => {
            let (s1, og) = spec_add_pipeline(s, *pipeline, varname);
            spec_combine_ends(s1, og, port_of_ported(inn, span), port_of_ported(out, span))
        },
        Pipeline::Name { inn, ident, out } => (
            s,
            Ends {
                inn: Some((port_of_ported(inn, ident.span), GraphDet::Undetermined(ident))),
                out: Some((port_of_ported(out, ident.span), GraphDet::Undetermined(ident))),
            },
        ),
        Pipeline::ModuleBoundary { inn, out, span } => match s.module_boundary_nodes {
            None => (with_diag(s, diag(span, Level::Error, msg_mod_outside_module())), no_ends()),
            Some((input_node, output_node)) => (
                s,
                Ends {
                    inn: Some((port_of_ported(inn, span), GraphDet::Determined(output_node))),
                    out: Some((port_of_ported(out, span), GraphDet::Determined(input_node))),
                },
            ),
        },
        Pipeline::Link { lhs, rhs } => {
            let (s1, l) = spec_add_pipeline(s, *lhs, varname);
            let (s2, r) = spec_add_pipeline(s1, *rhs, varname);
            (
                BuilderView { links: s2.links.push(Ends { inn: r.inn, out: l.out }), ..s2 },
                Ends { inn: l.inn, out: r.out },
            )
        },
        Pipeline::Operator(op) => {
            let nid = s.graph.nodes.len() as usize;
            let span = op.span;
            (
                BuilderView {
                    graph: GraphView {
                        nodes: s.graph.nodes.push(
                            NodeEntry { node: GraphNode::Operator(op), varname, op_inst: None },
                        ),
                        ..s.graph
                    },
                    ..s
                },
                Ends {
                    inn: Some((PortIndexValue::Elided(Some(span)), GraphDet::Determined(nid))),
                    out: Some((PortIndexValue::Elided(Some(span)), GraphDet::Determined(nid))),
                },
            )
        },
        Pipeline::Import { filename, filename_span, span, module } => match *module {
            ImportedModule::Unreadable { err } => (
                with_diag(s, diag(filename_span, Level::Error, msg_import_unreadable(filename@, err@))),
                no_ends(),
            ),
            ImportedModule::Unparsable { err } => (with_diag(s, diag(span, Level::Error, err@)), no_ends()),
            ImportedModule::Parsed { code, file_path } => {
                let m = spec_process_statements(spec_module_start(file_path@), code.statements@);
                let b = spec_build(BuilderView { module_diagnostics: Seq::empty(), ..m });
                (
                    BuilderView {
                        graph: spec_merge_graph(s.graph, b.graph, span),
                        module_diagnostics: s.module_diagnostics + m.module_diagnostics + b.diagnostics,
                        ..s
                    },
                    merged_ends(b.graph, s.graph.nodes.len()),
                )
            },
        },
    }
}

/// Adds one statement.
pub open spec fn spec_add_statement(s: BuilderView, stmt: HfStatement) -> BuilderView
    decreases stmt,
{
    match stmt {
        HfStatement::Use(u) => BuilderView { uses: s.uses.push(u), ..s },
        HfStatement::Named(named) => {
            let (s1, ends) = spec_add_pipeline(s, named.pipeline, Some(named.name));
            match find_name(s1.varname_ends, named.name.name@) {
                None => BuilderView {
                    varname_ends: s1.varname_ends.push((named.name, Ok(ends))),
                    ..s1
                },
                Some(k) => {
                    let prev = s1.varname_ends[k].0;
                    with_diags(
                        s1,
                        seq![
                            diag(named.span, Level::Error, msg_name_conflict_first(prev.name@, prev.span)),
                            diag(prev.span, Level::Error, msg_name_conflict_second(prev.name@, named.span)),
                        ],
                    )
                },
            }
        },
        HfStatement::Pipeline(ps) => spec_add_pipeline(s, ps.pipeline, None).0,
    }
}

/// Adds statements in order.
pub open spec fn spec_process_statements(s: BuilderView, stmts: Seq<HfStatement>) -> BuilderView
    decreases stmts,
{
    if stmts.len() == 0 {
        s
    } else {
        spec_add_statement(spec_process_statements(s, stmts.drop_last()), stmts.last())
    }
}

/// The state of a new builder for code in the file `path`.
pub open spec fn spec_new_builder(path: Seq<char>) -> BuilderView {
    BuilderView {
        diagnostics: Seq::empty(),
        graph: GraphView { nodes: Seq::empty(), edges: Seq::empty() },
        varname_ends: Seq::empty(),
        links: Seq::empty(),
        uses: Seq::empty(),
        path,
        module_boundary_nodes: None,
        module_diagnostics: Seq::empty(),
    }
}

/// The state of a new builder for a module in the file `path`: an input and an
/// output boundary node, named `input` and `output`.
pub open spec fn spec_module_start(path: Seq<char>) -> BuilderView {
    let call_site = Span::spec_call_site();
    BuilderView {
        graph: GraphView {
            nodes: seq![
                NodeEntry {
                    node: GraphNode::ModuleBoundary { input: true, import_expr: call_site },
                    varname: Some(Ident { name: Name::Fixed("input"), span: call_site }),
                    op_inst: None,
                },
                NodeEntry {
                    node: GraphNode::ModuleBoundary { input: false, import_expr: call_site },
                    varname: Some(Ident { name: Name::Fixed("output"), span: call_site }),
                    op_inst: None,
                },
            ],
            edges: Seq::empty(),
        },
        module_boundary_nodes: Some((0usize, 1usize)),
        ..spec_new_builder(path)
    }
}

/// The identifier that an optional reference points to.
pub open spec fn opt_ident(o: Option<&Ident>) -> Option<Ident> {
    match o {
        Some(i) => Some(*i),
        None => None,
    }
}

// ---------------------------------------------------------------------------
// Copies and small helpers.

impl GraphDet {
    /// A copy of this attachment.
    pub fn duplicate(&self) -> (d: GraphDet)
        ensures
            d == *self,
    {
        match self {
            GraphDet::Determined(id) => GraphDet::Determined(*id),
            GraphDet::Undetermined(i) => GraphDet::Undetermined(i.duplicate()),
        }
    }
}

/// A copy of an end.
pub fn duplicate_end(e: &Option<(PortIndexValue, GraphDet)>) -> (r: Option<(PortIndexValue, GraphDet)>)
    ensures
        r == *e,
{
    match e {
        Some((p, d)) => Some((p.duplicate(), d.duplicate())),
        None => None,
    }
}

/// Appends a diagnostic to a list.
pub fn push_diag(ds: &mut Vec<Diagnostic>, d: Diagnostic)
    ensures
        final(ds)@ == old(ds)@.push(d),
        diag_views(final(ds)@) == diag_views(old(ds)@).push(d@),
{
    ds.push(d);
    assert(diag_views(ds@) =~= diag_views(old(ds)@).push(d@));
}

impl FlatGraphBuilder {
    /// Adds a diagnostic.
    fn push_diagnostic(&mut self, d: Diagnostic)
        requires
            old(self)@.wf(),
        ensures
            final(self)@ == with_diag(old(self)@, d@),
            final(self)@.wf(),
    {
        push_diag(&mut self.diagnostics, d);
    }

    /// Helper: combines the port indexing around a name with one end it names.
    fn helper_combine_end(
        diagnostics: &mut Vec<Diagnostic>,
        og: Option<(PortIndexValue, GraphDet)>,
        other: PortIndexValue,
        input_output: &str,
    ) -> (r: Option<(PortIndexValue, GraphDet)>)
        ensures
            diag_views(final(diagnostics)@) == diag_views(old(diagnostics)@) + combine_end_diags(
                og,
                other,
                input_output@,
            ),
            r == combine_end_result(og, other),
    {
        let other_span = other.span();
        match og {
            None => {
                assert(diag_views(diagnostics@) =~= diag_views(old(diagnostics)@) + Seq::empty());
                None
            },
            Some((og_port, og_node)) => match og_port.combine(other) {
                Ok(combined_port) => {
                    assert(diag_views(diagnostics@) =~= diag_views(old(diagnostics)@) + Seq::empty());
                    Some((combined_port, og_node))
                },
                Err(og_port) => {
                    let og_span = og_port.span();
                    push_diag(
                        diagnostics,
                        Diagnostic::spanned(
                            og_span,
                            Level::Error,
                            index_overwritten(input_output, other_span),
                        ),
                    );
                    push_diag(
                        diagnostics,
                        Diagnostic::spanned(
                            other_span,
                            Level::Error,
                            already_indexed(input_output, og_span),
                        ),
                    );
                    assert(diag_views(diagnostics@) =~= diag_views(old(diagnostics)@)
                        + combine_end_diags(og, other, input_output@));
                    Some((og_port, og_node))
                },
            },
        }
    }

    /// Helper: combines the port indexing around a name with both ends it names.
    fn helper_combine_ends(
        diagnostics: &mut Vec<Diagnostic>,
        og_ends: Ends,
        inn_port: PortIndexValue,
        out_port: PortIndexValue,
    ) -> (r: Ends)
        ensures
            diag_views(final(diagnostics)@) == diag_views(old(diagnostics)@) + combine_end_diags(
                og_ends.inn,
                inn_port,
                "input"@,
            ) + combine_end_diags(og_ends.out, out_port, "output"@),
            r == (Ends {
                inn: combine_end_result(og_ends.inn, inn_port),
                out: combine_end_result(og_ends.out, out_port),
            }),
    {
        let inn = Self::helper_combine_end(diagnostics, og_ends.inn, inn_port, "input");
        let out = Self::helper_combine_end(diagnostics, og_ends.out, out_port, "output");
        Ends { inn, out }
    }

    proof fn lemma_combine_end_wf(og: Option<(PortIndexValue, GraphDet)>, other: PortIndexValue, n: nat)
        requires
            end_wf(og, n),
        ensures
            end_wf(combine_end_result(og, other), n),
    {
    }

    /// Helper: adds an `import!` of the file `filename` (written at
    /// `filename_span`; the import is at `span`), whose module has been
    /// looked for; returns the ends of the import.
    fn add_import(
        &mut self,
        filename: String,
        filename_span: Span,
        span: Span,
        module: ImportedModule,
    ) -> (r: Ends)
        requires
            old(self)@.wf(),
        ensures
            final(self)@.wf(),
            (final(self)@, r) == spec_add_pipeline(
                old(self)@,
                Pipeline::Import { filename, filename_span, span, module: Box::new(module) },
                None,
            ),
            ends_wf(r, final(self)@.graph.nodes.len()),
            old(self)@.graph.nodes.len() <= final(self)@.graph.nodes.len(),
        decreases module,
    {
        match module {
            ImportedModule::Unreadable { err } => {
                let m = crate::messages::import_unreadable(filename.as_str(), err.as_str());
                self.push_diagnostic(Diagnostic::spanned(filename_span, Level::Error, m));
                Ends { inn: None, out: None }
            },
            ImportedModule::Unparsable { err } => {
                self.push_diagnostic(Diagnostic::spanned(span, Level::Error, err));
                Ends { inn: None, out: None }
            },
            ImportedModule::Parsed { code, file_path } => {
                let ghost m_state = spec_process_statements(spec_module_start(file_path@), code.statements@);
                let mut module_builder = FlatGraphBuilder::from_hfmodule(code, file_path);
                let mut inner = module_builder.take_module_diagnostics();
                let (flat_graph, _uses, mut diagnostics) = module_builder.build();
                let ghost n0 = self@.graph.nodes.len();
                let ghost before = self@;
                self.module_diagnostics.append(&mut inner);
                self.module_diagnostics.append(&mut diagnostics);
                assert(self@ == (BuilderView { module_diagnostics: self@.module_diagnostics, ..before }));
                let ends = self.merge_in(flat_graph, span);
                proof {
                    assert(diag_views(self.module_diagnostics@) =~= before.module_diagnostics
                        + m_state.module_diagnostics + spec_build(
                        BuilderView { module_diagnostics: Seq::empty(), ..m_state },
                    ).diagnostics);
                    lemma_merged_ends_wf(flat_graph@, n0 as nat);
                }
                ends
            },
        }
    }

    /// Helper: adds a pipeline, i.e. `a -> b -> c`; returns its input and output ends.
    fn add_pipeline(&mut self, pipeline: Pipeline, current_varname: Option<&Ident>) -> (r: Ends)
        requires
            old(self)@.wf(),
        ensures
            final(self)@.wf(),
            (final(self)@, r) == spec_add_pipeline(old(self)@, pipeline, opt_ident(current_varname)),
            ends_wf(r, final(self)@.graph.nodes.len()),
            old(self)@.graph.nodes.len() <= final(self)@.graph.nodes.len(),
        decreases pipeline,
    {
        match pipeline {
            Pipeline::Paren { inn, pipeline, out, span } => {
                let (inn_port, inner, out_port) = PortIndexValue::from_ported(inn, pipeline, out, span);
                let og_ends = self.add_pipeline(*inner, current_varname);
                let ghost mid = self@;
                let r = Self::helper_combine_ends(&mut self.diagnostics, og_ends, inn_port, out_port);
                proof {
                    Self::lemma_combine_end_wf(og_ends.inn, inn_port, mid.graph.nodes.len());
                    Self::lemma_combine_end_wf(og_ends.out, out_port, mid.graph.nodes.len());
                    assert(self@.diagnostics =~= mid.diagnostics + combine_end_diags(og_ends.inn, inn_port, "input"@)
                        + combine_end_diags(og_ends.out, out_port, "output"@));
                    assert(self@ == (BuilderView { diagnostics: self@.diagnostics, ..mid }));
                }
                r
            },
            Pipeline::Name { inn, ident, out } => {
                let span = ident.span;
                let (inn_port, ident, out_port) = PortIndexValue::from_ported(inn, ident, out, span);
                Ends {
                    inn: Some((inn_port, GraphDet::Undetermined(ident.duplicate()))),
                    out: Some((out_port, GraphDet::Undetermined(ident))),
                }
            },
            Pipeline::ModuleBoundary { inn, out, span } => {
                match self.module_boundary_nodes {
                    None => {
                        push_diag(
                            &mut self.diagnostics,
                            Diagnostic::spanned(span, Level::Error, mod_outside_module()),
                        );
                        Ends { inn: None, out: None }
                    },
                    Some((input_node, output_node)) => {
                        let (inn_port, _, out_port) = PortIndexValue::from_ported(inn, (), out, span);
                        Ends {
                            inn: Some((inn_port, GraphDet::Determined(output_node))),
                            out: Some((out_port, GraphDet::Determined(input_node))),
                        }
                    },
                }
            },
            Pipeline::Link { lhs, rhs } => {
                let lhs_ends = self.add_pipeline(*lhs, current_varname);
                let ghost n1 = self@.graph.nodes.len();
                let rhs_ends = self.add_pipeline(*rhs, current_varname);
                let ghost n2 = self@.graph.nodes.len();
                assert(end_wf(lhs_ends.out, n2)) by {
                    assert(end_wf(lhs_ends.out, n1));
                }
                assert(end_wf(lhs_ends.inn, n2)) by {
                    assert(end_wf(lhs_ends.inn, n1));
                }
                let Ends { inn: lhs_inn, out: lhs_out } = lhs_ends;
                let Ends { inn: rhs_inn, out: rhs_out } = rhs_ends;
                let outer_ends = Ends { inn: lhs_inn, out: rhs_out };
                let link_ends = Ends { out: lhs_out, inn: rhs_inn };
                let ghost mid = self@;
                self.links.push(link_ends);
                proof {
                    let n = self@.graph.nodes.len();
                    assert(ends_wf(link_ends, n));
                    assert forall|i: int| #![trigger self@.links[i]] 0 <= i < self@.links.len() implies ends_wf(
                        self@.links[i],
                        n,
                    ) by {
                        if i < mid.links.len() {
                            assert(self@.links[i] == mid.links[i]);
                        }
                    }
                }
                outer_ends
            },
            Pipeline::Operator(operator) => {
                let op_span = Some(operator.span);
                let varname = match current_varname {
                    Some(v) => Some(v.duplicate()),
                    None => None,
                };
                let nid = self.flat_graph.insert_node(GraphNode::Operator(operator), varname);
                Ends {
                    inn: Some((PortIndexValue::Elided(op_span), GraphDet::Determined(nid))),
                    out: Some((PortIndexValue::Elided(op_span), GraphDet::Determined(nid))),
                }
            },
            Pipeline::Import { filename, filename_span, span, module } => {
                self.add_import(filename, filename_span, span, *module)
            },
        }
    }
}

impl FlatGraphBuilder {
    /// The position of the entry named like `name`, if there is one.
    fn find_varname(&self, name: &Ident) -> (r: Option<usize>)
        ensures
            match r {
                Some(k) => find_name(self@.varname_ends, name.name@) == Some(k as int) && k
                    < self@.varname_ends.len(),
                None => find_name(self@.varname_ends, name.name@) is None,
            },
    {
        let ghost v = self.varname_ends@;
        let mut k: usize = 0;
        while k < self.varname_ends.len()
            invariant
                v == self.varname_ends@,
                k <= v.len(),
                find_name(v.take(k as int), name.name@) is None,
            decreases v.len() - k,
        {
            assert(v.take(k + 1).drop_last() =~= v.take(k as int));
            if self.varname_ends[k].0.same_name(name) {
                proof {
                    lemma_find_name_prefix(v, name.name@, k as int + 1);
                }
                return Some(k);
            }
            k = k + 1;
        }
        assert(v.take(k as int) =~= v);
        None
    }

    /// Add a single statement to the graph.
    #[verifier::rlimit(60)]
    pub fn add_statement(&mut self, stmt: HfStatement)
        requires
            old(self)@.wf(),
        ensures
            final(self)@.wf(),
            final(self)@ == spec_add_statement(old(self)@, stmt),
        decreases stmt,
    {
        match stmt {
            HfStatement::Use(yuse) => {
                self.uses.push(yuse);
            },
            HfStatement::Named(named) => {
                let NamedHfStatement { name, pipeline, span } = named;
                let stmt_span = span;
                let ends = self.add_pipeline(pipeline, Some(&name));
                match self.find_varname(&name) {
                    None => {
                        self.varname_ends.push((name, Ok(ends)));
                    },
                    Some(k) => {
                        let ghost mid = self@;
                        let prev_span = self.varname_ends[k].0.span;
                        let m1 = name_conflict_first(self.varname_ends[k].0.name.as_str(), prev_span);
                        let m2 = name_conflict_second(self.varname_ends[k].0.name.as_str(), stmt_span);
                        push_diag(&mut self.diagnostics, Diagnostic::spanned(stmt_span, Level::Error, m1));
                        push_diag(&mut self.diagnostics, Diagnostic::spanned(prev_span, Level::Error, m2));
                        assert(self@.diagnostics =~= mid.diagnostics + seq![
                            diag(stmt_span, Level::Error, m1@),
                            diag(prev_span, Level::Error, m2@),
                        ]);
                    },
                }
            },
            HfStatement::Pipeline(pipeline_stmt) => {
                self.add_pipeline(pipeline_stmt.pipeline, None);
            },
        }
    }

    /// Adds statements in order.
    fn process_statements(&mut self, statements: Vec<HfStatement>)
        requires
            old(self)@.wf(),
        ensures
            final(self)@.wf(),
            final(self)@ == spec_process_statements(old(self)@, statements@),
        decreases statements,
    {
        let ghost start = self@;
        let ghost stmts = statements@;
        let ns = statements.len();
        let mut rest = statements;
        let mut k: usize = 0;
        while rest.len() > 0
            invariant
                stmts == statements@,
                ns == stmts.len(),
                k + rest@.len() == stmts.len(),
                rest@ == stmts.skip(k as int),
                self@.wf(),
                self@ == spec_process_statements(start, stmts.take(k as int)),
            decreases rest.len(),
        {
            assert(stmts.take(k + 1).drop_last() =~= stmts.take(k as int));
            let ghost before = rest@;
            let stmt = rest.remove(0);
            assert(stmt == stmts[k as int]);
            assert(rest@ =~= stmts.skip(k + 1));
            assert(decreases_to!(statements => statements@));
            assert(decreases_to!(statements => statements@[k as int]));
            self.add_statement(stmt);
            k = k + 1;
        }
        assert(stmts.take(stmts.len() as int) =~= stmts);
    }

    /// Create a new empty graph builder.
    pub fn new() -> (b: FlatGraphBuilder)
        ensures
            b@ == spec_new_builder(Seq::empty()),
            b@.wf(),
    {
        let b = FlatGraphBuilder {
            diagnostics: Vec::new(),
            flat_graph: HydroflowGraph::new(),
            varname_ends: Vec::new(),
            links: Vec::new(),
            uses: Vec::new(),
            invocating_file_path: String::new(),
            module_boundary_nodes: None,
            module_diagnostics: Vec::new(),
        };
        proof {
            Self::lemma_fresh_view(&b);
        }
        b
    }

    proof fn lemma_fresh_view(b: &FlatGraphBuilder)
        requires
            b.diagnostics@.len() == 0,
            b.flat_graph@.nodes.len() == 0,
            b.flat_graph@.edges.len() == 0,
            b.varname_ends@.len() == 0,
            b.links@.len() == 0,
            b.uses@.len() == 0,
            b.module_boundary_nodes is None,
            b.module_diagnostics@.len() == 0,
        ensures
            b@ == spec_new_builder(b.invocating_file_path@),
    {
        assert(b@.module_diagnostics =~= Seq::empty());
        assert(b@.diagnostics =~= Seq::empty());
        assert(b@.graph.nodes =~= Seq::empty());
        assert(b@.graph.edges =~= Seq::empty());
        assert(b@.varname_ends =~= Seq::empty());
        assert(b@.links =~= Seq::empty());
        assert(b@.uses =~= Seq::empty());
    }

    /// Convert the code of the file at `macro_invocation_path` into a graph builder.
    pub fn from_hfcode(input: HfCode, macro_invocation_path: String) -> (b: FlatGraphBuilder)
        ensures
            b@ == spec_process_statements(spec_new_builder(macro_invocation_path@), input.statements@),
            b@.wf(),
    {
        let mut builder = FlatGraphBuilder {
            diagnostics: Vec::new(),
            flat_graph: HydroflowGraph::new(),
            varname_ends: Vec::new(),
            links: Vec::new(),
            uses: Vec::new(),
            invocating_file_path: macro_invocation_path,
            module_boundary_nodes: None,
            module_diagnostics: Vec::new(),
        };
        proof {
            Self::lemma_fresh_view(&builder);
        }
        builder.process_statements(input.statements);
        builder
    }

    /// Convert the code of a module in the file at `root_path` into a graph
    /// builder: its `mod` boundary is an input node and an output node.
    pub fn from_hfmodule(input: HfCode, root_path: String) -> (b: FlatGraphBuilder)
        ensures
            b@ == spec_process_statements(spec_module_start(root_path@), input.statements@),
            b@.wf(),
        decreases input,
    {
        let mut builder = FlatGraphBuilder {
            diagnostics: Vec::new(),
            flat_graph: HydroflowGraph::new(),
            varname_ends: Vec::new(),
            links: Vec::new(),
            uses: Vec::new(),
            invocating_file_path: root_path,
            module_boundary_nodes: None,
            module_diagnostics: Vec::new(),
        };
        proof {
            Self::lemma_fresh_view(&builder);
        }
        let ghost fresh = builder@;
        let input_node = builder.flat_graph.insert_node(
            GraphNode::ModuleBoundary { input: true, import_expr: Span::call_site() },
            Some(Ident::new("input", Span::call_site())),
        );
        let output_node = builder.flat_graph.insert_node(
            GraphNode::ModuleBoundary { input: false, import_expr: Span::call_site() },
            Some(Ident::new("output", Span::call_site())),
        );
        builder.module_boundary_nodes = Some((input_node, output_node));
        proof {
            assert(builder@.graph.nodes =~= spec_module_start(root_path@).graph.nodes);
            assert(builder@.graph.edges =~= Seq::empty());
            assert(builder@ == spec_module_start(root_path@));
        }
        builder.process_statements(input.statements);
        builder
    }
}

/// Finding a name in a prefix that ends with that name.
pub proof fn lemma_find_name_prefix(v: Seq<(Ident, Result<Ends, ()>)>, name: Seq<char>, k: int)
    requires
        0 < k <= v.len(),
        find_name(v.take(k - 1), name) is None,
        v[k - 1].0.name@ == name,
    ensures
        find_name(v, name) == Some(k - 1),
    decreases v.len() - k,
{
    assert(v.take(k).drop_last() =~= v.take(k - 1));
    if k == v.len() {
        assert(v.take(k) =~= v);
    } else {
        assert(v.take(k + 1).drop_last() =~= v.take(k));
        lemma_find_name_prefix_extend(v, name, k + 1);
    }
}

/// Once a prefix holds a name, every longer prefix finds it at the same place.
pub proof fn lemma_find_name_prefix_extend(v: Seq<(Ident, Result<Ends, ()>)>, name: Seq<char>, k: int)
    requires
        0 < k <= v.len(),
        find_name(v.take(k - 1), name) is Some,
    ensures
        find_name(v, name) == find_name(v.take(k - 1), name),
    decreases v.len() - k,
{
    assert(v.take(k).drop_last() =~= v.take(k - 1));
    if k == v.len() {
        assert(v.take(k) =~= v);
    } else {
        lemma_find_name_prefix_extend(v, name, k + 1);
    }
}

// ---------------------------------------------------------------------------
// Specification of connecting links.

/// Whether one of `names` is named `name`.
pub open spec fn names_contain(names: Seq<Ident>, name: Seq<char>) -> bool {
    exists|i: int| 0 <= i < names.len() && (#[trigger] names[i]).name@ == name
}

/// The names of a list of identifiers.
pub open spec fn ident_names(names: Seq<Ident>) -> Seq<Seq<char>> {
    names.map_values(|i: Ident| i.name@)
}

/// Marks the name of `ident` as part of a self-referential cycle.
pub open spec fn set_err(v: Seq<(Ident, Result<Ends, ()>)>, ident: Ident) -> Seq<(Ident, Result<Ends, ()>)> {
    match find_name(v, ident.name@) {
        Some(k) => v.update(k, (v[k].0, Err(()))),
        None => v.push((ident, Err(()))),
    }
}

/// Marks the first `k` of `names` as part of a cycle.
pub open spec fn mark_errs(v: Seq<(Ident, Result<Ends, ()>)>, names: Seq<Ident>, k: int) -> Seq<(Ident, Result<Ends, ()>)>
    decreases k,
{
    if k <= 0 {
        v
    } else {
        set_err(mark_errs(v, names, k - 1), names[k - 1])
    }
}

/// One diagnostic for each of the first `k` names of a cycle.
pub open spec fn cycle_diags(names: Seq<Ident>, k: int) -> Seq<DiagnosticView>
    decreases k,
{
    if k <= 0 {
        Seq::empty()
    } else {
        cycle_diags(names, k - 1).push(
            diag(
                names[k - 1].span,
                Level::Error,
                msg_name_cycle(names[k - 1].name@, k as nat, names.len()),
            ),
        )
    }
}

/// Reports the names of a cycle, and marks each of them so that later
/// references to them are reported too.
pub open spec fn spec_mark_cycle(s: BuilderView, names: Seq<Ident>) -> BuilderView {
    BuilderView {
        diagnostics: s.diagnostics + cycle_diags(names, names.len() as int),
        varname_ends: mark_errs(s.varname_ends, names, names.len() as int),
        ..s
    }
}

/// Resolves an end through the names it refers to, at most `fuel` names deep.
/// `names` are the names followed so far. An unassigned name, a name that
/// occurs twice on the way, or one already marked as part of a cycle ends the
/// search with `None` and diagnostics; so does running out of fuel.
pub open spec fn spec_resolve(
    s: BuilderView,
    port_det: Option<(PortIndexValue, GraphDet)>,
    names: Seq<Ident>,
    is_in: bool,
    fuel: nat,
) -> (BuilderView, Option<(PortIndexValue, usize)>)
    decreases fuel,
{
    if fuel == 0 {
        (
            with_diag(
                s,
                diag(Span::spec_call_site(), Level::Error, msg_recursion_limit(ident_names(names))),
            ),
            None,
        )
    } else {
        match port_det {
            None => (s, None),
            Some((port, GraphDet::Determined(id))) => (s, Some((port, id))),
            Some((port, GraphDet::Undetermined(ident))) => match find_name(s.varname_ends, ident.name@) {
                None => (
                    with_diag(s, diag(ident.span, Level::Error, msg_name_never_assigned(ident.name@))),
                    None,
                ),
                Some(k) => {
                    let cycle_found = names_contain(names, ident.name@);
                    let names2 = if cycle_found {
                        names
                    } else {
                        names.push(ident)
                    };
                    match s.varname_ends[k].1 {
                        Err(_) => (spec_mark_cycle(s, names2), None),
                        Ok(ends) => if cycle_found {
                            (spec_mark_cycle(s, names2), None)
                        } else {
                            let prev = if is_in {
                                ends.inn
                            } else {
                                ends.out
                            };
                            let (s1, pd) = spec_combine_end(s, prev, port, io_text(is_in));
                            spec_resolve(s1, pd, names2, is_in, (fuel - 1) as nat)
                        },
                    }
                },
            },
        }
    }
}

/// The recursion limit of name resolution.
pub open spec fn resolve_limit() -> nat {
    1024
}

/// Conflicts of a new output port with the first `k` edges: each edge that
/// leaves `src` from the same port is reported twice.
pub open spec fn out_conflicts(edges: Seq<Edge>, src: usize, port: PortIndexValue, k: int) -> Seq<DiagnosticView>
    decreases k,
{
    if k <= 0 {
        Seq::empty()
    } else {
        let prev = out_conflicts(edges, src, port, k - 1);
        let e = edges[k - 1];
        if e.src == src && same_port(e.src_port, port) {
            prev + seq![
                diag(port_span(e.src_port), Level::Error, msg_conflict_below("Output"@, port_span(port))),
                diag(port_span(port), Level::Error, msg_conflict_above("Output"@, port_span(e.src_port))),
            ]
        } else {
            prev
        }
    }
}

/// Conflicts of a new input port with the first `k` edges: each edge that
/// enters `dst` at the same port is reported twice.
pub open spec fn in_conflicts(edges: Seq<Edge>, dst: usize, port: PortIndexValue, k: int) -> Seq<DiagnosticView>
    decreases k,
{
    if k <= 0 {
        Seq::empty()
    } else {
        let prev = in_conflicts(edges, dst, port, k - 1);
        let e = edges[k - 1];
        if e.dst == dst && same_port(e.dst_port, port) {
            prev + seq![
                diag(port_span(e.dst_port), Level::Error, msg_conflict_below("Input"@, port_span(port))),
                diag(port_span(port), Level::Error, msg_conflict_above("Input"@, port_span(e.dst_port))),
            ]
        } else {
            prev
        }
    }
}

/// Connects output port `src_port` of `src` to input port `dst_port` of
/// `dst`; a written port that is already in use is reported.
pub open spec fn spec_connect_operators(
    s: BuilderView,
    src_port: PortIndexValue,
    src: usize,
    dst_port: PortIndexValue,
    dst: usize,
) -> BuilderView {
    let edges = s.graph.edges;
    let d1 = if src_port.is_specified() {
        out_conflicts(edges, src, src_port, edges.len() as int)
    } else {
        Seq::empty()
    };
    let d2 = if dst_port.is_specified() {
        in_conflicts(edges, dst, dst_port, edges.len() as int)
    } else {
        Seq::empty()
    };
    BuilderView {
        diagnostics: s.diagnostics + d1 + d2,
        graph: GraphView {
            edges: edges.push(Edge { src, src_port, dst, dst_port, edge_type: None }),
            ..s.graph
        },
        ..s
    }
}

/// Connects one link: both ends are resolved, output first; when both
/// resolve, the nodes are connected.
pub open spec fn spec_connect_link(s: BuilderView, link: Ends) -> BuilderView {
    let (s1, out_opt) = spec_resolve(s, link.out, Seq::empty(), false, resolve_limit());
    let (s2, inn_opt) = spec_resolve(s1, link.inn, Seq::empty(), true, resolve_limit());
    match (out_opt, inn_opt) {
        (Some((out_port, out_node)), Some((inn_port, inn_node))) => spec_connect_operators(
            s2,
            out_port,
            out_node,
            inn_port,
            inn_node,
        ),
        _ => s2,
    }
}

/// Connects links in order.
pub open spec fn spec_connect_links(s: BuilderView, links: Seq<Ends>) -> BuilderView
    decreases links.len(),
{
    if links.len() == 0 {
        s
    } else {
        spec_connect_link(spec_connect_links(s, links.drop_last()), links.last())
    }
}

/// Connects every stored link; the list of links is emptied.
pub open spec fn spec_connect_operator_links(s: BuilderView) -> BuilderView {
    spec_connect_links(BuilderView { links: Seq::empty(), ..s }, s.links)
}

impl FlatGraphBuilder {
    /// Marks the name of `ident` as part of a self-referential cycle.
    fn set_varname_err(&mut self, ident: &Ident)
        requires
            old(self)@.wf(),
        ensures
            final(self)@.wf(),
            final(self)@ == (BuilderView {
                varname_ends: set_err(old(self)@.varname_ends, *ident),
                ..old(self)@
            }),
    {
        match self.find_varname(ident) {
            Some(k) => {
                let ghost v = self.varname_ends@;
                let (name, _) = self.varname_ends.remove(k);
                self.varname_ends.insert(k, (name, Err(())));
                assert(self.varname_ends@ =~= v.update(k as int, (v[k as int].0, Err(()))));
            },
            None => {
                self.varname_ends.push((ident.duplicate(), Err(())));
            },
        }
    }

    /// Reports each name of a self-referential cycle and marks it.
    fn mark_cycle(&mut self, names: &Vec<Ident>)
        requires
            old(self)@.wf(),
        ensures
            final(self)@.wf(),
            final(self)@ == spec_mark_cycle(old(self)@, names@),
    {
        let ghost s0 = self@;
        let len = names.len();
        let mut i: usize = 0;
        while i < len
            invariant
                len == names@.len(),
                i <= len,
                self@.wf(),
                self@ == (BuilderView {
                    diagnostics: s0.diagnostics + cycle_diags(names@, i as int),
                    varname_ends: mark_errs(s0.varname_ends, names@, i as int),
                    ..s0
                }),
            decreases len - i,
        {
            let m = name_cycle(names[i].name.as_str(), i + 1, len);
            self.push_diagnostic(Diagnostic::spanned(names[i].span, Level::Error, m));
            self.set_varname_err(&names[i]);
            i = i + 1;
            assert(self@.diagnostics =~= s0.diagnostics + cycle_diags(names@, i as int));
        }
    }

    /// Recursively resolve a variable name. For handling forward (and backward)
    /// name references after all names have been assigned. Returns `None` if the
    /// name is not resolvable, either because it was never assigned or because
    /// it contains a self-referential cycle.
    fn helper_resolve_name(&mut self, port_det: Option<(PortIndexValue, GraphDet)>, is_in: bool) -> (r:
        Option<(PortIndexValue, usize)>)
        requires
            old(self)@.wf(),
            end_wf(port_det, old(self)@.graph.nodes.len()),
        ensures
            final(self)@.wf(),
            (final(self)@, r) == spec_resolve(old(self)@, port_det, Seq::empty(), is_in, resolve_limit()),
            final(self)@.graph == old(self)@.graph,
            r matches Some((_, id)) ==> id < final(self)@.graph.nodes.len(),
    {
        let ghost s0 = self@;
        let mut cur = port_det;
        let mut names: Vec<Ident> = Vec::new();
        let mut iter: usize = 0;
        while iter < 1024
            invariant
                iter <= 1024,
                self@.wf(),
                s0 == old(self)@,
                self@.graph == s0.graph,
                end_wf(cur, s0.graph.nodes.len()),
                spec_resolve(s0, port_det, Seq::empty(), is_in, resolve_limit()) == spec_resolve(
                    self@,
                    cur,
                    names@,
                    is_in,
                    (1024 - iter) as nat,
                ),
            decreases 1024 - iter,
        {
            match cur {
                None => {
                    return None;
                },
                Some((port, GraphDet::Determined(node_id))) => {
                    return Some((port, node_id));
                },
                Some((port, GraphDet::Undetermined(ident))) => {
                    match self.find_varname(&ident) {
                        None => {
                            let m = name_never_assigned(ident.name.as_str());
                            self.push_diagnostic(Diagnostic::spanned(ident.span, Level::Error, m));
                            return None;
                        },
                        Some(k) => {
                            let cycle_found = Self::names_contains(&names, &ident);
                            if !cycle_found {
                                names.push(ident);
                            }
                            let is_err = self.varname_ends[k].1.is_err();
                            if cycle_found || is_err {
                                self.mark_cycle(&names);
                                return None;
                            }
                            let prev = match &self.varname_ends[k].1 {
                                Ok(name_ends) => if is_in {
                                    duplicate_end(&name_ends.inn)
                                } else {
                                    duplicate_end(&name_ends.out)
                                },
                                Err(_) => None,
                            };
                            let io = if is_in {
                                "input"
                            } else {
                                "output"
                            };
                            assert(io@ == io_text(is_in));
                            let ghost mid = self@;
                            cur = Self::helper_combine_end(&mut self.diagnostics, prev, port, io);
                            proof {
                                Self::lemma_combine_end_wf(prev, port, s0.graph.nodes.len());
                                assert(self@.diagnostics =~= mid.diagnostics + combine_end_diags(prev, port, io@));
                            }
                        },
                    }
                },
            }
            iter = iter + 1;
        }
        let mut name_strings: Vec<String> = Vec::new();
        let mut i: usize = 0;
        while i < names.len()
            invariant
                i <= names@.len(),
                name_strings@.len() == i,
                crate::text::views(name_strings@) == ident_names(names@.take(i as int)),
            decreases names@.len() - i,
        {
            let nm = names[i].name.to_owned_string();
            assert(nm@ == names@[i as int].name@);
            let ghost prev = name_strings@;
            name_strings.push(nm);
            i = i + 1;
            assert forall|j: int| 0 <= j < i implies crate::text::views(name_strings@)[j] == ident_names(
                names@.take(i as int),
            )[j] by {
                if j < i - 1 {
                    assert(crate::text::views(prev)[j] == ident_names(names@.take(i - 1))[j]);
                }
            }
            assert(crate::text::views(name_strings@) =~= ident_names(names@.take(i as int)));
        }
        assert(names@.take(names@.len() as int) =~= names@);
        let m = recursion_limit(&name_strings);
        self.push_diagnostic(Diagnostic::spanned(Span::call_site(), Level::Error, m));
        None
    }

    /// Whether one of `names` has the name of `ident`.
    fn names_contains(names: &Vec<Ident>, ident: &Ident) -> (b: bool)
        ensures
            b == names_contain(names@, ident.name@),
    {
        let mut i: usize = 0;
        while i < names.len()
            invariant
                i <= names@.len(),
                forall|j: int| 0 <= j < i ==> (#[trigger] names@[j]).name@ != ident.name@,
            decreases names@.len() - i,
        {
            if names[i].same_name(ident) {
                return true;
            }
            i = i + 1;
        }
        false
    }

    /// Reports that a port is used twice: at the old use and at the new one.
    fn emit_conflict(
        inout: &str,
        old_port: &PortIndexValue,
        new_port: &PortIndexValue,
        diagnostics: &mut Vec<Diagnostic>,
    )
        ensures
            diag_views(final(diagnostics)@) == diag_views(old(diagnostics)@) + seq![
                diag(port_span(*old_port), Level::Error, msg_conflict_below(inout@, port_span(*new_port))),
                diag(port_span(*new_port), Level::Error, msg_conflict_above(inout@, port_span(*old_port))),
            ],
    {
        let old_span = old_port.span();
        let new_span = new_port.span();
        push_diag(diagnostics, Diagnostic::spanned(old_span, Level::Error, conflict_below(inout, new_span)));
        push_diag(diagnostics, Diagnostic::spanned(new_span, Level::Error, conflict_above(inout, old_span)));
        assert(diag_views(diagnostics@) =~= diag_views(old(diagnostics)@) + seq![
            diag(port_span(*old_port), Level::Error, msg_conflict_below(inout@, port_span(*new_port))),
            diag(port_span(*new_port), Level::Error, msg_conflict_above(inout@, port_span(*old_port))),
        ]);
    }

    /// Connect two operators on the given port indexes.
    fn connect_operators(
        &mut self,
        src_port: PortIndexValue,
        src: usize,
        dst_port: PortIndexValue,
        dst: usize,
    )
        requires
            old(self)@.wf(),
            src < old(self)@.graph.nodes.len(),
            dst < old(self)@.graph.nodes.len(),
        ensures
            final(self)@.wf(),
            final(self)@ == spec_connect_operators(old(self)@, src_port, src, dst_port, dst),
    {
        let ghost s0 = self@;
        let ghost edges = s0.graph.edges;
        let n_edges = self.flat_graph.edge_count();
        if src_port.specified() {
            let mut k: usize = 0;
            while k < n_edges
                invariant
                    n_edges == edges.len(),
                    edges == s0.graph.edges,
                    k <= n_edges,
                    self@.graph == s0.graph,
                    self@ == with_diags(s0, out_conflicts(edges, src, src_port, k as int)),
                decreases n_edges - k,
            {
                let (e_src, _) = self.flat_graph.edge(k);
                let (conflicting_port, _) = self.flat_graph.edge_ports(k);
                if e_src == src && conflicting_port.is_same_port(&src_port) {
                    Self::emit_conflict("Output", conflicting_port, &src_port, &mut self.diagnostics);
                }
                k = k + 1;
                assert(self@.diagnostics =~= s0.diagnostics + out_conflicts(edges, src, src_port, k as int));
            }
        } else {
            assert(self@.diagnostics =~= s0.diagnostics + Seq::empty());
        }
        let ghost s1 = self@;
        if dst_port.specified() {
            let mut k: usize = 0;
            while k < n_edges
                invariant
                    n_edges == edges.len(),
                    edges == s0.graph.edges,
                    s1.graph == s0.graph,
                    k <= n_edges,
                    self@.graph == s0.graph,
                    self@ == with_diags(s1, in_conflicts(edges, dst, dst_port, k as int)),
                decreases n_edges - k,
            {
                let (_, e_dst) = self.flat_graph.edge(k);
                let (_, conflicting_port) = self.flat_graph.edge_ports(k);
                if e_dst == dst && conflicting_port.is_same_port(&dst_port) {
                    Self::emit_conflict("Input", conflicting_port, &dst_port, &mut self.diagnostics);
                }
                k = k + 1;
                assert(self@.diagnostics =~= s1.diagnostics + in_conflicts(edges, dst, dst_port, k as int));
            }
        } else {
            assert(self@.diagnostics =~= s1.diagnostics + Seq::empty());
        }
        self.flat_graph.insert_edge(src, src_port, dst, dst_port);
        assert(self@.graph.edges =~= edges.push(Edge { src, src_port, dst, dst_port, edge_type: None }));
    }

    /// Connects operator links as a final building step: processes all the
    /// stored links and puts them into the graph.
    fn connect_operator_links(&mut self)
        requires
            old(self)@.wf(),
        ensures
            final(self)@.wf(),
            final(self)@ == spec_connect_operator_links(old(self)@),
            final(self)@.graph.nodes == old(self)@.graph.nodes,
    {
        let ghost s0 = self@;
        let mut links: Vec<Ends> = Vec::new();
        std::mem::swap(&mut links, &mut self.links);
        let ghost all = links@;
        assert(self@ == BuilderView { links: Seq::empty(), ..s0 }) by {
            assert(self@.links =~= Seq::<Ends>::empty());
        }
        for link in it: links
            invariant
                it.seq() == all,
                all == s0.links,
                self@.wf(),
                self@.graph.nodes == s0.graph.nodes,
                forall|i: int| #![trigger all[i]] 0 <= i < all.len() ==> ends_wf(all[i], s0.graph.nodes.len()),
                self@ == spec_connect_links(BuilderView { links: Seq::empty(), ..s0 }, all.take(it.index() as int)),
        {
            assert(all.take(it.index() + 1).drop_last() =~= all.take(it.index() as int));
            assert(all.take(it.index() + 1).last() == link);
            let Ends { out, inn } = link;
            let out_opt = self.helper_resolve_name(out, false);
            let inn_opt = self.helper_resolve_name(inn, true);
            match (out_opt, inn_opt) {
                (Some((out_port, out_node)), Some((inn_port, inn_node))) => {
                    self.connect_operators(out_port, out_node, inn_port, inn_node);
                },
                _ => {},
            }
        }
        assert(all.take(all.len() as int) =~= all);
    }
}

// ---------------------------------------------------------------------------
// Specification of operator checks.

/// Makes the instance of node `k`, if it is an operator without one: unknown
/// operators are reported.
pub open spec fn op_inst_step(s: BuilderView, k: int) -> BuilderView {
    let e = s.graph.nodes[k];
    match e.node {
        GraphNode::Operator(op) => if e.op_inst is None {
            match op_constraints_named(op.name@) {
                None => with_diag(s, diag(op.span, Level::Error, msg_unknown_operator(op.name@))),
                Some(c) => BuilderView {
                    graph: GraphView {
                        nodes: s.graph.nodes.update(
                            k,
                            NodeEntry { op_inst: Some(OperatorInstance { op_constraints: c }), ..e },
                        ),
                        ..s.graph
                    },
                    ..s
                },
            }
        } else {
            s
        },
        GraphNode::ModuleBoundary { .. } => s,
    }
}

pub open spec fn make_op_insts(s: BuilderView, k: int) -> BuilderView
    decreases k,
{
    if k <= 0 {
        s
    } else {
        op_inst_step(make_op_insts(s, k - 1), k - 1)
    }
}

/// Makes an operator instance for each operator node, in order.
pub open spec fn spec_make_operator_instances(s: BuilderView) -> BuilderView {
    make_op_insts(s, s.graph.nodes.len() as int)
}

/// Gives edge `k` the output edge type of its source, if that is a known operator.
pub open spec fn edge_type_step(s: BuilderView, k: int) -> BuilderView {
    let e = s.graph.edges[k];
    let src = s.graph.nodes[e.src as int];
    match src.node {
        GraphNode::Operator(_) => match src.op_inst {
            None => s,
            Some(inst) => BuilderView {
                graph: GraphView {
                    edges: s.graph.edges.update(
                        k,
                        Edge { edge_type: Some(inst.op_constraints.output_edgetype), ..e },
                    ),
                    ..s.graph
                },
                ..s
            },
        },
        GraphNode::ModuleBoundary { .. } => s,
    }
}

pub open spec fn edge_types_upto(s: BuilderView, k: int) -> BuilderView
    decreases k,
{
    if k <= 0 {
        s
    } else {
        edge_type_step(edge_types_upto(s, k - 1), k - 1)
    }
}

/// Gives every edge whose source is a known operator that operator's output type.
pub open spec fn spec_insert_operator_edge_types(s: BuilderView) -> BuilderView {
    edge_types_upto(s, s.graph.edges.len() as int)
}

pub open spec fn must_should(is_hard: bool) -> Seq<char> {
    if is_hard {
        "must"@
    } else {
        "should"@
    }
}

pub open spec fn inputs_outputs(is_in: bool) -> Seq<char> {
    if is_in {
        "input(s)"@
    } else {
        "output(s)"@
    }
}

/// The message for a number of inputs or outputs out of range.
pub open spec fn msg_arity(name: Seq<char>, is_in: bool, is_hard: bool, degree: nat, range: ArityRange) -> Seq<char> {
    "`"@ + name + "` "@ + must_should(is_hard) + " have "@ + range_text(range) + " "@ + inputs_outputs(
        is_in,
    ) + ", actually has "@ + decimal(degree) + "."@
}

/// The arity diagnostic of an operator: a degree outside the hard range is an
/// error; otherwise one outside the soft range is a warning.
pub open spec fn arity_diags(op: Operator, is_in: bool, degree: nat, hard: ArityRange, soft: ArityRange) -> Seq<
    DiagnosticView,
> {
    if !hard.spec_contains(degree as int) {
        seq![diag(op.span, Level::Error, msg_arity(op.name@, is_in, true, degree, hard))]
    } else if !soft.spec_contains(degree as int) {
        seq![diag(op.span, Level::Warning, msg_arity(op.name@, is_in, false, degree, soft))]
    } else {
        Seq::empty()
    }
}

pub open spec fn edge_type_text(t: GraphEdgeType) -> Seq<char> {
    match t {
        GraphEdgeType::Value => "Value"@,
        GraphEdgeType::Reference => "Reference"@,
    }
}

/// The edge type diagnostics of node `k` for the first `m` edges: each edge
/// into `k` from a known operator must carry the type the operator takes.
pub open spec fn edge_type_diags(g: GraphView, k: int, c: OperatorConstraints, m: int) -> Seq<DiagnosticView>
    decreases m,
{
    if m <= 0 {
        Seq::empty()
    } else {
        let prev = edge_type_diags(g, k, c, m - 1);
        let e = g.edges[m - 1];
        if e.dst != k {
            prev
        } else if g.nodes[e.src as int].node is ModuleBoundary {
            prev
        } else if g.nodes[e.src as int].op_inst is None {
            prev
        } else {
            match c.input_edgetype {
                None => prev,
                Some(expected) => match e.edge_type {
                    None => prev.push(diag(port_span(e.src_port), Level::Error, msg_no_edge_type())),
                    Some(actual) => if expected != actual {
                        prev.push(
                            diag(
                                port_span(e.src_port),
                                Level::Error,
                                msg_edge_type_mismatch(edge_type_text(expected), edge_type_text(actual)),
                            ),
                        )
                    } else {
                        prev
                    },
                },
            }
        }
    }
}

/// The ports at which the edges that enter node `k` arrive, in edge order.
pub open spec fn in_ports(g: GraphView, k: int) -> Seq<PortIndexValue> {
    g.pred_edges(k).map_values(|e: int| g.edges[e].dst_port)
}

/// The ports from which the edges that leave node `k` depart, in edge order.
pub open spec fn out_ports(g: GraphView, k: int) -> Seq<PortIndexValue> {
    g.succ_edges(k).map_values(|e: int| g.edges[e].src_port)
}

/// The diagnostics of node `k`: for a known operator, a wrong number of
/// arguments, inputs or outputs out of range, ports it does not declare or
/// declared ports left unused, and wrong input edge types.
pub open spec fn node_check_diags(g: GraphView, k: int) -> Seq<DiagnosticView> {
    match g.nodes[k].node {
        GraphNode::Operator(op) => match op_constraints_named(op.name@) {
            None => Seq::empty(),
            Some(c) => {
                let args = if c.num_args != op.args@.len() {
                    seq![
                        diag(
                            op.span,
                            Level::Error,
                            msg_wrong_arg_count(c.num_args as nat, op.args@.len()),
                        ),
                    ]
                } else {
                    Seq::empty()
                };
                args + arity_diags(op, true, g.pred_edges(k).len(), c.hard_range_inn, c.soft_range_inn)
                    + arity_diags(op, false, g.succ_edges(k).len(), c.hard_range_out, c.soft_range_out)
                    + port_diags(op.span, op_ports_named(op.name@).0, in_ports(g, k), "input"@)
                    + port_diags(op.span, op_ports_named(op.name@).1, out_ports(g, k), "output"@)
                    + edge_type_diags(g, k, c, g.edges.len() as int)
            },
        },
        GraphNode::ModuleBoundary { .. } => Seq::empty(),
    }
}

pub open spec fn check_diags(g: GraphView, k: int) -> Seq<DiagnosticView>
    decreases k,
{
    if k <= 0 {
        Seq::empty()
    } else {
        check_diags(g, k - 1) + node_check_diags(g, k - 1)
    }
}

/// Checks every operator, in node order.
pub open spec fn spec_check_operator_errors(s: BuilderView) -> BuilderView {
    with_diags(s, check_diags(s.graph, s.graph.nodes.len() as int))
}

/// Makes operator instances, gives edges their types, and checks operators.
pub open spec fn spec_process_operator_errors(s: BuilderView) -> BuilderView {
    spec_check_operator_errors(spec_insert_operator_edge_types(spec_make_operator_instances(s)))
}

/// Building: links are connected, then operators are checked.
pub open spec fn spec_build(s: BuilderView) -> BuilderView {
    spec_process_operator_errors(spec_connect_operator_links(s))
}

/// The message for a number of inputs or outputs out of range; see [`msg_arity`].
pub fn arity_message(name: &String, is_in: bool, is_hard: bool, degree: usize, range: &ArityRange) -> (m: String)
    ensures
        m@ == msg_arity(name@, is_in, is_hard, degree as nat, *range),
{
    let mut m = String::new();
    m.append("`");
    m.append(name.as_str());
    m.append("` ");
    if is_hard {
        m.append("must");
    } else {
        m.append("should");
    }
    m.append(" have ");
    range.push_human_string(&mut m);
    m.append(" ");
    if is_in {
        m.append("input(s)");
    } else {
        m.append("output(s)");
    }
    m.append(", actually has ");
    crate::text::push_decimal(&mut m, degree);
    m.append(".");
    assert(m@ =~= msg_arity(name@, is_in, is_hard, degree as nat, *range));
    m
}

/// The name of an edge type, as `Debug` shows it.
pub fn edge_type_name(t: GraphEdgeType) -> (s: &'static str)
    ensures
        s@ == edge_type_text(t),
{
    match t {
        GraphEdgeType::Value => "Value",
        GraphEdgeType::Reference => "Reference",
    }
}

impl FlatGraphBuilder {
    /// Make an operator instance for each operator node.
    fn make_operator_instances(&mut self)
        requires
            old(self)@.wf(),
        ensures
            final(self)@.wf(),
            final(self)@ == spec_make_operator_instances(old(self)@),
    {
        let ghost s0 = self@;
        let n = self.flat_graph.node_count();
        let mut k: usize = 0;
        while k < n
            invariant
                n == s0.graph.nodes.len(),
                k <= n,
                self@.wf(),
                self@.graph.nodes.len() == n,
                self@ == make_op_insts(s0, k as int),
            decreases n - k,
        {
            let has_inst = self.flat_graph.node_op_inst(k).is_some();
            let action: Option<Result<OperatorConstraints, (Span, String)>> = match self.flat_graph.node(k) {
                GraphNode::Operator(operator) => {
                    if has_inst {
                        None
                    } else {
                        match find_op_op_constraints(operator) {
                            Some(c) => Some(Ok(c)),
                            None => Some(Err((operator.span, unknown_operator(&operator.name)))),
                        }
                    }
                },
                GraphNode::ModuleBoundary { .. } => None,
            };
            let ghost before = self@;
            match action {
                None => {},
                Some(Ok(c)) => {
                    self.flat_graph.insert_node_op_inst(k, OperatorInstance { op_constraints: c });
                    proof {
                        let e = before.graph.nodes[k as int];
                        assert(self@.graph.nodes =~= before.graph.nodes.update(
                            k as int,
                            NodeEntry { op_inst: Some(OperatorInstance { op_constraints: c }), ..e },
                        ));
                    }
                },
                Some(Err((span, m))) => {
                    self.push_diagnostic(Diagnostic::spanned(span, Level::Error, m));
                },
            }
            k = k + 1;
        }
    }

    /// Find and insert operator edge types for edges.
    fn insert_operator_edge_types(&mut self)
        requires
            old(self)@.wf(),
        ensures
            final(self)@.wf(),
            final(self)@ == spec_insert_operator_edge_types(old(self)@),
    {
        let ghost s0 = self@;
        let n = self.flat_graph.edge_count();
        let mut k: usize = 0;
        while k < n
            invariant
                n == s0.graph.edges.len(),
                k <= n,
                self@.wf(),
                self@.graph.edges.len() == n,
                self@.graph.nodes == s0.graph.nodes,
                self@ == edge_types_upto(s0, k as int),
            decreases n - k,
        {
            let (src, _dst) = self.flat_graph.edge(k);
            let is_op = match self.flat_graph.node(src) {
                GraphNode::Operator(_) => true,
                GraphNode::ModuleBoundary { .. } => false,
            };
            if is_op {
                match self.flat_graph.node_op_inst(src) {
                    None => {},
                    Some(src_op_inst) => {
                        let ghost before = self@;
                        let _old_edge_type = self.flat_graph.insert_edge_type(
                            k,
                            src_op_inst.op_constraints.output_edgetype,
                        );
                        proof {
                            let e = before.graph.edges[k as int];
                            assert(self@.graph.edges =~= before.graph.edges.update(
                                k as int,
                                Edge { edge_type: Some(src_op_inst.op_constraints.output_edgetype), ..e },
                            ));
                        }
                    },
                }
            }
            k = k + 1;
        }
    }

    /// Reports an input or output count out of `range`; returns whether it was out of range.
    fn emit_arity_error(
        operator: &Operator,
        is_in: bool,
        is_hard: bool,
        degree: usize,
        range: &ArityRange,
        diagnostics: &mut Vec<Diagnostic>,
    ) -> (out_of_range: bool)
        ensures
            out_of_range == !range.spec_contains(degree as int),
            diag_views(final(diagnostics)@) == diag_views(old(diagnostics)@) + if out_of_range {
                seq![
                    diag(
                        operator.span,
                        if is_hard {
                            Level::Error
                        } else {
                            Level::Warning
                        },
                        msg_arity(operator.name@, is_in, is_hard, degree as nat, *range),
                    ),
                ]
            } else {
                Seq::empty()
            },
    {
        let out_of_range = !range.contains(degree);
        if out_of_range {
            let message = arity_message(&operator.name, is_in, is_hard, degree, range);
            let level = if is_hard {
                Level::Error
            } else {
                Level::Warning
            };
            push_diag(diagnostics, Diagnostic::spanned(operator.span, level, message));
        } else {
            assert(diag_views(diagnostics@) =~= diag_views(old(diagnostics)@) + Seq::empty());
        }
        out_of_range
    }

    /// Checks the inputs of node `k` against the edge type its operator takes.
    fn check_edge_types(
        g: &HydroflowGraph,
        k: usize,
        c: &OperatorConstraints,
        diagnostics: &mut Vec<Diagnostic>,
    )
        requires
            g@.wf(),
        ensures
            diag_views(final(diagnostics)@) == diag_views(old(diagnostics)@) + edge_type_diags(
                g@,
                k as int,
                *c,
                g@.edges.len() as int,
            ),
    {
        let n = g.edge_count();
        let mut m: usize = 0;
        while m < n
            invariant
                n == g@.edges.len(),
                m <= n,
                g@.wf(),
                diag_views(diagnostics@) == diag_views(old(diagnostics)@) + edge_type_diags(g@, k as int, *c, m as int),
            decreases n - m,
        {
            let ghost before = diag_views(diagnostics@);
            let (src, dst) = g.edge(m);
            if dst == k {
                let from_boundary = match g.node(src) {
                    GraphNode::ModuleBoundary { .. } => true,
                    GraphNode::Operator(_) => false,
                };
                if !from_boundary && g.node_op_inst(src).is_some() {
                    let (port_in, _) = g.edge_ports(m);
                    match c.input_edgetype {
                        None => {},
                        Some(edge_type_expected) => match g.edge_type(m) {
                            None => {
                                push_diag(
                                    diagnostics,
                                    Diagnostic::spanned(port_in.span(), Level::Error, no_edge_type()),
                                );
                            },
                            Some(edge_type_actual) => {
                                if edge_type_expected != edge_type_actual {
                                    let message = edge_type_mismatch(
                                        edge_type_name(edge_type_expected),
                                        edge_type_name(edge_type_actual),
                                    );
                                    push_diag(
                                        diagnostics,
                                        Diagnostic::spanned(port_in.span(), Level::Error, message),
                                    );
                                }
                            },
                        },
                    }
                }
            }
            m = m + 1;
            assert(diag_views(diagnostics@) =~= diag_views(old(diagnostics)@) + edge_type_diags(g@, k as int, *c, m as int));
        }
    }

    /// The destination (`dst`) or source ports of the edges `es`, in order.
    fn edge_ports_of<'a>(g: &'a HydroflowGraph, es: &Vec<usize>, dst: bool) -> (r: Vec<&'a PortIndexValue>)
        requires
            forall|j: int| 0 <= j < es@.len() ==> #[trigger] es@[j] < g@.edges.len(),
        ensures
            r@.map_values(|p: &PortIndexValue| *p) == es@.map_values(|e: usize| e as int).map_values(
                |e: int|
                    if dst {
                        g@.edges[e].dst_port
                    } else {
                        g@.edges[e].src_port
                    },
            ),
    {
        let mut r: Vec<&'a PortIndexValue> = Vec::new();
        let mut j: usize = 0;
        while j < es.len()
            invariant
                j <= es.len(),
                forall|i: int| 0 <= i < es@.len() ==> #[trigger] es@[i] < g@.edges.len(),
                r@.map_values(|p: &PortIndexValue| *p) == es@.take(j as int).map_values(|e: usize| e as int).map_values(
                    |e: int|
                        if dst {
                            g@.edges[e].dst_port
                        } else {
                            g@.edges[e].src_port
                        },
                ),
            decreases es.len() - j,
        {
            let (src_port, dst_port) = g.edge_ports(es[j]);
            let ghost before = r@;
            if dst {
                r.push(dst_port);
            } else {
                r.push(src_port);
            }
            assert(r@.map_values(|p: &PortIndexValue| *p) =~= before.map_values(|p: &PortIndexValue| *p).push(
                if dst {
                    g@.edges[es@[j as int] as int].dst_port
                } else {
                    g@.edges[es@[j as int] as int].src_port
                },
            ));
            assert(es@.take(j + 1) =~= es@.take(j as int).push(es@[j as int]));
            j = j + 1;
            assert(r@.map_values(|p: &PortIndexValue| *p) =~= es@.take(j as int).map_values(|e: usize| e as int).map_values(
                |e: int|
                    if dst {
                        g@.edges[e].dst_port
                    } else {
                        g@.edges[e].src_port
                    },
            ));
        }
        assert(es@.take(j as int) =~= es@);
        r
    }

    /// Checks the ports of the operator `operator` at node `k` against the
    /// ports it declares, inputs then outputs.
    fn check_ports(g: &HydroflowGraph, k: usize, operator: &Operator, diagnostics: &mut Vec<Diagnostic>)
        requires
            g@.wf(),
        ensures
            diag_views(final(diagnostics)@) == diag_views(old(diagnostics)@) + port_diags(
                operator.span,
                op_ports_named(operator.name@).0,
                in_ports(g@, k as int),
                "input"@,
            ) + port_diags(operator.span, op_ports_named(operator.name@).1, out_ports(g@, k as int), "output"@),
    {
        let ghost d0 = diag_views(diagnostics@);
        let (ports_inn, ports_out) = find_op_ports(operator);
        let pred = g.node_predecessor_edges(k);
        proof {
            crate::graph::lemma_pred_below_bounds(g@, k as int, g@.edges.len() as int);
            assert forall|j: int| 0 <= j < pred@.len() implies #[trigger] pred@[j] < g@.edges.len() by {
                assert(pred@.map_values(|e: usize| e as int)[j] == pred@[j] as int);
            }
        }
        let ins = Self::edge_ports_of(g, &pred, true);
        emit_port_error(operator.span, &ports_inn, &ins, "input", diagnostics);
        let succ = g.node_successor_edges(k);
        proof {
            crate::graph::lemma_succ_below_bounds(g@, k as int, g@.edges.len() as int);
            assert forall|j: int| 0 <= j < succ@.len() implies #[trigger] succ@[j] < g@.edges.len() by {
                assert(succ@.map_values(|e: usize| e as int)[j] == succ@[j] as int);
            }
        }
        let outs = Self::edge_ports_of(g, &succ, false);
        emit_port_error(operator.span, &ports_out, &outs, "output", diagnostics);
        proof {
            assert(ins@.map_values(|p: &PortIndexValue| *p) =~= in_ports(g@, k as int));
            assert(outs@.map_values(|p: &PortIndexValue| *p) =~= out_ports(g@, k as int));
        }
        assert(diag_views(diagnostics@) =~= d0 + port_diags(
            operator.span,
            op_ports_named(operator.name@).0,
            in_ports(g@, k as int),
            "input"@,
        ) + port_diags(operator.span, op_ports_named(operator.name@).1, out_ports(g@, k as int), "output"@));
    }

    /// Checks node `k`: arguments, input and output counts, ports, and input
    /// edge types.
    fn check_node(g: &HydroflowGraph, k: usize, diagnostics: &mut Vec<Diagnostic>)
        requires
            g@.wf(),
            k < g@.nodes.len(),
        ensures
            diag_views(final(diagnostics)@) == diag_views(old(diagnostics)@) + node_check_diags(g@, k as int),
    {
        let ghost d0 = diag_views(diagnostics@);
        match g.node(k) {
            GraphNode::Operator(operator) => {
                match find_op_op_constraints(operator) {
                    None => {
                        assert(diag_views(diagnostics@) =~= d0 + node_check_diags(g@, k as int));
                    },
                    Some(op_constraints) => {
                        if op_constraints.num_args != operator.args.len() {
                            let m = wrong_arg_count(op_constraints.num_args, operator.args.len());
                            push_diag(diagnostics, Diagnostic::spanned(operator.span, Level::Error, m));
                        }
                        let ghost d1 = diag_views(diagnostics@);
                        let inn_degree = g.node_degree_in(k);
                        let hard_in = Self::emit_arity_error(
                            operator,
                            true,
                            true,
                            inn_degree,
                            &op_constraints.hard_range_inn,
                            diagnostics,
                        );
                        if !hard_in {
                            Self::emit_arity_error(
                                operator,
                                true,
                                false,
                                inn_degree,
                                &op_constraints.soft_range_inn,
                                diagnostics,
                            );
                        }
                        let ghost d2 = diag_views(diagnostics@);
                        let out_degree = g.node_degree_out(k);
                        let hard_out = Self::emit_arity_error(
                            operator,
                            false,
                            true,
                            out_degree,
                            &op_constraints.hard_range_out,
                            diagnostics,
                        );
                        if !hard_out {
                            Self::emit_arity_error(
                                operator,
                                false,
                                false,
                                out_degree,
                                &op_constraints.soft_range_out,
                                diagnostics,
                            );
                        }
                        let ghost d3 = diag_views(diagnostics@);
                        Self::check_ports(g, k, operator, diagnostics);
                        let ghost d4 = diag_views(diagnostics@);
                        Self::check_edge_types(g, k, &op_constraints, diagnostics);
                        proof {
                            let op = *operator;
                            let c = op_constraints;
                            let args = if c.num_args != op.args@.len() {
                                seq![diag(op.span, Level::Error, msg_wrong_arg_count(c.num_args as nat, op.args@.len()))]
                            } else {
                                Seq::empty()
                            };
                            assert(d1 =~= d0 + args);
                            assert(d2 =~= d1 + arity_diags(op, true, g@.pred_edges(k as int).len(), c.hard_range_inn, c.soft_range_inn));
                            assert(d3 =~= d2 + arity_diags(op, false, g@.succ_edges(k as int).len(), c.hard_range_out, c.soft_range_out));
                            assert(d4 =~= d3 + port_diags(op.span, op_ports_named(op.name@).0, in_ports(g@, k as int), "input"@)
                                + port_diags(op.span, op_ports_named(op.name@).1, out_ports(g@, k as int), "output"@));
                            assert(diag_views(diagnostics@) =~= d0 + node_check_diags(g@, k as int));
                        }
                    },
                }
            },
            GraphNode::ModuleBoundary { .. } => {
                assert(diag_views(diagnostics@) =~= d0 + node_check_diags(g@, k as int));
            },
        }
    }

    /// Validates that operators have valid number of inputs, outputs, and
    /// arguments. Adds errors (and warnings) to the diagnostics.
    fn check_operator_errors(&mut self)
        requires
            old(self)@.wf(),
        ensures
            final(self)@.wf(),
            final(self)@ == spec_check_operator_errors(old(self)@),
    {
        let ghost s0 = self@;
        let n = self.flat_graph.node_count();
        let mut k: usize = 0;
        while k < n
            invariant
                n == s0.graph.nodes.len(),
                k <= n,
                s0.wf(),
                self@ == with_diags(s0, check_diags(s0.graph, k as int)),
            decreases n - k,
        {
            Self::check_node(&self.flat_graph, k, &mut self.diagnostics);
            k = k + 1;
            assert(self@.diagnostics =~= s0.diagnostics + check_diags(s0.graph, k as int));
        }
    }

    /// Process operators and emit operator errors.
    fn process_operator_errors(&mut self)
        requires
            old(self)@.wf(),
        ensures
            final(self)@.wf(),
            final(self)@ == spec_process_operator_errors(old(self)@),
    {
        self.make_operator_instances();
        self.insert_operator_edge_types();
        self.check_operator_errors();
    }

    /// Build into an unpartitioned graph, returning the graph, the `use` items,
    /// and the diagnostics. Even if there are errors, the graph is returned
    /// (potentially in an invalid state).
    pub fn build(self) -> (r: (HydroflowGraph, Vec<String>, Vec<Diagnostic>))
        requires
            self@.wf(),
        ensures
            r.0@ == spec_build(self@).graph,
            r.1@ == spec_build(self@).uses,
            diag_views(r.2@) == spec_build(self@).diagnostics,
            r.0@.wf(),
    {
        let mut this = self;
        this.connect_operator_links();
        this.process_operator_errors();
        (this.flat_graph, this.uses, this.diagnostics)
    }

}


// ---------------------------------------------------------------------------
// Merging an imported module into the graph.

/// What node `e` of an imported module becomes in the graph it is merged into
/// at `span`: an operator is kept with its variable name; a module boundary is
/// marked with `span` and named `module_true` (input) or `module_false`
/// (output). No operator instance is kept.
pub open spec fn merged_entry(e: NodeEntry, m: NodeEntry, span: Span) -> bool {
    &&& m.op_inst is None
    &&& match e.node {
        GraphNode::Operator(_) => m.node == e.node && m.varname == e.varname,
        GraphNode::ModuleBoundary { input, .. } => {
            &&& m.node == (GraphNode::ModuleBoundary { input, import_expr: span })
            &&& m.varname == Some(Ident { name: Name::Fixed(boundary_name(input)), span })
        },
    }
}

/// The name a merged module boundary gets: `module_true` for the input,
/// `module_false` for the output.
pub open spec fn boundary_name(input: bool) -> &'static str {
    if input {
        "module_true"
    } else {
        "module_false"
    }
}

/// What node `e` of an imported module becomes when merged at `span` (see
/// [`merged_entry`]).
pub open spec fn merged_node(e: NodeEntry, span: Span) -> NodeEntry {
    match e.node {
        GraphNode::Operator(_) => NodeEntry { node: e.node, varname: e.varname, op_inst: None },
        GraphNode::ModuleBoundary { input, .. } => NodeEntry {
            node: GraphNode::ModuleBoundary { input, import_expr: span },
            varname: Some(Ident { name: Name::Fixed(boundary_name(input)), span }),
            op_inst: None,
        },
    }
}

/// The graph `old` with the module `other` merged in at `span`: the nodes of
/// `other` follow those of `old`, in order, and its edges follow those of
/// `old`, between the renumbered nodes and with their ports and types.
pub open spec fn spec_merge_graph(old: GraphView, other: GraphView, span: Span) -> GraphView {
    GraphView {
        nodes: old.nodes + other.nodes.map_values(|e: NodeEntry| merged_node(e, span)),
        edges: old.edges + other.edges.map_values(|e: Edge| shifted_edge(e, old.nodes.len())),
    }
}

/// The relation [`merged_graph`] pins the merged graph down.
pub proof fn lemma_merged_graph_is(old: GraphView, other: GraphView, span: Span, new: GraphView)
    requires
        merged_graph(old, other, span, new),
    ensures
        new == spec_merge_graph(old, other, span),
{
    let m = spec_merge_graph(old, other, span);
    let n0 = old.nodes.len() as int;
    assert forall|i: int| 0 <= i < new.nodes.len() implies new.nodes[i] == m.nodes[i] by {
        if i < n0 {
            assert(new.nodes.take(n0)[i] == new.nodes[i]);
        } else {
            assert(merged_entry(other.nodes[i - n0], new.nodes[n0 + (i - n0)], span));
        }
    }
    assert(new.nodes =~= m.nodes);
}

/// An edge of an imported module, with its nodes renumbered by `n0`.
pub open spec fn shifted_edge(e: Edge, n0: nat) -> Edge {
    Edge {
        src: (e.src + n0) as usize,
        src_port: e.src_port,
        dst: (e.dst + n0) as usize,
        dst_port: e.dst_port,
        edge_type: e.edge_type,
    }
}

/// `new` is `old` with the module `other` merged in at `span`: the nodes of
/// `other` follow those of `old`, in order, and its edges follow those of
/// `old`, between the renumbered nodes and with their ports and types.
pub open spec fn merged_graph(old: GraphView, other: GraphView, span: Span, new: GraphView) -> bool {
    let n0 = old.nodes.len();
    &&& new.nodes.len() == n0 + other.nodes.len()
    &&& new.nodes.take(n0 as int) == old.nodes
    &&& forall|i: int|
        0 <= i < other.nodes.len() ==> #[trigger] merged_entry(other.nodes[i], new.nodes[n0 + i], span)
    &&& new.edges == old.edges + other.edges.map_values(|e: Edge| shifted_edge(e, n0))
}

/// Among the first `k` nodes of a module, the last input boundary without
/// predecessors and the last output boundary without successors.
pub open spec fn module_ends_upto(g: GraphView, k: int) -> (Option<int>, Option<int>)
    decreases k,
{
    if k <= 0 {
        (None, None)
    } else {
        let prev = module_ends_upto(g, k - 1);
        match g.nodes[k - 1].node {
            GraphNode::ModuleBoundary { input, .. } => if input && g.pred_edges(k - 1).len() == 0 {
                (Some(k - 1), prev.1)
            } else if !input && g.succ_edges(k - 1).len() == 0 {
                (prev.0, Some(k - 1))
            } else {
                prev
            },
            GraphNode::Operator(_) => prev,
        }
    }
}

/// An end at the (renumbered) boundary node `i`, with an elided port.
pub open spec fn boundary_end(i: Option<int>, n0: nat) -> Option<(PortIndexValue, GraphDet)> {
    match i {
        Some(i) => Some((PortIndexValue::Elided(None), GraphDet::Determined((n0 + i) as usize))),
        None => None,
    }
}

/// The ends of a module merged after `n0` nodes: its outer input and output
/// boundaries.
pub open spec fn merged_ends(g: GraphView, n0: nat) -> Ends {
    let (inn, out) = module_ends_upto(g, g.nodes.len() as int);
    Ends { inn: boundary_end(inn, n0), out: boundary_end(out, n0) }
}

pub proof fn lemma_module_ends_bound(g: GraphView, k: int)
    ensures
        module_ends_upto(g, k).0 matches Some(i) ==> 0 <= i < k,
        module_ends_upto(g, k).1 matches Some(i) ==> 0 <= i < k,
    decreases k,
{
    if k > 0 {
        lemma_module_ends_bound(g, k - 1);
    }
}

impl FlatGraphBuilder {
    /// Merge the flat graph `other`, built from an imported module, into this
    /// graph; the boundaries of the module become the returned ends.
    pub fn merge_in(&mut self, other: HydroflowGraph, parent_span: Span) -> (ends: Ends)
        requires
            old(self)@.wf(),
            other@.wf(),
        ensures
            final(self)@.wf(),
            merged_graph(old(self)@.graph, other@, parent_span, final(self)@.graph),
            final(self)@.graph == spec_merge_graph(old(self)@.graph, other@, parent_span),
            final(self)@ == (BuilderView { graph: final(self)@.graph, ..old(self)@ }),
            ends == merged_ends(other@, old(self)@.graph.nodes.len()),
    {
        let ghost s0 = self@;
        let ghost g = other@;
        let n0 = self.flat_graph.node_count();
        let m = other.node_count();
        let mut inn_idx: Option<usize> = None;
        let mut out_idx: Option<usize> = None;
        let mut i: usize = 0;
        while i < m
            invariant
                m == g.nodes.len(),
                other@ == g,
                i <= m,
                module_ends_upto(g, i as int) == (
                    match inn_idx {
                        Some(x) => Some(x as int),
                        None => None::<int>,
                    },
                    match out_idx {
                        Some(x) => Some(x as int),
                        None => None::<int>,
                    },
                ),
            decreases m - i,
        {
            match other.node(i) {
                GraphNode::ModuleBoundary { input, .. } => {
                    if *input && other.node_degree_in(i) == 0 {
                        inn_idx = Some(i);
                    } else if !*input && other.node_degree_out(i) == 0 {
                        out_idx = Some(i);
                    }
                },
                GraphNode::Operator(_) => {},
            }
            i = i + 1;
        }
        let (nodes, edges) = other.into_parts();
        let mut rest = nodes;
        let mut k: usize = 0;
        while rest.len() > 0
            invariant
                s0.wf(),
                m == g.nodes.len(),
                k + rest@.len() == g.nodes.len(),
                rest@ == g.nodes.skip(k as int),
                self@ == (BuilderView { graph: self@.graph, ..s0 }),
                self@.graph.edges == s0.graph.edges,
                self@.graph.nodes.len() == n0 + k,
                self@.graph.nodes.take(n0 as int) == s0.graph.nodes,
                n0 == s0.graph.nodes.len(),
                forall|j: int|
                    0 <= j < k ==> #[trigger] merged_entry(g.nodes[j], self@.graph.nodes[n0 + j], parent_span),
            decreases rest.len(),
        {
            let ghost before = self@.graph.nodes;
            let e = rest.remove(0);
            assert(e == g.nodes[k as int]);
            match e.node {
                GraphNode::Operator(op) => {
                    self.flat_graph.insert_node(GraphNode::Operator(op), e.varname);
                },
                GraphNode::ModuleBoundary { input, .. } => {
                    let name: &'static str = if input {
                        "module_true"
                    } else {
                        "module_false"
                    };
                    self.flat_graph.insert_node(
                        GraphNode::ModuleBoundary { input, import_expr: parent_span },
                        Some(Ident::new(name, parent_span)),
                    );
                },
            }
            proof {
                assert(self@.graph.nodes.take(n0 as int) =~= before.take(n0 as int));
                assert(rest@ =~= g.nodes.skip(k + 1));
                assert forall|j: int| 0 <= j < k + 1 implies #[trigger] merged_entry(
                    g.nodes[j],
                    self@.graph.nodes[n0 + j],
                    parent_span,
                ) by {
                    if j < k {
                        assert(self@.graph.nodes[n0 + j] == before[n0 + j]);
                    }
                }
            }
            k = k + 1;
        }
        let total = self.flat_graph.node_count();
        proof {
            assert(g.nodes.skip(k as int).len() == 0);
            lemma_module_ends_bound(g, m as int);
        }
        let ends = Ends {
            inn: match inn_idx {
                Some(x) => Some((PortIndexValue::Elided(None), GraphDet::Determined(n0 + x))),
                None => None,
            },
            out: match out_idx {
                Some(x) => Some((PortIndexValue::Elided(None), GraphDet::Determined(n0 + x))),
                None => None,
            },
        };
        let ne = edges.len();
        let mut rest = edges;
        let mut k: usize = 0;
        while rest.len() > 0
            invariant
                s0.wf(),
                g.wf(),
                total == n0 + g.nodes.len(),
                n0 == s0.graph.nodes.len(),
                ne == g.edges.len(),
                k + rest@.len() == g.edges.len(),
                rest@ == g.edges.skip(k as int),
                self@ == (BuilderView { graph: self@.graph, ..s0 }),
                self@.graph.nodes.len() == total,
                self@.graph.nodes.take(n0 as int) == s0.graph.nodes,
                forall|j: int|
                    0 <= j < g.nodes.len() ==> #[trigger] merged_entry(g.nodes[j], self@.graph.nodes[n0 + j], parent_span),
                self@.graph.edges == s0.graph.edges + g.edges.take(k as int).map_values(
                    |e: Edge| shifted_edge(e, n0 as nat),
                ),
            decreases rest.len(),
        {
            let ghost before = self@.graph.edges;
            let e = rest.remove(0);
            assert(e == g.edges[k as int]);
            let id = self.flat_graph.insert_edge(n0 + e.src, e.src_port, n0 + e.dst, e.dst_port);
            match e.edge_type {
                Some(t) => {
                    self.flat_graph.insert_edge_type(id, t);
                },
                None => {},
            }
            proof {
                let want = s0.graph.edges + g.edges.take(k + 1).map_values(
                    |e: Edge| shifted_edge(e, n0 as nat),
                );
                assert(g.edges.take(k + 1).map_values(|e: Edge| shifted_edge(e, n0 as nat))
                    =~= g.edges.take(k as int).map_values(|e: Edge| shifted_edge(e, n0 as nat)).push(
                    shifted_edge(g.edges[k as int], n0 as nat),
                ));
                assert(self@.graph.edges =~= want);
                assert(rest@ =~= g.edges.skip(k + 1));
            }
            k = k + 1;
        }
        proof {
            assert(g.edges.take(k as int) =~= g.edges);
            let ng = self@.graph;
            assert forall|e: int| #![trigger ng.edges[e]] 0 <= e < ng.edges.len() implies ng.edges[e].src
                < ng.nodes.len() && ng.edges[e].dst < ng.nodes.len() by {
                if e >= s0.graph.edges.len() {
                    let j = e - s0.graph.edges.len();
                    assert(g.edges[j].src < g.nodes.len());
                }
            }
            assert forall|i: int| #![trigger self@.links[i]] 0 <= i < self@.links.len() implies ends_wf(
                self@.links[i],
                self@.graph.nodes.len(),
            ) by {
                assert(ends_wf(s0.links[i], s0.graph.nodes.len()));
            }
            assert forall|i: int|
                #![trigger self@.varname_ends[i]]
                0 <= i < self@.varname_ends.len() implies (self@.varname_ends[i].1 matches Ok(e) ==> ends_wf(
                    e,
                    self@.graph.nodes.len(),
                )) by {
                assert(s0.varname_ends[i].1 matches Ok(e) ==> ends_wf(e, s0.graph.nodes.len()));
            }
        }
        proof {
            lemma_merged_graph_is(s0.graph, g, parent_span, self@.graph);
        }
        ends
    }

    /// Takes out the diagnostics of the imported modules, to be reported on
    /// their own; none are left.
    pub fn take_module_diagnostics(&mut self) -> (r: Vec<Diagnostic>)
        requires
            old(self)@.wf(),
        ensures
            diag_views(r@) == old(self)@.module_diagnostics,
            final(self)@ == (BuilderView { module_diagnostics: Seq::empty(), ..old(self)@ }),
            final(self)@.wf(),
    {
        let mut r: Vec<Diagnostic> = Vec::new();
        std::mem::swap(&mut r, &mut self.module_diagnostics);
        assert(diag_views(self.module_diagnostics@) =~= Seq::empty());
        r
    }
}

/// The ends of a merged module name nodes of the merged graph.
pub proof fn lemma_merged_ends_wf(g: GraphView, n0: nat)
    ensures
        ends_wf(merged_ends(g, n0), n0 + g.nodes.len()),
{
    lemma_module_ends_bound(g, g.nodes.len() as int);
}

} // verus!
