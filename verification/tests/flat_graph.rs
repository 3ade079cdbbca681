use hydroflow::diagnostic::{Level, Span};
use hydroflow::flat_graph_builder::FlatGraphBuilder;
use hydroflow::graph::{GraphEdgeType, GraphNode, Ident, IndexInt, Operator, PortIndex};
use hydroflow::parse::{HfCode, HfStatement, ImportedModule, NamedHfStatement, Pipeline, PipelineStatement};

fn sp(line: usize, column: usize) -> Span {
    Span { line, column }
}

fn ident(name: &str, line: usize, column: usize) -> Ident {
    Ident::given(name.to_string(), sp(line, column))
}

fn op(name: &str, nargs: usize, line: usize, column: usize) -> Pipeline {
    let args = (0..nargs).map(|i| format!("arg{}", i)).collect();
    Pipeline::Operator(Operator { name: name.to_string(), args, span: sp(line, column) })
}

fn link(lhs: Pipeline, rhs: Pipeline) -> Pipeline {
    Pipeline::Link { lhs: Box::new(lhs), rhs: Box::new(rhs) }
}

fn name_ref(name: &str, line: usize, column: usize) -> Pipeline {
    Pipeline::Name { inn: None, ident: ident(name, line, column), out: None }
}

fn named(name: &str, line: usize, pipeline: Pipeline) -> HfStatement {
    HfStatement::Named(NamedHfStatement { name: ident(name, line, 1), pipeline, span: sp(line, 0) })
}

fn pipe(pipeline: Pipeline) -> HfStatement {
    HfStatement::Pipeline(PipelineStatement { pipeline })
}

fn messages(diags: &[hydroflow::diagnostic::Diagnostic]) -> Vec<String> {
    diags.iter().map(|d| d.message.clone()).collect()
}

#[test]
fn chained_reduces_make_one_edge_and_report_open_ends() {
    let code = HfCode { statements: vec![pipe(link(op("reduce", 1, 1, 0), op("reduce", 1, 1, 20)))] };
    let builder = FlatGraphBuilder::from_hfcode(code, "src/main.rs".to_string());
    let (graph, uses, diags) = builder.build();
    assert_eq!(graph.node_count(), 2);
    assert_eq!(graph.edge_count(), 1);
    assert_eq!(graph.edge(0), (0, 1));
    assert!(uses.is_empty());
    assert_eq!(
        messages(&diags),
        vec![
            "`reduce` must have exactly 1 input(s), actually has 0.".to_string(),
            "`reduce` must have exactly 1 output(s), actually has 0.".to_string(),
        ]
    );
    assert_eq!(diags[0].span, sp(1, 0));
    assert_eq!(diags[0].level, Level::Error);
    assert_eq!(diags[1].span, sp(1, 20));
}

#[test]
fn unknown_operator_and_argument_count() {
    let code = HfCode {
        statements: vec![pipe(link(link(op("map", 1, 2, 0), op("reduce", 2, 2, 10)), op("map", 0, 2, 30)))],
    };
    let (graph, _, diags) = FlatGraphBuilder::from_hfcode(code, String::new()).build();
    assert_eq!(graph.node_count(), 3);
    assert_eq!(graph.edge_count(), 2);
    assert_eq!(
        messages(&diags),
        vec![
            "Unknown operator `map`".to_string(),
            "Unknown operator `map`".to_string(),
            "expected 1 argument(s), found 2".to_string(),
        ]
    );
}

#[test]
fn names_connect_forward_and_backward() {
    let code = HfCode {
        statements: vec![
            pipe(link(name_ref("a", 3, 0), name_ref("b", 3, 5))),
            named("a", 1, link(op("reduce", 1, 1, 4), op("reduce", 1, 1, 20))),
            named("b", 2, op("reduce", 1, 2, 4)),
        ],
    };
    let (graph, _, diags) = FlatGraphBuilder::from_hfcode(code, String::new()).build();
    assert_eq!(graph.node_count(), 3);
    assert_eq!(graph.edge_count(), 2);
    assert_eq!(graph.edge(0), (1, 2));
    assert_eq!(graph.edge(1), (0, 1));
    assert_eq!(
        messages(&diags),
        vec![
            "`reduce` must have exactly 1 input(s), actually has 0.".to_string(),
            "`reduce` must have exactly 1 output(s), actually has 0.".to_string(),
        ]
    );
    assert_eq!(graph.node_varname(0).unwrap().name.as_str(), "a");
    assert_eq!(graph.node_varname(2).unwrap().name.as_str(), "b");
}

#[test]
fn unassigned_name_is_reported() {
    let code = HfCode { statements: vec![pipe(link(name_ref("x", 4, 2), op("reduce", 1, 4, 8)))] };
    let (graph, _, diags) = FlatGraphBuilder::from_hfcode(code, String::new()).build();
    assert_eq!(graph.edge_count(), 0);
    assert_eq!(messages(&diags)[0], "Cannot find name `x`; name was never assigned.");
    assert_eq!(diags[0].span, sp(4, 2));
}

#[test]
fn self_referential_name_is_a_cycle() {
    let code = HfCode {
        statements: vec![named("x", 1, name_ref("x", 1, 6)), pipe(link(name_ref("x", 2, 0), op("reduce", 1, 2, 6)))],
    };
    let (graph, _, diags) = FlatGraphBuilder::from_hfcode(code, String::new()).build();
    assert_eq!(graph.edge_count(), 0);
    assert_eq!(
        messages(&diags)[0],
        "Name `x` forms or references an illegal self-referential cycle (1/1)."
    );
    assert_eq!(diags[0].span, sp(2, 0));
}

#[test]
fn second_assignment_to_a_name_conflicts() {
    let code = HfCode {
        statements: vec![named("a", 1, op("reduce", 1, 1, 4)), named("a", 2, op("reduce", 1, 2, 4))],
    };
    let builder = FlatGraphBuilder::from_hfcode(code, String::new());
    let (graph, _, diags) = builder.build();
    assert_eq!(graph.node_count(), 2);
    let msgs = messages(&diags);
    assert_eq!(msgs[0], "Name assignment to `a` conflicts with existing assignment: nopath:1:1 (1/2)");
    assert_eq!(msgs[1], "Existing assignment to `a` conflicts with later assignment: nopath:2:0 (2/2)");
    assert_eq!(diags[0].span, sp(2, 0));
    assert_eq!(diags[1].span, sp(1, 1));
}

#[test]
fn same_output_port_twice_conflicts() {
    let port = |v: usize, line: usize| Some(PortIndex::Int(IndexInt { value: v, span: sp(line, 1) }));
    let code = HfCode {
        statements: vec![
            named("a", 1, op("reduce", 1, 1, 4)),
            pipe(link(Pipeline::Name { inn: None, ident: ident("a", 2, 0), out: port(0, 2) }, op("reduce", 1, 2, 9))),
            pipe(link(Pipeline::Name { inn: None, ident: ident("a", 3, 0), out: port(0, 3) }, op("reduce", 1, 3, 9))),
        ],
    };
    let (graph, _, diags) = FlatGraphBuilder::from_hfcode(code, String::new()).build();
    assert_eq!(graph.edge_count(), 2);
    let msgs = messages(&diags);
    assert_eq!(msgs[0], "Output connection conflicts with below (nopath:3:1) (1/2)");
    assert_eq!(msgs[1], "Output connection conflicts with above (nopath:2:1) (2/2)");
    assert!(msgs.contains(&"`reduce` must have exactly 1 output(s), actually has 2.".to_string()));
}

#[test]
fn indexing_an_indexed_name_is_reported() {
    let code = HfCode {
        statements: vec![
            named(
                "a",
                1,
                Pipeline::Paren {
                    inn: Some(PortIndex::Int(IndexInt { value: 0, span: sp(1, 4) })),
                    pipeline: Box::new(op("reduce", 1, 1, 8)),
                    out: None,
                    span: sp(1, 7),
                },
            ),
            pipe(link(
                op("reduce", 1, 2, 0),
                Pipeline::Name { inn: Some(PortIndex::Int(IndexInt { value: 1, span: sp(2, 12) })), ident: ident("a", 2, 15), out: None },
            )),
        ],
    };
    let (graph, _, diags) = FlatGraphBuilder::from_hfcode(code, String::new()).build();
    assert_eq!(graph.edge_count(), 1);
    let msgs = messages(&diags);
    assert_eq!(msgs[0], "Indexing on input is overwritten below (nopath:2:12) (1/2).");
    assert_eq!(msgs[1], "Cannot index on already-indexed input, previously indexed above (nopath:1:4) (2/2).");
}

#[test]
fn mod_outside_a_module_is_reported() {
    let code = HfCode {
        statements: vec![pipe(link(Pipeline::ModuleBoundary { inn: None, out: None, span: sp(5, 0) }, op("reduce", 1, 5, 7)))],
    };
    let (graph, _, diags) = FlatGraphBuilder::from_hfcode(code, String::new()).build();
    assert_eq!(graph.edge_count(), 0);
    assert_eq!(messages(&diags)[0], "`mod` is only usable inside of a module.");
    assert_eq!(diags[0].span, sp(5, 0));
}

#[test]
fn module_boundaries_connect_through() {
    let boundary = |c: usize| Pipeline::ModuleBoundary { inn: None, out: None, span: sp(1, c) };
    let code = HfCode { statements: vec![pipe(link(link(boundary(0), op("reduce", 1, 1, 7)), boundary(20)))] };
    let builder = FlatGraphBuilder::from_hfmodule(code, "m.hf".to_string());
    let (graph, _, diags) = builder.build();
    assert_eq!(graph.node_count(), 3);
    assert!(matches!(graph.node(0), GraphNode::ModuleBoundary { input: true, .. }));
    assert!(matches!(graph.node(1), GraphNode::ModuleBoundary { input: false, .. }));
    assert_eq!(graph.edge(0), (0, 2));
    assert_eq!(graph.edge(1), (2, 1));
    assert!(diags.is_empty());
    assert_eq!(graph.node_varname(0).unwrap().name.as_str(), "input");
    assert_eq!(graph.node_varname(1).unwrap().name.as_str(), "output");
}

#[test]
fn use_items_are_kept_in_order() {
    let code = HfCode {
        statements: vec![HfStatement::Use("use std::mem;".to_string()), HfStatement::Use("use a::b;".to_string())],
    };
    let mut builder = FlatGraphBuilder::new();
    for s in code.statements {
        builder.add_statement(s);
    }
    let (graph, uses, diags) = builder.build();
    assert_eq!(uses, vec!["use std::mem;".to_string(), "use a::b;".to_string()]);
    assert_eq!(graph.node_count(), 0);
    assert!(diags.is_empty());
}

fn module_code() -> HfCode {
    let boundary = |line: usize| Pipeline::ModuleBoundary { inn: None, out: None, span: sp(line, 0) };
    HfCode { statements: vec![pipe(link(link(boundary(7), op("reduce", 1, 7, 10)), boundary(7)))] }
}

fn import(filename: &str, line: usize, module: ImportedModule) -> Pipeline {
    Pipeline::Import {
        filename: filename.to_string(),
        filename_span: sp(line, 9),
        span: sp(line, 1),
        module: Box::new(module),
    }
}

fn parsed(code: HfCode, file_path: &str) -> ImportedModule {
    ImportedModule::Parsed { code, file_path: file_path.to_string() }
}

#[test]
fn imported_module_is_merged_and_linked_into_the_pipeline() {
    let imported = import("m.hf", 3, parsed(module_code(), "m.hf"));
    let code = HfCode {
        statements: vec![pipe(link(link(op("source_iter", 1, 3, 0), imported), op("dest_sink", 1, 3, 30)))],
    };
    let mut builder = FlatGraphBuilder::from_hfcode(code, "main.rs".to_string());
    assert!(builder.take_module_diagnostics().is_empty());
    let (graph, _, diags) = builder.build();
    assert!(diags.is_empty());
    assert_eq!(graph.node_count(), 5);
    let input = graph.node_varname(1).unwrap();
    assert_eq!(input.name.as_str(), "module_true");
    assert_eq!(input.span, sp(3, 1));
    assert_eq!(graph.node_varname(2).unwrap().name.as_str(), "module_false");
    assert!(matches!(graph.node(1), GraphNode::ModuleBoundary { input: true, import_expr } if *import_expr == sp(3, 1)));
    assert!(graph.node_varname(3).is_none());
    assert_eq!(graph.edge_count(), 4);
    assert_eq!(graph.edge(0), (1, 3));
    assert_eq!(graph.edge(1), (3, 2));
    assert_eq!(graph.edge_type(1), Some(GraphEdgeType::Value));
    assert_eq!(graph.edge(2), (0, 1));
    assert_eq!(graph.edge(3), (2, 4));
}

#[test]
fn a_named_import_can_be_referred_to() {
    let code = HfCode {
        statements: vec![
            named("m", 1, import("m.hf", 1, parsed(module_code(), "m.hf"))),
            pipe(link(link(op("source_iter", 1, 2, 0), name_ref("m", 2, 20)), op("dest_sink", 1, 2, 30))),
        ],
    };
    let (graph, _, diags) = FlatGraphBuilder::from_hfcode(code, "main.rs".to_string()).build();
    assert!(diags.is_empty());
    assert_eq!(graph.edge_count(), 4);
    assert_eq!(graph.edge(2), (3, 0));
    assert_eq!(graph.edge(3), (1, 4));
}

#[test]
fn diagnostics_of_imported_modules_are_kept_apart() {
    let inner = HfCode { statements: vec![pipe(op("map", 0, 9, 2))] };
    let outer = HfCode { statements: vec![pipe(import("inner.hf", 8, parsed(inner, "inner.hf"))), pipe(op("filter", 0, 8, 20))] };
    let code = HfCode { statements: vec![pipe(import("outer.hf", 1, parsed(outer, "outer.hf")))] };
    let mut builder = FlatGraphBuilder::from_hfcode(code, "main.rs".to_string());
    let module_diags = builder.take_module_diagnostics();
    // The inner module's own report, then the outer module's, which meets
    // `map` again among its merged nodes.
    assert_eq!(
        messages(&module_diags),
        vec![
            "Unknown operator `map`".to_string(),
            "Unknown operator `map`".to_string(),
            "Unknown operator `filter`".to_string(),
        ]
    );
    let (graph, _, diags) = builder.build();
    assert_eq!(messages(&diags), vec!["Unknown operator `map`".to_string(), "Unknown operator `filter`".to_string()]);
    // outer's two boundaries, then inner's two boundaries and `map`, then `filter`
    assert_eq!(graph.node_count(), 6);
}

#[test]
fn unreadable_and_unparsable_imports_are_reported() {
    let code = HfCode {
        statements: vec![
            pipe(import("sub.hf", 5, ImportedModule::Unreadable { err: "No such file or directory (os error 2)".to_string() })),
            pipe(import("bad.hf", 6, ImportedModule::Unparsable { err: "expected `;`".to_string() })),
        ],
    };
    let (graph, _, diags) = FlatGraphBuilder::from_hfcode(code, String::new()).build();
    assert_eq!(graph.node_count(), 0);
    assert_eq!(
        messages(&diags),
        vec![
            "filename: sub.hf, err: No such file or directory (os error 2)".to_string(),
            "expected `;`".to_string(),
        ]
    );
    assert_eq!(diags[0].span, sp(5, 9));
    assert_eq!(diags[1].span, sp(6, 1));
}

#[test]
fn same_input_port_twice_conflicts() {
    let port = |v: usize, line: usize| Some(PortIndex::Int(IndexInt { value: v, span: sp(line, 5) }));
    let code = HfCode {
        statements: vec![
            named("b", 1, op("reduce", 1, 1, 4)),
            pipe(link(op("reduce", 1, 2, 0), Pipeline::Name { inn: port(1, 2), ident: ident("b", 2, 8), out: None })),
            pipe(link(op("reduce", 1, 3, 0), Pipeline::Name { inn: port(1, 3), ident: ident("b", 3, 8), out: None })),
        ],
    };
    let (graph, _, diags) = FlatGraphBuilder::from_hfcode(code, String::new()).build();
    assert_eq!(graph.edge_count(), 2);
    let msgs = messages(&diags);
    assert_eq!(msgs[0], "Input connection conflicts with below (nopath:3:5) (1/2)");
    assert_eq!(msgs[1], "Input connection conflicts with above (nopath:2:5) (2/2)");
    assert_eq!(diags[0].span, sp(2, 5));
    assert_eq!(diags[1].span, sp(3, 5));
}

#[test]
fn overly_long_chain_of_names_reaches_the_limit() {
    let n = 1100;
    let mut statements: Vec<HfStatement> = (0..n)
        .map(|i| named(&format!("a{}", i), i + 1, name_ref(&format!("a{}", i + 1), i + 1, 5)))
        .collect();
    statements.push(named(&format!("a{}", n), n + 1, op("reduce", 1, n + 1, 5)));
    statements.push(pipe(link(op("reduce", 1, n + 2, 0), name_ref("a0", n + 2, 10))));
    let (graph, _, diags) = FlatGraphBuilder::from_hfcode(HfCode { statements }, String::new()).build();
    assert_eq!(graph.edge_count(), 0);
    let chain: Vec<String> = (0..1024).map(|i| format!("a{}", i)).collect();
    let expected = format!(
        "Reached the recursion limit 1024 while resolving names. This is either a hydroflow bug or you have an absurdly long chain of names: `{}`.",
        chain.join("` -> `")
    );
    assert_eq!(messages(&diags)[0], expected);
    assert_eq!(diags[0].span, Span::call_site());
}

#[test]
fn join_reports_unexpected_and_missing_ports() {
    let port = |v: usize, line: usize| Some(PortIndex::Int(IndexInt { value: v, span: sp(line, 20) }));
    let code = HfCode {
        statements: vec![
            named("a", 1, op("join", 0, 1, 4)),
            pipe(link(op("source_iter", 1, 2, 0), Pipeline::Name { inn: port(0, 2), ident: ident("a", 2, 22), out: None })),
            pipe(link(op("source_iter", 1, 3, 0), Pipeline::Name { inn: port(2, 3), ident: ident("a", 3, 22), out: None })),
            pipe(link(name_ref("a", 4, 0), op("dest_sink", 1, 4, 5))),
        ],
    };
    let (graph, _, diags) = FlatGraphBuilder::from_hfcode(code, String::new()).build();
    assert_eq!(graph.edge_count(), 3);
    assert_eq!(
        messages(&diags),
        vec![
            "Unexpected input port: `2`. Expected one of: `0`, `1`".to_string(),
            "Missing expected input port(s): `1`.".to_string(),
        ]
    );
    assert_eq!(diags[0].span, sp(3, 20));
    assert_eq!(diags[1].span, sp(1, 4));
}

#[test]
fn anti_join_with_elided_ports_misses_both() {
    let code = HfCode {
        statements: vec![
            named("a", 1, op("anti_join", 0, 1, 4)),
            pipe(link(op("source_iter", 1, 2, 0), name_ref("a", 2, 22))),
            pipe(link(op("source_iter", 1, 3, 0), name_ref("a", 3, 22))),
            pipe(link(name_ref("a", 4, 0), op("dest_sink", 1, 4, 5))),
        ],
    };
    let (_, _, diags) = FlatGraphBuilder::from_hfcode(code, String::new()).build();
    assert_eq!(
        messages(&diags),
        vec![
            "Unexpected input port: <elided>. Expected one of: `pos`, `neg`".to_string(),
            "Unexpected input port: <elided>. Expected one of: `pos`, `neg`".to_string(),
            "Missing expected input port(s): `pos`, `neg`.".to_string(),
        ]
    );
}
