# hydroflow (verified core)

The verified core of a dataflow toolkit, written in Verus.

- `src/` is the library; every function in it is verified:
  - `flat_graph_builder`, with `graph`, `parse`, `ops`, `messages`,
    `diagnostic` and `text`: dataflow statements become an operator graph;
    names are resolved, links connected, operators checked, and every problem
    is reported as a diagnostic whose text is specified exactly. An
    `import!` stands in a pipeline like any other: the imported module is
    built, merged in and linked through its boundaries, and its own
    diagnostics are kept apart for the caller to report.
  - `port_check`: operators that declare their ports accept only those
    ports and need each of them.
  - `builder_laws`: properties of the builder proved over its specification.
  - `lattice`: lattice merge, the laws a lattice's merge obeys, and the
    order that merges reveal.
  - `handoff_list`, `pull_chain`: type-level port lists and chained pull
    pipelines.
  - `reduce`: what the `reduce` operator computes per tick, with `'tick` and
    `'static` persistence.
  - `location`, `runtime`: locations of a flow, the fresh names of the
    streams and ports they create, and the command-line deployment.
- `tests/` runs the library on concrete inputs.
- `app/` is what stays outside verification: spans and identifiers from
  Rust tokens, reading imported files, printing diagnostics, and token forms
  of runtime values.
