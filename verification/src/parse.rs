//! The syntax tree of dataflow code: statements built from pipelines such as
//! `a -> b -> c`, names, parenthesized and port-indexed pipelines, and operators.
use vstd::prelude::*;

use crate::diagnostic::Span;
use crate::graph::{Ident, Operator, PortIndex};

verus! {

/// A pipeline.
#[derive(Debug)]
pub enum Pipeline {
    /// `[inn](pipeline)[out]`: a parenthesized pipeline, with optional ports.
    Paren { inn: Option<PortIndex>, pipeline: Box<Pipeline>, out: Option<PortIndex>, span: Span },
    /// `[inn]name[out]`: a reference to a named pipeline, with optional ports.
    Name { inn: Option<PortIndex>, ident: Ident, out: Option<PortIndex> },
    /// `[inn]mod[out]`: the boundary of the enclosing module.
    ModuleBoundary { inn: Option<PortIndex>, out: Option<PortIndex>, span: Span },
    /// `lhs -> rhs`: the output of `lhs` linked to the input of `rhs`.
    Link { lhs: Box<Pipeline>, rhs: Box<Pipeline> },
    /// A single operator.
    Operator(Operator),
    /// `import!("filename")`: the code of another file, built as a module;
    /// `filename_span` is where the file name is written, `span` where the
    /// import is.
    Import { filename: String, filename_span: Span, span: Span, module: Box<ImportedModule> },
}

/// What became of the file that an `import!` names, once it was looked for:
/// its parsed code (with the path of the file, to which imports inside it are
/// relative), or why it could not be read or parsed.
#[derive(Debug)]
pub enum ImportedModule {
    Parsed { code: HfCode, file_path: String },
    Unreadable { err: String },
    Unparsable { err: String },
}

/// `name = pipeline;`
#[derive(Debug)]
pub struct NamedHfStatement {
    pub name: Ident,
    pub pipeline: Pipeline,
    pub span: Span,
}

/// `pipeline;`
#[derive(Debug)]
pub struct PipelineStatement {
    pub pipeline: Pipeline,
}

/// One statement of dataflow code.
#[derive(Debug)]
pub enum HfStatement {
    /// A `use` item, kept as its text.
    Use(String),
    /// A named pipeline.
    Named(NamedHfStatement),
    /// An unnamed pipeline.
    Pipeline(PipelineStatement),
}

/// A body of dataflow code: its statements in order.
#[derive(Debug)]
pub struct HfCode {
    pub statements: Vec<HfStatement>,
}

} // verus!
