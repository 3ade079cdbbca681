//! Source spans and diagnostics.
use vstd::prelude::*;

use crate::text::decimal;

verus! {

/// A position in source code: the line and column where a token starts.
#[derive(Clone, Copy, PartialEq, Eq, Debug, Structural)]
pub struct Span {
    pub line: usize,
    pub column: usize,
}

impl Span {
    /// The span of the macro call site, used for generated items.
    pub fn call_site() -> (s: Span)
        ensures
            s == Span::spec_call_site(),
    {
        Span { line: 0, column: 0 }
    }

    pub open spec fn spec_call_site() -> Span {
        Span { line: 0, column: 0 }
    }
}

/// How a span is shown inside a message: `nopath:<line>:<column>`.
pub open spec fn pretty_span(s: Span) -> Seq<char> {
    "nopath:"@ + decimal(s.line as nat) + ":"@ + decimal(s.column as nat)
}

/// Appends the rendering of `s` (see [`pretty_span`]) to `out`.
pub fn push_pretty_span(out: &mut String, s: Span)
    ensures
        final(out)@ == old(out)@ + pretty_span(s),
{
    out.append("nopath:");
    crate::text::push_decimal(out, s.line);
    out.append(":");
    crate::text::push_decimal(out, s.column);
    assert(final(out)@ =~= old(out)@ + pretty_span(s));
}

/// The severity of a diagnostic.
#[derive(Clone, Copy, PartialEq, Eq, Debug, Structural)]
pub enum Level {
    Error,
    Warning,
}

/// A message attached to a source span.
#[derive(Debug)]
pub struct Diagnostic {
    pub span: Span,
    pub level: Level,
    pub message: String,
}

/// The mathematical value of a [`Diagnostic`].
pub struct DiagnosticView {
    pub span: Span,
    pub level: Level,
    pub message: Seq<char>,
}

impl View for Diagnostic {
    type V = DiagnosticView;

    open spec fn view(&self) -> DiagnosticView {
        DiagnosticView { span: self.span, level: self.level, message: self.message@ }
    }
}

/// The diagnostic with the given span, level and message text.
pub open spec fn diag(span: Span, level: Level, message: Seq<char>) -> DiagnosticView {
    DiagnosticView { span, level, message }
}

/// The views of a list of diagnostics.
pub open spec fn diag_views(ds: Seq<Diagnostic>) -> Seq<DiagnosticView> {
    ds.map_values(|d: Diagnostic| d@)
}

impl Diagnostic {
    /// A diagnostic at `span` with the given level and message.
    pub fn spanned(span: Span, level: Level, message: String) -> (d: Diagnostic)
        ensures
            d@ == diag(span, level, message@),
    {
        Diagnostic { span, level, message }
    }

    /// The message text of this diagnostic.
    pub fn message(&self) -> (s: &str)
        ensures
            s@ == self.message@,
    {
        self.message.as_str()
    }
}

} // verus!
