//! The port check of an operator: an operator with a fixed list of input (or
//! output) ports accepts only those ports, and needs each of them.
use vstd::prelude::*;

use crate::diagnostic::{diag, DiagnosticView, Level, Span};
use crate::graph::{port_span, PortIndexValue};
use crate::text::{decimal, seq_join, views};

verus! {

/// A port that an operator declares: a number, such as `0`, or a name, such
/// as `pos`.
#[derive(Clone, Copy, Debug)]
pub enum PortKey {
    Int(usize),
    Path(&'static str),
}

/// Whether the port `p` of an edge is the declared port `k`.
pub open spec fn key_matches(k: PortKey, p: PortIndexValue) -> bool {
    match (k, p) {
        (PortKey::Int(v), PortIndexValue::Int(i)) => i.value == v,
        (PortKey::Path(s), PortIndexValue::Path(x)) => x.path@ == s@,
        _ => false,
    }
}

/// How a declared port is written: `0`, `pos`.
pub open spec fn key_text(k: PortKey) -> Seq<char> {
    match k {
        PortKey::Int(v) => decimal(v as nat),
        PortKey::Path(s) => s@,
    }
}

/// How the port of an edge is named in an error: `` `0` ``, `` `pos` ``, or
/// `<elided>`.
pub open spec fn port_error_text(p: PortIndexValue) -> Seq<char> {
    match p {
        PortIndexValue::Int(i) => "`"@ + decimal(i.value as nat) + "`"@,
        PortIndexValue::Path(x) => "`"@ + x.path@ + "`"@,
        PortIndexValue::Elided(_) => "<elided>"@,
    }
}

/// The declared ports, written out and joined by `` `, ` ``.
pub open spec fn keys_text(ks: Seq<PortKey>) -> Seq<char> {
    seq_join(ks.map_values(|k: PortKey| key_text(k)), "`, `"@)
}

/// Whether `p` is one of the declared ports.
pub open spec fn is_expected(ks: Seq<PortKey>, p: PortIndexValue) -> bool {
    exists|i: int| 0 <= i < ks.len() && key_matches(#[trigger] ks[i], p)
}

/// Whether the declared port `k` is used by one of `ports`.
pub open spec fn is_used(k: PortKey, ports: Seq<PortIndexValue>) -> bool {
    exists|j: int| 0 <= j < ports.len() && key_matches(k, #[trigger] ports[j])
}

pub open spec fn msg_unexpected_port(io: Seq<char>, port: PortIndexValue, ks: Seq<PortKey>) -> Seq<char> {
    "Unexpected "@ + io + " port: "@ + port_error_text(port) + ". Expected one of: `"@ + keys_text(ks) + "`"@
}

pub open spec fn msg_missing_ports(io: Seq<char>, missing: Seq<PortKey>) -> Seq<char> {
    "Missing expected "@ + io + " port(s): `"@ + keys_text(missing) + "`."@
}

/// An error at each of the first `n` ports that is not declared, in order.
pub open spec fn unexpected_diags(ks: Seq<PortKey>, ports: Seq<PortIndexValue>, io: Seq<char>, n: int) -> Seq<
    DiagnosticView,
>
    decreases n,
{
    if n <= 0 {
        Seq::empty()
    } else {
        let prev = unexpected_diags(ks, ports, io, n - 1);
        let p = ports[n - 1];
        if is_expected(ks, p) {
            prev
        } else {
            prev.push(diag(port_span(p), Level::Error, msg_unexpected_port(io, p, ks)))
        }
    }
}

/// The declared ports that none of `ports` uses, in their declared order.
pub open spec fn missing_keys(ks: Seq<PortKey>, ports: Seq<PortIndexValue>) -> Seq<PortKey> {
    ks.filter(|k: PortKey| !is_used(k, ports))
}

/// The diagnostics of the port check of one side of an operator written at
/// `span`, whose edges on that side use `ports` in order: nothing when the
/// operator declares no port list (`None`); otherwise an error at each port
/// that is not declared, then one error at the operator listing the declared
/// ports that no edge uses, if there are any.
pub open spec fn port_diags(span: Span, declared: Option<Seq<PortKey>>, ports: Seq<PortIndexValue>, io: Seq<char>) -> Seq<
    DiagnosticView,
> {
    match declared {
        None => Seq::empty(),
        Some(ks) => {
            let missing = missing_keys(ks, ports);
            unexpected_diags(ks, ports, io, ports.len() as int) + if missing.len() > 0 {
                seq![diag(span, Level::Error, msg_missing_ports(io, missing))]
            } else {
                Seq::empty()
            }
        },
    }
}

/// A declared port matches exactly the edge ports written the same way: the
/// named port `s` matches the edge ports named `s` and nothing else, the
/// numbered port `v` the edge ports numbered `v`; an elided port matches no
/// declared port.
pub proof fn lemma_key_matches_written_port(k: PortKey, p: PortIndexValue)
    ensures
        k matches PortKey::Path(s) ==> (key_matches(k, p) <==> (p is Path && p->Path_0.path@ == s@)),
        k matches PortKey::Int(v) ==> (key_matches(k, p) <==> (p is Int && p->Int_0.value == v)),
        p is Elided ==> !key_matches(k, p),
{
}

proof fn lemma_filter_none<A>(s: Seq<A>, f: spec_fn(A) -> bool)
    requires
        forall|i: int| 0 <= i < s.len() ==> !f(#[trigger] s[i]),
    ensures
        s.filter(f).len() == 0,
    decreases s.len(),
{
    reveal(Seq::filter);
    if s.len() > 0 {
        assert forall|i: int| 0 <= i < s.drop_last().len() implies !f(#[trigger] s.drop_last()[i]) by {
            assert(s.drop_last()[i] == s[i]);
        }
        lemma_filter_none(s.drop_last(), f);
        assert(!f(s[s.len() - 1]));
    }
}

proof fn lemma_no_unexpected(ks: Seq<PortKey>, ports: Seq<PortIndexValue>, io: Seq<char>, n: int)
    requires
        n <= ports.len(),
        ports.len() == ks.len(),
        forall|i: int|
            0 <= i < ks.len() ==> match #[trigger] ks[i] {
                PortKey::Path(s) => ports[i] is Path && ports[i]->Path_0.path@ == s@,
                PortKey::Int(v) => ports[i] is Int && ports[i]->Int_0.value == v,
            },
    ensures
        unexpected_diags(ks, ports, io, n) == Seq::<DiagnosticView>::empty(),
    decreases n,
{
    if n > 0 {
        lemma_no_unexpected(ks, ports, io, n - 1);
        let j = n - 1;
        lemma_key_matches_written_port(ks[j], ports[j]);
        assert(key_matches(ks[j], ports[j]));
        assert(is_expected(ks, ports[j]));
    }
}

/// An operator whose edges on one side use exactly its declared ports, each
/// once and in the declared order, gets no port diagnostic on that side: no
/// port is unexpected and none is missing (as for `anti_join` fed at `[pos]`
/// and `[neg]`).
pub proof fn lemma_declared_ports_used_give_no_diagnostics(
    span: Span,
    ks: Seq<PortKey>,
    ports: Seq<PortIndexValue>,
    io: Seq<char>,
)
    requires
        ports.len() == ks.len(),
        forall|i: int|
            0 <= i < ks.len() ==> match #[trigger] ks[i] {
                PortKey::Path(s) => ports[i] is Path && ports[i]->Path_0.path@ == s@,
                PortKey::Int(v) => ports[i] is Int && ports[i]->Int_0.value == v,
            },
    ensures
        port_diags(span, Some(ks), ports, io) == Seq::<DiagnosticView>::empty(),
{
    lemma_no_unexpected(ks, ports, io, ports.len() as int);
    let f = |k: PortKey| !is_used(k, ports);
    assert forall|i: int| 0 <= i < ks.len() implies !f(#[trigger] ks[i]) by {
        lemma_key_matches_written_port(ks[i], ports[i]);
        assert(key_matches(ks[i], ports[i]));
    }
    lemma_filter_none(ks, f);
    assert(missing_keys(ks, ports).len() == 0);
    assert(port_diags(span, Some(ks), ports, io) =~= Seq::<DiagnosticView>::empty());
}

/// Whether `p` is the declared port `k`.
pub fn key_matches_port(k: PortKey, p: &PortIndexValue) -> (b: bool)
    ensures
        b == key_matches(k, *p),
{
    match (k, p) {
        (PortKey::Int(v), PortIndexValue::Int(i)) => i.value == v,
        (PortKey::Path(s), PortIndexValue::Path(x)) => {
            let t = String::from_str(s);
            x.path == t
        },
        _ => false,
    }
}

/// Whether `p` is one of the declared ports.
fn expected(ks: &Vec<PortKey>, p: &PortIndexValue) -> (b: bool)
    ensures
        b == is_expected(ks@, *p),
{
    let mut i: usize = 0;
    while i < ks.len()
        invariant
            i <= ks.len(),
            forall|j: int| 0 <= j < i ==> !key_matches(#[trigger] ks@[j], *p),
        decreases ks.len() - i,
    {
        if key_matches_port(ks[i], p) {
            return true;
        }
        i = i + 1;
    }
    false
}

/// Whether one of `ports` is the declared port `k`.
fn used(k: PortKey, ports: &Vec<&PortIndexValue>) -> (b: bool)
    ensures
        b == is_used(k, ports@.map_values(|p: &PortIndexValue| *p)),
{
    let ghost ps = ports@.map_values(|p: &PortIndexValue| *p);
    let mut j: usize = 0;
    while j < ports.len()
        invariant
            j <= ports.len(),
            ps == ports@.map_values(|p: &PortIndexValue| *p),
            forall|i: int| 0 <= i < j ==> !key_matches(k, #[trigger] ps[i]),
        decreases ports.len() - j,
    {
        if key_matches_port(k, ports[j]) {
            assert(key_matches(k, ps[j as int]));
            return true;
        }
        j = j + 1;
    }
    false
}

/// How a declared port is written.
fn key_string(k: PortKey) -> (s: String)
    ensures
        s@ == key_text(k),
{
    match k {
        PortKey::Int(v) => crate::text::decimal_string(v),
        PortKey::Path(p) => String::from_str(p),
    }
}

/// The declared ports, written out and joined by `` `, ` ``, through
/// itertools' `intersperse`.
fn keys_string(ks: &Vec<PortKey>) -> (s: String)
    ensures
        s@ == keys_text(ks@),
{
    let mut texts: Vec<String> = Vec::new();
    let mut i: usize = 0;
    while i < ks.len()
        invariant
            i <= ks.len(),
            views(texts@) == ks@.take(i as int).map_values(|k: PortKey| key_text(k)),
        decreases ks.len() - i,
    {
        let ghost before = texts@;
        let t = key_string(ks[i]);
        texts.push(t);
        assert(views(texts@) =~= views(before).push(t@));
        assert(ks@.take(i + 1) =~= ks@.take(i as int).push(ks@[i as int]));
        i = i + 1;
        assert(views(texts@) =~= ks@.take(i as int).map_values(|k: PortKey| key_text(k)));
    }
    assert(ks@.take(i as int) =~= ks@);
    intersperse_join(texts, "`, `")
}

/// How the port of an edge is named in an error.
fn port_error_string(p: &PortIndexValue) -> (s: String)
    ensures
        s@ == port_error_text(*p),
{
    let mut s = String::new();
    match p {
        PortIndexValue::Int(i) => {
            s.append("`");
            crate::text::push_decimal(&mut s, i.value);
            s.append("`");
        },
        PortIndexValue::Path(x) => {
            s.append("`");
            s.append(x.path.as_str());
            s.append("`");
        },
        PortIndexValue::Elided(_) => {
            s.append("<elided>");
        },
    }
    assert(s@ =~= port_error_text(*p));
    s
}

fn unexpected_port_message(io: &str, p: &PortIndexValue, ks: &Vec<PortKey>) -> (s: String)
    ensures
        s@ == msg_unexpected_port(io@, *p, ks@),
{
    let mut s = String::new();
    s.append("Unexpected ");
    s.append(io);
    s.append(" port: ");
    let t = port_error_string(p);
    s.append(t.as_str());
    s.append(". Expected one of: `");
    let k = keys_string(ks);
    s.append(k.as_str());
    s.append("`");
    assert(s@ =~= msg_unexpected_port(io@, *p, ks@));
    s
}

fn missing_ports_message(io: &str, missing: &Vec<PortKey>) -> (s: String)
    ensures
        s@ == msg_missing_ports(io@, missing@),
{
    let mut s = String::new();
    s.append("Missing expected ");
    s.append(io);
    s.append(" port(s): `");
    let k = keys_string(missing);
    s.append(k.as_str());
    s.append("`.");
    assert(s@ =~= msg_missing_ports(io@, missing@));
    s
}

/// The port check of one side of an operator written at `span`: appends to
/// `diagnostics` what [`port_diags`] says of the ports `ports` that its edges
/// on that side use, in order.
pub fn emit_port_error(
    span: Span,
    declared: &Option<Vec<PortKey>>,
    ports: &Vec<&PortIndexValue>,
    io: &str,
    diagnostics: &mut Vec<crate::diagnostic::Diagnostic>,
)
    ensures
        crate::diagnostic::diag_views(final(diagnostics)@) == crate::diagnostic::diag_views(old(diagnostics)@)
            + port_diags(
            span,
            match declared {
                Some(ks) => Some(ks@),
                None => None,
            },
            ports@.map_values(|p: &PortIndexValue| *p),
            io@,
        ),
{
    let ghost d0 = crate::diagnostic::diag_views(diagnostics@);
    let ghost ps = ports@.map_values(|p: &PortIndexValue| *p);
    match declared {
        None => {
            assert(crate::diagnostic::diag_views(diagnostics@) =~= d0 + Seq::empty());
        },
        Some(ks) => {
            let mut j: usize = 0;
            while j < ports.len()
                invariant
                    j <= ports.len(),
                    ps == ports@.map_values(|p: &PortIndexValue| *p),
                    crate::diagnostic::diag_views(diagnostics@) == d0 + unexpected_diags(ks@, ps, io@, j as int),
                decreases ports.len() - j,
            {
                let p = ports[j];
                if !expected(ks, p) {
                    let m = unexpected_port_message(io, p, ks);
                    crate::flat_graph_builder::push_diag(
                        diagnostics,
                        crate::diagnostic::Diagnostic::spanned(p.span(), Level::Error, m),
                    );
                }
                j = j + 1;
                assert(crate::diagnostic::diag_views(diagnostics@) =~= d0 + unexpected_diags(ks@, ps, io@, j as int));
            }
            let ghost d1 = crate::diagnostic::diag_views(diagnostics@);
            let mut missing: Vec<PortKey> = Vec::new();
            let mut i: usize = 0;
            while i < ks.len()
                invariant
                    i <= ks.len(),
                    ps == ports@.map_values(|p: &PortIndexValue| *p),
                    missing@ == missing_keys(ks@.take(i as int), ps),
                decreases ks.len() - i,
            {
                proof {
                    let f = |k: PortKey| !is_used(k, ps);
                    ks@.take(i as int).lemma_filter_push(ks@[i as int], f);
                    assert(ks@.take(i + 1) =~= ks@.take(i as int).push(ks@[i as int]));
                }
                if !used(ks[i], ports) {
                    missing.push(ks[i]);
                }
                i = i + 1;
            }
            assert(ks@.take(i as int) =~= ks@);
            if missing.len() > 0 {
                let m = missing_ports_message(io, &missing);
                crate::flat_graph_builder::push_diag(
                    diagnostics,
                    crate::diagnostic::Diagnostic::spanned(span, Level::Error, m),
                );
            }
            assert(crate::diagnostic::diag_views(diagnostics@) =~= d0 + port_diags(span, Some(ks@), ps, io@));
        },
    }
}

/// Joins `items` with `sep` between consecutive items through itertools'
/// `Itertools::intersperse`, collected into one `String`.
///
/// Trusted: `intersperse` yields the first item, then the separator before each
/// later item, and collecting the yielded strings concatenates them in order;
/// that is the join that the contract states.
#[verifier::external_body]
fn intersperse_join(items: Vec<String>, sep: &str) -> (s: String)
    ensures
        s@ == seq_join(views(items@), sep@),
{
    itertools::Itertools::intersperse(items.into_iter(), sep.to_string()).collect::<String>()
}

} // verus!
