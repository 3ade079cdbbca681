//! The texts of the diagnostics that building a flat graph reports.
use vstd::prelude::*;

use crate::diagnostic::{pretty_span, push_pretty_span, Span};
use crate::text::{decimal, push_decimal, seq_join};

verus! {

pub open spec fn msg_name_conflict_first(name: Seq<char>, prev: Span) -> Seq<char> {
    "Name assignment to `"@ + name + "` conflicts with existing assignment: "@ + pretty_span(prev)
        + " (1/2)"@
}

pub open spec fn msg_name_conflict_second(name: Seq<char>, later: Span) -> Seq<char> {
    "Existing assignment to `"@ + name + "` conflicts with later assignment: "@ + pretty_span(
        later,
    ) + " (2/2)"@
}

pub open spec fn msg_mod_outside_module() -> Seq<char> {
    "`mod` is only usable inside of a module."@
}

pub open spec fn msg_index_overwritten(io: Seq<char>, other: Span) -> Seq<char> {
    "Indexing on "@ + io + " is overwritten below ("@ + pretty_span(other) + ") (1/2)."@
}

pub open spec fn msg_already_indexed(io: Seq<char>, og: Span) -> Seq<char> {
    "Cannot index on already-indexed "@ + io + ", previously indexed above ("@ + pretty_span(og)
        + ") (2/2)."@
}

pub open spec fn msg_name_never_assigned(name: Seq<char>) -> Seq<char> {
    "Cannot find name `"@ + name + "`; name was never assigned."@
}

pub open spec fn msg_name_cycle(name: Seq<char>, i: nat, len: nat) -> Seq<char> {
    "Name `"@ + name + "` forms or references an illegal self-referential cycle ("@ + decimal(i)
        + "/"@ + decimal(len) + ")."@
}

pub open spec fn msg_recursion_limit(names: Seq<Seq<char>>) -> Seq<char> {
    "Reached the recursion limit 1024 while resolving names. This is either a hydroflow bug or you have an absurdly long chain of names: `"@
        + seq_join(names, "` -> `"@) + "`."@
}

pub open spec fn msg_conflict_below(inout: Seq<char>, new: Span) -> Seq<char> {
    inout + " connection conflicts with below ("@ + pretty_span(new) + ") (1/2)"@
}

pub open spec fn msg_conflict_above(inout: Seq<char>, old: Span) -> Seq<char> {
    inout + " connection conflicts with above ("@ + pretty_span(old) + ") (2/2)"@
}

pub open spec fn msg_unknown_operator(name: Seq<char>) -> Seq<char> {
    "Unknown operator `"@ + name + "`"@
}

pub open spec fn msg_wrong_arg_count(expected: nat, found: nat) -> Seq<char> {
    "expected "@ + decimal(expected) + " argument(s), found "@ + decimal(found)
}

pub open spec fn msg_no_edge_type() -> Seq<char> {
    "Operator input has no edge type, this is a Hydroflow bug."@
}

pub open spec fn msg_edge_type_mismatch(expected: Seq<char>, actual: Seq<char>) -> Seq<char> {
    "Operator requires a "@ + expected + " edge type input, but received a "@ + actual
        + " edge type input."@
}

/// The message for an imported file that could not be read.
pub open spec fn msg_import_unreadable(filename: Seq<char>, err: Seq<char>) -> Seq<char> {
    "filename: "@ + filename + ", err: "@ + err
}

pub fn import_unreadable(filename: &str, err: &str) -> (s: String)
    ensures
        s@ == msg_import_unreadable(filename@, err@),
{
    let mut s = String::new();
    s.append("filename: ");
    s.append(filename);
    s.append(", err: ");
    s.append(err);
    assert(s@ =~= msg_import_unreadable(filename@, err@));
    s
}

pub fn name_conflict_first(name: &str, prev: Span) -> (s: String)
    ensures
        s@ == msg_name_conflict_first(name@, prev),
{
    let mut s = String::new();
    s.append("Name assignment to `");
    s.append(name);
    s.append("` conflicts with existing assignment: ");
    push_pretty_span(&mut s, prev);
    s.append(" (1/2)");
    assert(s@ =~= msg_name_conflict_first(name@, prev));
    s
}

pub fn name_conflict_second(name: &str, later: Span) -> (s: String)
    ensures
        s@ == msg_name_conflict_second(name@, later),
{
    let mut s = String::new();
    s.append("Existing assignment to `");
    s.append(name);
    s.append("` conflicts with later assignment: ");
    push_pretty_span(&mut s, later);
    s.append(" (2/2)");
    assert(s@ =~= msg_name_conflict_second(name@, later));
    s
}

pub fn mod_outside_module() -> (s: String)
    ensures
        s@ == msg_mod_outside_module(),
{
    let mut s = String::new();
    s.append("`mod` is only usable inside of a module.");
    assert(s@ =~= msg_mod_outside_module());
    s
}

pub fn index_overwritten(io: &str, other: Span) -> (s: String)
    ensures
        s@ == msg_index_overwritten(io@, other),
{
    let mut s = String::new();
    s.append("Indexing on ");
    s.append(io);
    s.append(" is overwritten below (");
    push_pretty_span(&mut s, other);
    s.append(") (1/2).");
    assert(s@ =~= msg_index_overwritten(io@, other));
    s
}

pub fn already_indexed(io: &str, og: Span) -> (s: String)
    ensures
        s@ == msg_already_indexed(io@, og),
{
    let mut s = String::new();
    s.append("Cannot index on already-indexed ");
    s.append(io);
    s.append(", previously indexed above (");
    push_pretty_span(&mut s, og);
    s.append(") (2/2).");
    assert(s@ =~= msg_already_indexed(io@, og));
    s
}

pub fn name_never_assigned(name: &str) -> (s: String)
    ensures
        s@ == msg_name_never_assigned(name@),
{
    let mut s = String::new();
    s.append("Cannot find name `");
    s.append(name);
    s.append("`; name was never assigned.");
    assert(s@ =~= msg_name_never_assigned(name@));
    s
}

pub fn name_cycle(name: &str, i: usize, len: usize) -> (s: String)
    ensures
        s@ == msg_name_cycle(name@, i as nat, len as nat),
{
    let mut s = String::new();
    s.append("Name `");
    s.append(name);
    s.append("` forms or references an illegal self-referential cycle (");
    push_decimal(&mut s, i);
    s.append("/");
    push_decimal(&mut s, len);
    s.append(").");
    assert(s@ =~= msg_name_cycle(name@, i as nat, len as nat));
    s
}

pub fn recursion_limit(names: &Vec<String>) -> (s: String)
    ensures
        s@ == msg_recursion_limit(crate::text::views(names@)),
{
    let joined = crate::text::join_strings(names, "` -> `");
    let mut s = String::new();
    s.append(
        "Reached the recursion limit 1024 while resolving names. This is either a hydroflow bug or you have an absurdly long chain of names: `",
    );
    s.append(joined.as_str());
    s.append("`.");
    assert(s@ =~= msg_recursion_limit(crate::text::views(names@)));
    s
}

pub fn conflict_below(inout: &str, new: Span) -> (s: String)
    ensures
        s@ == msg_conflict_below(inout@, new),
{
    let mut s = String::new();
    s.append(inout);
    s.append(" connection conflicts with below (");
    push_pretty_span(&mut s, new);
    s.append(") (1/2)");
    assert(s@ =~= msg_conflict_below(inout@, new));
    s
}

pub fn conflict_above(inout: &str, old: Span) -> (s: String)
    ensures
        s@ == msg_conflict_above(inout@, old),
{
    let mut s = String::new();
    s.append(inout);
    s.append(" connection conflicts with above (");
    push_pretty_span(&mut s, old);
    s.append(") (2/2)");
    assert(s@ =~= msg_conflict_above(inout@, old));
    s
}

pub fn unknown_operator(name: &String) -> (s: String)
    ensures
        s@ == msg_unknown_operator(name@),
{
    let mut s = String::new();
    s.append("Unknown operator `");
    s.append(name);
    s.append("`");
    assert(s@ =~= msg_unknown_operator(name@));
    s
}

pub fn wrong_arg_count(expected: usize, found: usize) -> (s: String)
    ensures
        s@ == msg_wrong_arg_count(expected as nat, found as nat),
{
    let mut s = String::new();
    s.append("expected ");
    push_decimal(&mut s, expected);
    s.append(" argument(s), found ");
    push_decimal(&mut s, found);
    assert(s@ =~= msg_wrong_arg_count(expected as nat, found as nat));
    s
}

pub fn no_edge_type() -> (s: String)
    ensures
        s@ == msg_no_edge_type(),
{
    let mut s = String::new();
    s.append("Operator input has no edge type, this is a Hydroflow bug.");
    assert(s@ =~= msg_no_edge_type());
    s
}

pub fn edge_type_mismatch(expected: &str, actual: &str) -> (s: String)
    ensures
        s@ == msg_edge_type_mismatch(expected@, actual@),
{
    let mut s = String::new();
    s.append("Operator requires a ");
    s.append(expected);
    s.append(" edge type input, but received a ");
    s.append(actual);
    s.append(" edge type input.");
    assert(s@ =~= msg_edge_type_mismatch(expected@, actual@));
    s
}

} // verus!
