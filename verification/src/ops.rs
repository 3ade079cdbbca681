//! Operator constraints: how many inputs, outputs and arguments an operator takes.
use vstd::prelude::*;

use crate::diagnostic::{diag, Diagnostic, Level, Span};
use crate::graph::{GraphEdgeType, Operator};
use crate::port_check::PortKey;
use crate::text::decimal;

verus! {

/// An inclusive range of counts; `None` leaves that side open.
#[derive(Clone, Copy, PartialEq, Eq, Debug, Structural)]
pub struct ArityRange {
    pub start: Option<usize>,
    pub end: Option<usize>,
}

impl ArityRange {
    pub open spec fn spec_contains(self, n: int) -> bool {
        &&& (self.start matches Some(s) ==> s <= n)
        &&& (self.end matches Some(e) ==> n <= e)
    }

    /// Whether `n` lies in the range.
    pub fn contains(&self, n: usize) -> (b: bool)
        ensures
            b == self.spec_contains(n as int),
    {
        let lo = match self.start {
            Some(s) => s <= n,
            None => true,
        };
        let hi = match self.end {
            Some(e) => n <= e,
            None => true,
        };
        lo && hi
    }

    /// The range that holds exactly `n`.
    pub open spec fn exactly(n: usize) -> ArityRange {
        ArityRange { start: Some(n), end: Some(n) }
    }

    /// Appends the words that describe the range (see [`range_text`]) to `out`.
    pub fn push_human_string(&self, out: &mut String)
        ensures
            final(out)@ == old(out)@ + range_text(*self),
    {
        match (self.start, self.end) {
            (None, None) => {
                out.append("any number of");
            },
            (Some(n), Some(x)) => {
                if n == x {
                    out.append("exactly ");
                    crate::text::push_decimal(out, n);
                } else {
                    out.append("at least ");
                    crate::text::push_decimal(out, n);
                    out.append(" and at most ");
                    crate::text::push_decimal(out, x);
                }
            },
            (Some(n), None) => {
                out.append("at least ");
                crate::text::push_decimal(out, n);
            },
            (None, Some(x)) => {
                out.append("at most ");
                crate::text::push_decimal(out, x);
            },
        }
        assert(final(out)@ =~= old(out)@ + range_text(*self));
    }
}

/// The words that describe a range in a message, such as `exactly 1`.
pub open spec fn range_text(r: ArityRange) -> Seq<char> {
    match (r.start, r.end) {
        (None, None) => "any number of"@,
        (Some(n), Some(x)) => if n == x {
            "exactly "@ + decimal(n as nat)
        } else {
            "at least "@ + decimal(n as nat) + " and at most "@ + decimal(x as nat)
        },
        (Some(n), None) => "at least "@ + decimal(n as nat),
        (None, Some(x)) => "at most "@ + decimal(x as nat),
    }
}

/// What an operator requires of its uses: its name, hard (error) and soft
/// (warning) ranges for its inputs and outputs, the number of arguments, the
/// allowed number of persistence and type arguments, and the types of the
/// edges it takes (`None`: any) and gives.
#[derive(Clone, Copy, Debug)]
pub struct OperatorConstraints {
    pub name: &'static str,
    pub hard_range_inn: ArityRange,
    pub soft_range_inn: ArityRange,
    pub hard_range_out: ArityRange,
    pub soft_range_out: ArityRange,
    pub num_args: usize,
    pub persistence_args: ArityRange,
    pub type_args: ArityRange,
    pub is_external_input: bool,
    pub input_edgetype: Option<GraphEdgeType>,
    pub output_edgetype: GraphEdgeType,
}

/// The constraints of `reduce`: one input, one output, one argument (the
/// combining closure), at most one persistence argument and no type
/// argument; it takes and gives value edges.
pub open spec fn spec_reduce() -> OperatorConstraints {
    OperatorConstraints {
        name: "reduce",
        hard_range_inn: ArityRange::exactly(1),
        soft_range_inn: ArityRange::exactly(1),
        hard_range_out: ArityRange::exactly(1),
        soft_range_out: ArityRange::exactly(1),
        num_args: 1,
        persistence_args: ArityRange { start: Some(0), end: Some(1) },
        type_args: ArityRange::exactly(0),
        is_external_input: false,
        input_edgetype: Some(GraphEdgeType::Value),
        output_edgetype: GraphEdgeType::Value,
    }
}

/// The constraints of the `reduce` operator.
pub fn reduce() -> (c: OperatorConstraints)
    ensures
        c == spec_reduce(),
{
    OperatorConstraints {
        name: "reduce",
        hard_range_inn: ArityRange { start: Some(1), end: Some(1) },
        soft_range_inn: ArityRange { start: Some(1), end: Some(1) },
        hard_range_out: ArityRange { start: Some(1), end: Some(1) },
        soft_range_out: ArityRange { start: Some(1), end: Some(1) },
        num_args: 1,
        persistence_args: ArityRange { start: Some(0), end: Some(1) },
        type_args: ArityRange { start: Some(0), end: Some(0) },
        is_external_input: false,
        input_edgetype: Some(GraphEdgeType::Value),
        output_edgetype: GraphEdgeType::Value,
    }
}

/// An operator with exactly `inn` inputs and `out` outputs (hard and soft
/// alike), `num_args` arguments, no persistence or type argument, that takes
/// and gives value edges.
pub open spec fn fixed_op(
    name: &'static str,
    inn: usize,
    out: usize,
    num_args: usize,
    is_external_input: bool,
) -> OperatorConstraints {
    OperatorConstraints {
        name,
        hard_range_inn: ArityRange::exactly(inn),
        soft_range_inn: ArityRange::exactly(inn),
        hard_range_out: ArityRange::exactly(out),
        soft_range_out: ArityRange::exactly(out),
        num_args,
        persistence_args: ArityRange::exactly(0),
        type_args: ArityRange::exactly(0),
        is_external_input,
        input_edgetype: Some(GraphEdgeType::Value),
        output_edgetype: GraphEdgeType::Value,
    }
}

fn make_fixed_op(
    name: &'static str,
    inn: usize,
    out: usize,
    num_args: usize,
    is_external_input: bool,
) -> (c: OperatorConstraints)
    ensures
        c == fixed_op(name, inn, out, num_args, is_external_input),
{
    OperatorConstraints {
        name,
        hard_range_inn: ArityRange { start: Some(inn), end: Some(inn) },
        soft_range_inn: ArityRange { start: Some(inn), end: Some(inn) },
        hard_range_out: ArityRange { start: Some(out), end: Some(out) },
        soft_range_out: ArityRange { start: Some(out), end: Some(out) },
        num_args,
        persistence_args: ArityRange { start: Some(0), end: Some(0) },
        type_args: ArityRange { start: Some(0), end: Some(0) },
        is_external_input,
        input_edgetype: Some(GraphEdgeType::Value),
        output_edgetype: GraphEdgeType::Value,
    }
}

/// The constraints of `tee`: one input, copied to any number of outputs (a
/// warning below two), no argument.
pub open spec fn spec_tee() -> OperatorConstraints {
    OperatorConstraints {
        hard_range_out: ArityRange { start: Some(0), end: None },
        soft_range_out: ArityRange { start: Some(2), end: None },
        ..fixed_op("tee", 1, 1, 0, false)
    }
}

/// The constraints of the operator named `name`, among the known operators:
/// `reduce`, `tee`, `spin` (no input), `source_stream`, `source_iter` and
/// `source_interval` (no input, one argument; the stream and the interval
/// take input from outside the flow), `dest_sink` (no output, one
/// argument), and the joins `join` and `anti_join` (see [`spec_join`]).
pub open spec fn op_constraints_named(name: Seq<char>) -> Option<OperatorConstraints> {
    if name == "reduce"@ {
        Some(spec_reduce())
    } else if name == "tee"@ {
        Some(spec_tee())
    } else if name == "spin"@ {
        Some(fixed_op("spin", 0, 1, 0, false))
    } else if name == "source_stream"@ {
        Some(fixed_op("source_stream", 0, 1, 1, true))
    } else if name == "source_iter"@ {
        Some(fixed_op("source_iter", 0, 1, 1, false))
    } else if name == "source_interval"@ {
        Some(fixed_op("source_interval", 0, 1, 1, true))
    } else if name == "dest_sink"@ {
        Some(fixed_op("dest_sink", 1, 0, 1, false))
    } else if name == "join"@ {
        Some(spec_join("join"))
    } else if name == "anti_join"@ {
        Some(OperatorConstraints { type_args: ArityRange::exactly(0), ..spec_join("anti_join") })
    } else {
        None
    }
}

/// The constraints of a join: two inputs, one output, no argument, at most
/// two persistence arguments and at most one type argument, on value edges.
pub open spec fn spec_join(name: &'static str) -> OperatorConstraints {
    OperatorConstraints {
        persistence_args: ArityRange { start: Some(0), end: Some(2) },
        type_args: ArityRange { start: Some(0), end: Some(1) },
        ..fixed_op(name, 2, 1, 0, false)
    }
}

/// The input and output ports that the operator named `name` declares, when
/// it declares a fixed list: `join` takes `0` and `1`, `anti_join` takes
/// `pos` and `neg`; no other known operator declares one.
pub open spec fn op_ports_named(name: Seq<char>) -> (Option<Seq<PortKey>>, Option<Seq<PortKey>>) {
    if name == "join"@ {
        (Some(seq![PortKey::Int(0), PortKey::Int(1)]), None)
    } else if name == "anti_join"@ {
        (Some(seq![PortKey::Path("pos"), PortKey::Path("neg")]), None)
    } else {
        (None, None)
    }
}

/// The view of an optional port list.
pub open spec fn ports_view(p: Option<Vec<PortKey>>) -> Option<Seq<PortKey>> {
    match p {
        Some(v) => Some(v@),
        None => None,
    }
}

/// Finds the input and output ports that an operator declares.
pub fn find_op_ports(operator: &Operator) -> (r: (Option<Vec<PortKey>>, Option<Vec<PortKey>>))
    ensures
        ports_view(r.0) == op_ports_named(operator.name@).0,
        ports_view(r.1) == op_ports_named(operator.name@).1,
{
    let name = &operator.name;
    if name_is(name, "join") {
        let mut v = Vec::new();
        v.push(PortKey::Int(0));
        v.push(PortKey::Int(1));
        assert(v@ =~= seq![PortKey::Int(0), PortKey::Int(1)]);
        (Some(v), None)
    } else if name_is(name, "anti_join") {
        let mut v = Vec::new();
        v.push(PortKey::Path("pos"));
        v.push(PortKey::Path("neg"));
        assert(v@ =~= seq![PortKey::Path("pos"), PortKey::Path("neg")]);
        (Some(v), None)
    } else {
        (None, None)
    }
}

/// Whether `name` reads `lit`.
fn name_is(name: &String, lit: &str) -> (b: bool)
    ensures
        b == (name@ == lit@),
{
    let l = String::from_str(lit);
    *name == l
}

/// Finds the constraints of an operator by its name.
pub fn find_op_op_constraints(operator: &Operator) -> (c: Option<OperatorConstraints>)
    ensures
        c == op_constraints_named(operator.name@),
{
    let name = &operator.name;
    if name_is(name, "reduce") {
        Some(reduce())
    } else if name_is(name, "tee") {
        let c = make_fixed_op("tee", 1, 1, 0, false);
        Some(
            OperatorConstraints {
                hard_range_out: ArityRange { start: Some(0), end: None },
                soft_range_out: ArityRange { start: Some(2), end: None },
                ..c
            },
        )
    } else if name_is(name, "spin") {
        Some(make_fixed_op("spin", 0, 1, 0, false))
    } else if name_is(name, "source_stream") {
        Some(make_fixed_op("source_stream", 0, 1, 1, true))
    } else if name_is(name, "source_iter") {
        Some(make_fixed_op("source_iter", 0, 1, 1, false))
    } else if name_is(name, "source_interval") {
        Some(make_fixed_op("source_interval", 0, 1, 1, true))
    } else if name_is(name, "dest_sink") {
        Some(make_fixed_op("dest_sink", 1, 0, 1, false))
    } else if name_is(name, "join") {
        let c = make_fixed_op("join", 2, 1, 0, false);
        Some(
            OperatorConstraints {
                persistence_args: ArityRange { start: Some(0), end: Some(2) },
                type_args: ArityRange { start: Some(0), end: Some(1) },
                ..c
            },
        )
    } else if name_is(name, "anti_join") {
        let c = make_fixed_op("anti_join", 2, 1, 0, false);
        Some(OperatorConstraints { persistence_args: ArityRange { start: Some(0), end: Some(2) }, ..c })
    } else {
        None
    }
}

/// How long the data of a stateful operator is kept: within one tick, across
/// all ticks, or mutably.
#[derive(Clone, Copy, PartialEq, Eq, Debug, Structural)]
pub enum Persistence {
    Tick,
    Static,
    Mutable,
}

/// The persistence that `reduce` runs with: `'tick` when none is given;
/// `'mutable` has no implementation and is reported as an error at `op_span`.
pub fn reduce_persistence(
    persistence_args: &Vec<Persistence>,
    op_span: Span,
    diagnostics: &mut Vec<Diagnostic>,
) -> (r: Result<Persistence, ()>)
    requires
        persistence_args.len() <= 1,
    ensures
        persistence_args.len() == 0 ==> r == Ok::<Persistence, ()>(Persistence::Tick)
            && final(diagnostics)@ == old(diagnostics)@,
        persistence_args.len() == 1 && persistence_args[0] != Persistence::Mutable ==> r == Ok::<
            Persistence,
            (),
        >(persistence_args[0]) && final(diagnostics)@ == old(diagnostics)@,
        persistence_args.len() == 1 && persistence_args[0] == Persistence::Mutable ==> r == Err::<
            Persistence,
            (),
        >(()) && final(diagnostics)@.len() == old(diagnostics)@.len() + 1 && final(diagnostics)@.drop_last() == old(diagnostics)@ && final(diagnostics)@.last()@ == diag(
            op_span,
            Level::Error,
            "An implementation of 'mutable does not exist"@,
        ),
{
    let persistence = if persistence_args.len() == 0 {
        Persistence::Tick
    } else {
        persistence_args[0]
    };
    match persistence {
        Persistence::Mutable => {
            let mut message = String::new();
            message.append("An implementation of 'mutable does not exist");
            assert(message@ =~= "An implementation of 'mutable does not exist"@);
            diagnostics.push(Diagnostic::spanned(op_span, Level::Error, message));
            assert(diagnostics@.drop_last() =~= old(diagnostics)@);
            Err(())
        },
        p => Ok(p),
    }
}

} // verus!
