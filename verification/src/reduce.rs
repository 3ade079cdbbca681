//! What the code emitted for the `reduce` operator computes in one tick: the
//! items of the tick folded into an accumulator that starts as the first item.
//! With `'tick` persistence the accumulator starts afresh each tick; with
//! `'static` persistence it is remembered and later ticks fold into it.
use vstd::prelude::*;

verus! {

/// `r` is a possible result of folding `items`, in order, into `acc` with the
/// combining closure `f`.
pub open spec fn reduces_to<A, F: Fn(A, A) -> A>(f: F, acc: A, items: Seq<A>, r: A) -> bool
    decreases items.len(),
{
    if items.len() == 0 {
        r == acc
    } else {
        exists|mid: A|
            #[trigger] call_ensures(f, (acc, items[0]), mid) && reduces_to(f, mid, items.drop_first(), r)
    }
}

/// `out` is a possible output of one tick of a reduce whose remembered
/// accumulator was `state` and whose input in the tick was `items`: `None`
/// exactly when there was neither a remembered accumulator nor an item.
pub open spec fn reduce_outcome<A, F: Fn(A, A) -> A>(
    f: F,
    state: Option<A>,
    items: Seq<A>,
    out: Option<A>,
) -> bool {
    match state {
        Some(acc) => out matches Some(r) && reduces_to(f, acc, items, r),
        None => if items.len() == 0 {
            out is None
        } else {
            out matches Some(r) && reduces_to(f, items[0], items.drop_first(), r)
        },
    }
}

/// Folding `a + b` can end where folding `b` from an end of folding `a` ends.
pub proof fn lemma_reduces_to_append<A, F: Fn(A, A) -> A>(
    f: F,
    acc: A,
    a: Seq<A>,
    mid: A,
    b: Seq<A>,
    r: A,
)
    requires
        reduces_to(f, acc, a, mid),
        reduces_to(f, mid, b, r),
    ensures
        reduces_to(f, acc, a + b, r),
    decreases a.len(),
{
    if a.len() == 0 {
        assert(a + b =~= b);
    } else {
        let m = choose|m: A| #[trigger]
            call_ensures(f, (acc, a[0]), m) && reduces_to(f, m, a.drop_first(), mid);
        lemma_reduces_to_append(f, m, a.drop_first(), mid, b, r);
        assert((a + b).drop_first() =~= a.drop_first() + b);
        assert((a + b)[0] == a[0]);
    }
}

/// Folds `items` into `acc`, one after the other, with `f`.
fn fold_into<A, F: Fn(A, A) -> A>(acc: A, items: Vec<A>, f: &F) -> (r: A)
    requires
        forall|x: A, y: A| #[trigger] f.requires((x, y)),
    ensures
        reduces_to(*f, acc, items@, r),
{
    let ghost all = items@;
    let ghost start = acc;
    let mut acc = acc;
    let mut rest = items;
    while rest.len() > 0
        invariant
            forall|x: A, y: A| #[trigger] f.requires((x, y)),
            forall|r: A| #[trigger] reduces_to(*f, acc, rest@, r) ==> reduces_to(*f, start, all, r),
        decreases rest.len(),
    {
        let ghost before = rest@;
        let ghost acc_before = acc;
        let x = rest.remove(0);
        acc = f(acc, x);
        proof {
            assert(rest@ =~= before.drop_first());
            assert forall|r: A| #[trigger] reduces_to(*f, acc, rest@, r) implies reduces_to(
                *f,
                start,
                all,
                r,
            ) by {
                assert(call_ensures(*f, (acc_before, before[0]), acc));
                assert(reduces_to(*f, acc_before, before, r));
            }
        }
    }
    assert(reduces_to(*f, acc, rest@, acc));
    acc
}

/// One tick of `reduce::<'tick>`: the tick's items folded into the first of
/// them, or nothing when the tick brought no item.
pub fn reduce_tick<A, F: Fn(A, A) -> A>(items: Vec<A>, f: &F) -> (out: Option<A>)
    requires
        forall|x: A, y: A| #[trigger] f.requires((x, y)),
    ensures
        reduce_outcome(*f, None, items@, out),
{
    reduce_step(None, items, f)
}

/// One tick of `reduce::<'static>`: the tick's items folded into the
/// remembered accumulator `state` (or into the first item when nothing is
/// remembered yet). The result is both the tick's output and the accumulator
/// to remember for the next tick.
pub fn reduce_step<A, F: Fn(A, A) -> A>(state: Option<A>, items: Vec<A>, f: &F) -> (out: Option<
    A,
>)
    requires
        forall|x: A, y: A| #[trigger] f.requires((x, y)),
    ensures
        reduce_outcome(*f, state, items@, out),
{
    match state {
        Some(acc) => Some(fold_into(acc, items, f)),
        None => {
            let mut items = items;
            if items.len() == 0 {
                None
            } else {
                let ghost all = items@;
                let first = items.remove(0);
                assert(items@ =~= all.drop_first());
                Some(fold_into(first, items, f))
            }
        },
    }
}

/// With `'static` persistence, two ticks give what one tick would give on the
/// items of both: the output of the second tick, started from the first
/// tick's output, is a possible output of reducing the concatenated input.
pub proof fn lemma_static_accumulates<A, F: Fn(A, A) -> A>(
    f: F,
    state: Option<A>,
    first: Seq<A>,
    mid: Option<A>,
    second: Seq<A>,
    out: Option<A>,
)
    requires
        reduce_outcome(f, state, first, mid),
        reduce_outcome(f, mid, second, out),
    ensures
        reduce_outcome(f, state, first + second, out),
{
    match state {
        Some(acc) => {
            lemma_reduces_to_append(f, acc, first, mid->0, second, out->0);
        },
        None => {
            if first.len() == 0 {
                assert(first + second =~= second);
            } else {
                lemma_reduces_to_append(f, first[0], first.drop_first(), mid->0, second, out->0);
                assert((first + second).drop_first() =~= first.drop_first() + second);
                assert((first + second)[0] == first[0]);
            }
        },
    }
}

} // verus!
