//! Lattice merge (join) and the orders derived from it.
use std::cmp::Ordering;
use vstd::prelude::*;

verus! {

/// Trait for lattice merge (AKA "join" or "least upper bound").
pub trait Merge<Other>: Sized {
    /// The value of `self` after `other` is merged into it.
    spec fn merged(self, other: Other) -> Self;

    /// Merge `other` into the `self` lattice.
    ///
    /// This operation must be associative, commutative, and idempotent.
    ///
    /// Returns `true` if `self` changed, `false` otherwise.
    /// Returning `true` implies that the new value for `self` is later in the lattice order than
    /// the old value. Returning `false` means that `self` was unchanged and therefore `other` came
    /// before `self` (or the two are equal) in the lattice order.
    fn merge(&mut self, other: Other) -> (changed: bool)
        ensures
            *final(self) == old(self).merged(other),
            changed == (*final(self) != *old(self)),
    ;

    /// Merge `this` and `delta` together, returning the new value.
    fn merge_owned(this: Self, delta: Other) -> (r: Self)
        ensures
            r == this.merged(delta),
    {
        let mut this = this;
        Self::merge(&mut this, delta);
        this
    }
}

/// The laws that the merge of a lattice with itself must obey: it is
/// associative, commutative and idempotent. Each implementation proves them
/// of its own `merged`.
pub trait MergeLaws: Merge<Self> + Sized {
    /// Merging is associative.
    proof fn lemma_merge_associative(a: Self, b: Self, c: Self)
        ensures
            a.merged(b).merged(c) == a.merged(b.merged(c)),
    ;

    /// Merging is commutative.
    proof fn lemma_merge_commutative(a: Self, b: Self)
        ensures
            a.merged(b) == b.merged(a),
    ;

    /// Merging a value into itself changes nothing.
    proof fn lemma_merge_idempotent(a: Self)
        ensures
            a.merged(a) == a,
    ;
}

/// The lattice order: `a` comes before `b` (or equals it) when merging `a`
/// into `b` leaves `b` as it is.
pub open spec fn lattice_le<T: Merge<T>>(a: T, b: T) -> bool {
    b.merged(a) == b
}

/// What merging does in a lattice: the new value comes after both the old
/// value and what was merged in; and a merge that leaves the value unchanged
/// (returns `false`) means that what was merged in came before it.
pub proof fn lemma_merge_moves_up<T: MergeLaws>(old: T, other: T)
    ensures
        lattice_le(old, old.merged(other)),
        lattice_le(other, old.merged(other)),
        old.merged(other) == old ==> lattice_le(other, old),
{
    let m = old.merged(other);
    T::lemma_merge_associative(old, other, old);
    T::lemma_merge_commutative(other, old);
    T::lemma_merge_associative(old, old, other);
    T::lemma_merge_idempotent(old);
    T::lemma_merge_commutative(old, other);
    T::lemma_merge_associative(old, other, other);
    T::lemma_merge_idempotent(other);
    // m.merged(old) == old.merged(other).merged(old) == old.merged(other.merged(old))
    //   == old.merged(old.merged(other)) == old.merged(old).merged(other) == m.
    assert(m.merged(old) == old.merged(other.merged(old)));
    assert(old.merged(m) == old.merged(old).merged(other));
    // m.merged(other) == old.merged(other.merged(other)) == m.
}

/// The order that [`NaiveLatticeOrd::naive_cmp`] gives for `a` and `b` when
/// clones equal their originals.
pub open spec fn naive_order_of<T: Merge<T>>(a: T, b: T) -> Option<Ordering> {
    naive_order(a.merged(b) != a, b.merged(a) != b)
}

/// The naive order reverses when its arguments swap; a value is `Equal` to
/// itself; and `Less` means before in the lattice order (and not equal).
pub proof fn lemma_naive_order_laws<T: MergeLaws>(a: T, b: T)
    ensures
        naive_order_of(b, a) == reversed(naive_order_of(a, b)),
        naive_order_of(a, a) == Some(Ordering::Equal),
        naive_order_of(a, b) == Some(Ordering::Less) ==> lattice_le(a, b) && a != b,
        naive_order_of(a, b) == Some(Ordering::Equal) ==> a == b,
{
    T::lemma_merge_idempotent(a);
    T::lemma_merge_commutative(a, b);
}

/// Trait for lattice partial order comparison.
/// `PartialOrd` is implemented for many things; this trait can be used to require the type be a lattice.
pub trait LatticeOrd<Rhs = Self>: PartialOrd<Rhs> {
}

/// The order that two merges reveal: `a_changed` tells whether merging the
/// right value into the left one changed it, `b_changed` the other way round.
/// Both changing means the two are incomparable.
pub open spec fn naive_order(a_changed: bool, b_changed: bool) -> Option<Ordering> {
    if a_changed && b_changed {
        None
    } else if a_changed {
        Some(Ordering::Less)
    } else if b_changed {
        Some(Ordering::Greater)
    } else {
        Some(Ordering::Equal)
    }
}

/// The reverse of an order.
pub open spec fn reversed(o: Option<Ordering>) -> Option<Ordering> {
    match o {
        Some(Ordering::Less) => Some(Ordering::Greater),
        Some(Ordering::Greater) => Some(Ordering::Less),
        other => other,
    }
}

/// Comparing the other way round gives the reverse order.
pub proof fn lemma_naive_order_reverse(a_changed: bool, b_changed: bool)
    ensures
        naive_order(b_changed, a_changed) == reversed(naive_order(a_changed, b_changed)),
{
}

/// Naive lattice compare, based on the [`Merge::merge`] function.
pub trait NaiveLatticeOrd<Rhs = Self> where Self: Clone + Merge<Rhs> + Sized, Rhs: Clone + Merge<Self> {
    /// Naive compare based on the [`Merge::merge`] method: `self` is less than
    /// `other` when merging `other` into `self` changes it but merging `self`
    /// into `other` does not, and so on (see [`naive_order`]). The merges are
    /// made on clones; where clones equal their originals, the result is the
    /// order of the two merges of the values themselves.
    fn naive_cmp(&self, other: &Rhs) -> (r: Option<Ordering>)
        ensures
            exists|self_a: Self, other_a: Rhs, self_b: Self, other_b: Rhs|
                {
                    &&& cloned(*self, self_a)
                    &&& cloned(*other, other_a)
                    &&& cloned(*self, self_b)
                    &&& cloned(*other, other_b)
                    &&& r == naive_order(
                        self_a.merged(other_a) != self_a,
                        other_b.merged(self_b) != other_b,
                    )
                },
            (forall|a: Self, b: Self| cloned(a, b) ==> a == b) && (forall|a: Rhs, b: Rhs|
                cloned(a, b) ==> a == b) ==> r == naive_order(
                self.merged(*other) != *self,
                other.merged(*self) != *other,
            ),
    {
        let mut self_a = self.clone();
        let other_a = other.clone();
        let self_b = self.clone();
        let mut other_b = other.clone();
        let ghost (sa, oa, sb, ob) = (self_a, other_a, self_b, other_b);
        let a_changed = self_a.merge(other_a);
        let b_changed = other_b.merge(self_b);
        let r = match (a_changed, b_changed) {
            (true, true) => None,
            (true, false) => Some(Ordering::Less),
            (false, true) => Some(Ordering::Greater),
            (false, false) => Some(Ordering::Equal),
        };
        assert(cloned(*self, sa) && cloned(*other, oa) && cloned(*self, sb) && cloned(*other, ob));
        r
    }
}

impl<This, Other> NaiveLatticeOrd<Other> for This where This: Clone + Merge<Other>, Other: Clone + Merge<This> {

}

/// Same as `From` but for lattices.
///
/// This should only be implemented between different representations of the same lattice type.
/// This should recursively convert nested lattice types, but not non-lattice ("scalar") types.
pub trait LatticeFrom<Other> {
    /// Convert from the `Other` lattice into `Self`.
    fn lattice_from(other: Other) -> Self where Self: Sized;
}

} // verus!
