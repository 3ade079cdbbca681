//! Chaining two pull pipelines: the items of the first, then those of the second.
use vstd::prelude::*;

use crate::handoff_list::{BasePortList, BasePortListSplit, RecvPortList, TypeList};

verus! {

/// The build half of a chained pull pipeline: it pulls from `prev_a` until it
/// is exhausted, then from `prev_b`.
pub struct ChainPullBuild<PrevA, PrevB> {
    prev_a: PrevA,
    prev_b: PrevB,
}

impl<PrevA, PrevB> ChainPullBuild<PrevA, PrevB> {
    /// The two builds that this one chains, first and second.
    pub closed spec fn parts(self) -> (PrevA, PrevB) {
        (self.prev_a, self.prev_b)
    }

    /// The build that chains `prev_a` and then `prev_b`.
    pub closed spec fn of(prev_a: PrevA, prev_b: PrevB) -> Self {
        ChainPullBuild { prev_a, prev_b }
    }

    /// A chained build is made of the builds it chains.
    pub proof fn lemma_parts_of(prev_a: PrevA, prev_b: PrevB)
        ensures
            Self::of(prev_a, prev_b).parts() == (prev_a, prev_b),
    {
    }

    /// Chains `prev_a` and then `prev_b`.
    pub fn new(prev_a: PrevA, prev_b: PrevB) -> (r: Self)
        ensures
            r == Self::of(prev_a, prev_b),
            r.parts() == (prev_a, prev_b),
    {
        Self { prev_a, prev_b }
    }
}

/// The surface half of a chained pull pipeline: `prev_a`, then `prev_b`.
pub struct ChainPullSurface<PrevA, PrevB> {
    prev_a: PrevA,
    prev_b: PrevB,
}

impl<PrevA, PrevB> ChainPullSurface<PrevA, PrevB> {
    /// The two surfaces that this one chains, first and second.
    pub closed spec fn parts(self) -> (PrevA, PrevB) {
        (self.prev_a, self.prev_b)
    }

    /// Chains `prev_a` and then `prev_b`.
    pub fn new(prev_a: PrevA, prev_b: PrevB) -> (r: Self)
        ensures
            r.parts() == (prev_a, prev_b),
    {
        Self { prev_a, prev_b }
    }
}

/// Appending the type list `Suffix` to a type list.
pub trait Extend<Suffix: TypeList>: TypeList {
    /// The list with `Suffix` appended.
    type Extended: TypeList;
}

impl<Suffix: TypeList> Extend<Suffix> for () {
    type Extended = Suffix;
}

impl<H, T: Extend<Suffix>, Suffix: TypeList> Extend<Suffix> for (H, T) {
    type Extended = (H, T::Extended);
}

/// The build half of a pull pipeline: given what it sees of its input
/// handoffs, it yields its items.
pub trait PullBuild: Sized {
    type ItemOut;
    type InputHandoffs: RecvPortList;

    /// The items that a build in this state yields from `input`.
    spec fn pulled<'a>(&self, input: <Self::InputHandoffs as BasePortList<false>>::Ctx<'a>) -> Seq<Self::ItemOut>;

    /// The state a build in this state is left in after yielding from `input`.
    spec fn after_pull<'a>(&self, input: <Self::InputHandoffs as BasePortList<false>>::Ctx<'a>) -> Self;

    /// The items yielded from `input`; the build is then left in the state
    /// that [`after_pull`](Self::after_pull) gives.
    fn build<'a>(&mut self, input: <Self::InputHandoffs as BasePortList<false>>::Ctx<'a>) -> (r: Vec<Self::ItemOut>)
        ensures
            r@ == old(self).pulled(input),
            *final(self) == old(self).after_pull(input),
    ;
}

impl<PrevA, PrevB> PullBuild for ChainPullBuild<PrevA, PrevB> where
    PrevA: PullBuild,
    PrevB: PullBuild<ItemOut = PrevA::ItemOut>,
    PrevA::InputHandoffs: Extend<PrevB::InputHandoffs>,
    <PrevA::InputHandoffs as Extend<PrevB::InputHandoffs>>::Extended: RecvPortList
        + BasePortListSplit<PrevA::InputHandoffs, false, Suffix = PrevB::InputHandoffs>,
 {
    type ItemOut = PrevA::ItemOut;
    type InputHandoffs = <PrevA::InputHandoffs as Extend<PrevB::InputHandoffs>>::Extended;

    /// The items of the first build on its part of `input`, then those of the
    /// second on the rest.
    open spec fn pulled<'a>(&self, input: <Self::InputHandoffs as BasePortList<false>>::Ctx<'a>) -> Seq<Self::ItemOut> {
        let (a, b) = choose|a: <PrevA::InputHandoffs as BasePortList<false>>::Ctx<'a>, b: <PrevB::InputHandoffs as BasePortList<false>>::Ctx<'a>|
            <Self::InputHandoffs as BasePortListSplit<PrevA::InputHandoffs, false>>::join_ctx(a, b) == input;
        self.parts().0.pulled(a) + self.parts().1.pulled(b)
    }

    /// Both builds, still in order, each left as its own pull leaves it.
    open spec fn after_pull<'a>(&self, input: <Self::InputHandoffs as BasePortList<false>>::Ctx<'a>) -> Self {
        let (a, b) = choose|a: <PrevA::InputHandoffs as BasePortList<false>>::Ctx<'a>, b: <PrevB::InputHandoffs as BasePortList<false>>::Ctx<'a>|
            <Self::InputHandoffs as BasePortListSplit<PrevA::InputHandoffs, false>>::join_ctx(a, b) == input;
        Self::of(self.parts().0.after_pull(a), self.parts().1.after_pull(b))
    }

    fn build<'a>(&mut self, input: <Self::InputHandoffs as BasePortList<false>>::Ctx<'a>) -> (r: Vec<Self::ItemOut>) {
        let (input_a, input_b) = <Self::InputHandoffs as BasePortListSplit<PrevA::InputHandoffs, false>>::split_ctx(input);
        proof {
            let (a, b) = choose|a: <PrevA::InputHandoffs as BasePortList<false>>::Ctx<'a>, b: <PrevB::InputHandoffs as BasePortList<false>>::Ctx<'a>|
                <Self::InputHandoffs as BasePortListSplit<PrevA::InputHandoffs, false>>::join_ctx(a, b) == input;
            <Self::InputHandoffs as BasePortListSplit<PrevA::InputHandoffs, false>>::lemma_join_ctx_injective(a, b, input_a, input_b);
        }
        let mut items = self.prev_a.build(input_a);
        let mut items_b = self.prev_b.build(input_b);
        items.append(&mut items_b);
        items
    }
}

/// What a chained build yields, stated through its two builds: on any input
/// made of a part `a` for the first build and a part `b` for the second, it
/// yields the first build's items on `a` followed by the second build's
/// items on `b`, and leaves both builds, in the same order, as their own
/// pulls leave them.
pub proof fn lemma_chain_pulls_first_then_second<PrevA, PrevB>(
    chain: ChainPullBuild<PrevA, PrevB>,
    a: <PrevA::InputHandoffs as BasePortList<false>>::Ctx<'_>,
    b: <PrevB::InputHandoffs as BasePortList<false>>::Ctx<'_>,
) where
    PrevA: PullBuild,
    PrevB: PullBuild<ItemOut = PrevA::ItemOut>,
    PrevA::InputHandoffs: Extend<PrevB::InputHandoffs>,
    <PrevA::InputHandoffs as Extend<PrevB::InputHandoffs>>::Extended: RecvPortList
        + BasePortListSplit<PrevA::InputHandoffs, false, Suffix = PrevB::InputHandoffs>,

    ensures
        ({
            let input = <<PrevA::InputHandoffs as Extend<PrevB::InputHandoffs>>::Extended as BasePortListSplit<
                PrevA::InputHandoffs,
                false,
            >>::join_ctx(a, b);
            &&& chain.pulled(input) == chain.parts().0.pulled(a) + chain.parts().1.pulled(b)
            &&& chain.after_pull(input).parts() == (chain.parts().0.after_pull(a), chain.parts().1.after_pull(b))
        }),
{
    let input = <<PrevA::InputHandoffs as Extend<PrevB::InputHandoffs>>::Extended as BasePortListSplit<
        PrevA::InputHandoffs,
        false,
    >>::join_ctx(a, b);
    let (a2, b2) = choose|a2: <PrevA::InputHandoffs as BasePortList<false>>::Ctx<'_>, b2: <PrevB::InputHandoffs as BasePortList<false>>::Ctx<'_>|
        <<PrevA::InputHandoffs as Extend<PrevB::InputHandoffs>>::Extended as BasePortListSplit<
            PrevA::InputHandoffs,
            false,
        >>::join_ctx(a2, b2) == input;
    <<PrevA::InputHandoffs as Extend<PrevB::InputHandoffs>>::Extended as BasePortListSplit<
        PrevA::InputHandoffs,
        false,
    >>::lemma_join_ctx_injective(a2, b2, a, b);
}

/// The connect half of two pull pipelines joined into one: the connect
/// halves of both, first and second.
pub struct BinaryPullConnect<PrevA, PrevB> {
    prev_a: PrevA,
    prev_b: PrevB,
}

impl<PrevA, PrevB> BinaryPullConnect<PrevA, PrevB> {
    /// The two connects that this one joins, first and second.
    pub closed spec fn parts(self) -> (PrevA, PrevB) {
        (self.prev_a, self.prev_b)
    }

    /// The connect that joins `prev_a` and `prev_b`.
    pub closed spec fn of(prev_a: PrevA, prev_b: PrevB) -> Self {
        BinaryPullConnect { prev_a, prev_b }
    }

    /// A joined connect is made of the connects it joins.
    pub proof fn lemma_parts_of(prev_a: PrevA, prev_b: PrevB)
        ensures
            Self::of(prev_a, prev_b).parts() == (prev_a, prev_b),
    {
    }

    /// Joins `prev_a` and `prev_b`.
    pub fn new(prev_a: PrevA, prev_b: PrevB) -> (r: Self)
        ensures
            r == Self::of(prev_a, prev_b),
            r.parts() == (prev_a, prev_b),
    {
        Self { prev_a, prev_b }
    }
}

/// The surface of a pull pipeline, which comes apart into the half that
/// connects it to its handoffs and the half that builds its items.
pub trait PullSurface: Sized {
    type ItemOut;
    type InputHandoffs;
    type Connect;
    type Build;

    /// The two halves this surface comes apart into.
    spec fn halves(self) -> (Self::Connect, Self::Build);

    /// Takes the surface apart into its connect and build halves.
    fn into_parts(self) -> (r: (Self::Connect, Self::Build))
        ensures
            r == self.halves(),
    ;
}

impl<PrevA, PrevB> PullSurface for ChainPullSurface<PrevA, PrevB> where
    PrevA: PullSurface,
    PrevB: PullSurface<ItemOut = PrevA::ItemOut>,
    PrevA::InputHandoffs: Extend<PrevB::InputHandoffs>,
    PrevB::InputHandoffs: TypeList,
 {
    type ItemOut = PrevA::ItemOut;
    type InputHandoffs = <PrevA::InputHandoffs as Extend<PrevB::InputHandoffs>>::Extended;
    type Connect = BinaryPullConnect<PrevA::Connect, PrevB::Connect>;
    type Build = ChainPullBuild<PrevA::Build, PrevB::Build>;

    /// The connect halves of both surfaces joined, and their build halves chained.
    open spec fn halves(self) -> (Self::Connect, Self::Build) {
        let (ca, ba) = self.parts().0.halves();
        let (cb, bb) = self.parts().1.halves();
        (BinaryPullConnect::of(ca, cb), ChainPullBuild::of(ba, bb))
    }

    fn into_parts(self) -> (r: (Self::Connect, Self::Build)) {
        let ChainPullSurface { prev_a, prev_b } = self;
        let (connect_a, build_a) = prev_a.into_parts();
        let (connect_b, build_b) = prev_b.into_parts();
        let connect = BinaryPullConnect::new(connect_a, connect_b);
        let build = ChainPullBuild::new(build_a, build_b);
        (connect, build)
    }
}

} // verus!
