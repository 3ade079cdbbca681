//! Type-level lists of handoff ports, and the graph metadata they record.
use std::marker::PhantomData;
use vstd::prelude::*;

verus! {

/// The id of a handoff: its position among the graph's handoffs.
pub type HandoffId = usize;

/// The id of a subgraph.
pub type SubgraphId = usize;

/// A type-level list, written as nested pairs ending in `()`.
pub trait TypeList {
}

impl TypeList for () {
}

impl<H, T: TypeList> TypeList for (H, T) {
}

/// A handoff: a buffer that carries data between subgraphs.
pub trait Handoff: 'static {
}

/// What the graph records about a handoff: the subgraphs that send into it
/// (`preds`) and those that receive from it (`succs`).
#[derive(Debug)]
pub struct HandoffData {
    pub preds: Vec<SubgraphId>,
    pub succs: Vec<SubgraphId>,
}

/// The mathematical value of a [`HandoffData`].
pub struct HandoffDataView {
    pub preds: Seq<SubgraphId>,
    pub succs: Seq<SubgraphId>,
}

impl View for HandoffData {
    type V = HandoffDataView;

    open spec fn view(&self) -> HandoffDataView {
        HandoffDataView { preds: self.preds@, succs: self.succs@ }
    }
}

/// The views of a list of handoffs.
pub open spec fn handoff_views(hs: Seq<HandoffData>) -> Seq<HandoffDataView> {
    hs.map_values(|h: HandoffData| h@)
}

/// A port of a subgraph on the handoff `handoff_id`: a send port when `S`
/// is true, a receive port otherwise.
pub struct BasePort<H, const S: bool> {
    pub handoff_id: HandoffId,
    pub _marker: PhantomData<H>,
}

/// What a subgraph sees of one handoff through a port.
pub struct BaseCtx<H, const S: bool> {
    pub handoff: H,
}

/// Records `pred` and `succ` (when given) on the handoff `id`.
pub open spec fn attach(hs: Seq<HandoffDataView>, id: int, pred: Option<SubgraphId>, succ: Option<SubgraphId>) -> Seq<
    HandoffDataView,
> {
    let h = hs[id];
    let preds = match pred {
        Some(p) => h.preds.push(p),
        None => h.preds,
    };
    let succs = match succ {
        Some(s) => h.succs.push(s),
        None => h.succs,
    };
    hs.update(id, HandoffDataView { preds, succs })
}

/// Records `pred` and `succ` on each handoff of `ids`, in order.
pub open spec fn attach_all(hs: Seq<HandoffDataView>, ids: Seq<HandoffId>, pred: Option<SubgraphId>, succ: Option<
    SubgraphId,
>) -> Seq<HandoffDataView>
    decreases ids.len(),
{
    if ids.len() == 0 {
        hs
    } else {
        attach_all(attach(hs, ids[0] as int, pred, succ), ids.drop_first(), pred, succ)
    }
}

/// Recording the subgraphs on a list of handoffs: the sending subgraph `pred`
/// goes only to the senders (`preds`) and the receiving subgraph `succ` only
/// to the receivers (`succs`). So the senders recorded do not depend on
/// `succ`, nor the receivers on `pred`; with no sender given the senders stay
/// as they were, and with no receiver given the receivers do; and recording
/// on one handoff appends `succ` to its receivers and `pred` to its senders.
pub proof fn lemma_attach_all_keeps_roles(
    hs: Seq<HandoffDataView>,
    ids: Seq<HandoffId>,
    pred: Option<SubgraphId>,
    succ: Option<SubgraphId>,
)
    requires
        forall|i: int| 0 <= i < ids.len() ==> #[trigger] ids[i] < hs.len(),
    ensures
        attach_all(hs, ids, pred, succ).len() == hs.len(),
        forall|h: int|
            0 <= h < hs.len() ==> (#[trigger] attach_all(hs, ids, pred, succ)[h]).preds == attach_all(
                hs,
                ids,
                pred,
                None,
            )[h].preds,
        forall|h: int|
            0 <= h < hs.len() ==> (#[trigger] attach_all(hs, ids, pred, succ)[h]).succs == attach_all(
                hs,
                ids,
                None,
                succ,
            )[h].succs,
        forall|h: int| 0 <= h < hs.len() ==> (#[trigger] attach_all(hs, ids, None, succ)[h]).preds == hs[h].preds,
        forall|h: int| 0 <= h < hs.len() ==> (#[trigger] attach_all(hs, ids, pred, None)[h]).succs == hs[h].succs,
    decreases ids.len(),
{
    if ids.len() > 0 {
        let id = ids[0] as int;
        let h1 = attach(hs, id, pred, succ);
        let h2 = attach(hs, id, pred, None);
        let h3 = attach(hs, id, None, succ);
        let rest = ids.drop_first();
        assert forall|i: int| 0 <= i < rest.len() implies #[trigger] rest[i] < hs.len() by {
            assert(rest[i] == ids[i + 1]);
        }
        lemma_attach_all_keeps_roles(h1, rest, pred, succ);
        lemma_attach_all_keeps_roles(h2, rest, pred, None);
        lemma_attach_all_keeps_roles(h3, rest, None, succ);
        lemma_attach_all_keeps_roles(h2, rest, pred, succ);
        lemma_attach_all_keeps_roles(h3, rest, pred, succ);
        let hn = attach(hs, id, None, None);
        assert(hn =~= hs);
        lemma_attach_all_keeps_roles(h3, rest, None, None);
        lemma_attach_all_keeps_roles(h2, rest, None, None);
        assert forall|h: int| 0 <= h < hs.len() implies (#[trigger] attach_all(hs, ids, pred, succ)[h]).preds
            == attach_all(hs, ids, pred, None)[h].preds by {
            assert(h1[h].preds == h2[h].preds);
            lemma_attach_all_pred_only(h1, h2, rest, pred, succ, h);
        }
        assert forall|h: int| 0 <= h < hs.len() implies (#[trigger] attach_all(hs, ids, pred, succ)[h]).succs
            == attach_all(hs, ids, None, succ)[h].succs by {
            assert(h1[h].succs == h3[h].succs);
            lemma_attach_all_succ_only(h1, h3, rest, pred, succ, h);
        }
    }
}

/// Handoff lists that agree on the senders of handoff `h` still agree after
/// the same recording, whatever receiver each records.
proof fn lemma_attach_all_pred_only(
    a: Seq<HandoffDataView>,
    b: Seq<HandoffDataView>,
    ids: Seq<HandoffId>,
    pred: Option<SubgraphId>,
    succ: Option<SubgraphId>,
    h: int,
)
    requires
        a.len() == b.len(),
        0 <= h < a.len(),
        a[h].preds == b[h].preds,
        forall|i: int| 0 <= i < ids.len() ==> #[trigger] ids[i] < a.len(),
    ensures
        attach_all(a, ids, pred, succ)[h].preds == attach_all(b, ids, pred, None)[h].preds,
    decreases ids.len(),
{
    if ids.len() > 0 {
        let rest = ids.drop_first();
        assert forall|i: int| 0 <= i < rest.len() implies #[trigger] rest[i] < a.len() by {
            assert(rest[i] == ids[i + 1]);
        }
        let a1 = attach(a, ids[0] as int, pred, succ);
        let b1 = attach(b, ids[0] as int, pred, None);
        lemma_attach_all_pred_only(a1, b1, rest, pred, succ, h);
    }
}

/// Handoff lists that agree on the receivers of handoff `h` still agree
/// after the same recording, whatever sender each records.
proof fn lemma_attach_all_succ_only(
    a: Seq<HandoffDataView>,
    b: Seq<HandoffDataView>,
    ids: Seq<HandoffId>,
    pred: Option<SubgraphId>,
    succ: Option<SubgraphId>,
    h: int,
)
    requires
        a.len() == b.len(),
        0 <= h < a.len(),
        a[h].succs == b[h].succs,
        forall|i: int| 0 <= i < ids.len() ==> #[trigger] ids[i] < a.len(),
    ensures
        attach_all(a, ids, pred, succ)[h].succs == attach_all(b, ids, None, succ)[h].succs,
    decreases ids.len(),
{
    if ids.len() > 0 {
        let rest = ids.drop_first();
        assert forall|i: int| 0 <= i < rest.len() implies #[trigger] rest[i] < a.len() by {
            assert(rest[i] == ids[i + 1]);
        }
        let a1 = attach(a, ids[0] as int, pred, succ);
        let b1 = attach(b, ids[0] as int, None, succ);
        lemma_attach_all_succ_only(a1, b1, rest, pred, succ, h);
    }
}

/// Recording on the one handoff `id`: `succ` (when given) is appended to its
/// receivers and `pred` (when given) to its senders; every other handoff is
/// left as it was.
pub proof fn lemma_attach_one(hs: Seq<HandoffDataView>, id: HandoffId, pred: Option<SubgraphId>, succ: Option<SubgraphId>)
    requires
        id < hs.len(),
    ensures
        attach_all(hs, seq![id], pred, succ)[id as int].preds == match pred {
            Some(p) => hs[id as int].preds.push(p),
            None => hs[id as int].preds,
        },
        attach_all(hs, seq![id], pred, succ)[id as int].succs == match succ {
            Some(s) => hs[id as int].succs.push(s),
            None => hs[id as int].succs,
        },
        forall|h: int| 0 <= h < hs.len() && h != id ==> #[trigger] attach_all(hs, seq![id], pred, succ)[h] == hs[h],
{
    let ids = seq![id];
    assert(ids.drop_first() =~= Seq::<HandoffId>::empty());
    assert(ids[0] == id);
    let a = attach(hs, id as int, pred, succ);
    assert(attach_all(a, ids.drop_first(), pred, succ) == a);
    assert(attach_all(hs, ids, pred, succ) == a);
}

/// A list of send ports (`S` true) or receive ports (`S` false).
pub trait BasePortList<const S: bool>: TypeList {
    /// The handoffs of the ports, in order.
    spec fn handoff_ids(&self) -> Seq<HandoffId>;

    /// Records, on each port's handoff, the subgraph `pred` that sends into it
    /// and the subgraph `succ` that receives from it (when given), and appends
    /// the handoff ids to `out_handoff_ids`.
    fn set_graph_meta(
        &self,
        handoffs: &mut [HandoffData],
        pred: Option<SubgraphId>,
        succ: Option<SubgraphId>,
        out_handoff_ids: &mut Vec<HandoffId>,
    )
        requires
            forall|i: int| 0 <= i < self.handoff_ids().len() ==> self.handoff_ids()[i] < old(handoffs)@.len(),
        ensures
            final(out_handoff_ids)@ == old(out_handoff_ids)@ + self.handoff_ids(),
            handoff_views(final(handoffs)@) == attach_all(
                handoff_views(old(handoffs)@),
                self.handoff_ids(),
                pred,
                succ,
            ),
    ;

    /// What the subgraph sees of the handoffs of the list.
    type Ctx<'a>: TypeList;
}

impl<Rest, H, const S: bool> BasePortList<S> for (BasePort<H, S>, Rest) where H: Handoff, Rest: BasePortList<S> {
    open spec fn handoff_ids(&self) -> Seq<HandoffId> {
        seq![self.0.handoff_id] + self.1.handoff_ids()
    }

    fn set_graph_meta(
        &self,
        handoffs: &mut [HandoffData],
        pred: Option<SubgraphId>,
        succ: Option<SubgraphId>,
        out_handoff_ids: &mut Vec<HandoffId>,
    ) {
        let (this, rest) = self;
        out_handoff_ids.push(this.handoff_id);
        let ghost before = handoff_views(handoffs@);
        assert(self.handoff_ids()[0] == this.handoff_id);
        let handoff = &mut handoffs[this.handoff_id];
        if let Some(pred) = pred {
            handoff.preds.push(pred);
        }
        if let Some(succ) = succ {
            handoff.succs.push(succ);
        }
        assert(handoffs@.len() == old(handoffs)@.len());
        assert(handoff_views(handoffs@) =~= attach(before, this.handoff_id as int, pred, succ));
        assert forall|i: int| 0 <= i < rest.handoff_ids().len() implies rest.handoff_ids()[i] < handoffs@.len() by {
            assert(self.handoff_ids()[i + 1] == rest.handoff_ids()[i]);
        }
        rest.set_graph_meta(handoffs, pred, succ, out_handoff_ids);
        assert(self.handoff_ids().drop_first() =~= rest.handoff_ids());
        assert(final(out_handoff_ids)@ =~= old(out_handoff_ids)@ + self.handoff_ids());
    }

    type Ctx<'a> = (&'a BaseCtx<H, S>, Rest::Ctx<'a>);
}

impl<const S: bool> BasePortList<S> for () {
    open spec fn handoff_ids(&self) -> Seq<HandoffId> {
        Seq::empty()
    }

    fn set_graph_meta(
        &self,
        _handoffs: &mut [HandoffData],
        _pred: Option<SubgraphId>,
        _succ: Option<SubgraphId>,
        out_handoff_ids: &mut Vec<HandoffId>,
    ) {
        assert(out_handoff_ids@ =~= out_handoff_ids@ + Seq::<HandoffId>::empty());
    }

    type Ctx<'a> = ();
}

/// A list of send ports.
pub trait SendPortList: BasePortList<true> {
}

impl<T: BasePortList<true>> SendPortList for T {
}

/// A list of receive ports.
pub trait RecvPortList: BasePortList<false> {
}

impl<T: BasePortList<false>> RecvPortList for T {
}

/// A port list that splits into the prefix `A` and a suffix.
pub trait BasePortListSplit<A, const S: bool>: BasePortList<S> where A: BasePortList<S> {
    /// The ports after the prefix.
    type Suffix: BasePortList<S>;

    /// Joins the views of the prefix and the suffix back into a view of the list.
    spec fn join_ctx<'a>(a: A::Ctx<'a>, b: <Self::Suffix as BasePortList<S>>::Ctx<'a>) -> Self::Ctx<'a>;

    /// A view of the list comes from one view of the prefix and one of the suffix.
    proof fn lemma_join_ctx_injective<'a>(
        a1: A::Ctx<'a>,
        b1: <Self::Suffix as BasePortList<S>>::Ctx<'a>,
        a2: A::Ctx<'a>,
        b2: <Self::Suffix as BasePortList<S>>::Ctx<'a>,
    )
        requires
            Self::join_ctx(a1, b1) == Self::join_ctx(a2, b2),
        ensures
            a1 == a2,
            b1 == b2,
    ;

    /// Splits the view of the list into the views of the prefix and of the suffix.
    fn split_ctx<'a>(ctx: Self::Ctx<'a>) -> (r: (A::Ctx<'a>, <Self::Suffix as BasePortList<S>>::Ctx<'a>))
        ensures
            Self::join_ctx(r.0, r.1) == ctx,
    ;
}

impl<H, T, U, const S: bool> BasePortListSplit<(BasePort<H, S>, U), S> for (BasePort<H, S>, T) where
    H: Handoff,
    T: BasePortListSplit<U, S>,
    U: BasePortList<S>,
 {
    type Suffix = T::Suffix;

    open spec fn join_ctx<'a>(
        a: <(BasePort<H, S>, U) as BasePortList<S>>::Ctx<'a>,
        b: <Self::Suffix as BasePortList<S>>::Ctx<'a>,
    ) -> Self::Ctx<'a> {
        (a.0, T::join_ctx(a.1, b))
    }

    proof fn lemma_join_ctx_injective<'a>(
        a1: <(BasePort<H, S>, U) as BasePortList<S>>::Ctx<'a>,
        b1: <Self::Suffix as BasePortList<S>>::Ctx<'a>,
        a2: <(BasePort<H, S>, U) as BasePortList<S>>::Ctx<'a>,
        b2: <Self::Suffix as BasePortList<S>>::Ctx<'a>,
    ) {
        T::lemma_join_ctx_injective(a1.1, b1, a2.1, b2);
    }

    fn split_ctx<'a>(ctx: Self::Ctx<'a>) -> (r: (
        <(BasePort<H, S>, U) as BasePortList<S>>::Ctx<'a>,
        <Self::Suffix as BasePortList<S>>::Ctx<'a>,
    )) {
        let (x, t) = ctx;
        let (u, v) = <T as BasePortListSplit<U, S>>::split_ctx(t);
        ((x, u), v)
    }
}

impl<T, const S: bool> BasePortListSplit<(), S> for T where T: BasePortList<S> {
    type Suffix = T;

    open spec fn join_ctx<'a>(a: (), b: T::Ctx<'a>) -> T::Ctx<'a> {
        b
    }

    proof fn lemma_join_ctx_injective<'a>(a1: (), b1: T::Ctx<'a>, a2: (), b2: T::Ctx<'a>) {
    }

    fn split_ctx<'a>(ctx: Self::Ctx<'a>) -> (r: ((), T::Ctx<'a>)) {
        ((), ctx)
    }
}

/// A variadic list of handoff types, represented using a lisp-style tuple
/// structure, such as `(VecHandoff<usize>, (VecHandoff<String>, ()))`.
pub trait HandoffList: TypeList {
}

impl<H, L> HandoffList for (H, L) where H: 'static + Handoff, L: HandoffList {
}

impl HandoffList for () {
}

} // verus!
