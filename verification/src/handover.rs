use vstd::prelude::*;

use core::marker::PhantomData;

use crate::node::Node;
use crate::score::Score;

verus! {

/// How faithfully a handover is expected to preserve information.
/// Purely descriptive metadata; no enforcement logic is attached.
#[derive(Clone, Copy, Debug, PartialEq, Eq, Structural)]
pub enum PreservationProtocol {
    Conservative,
    Creative,
    Destructive,
    Transmutative,
}

/// A pure mapping from source states to target states, supplied by the
/// caller of `Handover::new` and owned by the handover thereafter. The
/// mapping is specified over the deep views of the two state types, so a
/// mapper may produce heap values such as `String`. `pre` names the inputs
/// the mapping is defined on: a mapper that would fail elsewhere is the
/// caller's responsibility, and verified callers rule such inputs out.
pub trait Mapper<S: DeepView, T: DeepView> {
    /// The inputs, as views, on which the mapping is defined.
    spec fn pre(&self, s: <S as DeepView>::V) -> bool;

    /// The mathematical function the mapper computes, on views.
    spec fn map_spec(&self, s: <S as DeepView>::V) -> <T as DeepView>::V;

    /// Applies the mapping to one source state.
    fn map(&self, s: &S) -> (t: T)
        requires
            self.pre(s.deep_view()),
        ensures
            t.deep_view() == self.map_spec(s.deep_view()),
    ;
}

/// A named, typed transformation from one node's state type to another,
/// tagged with a preservation protocol and a fidelity score.
pub struct Handover<S, T, M> {
    pub id: String,
    pub protocol: PreservationProtocol,
    pub fidelity: Score,
    pub mapper: M,
    pub phantom: PhantomData<(S, T)>,
}

impl<S: DeepView, T: DeepView, M: Mapper<S, T>> Handover<S, T, M> {
    /// Builds a handover with the given id, protocol and mapper; the
    /// fidelity starts at one.
    pub fn new(id: String, protocol: PreservationProtocol, mapper: M) -> (h: Handover<S, T, M>)
        ensures
            h.id@ == id@,
            h.protocol == protocol,
            h.fidelity.is_one(),
            h.mapper == mapper,
    {
        Handover { id, protocol, fidelity: Score::one(), mapper, phantom: PhantomData }
    }

    /// Applies the mapper to the source node's current state and returns
    /// the result by value; the source node is not changed.
    pub fn execute(&self, source: &Node<S>) -> (t: T)
        requires
            self.mapper.pre(source.current_state.deep_view()),
        ensures
            t.deep_view() == self.mapper.map_spec(source.current_state.deep_view()),
    {
        self.mapper.map(&source.current_state)
    }
}

/// The mapper of a composed handover: applies `first`, then `second`.
pub struct ComposedMapper<A, B, C, M1, M2> {
    pub first: M1,
    pub second: M2,
    pub phantom: PhantomData<(A, B, C)>,
}

/// The composed mapper as a spec-level value, so that contracts and laws
/// can name the mapper that `compose_handovers` builds.
pub open spec fn composed<A: DeepView, B: DeepView, C: DeepView, M1: Mapper<A, B>, M2: Mapper<B, C>>(
    first: M1,
    second: M2,
) -> ComposedMapper<A, B, C, M1, M2> {
    ComposedMapper { first: first, second: second, phantom: PhantomData }
}

impl<A: DeepView, B: DeepView, C: DeepView, M1: Mapper<A, B>, M2: Mapper<B, C>> Mapper<A, C> for ComposedMapper<
    A,
    B,
    C,
    M1,
    M2,
> {
    open spec fn pre(&self, a: <A as DeepView>::V) -> bool {
        self.first.pre(a) && self.second.pre(self.first.map_spec(a))
    }

    open spec fn map_spec(&self, a: <A as DeepView>::V) -> <C as DeepView>::V {
        self.second.map_spec(self.first.map_spec(a))
    }

    fn map(&self, a: &A) -> (c: C) {
        let b = self.first.map(a);
        self.second.map(&b)
    }
}

/// Chains two handovers into one. The composed mapper applies `h1`'s mapper
/// and then `h2`'s; the composed id is the two ids joined by an underscore;
/// the composed protocol is always `Transmutative`, whatever the inputs'
/// protocols were (composition may degrade preservation guarantees); the
/// composed fidelity starts at one.
pub fn compose_handovers<A: DeepView, B: DeepView, C: DeepView, M1: Mapper<A, B>, M2: Mapper<B, C>>(
    h1: Handover<A, B, M1>,
    h2: Handover<B, C, M2>,
) -> (h: Handover<A, C, ComposedMapper<A, B, C, M1, M2>>)
    ensures
        h.id@ == h1.id@ + "_"@ + h2.id@,
        h.protocol == PreservationProtocol::Transmutative,
        h.fidelity.is_one(),
        h.mapper == composed::<A, B, C, M1, M2>(h1.mapper, h2.mapper),
        forall|a: <A as DeepView>::V| #[trigger] h.mapper.map_spec(a) == h2.mapper.map_spec(
            h1.mapper.map_spec(a),
        ),
        forall|a: <A as DeepView>::V| #[trigger] h.mapper.pre(a) <==> h1.mapper.pre(a)
            && h2.mapper.pre(h1.mapper.map_spec(a)),
{
    let Handover { id: id1, mapper: m1, .. } = h1;
    let Handover { id: id2, mapper: m2, .. } = h2;
    let id = id1.concat("_").concat(id2.as_str());
    let mapper = ComposedMapper { first: m1, second: m2, phantom: PhantomData };
    Handover::new(id, PreservationProtocol::Transmutative, mapper)
}

/// Law: the composed mapper applies the first mapping and then the second.
/// Together with the contract of `Handover::execute`, executing the result
/// of `compose_handovers(h1, h2)` on a node with state `a` yields
/// `h2.mapper.map_spec(h1.mapper.map_spec(a))`, and is defined exactly
/// where both steps are.
pub proof fn lemma_composed_applies<A: DeepView, B: DeepView, C: DeepView, M1: Mapper<A, B>, M2: Mapper<B, C>>(
    m1: M1,
    m2: M2,
    a: <A as DeepView>::V,
)
    ensures
        composed::<A, B, C, M1, M2>(m1, m2).map_spec(a) == m2.map_spec(m1.map_spec(a)),
        composed::<A, B, C, M1, M2>(m1, m2).pre(a) <==> m1.pre(a) && m2.pre(m1.map_spec(a)),
{
}

/// Law: composition of mappers is associative. Composing `f` with `g` and
/// then with `h` computes the same function, on the same domain, as
/// composing `f` with the composition of `g` and `h`; on every input both
/// equal `h` applied after `g` applied after `f`.
pub proof fn lemma_compose_associative<
    A: DeepView,
    B: DeepView,
    C: DeepView,
    D: DeepView,
    F: Mapper<A, B>,
    G: Mapper<B, C>,
    H: Mapper<C, D>,
>(f: F, g: G, h: H, a: <A as DeepView>::V)
    ensures
        composed::<A, C, D, ComposedMapper<A, B, C, F, G>, H>(
            composed::<A, B, C, F, G>(f, g),
            h,
        ).map_spec(a) == composed::<A, B, D, F, ComposedMapper<B, C, D, G, H>>(
            f,
            composed::<B, C, D, G, H>(g, h),
        ).map_spec(a),
        composed::<A, C, D, ComposedMapper<A, B, C, F, G>, H>(
            composed::<A, B, C, F, G>(f, g),
            h,
        ).map_spec(a) == h.map_spec(g.map_spec(f.map_spec(a))),
        composed::<A, C, D, ComposedMapper<A, B, C, F, G>, H>(
            composed::<A, B, C, F, G>(f, g),
            h,
        ).pre(a) <==> composed::<A, B, D, F, ComposedMapper<B, C, D, G, H>>(
            f,
            composed::<B, C, D, G, H>(g, h),
        ).pre(a),
{
}

} // verus!
