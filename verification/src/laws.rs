//! Haskell's monad and functor laws as checkable properties. Each check is
//! proved to return `true` on every input: the laws are discharged by the
//! proofs every instance carries, not by randomized testing.

use crate::applicative::Applicative;
use crate::functor::Functor;
use crate::monad::Monad;
use vstd::prelude::*;

verus! {

/// Checks that `consume(a).bind(f) == f(a)`.
#[allow(unused_variables)]
pub fn left_identity<A, M: Monad<A>, F: Fn(A) -> M>(a: A, f: F) -> (r: bool)
    ensures
        r,
        forall|sf: spec_fn(A) -> M| #[trigger] M::consume_model(a).bind_model(sf) == sf(a),
{
    proof {
        assert forall|sf: spec_fn(A) -> M| #[trigger] M::consume_model(a).bind_model(sf) == sf(
            a,
        ) by {
            M::lemma_left_identity(a, sf);
        }
    }
    true
}

/// Checks that `m.bind(consume) == m`.
#[allow(unused_variables)]
pub fn right_identity<A, M: Monad<A>>(m: M) -> (r: bool)
    ensures
        r,
        m.bind_model(|a: A| M::consume_model(a)) == m,
{
    proof {
        M::lemma_right_identity(m);
    }
    true
}

/// Checks that `m.bind(f).bind(g) == m.bind(|a| f(a).bind(g))`.
#[allow(unused_variables)]
pub fn associativity<A, M: Monad<A>, F: Fn(A) -> M, G: Fn(A) -> M>(m: M, f: F, g: G) -> (r: bool)
    ensures
        r,
        forall|sf: spec_fn(A) -> M, sg: spec_fn(A) -> M|
            #[trigger] m.bind_model(sf).bind_model(sg) == m.bind_model(
                |a: A| sf(a).bind_model(sg),
            ),
{
    proof {
        assert forall|sf: spec_fn(A) -> M, sg: spec_fn(A) -> M|
            #[trigger] m.bind_model(sf).bind_model(sg) == m.bind_model(
                |a: A| sf(a).bind_model(sg),
            ) by {
            M::lemma_associativity(m, sf, sg);
        }
    }
    true
}

/// Checks that mapping the identity function is a no-op.
#[allow(unused_variables)]
pub fn identity<A, FA: Functor<A>>(fa: FA) -> (r: bool)
    ensures
        r,
        fa.fmap_model(|a: A| a) == fa,
{
    proof {
        FA::lemma_functor_identity(fa);
    }
    true
}

/// Checks that mapping two functions separately is mapping their
/// composition.
#[allow(unused_variables)]
pub fn composition<A, FA: Functor<A>, F: Fn(A) -> A, G: Fn(A) -> A>(fa: FA, f: F, g: G) -> (r:
    bool)
    ensures
        r,
        forall|sf: spec_fn(A) -> A, sg: spec_fn(A) -> A|
            #[trigger] fa.fmap_model(sg).fmap_model(sf) == fa.fmap_model(|a: A| sf(sg(a))),
{
    proof {
        assert forall|sf: spec_fn(A) -> A, sg: spec_fn(A) -> A|
            #[trigger] fa.fmap_model(sg).fmap_model(sf) == fa.fmap_model(|a: A| sf(sg(a))) by {
            FA::lemma_functor_composition(fa, sf, sg);
        }
    }
    true
}

/// Hashes anything hashable into a `u64`.
pub fn hash<H: core::hash::Hash>(h: H) -> u64 {
    crate::entropy::hash(h)
}

/// Hashes anything hashable into a `u64` then wraps it with `consume`.
pub fn hash_consume<M: Monad<u64>, H: core::hash::Hash>(h: H) -> (r: M)
    ensures
        exists|v: u64| r == M::consume_model(v),
{
    crate::entropy::hash_consume(h)
}

} // verus!
