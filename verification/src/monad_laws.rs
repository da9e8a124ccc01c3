//! The monad laws as checkable properties. Each check is proved to return
//! `true` on every input, because every instance in this crate carries a
//! proof of the law it tests; the returned value states that the law held.

use crate::applicative::Applicative;
use crate::monad::Monad;
use vstd::prelude::*;

verus! {

/// Checks that `consume(a).bind(f) == f(a)`: always true, and the contract
/// carries the law itself, at the model level, for every chained function.
#[allow(unused_variables)]
pub fn left_identity<A, M: Monad<A>, F: Fn(A) -> M>(a: A, f: F) -> (r: bool)
    ensures
        r,
        forall|sf: spec_fn(A) -> M| #[trigger] M::consume_model(a).bind_model(sf) == sf(a),
{
    proof {
        assert forall|sf: spec_fn(A) -> M| #[trigger] M::consume_model(a).bind_model(sf) == sf(
            a,
        ) by {
            M::lemma_left_identity(a, sf);
        }
    }
    true
}

/// Checks that `m.bind(consume) == m`.
#[allow(unused_variables)]
pub fn right_identity<A, M: Monad<A>>(m: M) -> (r: bool)
    ensures
        r,
        m.bind_model(|a: A| M::consume_model(a)) == m,
{
    proof {
        M::lemma_right_identity(m);
    }
    true
}

/// Checks that `m.bind(f).bind(g) == m.bind(|a| f(a).bind(g))`.
#[allow(unused_variables)]
pub fn associativity<A, M: Monad<A>, F: Fn(A) -> M, G: Fn(A) -> M>(m: M, f: F, g: G) -> (r: bool)
    ensures
        r,
        forall|sf: spec_fn(A) -> M, sg: spec_fn(A) -> M|
            #[trigger] m.bind_model(sf).bind_model(sg) == m.bind_model(
                |a: A| sf(a).bind_model(sg),
            ),
{
    proof {
        assert forall|sf: spec_fn(A) -> M, sg: spec_fn(A) -> M|
            #[trigger] m.bind_model(sf).bind_model(sg) == m.bind_model(
                |a: A| sf(a).bind_model(sg),
            ) by {
            M::lemma_associativity(m, sf, sg);
        }
    }
    true
}

/// Hashes anything hashable into a `u64`.
pub fn hash<H: core::hash::Hash>(h: H) -> u64 {
    crate::entropy::hash(h)
}

/// Hashes anything hashable into a `u64` then wraps it with `consume`.
pub fn hash_consume<M: Monad<u64>, H: core::hash::Hash>(h: H) -> (r: M)
    ensures
        exists|v: u64| r == M::consume_model(v),
{
    crate::entropy::hash_consume(h)
}

} // verus!
