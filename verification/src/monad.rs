//! Monads: chaining a wrapped value into a function that itself returns a
//! wrapped value.

use crate::applicative::Applicative;
use vstd::prelude::*;

verus! {

/// An Applicative with `bind`. `bind_model` is the mathematical chain; the
/// executable `bind` is pinned to it whenever the chained closure behaves
/// like a function. Every implementation must prove the three monad laws,
/// and that its map is `bind` followed by `consume` — so the Functor level
/// can never disagree with the Monad level.
pub trait Monad<A>: Applicative<A> {
    /// The mathematical chain over the payload.
    spec fn bind_model(self, f: spec_fn(A) -> Self) -> Self;

    /// Mutate internal state with some function.
    fn bind<F: Fn(A) -> Self>(self, f: F) -> (r: Self)
        requires
            forall|a: A| self.contains_model(a) ==> call_requires(f, (a,)),
        ensures
            forall|sf: spec_fn(A) -> Self|
                (forall|a: A, out: Self|
                    self.contains_model(a) && #[trigger] call_ensures(f, (a,), out) ==> out == sf(
                        a,
                    )) ==> r == self.bind_model(sf),
    ;

    /// Left identity: `consume(a).bind(f) == f(a)`.
    proof fn lemma_left_identity(a: A, f: spec_fn(A) -> Self)
        ensures
            Self::consume_model(a).bind_model(f) == f(a),
    ;

    /// Right identity: `m.bind(consume) == m`.
    proof fn lemma_right_identity(m: Self)
        ensures
            m.bind_model(|a: A| Self::consume_model(a)) == m,
    ;

    /// Associativity: `m.bind(f).bind(g) == m.bind(|a| f(a).bind(g))`.
    proof fn lemma_associativity(m: Self, f: spec_fn(A) -> Self, g: spec_fn(A) -> Self)
        ensures
            m.bind_model(f).bind_model(g) == m.bind_model(|a: A| f(a).bind_model(g)),
    ;

    /// The map is `bind` into `consume`: `fmap f == bind (consume . f)`, by
    /// construction and not merely by test.
    proof fn lemma_fmap_via_bind(m: Self, f: spec_fn(A) -> A)
        ensures
            m.fmap_model(f) == m.bind_model(|a: A| Self::consume_model(f(a))),
    ;
}

/// Mutate internal state with some function.
pub fn bind<A, MA: Monad<A>, F: Fn(A) -> MA>(ma: MA, f: F) -> (r: MA)
    requires
        forall|a: A| ma.contains_model(a) ==> call_requires(f, (a,)),
    ensures
        forall|sf: spec_fn(A) -> MA|
            (forall|a: A, out: MA|
                ma.contains_model(a) && #[trigger] call_ensures(f, (a,), out) ==> out == sf(a))
                ==> r == ma.bind_model(sf),
{
    ma.bind(f)
}

} // verus!
