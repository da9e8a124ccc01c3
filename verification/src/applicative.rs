//! Applicative functors: wrapping a bare value into the container.

use crate::functor::Functor;
use vstd::prelude::*;

verus! {

/// A Functor that can wrap a bare payload value ("apply a wrapped function
/// to a wrapped argument" is recovered per container from `bind`).
///
/// Every implementation proves the homomorphism law tying `consume` to the
/// map: mapping over a freshly wrapped value wraps the mapped value.
pub trait Applicative<A>: Functor<A> {
    /// The mathematical image of wrapping one value.
    spec fn consume_model(a: A) -> Self;

    /// Construct an Applicative from a value.
    fn consume(a: A) -> (r: Self)
        ensures
            r == Self::consume_model(a),
    ;

    /// Mapping `f` over `consume(a)` gives `consume(f(a))`.
    proof fn lemma_homomorphism(a: A, f: spec_fn(A) -> A)
        ensures
            Self::consume_model(a).fmap_model(f) == Self::consume_model(f(a)),
    ;
}

/// Construct an Applicative from a value.
pub fn consume<Ap: Applicative<A>, A>(a: A) -> (r: Ap)
    ensures
        r == Ap::consume_model(a),
{
    Ap::consume(a)
}

} // verus!
