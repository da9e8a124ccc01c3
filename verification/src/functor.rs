//! Functors: containers over which a function can be mapped.

use vstd::prelude::*;

verus! {

/// A container supporting a structure-preserving map over its payload.
///
/// `fmap_model` is the mathematical map; the executable `fmap` is pinned to
/// it whenever the mapped closure itself behaves like a function. Every
/// implementation must prove the functor laws: mapping the identity is the
/// identity, and mapping a composition is the composition of the maps.
pub trait Functor<A>: Sized {
    /// Does the container hold this payload value somewhere?
    spec fn contains_model(self, a: A) -> bool;

    /// The mathematical map over the payload.
    spec fn fmap_model(self, f: spec_fn(A) -> A) -> Self;

    /// Map a function over this functor.
    fn fmap<F: Fn(A) -> A>(self, f: F) -> (r: Self)
        requires
            forall|a: A| self.contains_model(a) ==> call_requires(f, (a,)),
        ensures
            forall|sf: spec_fn(A) -> A|
                (forall|a: A, out: A|
                    self.contains_model(a) && #[trigger] call_ensures(f, (a,), out) ==> out == sf(
                        a,
                    )) ==> r == self.fmap_model(sf),
    ;

    /// Mapping the identity function is a no-op.
    proof fn lemma_functor_identity(self)
        ensures
            self.fmap_model(|a: A| a) == self,
    ;

    /// Mapping two functions separately is mapping their composition.
    proof fn lemma_functor_composition(self, f: spec_fn(A) -> A, g: spec_fn(A) -> A)
        ensures
            self.fmap_model(g).fmap_model(f) == self.fmap_model(|a: A| f(g(a))),
    ;
}

/// Map a function over a container.
pub fn fmap<A, FA: Functor<A>, F: Fn(A) -> A>(f: F, fa: FA) -> (r: FA)
    requires
        forall|a: A| fa.contains_model(a) ==> call_requires(f, (a,)),
    ensures
        forall|sf: spec_fn(A) -> A|
            (forall|a: A, out: A|
                fa.contains_model(a) && #[trigger] call_ensures(f, (a,), out) ==> out == sf(a))
                ==> r == fa.fmap_model(sf),
{
    fa.fmap(f)
}

} // verus!
