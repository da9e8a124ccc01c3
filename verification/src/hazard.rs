//! The `Hazard` monad: the possibility of failure with a reason.

use crate::applicative::Applicative;
use crate::functor::Functor;
use crate::hkt::Hkt;
use crate::monad::Monad;
use vstd::prelude::*;

verus! {

/// Encodes the possibility of failure with a reason: binding short-circuits
/// on `Failure` and keeps its reason.
#[derive(Clone, Copy, Debug, Eq, Hash, Ord, PartialEq, PartialOrd)]
pub enum Hazard<A, E = String> {
    /// Failure with information. Binding will immediately return this
    /// failure as well.
    Failure(E),
    /// A value that hasn't failed (yet). Binding on some function `f` will
    /// call `f` with that value as its argument.
    Success(A),
}

/// The mathematical chain, at any pair of payload types.
pub open spec fn hazard_bind<A, B, E>(m: Hazard<A, E>, f: spec_fn(A) -> Hazard<B, E>) -> Hazard<
    B,
    E,
> {
    match m {
        Hazard::Failure(e) => Hazard::Failure(e),
        Hazard::Success(a) => f(a),
    }
}

/// The mathematical map, at any pair of payload types.
pub open spec fn hazard_map<A, B, E>(m: Hazard<A, E>, f: spec_fn(A) -> B) -> Hazard<B, E> {
    match m {
        Hazard::Failure(e) => Hazard::Failure(e),
        Hazard::Success(a) => Hazard::Success(f(a)),
    }
}

impl<A, E> Hazard<A, E> {
    /// Chain this value into `f`, which may change the payload type:
    /// `Failure` short-circuits with its reason, `Success(a)` becomes
    /// `f(a)`.
    pub fn bind<B, F: Fn(A) -> Hazard<B, E>>(self, f: F) -> (r: Hazard<B, E>)
        requires
            forall|a: A| self == Hazard::<A, E>::Success(a) ==> call_requires(f, (a,)),
        ensures
            forall|e: E| self == Hazard::<A, E>::Failure(e) ==> r == Hazard::<B, E>::Failure(e),
            forall|a: A| self == Hazard::<A, E>::Success(a) ==> call_ensures(f, (a,), r),
            forall|sf: spec_fn(A) -> Hazard<B, E>|
                (forall|a: A, out: Hazard<B, E>|
                    self == Hazard::<A, E>::Success(a) && #[trigger] call_ensures(f, (a,), out)
                        ==> out == sf(a)) ==> r == hazard_bind(self, sf),
    {
        match self {
            Hazard::Failure(e) => Hazard::Failure(e),
            Hazard::Success(a) => f(a),
        }
    }

    /// Map `f` over the payload, which may change its type.
    pub fn fmap<B, F: Fn(A) -> B>(self, f: F) -> (r: Hazard<B, E>)
        requires
            forall|a: A| self == Hazard::<A, E>::Success(a) ==> call_requires(f, (a,)),
        ensures
            forall|e: E| self == Hazard::<A, E>::Failure(e) ==> r == Hazard::<B, E>::Failure(e),
            forall|a: A| self == Hazard::<A, E>::Success(a) ==> exists|b: B|
                call_ensures(f, (a,), b) && r == Hazard::<B, E>::Success(b),
            forall|sf: spec_fn(A) -> B|
                (forall|a: A, out: B|
                    self == Hazard::<A, E>::Success(a) && #[trigger] call_ensures(f, (a,), out)
                        ==> out == sf(a)) ==> r == hazard_map(self, sf),
    {
        match self {
            Hazard::Failure(e) => Hazard::Failure(e),
            Hazard::Success(a) => Hazard::Success(f(a)),
        }
    }
}

impl<A, E, B> Hkt<A, B> for Hazard<A, E> {
    type Hkt = Hazard<B, E>;
}

impl<A, E> Functor<A> for Hazard<A, E> {
    open spec fn contains_model(self, a: A) -> bool {
        self == Hazard::<A, E>::Success(a)
    }

    open spec fn fmap_model(self, f: spec_fn(A) -> A) -> Self {
        hazard_map(self, f)
    }

    fn fmap<F: Fn(A) -> A>(self, f: F) -> (r: Self) {
        let ghost m = self;
        match self {
            Hazard::Failure(e) => Hazard::Failure(e),
            Hazard::Success(a) => {
                proof {
                    assert(m.contains_model(a));
                }
                Hazard::Success(f(a))
            },
        }
    }

    proof fn lemma_functor_identity(self) {
    }

    proof fn lemma_functor_composition(self, f: spec_fn(A) -> A, g: spec_fn(A) -> A) {
    }
}

impl<A, E> Applicative<A> for Hazard<A, E> {
    open spec fn consume_model(a: A) -> Self {
        Hazard::Success(a)
    }

    fn consume(a: A) -> (r: Self) {
        Hazard::Success(a)
    }

    proof fn lemma_homomorphism(a: A, f: spec_fn(A) -> A) {
    }
}

impl<A, E> Monad<A> for Hazard<A, E> {
    open spec fn bind_model(self, f: spec_fn(A) -> Self) -> Self {
        hazard_bind(self, f)
    }

    fn bind<F: Fn(A) -> Self>(self, f: F) -> (r: Self) {
        let ghost m = self;
        match self {
            Hazard::Failure(e) => Hazard::Failure(e),
            Hazard::Success(a) => {
                proof {
                    assert(m.contains_model(a));
                }
                f(a)
            },
        }
    }

    proof fn lemma_left_identity(a: A, f: spec_fn(A) -> Self) {
    }

    proof fn lemma_right_identity(m: Self) {
    }

    proof fn lemma_associativity(m: Self, f: spec_fn(A) -> Self, g: spec_fn(A) -> Self) {
    }

    proof fn lemma_fmap_via_bind(m: Self, f: spec_fn(A) -> A) {
    }
}

} // verus!
