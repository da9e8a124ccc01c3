//! The `Io` monad: a value threaded through a chain of effects, the pure
//! part of which is this wrapper.

use crate::applicative::Applicative;
use crate::functor::Functor;
use crate::hkt::Hkt;
use crate::monad::Monad;
use vstd::prelude::*;

verus! {

/// A wrapped value to chain computations on.
#[derive(Clone, Copy, Debug, Default, Eq, Hash, Ord, PartialEq, PartialOrd)]
pub struct Io<A>(pub A);

impl<A> Io<A> {
    /// Chain this value into `f`, which may change the payload type.
    pub fn bind<B, F: Fn(A) -> Io<B>>(self, f: F) -> (r: Io<B>)
        requires
            call_requires(f, (self.0,)),
        ensures
            call_ensures(f, (self.0,), r),
    {
        f(self.0)
    }

    /// Map `f` over the payload, which may change its type.
    pub fn fmap<B, F: Fn(A) -> B>(self, f: F) -> (r: Io<B>)
        requires
            call_requires(f, (self.0,)),
        ensures
            call_ensures(f, (self.0,), r.0),
    {
        Io(f(self.0))
    }
}

impl<A, B> Hkt<A, B> for Io<A> {
    type Hkt = Io<B>;
}

impl<A> Functor<A> for Io<A> {
    open spec fn contains_model(self, a: A) -> bool {
        self.0 == a
    }

    open spec fn fmap_model(self, f: spec_fn(A) -> A) -> Self {
        Io(f(self.0))
    }

    fn fmap<F: Fn(A) -> A>(self, f: F) -> (r: Self) {
        proof {
            assert(self.contains_model(self.0));
        }
        Io(f(self.0))
    }

    proof fn lemma_functor_identity(self) {
    }

    proof fn lemma_functor_composition(self, f: spec_fn(A) -> A, g: spec_fn(A) -> A) {
    }
}

impl<A> Applicative<A> for Io<A> {
    open spec fn consume_model(a: A) -> Self {
        Io(a)
    }

    fn consume(a: A) -> (r: Self) {
        Io(a)
    }

    proof fn lemma_homomorphism(a: A, f: spec_fn(A) -> A) {
    }
}

impl<A> Monad<A> for Io<A> {
    open spec fn bind_model(self, f: spec_fn(A) -> Self) -> Self {
        f(self.0)
    }

    fn bind<F: Fn(A) -> Self>(self, f: F) -> (r: Self) {
        proof {
            assert(self.contains_model(self.0));
        }
        f(self.0)
    }

    proof fn lemma_left_identity(a: A, f: spec_fn(A) -> Self) {
    }

    proof fn lemma_right_identity(m: Self) {
    }

    proof fn lemma_associativity(m: Self, f: spec_fn(A) -> Self, g: spec_fn(A) -> Self) {
    }

    proof fn lemma_fmap_via_bind(m: Self, f: spec_fn(A) -> A) {
    }
}

} // verus!
