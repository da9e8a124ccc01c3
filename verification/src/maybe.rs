//! The `Maybe` monad: the possibility of failure.

use crate::alternative::Alternative;
use crate::applicative::Applicative;
use crate::functor::Functor;
use crate::hkt::Hkt;
use crate::monad::Monad;
use vstd::prelude::*;

verus! {

/// Encodes the possibility of failure: either no value, or one value, with
/// `bind` short-circuiting on `Nothing`.
#[derive(Clone, Copy, Debug, Default, Eq, Hash, Ord, PartialEq, PartialOrd)]
pub enum Maybe<A> {
    /// No value. Binding will immediately return `Nothing` as well.
    #[default]
    Nothing,
    /// Some value. Binding on some function `f` will call `f` with that
    /// value as its argument.
    Just(A),
}

/// The mathematical chain, at any pair of payload types.
pub open spec fn maybe_bind<A, B>(m: Maybe<A>, f: spec_fn(A) -> Maybe<B>) -> Maybe<B> {
    match m {
        Maybe::Nothing => Maybe::Nothing,
        Maybe::Just(a) => f(a),
    }
}

/// The mathematical map, at any pair of payload types.
pub open spec fn maybe_map<A, B>(m: Maybe<A>, f: spec_fn(A) -> B) -> Maybe<B> {
    match m {
        Maybe::Nothing => Maybe::Nothing,
        Maybe::Just(a) => Maybe::Just(f(a)),
    }
}

/// The mathematical flattening of a nested `Maybe`.
pub open spec fn maybe_join<A>(m: Maybe<Maybe<A>>) -> Maybe<A> {
    match m {
        Maybe::Nothing => Maybe::Nothing,
        Maybe::Just(inner) => inner,
    }
}

impl<A> Maybe<A> {
    /// Chain this value into `f`, which may change the payload type:
    /// `Nothing` short-circuits, `Just(a)` becomes `f(a)`.
    pub fn bind<B, F: Fn(A) -> Maybe<B>>(self, f: F) -> (r: Maybe<B>)
        requires
            forall|a: A| self == Maybe::Just(a) ==> call_requires(f, (a,)),
        ensures
            self is Nothing ==> r is Nothing,
            forall|a: A| self == Maybe::Just(a) ==> call_ensures(f, (a,), r),
            forall|sf: spec_fn(A) -> Maybe<B>|
                (forall|a: A, out: Maybe<B>|
                    self == Maybe::Just(a) && #[trigger] call_ensures(f, (a,), out) ==> out == sf(
                        a,
                    )) ==> r == maybe_bind(self, sf),
    {
        match self {
            Maybe::Nothing => Maybe::Nothing,
            Maybe::Just(a) => f(a),
        }
    }

    /// Map `f` over the payload, which may change its type.
    pub fn fmap<B, F: Fn(A) -> B>(self, f: F) -> (r: Maybe<B>)
        requires
            forall|a: A| self == Maybe::Just(a) ==> call_requires(f, (a,)),
        ensures
            self is Nothing ==> r is Nothing,
            forall|a: A| self == Maybe::Just(a) ==> exists|b: B|
                call_ensures(f, (a,), b) && r == Maybe::Just(b),
            forall|sf: spec_fn(A) -> B|
                (forall|a: A, out: B|
                    self == Maybe::Just(a) && #[trigger] call_ensures(f, (a,), out) ==> out == sf(
                        a,
                    )) ==> r == maybe_map(self, sf),
    {
        match self {
            Maybe::Nothing => Maybe::Nothing,
            Maybe::Just(a) => Maybe::Just(f(a)),
        }
    }

    /// Apply a wrapped function to this wrapped argument: both must be
    /// `Just` for a result.
    pub fn tie<B, F: Fn(A) -> B>(self, af: Maybe<F>) -> (r: Maybe<B>)
        requires
            forall|a: A, g: F| self == Maybe::Just(a) && af == Maybe::Just(g) ==> call_requires(
                g,
                (a,),
            ),
        ensures
            self is Nothing ==> r is Nothing,
            af is Nothing ==> r is Nothing,
            forall|a: A, g: F|
                self == Maybe::Just(a) && af == Maybe::Just(g) ==> exists|b: B|
                    call_ensures(g, (a,), b) && r == Maybe::Just(b),
    {
        match self {
            Maybe::Nothing => Maybe::Nothing,
            Maybe::Just(a) => match af {
                Maybe::Nothing => Maybe::Nothing,
                Maybe::Just(g) => Maybe::Just(g(a)),
            },
        }
    }
}

impl<A> Maybe<Maybe<A>> {
    /// Flatten a nested `Maybe` into a single layer.
    pub fn join(self) -> (r: Maybe<A>)
        ensures
            r == maybe_join(self),
    {
        match self {
            Maybe::Nothing => Maybe::Nothing,
            Maybe::Just(inner) => inner,
        }
    }
}

impl<A, B> Hkt<A, B> for Maybe<A> {
    type Hkt = Maybe<B>;
}

impl<A> Functor<A> for Maybe<A> {
    open spec fn contains_model(self, a: A) -> bool {
        self == Maybe::Just(a)
    }

    open spec fn fmap_model(self, f: spec_fn(A) -> A) -> Self {
        maybe_map(self, f)
    }

    fn fmap<F: Fn(A) -> A>(self, f: F) -> (r: Self) {
        let ghost m = self;
        match self {
            Maybe::Nothing => Maybe::Nothing,
            Maybe::Just(a) => {
                proof {
                    assert(m.contains_model(a));
                }
                Maybe::Just(f(a))
            },
        }
    }

    proof fn lemma_functor_identity(self) {
    }

    proof fn lemma_functor_composition(self, f: spec_fn(A) -> A, g: spec_fn(A) -> A) {
    }
}

impl<A> Applicative<A> for Maybe<A> {
    open spec fn consume_model(a: A) -> Self {
        Maybe::Just(a)
    }

    fn consume(a: A) -> (r: Self) {
        Maybe::Just(a)
    }

    proof fn lemma_homomorphism(a: A, f: spec_fn(A) -> A) {
    }
}

impl<A> Monad<A> for Maybe<A> {
    open spec fn bind_model(self, f: spec_fn(A) -> Self) -> Self {
        maybe_bind(self, f)
    }

    fn bind<F: Fn(A) -> Self>(self, f: F) -> (r: Self) {
        let ghost m = self;
        match self {
            Maybe::Nothing => Maybe::Nothing,
            Maybe::Just(a) => {
                proof {
                    assert(m.contains_model(a));
                }
                f(a)
            },
        }
    }

    proof fn lemma_left_identity(a: A, f: spec_fn(A) -> Self) {
    }

    proof fn lemma_right_identity(m: Self) {
    }

    proof fn lemma_associativity(m: Self, f: spec_fn(A) -> Self, g: spec_fn(A) -> Self) {
    }

    proof fn lemma_fmap_via_bind(m: Self, f: spec_fn(A) -> A) {
    }
}

impl<A> Alternative<A> for Maybe<A> {
    open spec fn empty_model() -> Self {
        Maybe::Nothing
    }

    open spec fn either_model(self, other: Self) -> Self {
        if self is Just {
            self
        } else {
            other
        }
    }

    fn empty() -> (r: Self) {
        Maybe::Nothing
    }

    fn either<F: FnOnce() -> Self>(self, make_other: F) -> (r: Self) {
        match self {
            Maybe::Just(a) => {
                let r = Maybe::Just(a);
                proof {
                    assert(r == r.either_model(Maybe::Nothing::<A>));
                    assert(forall|o1: Self, o2: Self| r.either_model(o1) == r.either_model(o2));
                }
                r
            },
            Maybe::Nothing => {
                let other = make_other();
                proof {
                    assert(other == Maybe::Nothing::<A>.either_model(other));
                }
                other
            },
        }
    }

    proof fn lemma_either_associativity(a: Self, b: Self, c: Self) {
    }

    proof fn lemma_either_left_identity(a: Self) {
    }

    proof fn lemma_either_right_identity(a: Self) {
    }
}

impl<A> From<Option<A>> for Maybe<A> {
    fn from(value: Option<A>) -> Self {
        match value {
            Option::Some(a) => Maybe::Just(a),
            Option::None => Maybe::Nothing,
        }
    }
}

impl<A> vstd::std_specs::convert::FromSpecImpl<Option<A>> for Maybe<A> {
    open spec fn obeys_from_spec() -> bool {
        true
    }

    open spec fn from_spec(value: Option<A>) -> Self {
        match value {
            Option::Some(a) => Maybe::Just(a),
            Option::None => Maybe::Nothing,
        }
    }
}

impl<A> From<Maybe<A>> for Option<A> {
    fn from(value: Maybe<A>) -> Self {
        match value {
            Maybe::Just(a) => Option::Some(a),
            Maybe::Nothing => Option::None,
        }
    }
}

impl<A> vstd::std_specs::convert::FromSpecImpl<Maybe<A>> for Option<A> {
    open spec fn obeys_from_spec() -> bool {
        true
    }

    open spec fn from_spec(value: Maybe<A>) -> Self {
        match value {
            Maybe::Just(a) => Option::Some(a),
            Maybe::Nothing => Option::None,
        }
    }
}

} // verus!
