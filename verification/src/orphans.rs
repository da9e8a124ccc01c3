//! Typeclass instances for types from outside this library that can
//! nonetheless act like Haskell typeclasses.

use crate::alternative::Alternative;
use crate::applicative::Applicative;
use crate::fold::Fold;
use crate::functor::Functor;
use crate::hkt::Hkt;
use crate::monad::Monad;
use crate::monoid::Monoid;
use vstd::prelude::*;

verus! {

/// The mathematical chain for `Option`.
pub open spec fn option_bind<A, B>(m: Option<A>, f: spec_fn(A) -> Option<B>) -> Option<B> {
    match m {
        Option::None => Option::None,
        Option::Some(a) => f(a),
    }
}

/// The mathematical map for `Option`.
pub open spec fn option_map<A, B>(m: Option<A>, f: spec_fn(A) -> B) -> Option<B> {
    match m {
        Option::None => Option::None,
        Option::Some(a) => Option::Some(f(a)),
    }
}

impl<A, B> Hkt<A, B> for Option<A> {
    type Hkt = Option<B>;
}

impl<A> Functor<A> for Option<A> {
    open spec fn contains_model(self, a: A) -> bool {
        self == Option::Some(a)
    }

    open spec fn fmap_model(self, f: spec_fn(A) -> A) -> Self {
        option_map(self, f)
    }

    fn fmap<F: Fn(A) -> A>(self, f: F) -> (r: Self) {
        let ghost m = self;
        match self {
            Option::None => Option::None,
            Option::Some(a) => {
                proof {
                    assert(m.contains_model(a));
                }
                Option::Some(f(a))
            },
        }
    }

    proof fn lemma_functor_identity(self) {
    }

    proof fn lemma_functor_composition(self, f: spec_fn(A) -> A, g: spec_fn(A) -> A) {
    }
}

impl<A> Applicative<A> for Option<A> {
    open spec fn consume_model(a: A) -> Self {
        Option::Some(a)
    }

    fn consume(a: A) -> (r: Self) {
        Option::Some(a)
    }

    proof fn lemma_homomorphism(a: A, f: spec_fn(A) -> A) {
    }
}

impl<A> Monad<A> for Option<A> {
    open spec fn bind_model(self, f: spec_fn(A) -> Self) -> Self {
        option_bind(self, f)
    }

    fn bind<F: Fn(A) -> Self>(self, f: F) -> (r: Self) {
        let ghost m = self;
        match self {
            Option::None => Option::None,
            Option::Some(a) => {
                proof {
                    assert(m.contains_model(a));
                }
                f(a)
            },
        }
    }

    proof fn lemma_left_identity(a: A, f: spec_fn(A) -> Self) {
    }

    proof fn lemma_right_identity(m: Self) {
    }

    proof fn lemma_associativity(m: Self, f: spec_fn(A) -> Self, g: spec_fn(A) -> Self) {
    }

    proof fn lemma_fmap_via_bind(m: Self, f: spec_fn(A) -> A) {
    }
}

impl<A> Alternative<A> for Option<A> {
    open spec fn empty_model() -> Self {
        Option::None
    }

    open spec fn either_model(self, other: Self) -> Self {
        if self is Some {
            self
        } else {
            other
        }
    }

    fn empty() -> (r: Self) {
        Option::None
    }

    fn either<F: FnOnce() -> Self>(self, make_other: F) -> (r: Self) {
        match self {
            Option::Some(a) => {
                let r = Option::Some(a);
                proof {
                    assert(r == r.either_model(Option::None::<A>));
                    assert(forall|o1: Self, o2: Self| r.either_model(o1) == r.either_model(o2));
                }
                r
            },
            Option::None => {
                let other = make_other();
                proof {
                    assert(other == Option::None::<A>.either_model(other));
                }
                other
            },
        }
    }

    proof fn lemma_either_associativity(a: Self, b: Self, c: Self) {
    }

    proof fn lemma_either_left_identity(a: Self) {
    }

    proof fn lemma_either_right_identity(a: Self) {
    }
}

impl<A> Fold<A> for Option<A> {
    open spec fn items_model(self) -> Seq<A> {
        match self {
            Option::None => Seq::empty(),
            Option::Some(a) => seq![a],
        }
    }

    fn items(self) -> (r: Vec<A>) {
        let mut v: Vec<A> = Vec::new();
        match self {
            Option::None => {
                proof {
                    assert(v@ =~= self.items_model());
                }
                v
            },
            Option::Some(a) => {
                v.push(a);
                proof {
                    assert(v@ =~= self.items_model());
                }
                v
            },
        }
    }
}

impl<A> Fold<A> for Vec<A> {
    open spec fn items_model(self) -> Seq<A> {
        self@
    }

    fn items(self) -> (r: Vec<A>) {
        self
    }
}

impl Monoid for bool {
    open spec fn mempty_model() -> Self {
        false
    }

    open spec fn mappend_model(self, other: Self) -> Self {
        self || other
    }

    fn mempty() -> (r: Self) {
        false
    }

    fn mappend(self, other: Self) -> (r: Self) {
        self || other
    }

    proof fn lemma_mappend_associativity(a: Self, b: Self, c: Self) {
    }

    proof fn lemma_mappend_left_identity(a: Self) {
    }

    proof fn lemma_mappend_right_identity(a: Self) {
    }
}

} // verus!
