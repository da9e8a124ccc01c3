//! Monoids: a combine operation with an identity element — lists with
//! concatenation, numbers with addition and zero, numbers with
//! multiplication and one.

use crate::fold::{foldr_model, Fold};
use vstd::prelude::*;

verus! {

/// A combining operation with an identity element. Every implementation
/// proves associativity and both identity laws.
pub trait Monoid: Sized {
    /// The mathematical identity element.
    spec fn mempty_model() -> Self;

    /// The mathematical combine.
    spec fn mappend_model(self, other: Self) -> Self;

    /// The identity element.
    fn mempty() -> (r: Self)
        ensures
            r == Self::mempty_model(),
    ;

    /// Combine two values to produce a third.
    fn mappend(self, other: Self) -> (r: Self)
        ensures
            r == self.mappend_model(other),
    ;

    /// The combine is associative.
    proof fn lemma_mappend_associativity(a: Self, b: Self, c: Self)
        ensures
            a.mappend_model(b.mappend_model(c)) == a.mappend_model(b).mappend_model(c),
    ;

    /// `mempty` does nothing on the left.
    proof fn lemma_mappend_left_identity(a: Self)
        ensures
            Self::mempty_model().mappend_model(a) == a,
    ;

    /// `mempty` does nothing on the right.
    proof fn lemma_mappend_right_identity(a: Self)
        ensures
            a.mappend_model(Self::mempty_model()) == a,
    ;
}

/// The combine, as a function value for fold specifications.
pub open spec fn mappend_fn<M: Monoid>() -> spec_fn(M, M) -> M {
    |x: M, y: M| x.mappend_model(y)
}

/// Combine two values to produce a third.
pub fn mappend<M: Monoid>(a: M, b: M) -> (r: M)
    ensures
        r == a.mappend_model(b),
{
    M::mappend(a, b)
}

/// The identity element of a monoid.
pub fn mempty<M: Monoid>() -> (r: M)
    ensures
        r == M::mempty_model(),
{
    M::mempty()
}

/// Fold a container of monoid values onto itself, starting from `mempty`
/// and combining with `mappend`, walking the items in order with the item
/// on the left of the accumulator.
#[verifier::loop_isolation(false)]
pub fn mconcat<M: Monoid, F: Fold<M>>(f: F) -> (r: M)
    ensures
        r == foldr_model(f.items_model(), mappend_fn::<M>(), M::mempty_model()),
{
    let ghost items = f.items_model();
    let ghost sf = mappend_fn::<M>();
    let mut v = f.items();
    let mut acc = M::mempty();
    let ghost done: int = 0;
    while v.len() > 0
        invariant
            0 <= done <= items.len(),
            v@ == items.subrange(done, items.len() as int),
            foldr_model(items, sf, M::mempty_model()) == foldr_model(v@, sf, acc),
        decreases v@.len(),
    {
        let ghost prev = v@;
        let ghost acc0 = acc;
        let m = v.remove(0);
        proof {
            assert(prev.drop_first() =~= v@);
            assert(v@ =~= items.subrange(done + 1, items.len() as int));
        }
        acc = m.mappend(acc);
        proof {
            assert(foldr_model(prev, sf, acc0) == foldr_model(
                prev.drop_first(),
                sf,
                sf(prev[0], acc0),
            ));
            assert(acc == m.mappend_model(acc0));
            assert(sf(m, acc0) == m.mappend_model(acc0));
            done = done + 1;
        }
    }
    proof {
        assert(foldr_model(v@, sf, acc) == acc);
    }
    acc
}

} // verus!
