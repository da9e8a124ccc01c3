//! The Alternative typeclass: picking a successful result out of two
//! fallible operations.

use crate::applicative::Applicative;
use vstd::prelude::*;

verus! {

/// An Applicative with a failure value and a lazy "first success" choice.
///
/// `either` takes its second operand as a thunk: a container that already
/// holds a success never runs it. The contract says exactly that — the
/// result is `either_model(self, other)` where `other` either came out of
/// the thunk, or cannot matter because every choice of it gives the same
/// result. Every implementation proves that the choice is a monoid with
/// `empty` as its identity.
pub trait Alternative<A>: Applicative<A> {
    /// The mathematical failure value.
    spec fn empty_model() -> Self;

    /// The mathematical choice between two values.
    spec fn either_model(self, other: Self) -> Self;

    /// Value representing failure/emptiness/nothingness.
    fn empty() -> (r: Self)
        ensures
            r == Self::empty_model(),
    ;

    /// Return a successful result if we have one; make the other only when
    /// it is needed.
    fn either<F: FnOnce() -> Self>(self, make_other: F) -> (r: Self)
        requires
            call_requires(make_other, ()),
        ensures
            exists|other: Self|
                r == self.either_model(other) && (call_ensures(make_other, (), other) || (forall|
                    o1: Self,
                    o2: Self,
                |
                    self.either_model(o1) == self.either_model(o2))),
    ;

    /// The choice is associative.
    proof fn lemma_either_associativity(a: Self, b: Self, c: Self)
        ensures
            a.either_model(b.either_model(c)) == a.either_model(b).either_model(c),
    ;

    /// `empty` is the left identity of the choice.
    proof fn lemma_either_left_identity(a: Self)
        ensures
            Self::empty_model().either_model(a) == a,
    ;

    /// `empty` is the right identity of the choice.
    proof fn lemma_either_right_identity(a: Self)
        ensures
            a.either_model(Self::empty_model()) == a,
    ;
}

/// Value representing failure/emptiness/nothingness.
pub fn empty<AA: Alternative<A>, A>() -> (r: AA)
    ensures
        r == AA::empty_model(),
{
    AA::empty()
}

/// Run the first alternative and give it the second as its fallback.
pub fn either<AA: Alternative<A>, A, F: FnOnce() -> AA>(f1: F, f2: F) -> (r: AA)
    requires
        call_requires(f1, ()),
        call_requires(f2, ()),
    ensures
        exists|first: AA, other: AA|
            call_ensures(f1, (), first) && r == first.either_model(other) && (call_ensures(
                f2,
                (),
                other,
            ) || (forall|o1: AA, o2: AA| first.either_model(o1) == first.either_model(o2))),
{
    let first = f1();
    first.either(f2)
}

/// Return empty or a trivial value based on a predicate.
pub fn guard<AA: Alternative<()>>(b: bool) -> (r: AA)
    ensures
        r == if b {
            AA::consume_model(())
        } else {
            AA::empty_model()
        },
{
    if b {
        AA::consume(())
    } else {
        AA::empty()
    }
}

/// The fold of a sequence of alternatives: starting from `acc`, choose
/// between the accumulator and each element in turn.
pub open spec fn alt_chain<T: Alternative<X>, X>(acc: T, s: Seq<T>) -> T
    decreases s.len(),
{
    if s.len() == 0 {
        acc
    } else {
        alt_chain(acc.either_model(s[0]), s.drop_first())
    }
}

} // verus!
