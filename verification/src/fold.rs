//! Foldable containers: anything that can hand its items out in order.

use crate::alternative::{alt_chain, Alternative};
use crate::monoid::Monoid;
use vstd::prelude::*;

verus! {

/// A fold that walks the items front to back, combining each item into the
/// accumulator as `f(item, acc)`.
pub open spec fn foldr_model<T, B>(s: Seq<T>, f: spec_fn(T, B) -> B, b: B) -> B
    decreases s.len(),
{
    if s.len() == 0 {
        b
    } else {
        foldr_model(s.drop_first(), f, f(s[0], b))
    }
}

/// A fold that walks the items back to front, combining each item into the
/// accumulator as `f(acc, item)`.
pub open spec fn foldl_model<T, B>(s: Seq<T>, f: spec_fn(B, T) -> B, b: B) -> B
    decreases s.len(),
{
    if s.len() == 0 {
        b
    } else {
        foldl_model(s.drop_last(), f, f(b, s.last()))
    }
}

/// A container that can hand its items out in order. `foldr` and `foldl`
/// (and the monoid and alternative folds built on them) all go through
/// `items`, so `items_model` is the one model everything shares.
pub trait Fold<T>: Sized {
    /// The items, in order.
    spec fn items_model(self) -> Seq<T>;

    /// Hand the items out in order.
    fn items(self) -> (r: Vec<T>)
        ensures
            r@ == self.items_model(),
    ;

    /// Takes an initial value and combines it with each item, walking front
    /// to back with the item on the left.
    fn foldr<B, F: Fn(T, B) -> B>(self, f: F, b: B) -> (r: B)
        requires
            forall|t: T, acc: B| call_requires(f, (t, acc)),
        ensures
            forall|sf: spec_fn(T, B) -> B|
                (forall|t: T, acc: B, out: B|
                    #[trigger] call_ensures(f, (t, acc), out) ==> out == sf(t, acc)) ==> r
                    == foldr_model(self.items_model(), sf, b),
    {
        let ghost items = self.items_model();
        let mut v = self.items();
        let mut acc = b;
        let ghost done: int = 0;
        while v.len() > 0
            invariant
                forall|t: T, a2: B| call_requires(f, (t, a2)),
                0 <= done <= items.len(),
                v@ == items.subrange(done, items.len() as int),
                forall|sf: spec_fn(T, B) -> B|
                    (forall|t: T, a2: B, out: B|
                        #[trigger] call_ensures(f, (t, a2), out) ==> out == sf(t, a2)) ==>
                        foldr_model(items, sf, b) == foldr_model(v@, sf, acc),
            decreases v@.len(),
        {
            let t = v.remove(0);
            proof {
                assert(v@ =~= items.subrange(done + 1, items.len() as int));
            }
            acc = f(t, acc);
            proof {
                done = done + 1;
            }
        }
        acc
    }

    /// Takes an initial value and combines it with each item, walking back
    /// to front with the item on the right.
    fn foldl<B, F: Fn(B, T) -> B>(self, f: F, b: B) -> (r: B)
        requires
            forall|acc: B, t: T| call_requires(f, (acc, t)),
        ensures
            forall|sf: spec_fn(B, T) -> B|
                (forall|acc: B, t: T, out: B|
                    #[trigger] call_ensures(f, (acc, t), out) ==> out == sf(acc, t)) ==> r
                    == foldl_model(self.items_model(), sf, b),
    {
        let ghost items = self.items_model();
        let mut v = self.items();
        let mut acc = b;
        proof {
            assert(v@ =~= items.subrange(0, v@.len() as int));
        }
        while v.len() > 0
            invariant
                forall|a2: B, t: T| call_requires(f, (a2, t)),
                v@.len() <= items.len(),
                v@ == items.subrange(0, v@.len() as int),
                forall|sf: spec_fn(B, T) -> B|
                    (forall|a2: B, t: T, out: B|
                        #[trigger] call_ensures(f, (a2, t), out) ==> out == sf(a2, t)) ==>
                        foldl_model(items, sf, b) == foldl_model(v@, sf, acc),
            decreases v@.len(),
        {
            let ghost prev = v@;
            let ghost acc0 = acc;
            let t = v.remove(v.len() - 1);
            proof {
                assert(prev.drop_last() =~= v@);
                assert(v@ =~= items.subrange(0, v@.len() as int));
            }
            acc = f(acc, t);
            proof {
                assert forall|sf: spec_fn(B, T) -> B|
                    (forall|a2: B, t2: T, out: B|
                        #[trigger] call_ensures(f, (a2, t2), out) ==> out == sf(a2, t2)) implies
                    foldl_model(items, sf, b) == foldl_model(v@, sf, acc) by {
                    assert(foldl_model(prev, sf, acc0) == foldl_model(
                        prev.drop_last(),
                        sf,
                        sf(acc0, prev.last()),
                    ));
                    assert(acc == sf(acc0, t));
                }
            }
        }
        acc
    }
}

/// Fold a container of monoid values onto itself: `mempty` as the initial
/// value, `mappend` as the combinator, items walked in order on the left.
pub fn unify<M: Monoid, F: Fold<M>>(f: F) -> (r: M)
    ensures
        r == foldr_model(f.items_model(), crate::monoid::mappend_fn::<M>(), M::mempty_model()),
{
    crate::monoid::mconcat(f)
}

/// Fold a container of alternatives: start with `empty` and choose with
/// `either`, walking the items in order.
#[verifier::loop_isolation(false)]
pub fn eager_asum<X, T: Alternative<X>, F: Fold<T>>(f: F) -> (r: T)
    ensures
        r == alt_chain(T::empty_model(), f.items_model()),
{
    let ghost items = f.items_model();
    let mut v = f.items();
    let mut acc = T::empty();
    let ghost done: int = 0;
    loop
        invariant
            0 <= done <= items.len(),
            v@ == items.subrange(done, items.len() as int),
            alt_chain(T::empty_model(), items) == alt_chain(acc, v@),
        decreases v@.len(),
    {
        if v.len() == 0 {
            proof {
                assert(alt_chain(acc, v@) == acc);
            }
            return acc;
        }
        let ghost prev = v@;
        let ghost acc0 = acc;
        let it = v.remove(0);
        proof {
            assert(prev.drop_first() =~= v@);
        }
        let ghost it_snapshot = it;
        let cl = (move || -> (o: T)
            ensures
                o == it_snapshot,
            { it });
        let next = acc.either(cl);
        proof {
            assert(next == acc0.either_model(it_snapshot)) by {
                let o = choose|o: T|
                    next == acc0.either_model(o) && (call_ensures(cl, (), o) || (forall|
                        o1: T,
                        o2: T,
                    |
                        acc0.either_model(o1) == acc0.either_model(o2)));
                if call_ensures(cl, (), o) {
                    assert(o == it_snapshot);
                }
            }
            assert(alt_chain(acc0, prev) == alt_chain(acc0.either_model(prev[0]), v@));
        }
        acc = next;
        proof {
            done = done + 1;
        }
    }
}

/// Could the lazy alternative fold of `thunks`, starting from `acc`, come
/// out as `r`? Each step chooses between the accumulator so far and a value
/// that either came out of that step's thunk, or cannot matter.
pub open spec fn asum_possible<X, AA: Alternative<X>, F: FnOnce() -> AA>(
    thunks: Seq<F>,
    acc: AA,
    r: AA,
) -> bool
    decreases thunks.len(),
{
    if thunks.len() == 0 {
        r == acc
    } else {
        exists|o: AA|
            #![trigger acc.either_model(o)]
            (call_ensures(thunks[0], (), o) || (forall|o1: AA, o2: AA|
                acc.either_model(o1) == acc.either_model(o2))) && asum_possible(
                thunks.drop_first(),
                acc.either_model(o),
                r,
            )
    }
}

/// Fold a container of lazy alternatives: start with `empty` and choose
/// with `either`, handing each thunk to the choice so that a thunk after an
/// already-successful accumulator is never run.
#[verifier::loop_isolation(false)]
pub fn asum<X, AA: Alternative<X>, T: FnOnce() -> AA, F: Fold<T>>(f: F) -> (r: AA)
    requires
        forall|t: T| call_requires(t, ()),
    ensures
        asum_possible(f.items_model(), AA::empty_model(), r),
{
    let ghost items = f.items_model();
    let mut v = f.items();
    let mut acc = AA::empty();
    let ghost done: int = 0;
    loop
        invariant
            0 <= done <= items.len(),
            v@ == items.subrange(done, items.len() as int),
            forall|x: AA|
                #[trigger] asum_possible(v@, acc, x) ==> asum_possible(
                    items,
                    AA::empty_model(),
                    x,
                ),
        decreases v@.len(),
    {
        if v.len() == 0 {
            proof {
                assert(asum_possible(v@, acc, acc));
            }
            return acc;
        }
        let ghost prev = v@;
        let ghost acc0 = acc;
        let t = v.remove(0);
        proof {
            assert(prev.drop_first() =~= v@);
        }
        let next = acc.either(t);
        acc = next;
        proof {
            let o = choose|o: AA|
                next == acc0.either_model(o) && (call_ensures(t, (), o) || (forall|
                    o1: AA,
                    o2: AA,
                |
                    acc0.either_model(o1) == acc0.either_model(o2)));
            done = done + 1;
            assert forall|x: AA| #[trigger] asum_possible(v@, acc, x) implies asum_possible(
                items,
                AA::empty_model(),
                x,
            ) by {
                assert(next == acc0.either_model(o));
                assert(asum_possible(v@, acc0.either_model(o), x));
                assert(asum_possible(prev, acc0, x));
            }
        }
    }
}


} // verus!
