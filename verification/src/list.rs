//! The `List` monad: nondeterminism, a value with many simultaneous
//! possibilities.

use crate::fold::Fold;
use crate::hkt::Hkt;
use crate::maybe::Maybe;
use vstd::prelude::*;
use vstd::std_specs::cmp::PartialEqSpec;

verus! {

/// Encodes nondeterminism: an ordered collection of simultaneous values,
/// whose `bind` runs the continuation on every one of them and chains the
/// results in order.
#[derive(Debug, Default, Eq, Hash, Ord, PartialEq, PartialOrd)]
pub struct List<A>(Vec<A>);

impl<A> View for List<A> {
    type V = Seq<A>;

    closed spec fn view(&self) -> Seq<A> {
        self.0@
    }
}

/// The mathematical chain at any pair of payload types: every element runs
/// through `f` and the resulting lists are concatenated in order.
pub open spec fn seq_bind<A, B>(s: Seq<A>, f: spec_fn(A) -> Seq<B>) -> Seq<B>
    decreases s.len(),
{
    if s.len() == 0 {
        Seq::empty()
    } else {
        f(s[0]) + seq_bind(s.drop_first(), f)
    }
}

/// Chaining distributes over concatenation.
pub proof fn lemma_seq_bind_concat<A, B>(s1: Seq<A>, s2: Seq<A>, f: spec_fn(A) -> Seq<B>)
    ensures
        seq_bind(s1 + s2, f) == seq_bind(s1, f) + seq_bind(s2, f),
    decreases s1.len(),
{
    if s1.len() == 0 {
        assert(s1 + s2 =~= s2);
        assert(seq_bind(s1, f) + seq_bind(s2, f) =~= seq_bind(s2, f));
    } else {
        lemma_seq_bind_concat(s1.drop_first(), s2, f);
        assert((s1 + s2).drop_first() =~= s1.drop_first() + s2);
        assert((s1 + s2)[0] == s1[0]);
        assert(f(s1[0]) + (seq_bind(s1.drop_first(), f) + seq_bind(s2, f)) =~= (f(s1[0]) + seq_bind(
            s1.drop_first(),
            f,
        )) + seq_bind(s2, f));
    }
}

/// Left identity at the sequence level: chaining a one-element list is just
/// running the function.
pub proof fn lemma_seq_bind_left_identity<A, B>(a: A, f: spec_fn(A) -> Seq<B>)
    ensures
        seq_bind(seq![a], f) == f(a),
{
    assert(seq![a][0] == a);
    assert(seq![a].drop_first() =~= Seq::<A>::empty());
    assert(seq_bind(seq![a], f) == f(a) + seq_bind(Seq::<A>::empty(), f));
    assert(f(a) + Seq::<B>::empty() =~= f(a));
}

/// Right identity at the sequence level: chaining into singletons rebuilds
/// the list.
pub proof fn lemma_seq_bind_right_identity<A>(s: Seq<A>)
    ensures
        seq_bind(s, |a: A| seq![a]) == s,
    decreases s.len(),
{
    let f = |a: A| seq![a];
    if s.len() == 0 {
        assert(seq_bind(s, f) =~= s);
    } else {
        lemma_seq_bind_right_identity(s.drop_first());
        assert(seq_bind(s, f) == f(s[0]) + seq_bind(s.drop_first(), f));
        assert(f(s[0]) + s.drop_first() =~= s);
    }
}

/// Associativity at the sequence level.
pub proof fn lemma_seq_bind_associativity<A, B, C>(
    s: Seq<A>,
    f: spec_fn(A) -> Seq<B>,
    g: spec_fn(B) -> Seq<C>,
)
    ensures
        seq_bind(seq_bind(s, f), g) == seq_bind(s, |a: A| seq_bind(f(a), g)),
    decreases s.len(),
{
    let fg = |a: A| seq_bind(f(a), g);
    if s.len() == 0 {
        assert(seq_bind(seq_bind(s, f), g) =~= seq_bind(s, fg));
    } else {
        lemma_seq_bind_associativity(s.drop_first(), f, g);
        lemma_seq_bind_concat(f(s[0]), seq_bind(s.drop_first(), f), g);
        assert(seq_bind(s, f) == f(s[0]) + seq_bind(s.drop_first(), f));
        assert(seq_bind(seq_bind(s, f), g) == seq_bind(f(s[0]), g) + seq_bind(
            seq_bind(s.drop_first(), f),
            g,
        ));
        assert(seq_bind(s, fg) == fg(s[0]) + seq_bind(s.drop_first(), fg));
    }
}

/// Mapping is chaining into singletons.
pub proof fn lemma_seq_bind_map<A, B>(s: Seq<A>, f: spec_fn(A) -> B)
    ensures
        seq_bind(s, |a: A| seq![f(a)]) == s.map_values(f),
    decreases s.len(),
{
    let sf = |a: A| seq![f(a)];
    if s.len() == 0 {
        assert(seq_bind(s, sf) =~= s.map_values(f));
    } else {
        lemma_seq_bind_map(s.drop_first(), f);
        assert(seq_bind(s, sf) == sf(s[0]) + seq_bind(s.drop_first(), sf));
        assert(sf(s[0]) + s.drop_first().map_values(f) =~= s.map_values(f));
    }
}

impl<A> List<A> {
    /// Wrap one value as a one-element list.
    pub fn consume(a: A) -> (r: List<A>)
        ensures
            r@ == seq![a],
    {
        let mut v: Vec<A> = Vec::new();
        v.push(a);
        List(v)
    }

    /// Chain every element through `f`, concatenating the resulting lists
    /// in order. The payload type may change.
    pub fn bind<B, F: Fn(A) -> List<B>>(self, f: F) -> (r: List<B>)
        requires
            forall|a: A| self@.contains(a) ==> call_requires(f, (a,)),
        ensures
            forall|sf: spec_fn(A) -> Seq<B>|
                (forall|a: A, out: List<B>|
                    self@.contains(a) && #[trigger] call_ensures(f, (a,), out) ==> out@ == sf(a))
                    ==> r@ == seq_bind(self@, sf),
    {
        let ghost s = self@;
        let mut v = self.0;
        let mut out: Vec<B> = Vec::new();
        let ghost done: int = 0;
        loop
            invariant
                s == self@,
                forall|a: A| s.contains(a) ==> call_requires(f, (a,)),
                0 <= done <= s.len(),
                v@ == s.subrange(done, s.len() as int),
                forall|sf: spec_fn(A) -> Seq<B>|
                    (forall|a: A, o2: List<B>|
                        s.contains(a) && #[trigger] call_ensures(f, (a,), o2) ==> o2@ == sf(a))
                        ==> out@ + seq_bind(v@, sf) == seq_bind(s, sf),
            decreases v@.len(),
        {
            if v.len() == 0 {
                let r = List(out);
                proof {
                    assert forall|sf: spec_fn(A) -> Seq<B>|
                        (forall|a: A, o2: List<B>|
                            s.contains(a) && #[trigger] call_ensures(f, (a,), o2) ==> o2@ == sf(
                                a,
                            )) implies r@ == seq_bind(s, sf) by {
                        assert(r@ + seq_bind(v@, sf) == seq_bind(s, sf));
                        assert(r@ + seq_bind(v@, sf) =~= r@);
                    }
                }
                return r;
            }
            let ghost prev = v@;
            let a = v.remove(0);
            proof {
                assert(prev.drop_first() =~= v@);
                assert(s.contains(a)) by {
                    assert(s[done] == a);
                }
            }
            let mut extra = f(a);
            let ghost extra_view = extra@;
            let ghost out0 = out@;
            out.append(&mut extra.0);
            proof {
                done = done + 1;
                assert forall|sf: spec_fn(A) -> Seq<B>|
                    (forall|a2: A, o2: List<B>|
                        s.contains(a2) && #[trigger] call_ensures(f, (a2,), o2) ==> o2@ == sf(
                            a2,
                        )) implies out@ + seq_bind(v@, sf) == seq_bind(s, sf) by {
                    assert(seq_bind(prev, sf) == sf(prev[0]) + seq_bind(prev.drop_first(), sf));
                    assert(extra_view == sf(a));
                    assert(out@ + seq_bind(v@, sf) =~= out0 + (extra_view + seq_bind(v@, sf)));
                    assert(extra_view + seq_bind(v@, sf) == seq_bind(prev, sf));
                    assert(out0 + seq_bind(prev, sf) == seq_bind(s, sf));
                }
            }
        }
    }
}

impl<A> List<A> {
    /// Make a list from a vector, keeping the elements in order.
    pub fn from_vec(v: Vec<A>) -> (r: List<A>)
        ensures
            r@ == v@,
    {
        List(v)
    }

    /// Give the elements back as a vector, in order.
    pub fn into_vec(self) -> (r: Vec<A>)
        ensures
            r@ == self@,
    {
        self.0
    }

    /// Map every element through `f`, keeping the order. The payload type
    /// may change.
    pub fn fmap<B, F: Fn(A) -> B>(self, f: F) -> (r: List<B>)
        requires
            forall|a: A| self@.contains(a) ==> call_requires(f, (a,)),
        ensures
            r@.len() == self@.len(),
            forall|i: int|
                0 <= i < self@.len() ==> call_ensures(f, (self@[i],), #[trigger] r@[i]),
            forall|sf: spec_fn(A) -> B|
                (forall|a: A, out: B|
                    self@.contains(a) && #[trigger] call_ensures(f, (a,), out) ==> out == sf(a))
                    ==> r@ == self@.map_values(sf),
    {
        let ghost s = self@;
        let mut v = self.0;
        let mut out: Vec<B> = Vec::new();
        let ghost done: int = 0;
        loop
            invariant
                s == self@,
                forall|a: A| s.contains(a) ==> call_requires(f, (a,)),
                0 <= done <= s.len(),
                done == out@.len(),
                v@ == s.subrange(done, s.len() as int),
                forall|i: int| 0 <= i < done ==> call_ensures(f, (s[i],), #[trigger] out@[i]),
                forall|sf: spec_fn(A) -> B|
                    (forall|a: A, o2: B|
                        s.contains(a) && #[trigger] call_ensures(f, (a,), o2) ==> o2 == sf(a))
                        ==> out@ == s.subrange(0, done).map_values(sf),
            decreases v@.len(),
        {
            if v.len() == 0 {
                let r = List(out);
                proof {
                    assert forall|sf: spec_fn(A) -> B|
                        (forall|a: A, o2: B|
                            s.contains(a) && #[trigger] call_ensures(f, (a,), o2) ==> o2 == sf(
                                a,
                            )) implies r@ == s.map_values(sf) by {
                        assert(r@ == s.subrange(0, done).map_values(sf));
                        assert(s.subrange(0, done) =~= s);
                    }
                }
                return r;
            }
            let ghost prev = v@;
            let a = v.remove(0);
            proof {
                assert(prev.drop_first() =~= v@);
                assert(s.contains(a)) by {
                    assert(s[done] == a);
                }
            }
            let b = f(a);
            out.push(b);
            proof {
                done = done + 1;
                assert forall|sf: spec_fn(A) -> B|
                    (forall|a2: A, o2: B|
                        s.contains(a2) && #[trigger] call_ensures(f, (a2,), o2) ==> o2 == sf(
                            a2,
                        )) implies out@ == s.subrange(0, done).map_values(sf) by {
                    assert(out@ =~= s.subrange(0, done - 1).map_values(sf).push(sf(a)));
                    assert(s.subrange(0, done).map_values(sf) =~= s.subrange(0, done - 1).map_values(
                        sf,
                    ).push(sf(s[done - 1])));
                }
            }
        }
    }

    /// Check if this list is empty (zero elements).
    pub fn is_empty(&self) -> (r: bool)
        ensures
            r == (self@.len() == 0),
    {
        self.0.len() == 0
    }

    /// Length of the list.
    pub fn len(&self) -> (r: usize)
        ensures
            r == self@.len(),
    {
        self.0.len()
    }

    /// Keeps the first `n` elements and drops the rest.
    pub fn truncate(&mut self, n: usize)
        ensures
            n <= old(self)@.len() ==> final(self)@ == old(self)@.subrange(0, n as int),
            n > old(self)@.len() ==> final(self)@ == old(self)@,
    {
        self.0.truncate(n);
    }

    /// Inserts an element at an index, pushing the rest back an index.
    pub fn insert(&mut self, index: usize, element: A)
        requires
            index <= old(self)@.len(),
        ensures
            final(self)@ == old(self)@.insert(index as int, element),
    {
        self.0.insert(index, element);
    }

    /// Removes the element at an index and returns it, pushing the rest
    /// left an index.
    pub fn remove(&mut self, index: usize) -> (r: A)
        requires
            index < old(self)@.len(),
        ensures
            r == old(self)@[index as int],
            final(self)@ == old(self)@.remove(index as int),
    {
        self.0.remove(index)
    }

    /// Returns the element at an index and moves *the last element* into
    /// its place.
    pub fn swap_remove(&mut self, index: usize) -> (r: A)
        requires
            index < old(self)@.len(),
        ensures
            r == old(self)@[index as int],
            final(self)@ == old(self)@.update(index as int, old(self)@.last()).drop_last(),
    {
        self.0.swap_remove(index)
    }

    /// Adds an element at the end of the list.
    pub fn push(&mut self, a: A)
        ensures
            final(self)@ == old(self)@.push(a),
    {
        self.0.push(a);
    }

    /// Removes and returns the last element of the list, if any.
    pub fn pop(&mut self) -> (r: Maybe<A>)
        ensures
            old(self)@.len() > 0 ==> r == Maybe::Just(old(self)@.last()) && final(self)@ == old(
                self,
            )@.drop_last(),
            old(self)@.len() == 0 ==> r == Maybe::<A>::Nothing && final(self)@ == old(self)@,
    {
        match self.0.pop() {
            Some(a) => Maybe::Just(a),
            None => Maybe::Nothing,
        }
    }

    /// Moves all elements of `other` onto the end of this list.
    pub fn append(&mut self, other: &mut List<A>)
        ensures
            final(self)@ == old(self)@ + old(other)@,
            final(other)@ == Seq::<A>::empty(),
    {
        self.0.append(&mut other.0);
    }

    /// Drops all elements except those satisfying the given predicate.
    pub fn retain<F: Fn(&A) -> bool>(&mut self, f: F)
        requires
            forall|a: &A| call_requires(f, (a,)),
        ensures
            forall|sf: spec_fn(A) -> bool|
                (forall|a: &A, out: bool| #[trigger] call_ensures(f, (a,), out) ==> out == sf(*a))
                    ==> final(self)@ == old(self)@.filter(sf),
    {
        let ghost s = self@;
        let mut v: Vec<A> = Vec::new();
        core::mem::swap(&mut v, &mut self.0);
        let ghost done: int = 0;
        loop
            invariant
                s == old(self)@,
                0 <= done <= s.len(),
                forall|a: &A| call_requires(f, (a,)),
                v@ == s.subrange(done, s.len() as int),
                forall|sf: spec_fn(A) -> bool|
                    (forall|a: &A, o2: bool|
                        #[trigger] call_ensures(f, (a,), o2) ==> o2 == sf(*a)) ==> self.0@
                        == s.subrange(0, done).filter(sf),
            decreases v@.len(),
        {
            if v.len() == 0 {
                proof {
                    assert forall|sf: spec_fn(A) -> bool|
                        (forall|a: &A, o2: bool|
                            #[trigger] call_ensures(f, (a,), o2) ==> o2 == sf(*a)) implies self.0@
                        == s.filter(sf) by {
                        assert(self.0@ == s.subrange(0, done).filter(sf));
                        assert(s.subrange(0, done) =~= s);
                    }
                }
                return ;
            }
            let ghost prev = v@;
            let a = v.remove(0);
            proof {
                assert(prev.drop_first() =~= v@);
            }
            let keep = f(&a);
            let ghost kept0 = self.0@;
            if keep {
                self.0.push(a);
            }
            proof {
                done = done + 1;
                assert forall|sf: spec_fn(A) -> bool|
                    (forall|a2: &A, o2: bool|
                        #[trigger] call_ensures(f, (a2,), o2) ==> o2 == sf(*a2)) implies self.0@
                    == s.subrange(0, done).filter(sf) by {
                    assert(kept0 == s.subrange(0, done - 1).filter(sf));
                    assert(keep == sf(a));
                    assert(s.subrange(0, done) =~= s.subrange(0, done - 1).push(s[done - 1]));
                    reveal(Seq::filter);
                    let sub = s.subrange(0, done - 1);
                    assert(sub.push(a).drop_last() =~= sub);
                    assert(sub.push(a).last() == a);
                    assert(sub.push(a).filter(sf) == if sf(a) {
                        sub.filter(sf).push(a)
                    } else {
                        sub.filter(sf)
                    });
                }
            }
        }
    }
}

impl<A, B> Hkt<A, B> for List<A> {
    type Hkt = List<B>;
}

impl<A> Fold<A> for List<A> {
    open spec fn items_model(self) -> Seq<A> {
        self@
    }

    fn items(self) -> (r: Vec<A>) {
        self.0
    }
}

/// Relies on `Vec::capacity`: how many elements the backing store can hold
/// without reallocating. Nothing is promised of the answer.
#[verifier::external_body]
fn vec_capacity<A>(v: &Vec<A>) -> usize {
    v.capacity()
}

/// Relies on `Vec::reserve_exact`: makes room for at least `additional`
/// more elements without touching the contents.
#[verifier::external_body]
fn vec_reserve_exact<A>(v: &mut Vec<A>, additional: usize)
    ensures
        final(v)@ == old(v)@,
{
    v.reserve_exact(additional)
}

impl<A> List<A> {
    /// Check if a value is in this list. The answer is pinned whenever the
    /// element type's equality behaves like its specification and that
    /// specification is real equality.
    pub fn contains(&self, a: &A) -> (r: bool)
        where A: PartialEq + PartialEqSpec
        ensures
            A::obeys_eq_spec() && (forall|x: A, y: A| x.eq_spec(&y) == (x == y)) ==> r
                == self@.contains(*a),
    {
        let n = self.0.len();
        let mut i: usize = 0;
        while i < n
            invariant
                n == self@.len(),
                i <= n,
                A::obeys_eq_spec() && (forall|x: A, y: A| x.eq_spec(&y) == (x == y)) ==> forall|
                    k: int,
                |
                    0 <= k < i ==> self@[k] != *a,
            decreases n - i,
        {
            if self.0[i] == *a {
                proof {
                    if A::obeys_eq_spec() && (forall|x: A, y: A| x.eq_spec(&y) == (x == y)) {
                        assert(self@[i as int] == *a);
                    }
                }
                return true;
            }
            i += 1;
        }
        proof {
            if A::obeys_eq_spec() && (forall|x: A, y: A| x.eq_spec(&y) == (x == y)) {
                if self@.contains(*a) {
                    let k = choose|k: int| 0 <= k < self@.len() && self@[k] == *a;
                    assert(self@[k] != *a);
                }
            }
        }
        false
    }

    /// Check if this list starts with the given prefix.
    pub fn starts_with(&self, needle: &Vec<A>) -> (r: bool)
        where A: PartialEq + PartialEqSpec
        ensures
            A::obeys_eq_spec() && (forall|x: A, y: A| x.eq_spec(&y) == (x == y)) ==> r == (
            needle@.len() <= self@.len() && self@.subrange(0, needle@.len() as int) == needle@),
    {
        let n = needle.len();
        if n > self.0.len() {
            return false;
        }
        let mut i: usize = 0;
        while i < n
            invariant
                n == needle@.len() <= self@.len(),
                i <= n,
                A::obeys_eq_spec() && (forall|x: A, y: A| x.eq_spec(&y) == (x == y)) ==> forall|
                    k: int,
                |
                    0 <= k < i ==> self@[k] == needle@[k],
            decreases n - i,
        {
            if !(self.0[i] == needle[i]) {
                proof {
                    if A::obeys_eq_spec() && (forall|x: A, y: A| x.eq_spec(&y) == (x == y)) {
                        assert(self@[i as int] != needle@[i as int]);
                        assert(self@.subrange(0, n as int)[i as int] == self@[i as int]);
                    }
                }
                return false;
            }
            i += 1;
        }
        proof {
            if A::obeys_eq_spec() && (forall|x: A, y: A| x.eq_spec(&y) == (x == y)) {
                assert(self@.subrange(0, n as int) =~= needle@);
            }
        }
        true
    }

    /// Check if this list ends with the given suffix.
    pub fn ends_with(&self, needle: &Vec<A>) -> (r: bool)
        where A: PartialEq + PartialEqSpec
        ensures
            A::obeys_eq_spec() && (forall|x: A, y: A| x.eq_spec(&y) == (x == y)) ==> r == (
            needle@.len() <= self@.len() && self@.subrange(
                self@.len() - needle@.len(),
                self@.len() as int,
            ) == needle@),
    {
        let n = needle.len();
        let m = self.0.len();
        if n > m {
            return false;
        }
        let off = m - n;
        let mut i: usize = 0;
        while i < n
            invariant
                n == needle@.len(),
                m == self@.len(),
                n <= m,
                off == m - n,
                i <= n,
                A::obeys_eq_spec() && (forall|x: A, y: A| x.eq_spec(&y) == (x == y)) ==> forall|
                    k: int,
                |
                    0 <= k < i ==> self@[off + k] == needle@[k],
            decreases n - i,
        {
            if !(self.0[off + i] == needle[i]) {
                proof {
                    if A::obeys_eq_spec() && (forall|x: A, y: A| x.eq_spec(&y) == (x == y)) {
                        assert(self@.subrange(off as int, m as int)[i as int] == self@[off + i]);
                    }
                }
                return false;
            }
            i += 1;
        }
        proof {
            if A::obeys_eq_spec() && (forall|x: A, y: A| x.eq_spec(&y) == (x == y)) {
                assert(self@.subrange(off as int, m as int) =~= needle@);
            }
        }
        true
    }

    /// How many elements the backing store can hold without reallocating.
    pub fn capacity(&self) -> usize {
        vec_capacity(&self.0)
    }

    /// Make room for at least `additional` more elements.
    pub fn reserve(&mut self, additional: usize)
        ensures
            final(self)@ == old(self)@,
    {
        self.0.reserve(additional);
    }

    /// Make room for exactly `additional` more elements.
    pub fn reserve_exact(&mut self, additional: usize)
        ensures
            final(self)@ == old(self)@,
    {
        vec_reserve_exact(&mut self.0, additional);
    }
}

/// The concatenation of the contents of many lists, in order.
pub open spec fn concat_views<B>(outs: Seq<List<B>>) -> Seq<B>
    decreases outs.len(),
{
    if outs.len() == 0 {
        Seq::empty()
    } else {
        outs[0]@ + concat_views(outs.drop_first())
    }
}

impl<F> List<F> {
    /// Fold a list of thunks that produce lists: a list's choice keeps
    /// everything, so every thunk runs and the results are concatenated in
    /// order.
    #[verifier::loop_isolation(false)]
    pub fn asum<B>(self) -> (r: List<B>) where F: FnOnce() -> List<B>
        requires
            forall|t: F| call_requires(t, ()),
        ensures
            exists|outs: Seq<List<B>>|
                {
                    &&& outs.len() == self@.len()
                    &&& forall|i: int|
                        0 <= i < self@.len() ==> call_ensures(self@[i], (), #[trigger] outs[i])
                    &&& r@ == concat_views(outs)
                },
    {
        let ghost items = self@;
        let mut v = self.0;
        let mut out: Vec<B> = Vec::new();
        let ghost done: int = 0;
        let ghost outs: Seq<List<B>> = Seq::empty();
        loop
            invariant
                0 <= done <= items.len(),
                v@ == items.subrange(done, items.len() as int),
                outs.len() == done,
                forall|i: int| 0 <= i < done ==> call_ensures(items[i], (), #[trigger] outs[i]),
                out@ == concat_views(outs),
            decreases v@.len(),
        {
            if v.len() == 0 {
                let r = List(out);
                proof {
                    assert(items.subrange(0, done) =~= items);
                }
                return r;
            }
            let ghost prev = v@;
            let t = v.remove(0);
            proof {
                assert(prev.drop_first() =~= v@);
                assert(items[done] == t);
            }
            let mut produced = t();
            let ghost produced_snap = produced;
            out.append(&mut produced.0);
            proof {
                let outs2 = outs.push(produced_snap);
                assert(out@ == concat_views(outs) + produced_snap@);
                lemma_concat_views_push(outs, produced_snap);
                outs = outs2;
                done = done + 1;
            }
        }
    }
}

/// Concatenation grows on the right when one more list is pushed.
proof fn lemma_concat_views_push<B>(outs: Seq<List<B>>, x: List<B>)
    ensures
        concat_views(outs.push(x)) == concat_views(outs) + x@,
    decreases outs.len(),
{
    if outs.len() == 0 {
        assert(outs.push(x)[0] == x);
        assert(outs.push(x).drop_first() =~= Seq::<List<B>>::empty());
        assert(concat_views(Seq::<List<B>>::empty()) == Seq::<B>::empty());
        assert(outs.push(x).len() == 1);
        assert(concat_views(outs.push(x)) == outs.push(x)[0]@ + concat_views(
            outs.push(x).drop_first(),
        ));
        assert(concat_views(outs.push(x)) == x@ + Seq::<B>::empty());
        assert(x@ + Seq::<B>::empty() =~= x@);
        assert(concat_views(outs) + x@ =~= x@);
    } else {
        lemma_concat_views_push(outs.drop_first(), x);
        assert(outs.push(x).drop_first() =~= outs.drop_first().push(x));
        assert(outs.push(x)[0] == outs[0]);
        assert(concat_views(outs.push(x)) == outs[0]@ + concat_views(outs.drop_first().push(x)));
        assert(outs[0]@ + (concat_views(outs.drop_first()) + x@) =~= (outs[0]@ + concat_views(
            outs.drop_first(),
        )) + x@);
    }
}

impl<A> List<List<A>> {
    /// Flatten a list of lists into one list, keeping the order.
    pub fn join(self) -> (r: List<A>)
        ensures
            r@ == concat_views(self@),
    {
        let ghost items = self@;
        let mut v = self.0;
        let mut out: Vec<A> = Vec::new();
        let ghost done: int = 0;
        let ghost outs: Seq<List<A>> = Seq::empty();
        loop
            invariant
                items == self@,
                0 <= done <= items.len(),
                v@ == items.subrange(done, items.len() as int),
                outs =~= items.subrange(0, done),
                out@ == concat_views(outs),
            decreases v@.len(),
        {
            if v.len() == 0 {
                proof {
                    assert(outs =~= items);
                    assert(concat_views(outs) == concat_views(items));
                }
                return List(out);
            }
            let ghost prev = v@;
            let mut inner = v.remove(0);
            proof {
                assert(prev.drop_first() =~= v@);
                assert(items[done] == inner);
            }
            let ghost inner_snap = inner;
            out.append(&mut inner.0);
            proof {
                lemma_concat_views_push(outs, inner_snap);
                outs = outs.push(inner_snap);
                done = done + 1;
                assert(outs =~= items.subrange(0, done));
            }
        }
    }
}

} // verus!
