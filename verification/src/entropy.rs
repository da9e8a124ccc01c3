//! Entropy helpers for exercising monads: an inexpensive hash to chain
//! values through, and a bit-reversal as a second, different chaining step.

use crate::applicative::Applicative;
use core::hash::Hasher;
use vstd::prelude::*;

verus! {

/// Relies on ahash's `AHasher`: hashes anything hashable into a `u64`. The
/// hasher seeds itself per process, so nothing is promised of the answer.
#[verifier::external_body]
pub fn hash<H: core::hash::Hash>(h: H) -> u64 {
    let mut hasher = ahash::AHasher::default();
    h.hash(&mut hasher);
    hasher.finish()
}

/// Hashes anything hashable into a `u64` then wraps it with `consume`.
pub fn hash_consume<A: Applicative<u64>, H: core::hash::Hash>(h: H) -> (r: A)
    ensures
        exists|v: u64| r == A::consume_model(v),
{
    let v = hash(h);
    let r = A::consume(v);
    proof {
        assert(r == A::consume_model(v));
    }
    r
}

/// Does `r` hold `a`'s bits in reverse order?
pub open spec fn bits_reversed(a: u64, r: u64) -> bool {
    forall|i: u64| i < 64 ==> #[trigger] ((r >> i) & 1) == ((a >> ((63 - i) as u64)) & 1)
}

/// Relies on `u64::reverse_bits`: the least significant bit becomes the
/// most significant bit, and so on.
pub assume_specification[ u64::reverse_bits ](x: u64) -> (r: u64)
    ensures
        bits_reversed(x, r),
;

/// Reverses bits.
pub fn reverse(a: u64) -> (r: u64)
    ensures
        bits_reversed(a, r),
{
    a.reverse_bits()
}

/// Reverses bits then wraps the result with `consume`.
pub fn reverse_consume<A: Applicative<u64>>(a: u64) -> (r: A)
    ensures
        exists|v: u64| bits_reversed(a, v) && r == A::consume_model(v),
{
    let v = reverse(a);
    let r = A::consume(v);
    proof {
        assert(bits_reversed(a, v) && r == A::consume_model(v));
    }
    r
}

} // verus!
