//! The byte-wide product monoid.

use crate::monoid::Monoid;
use vstd::arithmetic::div_mod::{lemma_mul_mod_noop_general, lemma_small_mod};
use vstd::arithmetic::mul::lemma_mul_is_associative;
use vstd::prelude::*;

verus! {

/// Bytes under wrapping multiplication, with one as the identity.
#[derive(Clone, Copy, Debug, Default, Eq, Hash, Ord, PartialEq, PartialOrd)]
pub struct ProductU8(pub u8);

/// Wrapping byte multiplication is associative.
proof fn lemma_wrapping_mul_u8_associative(x: u8, y: u8, z: u8)
    ensures
        vstd::wrapping::u8_specs::wrapping_mul(
            vstd::wrapping::u8_specs::wrapping_mul(x, y),
            z,
        ) == vstd::wrapping::u8_specs::wrapping_mul(
            x,
            vstd::wrapping::u8_specs::wrapping_mul(y, z),
        ),
{
    let m = u8::MAX as int + 1;
    lemma_mul_mod_noop_general(x as int * y as int, z as int, m);
    lemma_mul_mod_noop_general(x as int, y as int * z as int, m);
    lemma_mul_is_associative(x as int, y as int, z as int);
}

impl Monoid for ProductU8 {
    open spec fn mempty_model() -> Self {
        ProductU8(1)
    }

    open spec fn mappend_model(self, other: Self) -> Self {
        ProductU8(vstd::wrapping::u8_specs::wrapping_mul(self.0, other.0))
    }

    fn mempty() -> (r: Self) {
        ProductU8(1)
    }

    fn mappend(self, other: Self) -> (r: Self) {
        ProductU8(self.0.wrapping_mul(other.0))
    }

    proof fn lemma_mappend_associativity(a: Self, b: Self, c: Self) {
        lemma_wrapping_mul_u8_associative(a.0, b.0, c.0);
    }

    proof fn lemma_mappend_left_identity(a: Self) {
        lemma_small_mod(a.0 as nat, (u8::MAX as nat) + 1);
    }

    proof fn lemma_mappend_right_identity(a: Self) {
        lemma_small_mod(a.0 as nat, (u8::MAX as nat) + 1);
    }
}

} // verus!
