//! The machine-word product monoid.

use crate::monoid::Monoid;
use vstd::arithmetic::div_mod::{lemma_mul_mod_noop_general, lemma_small_mod};
use vstd::arithmetic::mul::lemma_mul_is_associative;
use vstd::prelude::*;

verus! {

/// Numbers under wrapping multiplication, with one as the identity.
#[derive(Clone, Copy, Debug, Default, Eq, Hash, Ord, PartialEq, PartialOrd)]
pub struct Product(pub usize);

/// Wrapping multiplication is associative: both groupings are the plain
/// product reduced modulo the word size.
proof fn lemma_wrapping_mul_associative(x: usize, y: usize, z: usize)
    ensures
        vstd::wrapping::usize_specs::wrapping_mul(
            vstd::wrapping::usize_specs::wrapping_mul(x, y),
            z,
        ) == vstd::wrapping::usize_specs::wrapping_mul(
            x,
            vstd::wrapping::usize_specs::wrapping_mul(y, z),
        ),
{
    let m = usize::MAX as int + 1;
    lemma_mul_mod_noop_general(x as int * y as int, z as int, m);
    lemma_mul_mod_noop_general(x as int, y as int * z as int, m);
    lemma_mul_is_associative(x as int, y as int, z as int);
}

impl Monoid for Product {
    open spec fn mempty_model() -> Self {
        Product(1)
    }

    open spec fn mappend_model(self, other: Self) -> Self {
        Product(vstd::wrapping::usize_specs::wrapping_mul(self.0, other.0))
    }

    fn mempty() -> (r: Self) {
        Product(1)
    }

    fn mappend(self, other: Self) -> (r: Self) {
        Product(self.0.wrapping_mul(other.0))
    }

    proof fn lemma_mappend_associativity(a: Self, b: Self, c: Self) {
        lemma_wrapping_mul_associative(a.0, b.0, c.0);
    }

    proof fn lemma_mappend_left_identity(a: Self) {
        lemma_small_mod(a.0 as nat, (usize::MAX as nat) + 1);
    }

    proof fn lemma_mappend_right_identity(a: Self) {
        lemma_small_mod(a.0 as nat, (usize::MAX as nat) + 1);
    }
}

} // verus!
