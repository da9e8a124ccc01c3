//! The byte-wide sum monoid.

use crate::monoid::Monoid;
use vstd::prelude::*;

verus! {

/// Bytes under wrapping addition, with zero as the identity.
#[derive(Clone, Copy, Debug, Default, Eq, Hash, Ord, PartialEq, PartialOrd)]
pub struct SumU8(pub u8);

impl Monoid for SumU8 {
    open spec fn mempty_model() -> Self {
        SumU8(0)
    }

    open spec fn mappend_model(self, other: Self) -> Self {
        SumU8(vstd::wrapping::u8_specs::wrapping_add(self.0, other.0))
    }

    fn mempty() -> (r: Self) {
        SumU8(0)
    }

    fn mappend(self, other: Self) -> (r: Self) {
        SumU8(self.0.wrapping_add(other.0))
    }

    proof fn lemma_mappend_associativity(a: Self, b: Self, c: Self) {
    }

    proof fn lemma_mappend_left_identity(a: Self) {
    }

    proof fn lemma_mappend_right_identity(a: Self) {
    }
}

} // verus!
