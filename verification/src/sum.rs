//! The machine-word sum monoid.

use crate::monoid::Monoid;
use vstd::prelude::*;

verus! {

/// Numbers under wrapping addition, with zero as the identity.
#[derive(Clone, Copy, Debug, Default, Eq, Hash, Ord, PartialEq, PartialOrd)]
pub struct Sum(pub usize);

impl Monoid for Sum {
    open spec fn mempty_model() -> Self {
        Sum(0)
    }

    open spec fn mappend_model(self, other: Self) -> Self {
        Sum(vstd::wrapping::usize_specs::wrapping_add(self.0, other.0))
    }

    fn mempty() -> (r: Self) {
        Sum(0)
    }

    fn mappend(self, other: Self) -> (r: Self) {
        Sum(self.0.wrapping_add(other.0))
    }

    proof fn lemma_mappend_associativity(a: Self, b: Self, c: Self) {
    }

    proof fn lemma_mappend_left_identity(a: Self) {
    }

    proof fn lemma_mappend_right_identity(a: Self) {
    }
}

} // verus!
