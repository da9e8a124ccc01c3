//! An approximation to higher-kinded types: a family relation between a
//! container at one payload type and the same container at another.

use vstd::prelude::*;

verus! {

/// Relates `Self` (a container holding `A`) to the same container holding
/// `B`: the `Hkt` associated type names that sibling. Generic code can ask
/// for the rebound container without the language offering real
/// higher-kinded types.
pub trait Hkt<A, B> {
    /// `Self` with its payload position rebound from `A` to `B`.
    type Hkt;
}

} // verus!
