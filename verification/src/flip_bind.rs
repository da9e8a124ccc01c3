//! Binding with the arguments flipped: a helper for call sites that have
//! the continuation first.

use crate::monad::Monad;
use vstd::prelude::*;

verus! {

/// A marker for the payload type the flipped bind produces.
pub struct Flip<B>(pub core::marker::PhantomData<B>);

impl<B> Flip<B> {
    /// `bind` with the container on the left and the continuation on the
    /// right, taken as separate arguments.
    pub fn flip_bind<M: Monad<B>, F: Fn(B) -> M>(lhs: M, rhs: F) -> (r: M)
        requires
            forall|a: B| lhs.contains_model(a) ==> call_requires(rhs, (a,)),
        ensures
            forall|sf: spec_fn(B) -> M|
                (forall|a: B, out: M|
                    lhs.contains_model(a) && #[trigger] call_ensures(rhs, (a,), out) ==> out == sf(
                        a,
                    )) ==> r == lhs.bind_model(sf),
    {
        lhs.bind(rhs)
    }
}

} // verus!
