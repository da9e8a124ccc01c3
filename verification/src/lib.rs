//! Haskell-style monads for Rust, with the boilerplate for each instance
//! derived mechanically from a minimal definition: a data type, a `bind`, and
//! a `consume`. The expansion engine that performs that derivation is itself
//! part of this library and is verified: it parses a token stream against the
//! invocation grammar and assembles the derived implementations, and its
//! contracts pin down both the output and every diagnostic. The typeclass
//! hierarchy (Functor, Applicative, Monad, Alternative, Monoid, Fold) carries
//! its algebraic laws as proof obligations, so every instance in this crate
//! is proved, not merely tested, to satisfy them.

pub mod alternative;
pub mod applicative;
pub mod entropy;
pub mod expand;
pub mod flip_bind;
pub mod fold;
pub mod functor;
pub mod hazard;
pub mod hkt;
pub mod io;
pub mod laws;
pub mod list;
pub mod maybe;
pub mod monad;
pub mod monad_laws;
pub mod monoid;
pub mod orphans;
pub mod prod;
pub mod prod_u8;
pub mod sum;
pub mod sum_u8;
pub mod synth;
pub mod tokens;
