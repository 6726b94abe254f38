//! The supertrait that keeps `KeyModel` closed to types outside this crate.
use vstd::prelude::*;

verus! {

/// Implemented exactly for the types that implement `KeyModel`.
pub trait Sealed {}

} // verus!
