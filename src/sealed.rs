use vstd::prelude::*;

verus! {

/// Closes the set of ownership kinds to this crate.
pub trait Sealed {}

/// Closes the exclusive-heap discipline to this crate.
pub trait FromBoxSealed {}

/// Closes the shared-heap discipline to this crate.
pub trait FromArcSealed {}

/// Closes the borrowed-only discipline to this crate.
pub trait FromRefSealed {}

} // verus!
