use vstd::prelude::*;

verus! {

/// Closes `StableAny` to the types this crate knows how to identify: registered
/// types and stable handles. It stands in a private module, so nothing outside
/// the crate can name it.
pub trait Sealed {}

} // verus!
