//! Where the session's random values come from.

use vstd::prelude::*;

verus! {

/// `rand::random`, which draws a value of the type asked for from the
/// generator of the calling thread. Nothing is claimed of the value drawn.
///
/// The generator is seeded from the operating system when a thread first
/// uses it, and the call panics if that fails.
pub assume_specification<T>[ rand::random::<T> ]() -> (value: T) where
    rand::distributions::Standard: rand::distributions::Distribution<T>,
;

} // verus!
