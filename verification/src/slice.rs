//! Extension traits for slices over specific kinds of data.

use vstd::prelude::*;

verus! {

/// An extension trait for concatenating slices of concatenable things.
pub trait SliceConcatExt<T> {
    /// The resulting type after concatenation.
    type Output;

    /// Flattens `self` into a single value.
    fn concat(&self) -> Self::Output;

    /// Flattens `self` into a single value, placing a given separator
    /// between each part.
    fn join(&self, sep: &T) -> Self::Output;

    /// The earlier name of `join`.
    fn connect(&self, sep: &T) -> Self::Output;
}

} // verus!
