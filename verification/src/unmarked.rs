//! The unmarked conversion capability: for a given target type, at most one
//! implementation may exist, so the conversion behavior per type is unique
//! and globally fixed.

use vstd::prelude::*;

verus! {

/// An opaque handle to the value being converted from. It carries no data
/// of its own; a real source would hold whatever a conversion inspects.
pub struct Robj;

/// A fallible conversion from a source handle to the implementing type.
/// Failure carries a fixed diagnostic string. Rust's coherence admits at
/// most one implementation per target type.
pub trait FromRobj: Sized {
    fn from_robj(robj: &Robj) -> Result<Self, &'static str>;
}

impl FromRobj for bool {
    /// Succeeds with `true` on every handle: the handle is ignored, standing
    /// in for extraction logic that would inspect its contents.
    fn from_robj(_robj: &Robj) -> (r: Result<bool, &'static str>)
        ensures
            r == Ok::<bool, &'static str>(true),
    {
        Ok(true)
    }
}

} // verus!
