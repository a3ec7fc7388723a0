//! The marked conversion capability: the trait carries a marker type
//! parameter, so one target type may have several conversion
//! implementations, one per marker, and the marker chosen at the call site
//! selects among them without a conflicting-implementation error.

use vstd::prelude::*;

verus! {

/// An opaque handle to the value being converted from. It carries no data
/// of its own; a real source would hold whatever a conversion inspects.
pub struct Robj;

/// A fallible conversion from a source handle to the implementing type,
/// indexed by a marker: for a given (target type, marker) pair the
/// conversion behavior is unique, while distinct markers may give the same
/// target type distinct behaviors.
pub trait FromRobj<Marker>: Sized {
    fn from_robj(robj: &Robj) -> Result<Self, &'static str>;
}

/// The marker of the core conversion channel, a zero-information tag that
/// only selects an implementation at compile time.
pub struct CoreConversion;

impl FromRobj<CoreConversion> for bool {
    /// Succeeds with `true` on every handle, exactly as the unmarked form
    /// does: the handle is ignored, standing in for real extraction logic.
    fn from_robj(_robj: &Robj) -> (r: Result<bool, &'static str>)
        ensures
            r == Ok::<bool, &'static str>(true),
    {
        Ok(true)
    }
}

} // verus!
