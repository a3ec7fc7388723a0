//! A fallible value-conversion capability out of an opaque source handle,
//! in two forms: one conversion per target type, and a marker-parameterized
//! form that lets one target type carry several distinguishable conversions.

pub mod marked;
pub mod unmarked;
