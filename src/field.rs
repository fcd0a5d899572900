use vstd::prelude::*;

verus! {

/// Marker for the field over which digests are computed.
///
/// Pointers carry it only as a type parameter: no value of the field is
/// stored, so two pointers of different fields cannot be compared or mixed.
pub trait LurkField: Copy + Clone + Eq + core::fmt::Debug + core::hash::Hash {

}

} // verus!
