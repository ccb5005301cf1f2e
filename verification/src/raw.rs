//! The raw reference: what a handle holds of the host object that it denotes.

use vstd::prelude::*;

verus! {

/// A raw reference to a value that the host runtime owns.
///
/// All that a handle reads of a raw reference is which host object it denotes,
/// so that is all a `Raw` holds: the number that the embedding gives to the
/// object for as long as the object lives. Two raw references denote the same
/// object exactly when they hold the same number.
#[derive(Clone, Copy, Debug)]
pub struct Raw {
    /// The number of the host object.
    pub object: u64,
}

/// Whether two raw references denote the same host object.
pub fn same_handle(h1: Raw, h2: Raw) -> (same: bool)
    ensures
        same == (h1.object == h2.object),
{
    h1.object == h2.object
}

} // verus!
