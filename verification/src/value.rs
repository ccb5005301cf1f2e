//! The capabilities of the kinds of host value.

use vstd::prelude::*;
use crate::mem::Managed;
use crate::raw::Raw;

verus! {

/// A kind of host value.
///
/// A kind says of every host object whether it is of that kind
/// (`is_instance`), and can find that out at run time (`is_typeof`). What an
/// object is does not change while it lives, so the answer depends on the
/// reference alone. `downcast` is built on that test; a kind that writes its
/// own owes the same contract.
pub trait Value: Managed {
    /// Whether the host object that `h` denotes is, at run time, of this kind.
    spec fn is_instance(h: Raw) -> bool;

    /// Tests at run time whether the object behind `other` is of this kind.
    fn is_typeof<Other: Managed>(other: Other) -> (is: bool)
        ensures
            is == Self::is_instance(other.raw()),
    ;

    /// Narrows `other` to this kind: the same reference as a value of this
    /// kind if the object behind it is of this kind, and nothing otherwise.
    fn downcast<Other: Managed>(other: Other) -> (found: Option<Self>)
        ensures
            found.is_some() == Self::is_instance(other.raw()),
            found matches Some(v) ==> v.raw() == other.raw(),
    {
        if Self::is_typeof(other) {
            Some(Self::from_raw(other.to_raw()))
        } else {
            None
        }
    }
}

/// Declares that this kind is a supertype of `T`: every value of kind `T` may
/// be taken for a value of this kind.
///
/// Nothing holds the declaration against the host: a handle widens along it
/// without a test.
pub trait SuperType<T: Value>: Value {
    /// Widens `v` to this kind, without a test and without a change to the
    /// reference.
    fn upcast_internal(v: T) -> (wide: Self)
        ensures
            wide.raw() == v.raw(),
    {
        Self::from_raw(v.to_raw())
    }
}

} // verus!
