//! Handles to host values, and their locked form.

use vstd::prelude::*;
use vstd::std_specs::cmp::PartialEqSpecImpl;
use std::marker::PhantomData;
use crate::error::{Error, Kind};
use crate::raw::{same_handle, Raw};
use crate::scope::Scope;
use crate::value::{SuperType, Value};

verus! {

/// A small, copyable representation of a raw reference into host memory.
///
/// The representation can be made from a raw reference and gives it back
/// unchanged. Contracts speak of the reference through `raw`; `to_raw` is what
/// runs.
pub trait Managed: Copy {
    /// The raw reference that the value stands for.
    spec fn raw(self) -> Raw;

    /// Hands out the raw reference.
    fn to_raw(self) -> (h: Raw)
        ensures
            h == self.raw(),
    ;

    /// Wraps a raw reference.
    fn from_raw(h: Raw) -> (v: Self)
        ensures
            v.raw() == h,
    ;
}

/// A reference to a host value, taken for a value of kind `T` and bound to the
/// lifetime `'j` of the scope under which it was obtained.
///
/// The handle does not own the value: the host's collector does. A copy of a
/// handle is a second reference to the same value.
pub struct Handle<'j, T: Managed + 'j> {
    value: T,
    phantom: PhantomData<&'j T>,
}

impl<'j, T: Managed + 'j> View for Handle<'j, T> {
    type V = T;

    /// The representation that the handle wraps.
    closed spec fn view(&self) -> T {
        self.value
    }
}

impl<'j, T: Managed + 'j> Handle<'j, T> {
    /// The raw reference that the handle holds.
    pub open spec fn raw(self) -> Raw {
        self@.raw()
    }

    /// The number of the host object that the handle denotes.
    pub open spec fn object(self) -> u64 {
        self.raw().object
    }

    /// Wraps a representation in a handle. No test is made: the caller
    /// answers for the kind `T` and for the lifetime `'j`.
    pub fn new_internal(value: T) -> (h: Handle<'j, T>)
        ensures
            h@ == value,
    {
        Handle { value: value, phantom: PhantomData }
    }
}

impl<'j, T: Managed + 'j> Clone for Handle<'j, T> {
    /// A second reference to the same value: the copy equals the handle, and
    /// nothing is asked of the host.
    fn clone(&self) -> (copy: Self)
        ensures
            copy == *self,
    {
        *self
    }
}

impl<'j, T: Managed + 'j> Copy for Handle<'j, T> {

}

impl<'j, T: Managed + 'j> PartialEq for Handle<'j, T> {
    /// Whether both handles denote the same host object.
    fn eq(&self, other: &Self) -> (same: bool) {
        same_handle(self.value.to_raw(), other.value.to_raw())
    }
}

impl<'j, T: Managed + 'j> PartialEqSpecImpl for Handle<'j, T> {
    open spec fn obeys_eq_spec() -> bool {
        true
    }

    /// Two handles are equal when they denote the same host object.
    open spec fn eq_spec(&self, other: &Self) -> bool {
        self.object() == other.object()
    }
}

impl<'j, T: Managed + 'j> Eq for Handle<'j, T> {

}

impl<'j, T: Value + 'j> Handle<'j, T> {
    /// Whether the object that the handle denotes is, at run time, of kind `U`.
    pub open spec fn is_a_spec<U: Value>(self) -> bool {
        U::is_instance(self.raw())
    }

    /// Whether `found` is what narrowing the handle to kind `U` gives: a
    /// handle to the same object if that object is of kind `U`, and nothing
    /// otherwise.
    pub open spec fn narrows_to<U: Value>(self, found: Option<Handle<'j, U>>) -> bool {
        match found {
            Some(h) => self.is_a_spec::<U>() && h.raw() == self.raw(),
            None => !self.is_a_spec::<U>(),
        }
    }

    /// Whether `checked` is what checking the handle against kind `U` gives:
    /// a handle to the same object if that object is of kind `U`, and the
    /// type error otherwise.
    pub open spec fn checks_to<U: Value>(self, checked: Result<Handle<'j, U>, Error>) -> bool {
        match checked {
            Ok(h) => self.is_a_spec::<U>() && h.raw() == self.raw(),
            Err(e) => !self.is_a_spec::<U>() && e.is_type_error(),
        }
    }

    /// Wraps the handle for use where a shareable value is asked for.
    pub fn lock(self) -> (locked: LockedHandle<'j, T>)
        ensures
            locked@ == self,
    {
        LockedHandle::new(self)
    }

    /// Widens the handle to the supertype `U`. No test is made and the
    /// reference stays as it is: the result denotes the same object.
    pub fn upcast<U: Value + SuperType<T>>(&self) -> (wide: Handle<'j, U>)
        ensures
            wide.raw() == self.raw(),
    {
        Handle::new_internal(U::upcast_internal(self.value))
    }

    /// Tests whether the object that the handle denotes is of kind `U`.
    pub fn is_a<U: Value>(&self) -> (is: bool)
        ensures
            is == self.is_a_spec::<U>(),
    {
        U::downcast(self.value).is_some()
    }

    /// Narrows the handle to kind `U`, if the object that it denotes is of
    /// that kind.
    pub fn downcast<U: Value>(&self) -> (found: Option<Handle<'j, U>>)
        ensures
            self.narrows_to(found),
    {
        match U::downcast(self.value) {
            Some(v) => Some(Handle::new_internal(v)),
            None => None,
        }
    }

    /// Narrows the handle to kind `U`, or gives the type error to raise in
    /// the host if the object that it denotes is not of that kind.
    pub fn check<U: Value>(&self) -> (checked: Result<Handle<'j, U>, Error>)
        ensures
            self.checks_to(checked),
    {
        match U::downcast(self.value) {
            Some(v) => Ok(Handle::new_internal(v)),
            None => Err(Error::new(Kind::TypeError, "type error")),
        }
    }
}

impl<'j, T: Managed + 'j> std::ops::Deref for Handle<'j, T> {
    type Target = T;

    /// The representation that the handle wraps. No test is made.
    fn deref(&self) -> (value: &T)
        ensures
            *value == self@,
    {
        &self.value
    }
}

impl<'j, T: Managed + 'j> std::ops::DerefMut for Handle<'j, T> {
    /// The representation that the handle wraps, to be changed in place. No
    /// test is made.
    fn deref_mut(&mut self) -> (value: &mut T)
        ensures
            *value == old(self)@,
            final(self)@ == *final(value),
    {
        &mut self.value
    }
}

/// A handle wrapped for use where a shareable value is asked for.
///
/// The wrapper is a marker: it holds no lock and makes no test. It is made
/// from a handle by `lock`, and gives the handle back to a caller that shows,
/// by a mutable borrow of a scope, that it runs under a live scope. It is
/// `Sync` wherever the representation `T` is, as every representation is that
/// holds nothing but a `Raw`.
pub struct LockedHandle<'j, T: Value + 'j>(Handle<'j, T>);

impl<'j, T: Value + 'j> View for LockedHandle<'j, T> {
    type V = Handle<'j, T>;

    /// The handle that is wrapped.
    closed spec fn view(&self) -> Handle<'j, T> {
        self.0
    }
}

impl<'j, T: Value + 'j> Clone for LockedHandle<'j, T> {
    /// A second wrapper of the same handle.
    fn clone(&self) -> (copy: Self)
        ensures
            copy == *self,
    {
        *self
    }
}

impl<'j, T: Value + 'j> Copy for LockedHandle<'j, T> {

}

impl<'j, T: Value + 'j> LockedHandle<'j, T> {
    /// Wraps a handle.
    pub fn new(h: Handle<'j, T>) -> (locked: LockedHandle<'j, T>)
        ensures
            locked@ == h,
    {
        LockedHandle(h)
    }

    /// Gives back the handle that was wrapped. The scope is not read and not
    /// changed.
    pub fn unlock<'b, U: Scope<'b>>(self, scope: &mut U) -> (h: Handle<'j, T>)
        ensures
            h == self@,
            *final(scope) == *old(scope),
    {
        self.0
    }
}

} // verus!
