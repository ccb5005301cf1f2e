//! What holds of handles across their operations.
//!
//! Two handles are equal when they denote the same host object. The laws
//! below say how the operations of a handle agree with each other and with
//! that equality.
//!
//! A law that speaks of what an operation returns takes that result as a
//! parameter and asks, by `call_ensures`, that it be a result that the
//! operation can give on the law's inputs. A caller that has made the calls
//! has such results at hand.

use vstd::prelude::*;
use vstd::std_specs::cmp::PartialEqSpec;
use crate::error::Error;
use crate::mem::{Handle, LockedHandle, Managed};
use crate::scope::Scope;
use crate::value::{SuperType, Value};

verus! {

/// The type test and the narrowing agree: `is_a` says yes exactly when
/// `downcast` gives a handle.
pub proof fn lemma_is_a_iff_downcast<'j, T: Value + 'j, U: Value + 'j>(
    h: Handle<'j, T>,
    is: bool,
    found: Option<Handle<'j, U>>,
)
    requires
        call_ensures(Handle::<'j, T>::is_a::<U>, (&h,), is),
        call_ensures(Handle::<'j, T>::downcast::<U>, (&h,), found),
    ensures
        is == found.is_some(),
{
}

/// The narrowing and the check agree: where `downcast` gives a handle,
/// `check` gives one too, and the two are equal; where `downcast` gives
/// nothing, `check` gives the type error.
pub proof fn lemma_check_agrees_with_downcast<'j, T: Value + 'j, U: Value + 'j>(
    h: Handle<'j, T>,
    found: Option<Handle<'j, U>>,
    checked: Result<Handle<'j, U>, Error>,
)
    requires
        call_ensures(Handle::<'j, T>::downcast::<U>, (&h,), found),
        call_ensures(Handle::<'j, T>::check::<U>, (&h,), checked),
    ensures
        found matches Some(f) ==> (checked matches Ok(c) && c.eq_spec(&f)),
        found is None ==> (checked matches Err(e) && e.is_type_error()),
{
}

/// A handle that `downcast` or `check` gave denotes the object of the handle
/// that was narrowed, and that object is of the kind asked for.
pub proof fn lemma_narrowed_is_instance<'j, T: Value + 'j, U: Value + 'j>(
    h: Handle<'j, T>,
    found: Option<Handle<'j, U>>,
    checked: Result<Handle<'j, U>, Error>,
)
    requires
        call_ensures(Handle::<'j, T>::downcast::<U>, (&h,), found),
        call_ensures(Handle::<'j, T>::check::<U>, (&h,), checked),
    ensures
        found matches Some(f) ==> f.object() == h.object() && U::is_instance(f.raw()),
        checked matches Ok(c) ==> c.object() == h.object() && U::is_instance(c.raw()),
{
}

/// Every handle equals itself.
pub proof fn lemma_eq_reflexive<'j, T: Managed + 'j>(h: Handle<'j, T>)
    ensures
        h.eq_spec(&h),
{
}

/// Equality of handles does not depend on the side a handle stands on.
pub proof fn lemma_eq_symmetric<'j, T: Managed + 'j>(a: Handle<'j, T>, b: Handle<'j, T>)
    ensures
        a.eq_spec(&b) == b.eq_spec(&a),
{
}

/// Two handles that equal a third equal each other.
pub proof fn lemma_eq_transitive<'j, T: Managed + 'j>(
    a: Handle<'j, T>,
    b: Handle<'j, T>,
    c: Handle<'j, T>,
)
    requires
        a.eq_spec(&b),
        b.eq_spec(&c),
    ensures
        a.eq_spec(&c),
{
}

/// Handles to the same host object are equal, however each was obtained and
/// whatever else their representations hold.
pub proof fn lemma_eq_of_same_object<'j, T: Managed + 'j>(a: Handle<'j, T>, b: Handle<'j, T>)
    requires
        a.object() == b.object(),
    ensures
        a.eq_spec(&b),
{
}

/// Widening keeps equality: two handles widened to the same supertype are
/// equal exactly when they were equal before.
pub proof fn lemma_upcast_keeps_eq<'j, T: Value + 'j, U: Value + SuperType<T> + 'j>(
    a: Handle<'j, T>,
    b: Handle<'j, T>,
    wide_a: Handle<'j, U>,
    wide_b: Handle<'j, U>,
)
    requires
        call_ensures(Handle::<'j, T>::upcast::<U>, (&a,), wide_a),
        call_ensures(Handle::<'j, T>::upcast::<U>, (&b,), wide_b),
    ensures
        wide_a.eq_spec(&wide_b) == a.eq_spec(&b),
{
}

/// Narrowing keeps equality: of two equal handles, either both narrow to
/// `U` or neither does, and where they do the narrowed handles are equal.
pub proof fn lemma_downcast_keeps_eq<'j, T: Value + 'j, U: Value + 'j>(
    a: Handle<'j, T>,
    b: Handle<'j, T>,
    found_a: Option<Handle<'j, U>>,
    found_b: Option<Handle<'j, U>>,
)
    requires
        a.eq_spec(&b),
        call_ensures(Handle::<'j, T>::downcast::<U>, (&a,), found_a),
        call_ensures(Handle::<'j, T>::downcast::<U>, (&b,), found_b),
    ensures
        found_a.is_some() == found_b.is_some(),
        found_a matches Some(fa) ==> (found_b matches Some(fb) && fa.eq_spec(&fb)),
{
}

/// Widening and then narrowing back finds the object again: a handle that
/// is what it is taken for, widened to a supertype, narrows back to a handle
/// that denotes the same object.
pub proof fn lemma_upcast_then_downcast<'j, T: Value + 'j, U: Value + SuperType<T> + 'j>(
    h: Handle<'j, T>,
    wide: Handle<'j, U>,
    back: Option<Handle<'j, T>>,
)
    requires
        T::is_instance(h.raw()),
        call_ensures(Handle::<'j, T>::upcast::<U>, (&h,), wide),
        call_ensures(Handle::<'j, U>::downcast::<T>, (&wide,), back),
    ensures
        back matches Some(again) && again.eq_spec(&h),
{
}

/// Locking and unlocking gives the handle back: what `unlock` returns for
/// what `lock` returned for `h` is `h`, under any scope.
pub proof fn lemma_lock_unlock_round_trip<'j, 'b, T: Value + 'j, S: Scope<'b>>(
    h: Handle<'j, T>,
    locked: LockedHandle<'j, T>,
    scope: &mut S,
    unlocked: Handle<'j, T>,
)
    requires
        call_ensures(Handle::<'j, T>::lock, (h,), locked),
        call_ensures(LockedHandle::<'j, T>::unlock::<S>, (locked, scope), unlocked),
    ensures
        unlocked == h,
        unlocked.eq_spec(&h),
{
}

/// A copy of a handle denotes the same host object as the handle.
pub proof fn lemma_copy_denotes_same_object<'j, T: Managed + 'j>(
    h: Handle<'j, T>,
    copy: Handle<'j, T>,
)
    requires
        call_ensures(Handle::<'j, T>::clone, (&h,), copy),
    ensures
        copy == h,
        copy.eq_spec(&h),
{
}

} // verus!
