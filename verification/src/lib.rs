//! Handles to values that a garbage-collected host runtime owns.
//!
//! A [`mem::Handle`] is a copyable, non-owning reference to a host value, bound
//! to the lifetime of the scope that produced it. Its type parameter says what
//! kind of value the holder takes it for; `downcast`, `check` and `is_a` hold that
//! against the kind that the value has at run time, `upcast` widens it to a
//! declared supertype, and `lock` wraps it for use where a shareable value is
//! asked for.

pub mod error;
pub mod laws;
pub mod mem;
pub mod raw;
pub mod scope;
pub mod value;
