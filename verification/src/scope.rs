//! The scope capability.

use vstd::prelude::*;

verus! {

/// A region of execution during which the host keeps every value alive that
/// was referenced under it.
///
/// A mutable borrow of a scope shows that the borrower runs inside that region.
pub trait Scope<'a> {

}

} // verus!
