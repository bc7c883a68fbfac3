//! A sibling scope outside `contract`. It may call the fully public helper,
//! while `contract::private::private_function` is visible only within
//! `contract` and so cannot be named from here: such a reference would be
//! rejected at compile time.

use vstd::prelude::*;

verus! {

use crate::contract;

/// Calls the fully public helper from a sibling scope. It always succeeds
/// and has no effect.
pub fn function() {
    contract::internal::internal_function();
}

} // verus!
