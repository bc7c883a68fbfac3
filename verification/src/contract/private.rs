//! A helper whose visibility is restricted to an ancestor scope: only code
//! inside `crate::contract` may call it. Referencing it from any scope
//! outside that ancestor is rejected at compile time.

use vstd::prelude::*;

verus! {

/// Helper visible only within `crate::contract`. It does nothing and has no
/// effect.
pub(in crate::contract) fn private_function() {
}

} // verus!
