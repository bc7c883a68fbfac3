//! A helper that is fully public: any scope that can name this module may
//! call it, sibling modules and external callers included.

use vstd::prelude::*;

verus! {

/// Fully public helper. It does nothing and has no effect.
pub fn internal_function() {
}

} // verus!
