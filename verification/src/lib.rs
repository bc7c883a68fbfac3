//! A minimal contract scaffold demonstrating module-level visibility:
//! fully public helpers, helpers restricted to an ancestor module, and the
//! entry points that call them.

use vstd::prelude::*;

pub mod contract;
pub mod other_module;

verus! {

/// The (empty) account set that both entry points receive.
pub struct Initialize {}

/// The invocation context handed to an entry point by the hosting runtime,
/// carrying the accounts the caller supplied.
pub struct Context<T> {
    pub accounts: T,
}

} // verus!
