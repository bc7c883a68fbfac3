//! The contract's entry points and its two helper modules, which differ only
//! in how widely their helper function is visible.

use vstd::prelude::*;

pub mod internal;
pub mod private;

verus! {

use crate::Context;
use crate::Initialize;

/// Entry point: invokes the fully public helper and the module-restricted
/// helper (both calls are permitted from here, inside `contract`) and then
/// reports success. It always succeeds and has no other effect.
pub fn initialize(_ctx: Context<Initialize>) -> (r: Result<(), ()>)
    ensures
        r is Ok,
{
    internal::internal_function();
    private::private_function();
    Ok(())
}

/// Entry point: does nothing and reports success. It always succeeds and has
/// no other effect.
pub fn public_function(_ctx: Context<Initialize>) -> (r: Result<(), ()>)
    ensures
        r is Ok,
{
    Ok(())
}

} // verus!
