//! The program's greeting instruction.

use vstd::prelude::*;

use crate::error::VaultError;

verus! {

/// The greeting instruction reads no account.
#[derive(Debug)]
pub struct Initialize {}

/// Succeeds and changes nothing (the greeting is logged by the caller).
pub fn initialize(_ctx: &Initialize) -> (r: Result<(), VaultError>)
    ensures
        r is Ok,
{
    Ok(())
}

} // verus!
