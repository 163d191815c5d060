use vstd::prelude::*;

use crate::pubkey::Pubkey;

verus! {

/// A deposit record kept per owner.
#[derive(Clone, Copy, Debug)]
pub struct User {
    pub owner: Pubkey,
    pub deposit: u64,
    pub bump: u8,
}

} // verus!
