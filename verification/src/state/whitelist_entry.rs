use vstd::prelude::*;

use crate::pubkey::Pubkey;

verus! {

/// One whitelisted user of a vault, with the largest amount allowed.
#[derive(Clone, Copy, Debug)]
pub struct WhitelistEntry {
    pub vault: Pubkey,
    pub user: Pubkey,
    pub max_amount: u64,
    pub bump: u8,
}

impl WhitelistEntry {
    /// Account size reserved for the record.
    pub const INIT_SPACE: usize = 8 + 32 + 32 + 8 + 1;
}

} // verus!
