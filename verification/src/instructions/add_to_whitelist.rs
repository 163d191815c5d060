//! The authority's whitelist entries of a vault.

use vstd::prelude::*;

use crate::error::VaultError;
use crate::pubkey::Pubkey;
use crate::state::{VaultState, WhitelistEntry};

verus! {

/// What adding an entry reads and writes: the signing authority, the user, the
/// new entry, and the vault state with its address.
#[derive(Debug)]
pub struct AddToWhitelist {
    pub authority: Pubkey,
    pub user: Pubkey,
    pub whitelist: WhitelistEntry,
    pub vault_state_key: Pubkey,
    pub vault_state: VaultState,
}

/// The bump seeds found for the accounts of the step.
#[derive(Clone, Copy, Debug)]
pub struct AddToWhitelistBumps {
    pub whitelist: u8,
}

impl AddToWhitelist {
    /// Fills the entry: the largest amount, the vault it belongs to and its bump.
    /// Only the vault's authority may; anyone else is refused and nothing changes.
    pub fn add_to_whitelist(&mut self, max_amount: u64, bumps: &AddToWhitelistBumps) -> (r: Result<
        (),
        VaultError,
    >)
        ensures
            old(self).authority@ == old(self).vault_state.authority@ ==> r is Ok
                && final(self).whitelist == (WhitelistEntry {
                vault: old(self).vault_state_key,
                user: old(self).whitelist.user,
                max_amount,
                bump: bumps.whitelist,
            }),
            old(self).authority@ != old(self).vault_state.authority@ ==> r == Err::<(), VaultError>(
                VaultError::Unauthorized,
            ) && final(self).whitelist == old(self).whitelist,
            final(self).authority == old(self).authority,
            final(self).user == old(self).user,
            final(self).vault_state_key == old(self).vault_state_key,
            final(self).vault_state == old(self).vault_state,
    {
        if !self.authority.equals(&self.vault_state.authority) {
            return Err(VaultError::Unauthorized);
        }
        self.whitelist.max_amount = max_amount;
        self.whitelist.vault = self.vault_state_key;
        self.whitelist.bump = bumps.whitelist;
        Ok(())
    }
}

} // verus!
