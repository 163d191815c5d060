//! Removing an entry: only the vault's authority may; the entry's account is
//! then closed by its account constraint.

use vstd::prelude::*;

use crate::error::VaultError;
use crate::pubkey::Pubkey;
use crate::state::VaultState;

verus! {

/// What removing an entry reads: the signing authority and the vault state.
#[derive(Debug)]
pub struct RemoveFromWhitelist {
    pub authority: Pubkey,
    pub vault_state: VaultState,
}

impl RemoveFromWhitelist {
    /// Succeeds for the vault's authority and changes nothing; anyone else is
    /// refused.
    pub fn remove_from_whitelist(&mut self) -> (r: Result<(), VaultError>)
        ensures
            r is Ok <==> old(self).authority@ == old(self).vault_state.authority@,
            r is Err ==> r == Err::<(), VaultError>(VaultError::Unauthorized),
            final(self).authority == old(self).authority,
            final(self).vault_state == old(self).vault_state,
    {
        if !self.authority.equals(&self.vault_state.authority) {
            return Err(VaultError::Unauthorized);
        }
        Ok(())
    }
}

} // verus!
