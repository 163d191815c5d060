//! Recording the vault configuration.

use vstd::prelude::*;

use crate::error::VaultError;
use crate::pubkey::Pubkey;
use crate::state::VaultConfig;

verus! {

/// What the configuration step reads and writes: the admin, the configuration
/// record, the mint and the vault's token account.
#[derive(Debug)]
pub struct InitVaultConfig {
    pub admin: Pubkey,
    pub vault_config: VaultConfig,
    pub mint: Pubkey,
    pub vault_ta: Pubkey,
}

/// The bump seeds found for the accounts of the configuration step.
#[derive(Clone, Copy, Debug)]
pub struct InitVaultConfigBumps {
    pub vault_config: u8,
}

impl InitVaultConfig {
    /// Writes the admin, the mint, the vault token account and the bump into the
    /// configuration record.
    pub fn init_vault_config(&mut self, bumps: &InitVaultConfigBumps) -> (r: Result<(), VaultError>)
        ensures
            r is Ok,
            final(self).vault_config == (VaultConfig {
                admin: old(self).admin,
                mint: old(self).mint,
                vault_ta: old(self).vault_ta,
                bump: bumps.vault_config,
            }),
            final(self).admin == old(self).admin,
            final(self).mint == old(self).mint,
            final(self).vault_ta == old(self).vault_ta,
    {
        self.vault_config = VaultConfig {
            admin: self.admin,
            mint: self.mint,
            vault_ta: self.vault_ta,
            bump: bumps.vault_config,
        };
        Ok(())
    }
}

} // verus!
