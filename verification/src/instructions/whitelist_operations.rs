//! The admin's whitelist switches on a user record.

use vstd::prelude::*;

use crate::error::VaultError;
use crate::pubkey::Pubkey;
use crate::state::{User, VaultConfig};

verus! {

/// What the whitelist operations read: the signing admin, the vault
/// configuration that names the admin, and the user record.
#[derive(Debug)]
pub struct WhitelistOperations {
    pub admin: Pubkey,
    pub vault_config: VaultConfig,
    pub user: User,
}

/// The bump seeds found for the accounts of a whitelist operation.
#[derive(Clone, Copy, Debug)]
pub struct WhitelistOperationsBumps {
    pub user: u8,
}

/// The user record once whitelisted with the record's bump.
pub open spec fn listed(user: User, bump: u8) -> User {
    User { whitelisted: true, bump, ..user }
}

/// The user record once taken off the whitelist.
pub open spec fn unlisted(user: User) -> User {
    User { whitelisted: false, ..user }
}

impl WhitelistOperations {
    /// Whether the signer is the admin the vault configuration names.
    pub open spec fn signed_by_admin(&self) -> bool {
        self.admin@ == self.vault_config.admin@
    }

    /// Marks the user whitelisted and records the bump of its record; only the
    /// configured admin may, anyone else is refused and nothing changes.
    pub fn add_to_whitelist(&mut self, _user_key: Pubkey, bumps: WhitelistOperationsBumps) -> (r:
        Result<(), VaultError>)
        ensures
            old(self).signed_by_admin() ==> r is Ok && final(self).user == listed(
                old(self).user,
                bumps.user,
            ),
            !old(self).signed_by_admin() ==> r == Err::<(), VaultError>(VaultError::Unauthorized)
                && final(self).user == old(self).user,
            old(self).admin@ == old(self).vault_config.admin@ ==> r is Ok && final(self).user.whitelisted
                && final(self).user.bump == bumps.user && final(self).user.balance == old(self).user.balance && final(self).user.last_nonce == old(self).user.last_nonce,
            old(self).admin@ != old(self).vault_config.admin@ ==> r == Err::<(), VaultError>(
                VaultError::Unauthorized,
            ) && final(self).user == old(self).user,
            final(self).admin == old(self).admin,
            final(self).vault_config == old(self).vault_config,
    {
        if !self.admin.equals(&self.vault_config.admin) {
            return Err(VaultError::Unauthorized);
        }
        self.user.bump = bumps.user;
        self.user.whitelisted = true;
        Ok(())
    }

    /// Marks the user as no longer whitelisted; only the configured admin may,
    /// anyone else is refused and nothing changes.
    pub fn remove_from_whitelist(&mut self, _user_key: Pubkey) -> (r: Result<(), VaultError>)
        ensures
            old(self).signed_by_admin() ==> r is Ok && final(self).user == unlisted(old(self).user),
            !old(self).signed_by_admin() ==> r == Err::<(), VaultError>(VaultError::Unauthorized)
                && final(self).user == old(self).user,
            old(self).admin@ == old(self).vault_config.admin@ ==> r is Ok && !final(self).user.whitelisted
                && final(self).user.bump == old(self).user.bump && final(self).user.balance == old(self).user.balance && final(self).user.last_nonce == old(self).user.last_nonce,
            old(self).admin@ != old(self).vault_config.admin@ ==> r == Err::<(), VaultError>(
                VaultError::Unauthorized,
            ) && final(self).user == old(self).user,
            final(self).admin == old(self).admin,
            final(self).vault_config == old(self).vault_config,
    {
        if !self.admin.equals(&self.vault_config.admin) {
            return Err(VaultError::Unauthorized);
        }
        self.user.whitelisted = false;
        Ok(())
    }
}

} // verus!
