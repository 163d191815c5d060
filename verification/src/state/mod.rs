use vstd::prelude::*;

use crate::pubkey::Pubkey;

pub mod user;
pub mod vault_state;
pub mod whitelist_entry;

pub use vault_state::VaultState;
pub use whitelist_entry::WhitelistEntry;

verus! {

/// Per-user record: the credited balance, whether transfers from the user pass
/// the transfer hook, and the last deposit nonce credited. Deposit nonces must
/// increase, so every nonce up to `last_nonce` counts as used.
#[derive(Clone, Copy, Debug, PartialEq, Eq)]
pub struct User {
    pub balance: u64,
    pub whitelisted: bool,
    pub bump: u8,
    pub last_nonce: Option<u64>,
}

impl User {
    /// Bytes the serialized record takes (without the account discriminator).
    pub const INIT_SPACE: usize = 8 + 1 + 1 + 9;
}

/// Whether a deposit nonce is still unused: above the last one credited.
pub open spec fn nonce_unused(last_nonce: Option<u64>, nonce: u64) -> bool {
    match last_nonce {
        None => true,
        Some(last) => last < nonce,
    }
}

/// Vault configuration: who administers it, which mint it holds and the
/// vault's token account.
#[derive(Clone, Copy, Debug)]
pub struct VaultConfig {
    pub admin: Pubkey,
    pub mint: Pubkey,
    pub vault_ta: Pubkey,
    pub bump: u8,
}

impl VaultConfig {
    /// Bytes the serialized record takes (without the account discriminator).
    pub const INIT_SPACE: usize = 32 + 32 + 32 + 1;
}

} // verus!
