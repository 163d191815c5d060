pub mod add_to_whitelist;
pub mod deposit;
pub mod init_extra_account_meta;
pub mod init_vault_config;
pub mod remove_from_whitelist;
pub mod transfer_hook;
pub mod whitelist_operations;
pub mod withdraw;

pub use add_to_whitelist::{AddToWhitelist, AddToWhitelistBumps};
pub use deposit::Deposit;
pub use init_extra_account_meta::InitializeExtraAccountMetaList;
pub use init_vault_config::{InitVaultConfig, InitVaultConfigBumps};
pub use remove_from_whitelist::RemoveFromWhitelist;
pub use transfer_hook::{HookAbort, HookVerdict, TransferHook, TransferHookError};
pub use whitelist_operations::{WhitelistOperations, WhitelistOperationsBumps};
pub use withdraw::Withdraw;
