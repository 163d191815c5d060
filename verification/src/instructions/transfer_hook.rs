//! The transfer hook: a transfer of the vault's mint goes through only while the
//! source token account is marked as transferring and its owner is whitelisted.
//! Otherwise the hook aborts the transfer (the program panics), or, where the
//! account data cannot be read, fails with the token program's error.

use vstd::prelude::*;

use crate::state::User;

use anchor_lang::prelude::ProgramError;
use anchor_spl::token_2022::spl_token_2022::extension::transfer_hook::TransferHookAccount;
use anchor_spl::token_2022::spl_token_2022::extension::{
    BaseStateWithExtensionsMut, PodStateWithExtensionsMut,
};
use anchor_spl::token_2022::spl_token_2022::pod::PodAccount;

verus! {

/// The error type of Solana programs, carried through opaquely.
#[verifier::external_type_specification]
#[verifier::external_body]
pub struct ExProgramError(ProgramError);

/// A failure of the hook that is returned as an error.
#[derive(Debug, PartialEq, Eq)]
pub enum TransferHookError {
    /// The source account's data is not a token account with the transfer-hook
    /// extension; the token program's own error.
    AccountData(ProgramError),
}

/// Why the hook aborts a transfer.
#[derive(Clone, Copy, Debug, PartialEq, Eq)]
pub enum HookAbort {
    /// The hook was called outside of a transfer.
    NotTransferring,
    /// The source account's owner is not whitelisted.
    NotWhitelisted,
}

/// What a run of the hook comes to: the transfer is allowed, fails with an
/// error, or is aborted.
#[derive(Debug, PartialEq, Eq)]
pub enum HookVerdict {
    Allowed,
    Failed(TransferHookError),
    Aborted(HookAbort),
}

/// What the hook comes to on what reading the transferring flag of the source
/// account gave and the owner's whitelist mark: unreadable data fails with the
/// token program's error, then the flag must be set, then the owner must be
/// whitelisted. The amount plays no part.
pub open spec fn hook_outcome(flag: Result<bool, ProgramError>, whitelisted: bool) -> HookVerdict {
    match flag {
        Err(e) => HookVerdict::Failed(TransferHookError::AccountData(e)),
        Ok(false) => HookVerdict::Aborted(HookAbort::NotTransferring),
        Ok(true) => if whitelisted {
            HookVerdict::Allowed
        } else {
            HookVerdict::Aborted(HookAbort::NotWhitelisted)
        },
    }
}

/// What the transferring check comes to on what reading the flag gave.
pub open spec fn check_outcome(flag: Result<bool, ProgramError>) -> HookVerdict {
    match flag {
        Err(e) => HookVerdict::Failed(TransferHookError::AccountData(e)),
        Ok(false) => HookVerdict::Aborted(HookAbort::NotTransferring),
        Ok(true) => HookVerdict::Allowed,
    }
}

/// The result the hook returns where it does not abort.
pub open spec fn returned(flag: Result<bool, ProgramError>) -> Result<(), TransferHookError> {
    match flag {
        Err(e) => Err(TransferHookError::AccountData(e)),
        Ok(_) => Ok(()),
    }
}

/// The inputs on which the hook aborts the transfer.
pub open spec fn hook_aborts(flag: Result<bool, ProgramError>, whitelisted: bool) -> bool {
    flag == Ok::<bool, ProgramError>(false) || (flag == Ok::<bool, ProgramError>(true) && !whitelisted)
}

/// What the hook reads: the source token account's data and the owner's user record.
#[derive(Debug)]
pub struct TransferHook {
    pub source_token_data: Vec<u8>,
    pub user: User,
}

/// What reading the `transferring` flag of the transfer-hook extension of the
/// token account held in `data` gives: the flag, or the token program's error
/// when the data holds no such account and extension.
pub uninterp spec fn transferring_flag(data: Seq<u8>) -> Result<bool, ProgramError>;

/// `PodStateWithExtensionsMut::<PodAccount>::unpack` of spl-token-2022 on a copy of
/// the account data, then `get_extension_mut::<TransferHookAccount>`, keeping the
/// `transferring` flag, or the error of the step that fails. Both read only the
/// bytes they are given; what they give is named `transferring_flag`.
#[verifier::external_body]
fn read_transferring_flag(data: &[u8]) -> (r: Result<bool, ProgramError>)
    ensures
        r == transferring_flag(data@),
{
    let mut buf = data.to_vec();
    let mut account = PodStateWithExtensionsMut::<PodAccount>::unpack(&mut buf)?;
    let extension = account.get_extension_mut::<TransferHookAccount>()?;
    Ok(bool::from(extension.transferring))
}

impl TransferHook {
    /// Checks that the source account is in the middle of a transfer; fails with
    /// the token program's error on unreadable account data. The hook aborts on
    /// an account that is not in a transfer, which `requires` leaves out.
    pub fn check_is_transferring(&self) -> (r: Result<(), TransferHookError>)
        requires
            transferring_flag(self.source_token_data@) != Ok::<bool, ProgramError>(false),
        ensures
            r == returned(transferring_flag(self.source_token_data@)),
    {
        match read_transferring_flag(self.source_token_data.as_slice()) {
            Ok(_) => Ok(()),
            Err(e) => Err(TransferHookError::AccountData(e)),
        }
    }

    /// Lets the transfer through during a transfer for a whitelisted owner; fails
    /// with the token program's error on unreadable account data. The hook aborts
    /// outside a transfer or for an owner not whitelisted, which `requires` leaves
    /// out. The amount plays no part.
    pub fn transfer_hook(&self, _amount: u64) -> (r: Result<(), TransferHookError>)
        requires
            !hook_aborts(transferring_flag(self.source_token_data@), self.user.whitelisted),
        ensures
            r == returned(transferring_flag(self.source_token_data@)),
    {
        self.check_is_transferring()?;
        Ok(())
    }

    /// Runs the transferring check: reads the transferring flag and aborts where
    /// the check aborts, and otherwise gives what `check_is_transferring` gives.
    pub fn run_check_is_transferring(&self) -> (r: HookVerdict)
        ensures
            r == check_outcome(transferring_flag(self.source_token_data@)),
    {
        match read_transferring_flag(self.source_token_data.as_slice()) {
            Ok(false) => {
                return HookVerdict::Aborted(HookAbort::NotTransferring);
            },
            _ => {},
        }
        match self.check_is_transferring() {
            Ok(()) => HookVerdict::Allowed,
            Err(e) => HookVerdict::Failed(e),
        }
    }

    /// Runs the hook: reads the transferring flag and aborts where the hook aborts,
    /// and otherwise gives what `transfer_hook` gives. The verdict depends on the
    /// account data and the whitelist mark alone, for every amount.
    pub fn run_transfer_hook(&self, amount: u64) -> (r: HookVerdict)
        ensures
            r == hook_outcome(transferring_flag(self.source_token_data@), self.user.whitelisted),
    {
        match read_transferring_flag(self.source_token_data.as_slice()) {
            Ok(false) => {
                return HookVerdict::Aborted(HookAbort::NotTransferring);
            },
            Ok(true) => {
                if !self.user.whitelisted {
                    return HookVerdict::Aborted(HookAbort::NotWhitelisted);
                }
            },
            Err(_) => {},
        }
        match self.transfer_hook(amount) {
            Ok(()) => HookVerdict::Allowed,
            Err(e) => HookVerdict::Failed(e),
        }
    }
}

} // verus!
