use vstd::prelude::*;

verus! {

/// Errors the vault instructions report.
#[derive(Clone, Copy, Debug, PartialEq, Eq, Structural)]
pub enum VaultError {
    /// Arithmetic overflow.
    ArithmeticError,
    /// The user's balance is below the requested amount.
    InsufficientBalance,
    /// No memo with the expected text precedes the instruction.
    MemoNotFound,
    /// A memo could not be read or checked.
    InvalidMemo,
    /// No matching token transfer precedes the instruction.
    TransferNotFound,
    /// The deposit nonce was already credited.
    NonceAlreadyUsed,
    /// The signer is not the authority the operation needs.
    Unauthorized,
    /// The expected memo is not preceded by a backing transfer that no other
    /// memo of the same signer and amount claims first.
    UnpairedMemo,
}

impl VaultError {
    /// The message text attached to each error.
    pub fn msg(&self) -> (r: &'static str)
        ensures
            r@ == vault_error_msg(*self)@,
    {
        match self {
            VaultError::ArithmeticError => "Arithmetic Overflow",
            VaultError::InsufficientBalance => "Insufficient Balance",
            VaultError::MemoNotFound => "Required Memo Not Found",
            VaultError::InvalidMemo => "Invalid Memo Format",
            VaultError::TransferNotFound => "Required Transfer Not Found",
            VaultError::NonceAlreadyUsed => "Nonce Already Used",
            VaultError::Unauthorized => "Unauthorized",
            VaultError::UnpairedMemo => "Memo Not Paired With A Transfer",
        }
    }
}

/// The message text of each error.
pub open spec fn vault_error_msg(e: VaultError) -> &'static str {
    match e {
        VaultError::ArithmeticError => "Arithmetic Overflow",
        VaultError::InsufficientBalance => "Insufficient Balance",
        VaultError::MemoNotFound => "Required Memo Not Found",
        VaultError::InvalidMemo => "Invalid Memo Format",
        VaultError::TransferNotFound => "Required Transfer Not Found",
        VaultError::NonceAlreadyUsed => "Nonce Already Used",
        VaultError::Unauthorized => "Unauthorized",
        VaultError::UnpairedMemo => "Memo Not Paired With A Transfer",
    }
}

} // verus!
