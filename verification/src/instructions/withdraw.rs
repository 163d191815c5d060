//! Withdrawals debit the user's credited balance.

use vstd::prelude::*;

use crate::error::VaultError;
use crate::state::User;

verus! {

/// What the withdrawal reads: the signer's user record.
#[derive(Debug)]
pub struct Withdraw {
    pub user: User,
}

/// The balance left after withdrawing `amount` from `balance`, or the refusal.
pub open spec fn withdraw_outcome(balance: u64, amount: u64) -> Result<u64, VaultError> {
    if balance < amount {
        Err(VaultError::InsufficientBalance)
    } else {
        Ok((balance - amount) as u64)
    }
}

/// The user record after `amount` is withdrawn: only the balance changes.
pub open spec fn debited(user: User, amount: u64) -> User {
    User { balance: (user.balance - amount) as u64, ..user }
}

impl Withdraw {
    /// Debits `amount`; refused with `InsufficientBalance` when the balance is
    /// smaller, in which case nothing changes. The rest of the record, the
    /// recorded deposit nonce among it, is kept.
    pub fn withdraw(&mut self, amount: u64) -> (r: Result<(), VaultError>)
        ensures
            r == (match withdraw_outcome(old(self).user.balance, amount) {
                Ok(_) => Ok(()),
                Err(e) => Err(e),
            }),
            final(self).user.balance == (match withdraw_outcome(old(self).user.balance, amount) {
                Ok(b) => b,
                Err(_) => old(self).user.balance,
            }),
            r is Ok ==> final(self).user == debited(old(self).user, amount),
            r is Err ==> final(self).user == old(self).user,
            r is Ok <==> amount <= old(self).user.balance,
            r is Err ==> r == Err::<(), VaultError>(VaultError::InsufficientBalance),
            r is Ok ==> final(self).user.balance + amount == old(self).user.balance
                && final(self).user.whitelisted == old(self).user.whitelisted && final(self).user.bump == old(self).user.bump && final(self).user.last_nonce == old(self).user.last_nonce,
    {
        if self.user.balance < amount {
            return Err(VaultError::InsufficientBalance);
        }
        match self.user.balance.checked_sub(amount) {
            Some(b) => {
                self.user.balance = b;
            },
            None => {
                return Err(VaultError::ArithmeticError);
            },
        }
        Ok(())
    }
}

} // verus!
