//! Verified core of a Token-2022 vault: per-user balances credited by deposits
//! that are proven by a token transfer and a memo in the same transaction,
//! debited by withdrawals, and a whitelist that the transfer hook enforces.

pub mod pubkey;
pub mod error;
pub mod state;
pub mod introspection;
pub mod memo;
pub mod instructions;
pub mod laws;
pub mod program;
