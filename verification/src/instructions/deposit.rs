//! Deposits. A deposit of `amount` with `nonce` is credited only when, before the
//! deposit instruction, the same transaction holds a `TransferChecked` of exactly
//! `amount` from the signer's source account into the vault's token account and
//! a memo `deposit:<signer>:<amount>:<nonce>` of a memo program, the memo is
//! backed by such a transfer that comes before it with no other memo of the same
//! signer and amount in between, and the nonce is above the last one credited
//! to the user. So each transfer backs at most one credit.

use vstd::prelude::*;

use crate::error::VaultError;
use crate::introspection::{
    load_instructions, sysvar_instructions, transaction_view, transfer_checked_amount,
    unpack_transfer_checked, Instruction, InstructionView, LoadedInstruction,
};
use crate::memo::{
    bytes_equal, bytes_start_with, deposit_memo, expected_memo, expected_memo_head, memo_head,
    starts_with,
};
use crate::pubkey::{base58_text, parse_base58_pubkey, pubkey_from_str, Pubkey};
use crate::state::{nonce_unused, User};

verus! {

/// What the deposit reads: the signer, its user record, the mint, the source and
/// vault token accounts, the token program and the instructions-sysvar data.
#[derive(Debug)]
pub struct Deposit {
    pub signer: Pubkey,
    pub user: User,
    pub mint: Pubkey,
    pub source_ata: Pubkey,
    pub vault_ta: Pubkey,
    pub token_program: Pubkey,
    pub instructions: Vec<u8>,
}

/// The transfer that must back a deposit: its token program, source account,
/// mint, destination account, authority and amount.
#[derive(Clone, Copy, Debug)]
pub struct TransferTerms {
    pub token_program: Pubkey,
    pub source: Pubkey,
    pub mint: Pubkey,
    pub destination: Pubkey,
    pub authority: Pubkey,
    pub amount: u64,
}

/// The backing transfer as plain values.
pub struct ExpectedTransfer {
    pub token_program: Seq<u8>,
    pub source: Seq<u8>,
    pub mint: Seq<u8>,
    pub destination: Seq<u8>,
    pub authority: Seq<u8>,
    pub amount: u64,
}

impl View for TransferTerms {
    type V = ExpectedTransfer;

    open spec fn view(&self) -> ExpectedTransfer {
        ExpectedTransfer {
            token_program: self.token_program@,
            source: self.source@,
            mint: self.mint@,
            destination: self.destination@,
            authority: self.authority@,
            amount: self.amount,
        }
    }
}

/// The instruction is a `TransferChecked` of the token program, of `t.amount`,
/// whose first four accounts are the source, the mint, the destination and the
/// authority.
pub open spec fn is_matching_transfer(ix: InstructionView, t: ExpectedTransfer) -> bool {
    &&& ix.program_id == t.token_program
    &&& transfer_checked_amount(ix.data) == Some(t.amount)
    &&& ix.accounts.len() >= 4
    &&& ix.accounts[0] == t.source
    &&& ix.accounts[1] == t.mint
    &&& ix.accounts[2] == t.destination
    &&& ix.accounts[3] == t.authority
}

/// Scanning the read instructions from `i` on for the transfer; an instruction
/// that could not be read ends the scan. `transfer_scan_ends_at_first_stop` and
/// `transfer_scan_without_stop` state the outcome directly.
pub open spec fn transfer_scan(txn: Seq<Option<(InstructionView, bool)>>, i: int, t: ExpectedTransfer) -> Result<(), VaultError>
    decreases txn.len() - i,
{
    if i >= txn.len() || i < 0 {
        Err(VaultError::TransferNotFound)
    } else {
        match txn[i] {
            None => Err(VaultError::TransferNotFound),
            Some((ix, _)) => if is_matching_transfer(ix, t) {
                Ok(())
            } else {
                transfer_scan(txn, i + 1, t)
            },
        }
    }
}

/// The instruction is one of the memo programs'.
pub open spec fn is_memo_instruction(ix: InstructionView, memo_id: Seq<u8>, memo_v1_id: Seq<u8>) -> bool {
    ix.program_id == memo_id || ix.program_id == memo_v1_id
}

/// Scanning the read instructions from `i` on for the memo: an instruction that
/// could not be read, or a memo-program instruction whose data is not text, ends
/// the scan with `InvalidMemo`; a memo-program instruction with the expected text
/// ends it with success. `memo_scan_ends_at_first_stop` and
/// `memo_scan_without_stop` state the outcome directly.
pub open spec fn memo_scan(
    txn: Seq<Option<(InstructionView, bool)>>,
    i: int,
    memo_id: Seq<u8>,
    memo_v1_id: Seq<u8>,
    expected: Seq<u8>,
) -> Result<(), VaultError>
    decreases txn.len() - i,
{
    if i >= txn.len() || i < 0 {
        Err(VaultError::MemoNotFound)
    } else {
        match txn[i] {
            None => Err(VaultError::InvalidMemo),
            Some((ix, text)) => if is_memo_instruction(ix, memo_id, memo_v1_id) {
                if !text {
                    Err(VaultError::InvalidMemo)
                } else if ix.data == expected {
                    Ok(())
                } else {
                    memo_scan(txn, i + 1, memo_id, memo_v1_id, expected)
                }
            } else {
                memo_scan(txn, i + 1, memo_id, memo_v1_id, expected)
            },
        }
    }
}

/// Where the transfer scan stops: at an instruction that could not be read or
/// at the backing transfer.
pub open spec fn transfer_stop(entry: Option<(InstructionView, bool)>, t: ExpectedTransfer) -> bool {
    match entry {
        None => true,
        Some((ix, _)) => is_matching_transfer(ix, t),
    }
}

/// Where the memo scan stops: at an instruction that could not be read, or at a
/// memo-program instruction whose data is not text or is the expected text.
pub open spec fn memo_stop(entry: Option<(InstructionView, bool)>, memo_id: Seq<u8>, memo_v1_id: Seq<u8>, expected: Seq<u8>) -> bool {
    match entry {
        None => true,
        Some((ix, text)) => is_memo_instruction(ix, memo_id, memo_v1_id) && (!text || ix.data == expected),
    }
}

/// The transfer scan gives success exactly when its first stop is the backing
/// transfer, and `TransferNotFound` when that stop is an unreadable instruction.
pub proof fn transfer_scan_ends_at_first_stop(txn: Seq<Option<(InstructionView, bool)>>, i: int, j: int, t: ExpectedTransfer)
    requires
        0 <= i <= j < txn.len(),
        transfer_stop(txn[j], t),
        forall|k: int| i <= k < j ==> !transfer_stop(#[trigger] txn[k], t),
    ensures
        transfer_scan(txn, i, t) == (if txn[j] is Some {
            Ok::<(), VaultError>(())
        } else {
            Err(VaultError::TransferNotFound)
        }),
    decreases j - i,
{
    if i < j {
        assert(!transfer_stop(txn[i], t));
        transfer_scan_ends_at_first_stop(txn, i + 1, j, t);
    }
}

/// Without a stop the transfer scan gives `TransferNotFound`.
pub proof fn transfer_scan_without_stop(txn: Seq<Option<(InstructionView, bool)>>, i: int, t: ExpectedTransfer)
    requires
        0 <= i,
        forall|k: int| i <= k < txn.len() ==> !transfer_stop(#[trigger] txn[k], t),
    ensures
        transfer_scan(txn, i, t) == Err::<(), VaultError>(VaultError::TransferNotFound),
    decreases txn.len() - i,
{
    if i < txn.len() {
        assert(!transfer_stop(txn[i], t));
        transfer_scan_without_stop(txn, i + 1, t);
    }
}

/// The memo scan gives what its first stop gives: success at a memo with the
/// expected text, `InvalidMemo` at an unreadable instruction or at a memo that
/// is not text.
pub proof fn memo_scan_ends_at_first_stop(
    txn: Seq<Option<(InstructionView, bool)>>,
    i: int,
    j: int,
    memo_id: Seq<u8>,
    memo_v1_id: Seq<u8>,
    expected: Seq<u8>,
)
    requires
        0 <= i <= j < txn.len(),
        memo_stop(txn[j], memo_id, memo_v1_id, expected),
        forall|k: int| i <= k < j ==> !memo_stop(#[trigger] txn[k], memo_id, memo_v1_id, expected),
    ensures
        memo_scan(txn, i, memo_id, memo_v1_id, expected) == (if txn[j] matches Some((_, true)) {
            Ok::<(), VaultError>(())
        } else {
            Err(VaultError::InvalidMemo)
        }),
    decreases j - i,
{
    if i < j {
        assert(!memo_stop(txn[i], memo_id, memo_v1_id, expected));
        memo_scan_ends_at_first_stop(txn, i + 1, j, memo_id, memo_v1_id, expected);
    }
}

/// Without a stop the memo scan gives `MemoNotFound`.
pub proof fn memo_scan_without_stop(
    txn: Seq<Option<(InstructionView, bool)>>,
    i: int,
    memo_id: Seq<u8>,
    memo_v1_id: Seq<u8>,
    expected: Seq<u8>,
)
    requires
        0 <= i,
        forall|k: int| i <= k < txn.len() ==> !memo_stop(#[trigger] txn[k], memo_id, memo_v1_id, expected),
    ensures
        memo_scan(txn, i, memo_id, memo_v1_id, expected) == Err::<(), VaultError>(VaultError::MemoNotFound),
    decreases txn.len() - i,
{
    if i < txn.len() {
        assert(!memo_stop(txn[i], memo_id, memo_v1_id, expected));
        memo_scan_without_stop(txn, i + 1, memo_id, memo_v1_id, expected);
    }
}

/// A transfer scan that succeeds met the backing transfer.
pub proof fn lemma_transfer_scan_finds(txn: Seq<Option<(InstructionView, bool)>>, i: int, t: ExpectedTransfer)
    requires
        transfer_scan(txn, i, t) is Ok,
    ensures
        exists|p: int| i <= p < txn.len() && (#[trigger] txn[p] matches Some((ix, _)) && is_matching_transfer(ix, t)),
    decreases txn.len() - i,
{
    if 0 <= i < txn.len() {
        if !(txn[i] matches Some((ix, _)) && is_matching_transfer(ix, t)) {
            lemma_transfer_scan_finds(txn, i + 1, t);
        }
    }
}

/// A memo-program instruction whose data begins with `head`: a memo that claims
/// a transfer of the signer and amount that `head` names.
pub open spec fn is_claim_memo(ix: InstructionView, memo_id: Seq<u8>, memo_v1_id: Seq<u8>, head: Seq<u8>) -> bool {
    is_memo_instruction(ix, memo_id, memo_v1_id) && starts_with(ix.data, head)
}

/// The transfer at position `p` backs the memo at position `m`: it comes first,
/// matches, and no claiming memo stands between the two.
pub open spec fn transfer_backs_memo_at(
    txn: Seq<Option<(InstructionView, bool)>>,
    p: int,
    m: int,
    memo_id: Seq<u8>,
    memo_v1_id: Seq<u8>,
    t: ExpectedTransfer,
    head: Seq<u8>,
) -> bool {
    &&& 0 <= p < m <= txn.len()
    &&& txn[p] matches Some((ix, _)) && is_matching_transfer(ix, t)
    &&& forall|j: int|
        p < j < m ==> !(#[trigger] txn[j] matches Some((ix, _)) && is_claim_memo(
            ix,
            memo_id,
            memo_v1_id,
            head,
        ))
}

/// Position `m` holds a memo-program instruction with the expected text and
/// position `p` the transfer that backs it.
pub open spec fn backs(
    txn: Seq<Option<(InstructionView, bool)>>,
    p: int,
    m: int,
    memo_id: Seq<u8>,
    memo_v1_id: Seq<u8>,
    t: ExpectedTransfer,
    expected: Seq<u8>,
    head: Seq<u8>,
) -> bool {
    &&& m < txn.len()
    &&& txn[m] matches Some((ix, _)) && is_memo_instruction(ix, memo_id, memo_v1_id) && ix.data == expected
    &&& transfer_backs_memo_at(txn, p, m, memo_id, memo_v1_id, t, head)
}

/// Some memo with the expected text is backed by a transfer.
pub open spec fn paired(
    txn: Seq<Option<(InstructionView, bool)>>,
    memo_id: Seq<u8>,
    memo_v1_id: Seq<u8>,
    t: ExpectedTransfer,
    expected: Seq<u8>,
    head: Seq<u8>,
) -> bool {
    exists|p: int, m: int| #[trigger] backs(txn, p, m, memo_id, memo_v1_id, t, expected, head)
}

/// The text of the memo program's current address.
pub open spec fn memo_program_text() -> &'static str {
    "MemoSq4gqABAXKb96qnH8TysNcWxMyWCqXgDLGmfcHr"
}

/// The text of the memo program's earlier address.
pub open spec fn memo_program_v1_text() -> &'static str {
    "Memo1UhkJRfHyvLMcVucJwxXeuD728EqVDDwQDxFMNo"
}

/// The outcome of looking for the memo, given the two memo-program addresses
/// as parsed from their texts.
pub open spec fn memo_outcome(
    txn: Seq<Option<(InstructionView, bool)>>,
    memo_ids: (Option<Seq<u8>>, Option<Seq<u8>>),
    expected: Seq<u8>,
) -> Result<(), VaultError> {
    match memo_ids {
        (Some(memo_id), Some(memo_v1_id)) => memo_scan(txn, 0, memo_id, memo_v1_id, expected),
        _ => Err(VaultError::InvalidMemo),
    }
}

/// The outcome of pairing the memo with a backing transfer, given the two
/// memo-program addresses as parsed from their texts.
pub open spec fn pairing_outcome(
    txn: Seq<Option<(InstructionView, bool)>>,
    memo_ids: (Option<Seq<u8>>, Option<Seq<u8>>),
    t: ExpectedTransfer,
    expected: Seq<u8>,
    head: Seq<u8>,
) -> Result<(), VaultError> {
    match memo_ids {
        (Some(memo_id), Some(memo_v1_id)) => if paired(txn, memo_id, memo_v1_id, t, expected, head) {
            Ok(())
        } else {
            Err(VaultError::UnpairedMemo)
        },
        _ => Err(VaultError::InvalidMemo),
    }
}

/// The two memo-program addresses, as parsed from their texts.
pub open spec fn memo_program_ids() -> (Option<Seq<u8>>, Option<Seq<u8>>) {
    (parse_base58_pubkey(memo_program_text()@), parse_base58_pubkey(memo_program_v1_text()@))
}

/// The outcome of looking for the transfer among the instructions before the
/// running one.
pub open spec fn transfer_check(data: Seq<u8>, t: ExpectedTransfer) -> Result<(), VaultError> {
    transfer_scan(sysvar_instructions(data), 0, t)
}

/// The outcome of looking for the memo among the instructions before the
/// running one.
pub open spec fn memo_check(data: Seq<u8>, expected: Seq<u8>) -> Result<(), VaultError> {
    memo_outcome(sysvar_instructions(data), memo_program_ids(), expected)
}

/// The outcome of pairing the memo with a backing transfer among the
/// instructions before the running one.
pub open spec fn pairing_check(data: Seq<u8>, t: ExpectedTransfer, expected: Seq<u8>, head: Seq<u8>) -> Result<(), VaultError> {
    pairing_outcome(sysvar_instructions(data), memo_program_ids(), t, expected, head)
}

/// The user record after a deposit of `amount` with `nonce` is credited.
pub open spec fn credited(user: User, amount: u64, nonce: u64) -> User {
    User { balance: (user.balance + amount) as u64, last_nonce: Some(nonce), ..user }
}

impl Deposit {
    /// The transfer that backs a deposit of `amount` here.
    pub open spec fn expected_transfer(&self, amount: u64) -> ExpectedTransfer {
        ExpectedTransfer {
            token_program: self.token_program@,
            source: self.source_ata@,
            mint: self.mint@,
            destination: self.vault_ta@,
            authority: self.signer@,
            amount,
        }
    }

    /// The memo that a deposit of `amount` with `nonce` here must carry.
    pub open spec fn memo(&self, amount: u64, nonce: u64) -> Seq<u8> {
        deposit_memo(base58_text(self.signer@), amount, nonce)
    }

    /// The head shared by the memos of deposits of `amount` here.
    pub open spec fn head(&self, amount: u64) -> Seq<u8> {
        memo_head(base58_text(self.signer@), amount)
    }

    /// Positions `p` and `m` of the instructions before the running one hold the
    /// transfer and the memo that back a deposit of `amount` with `nonce`.
    pub open spec fn backed_at(&self, amount: u64, nonce: u64, p: int, m: int) -> bool {
        backs(
            sysvar_instructions(self.instructions@),
            p,
            m,
            memo_program_ids().0->0,
            memo_program_ids().1->0,
            self.expected_transfer(amount),
            self.memo(amount, nonce),
            self.head(amount),
        )
    }

    /// The outcome of a deposit of `amount` with `nonce`: the transfer is looked
    /// for, then the memo, then the memo must be paired with a backing transfer,
    /// then the nonce must be unused, then the balance is credited unless it
    /// overflows.
    pub open spec fn deposit_outcome(&self, amount: u64, nonce: u64) -> Result<(), VaultError> {
        let t = transfer_check(self.instructions@, self.expected_transfer(amount));
        let m = memo_check(self.instructions@, self.memo(amount, nonce));
        let p = pairing_check(
            self.instructions@,
            self.expected_transfer(amount),
            self.memo(amount, nonce),
            self.head(amount),
        );
        if t is Err {
            t
        } else if m is Err {
            m
        } else if p is Err {
            p
        } else if !nonce_unused(self.user.last_nonce, nonce) {
            Err(VaultError::NonceAlreadyUsed)
        } else if self.user.balance + amount > u64::MAX {
            Err(VaultError::ArithmeticError)
        } else {
            Ok(())
        }
    }

    /// Credits `amount` to the user and records `nonce` once the transaction is
    /// found to carry the backing transfer and memo and the nonce is unused. On
    /// any error nothing changes.
    pub fn deposit(&mut self, amount: u64, nonce: u64) -> (r: Result<(), VaultError>)
        requires
            old(self).instructions@.len() >= 2,
        ensures
            r == old(self).deposit_outcome(amount, nonce),
            r is Ok ==> final(self).user == credited(old(self).user, amount, nonce),
            r is Err ==> final(self).user == old(self).user,
            r is Ok ==> final(self).user.balance == old(self).user.balance + amount
                && final(self).user.last_nonce == Some(nonce) && final(self).user.whitelisted == old(self).user.whitelisted
                && final(self).user.bump == old(self).user.bump,
            r is Ok ==> (old(self).user.last_nonce matches Some(last) ==> last < nonce),
            r is Ok ==> exists|p: int|
                0 <= p < sysvar_instructions(old(self).instructions@).len() && (#[trigger] sysvar_instructions(
                    old(self).instructions@,
                )[p] matches Some((ix, _)) && ix.program_id == old(self).token_program@
                    && ix.accounts.len() >= 4 && ix.accounts[0] == old(self).source_ata@
                    && ix.accounts[1] == old(self).mint@ && ix.accounts[2] == old(self).vault_ta@
                    && ix.accounts[3] == old(self).signer@ && transfer_checked_amount(ix.data) == Some(
                    amount,
                )),
            final(self).signer == old(self).signer,
            final(self).mint == old(self).mint,
            final(self).source_ata == old(self).source_ata,
            final(self).vault_ta == old(self).vault_ta,
            final(self).token_program == old(self).token_program,
            final(self).instructions@ == old(self).instructions@,
    {
        let expected_memo = expected_memo(&self.signer, amount, nonce);
        let memo_head = expected_memo_head(&self.signer, amount);
        Self::verify_transfer_in_transaction(
            self.instructions.as_slice(),
            self.token_program,
            self.source_ata,
            self.mint,
            self.vault_ta,
            self.signer,
            amount,
        )?;
        let terms = TransferTerms {
            token_program: self.token_program,
            source: self.source_ata,
            mint: self.mint,
            destination: self.vault_ta,
            authority: self.signer,
            amount,
        };
        Self::verify_memo_in_transaction(self.instructions.as_slice(), expected_memo.as_slice())?;
        Self::verify_transfer_backs_memo(
            self.instructions.as_slice(),
            &terms,
            expected_memo.as_slice(),
            memo_head.as_slice(),
        )?;
        match self.user.last_nonce {
            Some(last) => {
                if nonce <= last {
                    return Err(VaultError::NonceAlreadyUsed);
                }
            },
            None => {},
        }
        match self.user.balance.checked_add(amount) {
            Some(b) => {
                proof {
                    lemma_transfer_scan_finds(
                        sysvar_instructions(self.instructions@),
                        0,
                        self.expected_transfer(amount),
                    );
                }
                self.user.balance = b;
                self.user.last_nonce = Some(nonce);
            },
            None => {
                return Err(VaultError::ArithmeticError);
            },
        }
        Ok(())
    }

    /// Whether the address is one of the memo programs'.
    pub fn is_memo_program(program_id: &Pubkey, memo_program_ids: &[Pubkey; 2]) -> (r: bool)
        ensures
            r == (program_id@ == memo_program_ids@[0]@ || program_id@ == memo_program_ids@[1]@),
    {
        program_id.equals(&memo_program_ids[0]) || program_id.equals(&memo_program_ids[1])
    }

    /// Whether the instruction is the backing transfer.
    pub fn is_expected_transfer(ix: &Instruction, terms: &TransferTerms) -> (r: bool)
        ensures
            r == is_matching_transfer(ix@, terms@),
    {
        if !ix.program_id.equals(&terms.token_program) {
            return false;
        }
        match unpack_transfer_checked(ix.data.as_slice()) {
            Some(amount) => {
                if ix.accounts.len() < 4 {
                    return false;
                }
                let source_matches = ix.accounts[0].equals(&terms.source);
                let mint_matches = ix.accounts[1].equals(&terms.mint);
                let destination_matches = ix.accounts[2].equals(&terms.destination);
                let authority_matches = ix.accounts[3].equals(&terms.authority);
                let amount_matches = amount == terms.amount;
                source_matches && mint_matches && destination_matches && authority_matches
                    && amount_matches
            },
            None => false,
        }
    }

    /// Looks through the read instructions for the backing transfer.
    pub fn find_transfer(txn: &Vec<Option<LoadedInstruction>>, terms: &TransferTerms) -> (r: Result<(), VaultError>)
        ensures
            r == transfer_scan(transaction_view(txn@), 0, terms@),
    {
        let ghost view = transaction_view(txn@);
        let mut i: usize = 0;
        while i < txn.len()
            invariant
                view == transaction_view(txn@),
                i <= txn@.len(),
                transfer_scan(view, 0, terms@) == transfer_scan(view, i as int, terms@),
            decreases txn@.len() - i,
        {
            match &txn[i] {
                None => {
                    return Err(VaultError::TransferNotFound);
                },
                Some(loaded) => {
                    if Self::is_expected_transfer(&loaded.instruction, terms) {
                        return Ok(());
                    }
                },
            }
            i = i + 1;
        }
        Err(VaultError::TransferNotFound)
    }

    /// Looks through the read instructions for a memo of one of the two memo
    /// programs with the expected text.
    pub fn find_memo(txn: &Vec<Option<LoadedInstruction>>, memo_program_ids: &[Pubkey; 2], expected_memo: &[u8]) -> (r: Result<(), VaultError>)
        ensures
            r == memo_scan(transaction_view(txn@), 0, memo_program_ids@[0]@, memo_program_ids@[1]@, expected_memo@),
    {
        let ghost view = transaction_view(txn@);
        let ghost id0 = memo_program_ids@[0]@;
        let ghost id1 = memo_program_ids@[1]@;
        let mut i: usize = 0;
        while i < txn.len()
            invariant
                view == transaction_view(txn@),
                id0 == memo_program_ids@[0]@,
                id1 == memo_program_ids@[1]@,
                i <= txn@.len(),
                memo_scan(view, 0, id0, id1, expected_memo@) == memo_scan(view, i as int, id0, id1, expected_memo@),
            decreases txn@.len() - i,
        {
            match &txn[i] {
                None => {
                    return Err(VaultError::InvalidMemo);
                },
                Some(loaded) => {
                    if Self::is_memo_program(&loaded.instruction.program_id, memo_program_ids) {
                        if !loaded.data_is_text {
                            return Err(VaultError::InvalidMemo);
                        }
                        if bytes_equal(loaded.instruction.data.as_slice(), expected_memo) {
                            return Ok(());
                        }
                    }
                },
            }
            i = i + 1;
        }
        Err(VaultError::MemoNotFound)
    }

    /// Looks back from the memo at position `m` for the transfer that backs it:
    /// the nearest matching transfer before it, unless a memo claiming the same
    /// signer and amount comes first.
    pub fn find_backing_transfer(
        txn: &Vec<Option<LoadedInstruction>>,
        m: usize,
        memo_program_ids: &[Pubkey; 2],
        terms: &TransferTerms,
        memo_head: &[u8],
    ) -> (r: bool)
        requires
            m <= txn@.len(),
        ensures
            r == (exists|p: int|
                transfer_backs_memo_at(
                    transaction_view(txn@),
                    p,
                    m as int,
                    memo_program_ids@[0]@,
                    memo_program_ids@[1]@,
                    terms@,
                    memo_head@,
                )),
    {
        let ghost view = transaction_view(txn@);
        let ghost id0 = memo_program_ids@[0]@;
        let ghost id1 = memo_program_ids@[1]@;
        let mut j: usize = m;
        while j > 0
            invariant
                view == transaction_view(txn@),
                id0 == memo_program_ids@[0]@,
                id1 == memo_program_ids@[1]@,
                j <= m <= txn@.len(),
                forall|q: int|
                    j <= q < m ==> !(#[trigger] view[q] matches Some((ix, _)) && is_claim_memo(
                        ix,
                        id0,
                        id1,
                        memo_head@,
                    )),
                forall|q: int|
                    j <= q < m ==> !(#[trigger] view[q] matches Some((ix, _)) && is_matching_transfer(
                        ix,
                        terms@,
                    )),
            decreases j,
        {
            j = j - 1;
            match &txn[j] {
                None => {},
                Some(loaded) => {
                    if Self::is_expected_transfer(&loaded.instruction, terms) {
                        assert(transfer_backs_memo_at(view, j as int, m as int, id0, id1, terms@, memo_head@));
                        return true;
                    }
                    if Self::is_memo_program(&loaded.instruction.program_id, memo_program_ids)
                        && bytes_start_with(loaded.instruction.data.as_slice(), memo_head) {
                        assert forall|p: int|
                            !transfer_backs_memo_at(view, p, m as int, id0, id1, terms@, memo_head@) by {
                            if transfer_backs_memo_at(view, p, m as int, id0, id1, terms@, memo_head@) {
                                if p < j {
                                    assert(view[j as int] matches Some((ix, _)) && is_claim_memo(ix, id0, id1, memo_head@));
                                } else {
                                    assert(view[p] matches Some((ix, _)) && is_matching_transfer(ix, terms@));
                                }
                            }
                        }
                        return false;
                    }
                },
            }
        }
        assert forall|p: int| !transfer_backs_memo_at(view, p, m as int, id0, id1, terms@, memo_head@) by {
            if transfer_backs_memo_at(view, p, m as int, id0, id1, terms@, memo_head@) {
                assert(view[p] matches Some((ix, _)) && is_matching_transfer(ix, terms@));
            }
        }
        false
    }

    /// Looks through the read instructions for a memo with the expected text that
    /// a transfer backs.
    pub fn find_backing_pair(
        txn: &Vec<Option<LoadedInstruction>>,
        memo_program_ids: &[Pubkey; 2],
        terms: &TransferTerms,
        expected_memo: &[u8],
        memo_head: &[u8],
    ) -> (r: bool)
        ensures
            r == paired(
                transaction_view(txn@),
                memo_program_ids@[0]@,
                memo_program_ids@[1]@,
                terms@,
                expected_memo@,
                memo_head@,
            ),
    {
        let ghost view = transaction_view(txn@);
        let ghost id0 = memo_program_ids@[0]@;
        let ghost id1 = memo_program_ids@[1]@;
        let mut m: usize = 0;
        while m < txn.len()
            invariant
                view == transaction_view(txn@),
                id0 == memo_program_ids@[0]@,
                id1 == memo_program_ids@[1]@,
                m <= txn@.len(),
                forall|p: int, q: int|
                    0 <= q < m ==> !#[trigger] backs(view, p, q, id0, id1, terms@, expected_memo@, memo_head@),
            decreases txn@.len() - m,
        {
            match &txn[m] {
                None => {},
                Some(loaded) => {
                    if Self::is_memo_program(&loaded.instruction.program_id, memo_program_ids)
                        && bytes_equal(loaded.instruction.data.as_slice(), expected_memo) {
                        if Self::find_backing_transfer(txn, m, memo_program_ids, terms, memo_head) {
                            let ghost p = choose|p: int|
                                transfer_backs_memo_at(view, p, m as int, id0, id1, terms@, memo_head@);
                            assert(backs(view, p, m as int, id0, id1, terms@, expected_memo@, memo_head@));
                            return true;
                        }
                    }
                },
            }
            m = m + 1;
        }
        false
    }

    /// Looks through the instructions before the running one for a memo-program
    /// instruction whose data is `expected_memo`.
    pub fn verify_memo_in_transaction(instructions_sysvar: &[u8], expected_memo: &[u8]) -> (r: Result<(), VaultError>)
        requires
            instructions_sysvar@.len() >= 2,
        ensures
            r == memo_check(instructions_sysvar@, expected_memo@),
    {
        let txn = load_instructions(instructions_sysvar);
        let memo_program_ids = match Self::parse_memo_program_ids() {
            Some(ids) => ids,
            None => {
                return Err(VaultError::InvalidMemo);
            },
        };
        Self::find_memo(&txn, &memo_program_ids, expected_memo)
    }

    /// Checks, among the instructions before the running one, that a memo-program
    /// instruction whose data is `expected_memo` is backed by a transfer: a
    /// matching transfer comes before it and no memo that begins with
    /// `memo_head` stands between the two. So two deposits of one transaction
    /// never lean on the same transfer.
    pub fn verify_transfer_backs_memo(
        instructions_sysvar: &[u8],
        terms: &TransferTerms,
        expected_memo: &[u8],
        memo_head: &[u8],
    ) -> (r: Result<(), VaultError>)
        requires
            instructions_sysvar@.len() >= 2,
        ensures
            r == pairing_check(instructions_sysvar@, terms@, expected_memo@, memo_head@),
    {
        let txn = load_instructions(instructions_sysvar);
        let memo_program_ids = match Self::parse_memo_program_ids() {
            Some(ids) => ids,
            None => {
                return Err(VaultError::InvalidMemo);
            },
        };
        if Self::find_backing_pair(&txn, &memo_program_ids, terms, expected_memo, memo_head) {
            Ok(())
        } else {
            Err(VaultError::UnpairedMemo)
        }
    }

    /// The addresses of the memo program and of its earlier version, parsed from
    /// their base58 texts.
    pub fn parse_memo_program_ids() -> (r: Option<[Pubkey; 2]>)
        ensures
            r is Some <==> (memo_program_ids().0 is Some && memo_program_ids().1 is Some),
            r is Some ==> (Some(r->0@[0]@) == memo_program_ids().0 && Some(r->0@[1]@) == memo_program_ids().1),
    {
        let memo_id = match pubkey_from_str("MemoSq4gqABAXKb96qnH8TysNcWxMyWCqXgDLGmfcHr") {
            Some(k) => k,
            None => {
                return None;
            },
        };
        let memo_v1_id = match pubkey_from_str("Memo1UhkJRfHyvLMcVucJwxXeuD728EqVDDwQDxFMNo") {
            Some(k) => k,
            None => {
                return None;
            },
        };
        Some([memo_id, memo_v1_id])
    }

    /// Looks through the instructions before the running one for the
    /// `TransferChecked` that backs the deposit.
    pub fn verify_transfer_in_transaction(
        instructions_sysvar: &[u8],
        token_program_id: Pubkey,
        source_ata: Pubkey,
        mint: Pubkey,
        vault_ta: Pubkey,
        signer: Pubkey,
        expected_amount: u64,
    ) -> (r: Result<(), VaultError>)
        requires
            instructions_sysvar@.len() >= 2,
        ensures
            r == transfer_check(
                instructions_sysvar@,
                ExpectedTransfer {
                    token_program: token_program_id@,
                    source: source_ata@,
                    mint: mint@,
                    destination: vault_ta@,
                    authority: signer@,
                    amount: expected_amount,
                },
            ),
    {
        let terms = TransferTerms {
            token_program: token_program_id,
            source: source_ata,
            mint,
            destination: vault_ta,
            authority: signer,
            amount: expected_amount,
        };
        let txn = load_instructions(instructions_sysvar);
        Self::find_transfer(&txn, &terms)
    }
}

} // verus!
