//! Reading the instructions of the running transaction out of the
//! instructions-sysvar account data, and decoding the ones the vault checks.

use vstd::prelude::*;

use crate::pubkey::Pubkey;

#[allow(deprecated)]
use anchor_lang::solana_program::sysvar::instructions::{
    load_current_index_checked, load_instruction_at_checked,
};
use anchor_lang::solana_program::account_info::AccountInfo;
use anchor_spl::token_2022::spl_token_2022::instruction::TokenInstruction;

verus! {

/// An instruction of the running transaction: the program it calls, the
/// addresses of the accounts it names, in order, and its data.
#[derive(Clone, Debug)]
pub struct Instruction {
    pub program_id: Pubkey,
    pub accounts: Vec<Pubkey>,
    pub data: Vec<u8>,
}

/// An instruction as plain values.
pub struct InstructionView {
    pub program_id: Seq<u8>,
    pub accounts: Seq<Seq<u8>>,
    pub data: Seq<u8>,
}

impl View for Instruction {
    type V = InstructionView;

    open spec fn view(&self) -> InstructionView {
        InstructionView {
            program_id: self.program_id@,
            accounts: self.accounts@.map_values(|k: Pubkey| k@),
            data: self.data@,
        }
    }
}

/// The index of the running instruction, as the instructions sysvar stores
/// it: the little-endian `u16` in the last two bytes of the account data.
pub open spec fn running_index(data: Seq<u8>) -> int {
    data[data.len() - 2] + 256 * data[data.len() - 1]
}

/// The instruction at `index` that the instructions-sysvar data describes, or
/// `None` where the data holds no such instruction.
pub uninterp spec fn sysvar_instruction(data: Seq<u8>, index: int) -> Option<InstructionView>;

/// Whether the bytes are well-formed UTF-8 text.
pub uninterp spec fn utf8_valid(bytes: Seq<u8>) -> bool;

/// The little-endian `u64` in `d[at..at + 8]`.
pub open spec fn le_u64(d: Seq<u8>, at: int) -> int {
    d[at] + d[at + 1] * 0x100 + d[at + 2] * 0x1_0000 + d[at + 3] * 0x100_0000
        + d[at + 4] * 0x1_0000_0000 + d[at + 5] * 0x100_0000_0000
        + d[at + 6] * 0x1_0000_0000_0000 + d[at + 7] * 0x100_0000_0000_0000
}

/// What a token-program instruction's data says when it is a `TransferChecked`:
/// tag 12, then the amount as a little-endian `u64`, then the decimals byte.
pub open spec fn transfer_checked_amount(data: Seq<u8>) -> Option<u64> {
    if data.len() >= 10 && data[0] == 12 {
        Some(le_u64(data, 1) as u64)
    } else {
        None
    }
}

/// `load_current_index_checked` on an account that has the instructions-sysvar
/// address and holds `data`. The source reads the little-endian `u16` in the last
/// two bytes; it panics on data shorter than two bytes, which `requires` rules
/// out, and the address check passes since the address is the sysvar's own.
#[verifier::external_body]
pub(crate) fn sysvar_current_index(data: &[u8]) -> (r: Option<u16>)
    requires
        data@.len() >= 2,
    ensures
        r == Some(running_index(data@) as u16),
{
    let mut buf = data.to_vec();
    let mut lamports = 0u64;
    let owner = anchor_lang::prelude::Pubkey::default();
    #[allow(deprecated)]
    let id = anchor_lang::solana_program::sysvar::instructions::ID;
    let info = AccountInfo::new(&id, false, false, &mut lamports, &mut buf, &owner, false, 0);
    load_current_index_checked(&info).ok()
}

/// `load_instruction_at_checked` on an account that has the instructions-sysvar
/// address and holds `data`, each account of the instruction given by its address.
/// What it decodes is named `sysvar_instruction`.
#[verifier::external_body]
pub(crate) fn sysvar_instruction_at(data: &[u8], index: usize) -> (r: Option<Instruction>)
    ensures
        match r {
            Some(ix) => sysvar_instruction(data@, index as int) == Some(ix@),
            None => sysvar_instruction(data@, index as int) is None,
        },
{
    let mut buf = data.to_vec();
    let mut lamports = 0u64;
    let owner = anchor_lang::prelude::Pubkey::default();
    #[allow(deprecated)]
    let id = anchor_lang::solana_program::sysvar::instructions::ID;
    let info = AccountInfo::new(&id, false, false, &mut lamports, &mut buf, &owner, false, 0);
    let ix = load_instruction_at_checked(index, &info).ok()?;
    let accounts = ix.accounts.iter().map(|m| Pubkey { bytes: m.pubkey.to_bytes() }).collect();
    Some(Instruction { program_id: Pubkey { bytes: ix.program_id.to_bytes() }, accounts, data: ix.data })
}

/// `TokenInstruction::unpack` of spl-token-2022, keeping the amount when the data
/// decodes to `TransferChecked`. Per the source, tag 12 is the only tag that gives
/// `TransferChecked`, and it needs 8 amount bytes and a decimals byte after the tag.
#[verifier::external_body]
pub(crate) fn unpack_transfer_checked(data: &[u8]) -> (r: Option<u64>)
    ensures
        r == transfer_checked_amount(data@),
{
    match TokenInstruction::unpack(data) {
        Ok(TokenInstruction::TransferChecked { amount, .. }) => Some(amount),
        _ => None,
    }
}

/// `std::str::from_utf8`: whether the bytes are accepted as text.
#[verifier::external_body]
pub(crate) fn is_utf8(data: &[u8]) -> (r: bool)
    ensures
        r == utf8_valid(data@),
{
    std::str::from_utf8(data).is_ok()
}

/// An instruction read from the transaction, with whether its data is UTF-8 text.
#[derive(Clone, Debug)]
pub struct LoadedInstruction {
    pub instruction: Instruction,
    pub data_is_text: bool,
}

/// A read instruction as plain values, or `None` where it could not be read.
pub open spec fn loaded_view(o: Option<LoadedInstruction>) -> Option<(InstructionView, bool)> {
    match o {
        None => None,
        Some(l) => Some((l.instruction@, l.data_is_text)),
    }
}

/// A list of read instructions as plain values.
pub open spec fn transaction_view(v: Seq<Option<LoadedInstruction>>) -> Seq<
    Option<(InstructionView, bool)>,
> {
    v.map_values(|o: Option<LoadedInstruction>| loaded_view(o))
}

/// The instructions before the running one, as the instructions-sysvar data
/// describes them, each with whether its data is text.
pub open spec fn sysvar_instructions(data: Seq<u8>) -> Seq<Option<(InstructionView, bool)>> {
    Seq::new(
        running_index(data) as nat,
        |i: int|
            match sysvar_instruction(data, i) {
                None => None,
                Some(ix) => Some((ix, utf8_valid(ix.data))),
            },
    )
}

/// Reads the instructions before the running one out of the instructions-sysvar data.
pub fn load_instructions(data: &[u8]) -> (r: Vec<Option<LoadedInstruction>>)
    requires
        data@.len() >= 2,
    ensures
        transaction_view(r@) == sysvar_instructions(data@),
{
    let n: u16 = match sysvar_current_index(data) {
        Some(n) => n,
        None => 0,
    };
    let mut r: Vec<Option<LoadedInstruction>> = Vec::new();
    let mut i: u16 = 0;
    while i < n
        invariant
            n as int == running_index(data@),
            i <= n,
            r@.len() == i,
            forall|j: int| 0 <= j < i ==> loaded_view(#[trigger] r@[j]) == sysvar_instructions(data@)[j],
        decreases n - i,
    {
        let entry = match sysvar_instruction_at(data, i as usize) {
            None => None,
            Some(ix) => {
                let text = is_utf8(ix.data.as_slice());
                Some(LoadedInstruction { instruction: ix, data_is_text: text })
            },
        };
        r.push(entry);
        i = i + 1;
    }
    assert(transaction_view(r@) =~= sysvar_instructions(data@));
    r
}

} // verus!
