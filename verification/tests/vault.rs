#![allow(deprecated)]

use anchor_lang::prelude::Pubkey as SolPubkey;
use anchor_lang::solana_program::sysvar::instructions::{
    construct_instructions_data, BorrowedAccountMeta, BorrowedInstruction,
};
use anchor_spl::token_2022::spl_token_2022;
use spl_token_2022::extension::transfer_hook::TransferHookAccount;
use spl_token_2022::extension::{
    BaseStateWithExtensionsMut, ExtensionType, PodStateWithExtensionsMut, StateWithExtensionsMut,
};
use spl_token_2022::pod::PodAccount;
use anchor_lang::solana_program::program_pack::Pack;
use spl_token_2022::state::{Account, AccountState};
use vault_hook::error::VaultError;
use vault_hook::instructions::deposit::Deposit;
use vault_hook::instructions::deposit::TransferTerms;
use vault_hook::instructions::init_extra_account_meta::ExtraAccountMeta;
use vault_hook::instructions::{
    AddToWhitelist, AddToWhitelistBumps, InitVaultConfig, InitVaultConfigBumps,
    HookAbort, HookVerdict, InitializeExtraAccountMetaList, RemoveFromWhitelist, TransferHook,
    TransferHookError,
    WhitelistOperations, WhitelistOperationsBumps, Withdraw,
};
use vault_hook::memo::{expected_memo, memo_from_parts};
use vault_hook::program::{initialize, Initialize};
use vault_hook::pubkey::Pubkey;
use vault_hook::state::{User, VaultConfig, VaultState, WhitelistEntry};

const MEMO_PROGRAM: &str = "MemoSq4gqABAXKb96qnH8TysNcWxMyWCqXgDLGmfcHr";
const MEMO_PROGRAM_V1: &str = "Memo1UhkJRfHyvLMcVucJwxXeuD728EqVDDwQDxFMNo";

fn key(b: u8) -> SolPubkey {
    SolPubkey::new_from_array([b; 32])
}

fn lib_key(k: &SolPubkey) -> Pubkey {
    Pubkey::new_from_array(k.to_bytes())
}

/// A transaction's instructions (program, account addresses, data) laid out as the
/// instructions sysvar holds them, with `current` as the running instruction.
fn sysvar_data(ixs: &[(SolPubkey, Vec<SolPubkey>, Vec<u8>)], current: u16) -> Vec<u8> {
    let borrowed: Vec<BorrowedInstruction> = ixs
        .iter()
        .map(|(program_id, accounts, data)| BorrowedInstruction {
            program_id,
            accounts: accounts
                .iter()
                .map(|k| BorrowedAccountMeta { pubkey: k, is_signer: false, is_writable: false })
                .collect(),
            data,
        })
        .collect();
    let mut data = construct_instructions_data(&borrowed);
    let len = data.len();
    data[len - 2..].copy_from_slice(&current.to_le_bytes());
    data
}

struct Scene {
    signer: SolPubkey,
    mint: SolPubkey,
    source: SolPubkey,
    vault: SolPubkey,
}

fn scene() -> Scene {
    Scene { signer: key(1), mint: key(2), source: key(3), vault: key(4) }
}

fn transfer_ix(s: &Scene, amount: u64) -> (SolPubkey, Vec<SolPubkey>, Vec<u8>) {
    let ix = spl_token_2022::instruction::transfer_checked(
        &spl_token_2022::ID,
        &s.source,
        &s.mint,
        &s.vault,
        &s.signer,
        &[],
        amount,
        6,
    )
    .unwrap();
    (ix.program_id, ix.accounts.iter().map(|m| m.pubkey).collect(), ix.data)
}

fn memo_ix(program: &str, text: &[u8]) -> (SolPubkey, Vec<SolPubkey>, Vec<u8>) {
    (program.parse().unwrap(), vec![], text.to_vec())
}

fn memo_text(s: &Scene, amount: u64, nonce: u64) -> Vec<u8> {
    format!("deposit:{}:{}:{}", s.signer, amount, nonce).into_bytes()
}

fn deposit_with(s: &Scene, balance: u64, instructions: Vec<u8>) -> Deposit {
    Deposit {
        signer: lib_key(&s.signer),
        user: User { balance, whitelisted: true, bump: 254, last_nonce: None },
        mint: lib_key(&s.mint),
        source_ata: lib_key(&s.source),
        vault_ta: lib_key(&s.vault),
        token_program: lib_key(&spl_token_2022::ID),
        instructions,
    }
}

fn deposit_ix() -> (SolPubkey, Vec<SolPubkey>, Vec<u8>) {
    (key(9), vec![], vec![0xf2, 0x23])
}

#[test]
fn deposit_credits_balance_with_transfer_and_memo() {
    let s = scene();
    let data = sysvar_data(
        &[transfer_ix(&s, 500), memo_ix(MEMO_PROGRAM, &memo_text(&s, 500, 7)), deposit_ix()],
        2,
    );
    let mut d = deposit_with(&s, 40, data);
    assert_eq!(d.deposit(500, 7), Ok(()));
    assert_eq!(d.user.balance, 540);
    assert!(d.user.whitelisted);
    assert_eq!(d.user.bump, 254);
}

#[test]
fn deposit_accepts_memo_of_the_earlier_memo_program() {
    let s = scene();
    let data = sysvar_data(
        &[transfer_ix(&s, 3), memo_ix(MEMO_PROGRAM_V1, &memo_text(&s, 3, 1)), deposit_ix()],
        2,
    );
    let mut d = deposit_with(&s, 0, data);
    assert_eq!(d.deposit(3, 1), Ok(()));
    assert_eq!(d.user.balance, 3);
}

#[test]
fn deposit_without_transfer_is_refused() {
    let s = scene();
    let data = sysvar_data(&[memo_ix(MEMO_PROGRAM, &memo_text(&s, 500, 7)), deposit_ix()], 1);
    let mut d = deposit_with(&s, 40, data);
    assert_eq!(d.deposit(500, 7), Err(VaultError::TransferNotFound));
    assert_eq!(d.user.balance, 40);
}

#[test]
fn deposit_with_transfer_of_other_amount_is_refused() {
    let s = scene();
    let data = sysvar_data(
        &[transfer_ix(&s, 499), memo_ix(MEMO_PROGRAM, &memo_text(&s, 500, 7)), deposit_ix()],
        2,
    );
    let mut d = deposit_with(&s, 40, data);
    assert_eq!(d.deposit(500, 7), Err(VaultError::TransferNotFound));
    assert_eq!(d.user.balance, 40);
}

#[test]
fn deposit_with_transfer_to_other_account_is_refused() {
    let s = scene();
    let other = Scene { vault: key(5), ..scene() };
    let data = sysvar_data(
        &[transfer_ix(&other, 500), memo_ix(MEMO_PROGRAM, &memo_text(&s, 500, 7)), deposit_ix()],
        2,
    );
    let mut d = deposit_with(&s, 40, data);
    assert_eq!(d.deposit(500, 7), Err(VaultError::TransferNotFound));
}

#[test]
fn deposit_ignores_transfer_after_the_running_instruction() {
    let s = scene();
    let data = sysvar_data(
        &[memo_ix(MEMO_PROGRAM, &memo_text(&s, 500, 7)), deposit_ix(), transfer_ix(&s, 500)],
        1,
    );
    let mut d = deposit_with(&s, 40, data);
    assert_eq!(d.deposit(500, 7), Err(VaultError::TransferNotFound));
}

#[test]
fn deposit_without_memo_is_refused() {
    let s = scene();
    let data = sysvar_data(&[transfer_ix(&s, 500), deposit_ix()], 1);
    let mut d = deposit_with(&s, 40, data);
    assert_eq!(d.deposit(500, 7), Err(VaultError::MemoNotFound));
    assert_eq!(d.user.balance, 40);
}

#[test]
fn deposit_with_memo_of_other_nonce_is_refused() {
    let s = scene();
    let data = sysvar_data(
        &[transfer_ix(&s, 500), memo_ix(MEMO_PROGRAM, &memo_text(&s, 500, 8)), deposit_ix()],
        2,
    );
    let mut d = deposit_with(&s, 40, data);
    assert_eq!(d.deposit(500, 7), Err(VaultError::MemoNotFound));
}

#[test]
fn deposit_with_memo_text_from_other_program_is_refused() {
    let s = scene();
    let data = sysvar_data(
        &[transfer_ix(&s, 500), (key(8), vec![], memo_text(&s, 500, 7)), deposit_ix()],
        2,
    );
    let mut d = deposit_with(&s, 40, data);
    assert_eq!(d.deposit(500, 7), Err(VaultError::MemoNotFound));
}

#[test]
fn deposit_with_memo_that_is_not_text_is_refused() {
    let s = scene();
    let data = sysvar_data(
        &[
            transfer_ix(&s, 500),
            memo_ix(MEMO_PROGRAM, &[0xff, 0xfe]),
            memo_ix(MEMO_PROGRAM, &memo_text(&s, 500, 7)),
            deposit_ix(),
        ],
        3,
    );
    let mut d = deposit_with(&s, 40, data);
    assert_eq!(d.deposit(500, 7), Err(VaultError::InvalidMemo));
    assert_eq!(d.user.balance, 40);
}

#[test]
fn deposit_that_overflows_is_refused() {
    let s = scene();
    let data = sysvar_data(
        &[transfer_ix(&s, 2), memo_ix(MEMO_PROGRAM, &memo_text(&s, 2, 0)), deposit_ix()],
        2,
    );
    let mut d = deposit_with(&s, u64::MAX - 1, data);
    assert_eq!(d.deposit(2, 0), Err(VaultError::ArithmeticError));
    assert_eq!(d.user.balance, u64::MAX - 1);
}

#[test]
fn transfer_check_finds_matching_transfer() {
    let s = scene();
    let data = sysvar_data(&[deposit_ix(), transfer_ix(&s, 10), deposit_ix()], 2);
    let r = Deposit::verify_transfer_in_transaction(
        &data,
        lib_key(&spl_token_2022::ID),
        lib_key(&s.source),
        lib_key(&s.mint),
        lib_key(&s.vault),
        lib_key(&s.signer),
        10,
    );
    assert_eq!(r, Ok(()));
    let wrong_signer = Deposit::verify_transfer_in_transaction(
        &data,
        lib_key(&spl_token_2022::ID),
        lib_key(&s.source),
        lib_key(&s.mint),
        lib_key(&s.vault),
        lib_key(&key(6)),
        10,
    );
    assert_eq!(wrong_signer, Err(VaultError::TransferNotFound));
}

#[test]
fn transfer_check_needs_the_token_program() {
    let s = scene();
    let (_, accounts, data) = transfer_ix(&s, 10);
    let sysvar = sysvar_data(&[(key(7), accounts, data), deposit_ix()], 1);
    let r = Deposit::verify_transfer_in_transaction(
        &sysvar,
        lib_key(&spl_token_2022::ID),
        lib_key(&s.source),
        lib_key(&s.mint),
        lib_key(&s.vault),
        lib_key(&s.signer),
        10,
    );
    assert_eq!(r, Err(VaultError::TransferNotFound));
}

#[test]
fn transfer_check_needs_four_accounts() {
    let s = scene();
    let (program, accounts, data) = transfer_ix(&s, 10);
    let sysvar = sysvar_data(&[(program, accounts[..3].to_vec(), data), deposit_ix()], 1);
    let r = Deposit::verify_transfer_in_transaction(
        &sysvar,
        lib_key(&spl_token_2022::ID),
        lib_key(&s.source),
        lib_key(&s.mint),
        lib_key(&s.vault),
        lib_key(&s.signer),
        10,
    );
    assert_eq!(r, Err(VaultError::TransferNotFound));
}

fn terms(s: &Scene, amount: u64) -> TransferTerms {
    TransferTerms {
        token_program: lib_key(&spl_token_2022::ID),
        source: lib_key(&s.source),
        mint: lib_key(&s.mint),
        destination: lib_key(&s.vault),
        authority: lib_key(&s.signer),
        amount,
    }
}

#[test]
fn is_expected_transfer_reads_transfer_checked_data() {
    let s = scene();
    let ix = vault_hook::introspection::Instruction {
        program_id: lib_key(&spl_token_2022::ID),
        accounts: vec![lib_key(&s.source), lib_key(&s.mint), lib_key(&s.vault), lib_key(&s.signer)],
        data: vec![12, 0x2c, 0x01, 0, 0, 0, 0, 0, 0, 9],
    };
    assert!(Deposit::is_expected_transfer(&ix, &terms(&s, 300)));
    assert!(!Deposit::is_expected_transfer(&ix, &terms(&s, 301)));
    let short = vault_hook::introspection::Instruction { data: vec![12, 0x2c, 0x01, 0, 0, 0, 0, 0, 0], ..ix.clone() };
    assert!(!Deposit::is_expected_transfer(&short, &terms(&s, 300)));
    let transfer = vault_hook::introspection::Instruction { data: vec![3, 0x2c, 0x01, 0, 0, 0, 0, 0, 0, 9], ..ix.clone() };
    assert!(!Deposit::is_expected_transfer(&transfer, &terms(&s, 300)));
}

#[test]
fn memo_check_finds_a_memo_anywhere_before_the_running_instruction() {
    let s = scene();
    let memo = memo_text(&s, 10, 2);
    let data = sysvar_data(&[deposit_ix()], 0);
    assert_eq!(Deposit::verify_memo_in_transaction(&data, &memo), Err(VaultError::MemoNotFound));
    let data = sysvar_data(&[transfer_ix(&s, 10), memo_ix(MEMO_PROGRAM, &memo), deposit_ix()], 2);
    assert_eq!(Deposit::verify_memo_in_transaction(&data, &memo), Ok(()));
    assert_eq!(
        Deposit::verify_memo_in_transaction(&data, &memo_text(&s, 10, 3)),
        Err(VaultError::MemoNotFound)
    );
    let data = sysvar_data(&[memo_ix(MEMO_PROGRAM, &memo), transfer_ix(&s, 10), deposit_ix()], 2);
    assert_eq!(Deposit::verify_memo_in_transaction(&data, &memo), Ok(()));
    let data = sysvar_data(&[memo_ix(MEMO_PROGRAM, &memo), deposit_ix(), memo_ix(MEMO_PROGRAM, &memo)], 1);
    assert_eq!(Deposit::verify_memo_in_transaction(&data, &memo), Ok(()));
    let data = sysvar_data(&[deposit_ix(), memo_ix(MEMO_PROGRAM, &memo)], 0);
    assert_eq!(Deposit::verify_memo_in_transaction(&data, &memo), Err(VaultError::MemoNotFound));
}

#[test]
fn memo_check_accepts_a_lone_memo_of_either_memo_program() {
    for program in [MEMO_PROGRAM, MEMO_PROGRAM_V1] {
        let data = sysvar_data(&[memo_ix(program, b"deposit:X:100:7"), deposit_ix()], 1);
        assert_eq!(Deposit::verify_memo_in_transaction(&data, b"deposit:X:100:7"), Ok(()));
    }
}

#[test]
fn memo_check_stops_at_a_memo_that_is_not_text() {
    let s = scene();
    let memo = memo_text(&s, 10, 2);
    let data = sysvar_data(
        &[memo_ix(MEMO_PROGRAM_V1, &[0xc3, 0x28]), memo_ix(MEMO_PROGRAM, &memo), deposit_ix()],
        2,
    );
    assert_eq!(Deposit::verify_memo_in_transaction(&data, &memo), Err(VaultError::InvalidMemo));
    let data = sysvar_data(
        &[memo_ix(MEMO_PROGRAM, &memo), memo_ix(MEMO_PROGRAM_V1, &[0xc3, 0x28]), deposit_ix()],
        2,
    );
    assert_eq!(Deposit::verify_memo_in_transaction(&data, &memo), Ok(()));
    let data = sysvar_data(&[(key(8), vec![], vec![0xff]), memo_ix(MEMO_PROGRAM, &memo), deposit_ix()], 2);
    assert_eq!(Deposit::verify_memo_in_transaction(&data, &memo), Ok(()));
}

#[test]
fn deposit_with_memo_before_the_transfer_is_refused() {
    let s = scene();
    let data = sysvar_data(
        &[memo_ix(MEMO_PROGRAM, &memo_text(&s, 500, 7)), transfer_ix(&s, 500), deposit_ix()],
        2,
    );
    let mut d = deposit_with(&s, 40, data);
    assert_eq!(d.deposit(500, 7), Err(VaultError::UnpairedMemo));
    assert_eq!(d.user.balance, 40);
    assert_eq!(d.user.last_nonce, None);
}

#[test]
fn deposit_accepts_other_instructions_between_transfer_and_memo() {
    let s = scene();
    let data = sysvar_data(
        &[
            transfer_ix(&s, 500),
            (key(8), vec![key(5)], vec![1, 2, 3]),
            memo_ix(MEMO_PROGRAM, &memo_text(&s, 499, 1)),
            memo_ix(MEMO_PROGRAM, &memo_text(&s, 500, 7)),
            deposit_ix(),
        ],
        4,
    );
    let mut d = deposit_with(&s, 40, data);
    assert_eq!(d.deposit(500, 7), Ok(()));
    assert_eq!(d.user.balance, 540);
    assert_eq!(d.user.last_nonce, Some(7));
}

#[test]
fn find_transfer_and_memo_on_read_instructions() {
    let s = scene();
    let data = sysvar_data(&[transfer_ix(&s, 10), memo_ix(MEMO_PROGRAM, b"m"), deposit_ix()], 2);
    let txn = vault_hook::introspection::load_instructions(&data);
    assert_eq!(txn.len(), 2);
    assert!(txn[1].as_ref().unwrap().data_is_text);
    assert_eq!(Deposit::find_transfer(&txn, &terms(&s, 10)), Ok(()));
    assert_eq!(Deposit::find_transfer(&txn, &terms(&s, 11)), Err(VaultError::TransferNotFound));
    let ids = Deposit::parse_memo_program_ids().unwrap();
    assert!(ids[0].equals(&lib_key(&MEMO_PROGRAM.parse().unwrap())));
    assert!(ids[1].equals(&lib_key(&MEMO_PROGRAM_V1.parse().unwrap())));
    assert_eq!(Deposit::find_memo(&txn, &ids, b"m"), Ok(()));
    assert_eq!(Deposit::find_memo(&txn, &ids, b"n"), Err(VaultError::MemoNotFound));
    assert!(Deposit::find_backing_transfer(&txn, 1, &ids, &terms(&s, 10), b"m"));
    assert!(!Deposit::find_backing_transfer(&txn, 0, &ids, &terms(&s, 10), b"m"));
    assert!(!Deposit::find_backing_transfer(&txn, 1, &ids, &terms(&s, 11), b"m"));
    assert!(Deposit::find_backing_pair(&txn, &ids, &terms(&s, 10), b"m", b"x"));
    assert!(!Deposit::find_backing_pair(&txn, &ids, &terms(&s, 10), b"n", b"x"));
}

#[test]
fn pairing_needs_a_transfer_not_claimed_by_another_memo() {
    let s = scene();
    let head = format!("deposit:{}:5:", s.signer).into_bytes();
    let t = terms(&s, 5);
    let data = sysvar_data(
        &[
            transfer_ix(&s, 5),
            memo_ix(MEMO_PROGRAM, &memo_text(&s, 5, 1)),
            memo_ix(MEMO_PROGRAM_V1, &memo_text(&s, 5, 2)),
            deposit_ix(),
        ],
        3,
    );
    assert_eq!(Deposit::verify_transfer_backs_memo(&data, &t, &memo_text(&s, 5, 1), &head), Ok(()));
    assert_eq!(
        Deposit::verify_transfer_backs_memo(&data, &t, &memo_text(&s, 5, 2), &head),
        Err(VaultError::UnpairedMemo)
    );
    let data = sysvar_data(
        &[
            transfer_ix(&s, 5),
            memo_ix(MEMO_PROGRAM, &memo_text(&s, 6, 1)),
            memo_ix(MEMO_PROGRAM, &memo_text(&s, 5, 2)),
            deposit_ix(),
        ],
        3,
    );
    assert_eq!(Deposit::verify_transfer_backs_memo(&data, &t, &memo_text(&s, 5, 2), &head), Ok(()));
    let data = sysvar_data(
        &[memo_ix(MEMO_PROGRAM, &memo_text(&s, 5, 2)), transfer_ix(&s, 5), deposit_ix()],
        2,
    );
    assert_eq!(
        Deposit::verify_transfer_backs_memo(&data, &t, &memo_text(&s, 5, 2), &head),
        Err(VaultError::UnpairedMemo)
    );
}

#[test]
fn each_transfer_backs_its_own_deposit() {
    let s = scene();
    let ixs = [
        transfer_ix(&s, 5),
        memo_ix(MEMO_PROGRAM, &memo_text(&s, 5, 1)),
        transfer_ix(&s, 5),
        memo_ix(MEMO_PROGRAM, &memo_text(&s, 5, 2)),
        deposit_ix(),
        deposit_ix(),
    ];
    let mut first = deposit_with(&s, 0, sysvar_data(&ixs, 4));
    assert_eq!(first.deposit(5, 1), Ok(()));
    let mut second = deposit_with(&s, 0, sysvar_data(&ixs, 5));
    second.user = first.user;
    assert_eq!(second.deposit(5, 2), Ok(()));
    assert_eq!(second.user.balance, 10);
    assert_eq!(second.user.last_nonce, Some(2));
}

#[test]
fn deposit_nonce_is_credited_once() {
    let s = scene();
    let data = sysvar_data(
        &[transfer_ix(&s, 5), memo_ix(MEMO_PROGRAM, &memo_text(&s, 5, 1)), deposit_ix()],
        2,
    );
    let mut d = deposit_with(&s, 0, data);
    assert_eq!(d.deposit(5, 1), Ok(()));
    assert_eq!(d.user.balance, 5);
    assert_eq!(d.user.last_nonce, Some(1));
    assert_eq!(d.deposit(5, 1), Err(VaultError::NonceAlreadyUsed));
    assert_eq!(d.user.balance, 5);
    assert_eq!(d.user.last_nonce, Some(1));
}

#[test]
fn deposit_with_nonce_below_the_last_is_refused() {
    let s = scene();
    let data = sysvar_data(
        &[transfer_ix(&s, 5), memo_ix(MEMO_PROGRAM, &memo_text(&s, 5, 3)), deposit_ix()],
        2,
    );
    let mut d = deposit_with(&s, 0, data);
    d.user.last_nonce = Some(4);
    assert_eq!(d.deposit(5, 3), Err(VaultError::NonceAlreadyUsed));
    d.user.last_nonce = Some(2);
    assert_eq!(d.deposit(5, 3), Ok(()));
    assert_eq!(d.user.last_nonce, Some(3));
}

#[test]
fn one_transfer_backs_one_credit() {
    let s = scene();
    let data = sysvar_data(
        &[
            transfer_ix(&s, 5),
            memo_ix(MEMO_PROGRAM, &memo_text(&s, 5, 1)),
            memo_ix(MEMO_PROGRAM, &memo_text(&s, 5, 2)),
            deposit_ix(),
            deposit_ix(),
        ],
        3,
    );
    let mut d = deposit_with(&s, 0, data.clone());
    assert_eq!(d.deposit(5, 1), Ok(()));
    assert_eq!(d.deposit(5, 2), Err(VaultError::UnpairedMemo));
    let mut second = deposit_with(&s, d.user.balance, sysvar_data(
        &[
            transfer_ix(&s, 5),
            memo_ix(MEMO_PROGRAM, &memo_text(&s, 5, 1)),
            memo_ix(MEMO_PROGRAM, &memo_text(&s, 5, 2)),
            deposit_ix(),
            deposit_ix(),
        ],
        4,
    ));
    second.user = d.user;
    assert_eq!(second.deposit(5, 1), Err(VaultError::NonceAlreadyUsed));
    assert_eq!(second.deposit(5, 2), Err(VaultError::UnpairedMemo));
    assert_eq!(second.user.balance, 5);
}

#[test]
fn is_memo_program_knows_both_memo_programs() {
    let ids = [lib_key(&MEMO_PROGRAM.parse().unwrap()), lib_key(&MEMO_PROGRAM_V1.parse().unwrap())];
    assert!(Deposit::is_memo_program(&ids[0], &ids));
    assert!(Deposit::is_memo_program(&ids[1], &ids));
    assert!(!Deposit::is_memo_program(&lib_key(&key(3)), &ids));
}

#[test]
fn memo_text_has_signer_amount_and_nonce() {
    assert_eq!(memo_from_parts(b"AbC", 100, 7), b"deposit:AbC:100:7".to_vec());
    assert_eq!(memo_from_parts(b"", 0, 18446744073709551615), b"deposit::0:18446744073709551615".to_vec());
    let s = scene();
    assert_eq!(expected_memo(&lib_key(&s.signer), 500, 7), memo_text(&s, 500, 7));
    assert_eq!(
        expected_memo(&lib_key(&s.signer), 500, 7),
        b"deposit:4vJ9JU1bJJE96FWSJKvHsmmFADCg4gpZQff4P3bkLKi:500:7".to_vec()
    );
}

#[test]
fn memo_signer_text_is_base58() {
    for bytes in [[0u8; 32], {
        let mut b = [0u8; 32];
        b[2] = 7;
        b[31] = 255;
        b
    }, [255u8; 32]] {
        let k = SolPubkey::new_from_array(bytes);
        assert_eq!(expected_memo(&lib_key(&k), 1, 2), format!("deposit:{}:1:2", k).into_bytes());
    }
    let zero = expected_memo(&Pubkey::new_from_array([0; 32]), 0, 0);
    assert_eq!(zero, format!("deposit:{}:0:0", "1".repeat(32)).into_bytes());
}

#[test]
fn memos_differ_with_nonce() {
    let s = scene();
    let a = expected_memo(&lib_key(&s.signer), 12, 3);
    let b = expected_memo(&lib_key(&s.signer), 1, 23);
    assert_ne!(a, b);
}

#[test]
fn withdraw_debits_balance() {
    let mut w = Withdraw { user: User { balance: 100, whitelisted: true, bump: 1, last_nonce: None } };
    assert_eq!(w.withdraw(30), Ok(()));
    assert_eq!(w.user.balance, 70);
    assert_eq!(w.withdraw(70), Ok(()));
    assert_eq!(w.user.balance, 0);
}

#[test]
fn withdraw_more_than_balance_is_refused() {
    let mut w = Withdraw { user: User { balance: 100, whitelisted: false, bump: 1, last_nonce: None } };
    assert_eq!(w.withdraw(101), Err(VaultError::InsufficientBalance));
    assert_eq!(w.user.balance, 100);
    assert!(!w.user.whitelisted);
}

#[test]
fn withdraw_after_deposit_restores_balance() {
    let s = scene();
    let data = sysvar_data(
        &[transfer_ix(&s, 25), memo_ix(MEMO_PROGRAM, &memo_text(&s, 25, 1)), deposit_ix()],
        2,
    );
    let mut d = deposit_with(&s, 75, data);
    assert_eq!(d.deposit(25, 1), Ok(()));
    let mut w = Withdraw { user: d.user };
    assert_eq!(w.withdraw(25), Ok(()));
    assert_eq!(w.user.balance, 75);
    assert_eq!(w.user.last_nonce, Some(1));
    assert_eq!(w.withdraw(1000), Err(VaultError::InsufficientBalance));
    assert_eq!(w.user.last_nonce, Some(1));
    let mut again = deposit_with(&s, 0, d.instructions.clone());
    again.user = w.user;
    assert_eq!(again.deposit(25, 1), Err(VaultError::NonceAlreadyUsed));
    assert_eq!(again.user.balance, 75);
}

fn config_with_admin(admin: &SolPubkey) -> VaultConfig {
    let zero = Pubkey::new_from_array([0; 32]);
    VaultConfig { admin: lib_key(admin), mint: zero, vault_ta: zero, bump: 1 }
}

#[test]
fn whitelist_operations_switch_the_mark() {
    let mut op = WhitelistOperations {
        admin: lib_key(&key(7)),
        vault_config: config_with_admin(&key(7)),
        user: User { balance: 9, whitelisted: false, bump: 0, last_nonce: Some(4) },
    };
    assert_eq!(op.add_to_whitelist(lib_key(&key(1)), WhitelistOperationsBumps { user: 253 }), Ok(()));
    assert_eq!(op.user, User { balance: 9, whitelisted: true, bump: 253, last_nonce: Some(4) });
    assert_eq!(op.remove_from_whitelist(lib_key(&key(1))), Ok(()));
    assert_eq!(op.user, User { balance: 9, whitelisted: false, bump: 253, last_nonce: Some(4) });
}

#[test]
fn whitelist_operations_refuse_other_signers() {
    let before = User { balance: 9, whitelisted: false, bump: 0, last_nonce: None };
    let mut op = WhitelistOperations {
        admin: lib_key(&key(8)),
        vault_config: config_with_admin(&key(7)),
        user: before,
    };
    assert_eq!(
        op.add_to_whitelist(lib_key(&key(1)), WhitelistOperationsBumps { user: 253 }),
        Err(VaultError::Unauthorized)
    );
    assert_eq!(op.user, before);
    op.user.whitelisted = true;
    assert_eq!(op.remove_from_whitelist(lib_key(&key(1))), Err(VaultError::Unauthorized));
    assert!(op.user.whitelisted);
}

fn hook_account_data(transferring: bool) -> Vec<u8> {
    let len = ExtensionType::try_calculate_account_len::<Account>(&[ExtensionType::TransferHookAccount])
        .unwrap();
    let mut data = vec![0u8; len];
    let mut state = StateWithExtensionsMut::<Account>::unpack_uninitialized(&mut data).unwrap();
    let extension = state.init_extension::<TransferHookAccount>(true).unwrap();
    extension.transferring = transferring.into();
    state.base.state = AccountState::Initialized;
    state.pack_base();
    state.init_account_type().unwrap();
    drop(state);
    data
}

#[test]
fn transfer_hook_admits_whitelisted_owner_during_transfer() {
    let user = User { balance: 0, whitelisted: true, bump: 1, last_nonce: None };
    let hook = TransferHook { source_token_data: hook_account_data(true), user };
    assert_eq!(hook.check_is_transferring(), Ok(()));
    assert_eq!(hook.transfer_hook(5), Ok(()));
    assert_eq!(hook.run_transfer_hook(5), HookVerdict::Allowed);
    assert_eq!(hook.run_transfer_hook(0), HookVerdict::Allowed);
    assert_eq!(hook.run_transfer_hook(u64::MAX), HookVerdict::Allowed);
    assert_eq!(hook.run_check_is_transferring(), HookVerdict::Allowed);
}

#[test]
fn transfer_hook_aborts_for_owner_not_whitelisted() {
    let user = User { balance: 0, whitelisted: false, bump: 1, last_nonce: None };
    let hook = TransferHook { source_token_data: hook_account_data(true), user };
    assert_eq!(hook.run_transfer_hook(5), HookVerdict::Aborted(HookAbort::NotWhitelisted));
}

#[test]
fn transfer_hook_aborts_outside_a_transfer() {
    for whitelisted in [true, false] {
        let user = User { balance: 0, whitelisted, bump: 1, last_nonce: None };
        let hook = TransferHook { source_token_data: hook_account_data(false), user };
        assert_eq!(hook.run_transfer_hook(5), HookVerdict::Aborted(HookAbort::NotTransferring));
    }
}

#[test]
fn transfer_hook_passes_on_the_token_program_error() {
    let mut raw = vec![1u8, 2, 3];
    let expected = PodStateWithExtensionsMut::<PodAccount>::unpack(&mut raw).err().unwrap();
    for whitelisted in [true, false] {
        let user = User { balance: 0, whitelisted, bump: 1, last_nonce: None };
        let hook = TransferHook { source_token_data: vec![1, 2, 3], user };
        assert_eq!(
            hook.run_transfer_hook(5),
            HookVerdict::Failed(TransferHookError::AccountData(expected.clone()))
        );
        assert_eq!(hook.transfer_hook(5), Err(TransferHookError::AccountData(expected.clone())));
        assert_eq!(hook.check_is_transferring(), Err(TransferHookError::AccountData(expected.clone())));
    }
}

#[test]
fn transfer_hook_passes_on_a_missing_extension_error() {
    let len = Account::LEN;
    let mut data = vec![0u8; len];
    let mut state = StateWithExtensionsMut::<Account>::unpack_uninitialized(&mut data).unwrap();
    state.base.state = AccountState::Initialized;
    state.pack_base();
    drop(state);
    let mut copy = data.clone();
    let mut account = PodStateWithExtensionsMut::<PodAccount>::unpack(&mut copy).unwrap();
    let expected = account.get_extension_mut::<TransferHookAccount>().err().unwrap();
    let user = User { balance: 0, whitelisted: true, bump: 1, last_nonce: None };
    let hook = TransferHook { source_token_data: data, user };
    assert_eq!(hook.run_transfer_hook(1), HookVerdict::Failed(TransferHookError::AccountData(expected)));
}

#[test]
fn extra_account_metas_lists_user_record_then_vault_config() {
    let program_id: SolPubkey = "7cwdqRZ1Ap8ano7Vsdwk9NfkB26tWf8bSba3Bvb2G6JM".parse().unwrap();
    let metas = InitializeExtraAccountMetaList::extra_account_metas(&lib_key(&program_id)).unwrap();
    let tried = InitializeExtraAccountMetaList::try_extra_account_metas(&lib_key(&program_id)).unwrap();
    assert_eq!(tried.len(), 2);
    assert_eq!(metas.len(), 2);
    let mut user_config = [0u8; 32];
    user_config[..8].copy_from_slice(&[1, 4, b'u', b's', b'e', b'r', 3, 3]);
    let ExtraAccountMeta { discriminator, address_config, is_signer, is_writable } = metas[0];
    assert_eq!((discriminator, address_config, is_signer, is_writable), (1, user_config, false, false));
    let (pda, _) = SolPubkey::find_program_address(&[b"vault-config"], &program_id);
    let ExtraAccountMeta { discriminator, address_config, is_signer, is_writable } = metas[1];
    assert_eq!((discriminator, address_config, is_signer, is_writable), (0, pda.to_bytes(), false, false));
}

#[test]
fn init_vault_config_records_admin_mint_and_vault() {
    let zero = Pubkey::new_from_array([0; 32]);
    let mut step = InitVaultConfig {
        admin: lib_key(&key(1)),
        vault_config: VaultConfig { admin: zero, mint: zero, vault_ta: zero, bump: 0 },
        mint: lib_key(&key(2)),
        vault_ta: lib_key(&key(3)),
    };
    assert_eq!(step.init_vault_config(&InitVaultConfigBumps { vault_config: 250 }), Ok(()));
    assert_eq!(step.vault_config.admin.bytes, [1; 32]);
    assert_eq!(step.vault_config.mint.bytes, [2; 32]);
    assert_eq!(step.vault_config.vault_ta.bytes, [3; 32]);
    assert_eq!(step.vault_config.bump, 250);
}

fn vault_state_with_authority(authority: &SolPubkey) -> VaultState {
    let zero = Pubkey::new_from_array([0; 32]);
    VaultState {
        authority: lib_key(authority),
        mint: zero,
        vault_token_account: zero,
        vault_state_bump: 1,
        vault_authority_bump: 2,
    }
}

#[test]
fn add_to_whitelist_refuses_other_signers() {
    let zero = Pubkey::new_from_array([0; 32]);
    let mut step = AddToWhitelist {
        authority: lib_key(&key(9)),
        user: lib_key(&key(2)),
        whitelist: WhitelistEntry { vault: zero, user: zero, max_amount: 0, bump: 0 },
        vault_state_key: lib_key(&key(3)),
        vault_state: vault_state_with_authority(&key(1)),
    };
    assert_eq!(step.add_to_whitelist(1_000, &AddToWhitelistBumps { whitelist: 249 }), Err(VaultError::Unauthorized));
    assert_eq!(step.whitelist.max_amount, 0);
    assert_eq!(step.whitelist.vault.bytes, [0; 32]);
}

#[test]
fn add_to_whitelist_fills_the_entry() {
    let zero = Pubkey::new_from_array([0; 32]);
    let mut step = AddToWhitelist {
        authority: lib_key(&key(1)),
        user: lib_key(&key(2)),
        whitelist: WhitelistEntry { vault: zero, user: zero, max_amount: 0, bump: 0 },
        vault_state_key: lib_key(&key(3)),
        vault_state: vault_state_with_authority(&key(1)),
    };
    assert_eq!(step.add_to_whitelist(1_000, &AddToWhitelistBumps { whitelist: 249 }), Ok(()));
    assert_eq!(step.whitelist.vault.bytes, [3; 32]);
    assert_eq!(step.whitelist.user.bytes, [0; 32]);
    assert_eq!(step.whitelist.max_amount, 1_000);
    assert_eq!(step.whitelist.bump, 249);
}

#[test]
fn remove_from_whitelist_and_initialize_succeed() {
    let mut remove = RemoveFromWhitelist { authority: lib_key(&key(1)), vault_state: vault_state_with_authority(&key(1)) };
    assert_eq!(remove.remove_from_whitelist(), Ok(()));
    let mut other = RemoveFromWhitelist { authority: lib_key(&key(2)), vault_state: vault_state_with_authority(&key(1)) };
    assert_eq!(other.remove_from_whitelist(), Err(VaultError::Unauthorized));
    assert_eq!(initialize(&Initialize {}), Ok(()));
}

#[test]
fn record_sizes() {
    assert_eq!(User::INIT_SPACE, 19);
    assert_eq!(VaultConfig::INIT_SPACE, 97);
    assert_eq!(VaultState::INIT_SPACE, 82);
    assert_eq!(WhitelistEntry::INIT_SPACE, 81);
}

#[test]
fn error_messages() {
    assert_eq!(VaultError::ArithmeticError.msg(), "Arithmetic Overflow");
    assert_eq!(VaultError::InsufficientBalance.msg(), "Insufficient Balance");
    assert_eq!(VaultError::MemoNotFound.msg(), "Required Memo Not Found");
    assert_eq!(VaultError::InvalidMemo.msg(), "Invalid Memo Format");
    assert_eq!(VaultError::TransferNotFound.msg(), "Required Transfer Not Found");
    assert_eq!(VaultError::NonceAlreadyUsed.msg(), "Nonce Already Used");
    assert_eq!(VaultError::Unauthorized.msg(), "Unauthorized");
    assert_eq!(VaultError::UnpairedMemo.msg(), "Memo Not Paired With A Transfer");
}

#[test]
fn pubkey_equality_is_bytewise() {
    let a = lib_key(&key(1));
    let mut bytes = [1u8; 32];
    assert!(a.equals(&Pubkey::new_from_array(bytes)));
    bytes[31] = 2;
    assert!(!a.equals(&Pubkey::new_from_array(bytes)));
}
