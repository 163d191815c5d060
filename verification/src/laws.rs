//! Properties that span the vault's instructions.

use vstd::prelude::*;

use crate::error::VaultError;
use crate::instructions::deposit::{
    backs, credited, is_claim_memo, lemma_transfer_scan_finds, memo_check, memo_program_ids,
    memo_program_text, memo_program_v1_text, memo_scan, memo_scan_ends_at_first_stop, memo_stop,
    paired, pairing_check, transfer_check, transfer_scan_ends_at_first_stop, transfer_stop, Deposit,
    ExpectedTransfer,
};
use crate::instructions::transfer_hook::{hook_outcome, HookAbort, HookVerdict};
use crate::instructions::whitelist_operations::{listed, unlisted, WhitelistOperations};
use crate::instructions::withdraw::{debited, withdraw_outcome};
use crate::introspection::{sysvar_instructions, transfer_checked_amount, InstructionView};
use crate::memo::{
    decimal, lemma_decimal_digits, lemma_memo_starts_with_head, memo_determines_deposit, memo_head,
    memo_same_signer_determines_deposit,
};
use crate::pubkey::{base58_text, lemma_base58_text_alphabet, parse_base58_pubkey};
use crate::state::{nonce_unused, User};

use anchor_lang::prelude::ProgramError;

verus! {

/// A credited deposit is backed: before it in the same transaction, a memo of a
/// memo program carries exactly `deposit:<signer>:<amount>:<nonce>`, and before
/// that memo a `TransferChecked` of exactly the amount from the signer's source
/// account into the vault's token account, signed by the signer, with no other
/// memo of the same signer and amount in between; and the credit does not
/// overflow.
pub proof fn deposit_is_backed_by_transfer_and_memo(d: Deposit, amount: u64, nonce: u64)
    requires
        d.deposit_outcome(amount, nonce) is Ok,
    ensures
        exists|p: int, m: int| d.backed_at(amount, nonce, p, m),
        d.user.balance + amount <= u64::MAX,
{
    let txn = sysvar_instructions(d.instructions@);
    let id0 = memo_program_ids().0->0;
    let id1 = memo_program_ids().1->0;
    let t = d.expected_transfer(amount);
    let memo = d.memo(amount, nonce);
    let head = d.head(amount);
    assert(paired(txn, id0, id1, t, memo, head));
    let (p, m) = choose|p: int, m: int| backs(txn, p, m, id0, id1, t, memo, head);
    assert(d.backed_at(amount, nonce, p, m));
}

/// A nonce is credited at most once: once a deposit with `nonce` is credited,
/// any deposit with the same nonce on the user record it leaves is refused.
pub proof fn nonce_credited_at_most_once(
    d: Deposit,
    amount: u64,
    nonce: u64,
    later: Deposit,
    later_amount: u64,
)
    requires
        d.deposit_outcome(amount, nonce) is Ok,
        later.user == credited(d.user, amount, nonce),
    ensures
        later.deposit_outcome(later_amount, nonce) is Err,
{
}

/// A transfer backs at most one credit: two deposits of one transaction (the
/// instructions before the first are a prefix of those before the second)
/// backed by the transfer at the same position have the same signer, amount,
/// memo and nonce, so they are one credit, which a user's nonce record lets
/// through once.
pub proof fn transfer_backs_at_most_one_credit(
    d1: Deposit,
    amount1: u64,
    nonce1: u64,
    d2: Deposit,
    amount2: u64,
    nonce2: u64,
    p: int,
    m1: int,
    m2: int,
)
    requires
        sysvar_instructions(d1.instructions@).len() <= sysvar_instructions(d2.instructions@).len(),
        forall|j: int|
            0 <= j < sysvar_instructions(d1.instructions@).len() ==> #[trigger] sysvar_instructions(
                d1.instructions@,
            )[j] == sysvar_instructions(d2.instructions@)[j],
        d1.backed_at(amount1, nonce1, p, m1),
        d2.backed_at(amount2, nonce2, p, m2),
    ensures
        d1.signer@ == d2.signer@,
        amount1 == amount2,
        m1 == m2,
        nonce1 == nonce2,
{
    let l1 = sysvar_instructions(d1.instructions@);
    let l2 = sysvar_instructions(d2.instructions@);
    let id0 = memo_program_ids().0->0;
    let id1 = memo_program_ids().1->0;
    assert(l1[p] == l2[p]);
    assert(d1.signer@ == d2.signer@);
    assert(amount1 == amount2);
    let text = base58_text(d1.signer@);
    let head = memo_head(text, amount1);
    assert(d2.head(amount2) == head);
    lemma_memo_starts_with_head(text, amount1, nonce1);
    lemma_memo_starts_with_head(text, amount2, nonce2);
    if m1 < m2 {
        assert(l1[m1] == l2[m1]);
        assert(l2[m1] matches Some((ix, _)) && is_claim_memo(ix, id0, id1, head));
    } else if m2 < m1 {
        assert(l1[m2] == l2[m2]);
        assert(l1[m2] matches Some((ix, _)) && is_claim_memo(ix, id0, id1, head));
    }
    assert(l1[m1] == l2[m1]);
    memo_same_signer_determines_deposit(text, amount1, nonce1, amount2, nonce2);
}

/// The memo a deposit needs fixes the signer's base58 text, the amount and the nonce.
pub proof fn deposit_memo_binds(d1: Deposit, amount1: u64, nonce1: u64, d2: Deposit, amount2: u64, nonce2: u64)
    requires
        d1.memo(amount1, nonce1) == d2.memo(amount2, nonce2),
    ensures
        base58_text(d1.signer@) == base58_text(d2.signer@),
        amount1 == amount2,
        nonce1 == nonce2,
{
    lemma_base58_text_alphabet(d1.signer@);
    lemma_base58_text_alphabet(d2.signer@);
    memo_determines_deposit(base58_text(d1.signer@), amount1, nonce1, base58_text(d2.signer@), amount2, nonce2);
}

/// Withdrawing what was just deposited gives back the balance held before the
/// deposit.
pub proof fn withdraw_undoes_deposit(balance: u64, amount: u64)
    requires
        balance + amount <= u64::MAX,
    ensures
        withdraw_outcome((balance + amount) as u64, amount) == Ok::<u64, VaultError>(balance),
{
}

/// A withdrawal never takes more than the balance: it succeeds exactly when the
/// amount is covered, and then the new balance and the amount add up to the old one.
pub proof fn withdraw_never_overdraws(balance: u64, amount: u64)
    ensures
        withdraw_outcome(balance, amount) is Ok <==> amount <= balance,
        withdraw_outcome(balance, amount) matches Ok(left) ==> left + amount == balance,
{
}

/// The hook lets a transfer through exactly during a transfer and for a
/// whitelisted owner; after the admin adds the owner it lets transfers through,
/// after the admin removes the owner it aborts them; neither step touches the
/// balance or the nonce record.
pub proof fn hook_follows_whitelist(user: User, bump: u8, flag: Result<bool, ProgramError>)
    ensures
        hook_outcome(flag, user.whitelisted) == HookVerdict::Allowed <==> (flag == Ok::<
            bool,
            ProgramError,
        >(true) && user.whitelisted),
        hook_outcome(Ok(true), listed(user, bump).whitelisted) == HookVerdict::Allowed,
        hook_outcome(Ok(true), unlisted(user).whitelisted) == HookVerdict::Aborted(
            HookAbort::NotWhitelisted,
        ),
        listed(user, bump).balance == user.balance,
        unlisted(user).balance == user.balance,
        listed(user, bump).last_nonce == user.last_nonce,
        unlisted(user).last_nonce == user.last_nonce,
{
}

/// One operation on a user record, as it succeeds: a credited deposit, a
/// withdrawal, being put on or taken off the whitelist.
pub enum UserStep {
    Deposit { amount: u64, nonce: u64 },
    Withdraw { amount: u64 },
    List { bump: u8 },
    Unlist,
}

/// The record after a successful step, as the operations' contracts give it.
pub open spec fn step_user(user: User, step: UserStep) -> User {
    match step {
        UserStep::Deposit { amount, nonce } => credited(user, amount, nonce),
        UserStep::Withdraw { amount } => debited(user, amount),
        UserStep::List { bump } => listed(user, bump),
        UserStep::Unlist => unlisted(user),
    }
}

/// Whether the step can succeed on the record: a deposit needs an unused nonce
/// and room for the amount, a withdrawal a balance that covers it.
pub open spec fn step_allowed(user: User, step: UserStep) -> bool {
    match step {
        UserStep::Deposit { amount, nonce } => nonce_unused(user.last_nonce, nonce) && user.balance
            + amount <= u64::MAX,
        UserStep::Withdraw { amount } => amount <= user.balance,
        _ => true,
    }
}

/// The record after the first `k` steps.
pub open spec fn state_at(user: User, steps: Seq<UserStep>, k: int) -> User
    decreases k,
{
    if k <= 0 {
        user
    } else {
        step_user(state_at(user, steps, k - 1), steps[k - 1])
    }
}

/// Every step of the run can succeed on the record it meets.
pub open spec fn run_allowed(user: User, steps: Seq<UserStep>) -> bool {
    forall|i: int| 0 <= i < steps.len() ==> #[trigger] step_allowed(state_at(user, steps, i), steps[i])
}

/// The last credited nonce as a number, below every nonce when there is none.
pub open spec fn nonce_floor(last_nonce: Option<u64>) -> int {
    match last_nonce {
        None => -1,
        Some(n) => n as int,
    }
}

/// A deposit that is credited and a withdrawal that succeeds are allowed steps
/// on the record they start from.
pub proof fn successful_calls_are_allowed_steps(d: Deposit, amount: u64, nonce: u64, user: User, withdrawn: u64)
    requires
        d.deposit_outcome(amount, nonce) is Ok,
        withdraw_outcome(user.balance, withdrawn) is Ok,
    ensures
        step_allowed(d.user, (UserStep::Deposit { amount, nonce })),
        step_allowed(user, (UserStep::Withdraw { amount: withdrawn })),
{
}

/// Only a deposit moves the recorded nonce, and only upwards: a withdrawal and
/// the whitelist operations keep it, a credited deposit records its own nonce,
/// which is above the one before.
pub proof fn only_deposits_raise_the_nonce(user: User, step: UserStep)
    requires
        step_allowed(user, step),
    ensures
        step is Deposit ==> step_user(user, step).last_nonce == Some(step->nonce) && nonce_floor(
            user.last_nonce,
        ) < step->nonce,
        !(step is Deposit) ==> step_user(user, step).last_nonce == user.last_nonce,
{
}

/// Along a run the recorded nonce never goes down.
proof fn lemma_nonce_floor_grows(user: User, steps: Seq<UserStep>, j: int, k: int)
    requires
        run_allowed(user, steps),
        0 <= j <= k <= steps.len(),
    ensures
        nonce_floor(state_at(user, steps, j).last_nonce) <= nonce_floor(state_at(user, steps, k).last_nonce),
    decreases k - j,
{
    if j < k {
        lemma_nonce_floor_grows(user, steps, j, k - 1);
        assert(step_allowed(state_at(user, steps, k - 1), steps[k - 1]));
    }
}

/// Across any run of operations on a user record, whatever comes in between,
/// the nonces of credited deposits strictly increase: a nonce is credited once.
pub proof fn credited_nonces_increase(user: User, steps: Seq<UserStep>, i: int, k: int)
    requires
        run_allowed(user, steps),
        0 <= i < k < steps.len(),
        steps[i] is Deposit,
        steps[k] is Deposit,
    ensures
        steps[i]->nonce < steps[k]->nonce,
{
    lemma_nonce_floor_grows(user, steps, i + 1, k);
    assert(state_at(user, steps, i + 1).last_nonce == Some(steps[i]->nonce));
    assert(step_allowed(state_at(user, steps, k), steps[k]));
}

/// The amount the instruction moves into `vault` by a `TransferChecked` of
/// `token_program`, or zero.
pub open spec fn transfer_into(ix: Option<(InstructionView, bool)>, token_program: Seq<u8>, vault: Seq<u8>) -> int {
    match ix {
        Some((ix, _)) => if ix.program_id == token_program && ix.accounts.len() >= 4 && ix.accounts[2]
            == vault && transfer_checked_amount(ix.data) is Some {
            transfer_checked_amount(ix.data)->0 as int
        } else {
            0
        },
        None => 0,
    }
}

/// The sum of `f` over `0..n`.
pub open spec fn total(f: spec_fn(int) -> int, n: int) -> int
    decreases n,
{
    if n <= 0 {
        0
    } else {
        total(f, n - 1) + f(n - 1)
    }
}

/// What the instructions move into `vault` by `TransferChecked` of `token_program`.
pub open spec fn transferred(txn: Seq<Option<(InstructionView, bool)>>, token_program: Seq<u8>, vault: Seq<u8>) -> int {
    total(|j: int| transfer_into(txn[j], token_program, vault), txn.len() as int)
}

/// The sum of the amounts of credited deposits, each given as the deposit, its
/// amount, its nonce and the positions of its backing transfer and memo.
pub open spec fn credited_total(credits: Seq<(Deposit, u64, u64, int, int)>) -> int
    decreases credits.len(),
{
    if credits.len() == 0 {
        0
    } else {
        credited_total(credits.drop_last()) + credits.last().1
    }
}

/// Zeroing `f` at `q` takes `f(q)` off the sum over a range that holds `q`.
proof fn lemma_total_without(f: spec_fn(int) -> int, g: spec_fn(int) -> int, q: int, n: int)
    requires
        forall|j: int| j != q ==> #[trigger] g(j) == f(j),
        g(q) == 0,
        0 <= q < n,
    ensures
        total(g, n) == total(f, n) - f(q),
    decreases n,
{
    if n - 1 > q {
        lemma_total_without(f, g, q, n - 1);
        assert(g(n - 1) == f(n - 1));
    } else {
        lemma_total_same_below(f, g, q, n - 1);
    }
}

/// Sums over a range below the one point where two functions differ agree.
proof fn lemma_total_same_below(f: spec_fn(int) -> int, g: spec_fn(int) -> int, q: int, n: int)
    requires
        forall|j: int| j != q ==> #[trigger] g(j) == f(j),
        n <= q,
    ensures
        total(g, n) == total(f, n),
    decreases n,
{
    if n > 0 {
        lemma_total_same_below(f, g, q, n - 1);
        assert(g(n - 1) == f(n - 1));
    }
}

/// Credits at pairwise different positions in `0..n`, each worth what `f` gives
/// at its position, add up to no more than `f` over the whole range.
proof fn lemma_credits_within_total(f: spec_fn(int) -> int, credits: Seq<(Deposit, u64, u64, int, int)>, n: int)
    requires
        forall|j: int| #[trigger] f(j) >= 0,
        forall|i: int| 0 <= i < credits.len() ==> 0 <= #[trigger] credits[i].3 < n,
        forall|i: int| 0 <= i < credits.len() ==> #[trigger] credits[i].1 == f(credits[i].3),
        forall|i: int, k: int| 0 <= i < k < credits.len() ==> #[trigger] credits[i].3 != #[trigger] credits[k].3,
    ensures
        credited_total(credits) <= total(f, n),
    decreases credits.len(),
{
    if credits.len() > 0 {
        let q = credits.last().3;
        let g = |j: int| if j == q { 0 } else { f(j) };
        let rest = credits.drop_last();
        assert forall|i: int| 0 <= i < rest.len() implies #[trigger] rest[i].1 == g(rest[i].3) by {
            assert(rest[i] == credits[i]);
            assert(credits[i].3 != credits[credits.len() - 1].3);
        }
        assert forall|i: int, k: int| 0 <= i < k < rest.len() implies #[trigger] rest[i].3 != #[trigger] rest[k].3 by {
            assert(rest[i] == credits[i] && rest[k] == credits[k]);
        }
        assert forall|i: int| 0 <= i < rest.len() implies 0 <= #[trigger] rest[i].3 < n by {
            assert(rest[i] == credits[i]);
        }
        assert forall|j: int| #[trigger] g(j) >= 0 by {
            assert(f(j) >= 0);
        }
        lemma_credits_within_total(g, rest, n);
        assert(credits[credits.len() - 1].1 == f(q));
        lemma_total_without(f, g, q, n);
        assert(credits.last().1 == f(q));
    } else {
        lemma_total_nonnegative(f, n);
    }
}

/// A sum of values that are never negative is not negative.
proof fn lemma_total_nonnegative(f: spec_fn(int) -> int, n: int)
    requires
        forall|j: int| #[trigger] f(j) >= 0,
    ensures
        total(f, n) >= 0,
    decreases n,
{
    if n > 0 {
        lemma_total_nonnegative(f, n - 1);
        assert(f(n - 1) >= 0);
    }
}

/// Balances track tokens actually deposited: in one transaction, the credited
/// deposits into one vault add up to no more than the `TransferChecked`
/// instructions of the token program move into the vault's token account. Each
/// credit is given with the positions of its backing transfer and memo; the
/// instructions each deposit sees are a prefix of the transaction's; and two
/// credits of one signer carry different nonces, as `credited_nonces_increase`
/// shows of every run of operations on the signer's record.
pub proof fn credits_never_exceed_transfers(
    txn: Seq<Option<(InstructionView, bool)>>,
    token_program: Seq<u8>,
    vault: Seq<u8>,
    credits: Seq<(Deposit, u64, u64, int, int)>,
)
    requires
        forall|i: int|
            0 <= i < credits.len() ==> sysvar_instructions(#[trigger] credits[i].0.instructions@).len()
                <= txn.len(),
        forall|i: int, j: int|
            0 <= i < credits.len() && 0 <= j < sysvar_instructions(credits[i].0.instructions@).len()
                ==> #[trigger] sysvar_instructions(credits[i].0.instructions@)[j] == txn[j],
        forall|i: int|
            0 <= i < credits.len() ==> (#[trigger] credits[i].0).token_program@ == token_program
                && credits[i].0.vault_ta@ == vault,
        forall|i: int|
            0 <= i < credits.len() ==> (#[trigger] credits[i].0).backed_at(
                credits[i].1,
                credits[i].2,
                credits[i].3,
                credits[i].4,
            ),
        forall|i: int, k: int|
            0 <= i < k < credits.len() && (#[trigger] credits[i]).0.signer@ == (
            #[trigger] credits[k]).0.signer@ ==> credits[i].2 != credits[k].2,
    ensures
        credited_total(credits) <= transferred(txn, token_program, vault),
{
    let f = |j: int| transfer_into(txn[j], token_program, vault);
    assert forall|i: int| 0 <= i < credits.len() implies 0 <= #[trigger] credits[i].3 < txn.len()
        && credits[i].1 == f(credits[i].3) by {
        let (d, a, n, p, m) = credits[i];
        let l = sysvar_instructions(d.instructions@);
        assert(d.backed_at(a, n, p, m));
        assert(l[p] == txn[p]);
    }
    assert forall|i: int, k: int| 0 <= i < k < credits.len() implies #[trigger] credits[i].3
        != #[trigger] credits[k].3 by {
        let (d1, a1, n1, p1, m1) = credits[i];
        let (d2, a2, n2, p2, m2) = credits[k];
        if p1 == p2 {
            let l1 = sysvar_instructions(d1.instructions@);
            let l2 = sysvar_instructions(d2.instructions@);
            if l1.len() <= l2.len() {
                assert forall|j: int| 0 <= j < l1.len() implies #[trigger] l1[j] == l2[j] by {
                    assert(l1[j] == txn[j]);
                    assert(l2[j] == txn[j]);
                }
                transfer_backs_at_most_one_credit(d1, a1, n1, d2, a2, n2, p1, m1, m2);
            } else {
                assert forall|j: int| 0 <= j < l2.len() implies #[trigger] l2[j] == l1[j] by {
                    assert(l1[j] == txn[j]);
                    assert(l2[j] == txn[j]);
                }
                transfer_backs_at_most_one_credit(d2, a2, n2, d1, a1, n1, p1, m2, m1);
            }
        }
    }
    assert forall|j: int| #[trigger] f(j) >= 0 by {}
    lemma_credits_within_total(f, credits, txn.len() as int);
}

/// A credited deposit is backed by a `TransferChecked` of the deposit's token
/// program, before the deposit in the same transaction, whose accounts are the
/// deposit's source token account, its mint, the vault's token account and the
/// signer, in that order, and whose amount is the deposited amount.
pub proof fn credited_deposit_has_its_own_transfer(d: Deposit, amount: u64, nonce: u64)
    requires
        d.deposit_outcome(amount, nonce) is Ok,
    ensures
        exists|p: int|
            0 <= p < sysvar_instructions(d.instructions@).len() && (#[trigger] sysvar_instructions(
                d.instructions@,
            )[p] matches Some((ix, _)) && ix.program_id == d.token_program@ && ix.accounts.len() >= 4
                && ix.accounts[0] == d.source_ata@ && ix.accounts[1] == d.mint@ && ix.accounts[2]
                == d.vault_ta@ && ix.accounts[3] == d.signer@ && transfer_checked_amount(ix.data)
                == Some(amount)),
{
    lemma_transfer_scan_finds(sysvar_instructions(d.instructions@), 0, d.expected_transfer(amount));
}

/// The transfer check accepts every transaction that holds, before the running
/// instruction, a `TransferChecked` of the token program whose first four
/// accounts are the source, the mint, the destination and the authority and
/// whose amount is the expected one, with every instruction before it readable.
pub proof fn transfer_check_accepts_a_matching_transfer(data: Seq<u8>, t: ExpectedTransfer, p: int)
    requires
        0 <= p < sysvar_instructions(data).len(),
        sysvar_instructions(data)[p] matches Some((ix, _)) && ix.program_id == t.token_program
            && ix.accounts.len() >= 4 && ix.accounts.subrange(0, 4) == seq![
            t.source,
            t.mint,
            t.destination,
            t.authority,
        ] && transfer_checked_amount(ix.data) == Some(t.amount),
        forall|k: int| 0 <= k < p ==> #[trigger] sysvar_instructions(data)[k] is Some,
    ensures
        transfer_check(data, t) is Ok,
{
    let txn = sysvar_instructions(data);
    let entry = txn[p]->0;
    let ix = entry.0;
    assert(ix.accounts[0] == ix.accounts.subrange(0, 4)[0]);
    assert(ix.accounts[1] == ix.accounts.subrange(0, 4)[1]);
    assert(ix.accounts[2] == ix.accounts.subrange(0, 4)[2]);
    assert(ix.accounts[3] == ix.accounts.subrange(0, 4)[3]);
    let first = choose|j: int| 0 <= j <= p && transfer_stop(txn[j], t) && forall|k: int| 0 <= k < j ==> !transfer_stop(#[trigger] txn[k], t);
    lemma_first_transfer_stop(txn, t, p);
    transfer_scan_ends_at_first_stop(txn, 0, first, t);
}

/// Where some position up to `p` stops the transfer scan, a first such position exists.
proof fn lemma_first_transfer_stop(txn: Seq<Option<(InstructionView, bool)>>, t: ExpectedTransfer, p: int)
    requires
        0 <= p < txn.len(),
        transfer_stop(txn[p], t),
    ensures
        exists|j: int| 0 <= j <= p && transfer_stop(txn[j], t) && forall|k: int| 0 <= k < j ==> !transfer_stop(#[trigger] txn[k], t),
    decreases p,
{
    if exists|k: int| 0 <= k < p && transfer_stop(txn[k], t) {
        let k = choose|k: int| 0 <= k < p && transfer_stop(txn[k], t);
        lemma_first_transfer_stop(txn, t, k);
    } else {
        assert(forall|k: int| 0 <= k < p ==> !transfer_stop(#[trigger] txn[k], t));
    }
}

/// The deposit's own transfer check accepts a `TransferChecked` of its token
/// program from its source token account, of its mint, into the vault's token
/// account, signed by the signer, of exactly the amount, with every instruction
/// before it readable.
pub proof fn deposit_finds_its_transfer(d: Deposit, amount: u64, p: int)
    requires
        0 <= p < sysvar_instructions(d.instructions@).len(),
        sysvar_instructions(d.instructions@)[p] matches Some((ix, _)) && ix.program_id
            == d.token_program@ && ix.accounts.len() >= 4 && ix.accounts.subrange(0, 4) == seq![
            d.source_ata@,
            d.mint@,
            d.vault_ta@,
            d.signer@,
        ] && transfer_checked_amount(ix.data) == Some(amount),
        forall|k: int| 0 <= k < p ==> #[trigger] sysvar_instructions(d.instructions@)[k] is Some,
    ensures
        transfer_check(d.instructions@, d.expected_transfer(amount)) is Ok,
{
    let t = d.expected_transfer(amount);
    assert(t.token_program == d.token_program@ && t.source == d.source_ata@ && t.mint == d.mint@
        && t.destination == d.vault_ta@ && t.authority == d.signer@ && t.amount == amount);
    transfer_check_accepts_a_matching_transfer(d.instructions@, t, p);
}

/// A credited deposit raises the balance by exactly the amount, records its
/// nonce, and leaves the whitelist mark and the bump as they were.
pub proof fn credited_deposit_adds_exactly_the_amount(d: Deposit, amount: u64, nonce: u64)
    requires
        d.deposit_outcome(amount, nonce) is Ok,
    ensures
        credited(d.user, amount, nonce).balance == d.user.balance + amount,
        credited(d.user, amount, nonce).last_nonce == Some(nonce),
        credited(d.user, amount, nonce).whitelisted == d.user.whitelisted,
        credited(d.user, amount, nonce).bump == d.user.bump,
{
}

/// Once the transfer, the memo and their pairing are found and the amount fits,
/// a deposit is credited exactly when its nonce is above the last one credited
/// (any nonce when none was), and is refused with `NonceAlreadyUsed` otherwise.
pub proof fn deposit_refuses_exactly_the_used_nonces(d: Deposit, amount: u64, nonce: u64)
    requires
        transfer_check(d.instructions@, d.expected_transfer(amount)) is Ok,
        memo_check(d.instructions@, d.memo(amount, nonce)) is Ok,
        pairing_check(d.instructions@, d.expected_transfer(amount), d.memo(amount, nonce), d.head(amount)) is Ok,
        d.user.balance + amount <= u64::MAX,
    ensures
        d.deposit_outcome(amount, nonce) is Ok <==> (match d.user.last_nonce {
            None => true,
            Some(last) => last < nonce,
        }),
        d.deposit_outcome(amount, nonce) is Err ==> d.deposit_outcome(amount, nonce) == Err::<(), VaultError>(
            VaultError::NonceAlreadyUsed,
        ),
{
}

/// Only the admin the vault configuration names switches the whitelist mark:
/// the check passes exactly when the signer's address equals that admin's;
/// adding sets the mark and the bump, removing clears the mark, and neither
/// touches the balance or the nonce record.
pub proof fn only_the_configured_admin_switches_the_mark(w: WhitelistOperations, bump: u8)
    ensures
        w.signed_by_admin() <==> w.admin@ == w.vault_config.admin@,
        listed(w.user, bump).whitelisted,
        listed(w.user, bump).bump == bump,
        listed(w.user, bump).balance == w.user.balance,
        listed(w.user, bump).last_nonce == w.user.last_nonce,
        !unlisted(w.user).whitelisted,
        unlisted(w.user).bump == w.user.bump,
        unlisted(w.user).balance == w.user.balance,
        unlisted(w.user).last_nonce == w.user.last_nonce,
{
}

/// A withdrawal that succeeds takes exactly the amount off the balance and
/// keeps the rest of the record.
pub proof fn withdrawal_takes_exactly_the_amount(user: User, amount: u64)
    requires
        amount <= user.balance,
    ensures
        debited(user, amount).balance + amount == user.balance,
        debited(user, amount).whitelisted == user.whitelisted,
        debited(user, amount).bump == user.bump,
        debited(user, amount).last_nonce == user.last_nonce,
{
}

/// A memo scan that succeeds met a memo-program instruction, readable as
/// text, whose data is the expected memo.
proof fn lemma_memo_scan_finds(
    txn: Seq<Option<(InstructionView, bool)>>,
    i: int,
    memo_id: Seq<u8>,
    memo_v1_id: Seq<u8>,
    expected: Seq<u8>,
)
    requires
        memo_scan(txn, i, memo_id, memo_v1_id, expected) is Ok,
    ensures
        exists|j: int|
            i <= j < txn.len() && (#[trigger] txn[j] matches Some((ix, true)) && (ix.program_id
                == memo_id || ix.program_id == memo_v1_id) && ix.data == expected),
    decreases txn.len() - i,
{
    if 0 <= i < txn.len() {
        if !(txn[i] matches Some((ix, true)) && (ix.program_id == memo_id || ix.program_id
            == memo_v1_id) && ix.data == expected) {
            lemma_memo_scan_finds(txn, i + 1, memo_id, memo_v1_id, expected);
        }
    }
}

/// The memo check succeeds only where, before the running instruction, an
/// instruction of the memo program or of its earlier version carries exactly
/// the expected memo as text.
pub proof fn memo_check_finds_the_memo(data: Seq<u8>, expected: Seq<u8>)
    requires
        memo_check(data, expected) is Ok,
    ensures
        exists|j: int|
            0 <= j < sysvar_instructions(data).len() && (#[trigger] sysvar_instructions(data)[j] matches Some((ix, true))
                && (Some(ix.program_id) == parse_base58_pubkey(memo_program_text()@) || Some(
                ix.program_id,
            ) == parse_base58_pubkey(memo_program_v1_text()@)) && ix.data == expected),
{
    let ids = memo_program_ids();
    lemma_memo_scan_finds(sysvar_instructions(data), 0, ids.0->0, ids.1->0, expected);
}

/// Where some position up to `j` stops the memo scan, a first such position exists.
proof fn lemma_first_memo_stop(
    txn: Seq<Option<(InstructionView, bool)>>,
    memo_id: Seq<u8>,
    memo_v1_id: Seq<u8>,
    expected: Seq<u8>,
    j: int,
)
    requires
        0 <= j < txn.len(),
        memo_stop(txn[j], memo_id, memo_v1_id, expected),
    ensures
        exists|f: int|
            0 <= f <= j && memo_stop(txn[f], memo_id, memo_v1_id, expected) && forall|k: int|
                0 <= k < f ==> !memo_stop(#[trigger] txn[k], memo_id, memo_v1_id, expected),
    decreases j,
{
    if exists|k: int| 0 <= k < j && memo_stop(txn[k], memo_id, memo_v1_id, expected) {
        let k = choose|k: int| 0 <= k < j && memo_stop(txn[k], memo_id, memo_v1_id, expected);
        lemma_first_memo_stop(txn, memo_id, memo_v1_id, expected, k);
    } else {
        assert(forall|k: int| 0 <= k < j ==> !memo_stop(#[trigger] txn[k], memo_id, memo_v1_id, expected));
    }
}

/// The memo check accepts every transaction that holds, before the running
/// instruction, an instruction of the memo program (or its earlier version)
/// whose data is the expected memo as text, when every instruction before it is
/// readable and every memo before it is text.
pub proof fn memo_check_accepts_the_memo(data: Seq<u8>, expected: Seq<u8>, j: int)
    requires
        memo_program_ids().0 is Some,
        memo_program_ids().1 is Some,
        0 <= j < sysvar_instructions(data).len(),
        sysvar_instructions(data)[j] matches Some((ix, true)) && (Some(ix.program_id)
            == memo_program_ids().0 || Some(ix.program_id) == memo_program_ids().1) && ix.data
            == expected,
        forall|k: int|
            0 <= k < j ==> (#[trigger] sysvar_instructions(data)[k] matches Some((ix, text)) && ((Some(
                ix.program_id,
            ) == memo_program_ids().0 || Some(ix.program_id) == memo_program_ids().1) ==> text)),
    ensures
        memo_check(data, expected) is Ok,
{
    let txn = sysvar_instructions(data);
    let id0 = memo_program_ids().0->0;
    let id1 = memo_program_ids().1->0;
    lemma_first_memo_stop(txn, id0, id1, expected, j);
    let f = choose|f: int|
        0 <= f <= j && memo_stop(txn[f], id0, id1, expected) && forall|k: int|
            0 <= k < f ==> !memo_stop(#[trigger] txn[k], id0, id1, expected);
    if f < j {
        assert(txn[f] matches Some((ix, text)) && ((Some(ix.program_id) == memo_program_ids().0
            || Some(ix.program_id) == memo_program_ids().1) ==> text));
    }
    memo_scan_ends_at_first_stop(txn, 0, f, id0, id1, expected);
}

/// The number that decimal digits stand for.
pub open spec fn decimal_value(digits: Seq<u8>) -> int
    decreases digits.len(),
{
    if digits.len() == 0 {
        0
    } else {
        decimal_value(digits.drop_last()) * 10 + (digits.last() - 48)
    }
}

/// The decimal text of a number stands for that number and has no leading zero.
pub proof fn decimal_text_reads_back(n: nat)
    ensures
        decimal_value(decimal(n)) == n,
        decimal(n).len() > 1 ==> decimal(n)[0] != 48,
    decreases n,
{
    if n >= 10 {
        decimal_text_reads_back(n / 10);
        assert(decimal(n).drop_last() =~= decimal(n / 10));
        assert(decimal(n).last() == (48 + n % 10) as u8);
        assert(n == (n / 10) * 10 + n % 10);
        assert(decimal_value(decimal(n)) == decimal_value(decimal(n).drop_last()) * 10 + (decimal(
            n,
        ).last() - 48));
        assert(decimal_value(decimal(n)) == n);
        lemma_decimal_digits(n / 10);
        if decimal(n / 10).len() > 1 {
            assert(decimal(n)[0] == decimal(n / 10)[0]);
        } else {
            assert(decimal(n / 10)[0] == (48 + n / 10) as u8);
            assert(decimal(n)[0] == decimal(n / 10)[0]);
        }
    } else {
        assert(decimal(n).drop_last() =~= Seq::<u8>::empty());
        assert(decimal_value(decimal(n).drop_last()) == 0);
        assert(decimal(n).last() == (48 + n) as u8);
        assert(decimal_value(decimal(n)) == n);
    }
}

} // verus!
