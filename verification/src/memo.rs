//! The memo text a deposit must carry: `deposit:<signer>:<amount>:<nonce>`,
//! with the signer in base58 and the numbers in decimal.

use vstd::prelude::*;

use crate::pubkey::{base58, base58_text, is_base58_digit, Pubkey};

verus! {

/// The ASCII code of `:`.
pub open spec fn colon() -> u8 {
    58u8
}

/// The bytes of `deposit:`.
pub open spec fn deposit_prefix() -> Seq<u8> {
    seq![100u8, 101u8, 112u8, 111u8, 115u8, 105u8, 116u8, 58u8]
}

/// The decimal digits of `n`, most significant first, with no leading zero.
pub open spec fn decimal(n: nat) -> Seq<u8>
    decreases n,
{
    if n < 10 {
        seq![(48 + n) as u8]
    } else {
        decimal(n / 10).push((48 + n % 10) as u8)
    }
}

/// The part of a deposit memo before the nonce: `deposit:<signer>:<amount>:`.
pub open spec fn memo_head(signer_text: Seq<u8>, amount: u64) -> Seq<u8> {
    deposit_prefix() + signer_text + seq![colon()] + decimal(amount as nat) + seq![colon()]
}

/// The memo a deposit of `amount` with `nonce` by the signer whose base58 text is
/// `signer_text` must carry.
pub open spec fn deposit_memo(signer_text: Seq<u8>, amount: u64, nonce: u64) -> Seq<u8> {
    memo_head(signer_text, amount) + decimal(nonce as nat)
}

/// `data` begins with `head`.
pub open spec fn starts_with(data: Seq<u8>, head: Seq<u8>) -> bool {
    head.len() <= data.len() && data.subrange(0, head.len() as int) == head
}

/// Appends the decimal digits of `n`.
fn push_decimal(out: &mut Vec<u8>, n: u64)
    ensures
        final(out)@ == old(out)@ + decimal(n as nat),
    decreases n,
{
    if n >= 10 {
        push_decimal(out, n / 10);
    }
    let d: u8 = (n % 10) as u8;
    out.push(48 + d);
    proof {
        if n >= 10 {
            assert(old(out)@ + decimal(n as nat) =~= old(out)@ + decimal((n / 10) as nat) + seq![
                (48 + n % 10) as u8,
            ]);
        } else {
            assert(old(out)@ + decimal(n as nat) =~= old(out)@ + seq![(48 + n) as u8]);
        }
    }
}

/// Appends the bytes of `src`.
fn push_bytes(out: &mut Vec<u8>, src: &[u8])
    ensures
        final(out)@ == old(out)@ + src@,
{
    let mut i: usize = 0;
    while i < src.len()
        invariant
            0 <= i <= src@.len(),
            out@ == old(out)@ + src@.subrange(0, i as int),
        decreases src@.len() - i,
    {
        out.push(src[i]);
        i = i + 1;
        assert(out@ =~= old(out)@ + src@.subrange(0, i as int));
    }
    assert(src@.subrange(0, src@.len() as int) =~= src@);
}

/// The deposit memo for a signer given by its base58 text.
pub fn memo_from_parts(signer_text: &[u8], amount: u64, nonce: u64) -> (r: Vec<u8>)
    ensures
        r@ == deposit_memo(signer_text@, amount, nonce),
{
    let mut out = head_from_parts(signer_text, amount);
    push_decimal(&mut out, nonce);
    out
}

/// The head of a deposit memo for a signer given by its base58 text.
pub fn head_from_parts(signer_text: &[u8], amount: u64) -> (r: Vec<u8>)
    ensures
        r@ == memo_head(signer_text@, amount),
{
    let mut out: Vec<u8> = Vec::new();
    out.push(100u8);
    out.push(101u8);
    out.push(112u8);
    out.push(111u8);
    out.push(115u8);
    out.push(105u8);
    out.push(116u8);
    out.push(58u8);
    assert(out@ =~= deposit_prefix());
    push_bytes(&mut out, signer_text);
    out.push(58u8);
    push_decimal(&mut out, amount);
    out.push(58u8);
    assert(out@ =~= memo_head(signer_text@, amount));
    out
}

/// The memo a deposit of `amount` with `nonce` by `signer` must carry.
pub fn expected_memo(signer: &Pubkey, amount: u64, nonce: u64) -> (r: Vec<u8>)
    ensures
        r@ == deposit_memo(base58_text(signer@), amount, nonce),
{
    let text = base58(signer);
    memo_from_parts(text.as_slice(), amount, nonce)
}

/// The head `deposit:<signer>:<amount>:` of the memos of deposits of `amount` by `signer`.
pub fn expected_memo_head(signer: &Pubkey, amount: u64) -> (r: Vec<u8>)
    ensures
        r@ == memo_head(base58_text(signer@), amount),
{
    let text = base58(signer);
    head_from_parts(text.as_slice(), amount)
}

/// A deposit memo begins with the head for its signer and amount.
pub proof fn lemma_memo_starts_with_head(signer_text: Seq<u8>, amount: u64, nonce: u64)
    ensures
        starts_with(deposit_memo(signer_text, amount, nonce), memo_head(signer_text, amount)),
{
    let m = deposit_memo(signer_text, amount, nonce);
    let h = memo_head(signer_text, amount);
    assert(m.subrange(0, h.len() as int) =~= h);
}

/// Decimal text is made of digits and is never empty.
pub proof fn lemma_decimal_digits(n: nat)
    ensures
        decimal(n).len() >= 1,
        n >= 10 ==> decimal(n).len() >= 2,
        forall|i: int| 0 <= i < decimal(n).len() ==> 48 <= #[trigger] decimal(n)[i] <= 57,
    decreases n,
{
    if n >= 10 {
        lemma_decimal_digits(n / 10);
    }
}

/// Different numbers have different decimal texts.
pub proof fn lemma_decimal_injective(a: nat, b: nat)
    requires
        decimal(a) == decimal(b),
    ensures
        a == b,
    decreases a,
{
    lemma_decimal_digits(a);
    lemma_decimal_digits(b);
    if a >= 10 && b >= 10 {
        assert(decimal(a).drop_last() =~= decimal(a / 10));
        assert(decimal(b).drop_last() =~= decimal(b / 10));
        lemma_decimal_injective(a / 10, b / 10);
        assert(decimal(a).last() == (48 + a % 10) as u8);
        assert(decimal(b).last() == (48 + b % 10) as u8);
        assert(a % 10 == b % 10);
        assert(a == 10 * (a / 10) + a % 10);
        assert(b == 10 * (b / 10) + b % 10);
    } else if a < 10 && b < 10 {
        assert(decimal(a)[0] == decimal(b)[0]);
        assert(decimal(a)[0] == (48 + a) as u8);
        assert(decimal(b)[0] == (48 + b) as u8);
    } else if a < 10 {
        assert(decimal(a).len() == 1);
    } else {
        assert(decimal(b).len() == 1);
    }
}

/// A colon-free text, a colon and the rest: the split point is fixed by the text.
proof fn lemma_split_at_colon(x1: Seq<u8>, y1: Seq<u8>, x2: Seq<u8>, y2: Seq<u8>)
    requires
        forall|i: int| 0 <= i < x1.len() ==> #[trigger] x1[i] != colon(),
        forall|i: int| 0 <= i < x2.len() ==> #[trigger] x2[i] != colon(),
        x1 + seq![colon()] + y1 == x2 + seq![colon()] + y2,
    ensures
        x1 == x2,
        y1 == y2,
{
    let s1 = x1 + seq![colon()] + y1;
    let s2 = x2 + seq![colon()] + y2;
    if x1.len() < x2.len() {
        assert(s1[x1.len() as int] == colon());
        assert(s2[x1.len() as int] == x2[x1.len() as int]);
    } else if x2.len() < x1.len() {
        assert(s2[x2.len() as int] == colon());
        assert(s1[x2.len() as int] == x1[x2.len() as int]);
    }
    assert(x1 =~= s1.subrange(0, x1.len() as int));
    assert(x2 =~= s2.subrange(0, x2.len() as int));
    assert(y1 =~= s1.subrange(x1.len() as int + 1, s1.len() as int));
    assert(y2 =~= s2.subrange(x2.len() as int + 1, s2.len() as int));
}

/// For one signer text, a deposit memo fixes the amount and the nonce.
pub proof fn memo_same_signer_determines_deposit(
    signer: Seq<u8>,
    amount1: u64,
    nonce1: u64,
    amount2: u64,
    nonce2: u64,
)
    requires
        deposit_memo(signer, amount1, nonce1) == deposit_memo(signer, amount2, nonce2),
    ensures
        amount1 == amount2,
        nonce1 == nonce2,
{
    lemma_decimal_digits(amount1 as nat);
    lemma_decimal_digits(amount2 as nat);
    let head = deposit_prefix() + signer + seq![colon()];
    let r1 = decimal(amount1 as nat) + seq![colon()] + decimal(nonce1 as nat);
    let r2 = decimal(amount2 as nat) + seq![colon()] + decimal(nonce2 as nat);
    let m1 = deposit_memo(signer, amount1, nonce1);
    let m2 = deposit_memo(signer, amount2, nonce2);
    assert(m1 =~= head + r1);
    assert(m2 =~= head + r2);
    assert(r1 =~= m1.subrange(head.len() as int, m1.len() as int));
    assert(r2 =~= m2.subrange(head.len() as int, m2.len() as int));
    lemma_split_at_colon(decimal(amount1 as nat), decimal(nonce1 as nat), decimal(amount2 as nat), decimal(nonce2 as nat));
    lemma_decimal_injective(amount1 as nat, amount2 as nat);
    lemma_decimal_injective(nonce1 as nat, nonce2 as nat);
}

/// A deposit memo binds what it is made of: two equal memos come from the same
/// signer text, the same amount and the same nonce, for signer texts in base58.
pub proof fn memo_determines_deposit(
    signer1: Seq<u8>,
    amount1: u64,
    nonce1: u64,
    signer2: Seq<u8>,
    amount2: u64,
    nonce2: u64,
)
    requires
        forall|i: int| 0 <= i < signer1.len() ==> is_base58_digit(#[trigger] signer1[i]),
        forall|i: int| 0 <= i < signer2.len() ==> is_base58_digit(#[trigger] signer2[i]),
        deposit_memo(signer1, amount1, nonce1) == deposit_memo(signer2, amount2, nonce2),
    ensures
        signer1 == signer2,
        amount1 == amount2,
        nonce1 == nonce2,
{
    lemma_decimal_digits(amount1 as nat);
    lemma_decimal_digits(amount2 as nat);
    let r1 = decimal(amount1 as nat) + seq![colon()] + decimal(nonce1 as nat);
    let r2 = decimal(amount2 as nat) + seq![colon()] + decimal(nonce2 as nat);
    assert(deposit_memo(signer1, amount1, nonce1) =~= deposit_prefix() + (signer1 + seq![colon()]
        + r1));
    assert(deposit_memo(signer2, amount2, nonce2) =~= deposit_prefix() + (signer2 + seq![colon()]
        + r2));
    assert((signer1 + seq![colon()] + r1) =~= deposit_memo(signer1, amount1, nonce1).subrange(
        8,
        deposit_memo(signer1, amount1, nonce1).len() as int,
    ));
    assert((signer2 + seq![colon()] + r2) =~= deposit_memo(signer2, amount2, nonce2).subrange(
        8,
        deposit_memo(signer2, amount2, nonce2).len() as int,
    ));
    lemma_split_at_colon(signer1, r1, signer2, r2);
    lemma_split_at_colon(decimal(amount1 as nat), decimal(nonce1 as nat), decimal(amount2 as nat), decimal(nonce2 as nat));
    lemma_decimal_injective(amount1 as nat, amount2 as nat);
    lemma_decimal_injective(nonce1 as nat, nonce2 as nat);
}

} // verus!

verus! {

/// Whether `data` begins with `head`.
pub fn bytes_start_with(data: &[u8], head: &[u8]) -> (r: bool)
    ensures
        r == starts_with(data@, head@),
{
    if head.len() > data.len() {
        return false;
    }
    let mut i: usize = 0;
    while i < head.len()
        invariant
            0 <= i <= head@.len(),
            head@.len() <= data@.len(),
            forall|j: int| 0 <= j < i ==> data@[j] == head@[j],
        decreases head@.len() - i,
    {
        if data[i] != head[i] {
            assert(data@.subrange(0, head@.len() as int)[i as int] != head@[i as int]);
            return false;
        }
        i = i + 1;
    }
    assert(data@.subrange(0, head@.len() as int) =~= head@);
    true
}

/// Byte-wise equality.
pub fn bytes_equal(a: &[u8], b: &[u8]) -> (r: bool)
    ensures
        r == (a@ == b@),
{
    if a.len() != b.len() {
        return false;
    }
    let mut i: usize = 0;
    while i < a.len()
        invariant
            0 <= i <= a@.len(),
            a@.len() == b@.len(),
            forall|j: int| 0 <= j < i ==> a@[j] == b@[j],
        decreases a@.len() - i,
    {
        if a[i] != b[i] {
            return false;
        }
        i = i + 1;
    }
    assert(a@ =~= b@);
    true
}

} // verus!
