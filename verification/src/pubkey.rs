use vstd::prelude::*;
use std::str::FromStr;

verus! {

/// A 32-byte account address.
#[derive(Clone, Copy, Debug)]
pub struct Pubkey {
    pub bytes: [u8; 32],
}

impl View for Pubkey {
    type V = Seq<u8>;

    open spec fn view(&self) -> Seq<u8> {
        self.bytes@
    }
}

impl Pubkey {
    /// Builds an address from its 32 bytes.
    pub fn new_from_array(bytes: [u8; 32]) -> (r: Pubkey)
        ensures
            r@ == bytes@,
    {
        Pubkey { bytes }
    }

    /// Byte-wise equality of two addresses.
    pub fn equals(&self, other: &Pubkey) -> (r: bool)
        ensures
            r == (self@ == other@),
    {
        let mut i: usize = 0;
        while i < 32
            invariant
                0 <= i <= 32,
                self@.len() == 32,
                other@.len() == 32,
                forall|j: int| 0 <= j < i ==> self@[j] == other@[j],
            decreases 32 - i,
        {
            if self.bytes[i] != other.bytes[i] {
                assert(self@[i as int] != other@[i as int]);
                return false;
            }
            i = i + 1;
        }
        assert(self@ =~= other@);
        true
    }
}

} // verus!

verus! {

/// The base58 character of a digit below 58: `1`-`9`, then the letters but `I`,
/// `O` and `l`.
pub open spec fn base58_char(d: int) -> u8 {
    if d < 9 {
        (49 + d) as u8
    } else if d < 17 {
        (65 + d - 9) as u8
    } else if d < 22 {
        (74 + d - 17) as u8
    } else if d < 33 {
        (80 + d - 22) as u8
    } else if d < 44 {
        (97 + d - 33) as u8
    } else {
        (109 + d - 44) as u8
    }
}

/// The number that the bytes write in base 256, most significant first.
pub open spec fn big_endian_value(b: Seq<u8>) -> nat
    decreases b.len(),
{
    if b.len() == 0 {
        0
    } else {
        big_endian_value(b.drop_last()) * 256 + b.last() as nat
    }
}

/// The base-58 digits of `n` as characters, most significant first; none for 0.
pub open spec fn base58_digits(n: nat) -> Seq<u8>
    decreases n,
{
    if n == 0 {
        seq![]
    } else {
        base58_digits(n / 58).push(base58_char((n % 58) as int))
    }
}

/// The number of zero bytes the bytes start with.
pub open spec fn leading_zero_bytes(b: Seq<u8>) -> nat
    decreases b.len(),
{
    if b.len() > 0 && b[0] == 0 {
        1 + leading_zero_bytes(b.drop_first())
    } else {
        0
    }
}

/// The base58 text of an address, as bytes: a `1` for each leading zero byte,
/// then the base-58 digits of the address read as a big-endian number.
pub open spec fn base58_text(key: Seq<u8>) -> Seq<u8> {
    Seq::new(leading_zero_bytes(key), |i: int| 49u8) + base58_digits(big_endian_value(key))
}

/// Every character of a base-58 number is of the base58 alphabet.
proof fn lemma_base58_digits_alphabet(n: nat)
    ensures
        forall|i: int|
            0 <= i < base58_digits(n).len() ==> is_base58_digit(#[trigger] base58_digits(n)[i]),
    decreases n,
{
    if n > 0 {
        lemma_base58_digits_alphabet(n / 58);
        let d = n % 58;
        assert(is_base58_digit(base58_char(d as int)));
        let prev = base58_digits(n / 58);
        assert forall|i: int| 0 <= i < base58_digits(n).len() implies is_base58_digit(
            #[trigger] base58_digits(n)[i],
        ) by {
            if i < prev.len() {
                assert(base58_digits(n)[i] == prev[i]);
            }
        }
    }
}

/// Every character of an address's base58 text is of the base58 alphabet.
pub proof fn lemma_base58_text_alphabet(key: Seq<u8>)
    ensures
        forall|i: int| 0 <= i < base58_text(key).len() ==> is_base58_digit(#[trigger] base58_text(key)[i]),
{
    lemma_base58_digits_alphabet(big_endian_value(key));
    let ones = Seq::new(leading_zero_bytes(key), |i: int| 49u8);
    assert forall|i: int| 0 <= i < base58_text(key).len() implies is_base58_digit(
        #[trigger] base58_text(key)[i],
    ) by {
        if i < ones.len() {
            assert(base58_text(key)[i] == 49u8);
        } else {
            assert(base58_text(key)[i] == base58_digits(big_endian_value(key))[i - ones.len()]);
        }
    }
}

/// The address that a base58 text denotes, or `None` when the text is not one.
pub uninterp spec fn parse_base58_pubkey(text: Seq<char>) -> Option<Seq<u8>>;

/// A byte of the base58 alphabet: the digits `1`-`9` and the letters but `0`, `O`,
/// `I` and `l`.
pub open spec fn is_base58_digit(b: u8) -> bool {
    ||| 0x31 <= b <= 0x39
    ||| 0x41 <= b <= 0x48
    ||| 0x4a <= b <= 0x4e
    ||| 0x50 <= b <= 0x5a
    ||| 0x61 <= b <= 0x6b
    ||| 0x6d <= b <= 0x7a
}

/// The text that `Display` of the Solana `Pubkey` writes (`write_as_base58`, which
/// encodes with `five8::encode_32`), as bytes: base58 with the alphabet of the
/// table `BASE58_CHARS`, a `1` for each leading zero byte.
#[verifier::external_body]
pub(crate) fn base58(key: &Pubkey) -> (r: Vec<u8>)
    ensures
        r@ == base58_text(key@),
{
    anchor_lang::prelude::Pubkey::new_from_array(key.bytes).to_string().into_bytes()
}

/// `FromStr` of the Solana `Pubkey`: decodes base58 text to an address, or fails.
/// What it decodes is named `parse_base58_pubkey`.
#[verifier::external_body]
pub(crate) fn pubkey_from_str(text: &str) -> (r: Option<Pubkey>)
    ensures
        match r {
            Some(k) => parse_base58_pubkey(text@) == Some(k@),
            None => parse_base58_pubkey(text@) is None,
        },
{
    anchor_lang::prelude::Pubkey::from_str(text).ok().map(|k| Pubkey { bytes: k.to_bytes() })
}

} // verus!
