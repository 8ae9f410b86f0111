//! Hexadecimal and decimal text, as the fields of a request carry it.

use std::str::FromStr;
use vstd::prelude::*;

verus! {

/// The value of a hexadecimal digit of either case; `None` for any other character.
pub open spec fn hex_digit(c: char) -> Option<u8> {
    let n = c as u32;
    if 0x30 <= n <= 0x39 {
        Some((n - 0x30) as u8)
    } else if 0x61 <= n <= 0x66 {
        Some((n - 0x57) as u8)
    } else if 0x41 <= n <= 0x46 {
        Some((n - 0x37) as u8)
    } else {
        None
    }
}

/// An even number of hexadecimal digits and nothing else.
pub open spec fn is_hex_text(s: Seq<char>) -> bool {
    &&& s.len() % 2 == 0
    &&& forall|i: int| 0 <= i < s.len() ==> hex_digit(#[trigger] s[i]) is Some
}

/// The bytes that the digits of `s` spell, two digits to a byte, the high one first.
pub open spec fn hex_bytes(s: Seq<char>) -> Seq<u8> {
    Seq::new(
        s.len() / 2,
        |i: int| (16 * hex_digit(s[2 * i])->0 + hex_digit(s[2 * i + 1])->0) as u8,
    )
}

/// What hexadecimal text decodes to, if it is hexadecimal text.
pub open spec fn hex_decoded(s: Seq<char>) -> Option<Seq<u8>> {
    if is_hex_text(s) {
        Some(hex_bytes(s))
    } else {
        None
    }
}

/// Whether `s` begins with the two characters `a`, `b`.
pub open spec fn starts_with(s: Seq<char>, a: char, b: char) -> bool {
    s.len() >= 2 && s[0] == a && s[1] == b
}

/// `s` without its first two characters where they are `a`, `b`; else `s`.
pub open spec fn without_prefix(s: Seq<char>, a: char, b: char) -> Seq<char> {
    if starts_with(s, a, b) {
        s.skip(2)
    } else {
        s
    }
}

/// What the `data` field of a request decodes to: hexadecimal after an optional `0x`.
pub open spec fn data_of_text(s: Seq<char>) -> Option<Seq<u8>> {
    hex_decoded(without_prefix(s, '0', 'x'))
}

/// A character that the address parser passes over: a space, a tab or a line end.
pub open spec fn is_blank(c: char) -> bool {
    c == ' ' || c == '\t' || c == '\n' || c == '\r'
}

/// The digits of address text: what follows an optional `0x`, without the blanks.
pub open spec fn address_digits(s: Seq<char>) -> Seq<char> {
    without_prefix(s, '0', 'x').filter(|c: char| !is_blank(c))
}

/// The address that text writes, where it writes one: 40 hexadecimal digits.
pub open spec fn address_of_text(s: Seq<char>) -> Option<Seq<u8>> {
    if address_digits(s).len() == 40 {
        hex_decoded(address_digits(s))
    } else {
        None
    }
}

/// Decimal digits and nothing else; the empty text counts.
pub open spec fn is_decimal_text(s: Seq<char>) -> bool {
    forall|i: int| 0 <= i < s.len() ==> 0x30 <= (#[trigger] s[i]) as u32 <= 0x39
}

/// The number that decimal text writes.
pub open spec fn decimal_value(s: Seq<char>) -> nat
    decreases s.len(),
{
    if s.len() == 0 {
        0
    } else {
        10 * decimal_value(s.drop_last()) + (s.last() as u32 - 0x30) as nat
    }
}

/// Two to the power 256, the first number that a 32-byte amount cannot hold.
pub open spec fn amount_limit() -> nat {
    0x1_0000_0000_0000_0000_0000_0000_0000_0000_0000_0000_0000_0000_0000_0000_0000_0000nat
}

/// The `len` bytes that write `n` in base 256, the most significant first.
pub open spec fn be_bytes(n: nat, len: nat) -> Seq<u8>
    decreases len,
{
    if len == 0 {
        Seq::empty()
    } else {
        be_bytes(n / 256, (len - 1) as nat).push((n % 256) as u8)
    }
}

/// The number that `b` writes in base 256, the most significant byte first.
pub open spec fn be_value(b: Seq<u8>) -> nat
    decreases b.len(),
{
    if b.len() == 0 {
        0
    } else {
        256 * be_value(b.drop_last()) + b.last() as nat
    }
}

/// What the amount parser makes of text: the number that decimal digits write,
/// where it is below 2^256, as 32 bytes. The empty text is taken as zero.
pub open spec fn decimal_of_text(s: Seq<char>) -> Option<Seq<u8>> {
    if is_decimal_text(s) && decimal_value(s) < amount_limit() {
        Some(be_bytes(decimal_value(s), 32))
    } else {
        None
    }
}

/// What an amount field of a request stands for: a decimal number below 2^256,
/// of at least one digit, as 32 bytes.
pub open spec fn amount_of_text(s: Seq<char>) -> Option<Seq<u8>> {
    if s.len() == 0 {
        None
    } else {
        decimal_of_text(s)
    }
}

/// `str::strip_prefix` for the prefix `0x`: the rest of the text where it begins
/// with these two characters, `None` where it does not.
#[verifier::external_body]
pub(crate) fn strip_0x(text: &str) -> (rest: Option<&str>)
    ensures
        rest is Some <==> starts_with(text@, '0', 'x'),
        rest matches Some(r) ==> r@ == text@.skip(2),
{
    text.strip_prefix("0x")
}

/// `hex::decode` on text. The crate documents it: digits of either case, two to a
/// byte; an odd length or any other character is an error.
#[verifier::external_body]
pub(crate) fn decode_hex(text: &str) -> (bytes: Option<Vec<u8>>)
    ensures
        bytes is Some <==> is_hex_text(text@),
        bytes matches Some(b) ==> b@ == hex_bytes(text@),
{
    hex::decode(text).ok()
}

/// `U256::from_dec_str`, the result written out as 32 big-endian bytes. The
/// source reads the text digit by digit from zero, refuses any other character,
/// and refuses a number that does not fit in 256 bits; the empty text comes out
/// as zero.
#[verifier::external_body]
pub(crate) fn parse_amount(text: &str) -> (amount: Option<[u8; 32]>)
    ensures
        amount is Some <==> decimal_of_text(text@) is Some,
        amount matches Some(a) ==> Some(a@) == decimal_of_text(text@),
{
    ethers_core::types::U256::from_dec_str(text).ok().map(Into::into)
}

/// `H160::from_str`, the address written out as bytes. The source strips `0x`,
/// reads hexadecimal digits two to a byte, passing over blanks, and wants
/// exactly 20 bytes and nothing after them.
#[verifier::external_body]
pub(crate) fn parse_address(text: &str) -> (address: Option<[u8; 20]>)
    ensures
        address is Some <==> address_of_text(text@) is Some,
        address matches Some(a) ==> Some(a@) == address_of_text(text@),
{
    ethers_core::types::H160::from_str(text).ok().map(|address| address.0)
}

/// The 32 bytes of a slice that has exactly 32, as an array.
pub(crate) fn array_of_32(bytes: &[u8]) -> (array: [u8; 32])
    requires
        bytes@.len() == 32,
    ensures
        array@ == bytes@,
{
    let mut array = [0u8; 32];
    let mut i: usize = 0;
    while i < 32
        invariant
            i <= 32,
            bytes@.len() == 32,
            forall|j: int| 0 <= j < i ==> array@[j] == bytes@[j],
        decreases 32 - i,
    {
        array[i] = bytes[i];
        i += 1;
    }
    assert(array@ =~= bytes@);
    array
}

/// Decodes the `data` field of a request: hexadecimal, after an optional `0x`.
pub fn parse_data(text: &str) -> (data: Option<Vec<u8>>)
    ensures
        data is Some <==> data_of_text(text@) is Some,
        data matches Some(d) ==> Some(d@) == data_of_text(text@),
{
    match strip_0x(text) {
        Some(rest) => decode_hex(rest),
        None => decode_hex(text),
    }
}

} // verus!
