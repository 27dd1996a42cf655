//! Building the diagnostic messages that responses and status records carry.

use crate::primitives::{Amount, Hash32};
use vstd::prelude::*;

verus! {

/// The character that stands for the digit `d`, for `d` below ten.
pub open spec fn decimal_digit(d: nat) -> char {
    ((48 + d) as u8) as char
}

/// The decimal notation of `n`, without leading zeros.
pub open spec fn decimal_text(n: nat) -> Seq<char>
    decreases n,
{
    if n < 10 {
        seq![decimal_digit(n)]
    } else {
        decimal_text(n / 10).push(decimal_digit(n % 10))
    }
}

/// The character that stands for the hexadecimal digit `d`, for `d` below
/// sixteen.
pub open spec fn hex_digit(d: nat) -> char {
    if d < 10 {
        ((48 + d) as u8) as char
    } else {
        ((87 + d) as u8) as char
    }
}

/// The bytes in hexadecimal notation: two lower-case digits for each byte.
pub open spec fn hex_text(bytes: Seq<u8>) -> Seq<char>
    decreases bytes.len(),
{
    if bytes.len() == 0 {
        Seq::empty()
    } else {
        hex_text(bytes.drop_last()) + seq![
            hex_digit(bytes.last() as nat / 16),
            hex_digit(bytes.last() as nat % 16),
        ]
    }
}

/// Writes bytes in hexadecimal notation.
///
/// Trusted: calls `hex::encode`, which writes each byte as two lower-case
/// hexadecimal digits, the high four bits first.
#[verifier::external_body]
pub(crate) fn hex_encode(bytes: &[u8]) -> (r: String)
    ensures
        r@ == hex_text(bytes@),
{
    hex::encode(bytes)
}

/// The short notation of a 32-byte hash: `0x`, its first two bytes in
/// hexadecimal notation, an ellipsis, and its last two bytes.
pub open spec fn hash_text(bytes: Seq<u8>) -> Seq<char> {
    "0x"@ + hex_text(bytes.subrange(0, 2)) + "…"@ + hex_text(bytes.subrange(30, 32))
}

/// Writes a hash in its short notation.
///
/// Trusted: calls the `Display` impl of `ethers_core::types::H256`, which
/// writes `0x`, the first two bytes as two lower-case hexadecimal digits
/// each, an ellipsis, and the last two bytes in the same way.
#[verifier::external_body]
pub(crate) fn hash_to_text(hash: &Hash32) -> (r: String)
    ensures
        r@ == hash_text(hash@),
{
    ethers_core::types::H256(hash.bytes).to_string()
}

/// Appends `tail` to `text`.
///
/// Trusted: calls `String::push_str`, which std documents as appending the
/// given string slice onto the end of the string.
#[verifier::external_body]
pub(crate) fn append(text: &mut String, tail: &str)
    ensures
        final(text)@ == old(text)@ + tail@,
{
    text.push_str(tail);
}

/// The decimal notation of an amount.
///
/// Trusted: calls the `Display` impl of `ethers_core::types::U256`, which
/// writes the number in base ten, most significant digit first, and writes
/// zero as a single `0`.
#[verifier::external_body]
pub(crate) fn amount_to_decimal(amount: Amount) -> (r: String)
    ensures
        r@ == decimal_text(amount.value()),
{
    ethers_core::types::U256([amount.w0, amount.w1, amount.w2, amount.w3]).to_string()
}

/// The two texts joined.
pub fn join_text(head: &str, tail: &str) -> (r: String)
    ensures
        r@ == head@ + tail@,
{
    let mut text = head.to_owned();
    append(&mut text, tail);
    text
}

/// The decimal notation of `n`.
pub fn u64_to_decimal(n: u64) -> (r: String)
    ensures
        r@ == decimal_text(n as nat),
{
    amount_to_decimal(Amount::from_u64(n))
}

} // verus!
