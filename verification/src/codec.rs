//! The payload codec as far as routing and parameter extraction need it:
//! hashing an application name to its selector, and reading integers and
//! strings out of ABI-encoded parameter values.

use crate::primitives::{pow2_256, Address, Amount, Hash32};
use vstd::prelude::*;
use vstd::string::StrSliceExecFns;

verus! {

/// The Keccak-256 digest of `data`.
pub uninterp spec fn keccak256_of(data: Seq<u8>) -> Seq<u8>;

/// A value as the contract ABI sees it.
pub enum AbiToken {
    /// An unsigned integer of 256 bits.
    Uint(nat),
    /// An address of 20 bytes.
    Address(Seq<u8>),
    /// A byte string of any length.
    Bytes(Seq<u8>),
    Bool(bool),
    /// A string.
    Text(Seq<char>),
    /// An array of any length.
    Array(Seq<AbiToken>),
    Tuple(Seq<AbiToken>),
}

/// The contract ABI encoding of the tuple of the values.
pub uninterp spec fn abi_encoding(tokens: Seq<AbiToken>) -> Seq<u8>;

/// The contract ABI encoding of the one-element tuple that holds the string
/// `text`.
pub open spec fn abi_string_encoding(text: Seq<char>) -> Seq<u8> {
    abi_encoding(seq![AbiToken::Text(text)])
}

/// The string that the ABI-encoded `data` holds as its first element, or
/// `None` where `data` is no such encoding.
pub uninterp spec fn abi_decoded_string(data: Seq<u8>) -> Option<Seq<char>>;

/// The number that the bytes spell, most significant byte first.
pub open spec fn be_value(bytes: Seq<u8>) -> nat
    decreases bytes.len(),
{
    if bytes.len() == 0 {
        0
    } else {
        be_value(bytes.drop_last()) * 256 + bytes.last() as nat
    }
}

/// The selector of the application or parameter called `name`: the hash of
/// its ABI encoding.
pub open spec fn selector_of(name: Seq<char>) -> Seq<u8> {
    keccak256_of(abi_string_encoding(name))
}

/// Keccak-256 of `data`.
///
/// Trusted: calls `ethers_core::utils::keccak256`, which feeds the bytes to
/// a Keccak-256 hasher and returns its 32-byte digest.
#[verifier::external_body]
pub(crate) fn keccak256(data: &[u8]) -> (r: Hash32)
    ensures
        r@ == keccak256_of(data@),
{
    Hash32 { bytes: ethers_core::utils::keccak256(data) }
}

/// The longest text that is encoded, in characters.
pub const MAX_ENCODED_CHARS: usize = 1_000_000;

/// The ABI encoding of a single string.
///
/// Trusted: calls `ethers_core::abi::encode` on one `Token::String`; the
/// result depends on the string alone. The text is bounded because the
/// encoder counts the bytes of what it writes in 32 bits.
#[verifier::external_body]
pub(crate) fn abi_encode_string(text: &str) -> (r: Vec<u8>)
    requires
        text@.len() <= MAX_ENCODED_CHARS,
    ensures
        r@ == abi_string_encoding(text@),
{
    ethers_core::abi::encode(&[ethers_core::abi::Token::String(text.to_string())])
}

/// Reads an unsigned 256-bit integer from the head of ABI-encoded `data`.
///
/// Trusted: calls `ethers_core::abi::decode` for one `uint256`. The decoder
/// fails on fewer than 32 bytes; otherwise it reads the first 32 bytes as a
/// big-endian number and ignores what follows.
#[verifier::external_body]
pub(crate) fn abi_decode_uint256(data: &[u8]) -> (r: Option<Amount>)
    ensures
        data@.len() < 32 ==> r.is_none(),
        data@.len() >= 32 ==> r.is_some() && r.unwrap().value() == be_value(
            data@.subrange(0, 32),
        ),
{
    match ethers_core::abi::decode(&[ethers_core::abi::ParamType::Uint(256)], data) {
        Ok(tokens) => match tokens.first() {
            Some(ethers_core::abi::Token::Uint(v)) => Some(
                Amount { w0: v.0[0], w1: v.0[1], w2: v.0[2], w3: v.0[3] },
            ),
            _ => None,
        },
        Err(_) => None,
    }
}

/// Reads a string from ABI-encoded `data`.
///
/// Trusted: calls `ethers_core::abi::decode` for one `string`; whether it
/// succeeds and what it returns depend on the bytes alone.
#[verifier::external_body]
pub(crate) fn abi_decode_string(data: &[u8]) -> (r: Option<String>)
    ensures
        match r {
            Some(text) => abi_decoded_string(data@) == Some(text@),
            None => abi_decoded_string(data@).is_none(),
        },
{
    match ethers_core::abi::decode(&[ethers_core::abi::ParamType::String], data) {
        Ok(tokens) => match tokens.into_iter().next() {
            Some(ethers_core::abi::Token::String(text)) => Some(text),
            _ => None,
        },
        Err(_) => None,
    }
}

/// What is hashed when a 32-byte message is signed: a fixed prefix that
/// names the length, then the message.
pub open spec fn signed_message_envelope(message: Seq<u8>) -> Seq<u8> {
    seq![
        0x19u8, 0x45u8, 0x74u8, 0x68u8, 0x65u8, 0x72u8, 0x65u8, 0x75u8, 0x6du8, 0x20u8, 0x53u8,
        0x69u8, 0x67u8, 0x6eu8, 0x65u8, 0x64u8, 0x20u8, 0x4du8, 0x65u8, 0x73u8, 0x73u8, 0x61u8,
        0x67u8, 0x65u8, 0x3au8, 0x0au8, 0x33u8, 0x32u8,
    ] + message
}

/// The digest that a solver signs for encoded call objects: the hash of
/// the bytes, wrapped as a signed message and hashed again.
pub open spec fn signing_digest_of(encoded: Seq<u8>) -> Seq<u8> {
    keccak256_of(signed_message_envelope(keccak256_of(encoded)))
}

/// Hashes a 32-byte message as a signed message.
///
/// Trusted: calls `ethers_core::utils::hash_message`, which hashes the bytes
/// `0x19`, `Ethereum Signed Message:`, a line feed, the length of the
/// message in decimal notation, and the message, with Keccak-256.
#[verifier::external_body]
pub(crate) fn hash_message(message: &Hash32) -> (r: Hash32)
    ensures
        r@ == keccak256_of(signed_message_envelope(message@)),
{
    Hash32 { bytes: ethers_core::utils::hash_message(message.bytes).0 }
}

/// The digest that a solver signs for its encoded call objects.
pub fn signing_digest(encoded: &[u8]) -> (r: Hash32)
    ensures
        r@ == signing_digest_of(encoded@),
{
    let hash = keccak256(encoded);
    hash_message(&hash)
}

/// Whether `c` is one of the digits `0` to `9`.
pub open spec fn is_decimal_digit(c: char) -> bool {
    '0' <= c && c <= '9'
}

/// The number that a text of decimal digits spells; the empty text spells
/// zero, and a text with anything but digits spells no number.
pub open spec fn decimal_value(text: Seq<char>) -> Option<nat>
    decreases text.len(),
{
    if text.len() == 0 {
        Some(0)
    } else {
        match decimal_value(text.drop_last()) {
            Some(head) => if is_decimal_digit(text.last()) {
                Some((head * 10 + (text.last() as u8 - 48)) as nat)
            } else {
                None
            },
            None => None,
        }
    }
}

/// Whether `c` is a hexadecimal digit, of either case.
pub open spec fn is_hex_digit(c: char) -> bool {
    ('0' <= c && c <= '9') || ('a' <= c && c <= 'f') || ('A' <= c && c <= 'F')
}

/// The value of a hexadecimal digit.
pub open spec fn hex_digit_value(c: char) -> nat {
    if '0' <= c && c <= '9' {
        (c as u8 - 48) as nat
    } else if 'a' <= c && c <= 'f' {
        (c as u8 - 87) as nat
    } else {
        (c as u8 - 55) as nat
    }
}

/// Whether `c` is white space that is passed over between hexadecimal
/// digits: a blank, a tabulator, a carriage return or a line feed.
pub open spec fn is_hex_space(c: char) -> bool {
    c == ' ' || c == '\t' || c == '\r' || c == '\n'
}

/// The 20 bytes that a text spells as an address: after an optional `0x`
/// and without its white space, the text is exactly 40 hexadecimal digits,
/// two for each byte.
pub open spec fn address_text_value(text: Seq<char>) -> Option<Seq<u8>> {
    let body = if text.len() >= 2 && text[0] == '0' && text[1] == 'x' {
        text.skip(2)
    } else {
        text
    };
    let digits = body.filter(|c: char| !is_hex_space(c));
    if digits.len() == 40 && forall|i: int| 0 <= i < 40 ==> is_hex_digit(#[trigger] digits[i]) {
        Some(
            Seq::new(
                20,
                |i: int|
                    (hex_digit_value(digits[2 * i]) * 16 + hex_digit_value(digits[2 * i + 1])) as u8,
            ),
        )
    } else {
        None
    }
}

/// Reads an amount from a text of decimal digits.
///
/// Trusted: calls `ethers_core::types::U256::from_dec_str`, which takes the
/// bytes of the text one by one, fails on the first that is no digit,
/// multiplies by ten and adds the digit, and fails where either overflows
/// 256 bits. Of the empty text it makes zero.
#[verifier::external_body]
pub(crate) fn parse_decimal(text: &str) -> (r: Option<Amount>)
    ensures
        match decimal_value(text@) {
            Some(value) => if value < pow2_256() {
                r.is_some() && r.unwrap().value() == value
            } else {
                r.is_none()
            },
            None => r.is_none(),
        },
{
    match ethers_core::types::U256::from_dec_str(text) {
        Ok(v) => Some(Amount { w0: v.0[0], w1: v.0[1], w2: v.0[2], w3: v.0[3] }),
        Err(_) => None,
    }
}

/// Reads an address from its hexadecimal notation.
///
/// Trusted: calls the `FromStr` impl of `ethers_core::types::H160`, which
/// strips one leading `0x`, reads two hexadecimal digits of either case for
/// each of the 20 bytes, passing over blanks, tabulators, carriage returns
/// and line feeds, and fails on any other character, on too few digits and
/// on anything left over.
#[verifier::external_body]
pub(crate) fn parse_address(text: &str) -> (r: Option<Address>)
    ensures
        match r {
            Some(address) => address_text_value(text@) == Some(address@),
            None => address_text_value(text@).is_none(),
        },
{
    match text.parse::<ethers_core::types::H160>() {
        Ok(address) => Some(Address { bytes: address.0 }),
        Err(_) => None,
    }
}

/// Hashes a name of at most a million characters to its selector.
pub fn short_selector(app: &str) -> (r: Hash32)
    requires
        app@.len() <= MAX_ENCODED_CHARS,
    ensures
        r@ == selector_of(app@),
{
    let encoded = abi_encode_string(app);
    keccak256(encoded.as_slice())
}

/// Hashes an application name to its fixed-width selector. A name of more
/// than a million characters has none.
pub fn selector(app: &str) -> (r: Option<Hash32>)
    ensures
        match r {
            Some(hash) => app@.len() <= MAX_ENCODED_CHARS && hash@ == selector_of(app@),
            None => app@.len() > MAX_ENCODED_CHARS,
        },
{
    if app.unicode_len() > MAX_ENCODED_CHARS {
        None
    } else {
        Some(short_selector(app))
    }
}

} // verus!
