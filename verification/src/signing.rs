//! The signature under a solver's own objective.
//!
//! A solver signs the call objects of its objective: their ABI encoding is
//! wrapped with a nonce and the sender, hashed, hashed again as a signed
//! message, and signed with the solver's key.

use crate::codec::{abi_encoding, signing_digest, signing_digest_of, AbiToken};
use crate::primitives::{Address, Amount, Hash32};
use crate::solver::{ErrorView, SolverError};
use crate::text::join_text;
use ethers::signers::LocalWallet;
use ethers_core::abi::{encode, Token};
use ethers_core::types::{H160, H256, U256};
use vstd::arithmetic::power::pow;
use vstd::prelude::*;

verus! {

/// One call of an objective with its payload in bytes, as it is signed and
/// sent.
#[derive(Clone, Debug, PartialEq, Eq)]
pub struct EncodedCall {
    pub salt: Amount,
    pub amount: Amount,
    pub gas: Amount,
    pub addr: Address,
    pub callvalue: Vec<u8>,
    pub returnvalue: Vec<u8>,
    pub skippable: bool,
    pub verifiable: bool,
    pub expose_return: bool,
}

/// What an encoded call holds, as plain values.
pub struct EncodedCallView {
    pub salt: nat,
    pub amount: nat,
    pub gas: nat,
    pub addr: Seq<u8>,
    pub callvalue: Seq<u8>,
    pub returnvalue: Seq<u8>,
    pub skippable: bool,
    pub verifiable: bool,
    pub expose_return: bool,
}

impl View for EncodedCall {
    type V = EncodedCallView;

    open spec fn view(&self) -> EncodedCallView {
        EncodedCallView {
            salt: self.salt.value(),
            amount: self.amount.value(),
            gas: self.gas.value(),
            addr: self.addr@,
            callvalue: self.callvalue@,
            returnvalue: self.returnvalue@,
            skippable: self.skippable,
            verifiable: self.verifiable,
            expose_return: self.expose_return,
        }
    }
}

/// The private key of a solver's wallet: a 32-byte scalar, most significant
/// byte first.
#[derive(Clone, Copy, Debug)]
pub struct WalletKey {
    pub bytes: [u8; 32],
}

/// What each call holds.
pub open spec fn call_views(calls: Seq<EncodedCall>) -> Seq<EncodedCallView> {
    Seq::new(calls.len(), |i: int| calls[i]@)
}

/// A call as the contract ABI sees it: the tuple of its nine fields in
/// their order.
pub open spec fn call_token(call: EncodedCallView) -> AbiToken {
    AbiToken::Tuple(
        seq![
            AbiToken::Uint(call.salt),
            AbiToken::Uint(call.amount),
            AbiToken::Uint(call.gas),
            AbiToken::Address(call.addr),
            AbiToken::Bytes(call.callvalue),
            AbiToken::Bytes(call.returnvalue),
            AbiToken::Bool(call.skippable),
            AbiToken::Bool(call.verifiable),
            AbiToken::Bool(call.expose_return),
        ],
    )
}

/// The ABI encoding of the one-element tuple that holds the array of the
/// calls.
pub open spec fn abi_call_objects_encoding(calls: Seq<EncodedCallView>) -> Seq<u8> {
    abi_encoding(seq![AbiToken::Array(Seq::new(calls.len(), |i: int| call_token(calls[i])))])
}

/// The recoverable ECDSA signature of a 32-byte digest under a secp256k1
/// key, with the nonce that RFC 6979 derives from both: 65 bytes, or the
/// reason why the key signs nothing.
pub uninterp spec fn signature_of(key: Seq<u8>, digest: Seq<u8>) -> Result<Seq<u8>, Seq<char>>;

/// The number `n` as a word of 32 bytes, most significant byte first.
pub open spec fn be_word(n: nat) -> Seq<u8> {
    Seq::new(32, |i: int| ((n as int / pow(256, (31 - i) as nat)) % 256) as u8)
}

/// As many zero bytes.
pub open spec fn zeros(n: nat) -> Seq<u8> {
    Seq::new(n, |i: int| 0u8)
}

/// The ABI encoding of a nonce, a sender and a byte string, in this order:
/// the nonce, the sender's address filled up to a word, the place of the
/// byte string (behind the three words), then its length and the bytes,
/// filled up with zeros to whole words.
pub open spec fn signed_payload(nonce: nat, sender: Seq<u8>, encoded: Seq<u8>) -> Seq<u8> {
    be_word(nonce) + zeros(12) + sender + be_word(96) + be_word(encoded.len()) + encoded + zeros(
        ((32 - encoded.len() % 32) % 32) as nat,
    )
}

/// The largest number of calls that is signed.
pub const MAX_CALLS: usize = 1000;

/// The longest call value or return value of a call that is signed, in
/// bytes.
pub const MAX_CALL_BYTES: usize = 1_000_000;

/// The longest encoding of call objects that is signed, in bytes.
pub const MAX_SIGNED_BYTES: usize = 0x8000_0000;

/// Whether the calls are few and short enough to be encoded.
pub open spec fn calls_are_small(calls: Seq<EncodedCall>) -> bool {
    &&& calls.len() <= MAX_CALLS
    &&& forall|i: int|
        0 <= i < calls.len() ==> (#[trigger] calls[i]).callvalue@.len() <= MAX_CALL_BYTES
            && calls[i].returnvalue@.len() <= MAX_CALL_BYTES
}

/// Whether the call objects can be signed: they are few and short, and so
/// is their encoding.
pub open spec fn can_be_signed(calls: Seq<EncodedCall>) -> bool {
    calls_are_small(calls) && abi_call_objects_encoding(call_views(calls)).len()
        <= MAX_SIGNED_BYTES
}

/// What a solver signs, and with what result.
pub open spec fn solver_signature_of(
    nonce: Amount,
    sender: Address,
    call_objects: Seq<EncodedCall>,
    wallet: WalletKey,
) -> Result<Seq<u8>, Seq<char>> {
    signature_of(
        wallet.bytes@,
        signing_digest_of(
            signed_payload(
                nonce.value(),
                sender@,
                abi_call_objects_encoding(call_views(call_objects)),
            ),
        ),
    )
}

/// Encodes the call objects of an objective.
///
/// Trusted: calls `ethers_core::abi::encode` on one array token that holds
/// a tuple token for each call, with the nine fields in their order; the
/// result depends on the fields alone. The calls are bounded because the
/// encoder counts the bytes of what it writes in 32 bits: a thousand calls
/// of two million bytes and their few words each stay below that.
#[verifier::external_body]
pub(crate) fn abi_encode_call_objects(calls: &Vec<EncodedCall>) -> (r: Vec<u8>)
    requires
        calls_are_small(calls@),
    ensures
        r@ == abi_call_objects_encoding(call_views(calls@)),
{
    let word = |a: &Amount| Token::Uint(U256([a.w0, a.w1, a.w2, a.w3]));
    let tuple = |c: &EncodedCall| {
        Token::Tuple(vec![
            word(&c.salt), word(&c.amount), word(&c.gas),
            Token::Address(H160(c.addr.bytes)),
            Token::Bytes(c.callvalue.clone()), Token::Bytes(c.returnvalue.clone()),
            Token::Bool(c.skippable), Token::Bool(c.verifiable), Token::Bool(c.expose_return),
        ])
    };
    encode(&[Token::Array(calls.iter().map(tuple).collect())])
}

/// Encodes a nonce, a sender and a byte string.
///
/// Trusted: calls `ethers_core::abi::encode` on a `uint256`, an `address`
/// and a `bytes` token. The encoder writes one word for each of the three
/// (the number; the address behind twelve zero bytes; the offset 96 of the
/// byte string) and then the byte string: its length as a word, and the
/// bytes in words that are filled up with zeros. The byte string is bounded
/// because the encoder counts the bytes of what it writes in 32 bits.
#[verifier::external_body]
pub(crate) fn abi_encode_signed_payload(nonce: Amount, sender: &Address, encoded: &[u8]) -> (r:
    Vec<u8>)
    requires
        encoded@.len() <= MAX_SIGNED_BYTES,
    ensures
        r@ == abi_encoding(
            seq![
                AbiToken::Uint(nonce.value()),
                AbiToken::Address(sender@),
                AbiToken::Bytes(encoded@),
            ],
        ),
        r@ == signed_payload(nonce.value(), sender@, encoded@),
{
    encode(
        &[
            Token::Uint(U256([nonce.w0, nonce.w1, nonce.w2, nonce.w3])),
            Token::Address(H160(sender.bytes)),
            Token::Bytes(encoded.to_vec()),
        ],
    )
}

/// Signs a digest with a wallet's key.
///
/// Trusted: calls `ethers::signers::LocalWallet::from_bytes` and, on the
/// wallet, `sign_hash`, and writes the signature with `Signature::to_vec`.
/// The signature is computed with the nonce of RFC 6979 and so depends on
/// the key and the digest alone; `to_vec` gives the 65 bytes of `r`, `s` and
/// `v`.
#[verifier::external_body]
pub(crate) fn sign_digest(key: &WalletKey, digest: &Hash32) -> (r: Result<Vec<u8>, String>)
    ensures
        match r {
            Ok(signature) => signature_of(key.bytes@, digest@) == Ok::<Seq<u8>, Seq<char>>(
                signature@,
            ) && signature@.len() == 65,
            Err(reason) => signature_of(key.bytes@, digest@) == Err::<Seq<u8>, Seq<char>>(
                reason@,
            ),
        },
{
    match LocalWallet::from_bytes(&key.bytes).and_then(|w| w.sign_hash(H256(digest.bytes))) {
        Ok(signature) => Ok(signature.to_vec()),
        Err(err) => Err(err.to_string()),
    }
}

/// Whether the calls are few and short enough to be encoded.
pub fn calls_small(calls: &Vec<EncodedCall>) -> (r: bool)
    ensures
        r == calls_are_small(calls@),
{
    if calls.len() > MAX_CALLS {
        return false;
    }
    let mut i: usize = 0;
    while i < calls.len()
        invariant
            i <= calls.len(),
            calls.len() <= MAX_CALLS,
            forall|j: int|
                0 <= j < i ==> (#[trigger] calls@[j]).callvalue@.len() <= MAX_CALL_BYTES
                    && calls@[j].returnvalue@.len() <= MAX_CALL_BYTES,
        decreases calls.len() - i,
    {
        if calls[i].callvalue.len() > MAX_CALL_BYTES || calls[i].returnvalue.len()
            > MAX_CALL_BYTES {
            return false;
        }
        i += 1;
    }
    true
}

/// Signs the call objects of a solver's objective: the 65 bytes of the
/// signature, or an execution error where the call objects are too many or
/// too long to be encoded, or where the key signs nothing.
pub fn solver_signature(
    nonce: Amount,
    sender: &Address,
    call_objects: &Vec<EncodedCall>,
    wallet: &WalletKey,
) -> (r: Result<Vec<u8>, SolverError>)
    ensures
        !can_be_signed(call_objects@) ==> (r matches Err(error) && error@ == ErrorView::ExecError(
            "The call objects are too large"@,
        )),
        can_be_signed(call_objects@) ==> (match solver_signature_of(
            nonce,
            *sender,
            call_objects@,
            *wallet,
        ) {
            Ok(signature) => (r matches Ok(bytes) && bytes@ == signature && bytes@.len() == 65),
            Err(reason) => (r matches Err(error) && error@ == ErrorView::ExecError(
                "Failed to sign hash: "@ + reason,
            )),
        }),
{
    if !calls_small(call_objects) {
        return Err(SolverError::ExecError("The call objects are too large".to_owned()));
    }
    let encoded_call_objects = abi_encode_call_objects(call_objects);
    if encoded_call_objects.len() > MAX_SIGNED_BYTES {
        return Err(SolverError::ExecError("The call objects are too large".to_owned()));
    }
    let encoded = abi_encode_signed_payload(nonce, sender, encoded_call_objects.as_slice());
    let digest = signing_digest(encoded.as_slice());
    match sign_digest(wallet, &digest) {
        Ok(signature) => Ok(signature),
        Err(reason) => Err(
            SolverError::ExecError(join_text("Failed to sign hash: ", reason.as_str())),
        ),
    }
}

} // verus!
