//! Parsing of textual signatures, recovery of the signer's address, and the
//! verification entry point that composes them with the signing hash.

use ethers::types::{Signature, SignatureError, H256, U256};
use vstd::prelude::*;

use crate::message::{keccak256_of, signing_hash, signing_preimage_spec};

verus! {

#[verifier::external_type_specification]
#[verifier::external_body]
pub struct ExSignatureError(SignatureError);

/// A 20-byte account identifier derived from a public key.
#[derive(Clone, Copy, Debug, PartialEq, Eq)]
pub struct Address {
    pub bytes: [u8; 20],
}

/// Why a signature text could not be read as r, s and v.
#[derive(Debug)]
pub enum MalformedCause {
    /// The text is not the hex encoding of 65 bytes.
    Decoding(SignatureError),
    /// The last byte, v, is not a recognized recovery id.
    UnrecognizedRecoveryId(u8),
}

/// Why no address could be recovered, by the stage that failed, with the
/// underlying cause.
#[derive(Debug)]
pub enum VerificationError {
    /// The signature text is not the hex encoding of 65 bytes, or its v byte
    /// is not a recognized recovery id.
    MalformedSignature(MalformedCause),
    /// The signature was decoded, but no public key can be recovered from it
    /// and the hash.
    RecoveryFailure(SignatureError),
}

pub open spec fn is_hex_digit(c: char) -> bool {
    ('0' <= c && c <= '9') || ('a' <= c && c <= 'f') || ('A' <= c && c <= 'F')
}

pub open spec fn hex_value(c: char) -> nat {
    if '0' <= c && c <= '9' {
        (c as nat - '0' as nat) as nat
    } else if 'a' <= c && c <= 'f' {
        (c as nat - 'a' as nat + 10) as nat
    } else {
        (c as nat - 'A' as nat + 10) as nat
    }
}

/// The digits of a signature text: the text without a leading `0x` or `0X`.
pub open spec fn signature_digits(text: Seq<char>) -> Seq<char> {
    if text.len() >= 2 && text[0] == '0' && (text[1] == 'x' || text[1] == 'X') {
        text.subrange(2, text.len() as int)
    } else {
        text
    }
}

/// A signature text is well formed when its digits are 130 hex digits, the
/// encoding of r, s and v (32, 32 and 1 bytes).
pub open spec fn signature_text_ok(text: Seq<char>) -> bool {
    let d = signature_digits(text);
    d.len() == 130 && forall|i: int| 0 <= i < d.len() ==> is_hex_digit(#[trigger] d[i])
}

/// The bytes that hex digits encode, two digits to a byte, high digit first.
pub open spec fn decode_hex(d: Seq<char>) -> Seq<u8> {
    Seq::new(d.len() / 2, |i: int| (16 * hex_value(d[2 * i]) + hex_value(d[2 * i + 1])) as u8)
}

/// The 65 bytes that a well-formed signature text encodes.
pub open spec fn signature_bytes(text: Seq<char>) -> Seq<u8> {
    decode_hex(signature_digits(text))
}

/// The recovery ids that a signature's v byte may hold: 0 and 1 bare, 27 and
/// 28 in the legacy form, 35 and above with a chain id folded in.
pub open spec fn is_recognized_recovery_id(v: u8) -> bool {
    v == 0 || v == 1 || v == 27 || v == 28 || v >= 35
}

/// A signature text is accepted when it encodes 65 bytes whose v byte is a
/// recognized recovery id.
pub open spec fn signature_ok(text: Seq<char>) -> bool {
    signature_text_ok(text) && is_recognized_recovery_id(signature_bytes(text)[64])
}

/// The address recovered from a 32-byte hash and a 65-byte signature
/// (r, s, v), or `None` when recovery fails.
pub uninterp spec fn recovered_address(hash: Seq<u8>, sig: Seq<u8>) -> Option<Seq<u8>>;

/// What verifying a signature text against a hash must give: a malformed
/// text is rejected at parsing; otherwise the recovered address, or a
/// recovery failure.
pub open spec fn verifies_as(
    hash: Seq<u8>,
    text: Seq<char>,
    r: Result<Address, VerificationError>,
) -> bool {
    if !signature_ok(text) {
        r matches Err(VerificationError::MalformedSignature(_))
    } else {
        match recovered_address(hash, signature_bytes(text)) {
            Some(a) => (r matches Ok(addr) && addr.bytes@ == a),
            None => r matches Err(VerificationError::RecoveryFailure(_)),
        }
    }
}

/// What verifying a signature text against a message must give.
pub open spec fn message_verifies_as(
    message: Seq<u8>,
    text: Seq<char>,
    r: Result<Address, VerificationError>,
) -> bool {
    verifies_as(keccak256_of(signing_preimage_spec(message)), text, r)
}

impl VerificationError {
    /// The stage that failed, as a short description.
    pub fn context(&self) -> (r: &'static str)
        ensures
            self is MalformedSignature ==> r@ == "Failed to parse signature"@,
            self is RecoveryFailure ==> r@ == "Failed to recover address"@,
    {
        match self {
            VerificationError::MalformedSignature(_) => "Failed to parse signature",
            VerificationError::RecoveryFailure(_) => "Failed to recover address",
        }
    }
}

/// Relies on `Signature::from_str` of ethers: after an optional `0x` or `0X`
/// the text must hex-decode (either case) to exactly 65 bytes, read as r, s
/// and v; converting back to 65 bytes gives those bytes.
#[verifier::external_body]
fn parse_signature_text(text: &str) -> (r: Result<[u8; 65], SignatureError>)
    ensures
        match r {
            Ok(b) => signature_text_ok(text@) && b@ == signature_bytes(text@),
            Err(_) => !signature_text_ok(text@),
        },
{
    match <Signature as std::str::FromStr>::from_str(text) {
        Ok(s) => Ok(<[u8; 65]>::from(&s)),
        Err(e) => Err(e),
    }
}

/// Relies on `Signature::recover` of ethers, given a hash: elliptic-curve
/// public-key recovery, a function of the hash and the signature alone.
#[verifier::external_body]
fn recover_signer(hash: &[u8; 32], sig: &[u8; 65]) -> (r: Result<[u8; 20], SignatureError>)
    ensures
        match r {
            Ok(a) => recovered_address(hash@, sig@) == Some(a@),
            Err(_) => recovered_address(hash@, sig@) is None,
        },
{
    let signature = Signature {
        r: U256::from_big_endian(&sig[0..32]),
        s: U256::from_big_endian(&sig[32..64]),
        v: sig[64] as u64,
    };
    signature.recover(H256(*hash)).map(|a| a.0)
}

/// Decodes a signature text into its 65 bytes (r, s, v), and checks that v is
/// a recognized recovery id.
pub fn parse_signature(text: &str) -> (r: Result<[u8; 65], VerificationError>)
    ensures
        match r {
            Ok(b) => signature_ok(text@) && b@ == signature_bytes(text@),
            Err(e) => !signature_ok(text@) && e is MalformedSignature,
        },
{
    match parse_signature_text(text) {
        Ok(b) => {
            let v = b[64];
            if v == 0 || v == 1 || v == 27 || v == 28 || v >= 35 {
                Ok(b)
            } else {
                Err(VerificationError::MalformedSignature(MalformedCause::UnrecognizedRecoveryId(v)))
            }
        },
        Err(e) => Err(VerificationError::MalformedSignature(MalformedCause::Decoding(e))),
    }
}

/// Recovers the address that signed `hash` from a signature text.
pub fn recover_address_from_hash(hash: &[u8; 32], signature: &str) -> (r: Result<
    Address,
    VerificationError,
>)
    ensures
        verifies_as(hash@, signature@, r),
{
    let sig = match parse_signature(signature) {
        Ok(b) => b,
        Err(e) => return Err(e),
    };
    match recover_signer(hash, &sig) {
        Ok(bytes) => Ok(Address { bytes }),
        Err(e) => Err(VerificationError::RecoveryFailure(e)),
    }
}

/// Recovers the address that signed `message`, given the signature as text.
/// The message is hashed as the signing convention asks; the signature text
/// is parsed, then the public key is recovered and turned into an address.
pub fn recover_address_from_signature(message: &[u8], signature: &str) -> (r: Result<
    Address,
    VerificationError,
>)
    ensures
        message_verifies_as(message@, signature@, r),
{
    let hash = signing_hash(message);
    recover_address_from_hash(&hash, signature)
}

/// What a request is answered with.
#[derive(Debug)]
pub enum Reply {
    /// The request carries no signature header; nothing was verified.
    MissingHeader,
    /// The body was signed by this address.
    Signed(Address),
    /// No address could be recovered.
    Failed(VerificationError),
}

/// Decides the answer to a request from its signature header, if it has one,
/// and its body: without a header nothing is verified; otherwise the body is
/// verified against the header's text.
pub fn reply_for_request(signature_header: Option<&str>, body: &[u8]) -> (r: Reply)
    ensures
        match signature_header {
            None => r is MissingHeader,
            Some(text) => match r {
                Reply::Signed(a) => message_verifies_as(body@, text@, Ok(a)),
                Reply::Failed(e) => message_verifies_as(body@, text@, Err(e)),
                Reply::MissingHeader => false,
            },
        },
{
    match signature_header {
        None => Reply::MissingHeader,
        Some(text) => match recover_address_from_signature(body, text) {
            Ok(a) => Reply::Signed(a),
            Err(e) => Reply::Failed(e),
        },
    }
}

} // verus!
