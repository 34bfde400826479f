//! Properties that hold of every verification.

use vstd::prelude::*;

use crate::signature::{
    is_hex_digit, is_recognized_recovery_id, message_verifies_as, signature_bytes,
    signature_digits, signature_text_ok, Address, VerificationError,
};

verus! {

/// Two results agree when they name the same address, or fail at the same
/// stage.
pub open spec fn same_verdict(
    a: Result<Address, VerificationError>,
    b: Result<Address, VerificationError>,
) -> bool {
    match (a, b) {
        (Ok(x), Ok(y)) => x.bytes@ == y.bytes@,
        (Err(VerificationError::MalformedSignature(_)), Err(VerificationError::MalformedSignature(_))) => true,
        (Err(VerificationError::RecoveryFailure(_)), Err(VerificationError::RecoveryFailure(_))) => true,
        _ => false,
    }
}

/// Verification is deterministic: any two results of verifying the same
/// message against the same signature text agree, on the address or on the
/// stage that failed.
pub proof fn lemma_verification_deterministic(
    message: Seq<u8>,
    text: Seq<char>,
    r1: Result<Address, VerificationError>,
    r2: Result<Address, VerificationError>,
)
    requires
        message_verifies_as(message, text, r1),
        message_verifies_as(message, text, r2),
    ensures
        same_verdict(r1, r2),
{
}

/// A signature text that holds a character other than a hex digit after its
/// optional `0x`, or that does not hold exactly 130 digits (65 bytes), is
/// rejected as malformed, whatever the message.
pub proof fn lemma_malformed_signature_rejected(
    message: Seq<u8>,
    text: Seq<char>,
    r: Result<Address, VerificationError>,
)
    requires
        signature_digits(text).len() != 130 || exists|i: int|
            0 <= i < signature_digits(text).len() && !is_hex_digit(#[trigger] signature_digits(text)[i]),
        message_verifies_as(message, text, r),
    ensures
        r matches Err(VerificationError::MalformedSignature(_)),
{
    assert(!signature_text_ok(text));
}

/// A signature text that encodes 65 bytes whose last byte, v, is not a
/// recognized recovery id is rejected as malformed, whatever the message.
pub proof fn lemma_unrecognized_recovery_id_rejected(
    message: Seq<u8>,
    text: Seq<char>,
    r: Result<Address, VerificationError>,
)
    requires
        signature_text_ok(text),
        !is_recognized_recovery_id(signature_bytes(text)[64]),
        message_verifies_as(message, text, r),
    ensures
        r matches Err(VerificationError::MalformedSignature(_)),
{
}

/// An empty signature text is rejected as malformed.
pub proof fn lemma_empty_signature_rejected(
    message: Seq<u8>,
    r: Result<Address, VerificationError>,
)
    requires
        message_verifies_as(message, Seq::<char>::empty(), r),
    ensures
        r matches Err(VerificationError::MalformedSignature(_)),
{
    assert(signature_digits(Seq::<char>::empty()).len() == 0);
}

} // verus!
