//! Construction of the byte sequence that a signer hashes and signs.

use vstd::prelude::*;

verus! {

/// The ASCII decimal digits of `n`, most significant first.
pub open spec fn decimal(n: nat) -> Seq<u8>
    decreases n,
{
    if n < 10 {
        seq![(48 + n) as u8]
    } else {
        decimal(n / 10).push((48 + n % 10) as u8)
    }
}

/// The items of a byte list as written between its brackets: each byte in
/// decimal, separated by a comma and a space.
pub open spec fn list_items(b: Seq<u8>) -> Seq<u8>
    decreases b.len(),
{
    if b.len() == 0 {
        seq![]
    } else if b.len() == 1 {
        decimal(b[0] as nat)
    } else {
        list_items(b.drop_last()) + seq![44u8, 32u8] + decimal(b.last() as nat)
    }
}

/// A byte list as text: `[104, 105]` for the bytes 104 and 105, `[]` when empty.
pub open spec fn byte_list_text(b: Seq<u8>) -> Seq<u8> {
    seq![91u8] + list_items(b) + seq![93u8]
}

/// The fixed head of every preimage: byte 0x19, then the ASCII text
/// `Ethereum Signed Message:` and a line feed.
pub open spec fn message_prefix() -> Seq<u8> {
    seq![
        0x19u8, 69u8, 116u8, 104u8, 101u8, 114u8, 101u8, 117u8, 109u8, 32u8,
        83u8, 105u8, 103u8, 110u8, 101u8, 100u8, 32u8, 77u8, 101u8, 115u8,
        115u8, 97u8, 103u8, 101u8, 58u8, 10u8,
    ]
}

/// What is hashed for a message: the prefix, the message's length in decimal,
/// and the message written as a byte list (its text form, not its raw bytes).
pub open spec fn signing_preimage_spec(message: Seq<u8>) -> Seq<u8> {
    message_prefix() + decimal(message.len()) + byte_list_text(message)
}

/// The Keccak-256 digest of `data`.
pub uninterp spec fn keccak256_of(data: Seq<u8>) -> Seq<u8>;

/// Relies on ethers::utils::keccak256: the Keccak-256 digest of the bytes,
/// which depends on those bytes alone.
#[verifier::external_body]
fn keccak256(data: &Vec<u8>) -> (r: [u8; 32])
    ensures
        r@ == keccak256_of(data@),
{
    ethers::utils::keccak256(data.as_slice())
}

fn push_decimal(out: &mut Vec<u8>, n: usize)
    ensures
        final(out)@ == old(out)@ + decimal(n as nat),
    decreases n,
{
    if n >= 10 {
        push_decimal(out, n / 10);
    }
    out.push((48 + n % 10) as u8);
    proof {
        assert(final(out)@ =~= old(out)@ + decimal(n as nat));
    }
}

/// The exact byte sequence whose hash a signer of `message` signs.
pub fn signing_preimage(message: &[u8]) -> (r: Vec<u8>)
    ensures
        r@ == signing_preimage_spec(message@),
{
    let mut out: Vec<u8> = vec![
        0x19u8, 69u8, 116u8, 104u8, 101u8, 114u8, 101u8, 117u8, 109u8, 32u8,
        83u8, 105u8, 103u8, 110u8, 101u8, 100u8, 32u8, 77u8, 101u8, 115u8,
        115u8, 97u8, 103u8, 101u8, 58u8, 10u8,
    ];
    assert(out@ =~= message_prefix());
    push_decimal(&mut out, message.len());
    out.push(91u8);
    let ghost head = message_prefix() + decimal(message@.len()) + seq![91u8];
    assert(out@ =~= head + list_items(message@.subrange(0, 0)));
    let mut i: usize = 0;
    while i < message.len()
        invariant
            i <= message@.len(),
            out@ == head + list_items(message@.subrange(0, i as int)),
        decreases message@.len() - i,
    {
        if i > 0 {
            out.push(44u8);
            out.push(32u8);
        }
        push_decimal(&mut out, message[i] as usize);
        proof {
            let s = message@.subrange(0, i + 1);
            assert(s.drop_last() =~= message@.subrange(0, i as int));
            assert(s.last() == message@[i as int]);
            if i == 0 {
                assert(list_items(message@.subrange(0, 0)) =~= seq![]);
            }
            assert(out@ =~= head + list_items(s));
        }
        i = i + 1;
    }
    out.push(93u8);
    assert(message@.subrange(0, message@.len() as int) =~= message@);
    assert(out@ =~= signing_preimage_spec(message@));
    out
}

/// The digest that a signer of `message` signs: Keccak-256 of the preimage.
/// Defined for every message, the empty one included.
pub fn signing_hash(message: &[u8]) -> (r: [u8; 32])
    ensures
        r@ == keccak256_of(signing_preimage_spec(message@)),
{
    let preimage = signing_preimage(message);
    keccak256(&preimage)
}

} // verus!
