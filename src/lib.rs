//! Recovery of the account address that signed a message, following the
//! personal-message signing convention of Ethereum.

pub mod message;
pub mod signature;
pub mod laws;

pub use message::{signing_hash, signing_preimage};
pub use signature::{
    parse_signature, recover_address_from_hash, recover_address_from_signature, reply_for_request,
    Address, MalformedCause, Reply, VerificationError,
};
