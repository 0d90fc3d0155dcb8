//! Recoverable ECDSA signatures over secp256k1 in the 65-byte layout used by
//! FISCO BCOS: a 64-byte compact `(r, s)` pair followed by a recovery id byte.
//! Verification recovers the signer's public key and compares it with the one
//! claimed.

pub mod curve;
pub mod model;
pub mod signature;

pub use signature::{matches_recovered_key, WedprSecp256k1Recover};
