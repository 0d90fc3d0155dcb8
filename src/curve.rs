//! The calls into the secp256k1 and rand crates that the signature engine
//! relies on, each with what the crates' sources show of it.
//!
//! Every operation that needs a context runs on the crate's own process-wide
//! context, `secp256k1::SECP256K1`, which is built once, behind a
//! `std::sync::Once`, on first use and only read afterwards.

use rand::rngs::ThreadRng;
use secp256k1::recovery::{RecoverableSignature, RecoveryId};
use secp256k1::{All, Error, Message, PublicKey, Secp256k1, SecretKey, SECP256K1};
use vstd::prelude::*;
use wedpr_l_utils::error::WedprError;

use crate::model::{
    has_nonzero_halves, is_compact_signature, is_secret_key, is_uncompressed_public_key,
    other_parity,
};

verus! {

#[verifier::external_type_specification]
#[verifier::external_body]
pub struct ExSecretKey(SecretKey);

#[verifier::external_type_specification]
#[verifier::external_body]
pub struct ExMessage(Message);

#[verifier::external_type_specification]
#[verifier::external_body]
pub struct ExRecoverableSignature(RecoverableSignature);

#[verifier::external_type_specification]
#[verifier::external_body]
pub struct ExRecoveryId(RecoveryId);

#[verifier::external_type_specification]
#[verifier::external_body]
pub struct ExError(Error);

#[verifier::external_type_specification]
#[verifier::external_body]
pub struct ExThreadRng(ThreadRng);

/// The error kinds of the WeDPR libraries; its variants carry no data.
#[verifier::external_type_specification]
pub struct ExWedprError(WedprError);

/// Relies on `SecretKey::from_slice`: it accepts exactly the 32-byte strings
/// that `secp256k1_ec_seckey_verify` accepts, the big-endian scalars in
/// `[1, n)`.
pub assume_specification[ SecretKey::from_slice ](data: &[u8]) -> (r: Result<SecretKey, Error>)
    ensures
        r is Ok <==> is_secret_key(data@),
;

/// Relies on `Message::from_slice`: it accepts exactly the 32-byte strings.
pub assume_specification[ Message::from_slice ](data: &[u8]) -> (r: Result<Message, Error>)
    ensures
        r is Ok <==> data@.len() == 32,
;

/// Relies on `RecoveryId::from_i32`: it accepts exactly `0..=3`.
pub assume_specification[ RecoveryId::from_i32 ](id: i32) -> (r: Result<RecoveryId, Error>)
    ensures
        r is Ok <==> 0 <= id <= 3,
;

/// Relies on `RecoverableSignature::from_compact`: it accepts exactly the
/// 64-byte strings whose halves `r` and `s` are both below the group order,
/// as `secp256k1_ecdsa_recoverable_signature_parse_compact` checks.
pub assume_specification[ RecoverableSignature::from_compact ](
    data: &[u8],
    recid: RecoveryId,
) -> (r: Result<RecoverableSignature, Error>)
    ensures
        r is Ok <==> is_compact_signature(data@),
;

/// Relies on `rand::thread_rng`: a handle on the thread's cryptographically
/// secure generator.
pub assume_specification[ rand::thread_rng ]() -> ThreadRng;

/// The compact signature and recovery id that RFC 6979 recoverable signing
/// gives for a secret key and a digest.
pub uninterp spec fn recoverable_signature_of(secret_key: Seq<u8>, digest: Seq<u8>) -> (Seq<u8>, u8);

/// The uncompressed public key that recovery gives for a digest and a wire
/// signature, or `None` where no key can be recovered.
pub uninterp spec fn recovered_key_of(digest: Seq<u8>, signature: Seq<u8>) -> Option<Seq<u8>>;

/// The uncompressed public key of a secret key.
pub uninterp spec fn public_key_bytes_of(secret_key: Seq<u8>) -> Seq<u8>;

/// Relies on `Secp256k1::sign_recoverable` (RFC 6979 nonce, low `s`) on the
/// global context and on `RecoverableSignature::serialize_compact`.
/// - Signing cannot fail on a parsed key and digest; the C signer only
///   succeeds with `r` and `s` both nonzero scalars, and emits a recovery id
///   in `0..=3` (`secp256k1_ecdsa_sig_sign`).
/// - Recovery with that id finds the signer's public key: `Secp256k1::recover`
///   determines the key for which the signature is valid.
/// - With the other y-parity the nonce point is negated, so recovery gives a
///   key that differs from the signer's by `-2 s r^-1 R`, never the signer's.
#[verifier::external_body]
pub(crate) fn sign_digest(secret_key: &[u8], digest: &[u8]) -> (r: (Vec<u8>, u8))
    requires
        is_secret_key(secret_key@),
        digest@.len() == 32,
    ensures
        (r.0@, r.1) == recoverable_signature_of(secret_key@, digest@),
        is_compact_signature(r.0@),
        has_nonzero_halves(r.0@),
        r.1 <= 3,
        recovered_key_of(digest@, r.0@.push(r.1)) == Some(public_key_bytes_of(secret_key@)),
        recovered_key_of(digest@, r.0@.push(other_parity(r.1))) != Some(
            public_key_bytes_of(secret_key@),
        ),
{
    let key = SecretKey::from_slice(secret_key).unwrap();
    let msg = Message::from_slice(digest).unwrap();
    let (recid, bytes) = SECP256K1.sign_recoverable(&msg, &key).serialize_compact();
    (bytes.to_vec(), recid.to_i32() as u8)
}

/// Relies on `Secp256k1::recover` on the global context, after parsing with
/// `Message::from_slice`, `RecoveryId::from_i32` and
/// `RecoverableSignature::from_compact`, and on
/// `PublicKey::serialize_uncompressed`. A zero `r` or `s` is refused by
/// `secp256k1_ecdsa_sig_recover`. A recovered key is a valid point, which
/// `secp256k1_ec_pubkey_serialize` writes after the marker `0x04`.
#[verifier::external_body]
pub(crate) fn recover_key(digest: &[u8], signature: &[u8]) -> (r: Option<Vec<u8>>)
    requires
        signature@.len() == 65,
    ensures
        recovered_key_of(digest@, signature@) == (match r {
            Some(v) => Some(v@),
            None => None::<Seq<u8>>,
        }),
        !has_nonzero_halves(signature@.subrange(0, 64)) ==> r is None,
        r is Some ==> is_uncompressed_public_key(r->Some_0@),
{
    let msg = Message::from_slice(digest).ok()?;
    let recid = RecoveryId::from_i32(signature[64] as i32).ok()?;
    let sig = RecoverableSignature::from_compact(&signature[..64], recid).ok()?;
    let key = SECP256K1.recover(&msg, &sig).ok()?;
    Some(key.serialize_uncompressed().to_vec())
}

/// Relies on `Secp256k1::generate_keypair` on the global context: a secret
/// key from `SecretKey::new`, which draws again until
/// `secp256k1_ec_seckey_verify` accepts, and its public key, serialised by
/// `PublicKey::serialize_uncompressed`.
#[verifier::external_body]
pub(crate) fn draw_keypair(rng: &mut ThreadRng) -> (r: (Vec<u8>, Vec<u8>))
    ensures
        is_secret_key(r.0@),
        r.1@ == public_key_bytes_of(r.0@),
        is_uncompressed_public_key(r.1@),
{
    let (secret_key, public_key) = SECP256K1.generate_keypair(rng);
    (secret_key.as_ref().to_vec(), public_key.serialize_uncompressed().to_vec())
}

/// Relies on `PublicKey::from_secret_key` on the global context, after
/// `SecretKey::from_slice`, and on `PublicKey::serialize_uncompressed`.
#[verifier::external_body]
pub(crate) fn derive_public_key(secret_key: &[u8]) -> (r: Vec<u8>)
    requires
        is_secret_key(secret_key@),
    ensures
        r@ == public_key_bytes_of(secret_key@),
        is_uncompressed_public_key(r@),
{
    let key = SecretKey::from_slice(secret_key).unwrap();
    let context: &Secp256k1<All> = &SECP256K1;
    PublicKey::from_secret_key(context, &key).serialize_uncompressed().to_vec()
}

} // verus!
