//! The signature engine: key generation, signing, recovery of the public key
//! from a signature, and verification by recovery.

use secp256k1::recovery::{RecoverableSignature, RecoveryId};
use secp256k1::{Message, SecretKey};
use vstd::prelude::*;
use vstd::slice::slice_subrange;
use wedpr_l_utils::error::WedprError;

use crate::curve::{
    derive_public_key, draw_keypair, public_key_bytes_of, recover_key, sign_digest,
};
use crate::model::{
    compact_part, has_malformed_shape, has_nonzero_halves, is_compact_signature, is_digest,
    is_secret_key, is_strong_secret_key, is_uncompressed_public_key, is_wire_signature,
    lemma_high_first_byte_is_secret_key, other_parity, outcome_view, recovery_outcome,
    sign_accepts, wire_signature_of, with_other_parity, COMPACT_SIGNATURE_LENGTH,
    RECOVERY_ID_INDEX, SIGNATURE_LENGTH, WEAK_KEY_FIRST_BYTE_MAX,
};

verus! {

/// How many key pairs key generation draws before it stops drawing. A draw is
/// weak with probability 1/16, so the bound is never met in practice; it only
/// makes the loop finite.
pub const MAX_KEY_DRAWS: u64 = 0xffff_ffff_ffff_ffff;

/// FISCO-BCOS-compatible secp256k1 signatures with public key recovery.
#[derive(Default, Debug, Clone, Copy)]
pub struct WedprSecp256k1Recover {}

/// Whether two byte strings are equal.
fn bytes_equal(a: &[u8], b: &[u8]) -> (r: bool)
    ensures
        r == (a@ == b@),
{
    if a.len() != b.len() {
        return false;
    }
    let mut i: usize = 0;
    while i < a.len()
        invariant
            a@.len() == b@.len(),
            i <= a@.len(),
            forall|j: int| 0 <= j < i ==> a@[j] == b@[j],
        decreases a@.len() - i,
    {
        if a[i] != b[i] {
            return false;
        }
        i = i + 1;
    }
    assert(a@ =~= b@);
    true
}

/// Whether the outcome of a public key recovery is exactly `public_key`:
/// every error counts as a mismatch.
pub fn matches_recovered_key(recovered: &Result<Vec<u8>, WedprError>, public_key: &[u8]) -> (r:
    bool)
    ensures
        r == (recovered is Ok && recovered->Ok_0@ == public_key@),
{
    match recovered {
        Ok(key) => bytes_equal(key.as_slice(), public_key),
        Err(_) => false,
    }
}

impl WedprSecp256k1Recover {
    /// Signs the 32-byte digest `msg_hash` with `private_key`. The signature is
    /// the 64-byte compact `(r, s)` followed by the recovery id byte; recovery
    /// from it gives the public key of `private_key`.
    pub fn sign(&self, private_key: &[u8], msg_hash: &[u8]) -> (r: Result<Vec<u8>, WedprError>)
        ensures
            r is Ok <==> sign_accepts(private_key@, msg_hash@),
            r is Err ==> r->Err_0 == WedprError::FormatError,
            r is Ok ==> r->Ok_0@ == wire_signature_of(private_key@, msg_hash@),
            r is Ok ==> is_wire_signature(r->Ok_0@),
            r is Ok ==> is_compact_signature(compact_part(r->Ok_0@)),
            r is Ok ==> has_nonzero_halves(compact_part(r->Ok_0@)),
            r is Ok ==> recovery_outcome(msg_hash@, r->Ok_0@) == Ok::<Seq<u8>, WedprError>(
                public_key_bytes_of(private_key@),
            ),
            r is Ok ==> recovery_outcome(msg_hash@, with_other_parity(r->Ok_0@)) != Ok::<
                Seq<u8>,
                WedprError,
            >(public_key_bytes_of(private_key@)),
    {
        if SecretKey::from_slice(private_key).is_err() {
            return Err(WedprError::FormatError);
        }
        if Message::from_slice(msg_hash).is_err() {
            return Err(WedprError::FormatError);
        }
        let (signature_bytes, recid) = sign_digest(private_key, msg_hash);
        let ghost compact = signature_bytes@;
        let mut signature_output = signature_bytes;
        // The signature data contains two parts:
        // sig[0..64): signature for the message hash.
        // sig[64]: recovery id.
        signature_output.push(recid);
        proof {
            assert(compact_part(signature_output@) =~= compact);
            assert(with_other_parity(signature_output@) =~= compact.push(other_parity(recid)));
            assert(compact_part(with_other_parity(signature_output@)) =~= compact);
        }
        Ok(signature_output)
    }

    /// Recovers the uncompressed public key that signed `msg_hash` with the
    /// 65-byte `signature`. A malformed shape gives `DecodeError`; a compact
    /// signature that does not parse, or from which no key can be recovered,
    /// gives `FormatError`.
    pub fn recover_public_key(self, msg_hash: &[u8], signature: &[u8]) -> (r: Result<
        Vec<u8>,
        WedprError,
    >)
        ensures
            outcome_view(r) == recovery_outcome(msg_hash@, signature@),
            !has_malformed_shape(msg_hash@, signature@) && !has_nonzero_halves(
                compact_part(signature@),
            ) ==> r == Err::<Vec<u8>, WedprError>(WedprError::FormatError),
            r is Ok ==> is_uncompressed_public_key(r->Ok_0@),
    {
        if Message::from_slice(msg_hash).is_err() {
            return Err(WedprError::DecodeError);
        }
        if signature.len() != SIGNATURE_LENGTH {
            return Err(WedprError::DecodeError);
        }
        let rec_id = match RecoveryId::from_i32(signature[RECOVERY_ID_INDEX] as i32) {
            Ok(v) => v,
            Err(_) => return Err(WedprError::DecodeError),
        };
        // The last byte is the recovery id; the first 64 bytes are the
        // compact signature.
        let signature_byte = slice_subrange(signature, 0, COMPACT_SIGNATURE_LENGTH);
        if RecoverableSignature::from_compact(signature_byte, rec_id).is_err() {
            return Err(WedprError::FormatError);
        }
        match recover_key(msg_hash, signature) {
            Some(key) => Ok(key),
            None => Err(WedprError::FormatError),
        }
    }

    /// Whether `signature` signs `msg_hash` under `public_key`: recovery must
    /// succeed and give `public_key` byte for byte. Every failure of recovery
    /// gives `false`.
    pub fn verify(&self, public_key: &[u8], msg_hash: &[u8], signature: &[u8]) -> (r: bool)
        ensures
            r == (recovery_outcome(msg_hash@, signature@) == Ok::<Seq<u8>, WedprError>(
                public_key@,
            )),
    {
        let recovered = self.recover_public_key(msg_hash, signature);
        matches_recovered_key(&recovered, public_key)
    }

    /// Generates a key pair `(public key, secret key)`: the secret key as 32
    /// bytes whose first byte is above the weak-key threshold, and its public
    /// key in uncompressed form. Draws whose secret key is weak are discarded
    /// and drawn afresh, up to `MAX_KEY_DRAWS` draws. Should every one of them
    /// be weak, the last secret key gets `0x80` added to its first byte, which
    /// keeps it a valid scalar, and its public key is derived again.
    pub fn generate_keypair(&self) -> (r: (Vec<u8>, Vec<u8>))
        ensures
            is_strong_secret_key(r.1@),
            r.0@ == public_key_bytes_of(r.1@),
            is_uncompressed_public_key(r.0@),
    {
        let mut rng = rand::thread_rng();
        let (mut secret_key, mut public_key) = draw_keypair(&mut rng);
        let mut draws: u64 = 1;
        while secret_key[0] <= WEAK_KEY_FIRST_BYTE_MAX && draws < MAX_KEY_DRAWS
            invariant
                is_secret_key(secret_key@),
                public_key@ == public_key_bytes_of(secret_key@),
                is_uncompressed_public_key(public_key@),
                1 <= draws <= MAX_KEY_DRAWS,
            decreases MAX_KEY_DRAWS - draws,
        {
            let (next_secret_key, next_public_key) = draw_keypair(&mut rng);
            secret_key = next_secret_key;
            public_key = next_public_key;
            draws = draws + 1;
        }
        if secret_key[0] > WEAK_KEY_FIRST_BYTE_MAX {
            return (public_key, secret_key);
        }
        let lifted = secret_key[0] + 0x80;
        secret_key.set(0, lifted);
        proof {
            lemma_high_first_byte_is_secret_key(secret_key@);
        }
        (derive_public_key(secret_key.as_slice()), secret_key)
    }
}

/// Every secret key that key generation hands out is accepted by signing
/// together with any 32-byte digest: `sign` returns `Ok` exactly on
/// `sign_accepts`.
pub proof fn lemma_generated_key_signs(secret_key: Seq<u8>, digest: Seq<u8>)
    requires
        is_strong_secret_key(secret_key),
        is_digest(digest),
    ensures
        sign_accepts(secret_key, digest),
{
}

/// Recovery fails with `DecodeError` on every signature whose length is not
/// 65, whatever the digest.
pub proof fn lemma_wrong_length_is_decode_error(digest: Seq<u8>, signature: Seq<u8>)
    requires
        signature.len() != SIGNATURE_LENGTH,
    ensures
        recovery_outcome(digest, signature) == Err::<Seq<u8>, WedprError>(WedprError::DecodeError),
{
}

/// A signature that recovers to one public key does not verify under any
/// other: signing with one key of two distinct key pairs and verifying with
/// the other's public key gives `false`.
pub proof fn lemma_other_key_rejected(
    digest: Seq<u8>,
    signature: Seq<u8>,
    signer_key: Seq<u8>,
    other_key: Seq<u8>,
)
    requires
        recovery_outcome(digest, signature) == Ok::<Seq<u8>, WedprError>(signer_key),
        signer_key != other_key,
    ensures
        recovery_outcome(digest, signature) != Ok::<Seq<u8>, WedprError>(other_key),
{
}

} // verus!
