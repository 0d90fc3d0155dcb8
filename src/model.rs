//! The byte-level model of keys, digests and signatures: what a well-formed
//! value of each looks like, stated over `Seq<u8>`.

use vstd::prelude::*;
use wedpr_l_utils::error::WedprError;

use crate::curve::{public_key_bytes_of, recoverable_signature_of, recovered_key_of};

verus! {

/// Length of a message digest.
pub const DIGEST_LENGTH: usize = 32;

/// Length of a secret key.
pub const SECRET_KEY_LENGTH: usize = 32;

/// Length of an uncompressed public key: a form marker, then X and Y.
pub const PUBLIC_KEY_LENGTH: usize = 65;

/// Length of a compact `(r, s)` signature.
pub const COMPACT_SIGNATURE_LENGTH: usize = 64;

/// Length of a signature on the wire: the compact signature, then the
/// recovery id.
pub const SIGNATURE_LENGTH: usize = 65;

/// Position of the recovery id in a wire signature.
pub const RECOVERY_ID_INDEX: usize = 64;

/// Largest recovery id that the curve library accepts.
pub const MAX_RECOVERY_ID: u8 = 3;

/// Form marker of an uncompressed public key.
pub const UNCOMPRESSED_MARKER: u8 = 4;

/// Largest first byte of a secret key that key generation treats as weak.
pub const WEAK_KEY_FIRST_BYTE_MAX: u8 = 15;

/// `256` to the power `k`.
pub open spec fn pow256(k: nat) -> nat
    decreases k,
{
    if k == 0 {
        1
    } else {
        256 * pow256((k - 1) as nat)
    }
}

/// The unsigned integer that `s` encodes, most significant byte first.
pub open spec fn be_value(s: Seq<u8>) -> nat
    decreases s.len(),
{
    if s.len() == 0 {
        0
    } else {
        s[0] as nat * pow256((s.len() - 1) as nat) + be_value(s.drop_first())
    }
}

/// The order `n` of the secp256k1 group, written as four 64-bit limbs,
/// most significant first.
pub open spec fn curve_order() -> nat {
    0xFFFF_FFFF_FFFF_FFFF * pow256(24) + 0xFFFF_FFFF_FFFF_FFFE * pow256(16)
        + 0xBAAE_DCE6_AF48_A03B * pow256(8) + 0xBFD2_5E8C_D036_4141
}

/// The prime `p = 2^256 - 2^32 - 977` of the field that secp256k1 is
/// defined over.
pub open spec fn field_prime() -> nat {
    (pow256(32) - 0x1_0000_03D1) as nat
}

/// Whether `(x, y)` lies on `y^2 = x^3 + 7` over the field of `p` elements.
pub open spec fn is_curve_point(x: nat, y: nat) -> bool {
    &&& x < field_prime()
    &&& y < field_prime()
    &&& (y * y) % field_prime() == (x * x * x + 7) % field_prime()
}

/// A 32-byte secret key: a scalar in `[1, n)`, big-endian.
pub open spec fn is_secret_key(s: Seq<u8>) -> bool {
    &&& s.len() == SECRET_KEY_LENGTH
    &&& 0 < be_value(s)
    &&& be_value(s) < curve_order()
}

/// A message digest: any 32 bytes.
pub open spec fn is_digest(s: Seq<u8>) -> bool {
    s.len() == DIGEST_LENGTH
}

/// A compact signature: `r` and `s` as 32 big-endian bytes each, both below `n`.
pub open spec fn is_compact_signature(s: Seq<u8>) -> bool {
    &&& s.len() == COMPACT_SIGNATURE_LENGTH
    &&& be_value(s.subrange(0, 32)) < curve_order()
    &&& be_value(s.subrange(32, 64)) < curve_order()
}

/// Both halves `r` and `s` of a compact signature are nonzero.
pub open spec fn has_nonzero_halves(s: Seq<u8>) -> bool {
    be_value(s.subrange(0, 32)) > 0 && be_value(s.subrange(32, 64)) > 0
}

/// An uncompressed public key as the curve library serialises it: the
/// uncompressed form marker, then the big-endian X and Y of a curve point.
pub open spec fn is_uncompressed_public_key(s: Seq<u8>) -> bool {
    &&& s.len() == PUBLIC_KEY_LENGTH
    &&& s[0] == UNCOMPRESSED_MARKER
    &&& is_curve_point(be_value(s.subrange(1, 33)), be_value(s.subrange(33, 65)))
}

/// The compact part of a wire signature.
pub open spec fn compact_part(sig: Seq<u8>) -> Seq<u8> {
    sig.subrange(0, COMPACT_SIGNATURE_LENGTH as int)
}

/// Whether recovery rejects `(digest, sig)` for its shape: a digest of the
/// wrong length, a signature of the wrong length, or a recovery id out of
/// range.
pub open spec fn has_malformed_shape(digest: Seq<u8>, sig: Seq<u8>) -> bool {
    ||| !is_digest(digest)
    ||| sig.len() != SIGNATURE_LENGTH
    ||| sig[RECOVERY_ID_INDEX as int] > MAX_RECOVERY_ID
}

/// What signing emits: 65 bytes whose last is a recovery id in range.
pub open spec fn is_wire_signature(sig: Seq<u8>) -> bool {
    sig.len() == SIGNATURE_LENGTH && sig[RECOVERY_ID_INDEX as int] <= MAX_RECOVERY_ID
}

/// The recovery id of the other y-parity: bit 0 flipped.
pub open spec fn other_parity(id: u8) -> u8 {
    if id % 2 == 0 {
        (id + 1) as u8
    } else {
        (id - 1) as u8
    }
}

/// `sig` with its recovery id switched to the other y-parity.
pub open spec fn with_other_parity(sig: Seq<u8>) -> Seq<u8> {
    sig.update(RECOVERY_ID_INDEX as int, other_parity(sig[RECOVERY_ID_INDEX as int]))
}

/// The inputs that signing accepts: a valid secret key and a 32-byte digest.
pub open spec fn sign_accepts(secret_key: Seq<u8>, digest: Seq<u8>) -> bool {
    is_secret_key(secret_key) && is_digest(digest)
}

/// The wire signature of `digest` under `secret_key`: the compact signature
/// followed by the recovery id.
pub open spec fn wire_signature_of(secret_key: Seq<u8>, digest: Seq<u8>) -> Seq<u8> {
    recoverable_signature_of(secret_key, digest).0.push(recoverable_signature_of(secret_key, digest).1)
}

/// What recovering a public key from `(digest, sig)` gives: `DecodeError` for
/// a malformed shape, `FormatError` for a compact part that does not parse or
/// from which no key can be recovered, and otherwise the recovered key.
pub open spec fn recovery_outcome(digest: Seq<u8>, sig: Seq<u8>) -> Result<Seq<u8>, WedprError> {
    if has_malformed_shape(digest, sig) {
        Err(WedprError::DecodeError)
    } else if !is_compact_signature(compact_part(sig)) {
        Err(WedprError::FormatError)
    } else {
        match recovered_key_of(digest, sig) {
            Some(key) => Ok(key),
            None => Err(WedprError::FormatError),
        }
    }
}

/// A result with its bytes viewed as a sequence.
pub open spec fn outcome_view(r: Result<Vec<u8>, WedprError>) -> Result<Seq<u8>, WedprError> {
    match r {
        Ok(v) => Ok(v@),
        Err(e) => Err(e),
    }
}

/// A secret key that key generation may hand out: valid, and not weak.
pub open spec fn is_strong_secret_key(s: Seq<u8>) -> bool {
    is_secret_key(s) && s[0] > WEAK_KEY_FIRST_BYTE_MAX
}

/// A byte string is below `256` to the power of its length.
pub proof fn lemma_be_value_bound(s: Seq<u8>)
    ensures
        be_value(s) < pow256(s.len()),
    decreases s.len(),
{
    if s.len() > 0 {
        let p = pow256((s.len() - 1) as nat);
        let b = s[0] as nat;
        let rest = be_value(s.drop_first());
        lemma_be_value_bound(s.drop_first());
        assert(b * p + rest < 256 * p) by (nonlinear_arith)
            requires
                b < 256,
                rest < p,
        ;
    }
}

/// A 32-byte string whose first byte lies in `[0x80, 0x8f]` is a secret key.
pub proof fn lemma_high_first_byte_is_secret_key(s: Seq<u8>)
    requires
        s.len() == SECRET_KEY_LENGTH,
        0x80 <= s[0] <= 0x8f,
    ensures
        is_secret_key(s),
{
    let p = pow256(31);
    let b = s[0] as nat;
    let rest = be_value(s.drop_first());
    lemma_be_value_bound(s.drop_first());
    assert(0 < p && 0x90 * p < curve_order()) by {
        reveal_with_fuel(pow256, 32);
    }
    assert(0x80 * p <= b * p + rest < 0x90 * p) by (nonlinear_arith)
        requires
            0x80 <= b <= 0x8f,
            rest < p,
    ;
}

} // verus!
