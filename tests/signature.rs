use wedpr_l_crypto_signature_secp256k1::{matches_recovered_key, WedprSecp256k1Recover};
use wedpr_l_utils::constant::tests::{
    BASE64_ENCODED_TEST_MESSAGE, SECP256K1_TEST_PUBLIC_KEY, SECP256K1_TEST_SECRET_KEY,
};
use wedpr_l_utils::error::WedprError;

#[test]
fn test_secp256k1_recover() {
    let secp256k1 = WedprSecp256k1Recover::default();
    let (public_key, secret_key) = secp256k1.generate_keypair();

    // The message hash (NOT the original message) is required for
    // generating a valid signature.
    let msg_hash = BASE64_ENCODED_TEST_MESSAGE;

    let signature = secp256k1.sign(&secret_key, &msg_hash.to_vec()).unwrap();
    assert_eq!(
        true,
        secp256k1.verify(&public_key.to_vec(), &msg_hash.to_vec(), &signature)
    );
}

fn digest_of(seed: u8) -> Vec<u8> {
    (0..32u8).map(|i| i.wrapping_mul(37).wrapping_add(seed)).collect()
}

#[test]
fn round_trip_verifies_for_several_digests() {
    let engine = WedprSecp256k1Recover::default();
    for seed in 0..20u8 {
        let (public_key, secret_key) = engine.generate_keypair();
        let digest = digest_of(seed);
        let signature = engine.sign(&secret_key, &digest).unwrap();
        assert!(engine.verify(&public_key, &digest, &signature));
    }
}

#[test]
fn recovery_returns_the_signing_public_key() {
    let engine = WedprSecp256k1Recover::default();
    for seed in 0..20u8 {
        let (public_key, secret_key) = engine.generate_keypair();
        let digest = digest_of(seed.wrapping_mul(11));
        let signature = engine.sign(&secret_key, &digest).unwrap();
        assert_eq!(engine.recover_public_key(&digest, &signature), Ok(public_key));
    }
}

#[test]
fn flipping_any_bit_of_the_compact_part_fails_verification() {
    let engine = WedprSecp256k1Recover::default();
    let (public_key, secret_key) = engine.generate_keypair();
    let digest = digest_of(5);
    let signature = engine.sign(&secret_key, &digest).unwrap();
    for byte in 0..64 {
        for bit in 0..8 {
            let mut tampered = signature.clone();
            tampered[byte] ^= 1 << bit;
            assert!(!engine.verify(&public_key, &digest, &tampered));
        }
    }
}

#[test]
fn signature_of_another_key_is_rejected() {
    let engine = WedprSecp256k1Recover::default();
    let (public_key_1, secret_key_1) = engine.generate_keypair();
    let (public_key_2, _secret_key_2) = engine.generate_keypair();
    assert_ne!(public_key_1, public_key_2);
    let digest = digest_of(9);
    let signature = engine.sign(&secret_key_1, &digest).unwrap();
    assert!(!engine.verify(&public_key_2, &digest, &signature));
    assert!(engine.verify(&public_key_1, &digest, &signature));
}

#[test]
fn recovery_rejects_signatures_of_wrong_length() {
    let engine = WedprSecp256k1Recover::default();
    let digest = digest_of(1);
    for length in [0usize, 1, 64, 66, 1000] {
        let signature = vec![1u8; length];
        assert_eq!(
            engine.recover_public_key(&digest, &signature),
            Err(WedprError::DecodeError)
        );
    }
}

#[test]
fn generated_secret_keys_are_never_weak() {
    let engine = WedprSecp256k1Recover::default();
    for _ in 0..10_000 {
        let (public_key, secret_key) = engine.generate_keypair();
        assert_eq!(secret_key.len(), 32);
        assert!(secret_key[0] > 15);
        assert_eq!(public_key.len(), 65);
        assert_eq!(public_key[0], 4);
    }
}

#[test]
fn recovery_id_out_of_range_is_a_decode_error() {
    let engine = WedprSecp256k1Recover::default();
    let (_public_key, secret_key) = engine.generate_keypair();
    let digest = digest_of(3);
    let signature = engine.sign(&secret_key, &digest).unwrap();
    for recovery_id in [4u8, 5, 27, 28, 255] {
        let mut bad = signature.clone();
        bad[64] = recovery_id;
        for _ in 0..3 {
            assert_eq!(
                engine.recover_public_key(&digest, &bad),
                Err(WedprError::DecodeError)
            );
        }
    }
}

#[test]
fn compact_part_out_of_range_is_a_format_error() {
    let engine = WedprSecp256k1Recover::default();
    let digest = digest_of(4);
    // r = 0xff..ff is above the group order.
    let mut signature = vec![0xffu8; 64];
    signature.push(0);
    for _ in 0..3 {
        assert_eq!(
            engine.recover_public_key(&digest, &signature),
            Err(WedprError::FormatError)
        );
    }
    // s alone above the group order.
    let mut signature = vec![1u8; 32];
    signature.extend(vec![0xffu8; 32]);
    signature.push(1);
    assert_eq!(
        engine.recover_public_key(&digest, &signature),
        Err(WedprError::FormatError)
    );
}

#[test]
fn unrecoverable_compact_part_is_a_format_error() {
    let engine = WedprSecp256k1Recover::default();
    let digest = digest_of(6);
    // r = s = 0 parses as two scalars, but no public key can be recovered.
    let signature = vec![0u8; 65];
    for _ in 0..3 {
        assert_eq!(
            engine.recover_public_key(&digest, &signature),
            Err(WedprError::FormatError)
        );
    }
    assert!(!engine.verify(&vec![4u8; 65], &digest, &signature));
}

#[test]
fn zero_digest_scenario() {
    let engine = WedprSecp256k1Recover::default();
    let (public_key, secret_key) = engine.generate_keypair();
    let digest = vec![0u8; 32];
    let signature = engine.sign(&secret_key, &digest).unwrap();
    assert_eq!(signature.len(), 65);
    assert!(engine.verify(&public_key, &digest, &signature));
    let (other_public_key, _other_secret_key) = engine.generate_keypair();
    assert!(!engine.verify(&other_public_key, &digest, &signature));
}

#[test]
fn known_key_recovers_its_public_key() {
    let engine = WedprSecp256k1Recover::default();
    let signature = engine
        .sign(&SECP256K1_TEST_SECRET_KEY, &BASE64_ENCODED_TEST_MESSAGE)
        .unwrap();
    assert_eq!(signature.len(), 65);
    assert!(signature[64] <= 3);
    let recovered = engine
        .recover_public_key(&BASE64_ENCODED_TEST_MESSAGE, &signature)
        .unwrap();
    assert_eq!(recovered.len(), 65);
    assert_eq!(recovered[0], 4);
    // The X coordinate matches the compressed form of the known public key,
    // and its prefix 0x02 says that Y is even.
    assert_eq!(&recovered[1..33], &SECP256K1_TEST_PUBLIC_KEY[1..33]);
    assert_eq!(SECP256K1_TEST_PUBLIC_KEY[0], 2);
    assert_eq!(recovered[64] % 2, 0);
    assert!(engine.verify(&recovered, &BASE64_ENCODED_TEST_MESSAGE, &signature));
}

#[test]
fn signing_is_deterministic() {
    let engine = WedprSecp256k1Recover::default();
    let first = engine
        .sign(&SECP256K1_TEST_SECRET_KEY, &BASE64_ENCODED_TEST_MESSAGE)
        .unwrap();
    let second = engine
        .sign(&SECP256K1_TEST_SECRET_KEY, &BASE64_ENCODED_TEST_MESSAGE)
        .unwrap();
    assert_eq!(first, second);
    assert_ne!(first[..64].to_vec(), vec![0u8; 64]);
}

#[test]
fn sign_rejects_malformed_secret_keys() {
    let engine = WedprSecp256k1Recover::default();
    let digest = digest_of(2);
    // Wrong lengths.
    assert_eq!(engine.sign(&vec![1u8; 31], &digest), Err(WedprError::FormatError));
    assert_eq!(engine.sign(&vec![1u8; 33], &digest), Err(WedprError::FormatError));
    assert_eq!(engine.sign(&vec![], &digest), Err(WedprError::FormatError));
    // Zero.
    assert_eq!(engine.sign(&vec![0u8; 32], &digest), Err(WedprError::FormatError));
    // At or above the group order.
    let order: Vec<u8> = vec![
        0xff, 0xff, 0xff, 0xff, 0xff, 0xff, 0xff, 0xff, 0xff, 0xff, 0xff, 0xff, 0xff, 0xff,
        0xff, 0xfe, 0xba, 0xae, 0xdc, 0xe6, 0xaf, 0x48, 0xa0, 0x3b, 0xbf, 0xd2, 0x5e, 0x8c,
        0xd0, 0x36, 0x41, 0x41,
    ];
    assert_eq!(engine.sign(&order, &digest), Err(WedprError::FormatError));
    assert_eq!(engine.sign(&vec![0xffu8; 32], &digest), Err(WedprError::FormatError));
    // One below the group order is the largest valid key.
    let mut largest = order.clone();
    largest[31] = 0x40;
    assert!(engine.sign(&largest, &digest).is_ok());
    // One is the smallest.
    let mut one = vec![0u8; 32];
    one[31] = 1;
    assert!(engine.sign(&one, &digest).is_ok());
}

#[test]
fn sign_rejects_digests_of_wrong_length() {
    let engine = WedprSecp256k1Recover::default();
    for length in [0usize, 31, 33, 64] {
        assert_eq!(
            engine.sign(&SECP256K1_TEST_SECRET_KEY, &vec![7u8; length]),
            Err(WedprError::FormatError)
        );
    }
}

#[test]
fn recovery_rejects_digests_of_wrong_length() {
    let engine = WedprSecp256k1Recover::default();
    let signature = engine
        .sign(&SECP256K1_TEST_SECRET_KEY, &BASE64_ENCODED_TEST_MESSAGE)
        .unwrap();
    for length in [0usize, 31, 33] {
        assert_eq!(
            engine.recover_public_key(&vec![7u8; length], &signature),
            Err(WedprError::DecodeError)
        );
        assert!(!engine.verify(&vec![4u8; 65], &vec![7u8; length], &signature));
    }
}

#[test]
fn verify_rejects_a_different_digest() {
    let engine = WedprSecp256k1Recover::default();
    let (public_key, secret_key) = engine.generate_keypair();
    let signature = engine.sign(&secret_key, &digest_of(1)).unwrap();
    assert!(!engine.verify(&public_key, &digest_of(2), &signature));
}

#[test]
fn matching_a_recovered_key() {
    let key = vec![4u8, 1, 2, 3];
    assert!(matches_recovered_key(&Ok(key.clone()), &key));
    assert!(!matches_recovered_key(&Ok(key.clone()), &[4u8, 1, 2]));
    assert!(!matches_recovered_key(&Ok(key.clone()), &[4u8, 1, 2, 4]));
    assert!(!matches_recovered_key(&Err(WedprError::FormatError), &key));
    assert!(!matches_recovered_key(&Err(WedprError::DecodeError), &[]));
}

#[test]
fn other_parity_does_not_recover_the_signer_key() {
    let engine = WedprSecp256k1Recover::default();
    for seed in 0..10u8 {
        let (public_key, secret_key) = engine.generate_keypair();
        let digest = digest_of(seed.wrapping_mul(7));
        let mut signature = engine.sign(&secret_key, &digest).unwrap();
        signature[64] ^= 1;
        assert_ne!(engine.recover_public_key(&digest, &signature), Ok(public_key.clone()));
        assert!(!engine.verify(&public_key, &digest, &signature));
    }
}

#[test]
fn recovery_gives_the_same_outcome_on_repeated_calls() {
    let engine = WedprSecp256k1Recover::default();
    let (_public_key, secret_key) = engine.generate_keypair();
    let digest = digest_of(8);
    let signature = engine.sign(&secret_key, &digest).unwrap();
    let first = engine.recover_public_key(&digest, &signature);
    let _ = engine.generate_keypair();
    assert_eq!(engine.recover_public_key(&digest, &signature), first);
    let zero = vec![0u8; 65];
    let first = engine.recover_public_key(&digest, &zero);
    assert_eq!(engine.recover_public_key(&digest, &zero), first);
}
