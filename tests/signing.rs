use dilithium_signer::engine::{
    encode_public_key, encode_signature, generate_keypair, generate_keypair_from_entropy, sign,
    sign_and_verify, sign_and_verify_from_entropy, sign_and_verify_with, verify, EngineError,
    SigningResult,
};
use dilithium_signer::scheme::{PUBLIC_KEY_BYTES, SECRET_KEY_BYTES, SEED_BYTES, SIGNATURE_BYTES};
use dilithium_signer::service::{
    health_response, sign_message, sign_message_with_entropy, sign_response, ServerConfig,
};

#[test]
fn scheme_sizes_are_dilithium2() {
    assert_eq!(SEED_BYTES, 32);
    assert_eq!(PUBLIC_KEY_BYTES, 1312);
    assert_eq!(SECRET_KEY_BYTES, 2528);
    assert_eq!(SIGNATURE_BYTES, 2420);
}

#[test]
fn empty_message_self_verifies() {
    let r = sign_and_verify(b"").unwrap();
    assert!(r.verified);
    assert!(verify(&r.public_key_bytes, b"", &r.signature_bytes));
}

#[test]
fn long_message_self_verifies() {
    let msg = vec![0x5au8; 10_000];
    let r = sign_and_verify(&msg).unwrap();
    assert!(r.verified);
    assert_eq!(r.public_key_size, 1312);
    assert_eq!(r.signature_size, 2420);
}

#[test]
fn seeded_pipeline_self_verifies() {
    let seed = [3u8; 32];
    let r = sign_and_verify_from_entropy(Some(&seed), b"abc").unwrap();
    assert!(r.verified);
    assert_eq!(r.public_key_bytes.len(), r.public_key_size);
    assert_eq!(r.signature_bytes.len(), r.signature_size);
}

#[test]
fn signature_over_other_message_is_rejected() {
    let kp = generate_keypair_from_entropy(Some(&[7u8; 32])).unwrap();
    let sig = encode_signature(&sign(&kp, b"first message"));
    let pk = encode_public_key(&kp);
    assert!(verify(&pk, b"first message", &sig));
    assert!(!verify(&pk, b"second message", &sig));
    assert!(!verify(&pk, b"", &sig));
}

#[test]
fn signature_under_other_key_is_rejected() {
    let a = generate_keypair().unwrap();
    let b = generate_keypair().unwrap();
    let sig = encode_signature(&sign(&a, b"hello"));
    assert!(verify(&encode_public_key(&a), b"hello", &sig));
    assert!(!verify(&encode_public_key(&b), b"hello", &sig));
}

#[test]
fn fresh_keypairs_differ() {
    let a = encode_public_key(&generate_keypair().unwrap());
    let b = encode_public_key(&generate_keypair().unwrap());
    assert_ne!(a, b);
    let r1 = sign_and_verify(b"same").unwrap();
    let r2 = sign_and_verify(b"same").unwrap();
    assert_ne!(r1.public_key_bytes, r2.public_key_bytes);
}

#[test]
fn encodings_have_fixed_lengths() {
    for m in [&b""[..], &b"x"[..], &[0u8; 4096][..]] {
        let kp = generate_keypair().unwrap();
        assert_eq!(encode_public_key(&kp).len(), PUBLIC_KEY_BYTES);
        assert_eq!(encode_signature(&sign(&kp, m)).len(), SIGNATURE_BYTES);
    }
}

#[test]
fn encodings_are_deterministic() {
    let a = generate_keypair_from_entropy(Some(&[42u8; 32])).unwrap();
    let b = generate_keypair_from_entropy(Some(&[42u8; 32])).unwrap();
    assert_eq!(encode_public_key(&a), encode_public_key(&a));
    assert_eq!(encode_public_key(&a), encode_public_key(&b));
    let s1 = encode_signature(&sign(&a, b"msg"));
    let s2 = encode_signature(&sign(&b, b"msg"));
    assert_eq!(s1, s2);
    let c = generate_keypair_from_entropy(Some(&[43u8; 32])).unwrap();
    assert_ne!(encode_public_key(&a), encode_public_key(&c));
}

#[test]
fn flipped_bits_are_rejected() {
    let kp = generate_keypair_from_entropy(Some(&[9u8; 32])).unwrap();
    let pk = encode_public_key(&kp);
    let sig = encode_signature(&sign(&kp, b"tamper"));
    assert!(verify(&pk, b"tamper", &sig));
    for i in (0..sig.len()).step_by(97).chain([sig.len() - 1]) {
        for bit in [0u8, 3, 7] {
            let mut t = sig.clone();
            t[i] ^= 1 << bit;
            assert!(!verify(&pk, b"tamper", &t), "byte {} bit {}", i, bit);
        }
    }
}

#[test]
fn truncated_or_extended_signature_is_rejected() {
    let kp = generate_keypair().unwrap();
    let pk = encode_public_key(&kp);
    let sig = encode_signature(&sign(&kp, b"m"));
    assert!(!verify(&pk, b"m", &sig[..sig.len() - 1]));
    assert!(!verify(&pk, b"m", &[]));
    let mut longer = sig.clone();
    longer.push(0);
    assert!(!verify(&pk, b"m", &longer));
}

#[test]
fn malformed_public_key_is_rejected() {
    let kp = generate_keypair().unwrap();
    let pk = encode_public_key(&kp);
    let sig = encode_signature(&sign(&kp, b"m"));
    assert!(!verify(&pk[..100], b"m", &sig));
    assert!(!verify(&[], b"m", &sig));
}

#[test]
fn missing_entropy_is_unavailable() {
    assert_eq!(generate_keypair_from_entropy(None).err(), Some(EngineError::EngineUnavailable));
    assert_eq!(
        sign_and_verify_from_entropy(None, b"hi").err(),
        Some(EngineError::EngineUnavailable)
    );
}

#[test]
fn short_entropy_is_unavailable() {
    assert_eq!(
        generate_keypair_from_entropy(Some(&[1u8, 2, 3])).err(),
        Some(EngineError::EngineUnavailable)
    );
    assert_eq!(
        sign_and_verify_from_entropy(Some(&[0u8; 33]), b"hi").err(),
        Some(EngineError::EngineUnavailable)
    );
}

#[test]
fn explicit_keypair_pipeline_reports_its_key() {
    let kp = generate_keypair_from_entropy(Some(&[11u8; 32])).unwrap();
    let r = sign_and_verify_with(&kp, b"payload").unwrap();
    assert_eq!(r.public_key_bytes, encode_public_key(&kp));
    assert_eq!(r.signature_bytes, encode_signature(&sign(&kp, b"payload")));
}

#[test]
fn response_hex_encodes_fields() {
    let result = SigningResult {
        public_key_bytes: vec![0x00, 0xab, 0x1f],
        signature_bytes: vec![0xff, 0x10],
        verified: true,
        public_key_size: 3,
        signature_size: 2,
    };
    let r = sign_response("note", &result);
    assert!(r.success);
    assert_eq!(r.public_key, "00ab1f");
    assert_eq!(r.signature, "ff10");
    assert_eq!(r.public_key_size, 3);
    assert_eq!(r.signature_size, 2);
    assert!(r.verified);
    assert_eq!(r.message, "note");
}

#[test]
fn railway_greeting_end_to_end() {
    let r = sign_message("Hello from Railway! 🚄").unwrap();
    assert!(r.success);
    assert!(r.verified);
    assert_eq!(r.public_key_size, 1312);
    assert_eq!(r.signature_size, 2420);
    assert_eq!(hex::decode(&r.public_key).unwrap().len(), r.public_key_size);
    assert_eq!(hex::decode(&r.signature).unwrap().len(), r.signature_size);
    assert_eq!(r.message, "Hello from Railway! 🚄");
    let pk = hex::decode(&r.public_key).unwrap();
    let sig = hex::decode(&r.signature).unwrap();
    assert!(verify(&pk, "Hello from Railway! 🚄".as_bytes(), &sig));
}

#[test]
fn empty_message_end_to_end() {
    let r = sign_message("").unwrap();
    assert!(r.success);
    assert!(r.verified);
    assert_eq!(r.message, "");
    assert_eq!(r.public_key.len(), 2 * 1312);
    assert_eq!(r.signature.len(), 2 * 2420);
}

#[test]
fn health_defaults_to_development() {
    let h = health_response(None);
    assert_eq!(h.status, "healthy");
    assert_eq!(h.service, "Dilithium Signature API");
    assert_eq!(h.version, "1.0.0");
    assert_eq!(h.environment, "development");
    let h = health_response(Some("staging".to_string()));
    assert_eq!(h.environment, "staging");
}

#[test]
fn config_defaults_and_bind_address() {
    let c = ServerConfig::from_lookups(None, None, None);
    assert_eq!(c.host, "0.0.0.0");
    assert_eq!(c.port, "8080");
    assert_eq!(c.environment, "production");
    assert_eq!(c.bind_address(), "0.0.0.0:8080");
    let c = ServerConfig::from_lookups(
        Some("127.0.0.1".to_string()),
        Some("3000".to_string()),
        Some("staging".to_string()),
    );
    assert_eq!(c.bind_address(), "127.0.0.1:3000");
    assert_eq!(c.environment, "staging");
}


#[test]
fn seeded_request_matches_engine_outputs() {
    let seed = [21u8; 32];
    let r = sign_message_with_entropy("seeded", Some(&seed)).unwrap();
    let kp = generate_keypair_from_entropy(Some(&seed)).unwrap();
    assert!(r.success);
    assert!(r.verified);
    assert_eq!(r.message, "seeded");
    assert_eq!(r.public_key, hex::encode(encode_public_key(&kp)));
    assert_eq!(r.signature, hex::encode(encode_signature(&sign(&kp, b"seeded"))));
    let again = sign_message_with_entropy("seeded", Some(&seed)).unwrap();
    assert_eq!(r.public_key, again.public_key);
    assert_eq!(r.signature, again.signature);
}

#[test]
fn request_without_entropy_is_unavailable() {
    assert_eq!(sign_message_with_entropy("hi", None).err(), Some(EngineError::EngineUnavailable));
    assert_eq!(
        sign_message_with_entropy("hi", Some(&[5u8; 16])).err(),
        Some(EngineError::EngineUnavailable)
    );
}

#[test]
fn empty_message_with_seed_succeeds() {
    let r = sign_message_with_entropy("", Some(&[0u8; 32])).unwrap();
    assert!(r.success);
    assert!(r.verified);
    assert_eq!(r.public_key_size, 1312);
    assert_eq!(r.signature_size, 2420);
}
