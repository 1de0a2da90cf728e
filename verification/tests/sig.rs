use oqs::sig::{Algorithm, Sig};
use oqs::Error;

fn enabled_algorithms() -> Vec<Algorithm> {
    vec![
        Algorithm::Dilithium2,
        Algorithm::Dilithium3,
        Algorithm::Dilithium5,
        Algorithm::MlDsa44,
        Algorithm::MlDsa65,
        Algorithm::MlDsa87,
    ]
}

fn some_disabled_algorithms() -> Vec<Algorithm> {
    vec![
        Algorithm::CrossRsdp128Balanced,
        Algorithm::CrossRsdpg256Small,
        Algorithm::Falcon512,
        Algorithm::Falcon1024,
        Algorithm::Mayo1,
        Algorithm::Mayo5,
        Algorithm::SphincsSha2128fSimple,
        Algorithm::SphincsShake256sSimple,
    ]
}

fn signing_round_trip(alg: Algorithm, message: &[u8]) {
    oqs::init();
    let sig = Sig::new(alg).unwrap();
    assert_eq!(sig.algorithm(), alg);
    let (pk, sk) = sig.keypair().unwrap();
    assert_eq!(pk.len(), sig.length_public_key());
    assert_eq!(sk.len(), sig.length_secret_key());
    let signature = sig.sign(message, sk.as_borrowed()).unwrap();
    assert!(signature.len() <= sig.length_signature());
    sig.verify(message, signature.as_borrowed(), pk.as_borrowed())
        .unwrap();
}

#[test]
fn test_signing_dilithium2() {
    signing_round_trip(Algorithm::Dilithium2, &[0u8; 100]);
}

#[test]
fn test_signing_dilithium3() {
    signing_round_trip(Algorithm::Dilithium3, &[0u8; 100]);
}

#[test]
fn test_signing_dilithium5() {
    signing_round_trip(Algorithm::Dilithium5, &[0u8; 100]);
}

#[test]
fn test_signing_ml_dsa_44() {
    signing_round_trip(Algorithm::MlDsa44, &[0u8; 100]);
}

#[test]
fn test_signing_ml_dsa_65() {
    signing_round_trip(Algorithm::MlDsa65, &[0u8; 100]);
}

#[test]
fn test_signing_ml_dsa_87() {
    signing_round_trip(Algorithm::MlDsa87, &[0u8; 100]);
}

#[test]
fn test_signing_empty_message() {
    for alg in enabled_algorithms() {
        signing_round_trip(alg, &[]);
    }
}

#[test]
fn test_corrupted_signature_fails() {
    // A fixed all-zero 100-byte message: sign, verify, then corrupt one byte
    // of the signature; verification must fail cleanly.
    let message = [0u8; 100];
    for alg in [Algorithm::Dilithium2, Algorithm::MlDsa44] {
        let sig = Sig::new(alg).unwrap();
        let (pk, sk) = sig.keypair().unwrap();
        let signature = sig.sign(&message, sk.as_borrowed()).unwrap();
        sig.verify(&message, signature.as_borrowed(), pk.as_borrowed())
            .unwrap();
        let mut bytes = signature.into_vec();
        bytes[7] ^= 0x20;
        let corrupted = sig.signature_from_bytes(&bytes).unwrap();
        match sig.verify(&message, corrupted, pk.as_borrowed()) {
            Err(e) => assert_eq!(e, Error::Error),
            Ok(()) => panic!("corrupted signature must not verify"),
        }
    }
}

#[test]
fn test_signing_with_empty_context_string() {
    let message = [0u8; 100];
    let ctx: [u8; 0] = [];
    for alg in enabled_algorithms() {
        let sig = Sig::new(alg).unwrap();
        let (pk, sk) = sig.keypair().unwrap();
        let signature = sig
            .sign_with_ctx_str(&message, &ctx, sk.as_borrowed())
            .unwrap();
        sig.verify_with_ctx_str(&message, signature.as_borrowed(), &ctx, pk.as_borrowed())
            .unwrap();
    }
}

#[test]
fn test_signing_with_nonempty_context_string() {
    let message = [0u8; 100];
    let ctx = [0u8; 100];
    for alg in enabled_algorithms() {
        let sig = Sig::new(alg).unwrap();
        let (pk, sk) = sig.keypair().unwrap();
        if sig.has_ctx_str_support() {
            let signature = sig
                .sign_with_ctx_str(&message, &ctx, sk.as_borrowed())
                .unwrap();
            sig.verify_with_ctx_str(&message, signature.as_borrowed(), &ctx, pk.as_borrowed())
                .unwrap();
        } else {
            // Signing with a non-empty context on an algorithm without
            // context support fails with the generic error, never silently
            // ignores the context.
            match sig.sign_with_ctx_str(&message, &ctx, sk.as_borrowed()) {
                Err(e) => assert_eq!(e, Error::Error),
                Ok(_) => panic!("context must not be silently ignored"),
            }
            let signature = sig.sign(&message, sk.as_borrowed()).unwrap();
            match sig.verify_with_ctx_str(&message, signature.as_borrowed(), &ctx, pk.as_borrowed())
            {
                Err(e) => assert_eq!(e, Error::Error),
                Ok(()) => panic!("context must not be silently ignored"),
            }
        }
    }
}

#[test]
fn test_context_over_255_bytes_fails() {
    let message = [0u8; 16];
    let ctx = [0u8; 256];
    let sig = Sig::new(Algorithm::MlDsa44).unwrap();
    let (pk, sk) = sig.keypair().unwrap();
    assert!(sig
        .sign_with_ctx_str(&message, &ctx, sk.as_borrowed())
        .is_err());
    let short_ctx = [0u8; 255];
    let signature = sig
        .sign_with_ctx_str(&message, &short_ctx, sk.as_borrowed())
        .unwrap();
    sig.verify_with_ctx_str(&message, signature.as_borrowed(), &short_ctx, pk.as_borrowed())
        .unwrap();
    match sig.verify_with_ctx_str(&message, signature.as_borrowed(), &ctx, pk.as_borrowed()) {
        Err(e) => assert_eq!(e, Error::Error),
        Ok(()) => panic!("over-long context must be rejected"),
    }
}

#[test]
fn test_dilithium_signing_is_deterministic() {
    let message = [3u8; 40];
    let ctx: [u8; 0] = [];
    let sig = Sig::new(Algorithm::Dilithium3).unwrap();
    let (_pk, sk) = sig.keypair().unwrap();
    let s1 = sig.sign(&message, sk.as_borrowed()).unwrap();
    let s2 = sig
        .sign_with_ctx_str(&message, &ctx, sk.as_borrowed())
        .unwrap();
    assert_eq!(s1, s2);
}

#[test]
fn test_sig_enabled_agrees_with_new() {
    for alg in enabled_algorithms() {
        assert!(alg.is_enabled());
        assert!(Sig::new(alg).is_ok());
    }
    for alg in some_disabled_algorithms() {
        assert!(!alg.is_enabled());
        assert!(Sig::new(alg).is_err());
    }
}

#[test]
fn test_sig_disabled_algorithm() {
    match Sig::new(Algorithm::Falcon512) {
        Err(e) => assert_eq!(e, Error::AlgorithmDisabled),
        Ok(_) => panic!("disabled algorithm must not produce a handle"),
    }
}

#[test]
fn test_sig_metadata() {
    let sig = Sig::new(Algorithm::MlDsa44).unwrap();
    assert_eq!(sig.length_public_key(), 1312);
    assert_eq!(sig.length_secret_key(), 2560);
    assert_eq!(sig.length_signature(), 2420);
    assert_eq!(sig.claimed_nist_level(), 2);
    assert!(sig.is_euf_cma());
    assert!(sig.has_ctx_str_support());
    assert_eq!(sig.version(), "FIPS 204");

    let sig = Sig::new(Algorithm::Dilithium2).unwrap();
    assert_eq!(sig.length_public_key(), 1312);
    assert_eq!(sig.length_secret_key(), 2528);
    assert_eq!(sig.length_signature(), 2420);
    assert_eq!(sig.claimed_nist_level(), 2);
    assert!(sig.is_euf_cma());
    assert!(!sig.has_ctx_str_support());
    assert_eq!(sig.version(), "3.1");
}

#[test]
fn test_sig_from_bytes_length_validation() {
    let sig = Sig::new(Algorithm::Dilithium2).unwrap();
    assert!(sig.public_key_from_bytes(&vec![0u8; 1311]).is_none());
    assert!(sig.public_key_from_bytes(&vec![0u8; 1312]).is_some());
    assert!(sig.secret_key_from_bytes(&vec![0u8; 2527]).is_none());
    assert!(sig.secret_key_from_bytes(&vec![0u8; 2528]).is_some());
    // Signatures are variable-length up to the maximum.
    assert!(sig.signature_from_bytes(&vec![0u8; 2421]).is_none());
    assert!(sig.signature_from_bytes(&vec![0u8; 2420]).is_some());
    assert!(sig.signature_from_bytes(&vec![0u8; 1]).is_some());
}

#[test]
fn test_sig_sign_rejects_wrong_length_key() {
    let message = [0u8; 8];
    let sig = Sig::new(Algorithm::MlDsa44).unwrap();
    let bogus = oqs::sig::SecretKey::from_vec(vec![0u8; 17]);
    match sig.sign(&message, bogus.as_borrowed()) {
        Err(e) => assert_eq!(e, Error::InvalidLength),
        Ok(_) => panic!("wrong-length secret key must be rejected"),
    }
    match sig.sign_with_ctx_str(&message, &[], bogus.as_borrowed()) {
        Err(e) => assert_eq!(e, Error::InvalidLength),
        Ok(_) => panic!("wrong-length secret key must be rejected"),
    }
}

#[test]
fn test_sig_verify_rejects_wrong_lengths() {
    let message = [0u8; 8];
    let sig = Sig::new(Algorithm::MlDsa44).unwrap();
    let (pk, sk) = sig.keypair().unwrap();
    let signature = sig.sign(&message, sk.as_borrowed()).unwrap();
    let long_sig = oqs::sig::Signature::from_vec(vec![0u8; 2421]);
    match sig.verify(&message, long_sig.as_borrowed(), pk.as_borrowed()) {
        Err(e) => assert_eq!(e, Error::InvalidLength),
        Ok(()) => panic!("over-long signature must be rejected"),
    }
    let bogus_pk = oqs::sig::PublicKey::from_vec(vec![0u8; 5]);
    match sig.verify(&message, signature.as_borrowed(), bogus_pk.as_borrowed()) {
        Err(e) => assert_eq!(e, Error::InvalidLength),
        Ok(()) => panic!("wrong-length public key must be rejected"),
    }
    // A short signature passes the local length gate (it does not exceed the
    // maximum) but the engine rejects it with the generic error.
    let short_sig = oqs::sig::Signature::from_vec(vec![0u8; 16]);
    match sig.verify(&message, short_sig.as_borrowed(), pk.as_borrowed()) {
        Err(e) => assert_eq!(e, Error::Error),
        Ok(()) => panic!("short signature must not verify"),
    }
}

#[test]
fn test_sig_names_round_trip() {
    for alg in enabled_algorithms() {
        let name = alg.name();
        assert!(!name.is_empty());
        assert_eq!(alg.to_id(), name);
        assert_eq!(Algorithm::from_name(name), Ok(alg));
    }
    for alg in some_disabled_algorithms() {
        assert_eq!(Algorithm::from_name(alg.name()), Ok(alg));
    }
}

#[test]
fn test_sig_name_values() {
    assert_eq!(Algorithm::MlDsa44.name(), "ML-DSA-44");
    assert_eq!(Algorithm::Dilithium2.name(), "Dilithium2");
    assert_eq!(Algorithm::CrossRsdp128Balanced.name(), "cross-rsdp-128-balanced");
    assert_eq!(Algorithm::SphincsShake192fSimple.name(), "SPHINCS+-SHAKE-192f-simple");
}

#[test]
fn test_sig_from_name_unknown() {
    assert_eq!(
        Algorithm::from_name("ML-DSA-45"),
        Err(Error::AlgorithmNotSupportedOrKnown)
    );
}
