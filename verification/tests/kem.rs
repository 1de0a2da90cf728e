use oqs::kem::{Algorithm, Kem, PublicKey};
use oqs::Error;

fn all_algorithms() -> Vec<Algorithm> {
    vec![
        Algorithm::BikeL1,
        Algorithm::BikeL3,
        Algorithm::BikeL5,
        Algorithm::ClassicMcEliece348864,
        Algorithm::ClassicMcEliece348864f,
        Algorithm::ClassicMcEliece460896,
        Algorithm::ClassicMcEliece460896f,
        Algorithm::ClassicMcEliece6688128,
        Algorithm::ClassicMcEliece6688128f,
        Algorithm::ClassicMcEliece6960119,
        Algorithm::ClassicMcEliece6960119f,
        Algorithm::ClassicMcEliece8192128,
        Algorithm::ClassicMcEliece8192128f,
        Algorithm::Hqc128,
        Algorithm::Hqc192,
        Algorithm::Hqc256,
        Algorithm::Kyber512,
        Algorithm::Kyber768,
        Algorithm::Kyber1024,
        Algorithm::NtruPrimeSntrup761,
        Algorithm::FrodoKem640Aes,
        Algorithm::FrodoKem640Shake,
        Algorithm::FrodoKem976Aes,
        Algorithm::FrodoKem976Shake,
        Algorithm::FrodoKem1344Aes,
        Algorithm::FrodoKem1344Shake,
        Algorithm::MlKem512,
        Algorithm::MlKem768,
        Algorithm::MlKem1024,
    ]
}

fn round_trip(alg: Algorithm) {
    oqs::init();
    let kem = Kem::new(alg).unwrap();
    assert_eq!(kem.algorithm(), alg);
    let (pk, sk) = kem.keypair().unwrap();
    assert_eq!(pk.len(), kem.length_public_key());
    assert_eq!(sk.len(), kem.length_secret_key());
    let (ct, ss1) = kem.encapsulate(pk.as_borrowed()).unwrap();
    assert_eq!(ct.len(), kem.length_ciphertext());
    assert_eq!(ss1.len(), kem.length_shared_secret());
    let ss2 = kem.decapsulate(sk.as_borrowed(), ct.as_borrowed()).unwrap();
    assert_eq!(ss1, ss2, "shared secret not equal!");
}

#[test]
fn test_encaps_decaps_ml_kem_512() {
    round_trip(Algorithm::MlKem512);
}

#[test]
fn test_encaps_decaps_ml_kem_768() {
    round_trip(Algorithm::MlKem768);
}

#[test]
fn test_encaps_decaps_ml_kem_1024() {
    round_trip(Algorithm::MlKem1024);
}

#[test]
fn test_kem_enabled_agrees_with_new() {
    for alg in all_algorithms() {
        assert_eq!(alg.is_enabled(), Kem::new(alg).is_ok());
    }
}

#[test]
fn test_kem_disabled_algorithm() {
    match Kem::new(Algorithm::Kyber512) {
        Err(e) => assert_eq!(e, Error::AlgorithmDisabled),
        Ok(_) => panic!("disabled algorithm must not produce a handle"),
    }
}

#[test]
fn test_kem_lengths_ml_kem_512() {
    let kem = Kem::new(Algorithm::MlKem512).unwrap();
    assert_eq!(kem.length_public_key(), 800);
    assert_eq!(kem.length_secret_key(), 1632);
    assert_eq!(kem.length_ciphertext(), 768);
    assert_eq!(kem.length_shared_secret(), 32);
    assert_eq!(kem.claimed_nist_level(), 1);
    assert!(kem.is_ind_cca());
    assert!(!kem.version().is_empty());
}

#[test]
fn test_kem_from_bytes_length_validation() {
    let kem = Kem::new(Algorithm::MlKem512).unwrap();
    let short = vec![0u8; 799];
    let exact = vec![0u8; 800];
    let long = vec![0u8; 801];
    assert!(kem.public_key_from_bytes(&short).is_none());
    assert!(kem.public_key_from_bytes(&long).is_none());
    let view = kem.public_key_from_bytes(&exact).unwrap();
    assert_eq!(view.as_bytes(), exact.as_slice());

    assert!(kem.secret_key_from_bytes(&vec![0u8; 1631]).is_none());
    assert!(kem.secret_key_from_bytes(&vec![0u8; 1632]).is_some());
    assert!(kem.ciphertext_from_bytes(&vec![0u8; 767]).is_none());
    assert!(kem.ciphertext_from_bytes(&vec![0u8; 768]).is_some());
    assert!(kem.shared_secret_from_bytes(&vec![0u8; 31]).is_none());
    assert!(kem.shared_secret_from_bytes(&vec![0u8; 32]).is_some());
}

#[test]
fn test_kem_encapsulate_rejects_wrong_length() {
    let kem = Kem::new(Algorithm::MlKem512).unwrap();
    let bogus = PublicKey::from_vec(vec![0u8; 10]);
    match kem.encapsulate(bogus.as_borrowed()) {
        Err(e) => assert_eq!(e, Error::InvalidLength),
        Ok(_) => panic!("wrong-length public key must be rejected"),
    }
}

#[test]
fn test_kem_decapsulate_rejects_wrong_length() {
    let kem = Kem::new(Algorithm::MlKem512).unwrap();
    let (pk, sk) = kem.keypair().unwrap();
    let (ct, _ss) = kem.encapsulate(pk.as_borrowed()).unwrap();
    let bogus_sk = oqs::kem::SecretKey::from_vec(vec![0u8; 3]);
    match kem.decapsulate(bogus_sk.as_borrowed(), ct.as_borrowed()) {
        Err(e) => assert_eq!(e, Error::InvalidLength),
        Ok(_) => panic!("wrong-length secret key must be rejected"),
    }
    let bogus_ct = oqs::kem::Ciphertext::from_vec(vec![0u8; 3]);
    match kem.decapsulate(sk.as_borrowed(), bogus_ct.as_borrowed()) {
        Err(e) => assert_eq!(e, Error::InvalidLength),
        Ok(_) => panic!("wrong-length ciphertext must be rejected"),
    }
}

#[test]
fn test_kem_tampered_ciphertext_changes_secret() {
    // ML-KEM rejects tampering implicitly: decapsulation of a corrupted
    // ciphertext yields an unrelated shared secret, not the negotiated one.
    let kem = Kem::new(Algorithm::MlKem768).unwrap();
    let (pk, sk) = kem.keypair().unwrap();
    let (ct, ss1) = kem.encapsulate(pk.as_borrowed()).unwrap();
    let mut ct_bytes = ct.into_vec();
    ct_bytes[0] ^= 0x01;
    let ct_view = kem.ciphertext_from_bytes(&ct_bytes).unwrap();
    let ss2 = kem.decapsulate(sk.as_borrowed(), ct_view).unwrap();
    assert!(ss1 != ss2);
}

#[test]
fn test_kem_names_round_trip() {
    for alg in all_algorithms() {
        let name = alg.name();
        assert!(!name.is_empty());
        assert_eq!(alg.to_id(), name);
        assert_eq!(Algorithm::from_name(name), Ok(alg));
    }
}

#[test]
fn test_kem_name_values() {
    assert_eq!(Algorithm::MlKem512.name(), "ML-KEM-512");
    assert_eq!(Algorithm::BikeL1.name(), "BIKE-L1");
    assert_eq!(Algorithm::NtruPrimeSntrup761.name(), "sntrup761");
}

#[test]
fn test_kem_from_name_unknown() {
    assert_eq!(
        Algorithm::from_name("ML-KEM-513"),
        Err(Error::AlgorithmNotSupportedOrKnown)
    );
    assert_eq!(
        Algorithm::from_name(""),
        Err(Error::AlgorithmNotSupportedOrKnown)
    );
}
