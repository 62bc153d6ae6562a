use openmls::lifetime::{
    Lifetime, DEFAULT_KEY_PACKAGE_LIFETIME_MARGIN_SECONDS, DEFAULT_KEY_PACKAGE_LIFETIME_SECONDS,
    MAX_LEAF_NODE_LIFETIME_RANGE_SECONDS,
};
use openmls::types::{
    AeadType, Ciphersuite, CryptoConfig, HashType, HpkeAeadType, HpkeKdfType, HpkeKemType,
    ProtocolVersion, SignatureScheme, VerifiableCiphersuite,
};

#[test]
fn lifetime_starts_a_margin_before_it_was_made() {
    let lifetime = Lifetime::starting_at(10_000, 500);
    assert_eq!(lifetime.not_before(), 6_400);
    assert_eq!(lifetime.not_after(), 10_500);
    let early = Lifetime::starting_at(100, 500);
    assert_eq!(early.not_before(), 0);
    let late = Lifetime::starting_at(u64::MAX - 5, 500);
    assert_eq!(late.not_after(), u64::MAX);
}

#[test]
fn lifetime_is_valid_strictly_within_its_ends() {
    let lifetime = Lifetime {
        not_before: 10,
        not_after: 20,
    };
    assert!(!lifetime.is_valid_at(9));
    assert!(!lifetime.is_valid_at(10));
    assert!(lifetime.is_valid_at(11));
    assert!(lifetime.is_valid_at(19));
    assert!(!lifetime.is_valid_at(20));
    assert!(!lifetime.is_valid());
    let empty = Lifetime {
        not_before: 10,
        not_after: 11,
    };
    assert!(!empty.is_valid_at(10));
    assert!(!empty.is_valid_at(11));
}

#[test]
fn lifetime_range_has_a_greatest_length() {
    assert_eq!(DEFAULT_KEY_PACKAGE_LIFETIME_SECONDS, 60 * 60 * 24 * 28 * 3);
    assert_eq!(DEFAULT_KEY_PACKAGE_LIFETIME_MARGIN_SECONDS, 60 * 60);
    assert_eq!(
        MAX_LEAF_NODE_LIFETIME_RANGE_SECONDS,
        DEFAULT_KEY_PACKAGE_LIFETIME_SECONDS + DEFAULT_KEY_PACKAGE_LIFETIME_MARGIN_SECONDS
    );
    let exact = Lifetime {
        not_before: 5,
        not_after: 5 + MAX_LEAF_NODE_LIFETIME_RANGE_SECONDS,
    };
    assert!(exact.has_acceptable_range());
    let over = Lifetime {
        not_before: 5,
        not_after: 6 + MAX_LEAF_NODE_LIFETIME_RANGE_SECONDS,
    };
    assert!(!over.has_acceptable_range());
    let backwards = Lifetime {
        not_before: 50,
        not_after: 6,
    };
    assert!(backwards.has_acceptable_range());
    assert!(!backwards.is_valid_at(20));
}

#[test]
fn default_lifetime_is_current_and_acceptable() {
    let lifetime = Lifetime::default();
    assert!(lifetime.is_valid());
    assert!(lifetime.has_acceptable_range());
    assert_eq!(
        lifetime.not_after() - lifetime.not_before(),
        MAX_LEAF_NODE_LIFETIME_RANGE_SECONDS
    );
    let now = Lifetime::now().unwrap();
    assert!(lifetime.is_valid_at(now));
    assert!(now > 1_600_000_000);
    let short = Lifetime::new(10);
    assert_eq!(short.not_after() - short.not_before(), 3610);
    let mut out = vec![1u8];
    Lifetime {
        not_before: 1,
        not_after: 0x0102_0304_0506_0708,
    }
    .append_encoding(&mut out);
    assert_eq!(out, vec![1, 0, 0, 0, 0, 0, 0, 0, 1, 1, 2, 3, 4, 5, 6, 7, 8]);
}

#[test]
fn ciphersuites_have_their_algorithms() {
    let suite = Ciphersuite::MLS_128_DHKEMX25519_AES128GCM_SHA256_Ed25519;
    assert_eq!(suite.hash_algorithm(), HashType::Sha2_256);
    assert_eq!(suite.hash_length(), 32);
    assert_eq!(suite.aead_algorithm(), AeadType::Aes128Gcm);
    assert_eq!(suite.aead_key_length(), 16);
    assert_eq!(suite.aead_nonce_length(), 12);
    assert_eq!(suite.signature_algorithm(), SignatureScheme::ED25519);
    assert_eq!(suite.hpke_config().kem, HpkeKemType::DhKem25519);
    assert_eq!(suite.hpke_config().kdf, HpkeKdfType::HkdfSha256);
    assert_eq!(suite.hpke_config().aead, HpkeAeadType::AesGcm128);
    assert!(suite.is_supported());
    let suite = Ciphersuite::MLS_128_DHKEMP256_AES128GCM_SHA256_P256;
    assert_eq!(suite.signature_algorithm(), SignatureScheme::ECDSA_SECP256R1_SHA256);
    assert_eq!(suite.hpke_config().kem, HpkeKemType::DhKemP256);
    assert!(suite.is_supported());
    let suite = Ciphersuite::MLS_128_DHKEMX25519_CHACHA20POLY1305_SHA256_Ed25519;
    assert_eq!(suite.aead_algorithm(), AeadType::ChaCha20Poly1305);
    assert_eq!(suite.aead_key_length(), 32);
    assert_eq!(suite.hpke_config().aead, HpkeAeadType::ChaCha20Poly1305);
    let suite = Ciphersuite::MLS_256_DHKEMX448_AES256GCM_SHA512_Ed448;
    assert_eq!(suite.hash_length(), 64);
    assert_eq!(suite.signature_algorithm(), SignatureScheme::ED448);
    assert_eq!(suite.hpke_config().kem, HpkeKemType::DhKem448);
    assert!(!suite.is_supported());
    let suite = Ciphersuite::MLS_256_DHKEMP521_AES256GCM_SHA512_P521;
    assert_eq!(suite.signature_algorithm(), SignatureScheme::ECDSA_SECP521R1_SHA512);
    assert_eq!(suite.hpke_config().kem, HpkeKemType::DhKemP521);
    assert_eq!(suite.aead_algorithm(), AeadType::Aes256Gcm);
    let suite = Ciphersuite::MLS_256_DHKEMX448_CHACHA20POLY1305_SHA512_Ed448;
    assert_eq!(suite.aead_algorithm(), AeadType::ChaCha20Poly1305);
    assert_eq!(suite.hash_algorithm(), HashType::Sha2_512);
    let suite = Ciphersuite::MLS_256_DHKEMP384_AES256GCM_SHA384_P384;
    assert_eq!(suite.hash_length(), 48);
    assert_eq!(suite.hash_algorithm().size(), 48);
    assert_eq!(suite.signature_algorithm(), SignatureScheme::ECDSA_SECP384R1_SHA384);
    assert_eq!(suite.hpke_config().kdf, HpkeKdfType::HkdfSha384);
    assert!(!suite.is_supported());
}

#[test]
fn ciphersuites_agree_with_the_traits() {
    let pairs = [
        (Ciphersuite::MLS_128_DHKEMX25519_AES128GCM_SHA256_Ed25519, openmls_traits::types::Ciphersuite::MLS_128_DHKEMX25519_AES128GCM_SHA256_Ed25519),
        (Ciphersuite::MLS_128_DHKEMP256_AES128GCM_SHA256_P256, openmls_traits::types::Ciphersuite::MLS_128_DHKEMP256_AES128GCM_SHA256_P256),
        (Ciphersuite::MLS_128_DHKEMX25519_CHACHA20POLY1305_SHA256_Ed25519, openmls_traits::types::Ciphersuite::MLS_128_DHKEMX25519_CHACHA20POLY1305_SHA256_Ed25519),
        (Ciphersuite::MLS_256_DHKEMX448_AES256GCM_SHA512_Ed448, openmls_traits::types::Ciphersuite::MLS_256_DHKEMX448_AES256GCM_SHA512_Ed448),
        (Ciphersuite::MLS_256_DHKEMP521_AES256GCM_SHA512_P521, openmls_traits::types::Ciphersuite::MLS_256_DHKEMP521_AES256GCM_SHA512_P521),
        (Ciphersuite::MLS_256_DHKEMX448_CHACHA20POLY1305_SHA512_Ed448, openmls_traits::types::Ciphersuite::MLS_256_DHKEMX448_CHACHA20POLY1305_SHA512_Ed448),
        (Ciphersuite::MLS_256_DHKEMP384_AES256GCM_SHA384_P384, openmls_traits::types::Ciphersuite::MLS_256_DHKEMP384_AES256GCM_SHA384_P384),
    ];
    for (own, outside) in pairs {
        assert_eq!(own.value(), u16::from(outside));
        assert_eq!(own.hash_length(), outside.hash_length());
        assert_eq!(own.aead_key_length(), outside.aead_key_length());
        assert_eq!(own.aead_nonce_length(), outside.aead_nonce_length());
        assert_eq!(
            format!("{:?}", own.signature_algorithm()),
            format!("{:?}", outside.signature_algorithm())
        );
        assert_eq!(
            format!("{:?}", own.hpke_config().kem),
            format!("{:?}", outside.hpke_kem_algorithm())
        );
        assert_eq!(
            format!("{:?}", own.hpke_config().kdf),
            format!("{:?}", outside.hpke_kdf_algorithm())
        );
        assert_eq!(
            format!("{:?}", own.hpke_config().aead),
            format!("{:?}", outside.hpke_aead_algorithm())
        );
        assert_eq!(
            format!("{:?}", own.aead_algorithm()),
            format!("{:?}", outside.aead_algorithm())
        );
        assert_eq!(
            format!("{:?}", own.hash_algorithm()),
            format!("{:?}", outside.hash_algorithm())
        );
    }
}

#[test]
fn versions_and_configurations() {
    assert_eq!(ProtocolVersion::default(), ProtocolVersion::Mls10);
    assert_eq!(ProtocolVersion::Mls10.value(), 1);
    assert_eq!(ProtocolVersion::Mls10Draft11.value(), 200);
    let config =
        CryptoConfig::with_default_version(Ciphersuite::MLS_256_DHKEMP384_AES256GCM_SHA384_P384);
    assert_eq!(config.version, ProtocolVersion::Mls10);
    assert_eq!(config.ciphersuite, Ciphersuite::MLS_256_DHKEMP384_AES256GCM_SHA384_P384);
    assert_eq!(VerifiableCiphersuite::new(77).0, 77);
    assert_eq!(
        VerifiableCiphersuite::from_ciphersuite(Ciphersuite::MLS_128_DHKEMP256_AES128GCM_SHA256_P256),
        VerifiableCiphersuite(2)
    );
}
