use openmls::framing::HpkeCiphertext;
use openmls::hpke::{decrypt_with_label, encrypt_context, encrypt_with_label, HpkeError};
use openmls::keys::derive_hpke_key_pair;
use openmls::secret::Secret;
use openmls::types::{Ciphersuite, CryptoConfig, CryptoError, LibraryError, ProtocolVersion};
use openmls_rust_crypto::OpenMlsRustCrypto;
use openmls_traits::crypto::OpenMlsCrypto;
use openmls_traits::OpenMlsCryptoProvider;

fn suites() -> [Ciphersuite; 2] {
    [
        Ciphersuite::MLS_128_DHKEMX25519_AES128GCM_SHA256_Ed25519,
        Ciphersuite::MLS_128_DHKEMX25519_CHACHA20POLY1305_SHA256_Ed25519,
    ]
}

fn key_pair(backend: &OpenMlsRustCrypto, ciphersuite: Ciphersuite) -> (Vec<u8>, Vec<u8>) {
    let ikm = Secret::random(ciphersuite, backend, ProtocolVersion::Mls10)
        .expect("Not enough randomness.");
    derive_hpke_key_pair(
        backend,
        CryptoConfig::with_default_version(ciphersuite),
        ikm.as_slice(),
    )
    .unwrap()
}

// Spot test to make sure hpke seal/open work.
#[test]
fn test_hpke_seal_open() {
    let backend = OpenMlsRustCrypto::default();
    for ciphersuite in suites() {
        let plaintext = &[1, 2, 3];
        let (private, public) = key_pair(&backend, ciphersuite);
        let ciphertext =
            encrypt_with_label(&public, "label", &[1, 2, 3], plaintext, ciphersuite, &backend)
                .unwrap();
        let decrypted_payload =
            decrypt_with_label(&private, "label", &[1, 2, 3], &ciphertext, ciphersuite, &backend)
                .expect("Unexpected error while decrypting a valid ciphertext.");
        assert_eq!(decrypted_payload, plaintext);

        let mut broken_kem_output = ciphertext.kem_output.clone();
        broken_kem_output.pop();
        let mut broken_ciphertext = ciphertext.ciphertext.clone();
        broken_ciphertext.pop();
        let broken_ciphertext1 = HpkeCiphertext {
            kem_output: broken_kem_output,
            ciphertext: ciphertext.ciphertext.clone(),
        };
        let broken_ciphertext2 = HpkeCiphertext {
            kem_output: ciphertext.kem_output,
            ciphertext: broken_ciphertext,
        };
        assert_eq!(
            decrypt_with_label(
                &private,
                "label",
                &[1, 2, 3],
                &broken_ciphertext1,
                ciphersuite,
                &backend
            )
            .map_err(|_| CryptoError::HpkeDecryptionError)
            .expect_err("Erroneously correct ciphertext decryption of broken ciphertext."),
            CryptoError::HpkeDecryptionError
        );
        assert_eq!(
            decrypt_with_label(
                &private,
                "label",
                &[1, 2, 3],
                &broken_ciphertext2,
                ciphersuite,
                &backend
            )
            .map_err(|_| CryptoError::HpkeDecryptionError)
            .expect_err("Erroneously correct ciphertext decryption of broken ciphertext."),
            CryptoError::HpkeDecryptionError
        );
    }
}

#[test]
fn flipped_bits_are_refused() {
    let backend = OpenMlsRustCrypto::default();
    let ciphersuite = suites()[0];
    let (private, public) = key_pair(&backend, ciphersuite);
    let sealed =
        encrypt_with_label(&public, "label", b"context", b"plaintext", ciphersuite, &backend)
            .unwrap();
    for byte in 0..sealed.kem_output.len() {
        let mut kem_output = sealed.kem_output.clone();
        kem_output[byte] ^= 0x10;
        let broken = HpkeCiphertext {
            kem_output,
            ciphertext: sealed.ciphertext.clone(),
        };
        assert_eq!(
            decrypt_with_label(&private, "label", b"context", &broken, ciphersuite, &backend),
            Err(HpkeError::DecryptionFailed)
        );
    }
    for byte in 0..sealed.ciphertext.len() {
        let mut ciphertext = sealed.ciphertext.clone();
        ciphertext[byte] ^= 0x01;
        let broken = HpkeCiphertext {
            kem_output: sealed.kem_output.clone(),
            ciphertext,
        };
        assert_eq!(
            decrypt_with_label(&private, "label", b"context", &broken, ciphersuite, &backend),
            Err(HpkeError::DecryptionFailed)
        );
    }
}

#[test]
fn label_and_context_bind_the_ciphertext() {
    let backend = OpenMlsRustCrypto::default();
    let ciphersuite = suites()[1];
    let (private, public) = key_pair(&backend, ciphersuite);
    let (other_private, _) = key_pair(&backend, ciphersuite);
    let sealed =
        encrypt_with_label(&public, "Welcome", b"info", b"secrets", ciphersuite, &backend).unwrap();
    assert_eq!(sealed.kem_output.len(), 32);
    assert_eq!(sealed.ciphertext.len(), 7 + 16);
    assert_eq!(
        decrypt_with_label(&private, "Welcome", b"info", &sealed, ciphersuite, &backend),
        Ok(b"secrets".to_vec())
    );
    assert_eq!(
        decrypt_with_label(&private, "UpdatePathNode", b"info", &sealed, ciphersuite, &backend),
        Err(HpkeError::DecryptionFailed)
    );
    assert_eq!(
        decrypt_with_label(&private, "Welcome", b"inf0", &sealed, ciphersuite, &backend),
        Err(HpkeError::DecryptionFailed)
    );
    assert_eq!(
        decrypt_with_label(&other_private, "Welcome", b"info", &sealed, ciphersuite, &backend),
        Err(HpkeError::DecryptionFailed)
    );
    assert_eq!(
        decrypt_with_label(&private, "Welcome", b"info", &sealed, suites()[0], &backend),
        Err(HpkeError::DecryptionFailed)
    );
    let again =
        encrypt_with_label(&public, "Welcome", b"info", b"secrets", ciphersuite, &backend).unwrap();
    assert_ne!(again, sealed);
}

#[test]
fn encryption_is_that_of_the_provider_with_the_labelled_info() {
    let backend = OpenMlsRustCrypto::default();
    let ciphersuite = suites()[0];
    let (private, public) = key_pair(&backend, ciphersuite);
    let info = encrypt_context("label", &[9, 9]).unwrap();
    assert_eq!(
        info,
        vec![13, b'M', b'L', b'S', b' ', b'1', b'.', b'0', b' ', b'l', b'a', b'b', b'e', b'l', 2, 9, 9]
    );
    let config =
        openmls_traits::types::Ciphersuite::MLS_128_DHKEMX25519_AES128GCM_SHA256_Ed25519
            .hpke_config();
    let sealed = backend
        .crypto()
        .hpke_seal(config, &public, &info, &[], b"from the provider");
    let ours = HpkeCiphertext {
        kem_output: sealed.kem_output.as_slice().to_vec(),
        ciphertext: sealed.ciphertext.as_slice().to_vec(),
    };
    assert_eq!(
        decrypt_with_label(&private, "label", &[9, 9], &ours, ciphersuite, &backend),
        Ok(b"from the provider".to_vec())
    );
    let sealed =
        encrypt_with_label(&public, "label", &[9, 9], b"from the library", ciphersuite, &backend)
            .unwrap();
    let theirs = openmls_traits::types::HpkeCiphertext {
        kem_output: sealed.kem_output.into(),
        ciphertext: sealed.ciphertext.into(),
    };
    let config =
        openmls_traits::types::Ciphersuite::MLS_128_DHKEMX25519_AES128GCM_SHA256_Ed25519
            .hpke_config();
    assert_eq!(
        backend
            .crypto()
            .hpke_open(config, &theirs, &private, &info, &[])
            .unwrap(),
        b"from the library".to_vec()
    );
}

#[test]
fn encryption_is_refused_for_other_keys_and_ciphersuites() {
    let backend = OpenMlsRustCrypto::default();
    let ciphersuite = suites()[0];
    assert_eq!(
        encrypt_with_label(&[1; 31], "label", b"", b"plaintext", ciphersuite, &backend),
        Err(HpkeError::LibraryError(LibraryError::UnexpectedCryptoError(
            CryptoError::InvalidLength
        )))
    );
    assert_eq!(
        encrypt_with_label(
            &[1; 65],
            "label",
            b"",
            b"plaintext",
            Ciphersuite::MLS_128_DHKEMP256_AES128GCM_SHA256_P256,
            &backend
        ),
        Err(HpkeError::LibraryError(LibraryError::UnexpectedCryptoError(
            CryptoError::UnsupportedCiphersuite
        )))
    );
    let sealed = HpkeCiphertext {
        kem_output: vec![1; 65],
        ciphertext: vec![2; 40],
    };
    assert_eq!(
        decrypt_with_label(
            &[3; 32],
            "label",
            b"",
            &sealed,
            Ciphersuite::MLS_256_DHKEMP384_AES256GCM_SHA384_P384,
            &backend
        ),
        Err(HpkeError::LibraryError(LibraryError::UnexpectedCryptoError(
            CryptoError::UnsupportedCiphersuite
        )))
    );
    let (_, public) = key_pair(&backend, ciphersuite);
    let empty = encrypt_with_label(&public, "label", b"", b"", ciphersuite, &backend).unwrap();
    assert_eq!(empty.ciphertext.len(), 16);
}
