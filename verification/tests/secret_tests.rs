use openmls::secret::{serialized_label, Secret};
use openmls::types::{Ciphersuite, CryptoError, ProtocolVersion};
use openmls_rust_crypto::OpenMlsRustCrypto;
use openmls_traits::crypto::OpenMlsCrypto;
use openmls_traits::OpenMlsCryptoProvider;
use tls_codec::Serialize;

const SUITE: Ciphersuite = Ciphersuite::MLS_128_DHKEMX25519_AES128GCM_SHA256_Ed25519;

fn reference_label(label: &str, context: &[u8], length: u16) -> Vec<u8> {
    let mut out = length.tls_serialize_detached().unwrap();
    let full = format!("MLS 1.0 {label}");
    out.extend(
        tls_codec::VLBytes::new(full.into_bytes())
            .tls_serialize_detached()
            .unwrap(),
    );
    out.extend(
        tls_codec::VLBytes::new(context.to_vec())
            .tls_serialize_detached()
            .unwrap(),
    );
    out
}

#[test]
fn label_of_a_derivation_is_length_label_and_context() {
    let encoded = serialized_label(b"tree", b"left", 32).unwrap();
    assert_eq!(
        encoded,
        vec![
            0, 32, 12, b'M', b'L', b'S', b' ', b'1', b'.', b'0', b' ', b't', b'r', b'e', b'e', 4,
            b'l', b'e', b'f', b't'
        ]
    );
    assert_eq!(encoded, reference_label("tree", b"left", 32));
}

#[test]
fn label_of_a_derivation_refuses_lengths_over_16_bits() {
    assert_eq!(
        serialized_label(b"tree", b"left", 0x1_0000),
        Err(CryptoError::KdfLabelTooLarge)
    );
    assert!(serialized_label(b"tree", b"left", 0xffff).is_ok());
}

#[test]
fn labelled_derivation_is_hkdf_expand_with_the_encoded_label() {
    let backend = OpenMlsRustCrypto::default();
    let secret = Secret::from_slice(&[0x11; 32], ProtocolVersion::Mls10, SUITE);
    let derived = secret
        .kdf_expand_label(&backend, "secret", &[0, 0, 0, 7], 32)
        .unwrap();
    let expected = backend
        .crypto()
        .hkdf_expand(
            openmls_traits::types::HashType::Sha2_256,
            &[0x11; 32],
            &reference_label("secret", &[0, 0, 0, 7], 32),
            32,
        )
        .unwrap();
    assert_eq!(derived.as_slice(), expected.as_slice());
    assert_ne!(derived.as_slice(), secret.as_slice());
    assert_eq!(derived.ciphersuite(), SUITE);
    assert_eq!(derived.version(), ProtocolVersion::Mls10);
}

#[test]
fn derivation_depends_on_label_context_and_length() {
    let backend = OpenMlsRustCrypto::default();
    let secret = Secret::from_slice(&[0x22; 32], ProtocolVersion::Mls10, SUITE);
    let a = secret.kdf_expand_label(&backend, "key", &[1], 16).unwrap();
    let b = secret.kdf_expand_label(&backend, "nonce", &[1], 16).unwrap();
    let c = secret.kdf_expand_label(&backend, "key", &[2], 16).unwrap();
    let d = secret.kdf_expand_label(&backend, "key", &[1], 16).unwrap();
    assert_eq!(a.as_slice().len(), 16);
    assert_ne!(a.as_slice(), b.as_slice());
    assert_ne!(a.as_slice(), c.as_slice());
    assert_eq!(a.as_slice(), d.as_slice());
}

#[test]
fn derivation_from_a_short_secret_fails() {
    let backend = OpenMlsRustCrypto::default();
    let secret = Secret::from_slice(&[0x33; 31], ProtocolVersion::Mls10, SUITE);
    assert_eq!(
        secret
            .kdf_expand_label(&backend, "key", &[], 16)
            .map(|_| ()),
        Err(CryptoError::CryptoLibraryError)
    );
}

#[test]
fn derivation_of_nothing_fails() {
    let backend = OpenMlsRustCrypto::default();
    let secret = Secret::from_slice(&[0x33; 32], ProtocolVersion::Mls10, SUITE);
    assert_eq!(
        secret.kdf_expand_label(&backend, "key", &[], 0).map(|_| ()),
        Err(CryptoError::InvalidLength)
    );
}

#[test]
fn derivation_of_too_much_fails() {
    let backend = OpenMlsRustCrypto::default();
    let secret = Secret::from_slice(&[0x33; 32], ProtocolVersion::Mls10, SUITE);
    assert!(secret.hkdf_expand(&backend, b"info", 255 * 32).is_ok());
    assert_eq!(
        secret.hkdf_expand(&backend, b"info", 255 * 32 + 1).map(|_| ()),
        Err(CryptoError::CryptoLibraryError)
    );
    assert_eq!(
        secret.hkdf_expand(&backend, b"info", 0x1_0000).map(|_| ()),
        Err(CryptoError::CryptoLibraryError)
    );
    assert_eq!(
        secret
            .kdf_expand_label(&backend, "key", &[], 0x1_0000)
            .map(|_| ()),
        Err(CryptoError::KdfLabelTooLarge)
    );
}

#[test]
fn random_secret_is_as_long_as_the_hash() {
    let backend = OpenMlsRustCrypto::default();
    let a = Secret::random(SUITE, &backend, ProtocolVersion::Mls10).unwrap();
    let b = Secret::random(SUITE, &backend, ProtocolVersion::Mls10).unwrap();
    assert_eq!(a.as_slice().len(), 32);
    assert_ne!(a.as_slice(), b.as_slice());
    let c = Secret::random(
        Ciphersuite::MLS_256_DHKEMP384_AES256GCM_SHA384_P384,
        &backend,
        ProtocolVersion::Mls10,
    )
    .unwrap();
    assert_eq!(c.as_slice().len(), 48);
    let copy = a.duplicate();
    assert_eq!(copy.as_slice(), a.as_slice());
}
