use openmls::secret::Secret;
use openmls::secret_tree::{derive_tree_secret, SecretTreeError};
use openmls::sender_ratchet::{
    DecryptionRatchet, RatchetSecret, SenderRatchet, SenderRatchetConfiguration,
};
use openmls::types::{Ciphersuite, CryptoError, ProtocolVersion};
use openmls_rust_crypto::OpenMlsRustCrypto;

const SUITE: Ciphersuite = Ciphersuite::MLS_128_DHKEMX25519_AES128GCM_SHA256_Ed25519;
const OTHER_SUITE: Ciphersuite = Ciphersuite::MLS_128_DHKEMX25519_CHACHA20POLY1305_SHA256_Ed25519;

fn base() -> Secret {
    Secret::from_slice(&[0x42; 32], ProtocolVersion::Mls10, SUITE)
}

fn material_of_sender(backend: &OpenMlsRustCrypto, generations: u32) -> Vec<(Vec<u8>, Vec<u8>)> {
    let mut sender = RatchetSecret::initial_ratchet_secret(base());
    let mut out = Vec::new();
    for g in 0..generations {
        let (generation, material) = sender.ratchet_forward(backend, SUITE).unwrap();
        assert_eq!(generation, g);
        out.push((material.key().to_vec(), material.nonce().to_vec()));
    }
    assert_eq!(sender.generation(), generations);
    out
}

#[test]
fn default_configuration_of_a_ratchet() {
    let configuration = SenderRatchetConfiguration::default();
    assert_eq!(configuration.out_of_order_tolerance(), 5);
    assert_eq!(configuration.maximum_forward_distance(), 1000);
    let configuration = SenderRatchetConfiguration::new(2, 7);
    assert_eq!(configuration.out_of_order_tolerance(), 2);
    assert_eq!(configuration.maximum_forward_distance(), 7);
}

#[test]
fn key_material_has_the_lengths_of_the_ciphersuite() {
    let backend = OpenMlsRustCrypto::default();
    let mut sender = RatchetSecret::initial_ratchet_secret(base());
    let (_, material) = sender.ratchet_forward(&backend, SUITE).unwrap();
    assert_eq!(material.key().len(), 16);
    assert_eq!(material.nonce().len(), 12);
    let secret = Secret::from_slice(&[0x42; 32], ProtocolVersion::Mls10, OTHER_SUITE);
    let mut sender = RatchetSecret::initial_ratchet_secret(secret);
    let (_, material) = sender.ratchet_forward(&backend, OTHER_SUITE).unwrap();
    assert_eq!(material.key().len(), 32);
    assert_eq!(material.nonce().len(), 12);
}

#[test]
fn key_material_is_derived_from_the_secret_of_its_generation() {
    let backend = OpenMlsRustCrypto::default();
    let material = material_of_sender(&backend, 2);
    let first = base();
    let key = derive_tree_secret(&first, "key", 0, 16, &backend).unwrap();
    let nonce = derive_tree_secret(&first, "nonce", 0, 12, &backend).unwrap();
    assert_eq!(material[0].0, key.as_slice());
    assert_eq!(material[0].1, nonce.as_slice());
    let second = derive_tree_secret(&first, "secret", 0, 32, &backend).unwrap();
    let key = derive_tree_secret(&second, "key", 1, 16, &backend).unwrap();
    let nonce = derive_tree_secret(&second, "nonce", 1, 12, &backend).unwrap();
    assert_eq!(material[1].0, key.as_slice());
    assert_eq!(material[1].1, nonce.as_slice());
}

#[test]
fn receiver_derives_the_key_material_of_the_sender() {
    let backend = OpenMlsRustCrypto::default();
    let sent = material_of_sender(&backend, 10);
    let configuration = SenderRatchetConfiguration::default();
    let mut receiver = DecryptionRatchet::new(base());
    for g in 0..10u32 {
        let material = receiver
            .secret_for_decryption(SUITE, &backend, g, &configuration)
            .unwrap();
        assert_eq!(material.key(), &sent[g as usize].0[..]);
        assert_eq!(material.nonce(), &sent[g as usize].1[..]);
        assert_eq!(receiver.generation(), g + 1);
    }
}

#[test]
fn receiver_serves_generations_out_of_order_once() {
    let backend = OpenMlsRustCrypto::default();
    let sent = material_of_sender(&backend, 10);
    let configuration = SenderRatchetConfiguration::new(5, 1000);
    let mut receiver = DecryptionRatchet::new(base());
    let material = receiver
        .secret_for_decryption(SUITE, &backend, 7, &configuration)
        .unwrap();
    assert_eq!(material.key(), &sent[7].0[..]);
    assert_eq!(receiver.generation(), 8);
    for g in [5u32, 3, 6, 4] {
        let material = receiver
            .secret_for_decryption(SUITE, &backend, g, &configuration)
            .unwrap();
        assert_eq!(material.key(), &sent[g as usize].0[..]);
        assert_eq!(material.nonce(), &sent[g as usize].1[..]);
    }
    for g in [7u32, 5, 3, 6, 4] {
        assert_eq!(
            receiver
                .secret_for_decryption(SUITE, &backend, g, &configuration)
                .map(|_| ()),
            Err(SecretTreeError::SecretReuseError)
        );
    }
    assert_eq!(receiver.generation(), 8);
}

#[test]
fn receiver_refuses_a_generation_too_far_behind() {
    let backend = OpenMlsRustCrypto::default();
    let configuration = SenderRatchetConfiguration::new(5, 1000);
    let mut receiver = DecryptionRatchet::new(base());
    receiver
        .secret_for_decryption(SUITE, &backend, 9, &configuration)
        .unwrap();
    assert_eq!(receiver.generation(), 10);
    assert_eq!(
        receiver
            .secret_for_decryption(SUITE, &backend, 4, &configuration)
            .map(|_| ()),
        Err(SecretTreeError::TooDistantInThePast)
    );
    assert!(receiver
        .secret_for_decryption(SUITE, &backend, 5, &configuration)
        .is_ok());
}

#[test]
fn receiver_refuses_a_generation_too_far_ahead() {
    let backend = OpenMlsRustCrypto::default();
    let configuration = SenderRatchetConfiguration::new(5, 10);
    let mut receiver = DecryptionRatchet::new(base());
    assert_eq!(
        receiver
            .secret_for_decryption(SUITE, &backend, 11, &configuration)
            .map(|_| ()),
        Err(SecretTreeError::TooDistantInTheFuture)
    );
    assert_eq!(receiver.generation(), 0);
    assert!(receiver
        .secret_for_decryption(SUITE, &backend, 10, &configuration)
        .is_ok());
    assert_eq!(receiver.generation(), 11);
    assert_eq!(
        receiver
            .secret_for_decryption(SUITE, &backend, 22, &configuration)
            .map(|_| ()),
        Err(SecretTreeError::TooDistantInTheFuture)
    );
    assert!(receiver
        .secret_for_decryption(SUITE, &backend, 21, &configuration)
        .is_ok());
}

#[test]
fn receiver_without_tolerance_keeps_no_window() {
    let backend = OpenMlsRustCrypto::default();
    let configuration = SenderRatchetConfiguration::new(0, 10);
    let mut receiver = DecryptionRatchet::new(base());
    assert!(receiver
        .secret_for_decryption(SUITE, &backend, 3, &configuration)
        .is_ok());
    assert_eq!(
        receiver
            .secret_for_decryption(SUITE, &backend, 3, &configuration)
            .map(|_| ()),
        Err(SecretTreeError::TooDistantInThePast)
    );
    assert_eq!(
        receiver
            .secret_for_decryption(SUITE, &backend, 2, &configuration)
            .map(|_| ()),
        Err(SecretTreeError::TooDistantInThePast)
    );
    // with a tolerance again, the window that was not kept is missed
    let tolerant = SenderRatchetConfiguration::new(5, 10);
    assert_eq!(
        receiver
            .secret_for_decryption(SUITE, &backend, 2, &tolerant)
            .map(|_| ()),
        Err(SecretTreeError::IndexOutOfBounds)
    );
}

#[test]
fn window_is_cut_to_the_tolerance() {
    let backend = OpenMlsRustCrypto::default();
    let narrow = SenderRatchetConfiguration::new(2, 1000);
    let wide = SenderRatchetConfiguration::new(8, 1000);
    let mut receiver = DecryptionRatchet::new(base());
    receiver
        .secret_for_decryption(SUITE, &backend, 9, &narrow)
        .unwrap();
    // generation 8 is kept, generation 7 is not
    assert_eq!(
        receiver
            .secret_for_decryption(SUITE, &backend, 7, &wide)
            .map(|_| ()),
        Err(SecretTreeError::IndexOutOfBounds)
    );
    assert!(receiver
        .secret_for_decryption(SUITE, &backend, 8, &wide)
        .is_ok());
}

#[test]
fn ratchet_of_another_ciphersuite_is_refused() {
    let backend = OpenMlsRustCrypto::default();
    let configuration = SenderRatchetConfiguration::default();
    let mut receiver = DecryptionRatchet::new(base());
    assert_eq!(
        receiver
            .secret_for_decryption(OTHER_SUITE, &backend, 0, &configuration)
            .map(|_| ()),
        Err(SecretTreeError::LibraryError)
    );
    let mut sender = RatchetSecret::initial_ratchet_secret(base());
    assert_eq!(
        sender.ratchet_forward(&backend, OTHER_SUITE).map(|_| ()),
        Err(SecretTreeError::LibraryError)
    );
    assert_eq!(sender.generation(), 0);
}

#[test]
fn ratchet_of_a_short_secret_does_not_advance() {
    let backend = OpenMlsRustCrypto::default();
    let short = Secret::from_slice(&[1; 16], ProtocolVersion::Mls10, SUITE);
    let mut sender = RatchetSecret::initial_ratchet_secret(short);
    assert_eq!(
        sender.ratchet_forward(&backend, SUITE).map(|_| ()),
        Err(SecretTreeError::CryptoError(CryptoError::CryptoLibraryError))
    );
    assert_eq!(sender.generation(), 0);
    let short = Secret::from_slice(&[1; 16], ProtocolVersion::Mls10, SUITE);
    let mut receiver = DecryptionRatchet::new(short);
    assert_eq!(
        receiver
            .secret_for_decryption(SUITE, &backend, 3, &SenderRatchetConfiguration::default())
            .map(|_| ()),
        Err(SecretTreeError::CryptoError(CryptoError::CryptoLibraryError))
    );
    assert_eq!(receiver.generation(), 0);
}

#[test]
fn last_generation_is_refused() {
    let backend = OpenMlsRustCrypto::default();
    let configuration = SenderRatchetConfiguration::new(5, u32::MAX);
    let mut receiver = DecryptionRatchet::new(base());
    assert_eq!(
        receiver
            .secret_for_decryption(SUITE, &backend, u32::MAX, &configuration)
            .map(|_| ()),
        Err(SecretTreeError::RatchetTooLong)
    );
    assert_eq!(receiver.generation(), 0);
}

#[test]
fn generation_of_a_sender_ratchet_of_either_kind() {
    let backend = OpenMlsRustCrypto::default();
    let mut sender = RatchetSecret::initial_ratchet_secret(base());
    sender.ratchet_forward(&backend, SUITE).unwrap();
    sender.ratchet_forward(&backend, SUITE).unwrap();
    assert_eq!(SenderRatchet::EncryptionRatchet(sender).generation(), 2);
    let mut receiver = DecryptionRatchet::new(base());
    receiver
        .secret_for_decryption(SUITE, &backend, 4, &SenderRatchetConfiguration::default())
        .unwrap();
    assert_eq!(SenderRatchet::DecryptionRatchet(receiver).generation(), 5);
}

#[test]
fn ratchet_advances_with_the_lengths_of_the_ciphersuite_given() {
    let same_lengths = Ciphersuite::MLS_128_DHKEMP256_AES128GCM_SHA256_P256;
    let backend = OpenMlsRustCrypto::default();
    let configuration = SenderRatchetConfiguration::default();
    let expected = material_of_sender(&backend, 3);
    let mut sender = RatchetSecret::initial_ratchet_secret(base());
    let mut receiver = DecryptionRatchet::new(base());
    for generation in 0..3u32 {
        let (sent, material) = sender.ratchet_forward(&backend, same_lengths).unwrap();
        assert_eq!(sent, generation);
        assert_eq!(material.key(), &expected[generation as usize].0[..]);
        assert_eq!(material.nonce(), &expected[generation as usize].1[..]);
        let received = receiver
            .secret_for_decryption(same_lengths, &backend, generation, &configuration)
            .unwrap();
        assert_eq!(received.key(), material.key());
        assert_eq!(received.nonce(), material.nonce());
    }
    assert_eq!(sender.generation(), 3);
    assert_eq!(receiver.generation(), 3);
}
