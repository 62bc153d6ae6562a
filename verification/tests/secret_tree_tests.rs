use openmls::framing::ContentType;
use openmls::secret::Secret;
use openmls::secret_tree::{EncryptionSecret, SecretTree, SecretTreeError, SecretType};
use openmls::sender_ratchet::SenderRatchetConfiguration;
use openmls::tree_math::{LeafNodeIndex, TreeSize};
use openmls::types::{Ciphersuite, CryptoError, ProtocolVersion};
use openmls_rust_crypto::OpenMlsRustCrypto;

const SUITE: Ciphersuite = Ciphersuite::MLS_128_DHKEMX25519_AES128GCM_SHA256_Ed25519;
const OTHER_SUITE: Ciphersuite = Ciphersuite::MLS_128_DHKEMX25519_CHACHA20POLY1305_SHA256_Ed25519;

fn tree(leaves: u32, own: u32) -> SecretTree {
    let secret = Secret::from_slice(&[0x5a; 32], ProtocolVersion::Mls10, SUITE);
    SecretTree::new(
        EncryptionSecret::new(secret),
        TreeSize::from_leaf_count(leaves).unwrap(),
        LeafNodeIndex::new(own),
    )
}

fn kinds() -> [SecretType; 2] {
    [SecretType::HandshakeSecret, SecretType::ApplicationSecret]
}

#[test]
fn members_derive_the_same_key_material() {
    let backend = OpenMlsRustCrypto::default();
    let configuration = SenderRatchetConfiguration::default();
    for leaves in [1u32, 2, 3, 8, 13] {
        let n = TreeSize::from_leaf_count(leaves).unwrap().leaf_count();
        for sender_index in 0..n {
            let receiver_index = (sender_index + 1) % n.max(2);
            let mut sender = tree(leaves, sender_index);
            let mut receiver = tree(leaves, receiver_index);
            for kind in kinds() {
                for expected in 0..3u32 {
                    let (generation, sent) = sender
                        .secret_for_encryption(
                            SUITE,
                            &backend,
                            LeafNodeIndex::new(sender_index),
                            kind,
                        )
                        .unwrap();
                    assert_eq!(generation, expected);
                    let received = receiver
                        .secret_for_decryption(
                            SUITE,
                            &backend,
                            LeafNodeIndex::new(sender_index),
                            kind,
                            generation,
                            &configuration,
                        )
                        .unwrap();
                    assert_eq!(sent.key(), received.key());
                    assert_eq!(sent.nonce(), received.nonce());
                }
            }
        }
    }
}

#[test]
fn members_and_kinds_have_different_key_material() {
    let backend = OpenMlsRustCrypto::default();
    let configuration = SenderRatchetConfiguration::default();
    let mut receiver = tree(8, 0);
    let mut keys: Vec<Vec<u8>> = Vec::new();
    for index in 1..8u32 {
        for kind in kinds() {
            let material = receiver
                .secret_for_decryption(
                    SUITE,
                    &backend,
                    LeafNodeIndex::new(index),
                    kind,
                    0,
                    &configuration,
                )
                .unwrap();
            assert!(!keys.contains(&material.key().to_vec()));
            keys.push(material.key().to_vec());
        }
    }
    assert_eq!(keys.len(), 14);
}

#[test]
fn order_of_requests_does_not_change_the_key_material() {
    let backend = OpenMlsRustCrypto::default();
    let configuration = SenderRatchetConfiguration::default();
    let mut forwards = tree(8, 0);
    let mut backwards = tree(8, 0);
    let mut first: Vec<Vec<u8>> = Vec::new();
    for index in 1..8u32 {
        let material = forwards
            .secret_for_decryption(
                SUITE,
                &backend,
                LeafNodeIndex::new(index),
                SecretType::ApplicationSecret,
                2,
                &configuration,
            )
            .unwrap();
        first.push(material.key().to_vec());
    }
    for index in (1..8u32).rev() {
        let material = backwards
            .secret_for_decryption(
                SUITE,
                &backend,
                LeafNodeIndex::new(index),
                SecretType::ApplicationSecret,
                2,
                &configuration,
            )
            .unwrap();
        assert_eq!(material.key(), &first[(index - 1) as usize][..]);
    }
}

#[test]
fn key_material_is_handed_out_once() {
    let backend = OpenMlsRustCrypto::default();
    let configuration = SenderRatchetConfiguration::default();
    let mut receiver = tree(4, 0);
    let index = LeafNodeIndex::new(2);
    assert!(receiver
        .secret_for_decryption(
            SUITE,
            &backend,
            index,
            SecretType::ApplicationSecret,
            3,
            &configuration
        )
        .is_ok());
    assert_eq!(
        receiver
            .secret_for_decryption(
                SUITE,
                &backend,
                index,
                SecretType::ApplicationSecret,
                3,
                &configuration
            )
            .map(|_| ()),
        Err(SecretTreeError::SecretReuseError)
    );
    // the other kind of the same member has its own ratchet
    assert!(receiver
        .secret_for_decryption(
            SUITE,
            &backend,
            index,
            SecretType::HandshakeSecret,
            3,
            &configuration
        )
        .is_ok());
}

#[test]
fn generation_of_a_ratchet_in_the_tree() {
    let backend = OpenMlsRustCrypto::default();
    let configuration = SenderRatchetConfiguration::default();
    let mut receiver = tree(4, 0);
    let index = LeafNodeIndex::new(3);
    assert_eq!(receiver.generation(index, SecretType::ApplicationSecret), 0);
    assert!(receiver
        .ratchet_opt(index, SecretType::ApplicationSecret)
        .unwrap()
        .is_none());
    receiver
        .secret_for_decryption(
            SUITE,
            &backend,
            index,
            SecretType::ApplicationSecret,
            6,
            &configuration,
        )
        .unwrap();
    assert_eq!(receiver.generation(index, SecretType::ApplicationSecret), 7);
    assert_eq!(receiver.generation(index, SecretType::HandshakeSecret), 0);
    assert!(receiver
        .ratchet_opt(index, SecretType::HandshakeSecret)
        .unwrap()
        .is_some());
    assert_eq!(
        receiver.generation(LeafNodeIndex::new(1), SecretType::ApplicationSecret),
        0
    );
    receiver
        .secret_for_encryption(
            SUITE,
            &backend,
            LeafNodeIndex::new(0),
            SecretType::HandshakeSecret,
        )
        .unwrap();
    assert_eq!(
        receiver.generation(LeafNodeIndex::new(0), SecretType::HandshakeSecret),
        1
    );
}

#[test]
fn leaf_outside_the_tree_is_refused() {
    let backend = OpenMlsRustCrypto::default();
    let configuration = SenderRatchetConfiguration::default();
    let mut receiver = tree(3, 0);
    assert_eq!(
        receiver
            .secret_for_decryption(
                SUITE,
                &backend,
                LeafNodeIndex::new(4),
                SecretType::ApplicationSecret,
                0,
                &configuration
            )
            .map(|_| ()),
        Err(SecretTreeError::IndexOutOfBounds)
    );
    assert_eq!(
        receiver
            .secret_for_encryption(
                SUITE,
                &backend,
                LeafNodeIndex::new(4),
                SecretType::ApplicationSecret
            )
            .map(|_| ()),
        Err(SecretTreeError::IndexOutOfBounds)
    );
    assert_eq!(
        receiver
            .ratchet_opt(LeafNodeIndex::new(4), SecretType::ApplicationSecret)
            .map(|_| ()),
        Err(SecretTreeError::IndexOutOfBounds)
    );
    // the tree of three members has four leaves
    assert!(receiver
        .secret_for_decryption(
            SUITE,
            &backend,
            LeafNodeIndex::new(3),
            SecretType::ApplicationSecret,
            0,
            &configuration
        )
        .is_ok());
}

#[test]
fn own_ratchet_does_not_decrypt_and_others_do_not_encrypt() {
    let backend = OpenMlsRustCrypto::default();
    let configuration = SenderRatchetConfiguration::default();
    let mut own = tree(4, 1);
    assert_eq!(
        own.secret_for_decryption(
            SUITE,
            &backend,
            LeafNodeIndex::new(1),
            SecretType::ApplicationSecret,
            0,
            &configuration
        )
        .map(|_| ()),
        Err(SecretTreeError::RatchetTypeError)
    );
    assert_eq!(
        own.secret_for_encryption(
            SUITE,
            &backend,
            LeafNodeIndex::new(2),
            SecretType::ApplicationSecret
        )
        .map(|_| ()),
        Err(SecretTreeError::RatchetTypeError)
    );
    // the refused requests derived the ratchets all the same
    assert!(own
        .ratchet_opt(LeafNodeIndex::new(1), SecretType::ApplicationSecret)
        .unwrap()
        .is_some());
    assert!(own
        .secret_for_encryption(
            SUITE,
            &backend,
            LeafNodeIndex::new(1),
            SecretType::ApplicationSecret
        )
        .is_ok());
}

#[test]
fn tree_of_another_ciphersuite_is_refused() {
    let backend = OpenMlsRustCrypto::default();
    let mut own = tree(4, 1);
    assert_eq!(
        own.secret_for_encryption(
            OTHER_SUITE,
            &backend,
            LeafNodeIndex::new(1),
            SecretType::ApplicationSecret
        )
        .map(|_| ()),
        Err(SecretTreeError::LibraryError)
    );
    assert!(own
        .ratchet_opt(LeafNodeIndex::new(1), SecretType::ApplicationSecret)
        .unwrap()
        .is_none());
}

#[test]
fn tree_of_a_short_secret_derives_nothing() {
    let backend = OpenMlsRustCrypto::default();
    for leaves in [1u32, 4] {
        let secret = Secret::from_slice(&[0x5a; 8], ProtocolVersion::Mls10, SUITE);
        let mut short = SecretTree::new(
            EncryptionSecret::new(secret),
            TreeSize::from_leaf_count(leaves).unwrap(),
            LeafNodeIndex::new(0),
        );
        assert_eq!(
            short
                .secret_for_encryption(
                    SUITE,
                    &backend,
                    LeafNodeIndex::new(0),
                    SecretType::ApplicationSecret
                )
                .map(|_| ()),
            Err(SecretTreeError::CryptoError(CryptoError::CryptoLibraryError))
        );
        assert!(short
            .ratchet_opt(LeafNodeIndex::new(0), SecretType::ApplicationSecret)
            .unwrap()
            .is_none());
    }
}

#[test]
fn secret_type_of_a_content_type() {
    assert_eq!(
        SecretType::from(&ContentType::Application),
        SecretType::ApplicationSecret
    );
    assert_eq!(
        SecretType::from(&ContentType::Commit),
        SecretType::HandshakeSecret
    );
    assert_eq!(
        SecretType::from(&ContentType::Proposal),
        SecretType::HandshakeSecret
    );
}

#[test]
fn large_tree_derives_along_one_path_only() {
    let backend = OpenMlsRustCrypto::default();
    let configuration = SenderRatchetConfiguration::default();
    let mut sender = tree(1000, 999);
    let mut receiver = tree(1000, 0);
    let (generation, sent) = sender
        .secret_for_encryption(
            SUITE,
            &backend,
            LeafNodeIndex::new(999),
            SecretType::HandshakeSecret,
        )
        .unwrap();
    let received = receiver
        .secret_for_decryption(
            SUITE,
            &backend,
            LeafNodeIndex::new(999),
            SecretType::HandshakeSecret,
            generation,
            &configuration,
        )
        .unwrap();
    assert_eq!(sent.key(), received.key());
    assert_eq!(sent.nonce(), received.nonce());
}

#[test]
fn ciphersuite_with_the_lengths_of_the_tree_derives_the_same() {
    // Secrets of 32 bytes, keys of 16, nonces of 12, as under the suite of
    // the tree
    let same_lengths = Ciphersuite::MLS_128_DHKEMP256_AES128GCM_SHA256_P256;
    assert!(same_lengths.same_lengths(SUITE));
    assert!(!OTHER_SUITE.same_lengths(SUITE));
    assert!(!Ciphersuite::MLS_256_DHKEMP384_AES256GCM_SHA384_P384.same_lengths(SUITE));
    let backend = OpenMlsRustCrypto::default();
    let configuration = SenderRatchetConfiguration::default();
    for kind in kinds() {
        let mut sender = tree(4, 2);
        let mut receiver = tree(4, 0);
        let mut reference = tree(4, 0);
        for generation in 0..3u32 {
            let (sent, material) = sender
                .secret_for_encryption(same_lengths, &backend, LeafNodeIndex::new(2), kind)
                .unwrap();
            assert_eq!(sent, generation);
            let received = receiver
                .secret_for_decryption(
                    same_lengths,
                    &backend,
                    LeafNodeIndex::new(2),
                    kind,
                    generation,
                    &configuration,
                )
                .unwrap();
            let expected = reference
                .secret_for_decryption(
                    SUITE,
                    &backend,
                    LeafNodeIndex::new(2),
                    kind,
                    generation,
                    &configuration,
                )
                .unwrap();
            assert_eq!(material.key(), received.key());
            assert_eq!(material.nonce(), received.nonce());
            assert_eq!(received.key(), expected.key());
            assert_eq!(received.nonce(), expected.nonce());
            assert_eq!(received.key().len(), 16);
            assert_eq!(received.nonce().len(), 12);
        }
    }
}
