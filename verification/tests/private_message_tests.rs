use openmls::capabilities::Capabilities;
use openmls::credentials::{Credential, CredentialType, CredentialWithKey};
use openmls::extensions::Extensions;
use openmls::framing::{ContentType, PrivateMessage, PrivateMessageIn};
use openmls::group::{GroupEpoch, GroupId};
use openmls::keys::{EncryptionKey, SignatureKeyPair, SignaturePublicKey};
use openmls::leaf_node::{LeafNode, LeafNodeSource, TreeInfoTbs};
use openmls::message_secrets::{MessageDecryptionError, MessageSecrets};
use openmls::mls_group::{
    tag, CoreGroup, GroupContext, ProcessMessageError, ResumptionPskStore,
};
use openmls::private_message::{
    encode_application_content, encode_content_aad, encode_framed_content_tbs,
    encode_sender_data_aad, guard_nonce, open_content, open_sender_data,
    parse_application_content, seal_content, seal_private_message, sender_data_material,
    signed_application_content, MessageEncryptionError, SenderData,
};
use openmls::ratchet_tree::RatchetTree;
use openmls::reader::ReadError;
use openmls::schedule::{EpochSecrets, JoinerSecret, KeySchedule};
use openmls::secret::Secret;
use openmls::secret_tree::{EncryptionSecret, SecretTree, SecretTreeError, SecretType};
use openmls::sender_ratchet::SenderRatchetConfiguration;
use openmls::signable::{OpenMlsSignaturePublicKey, SignatureError};
use openmls::tree_math::{LeafNodeIndex, TreeSize};
use openmls::types::{AeadType, Ciphersuite, HashType, ProtocolVersion, SignatureScheme};
use openmls_rust_crypto::OpenMlsRustCrypto;
use openmls_traits::crypto::OpenMlsCrypto;
use openmls_traits::OpenMlsCryptoProvider;

const SUITE: Ciphersuite = Ciphersuite::MLS_128_DHKEMX25519_AES128GCM_SHA256_Ed25519;

fn epoch_secret(byte: u8) -> Secret {
    Secret::from_slice(&[byte; 32], ProtocolVersion::Mls10, SUITE)
}

struct Member {
    signer: SignatureKeyPair,
    leaf: LeafNode,
}

fn member(backend: &OpenMlsRustCrypto, name: &[u8]) -> Member {
    let signer = SignatureKeyPair::new(backend, SignatureScheme::ED25519).unwrap();
    let leaf = LeafNode::new_with_key(
        EncryptionKey::new(vec![name[0]; 32]),
        CredentialWithKey {
            credential: Credential::new(name.to_vec(), CredentialType::Basic).unwrap(),
            signature_key: SignaturePublicKey::new(signer.to_public_vec()),
        },
        LeafNodeSource::Update,
        Capabilities::default(),
        Extensions::empty(),
        TreeInfoTbs::KeyPackage,
        &signer,
    )
    .unwrap();
    Member { signer, leaf }
}

fn tree_of_two(alice: &Member, bob: &Member) -> RatchetTree {
    RatchetTree::from_nodes(
        vec![Some(alice.leaf.duplicate()), Some(bob.leaf.duplicate())],
        vec![None],
    )
    .unwrap()
}

fn group_of_two(
    backend: &OpenMlsRustCrypto,
    alice: &Member,
    bob: &Member,
    own: u32,
    max_past_epochs: usize,
) -> CoreGroup {
    let tree = tree_of_two(alice, bob);
    let context = GroupContext {
        protocol_version: ProtocolVersion::Mls10,
        ciphersuite: SUITE,
        group_id: GroupId::from_slice(b"Test Group"),
        epoch: GroupEpoch::new(0),
        tree_hash: tree.tree_hash(backend, HashType::Sha2_256).unwrap(),
        confirmed_transcript_hash: vec![2; 32],
        extensions: Extensions::empty(),
    };
    CoreGroup::new(
        backend,
        context,
        tree,
        LeafNodeIndex::new(own),
        max_past_epochs,
        EpochSecrets::derive(backend, &epoch_secret(0)).unwrap(),
        ResumptionPskStore::new(4),
    )
    .unwrap()
}

// Leads a group of two to its next epoch, with the same tree and the commit
// secret given.
fn advance(
    backend: &OpenMlsRustCrypto,
    group: &mut CoreGroup,
    alice: &Member,
    bob: &Member,
    commit_secret: &Secret,
) {
    let tree = tree_of_two(alice, bob);
    let tree_hash = tree.tree_hash(backend, HashType::Sha2_256).unwrap();
    let transcript_hash = vec![group.group_context.epoch().as_u64() as u8; 32];
    let next = group
        .group_context
        .duplicate()
        .next(tree_hash, transcript_hash.clone())
        .unwrap();
    let serialized = next.encode().unwrap();
    let joiner_secret = JoinerSecret::new(
        backend,
        Some(commit_secret),
        group.group_epoch_secrets.init_secret.duplicate(),
        &serialized,
    )
    .unwrap();
    let secrets = KeySchedule::init(backend, joiner_secret, None)
        .epoch_secrets(backend, &serialized)
        .unwrap();
    let confirmation_tag = tag(backend, secrets.confirmation_key(), &transcript_hash);
    let staged = group
        .stage_epoch(
            backend,
            Some(commit_secret),
            None,
            tree,
            transcript_hash,
            &confirmation_tag,
        )
        .unwrap();
    group.merge_staged_epoch(staged);
}

// What goes over the wire for a message, and comes back from it.
fn over_the_wire(message: PrivateMessage) -> PrivateMessageIn {
    let bytes = message.encode().unwrap();
    PrivateMessageIn::decode(&bytes).unwrap()
}

#[test]
fn sender_data_is_three_numbers_of_four_bytes() {
    let data = SenderData {
        leaf_index: LeafNodeIndex::new(0x0102_0304),
        generation: 7,
        reuse_guard: 0xdead_beef,
    };
    let encoded = data.encode();
    assert_eq!(
        encoded,
        vec![1, 2, 3, 4, 0, 0, 0, 7, 0xde, 0xad, 0xbe, 0xef]
    );
    assert_eq!(SenderData::decode(&encoded), Ok(data));
    assert_eq!(
        SenderData::decode(&encoded[..11]),
        Err(ReadError::EndOfStream)
    );
    let mut longer = encoded.clone();
    longer.push(0);
    assert_eq!(SenderData::decode(&longer), Err(ReadError::TrailingData));
    assert_eq!(SenderData::decode(&[]), Err(ReadError::EndOfStream));
}

#[test]
fn reuse_guard_changes_the_first_four_bytes_of_the_nonce() {
    let nonce = [0x10u8, 0x20, 0x30, 0x40, 0x50, 0x60, 0x70, 0x80, 0x90, 0xa0, 0xb0, 0xc0];
    assert_eq!(
        guard_nonce(&nonce, 0x0102_0304),
        vec![0x11, 0x22, 0x33, 0x44, 0x50, 0x60, 0x70, 0x80, 0x90, 0xa0, 0xb0, 0xc0]
    );
    assert_eq!(guard_nonce(&nonce, 0), nonce.to_vec());
    assert_eq!(guard_nonce(&nonce[..2], 0xffff_ffff), vec![0xef, 0xdf]);
    assert_eq!(guard_nonce(&[], 5), Vec::<u8>::new());
}

#[test]
fn what_is_authenticated_names_group_epoch_and_content_type() {
    let sender_aad = encode_sender_data_aad(b"ab", 0x0102, ContentType::Application).unwrap();
    assert_eq!(
        sender_aad,
        vec![2, b'a', b'b', 0, 0, 0, 0, 0, 0, 1, 2, 1]
    );
    let aad = encode_content_aad(b"ab", 0x0102, ContentType::Commit, b"xyz").unwrap();
    assert_eq!(
        aad,
        vec![2, b'a', b'b', 0, 0, 0, 0, 0, 0, 1, 2, 3, 3, b'x', b'y', b'z']
    );
    assert_eq!(ContentType::Proposal.value(), 2);
    assert_eq!(ContentType::from_value(3), Some(ContentType::Commit));
    assert_eq!(ContentType::from_value(0), None);
    assert_eq!(ContentType::from_value(4), None);
}

#[test]
fn content_is_padded_to_a_multiple_of_the_padding_size() {
    let data = [9u8; 5];
    let signature = [7u8; 64];
    // 6 bytes for the data, 66 for the signature
    let plain = encode_application_content(&data, &signature, 0).unwrap();
    assert_eq!(plain.len(), 72);
    assert_eq!(&plain[..6], &[5, 9, 9, 9, 9, 9]);
    assert_eq!(&plain[6..8], &[0x40, 64]);
    assert_eq!(&plain[8..], &signature[..]);
    // With the tag of 16 bytes that makes 88; 8 more make 96
    let padded = encode_application_content(&data, &signature, 32).unwrap();
    assert_eq!(padded.len(), 80);
    assert_eq!(&padded[..72], &plain[..]);
    assert_eq!(&padded[72..], &[0u8; 8]);
    // 88 is a multiple of 8 and of 1
    assert_eq!(encode_application_content(&data, &signature, 8).unwrap(), plain);
    assert_eq!(encode_application_content(&data, &signature, 1).unwrap(), plain);
    for padding_size in 1..70usize {
        let padded = encode_application_content(&data, &signature, padding_size).unwrap();
        assert_eq!((padded.len() + 16) % padding_size, 0);
        assert!(padded.len() < plain.len() + padding_size);
        let (read_data, read_signature) = parse_application_content(&padded).unwrap();
        assert_eq!(read_data, data);
        assert_eq!(read_signature, signature);
    }
}

#[test]
fn content_with_a_padding_that_is_not_zero_is_malformed() {
    let mut content = encode_application_content(b"data", b"signature", 64).unwrap();
    assert!(parse_application_content(&content).is_ok());
    let last = content.len() - 1;
    content[last] = 1;
    assert_eq!(
        parse_application_content(&content),
        Err(MessageDecryptionError::MalformedContent)
    );
    assert_eq!(
        parse_application_content(&[]),
        Err(MessageDecryptionError::MalformedContent)
    );
    assert_eq!(
        parse_application_content(&[1, 0]),
        Err(MessageDecryptionError::MalformedContent)
    );
    assert_eq!(
        parse_application_content(&[1, 0, 2, 0]),
        Err(MessageDecryptionError::MalformedContent)
    );
    assert_eq!(
        parse_application_content(&[1, 5, 0]),
        Ok((vec![5], vec![]))
    );
}

#[test]
fn what_the_sender_signs_is_the_framed_content_and_the_context() {
    let tbs = encode_framed_content_tbs(
        ProtocolVersion::Mls10,
        b"g",
        3,
        LeafNodeIndex::new(2),
        b"aad",
        b"hello",
        &[0xaa, 0xbb],
    )
    .unwrap();
    let mut expected = vec![0, 1, 0, 2];
    expected.extend_from_slice(&[1, b'g']);
    expected.extend_from_slice(&[0, 0, 0, 0, 0, 0, 0, 3]);
    expected.extend_from_slice(&[1, 0, 0, 0, 2]);
    expected.extend_from_slice(&[3, b'a', b'a', b'd']);
    expected.push(1);
    expected.extend_from_slice(&[5, b'h', b'e', b'l', b'l', b'o']);
    expected.extend_from_slice(&[0xaa, 0xbb]);
    assert_eq!(tbs, expected);
}

#[test]
fn content_is_encrypted_under_the_guarded_nonce() {
    let backend = OpenMlsRustCrypto::default();
    let mut tree = SecretTree::new(
        EncryptionSecret::new(epoch_secret(1)),
        TreeSize::from_leaf_count(2).unwrap(),
        LeafNodeIndex::new(0),
    );
    let (_, material) = tree
        .secret_for_encryption(SUITE, &backend, LeafNodeIndex::new(0), SecretType::ApplicationSecret)
        .unwrap();
    let sealed = seal_content(&backend, AeadType::Aes128Gcm, &material, 0x0a0b_0c0d, b"aad", b"content").unwrap();
    assert_eq!(sealed.len(), 7 + 16);
    let nonce = guard_nonce(material.nonce(), 0x0a0b_0c0d);
    let expected = backend
        .crypto()
        .aead_encrypt(
            openmls_traits::types::AeadType::Aes128Gcm,
            material.key(),
            b"content",
            &nonce,
            b"aad",
        )
        .unwrap();
    assert_eq!(sealed, expected);
    assert_eq!(
        open_content(&backend, AeadType::Aes128Gcm, &material, 0x0a0b_0c0d, b"aad", &sealed),
        Some(b"content".to_vec())
    );
    // Another guard, other authenticated data or a changed byte are refused
    assert_eq!(
        open_content(&backend, AeadType::Aes128Gcm, &material, 0x0a0b_0c0e, b"aad", &sealed),
        None
    );
    assert_eq!(
        open_content(&backend, AeadType::Aes128Gcm, &material, 0x0a0b_0c0d, b"aae", &sealed),
        None
    );
    let mut changed = sealed.clone();
    changed[0] ^= 1;
    assert_eq!(
        open_content(&backend, AeadType::Aes128Gcm, &material, 0x0a0b_0c0d, b"aad", &changed),
        None
    );
    // The key of another algorithm is of another length
    assert_eq!(
        seal_content(&backend, AeadType::Aes256Gcm, &material, 0, b"aad", b"content"),
        None
    );
}

#[test]
fn sender_data_is_protected_with_a_sample_of_the_ciphertext() {
    let backend = OpenMlsRustCrypto::default();
    let sender_data_secret = epoch_secret(9);
    let ciphertext: Vec<u8> = (0..40u8).collect();
    let (key, nonce) = sender_data_material(&backend, &sender_data_secret, &ciphertext).unwrap();
    assert_eq!(key.as_slice().len(), 16);
    assert_eq!(nonce.as_slice().len(), 12);
    // Only the first 32 bytes of the ciphertext count
    let mut other = ciphertext.clone();
    other[35] ^= 0xff;
    let (same_key, same_nonce) = sender_data_material(&backend, &sender_data_secret, &other).unwrap();
    assert_eq!(key.as_slice(), same_key.as_slice());
    assert_eq!(nonce.as_slice(), same_nonce.as_slice());
    other[31] ^= 0xff;
    let (other_key, _) = sender_data_material(&backend, &sender_data_secret, &other).unwrap();
    assert_ne!(key.as_slice(), other_key.as_slice());
    // The key is the labelled derivation with the sample as context
    let expected = sender_data_secret
        .kdf_expand_label(&backend, "key", &ciphertext[..32], 16)
        .unwrap();
    assert_eq!(key.as_slice(), expected.as_slice());
    // A ciphertext shorter than the sample is taken whole
    let (short_key, _) = sender_data_material(&backend, &sender_data_secret, &ciphertext[..5]).unwrap();
    let expected = sender_data_secret
        .kdf_expand_label(&backend, "key", &ciphertext[..5], 16)
        .unwrap();
    assert_eq!(short_key.as_slice(), expected.as_slice());
}

#[test]
fn sealed_message_names_its_sender_to_who_has_the_sender_data_secret() {
    let backend = OpenMlsRustCrypto::default();
    let sender_data_secret = epoch_secret(9);
    let mut tree = SecretTree::new(
        EncryptionSecret::new(epoch_secret(1)),
        TreeSize::from_leaf_count(4).unwrap(),
        LeafNodeIndex::new(3),
    );
    let (generation, material) = tree
        .secret_for_encryption(SUITE, &backend, LeafNodeIndex::new(3), SecretType::ApplicationSecret)
        .unwrap();
    let sender_data = SenderData {
        leaf_index: LeafNodeIndex::new(3),
        generation,
        reuse_guard: 77,
    };
    let message = seal_private_message(
        &backend,
        AeadType::Aes128Gcm,
        &sender_data_secret,
        &GroupId::from_slice(b"group"),
        GroupEpoch::new(4),
        ContentType::Application,
        b"aad",
        sender_data,
        &material,
        b"content",
    )
    .unwrap();
    assert_eq!(message.group_id.as_slice(), b"group");
    assert_eq!(message.epoch, GroupEpoch::new(4));
    assert_eq!(message.content_type, ContentType::Application);
    assert_eq!(message.authenticated_data, b"aad");
    assert_eq!(message.ciphertext.len(), 7 + 16);
    assert_eq!(message.encrypted_sender_data.len(), 12 + 16);
    let received = over_the_wire(message);
    assert_eq!(
        open_sender_data(&backend, &sender_data_secret, &received),
        Ok(sender_data)
    );
    // Not with another secret, and not for another epoch or group
    assert_eq!(
        open_sender_data(&backend, &epoch_secret(8), &received),
        Err(MessageDecryptionError::AeadError)
    );
    let mut other_epoch = PrivateMessageIn::decode(&{
        let mut m = Vec::new();
        m.extend_from_slice(&[5]);
        m.extend_from_slice(b"group");
        m.extend_from_slice(&5u64.to_be_bytes());
        m.push(1);
        m.extend_from_slice(&[3]);
        m.extend_from_slice(b"aad");
        m.push(received.encrypted_sender_data.len() as u8);
        m.extend_from_slice(&received.encrypted_sender_data);
        m.push(received.ciphertext.len() as u8);
        m.extend_from_slice(&received.ciphertext);
        m
    })
    .unwrap();
    assert_eq!(other_epoch.epoch(), GroupEpoch::new(5));
    assert_eq!(
        open_sender_data(&backend, &sender_data_secret, &other_epoch),
        Err(MessageDecryptionError::AeadError)
    );
    other_epoch.epoch = GroupEpoch::new(4);
    assert_eq!(
        open_sender_data(&backend, &sender_data_secret, &other_epoch),
        Ok(sender_data)
    );
}

#[test]
fn private_message_is_read_back_from_its_encoding() {
    let message = PrivateMessage {
        group_id: GroupId::from_slice(b"Test Group"),
        epoch: GroupEpoch::new(0x0102_0304_0506_0708),
        content_type: ContentType::Proposal,
        authenticated_data: vec![1, 2, 3],
        encrypted_sender_data: vec![4; 28],
        ciphertext: vec![5; 100],
    };
    let bytes = message.encode().unwrap();
    let mut expected = vec![10];
    expected.extend_from_slice(b"Test Group");
    expected.extend_from_slice(&[1, 2, 3, 4, 5, 6, 7, 8]);
    expected.push(2);
    expected.extend_from_slice(&[3, 1, 2, 3]);
    expected.push(28);
    expected.extend_from_slice(&[4; 28]);
    expected.extend_from_slice(&[0x40, 100]);
    expected.extend_from_slice(&[5; 100]);
    assert_eq!(bytes, expected);
    let read = PrivateMessageIn::decode(&bytes).unwrap();
    assert_eq!(read, message.into_private_message_in());
    // Bytes behind the message are left where they are asked for
    let mut longer = bytes.clone();
    longer.extend_from_slice(&[9, 9]);
    assert_eq!(PrivateMessageIn::decode(&longer), Err(ReadError::TrailingData));
    let (read_again, at) = PrivateMessageIn::read(&longer, 0).unwrap();
    assert_eq!(read_again, read);
    assert_eq!(at, bytes.len());
    // A message that is cut short, or of an unknown content type
    for cut in 0..bytes.len() {
        assert_eq!(
            PrivateMessageIn::decode(&bytes[..cut]),
            Err(ReadError::EndOfStream)
        );
    }
    let mut unknown = bytes.clone();
    unknown[19] = 4;
    assert_eq!(PrivateMessageIn::decode(&unknown), Err(ReadError::UnknownValue));
}

#[test]
fn application_message_is_decrypted_once() {
    let backend = OpenMlsRustCrypto::default();
    let configuration = SenderRatchetConfiguration::default();
    let alice = member(&backend, b"Alice");
    let bob = member(&backend, b"Bob");
    let mut alice_group = group_of_two(&backend, &alice, &bob, 0, 2);
    let mut bob_group = group_of_two(&backend, &alice, &bob, 1, 2);
    let secret = epoch_secret(1);
    advance(&backend, &mut alice_group, &alice, &bob, &secret);
    advance(&backend, &mut bob_group, &alice, &bob, &secret);
    assert_eq!(alice_group.group_context.epoch(), GroupEpoch::new(1));
    assert_eq!(
        alice_group.epoch_authenticator().as_slice(),
        bob_group.epoch_authenticator().as_slice()
    );

    let message = alice_group
        .create_application_message(&backend, &alice.signer, b"", b"Hi, I'm Alice!", 0)
        .unwrap();
    assert_eq!(message.epoch, GroupEpoch::new(1));
    assert_eq!(message.content_type, ContentType::Application);
    assert_eq!(message.group_id.as_slice(), b"Test Group");
    let received = over_the_wire(message);
    assert_eq!(
        bob_group.process_application_message(&backend, &received, &configuration),
        Ok(b"Hi, I'm Alice!".to_vec())
    );
    // Bob cannot decrypt the same ciphertext twice
    assert_eq!(
        bob_group.process_application_message(&backend, &received, &configuration),
        Err(ProcessMessageError::DecryptionError(
            MessageDecryptionError::SecretTreeError(SecretTreeError::SecretReuseError)
        ))
    );
    assert_eq!(
        bob_group
            .decrypt_application_message(&backend, &received, &configuration)
            .map(|_| ()),
        Err(MessageDecryptionError::SecretTreeError(
            SecretTreeError::SecretReuseError
        ))
    );
    // Alice has no ratchet to decrypt her own message with
    assert_eq!(
        alice_group.process_application_message(&backend, &received, &configuration),
        Err(ProcessMessageError::DecryptionError(
            MessageDecryptionError::SecretTreeError(SecretTreeError::RatchetTypeError)
        ))
    );
    // The next message is of the next generation, and Bob answers
    let second = over_the_wire(
        alice_group
            .create_application_message(&backend, &alice.signer, b"aad", b"again", 32)
            .unwrap(),
    );
    assert_eq!((second.ciphertext.len()) % 32, 0);
    assert_eq!(second.authenticated_data, b"aad");
    let opened = bob_group
        .decrypt_application_message(&backend, &second, &configuration)
        .unwrap();
    assert_eq!(opened.sender(), LeafNodeIndex::new(0));
    assert_eq!(opened.authenticated_data(), b"aad");
    assert_eq!(
        bob_group.verify_application_message(&backend, opened),
        Ok(b"again".to_vec())
    );
    let answer = over_the_wire(
        bob_group
            .create_application_message(&backend, &bob.signer, b"", b"Hi, I'm Bob!", 0)
            .unwrap(),
    );
    assert_eq!(
        alice_group.process_application_message(&backend, &answer, &configuration),
        Ok(b"Hi, I'm Bob!".to_vec())
    );
}

#[test]
fn messages_arrive_in_any_order_within_the_window() {
    let backend = OpenMlsRustCrypto::default();
    let configuration = SenderRatchetConfiguration::new(3, 4);
    let alice = member(&backend, b"Alice");
    let bob = member(&backend, b"Bob");
    let mut alice_group = group_of_two(&backend, &alice, &bob, 0, 0);
    let mut bob_group = group_of_two(&backend, &alice, &bob, 1, 0);
    let mut messages = Vec::new();
    for i in 0..10u8 {
        messages.push(over_the_wire(
            alice_group
                .create_application_message(&backend, &alice.signer, b"", &[i], 0)
                .unwrap(),
        ));
    }
    let mut process = |i: usize| bob_group.process_application_message(&backend, &messages[i], &configuration);
    assert_eq!(process(3), Ok(vec![3]));
    assert_eq!(process(2), Ok(vec![2]));
    assert_eq!(process(1), Ok(vec![1]));
    // Generation 0 is further back than the window of three generations
    assert_eq!(
        process(0),
        Err(ProcessMessageError::DecryptionError(
            MessageDecryptionError::SecretTreeError(SecretTreeError::TooDistantInThePast)
        ))
    );
    assert_eq!(
        process(3),
        Err(ProcessMessageError::DecryptionError(
            MessageDecryptionError::SecretTreeError(SecretTreeError::SecretReuseError)
        ))
    );
    // Generation 9 is further ahead than four generations
    assert_eq!(
        process(9),
        Err(ProcessMessageError::DecryptionError(
            MessageDecryptionError::SecretTreeError(SecretTreeError::TooDistantInTheFuture)
        ))
    );
    assert_eq!(process(8), Ok(vec![8]));
    assert_eq!(process(9), Ok(vec![9]));
}

#[test]
fn message_of_another_signer_is_refused() {
    let backend = OpenMlsRustCrypto::default();
    let configuration = SenderRatchetConfiguration::default();
    let alice = member(&backend, b"Alice");
    let bob = member(&backend, b"Bob");
    let mallory = member(&backend, b"Mallory");
    let mut alice_group = group_of_two(&backend, &alice, &bob, 0, 0);
    let mut bob_group = group_of_two(&backend, &alice, &bob, 1, 0);
    let forged = over_the_wire(
        alice_group
            .create_application_message(&backend, &mallory.signer, b"", b"Hi, I'm Alice!", 0)
            .unwrap(),
    );
    assert_eq!(
        bob_group.process_application_message(&backend, &forged, &configuration),
        Err(ProcessMessageError::InvalidSignature)
    );
    // What was decrypted is verified under the key of its sender only
    let honest = over_the_wire(
        alice_group
            .create_application_message(&backend, &alice.signer, b"", b"Hi, I'm Alice!", 0)
            .unwrap(),
    );
    let opened = bob_group
        .decrypt_application_message(&backend, &honest, &configuration)
        .unwrap();
    let bobs_key = OpenMlsSignaturePublicKey::from_signature_key(
        &bob.signer.to_public_vec(),
        SignatureScheme::ED25519,
    );
    assert_eq!(
        opened.verify(&backend, &bobs_key, ProtocolVersion::Mls10),
        Err(SignatureError::VerificationError)
    );
}

#[test]
fn changed_messages_are_refused() {
    let backend = OpenMlsRustCrypto::default();
    let configuration = SenderRatchetConfiguration::default();
    let alice = member(&backend, b"Alice");
    let bob = member(&backend, b"Bob");
    let mut alice_group = group_of_two(&backend, &alice, &bob, 0, 0);
    let send = |group: &mut CoreGroup| {
        over_the_wire(
            group
                .create_application_message(&backend, &alice.signer, b"aad", b"data", 0)
                .unwrap(),
        )
    };
    let decrypt = |message: &PrivateMessageIn| {
        // A receiver that has seen no message yet
        group_of_two(&backend, &alice, &bob, 1, 0)
            .decrypt_application_message(&backend, message, &configuration)
            .map(|_| ())
    };
    let message = send(&mut alice_group);
    assert_eq!(decrypt(&message), Ok(()));

    let mut changed = send(&mut alice_group);
    let last = changed.ciphertext.len() - 1;
    changed.ciphertext[last] ^= 1;
    assert_eq!(decrypt(&changed), Err(MessageDecryptionError::AeadError));

    let mut changed = send(&mut alice_group);
    changed.ciphertext[0] ^= 1;
    assert_eq!(decrypt(&changed), Err(MessageDecryptionError::AeadError));

    let mut changed = send(&mut alice_group);
    changed.encrypted_sender_data[0] ^= 1;
    assert_eq!(decrypt(&changed), Err(MessageDecryptionError::AeadError));

    let mut changed = send(&mut alice_group);
    changed.authenticated_data = b"aae".to_vec();
    assert_eq!(decrypt(&changed), Err(MessageDecryptionError::AeadError));

    let mut changed = send(&mut alice_group);
    changed.group_id = GroupId::from_slice(b"Another Group");
    assert_eq!(decrypt(&changed), Err(MessageDecryptionError::AeadError));

    let mut changed = send(&mut alice_group);
    changed.content_type = ContentType::Commit;
    assert_eq!(
        decrypt(&changed),
        Err(MessageDecryptionError::NotApplicationMessage)
    );
}

#[test]
fn content_that_is_no_application_content_is_malformed() {
    let backend = OpenMlsRustCrypto::default();
    let configuration = SenderRatchetConfiguration::default();
    let group_id = GroupId::from_slice(b"Test Group");
    let secrets_of = |own: u32| {
        MessageSecrets::new(
            epoch_secret(1),
            epoch_secret(2),
            epoch_secret(3),
            vec![1, 2, 3],
            SecretTree::new(
                EncryptionSecret::new(epoch_secret(4)),
                TreeSize::from_leaf_count(2).unwrap(),
                LeafNodeIndex::new(own),
            ),
        )
    };
    let mut sender = secrets_of(0);
    let mut receiver = secrets_of(1);
    // One vector where two are expected
    let message = sender
        .encrypt_content(
            &backend,
            SUITE,
            &group_id,
            GroupEpoch::new(0),
            LeafNodeIndex::new(0),
            b"",
            &[2, 7, 7],
            5,
        )
        .unwrap();
    assert_eq!(
        receiver
            .decrypt_application_message(&backend, SUITE, &over_the_wire(message), &configuration)
            .map(|_| ()),
        Err(MessageDecryptionError::MalformedContent)
    );
    // Two vectors, and a padding
    let message = sender
        .encrypt_content(
            &backend,
            SUITE,
            &group_id,
            GroupEpoch::new(0),
            LeafNodeIndex::new(0),
            b"",
            &[2, 7, 7, 1, 8, 0, 0],
            5,
        )
        .unwrap();
    let opened = receiver
        .decrypt_application_message(&backend, SUITE, &over_the_wire(message), &configuration)
        .unwrap();
    assert_eq!(opened.sender(), LeafNodeIndex::new(0));
    // Only the member's own ratchet encrypts
    assert_eq!(
        sender
            .encrypt_content(
                &backend,
                SUITE,
                &group_id,
                GroupEpoch::new(0),
                LeafNodeIndex::new(1),
                b"",
                &[0, 0],
                5,
            )
            .map(|_| ()),
        Err(MessageEncryptionError::SecretTreeError(
            SecretTreeError::RatchetTypeError
        ))
    );
    assert_eq!(
        sender
            .encrypt_content(
                &backend,
                SUITE,
                &group_id,
                GroupEpoch::new(0),
                LeafNodeIndex::new(2),
                b"",
                &[0, 0],
                5,
            )
            .map(|_| ()),
        Err(MessageEncryptionError::SecretTreeError(
            SecretTreeError::IndexOutOfBounds
        ))
    );
}

#[test]
fn signer_of_another_scheme_signs_no_message() {
    let signer = SignatureKeyPair::from_raw(
        SignatureScheme::ECDSA_SECP256R1_SHA256,
        vec![1; 32],
        vec![2; 32],
    );
    assert_eq!(
        signed_application_content(
            ProtocolVersion::Mls10,
            &GroupId::from_slice(b"g"),
            GroupEpoch::new(0),
            LeafNodeIndex::new(0),
            &signer,
            b"",
            b"data",
            &[],
            0,
        ),
        Err(MessageEncryptionError::SigningError)
    );
}

#[test]
fn late_messages_are_decrypted_within_the_kept_epochs() {
    let backend = OpenMlsRustCrypto::default();
    let configuration = SenderRatchetConfiguration::default();
    let epochs = 8usize;
    let kept = epochs / 2;
    let alice = member(&backend, b"Alice");
    let bob = member(&backend, b"Bob");
    let mut alice_group = group_of_two(&backend, &alice, &bob, 0, kept);
    let mut bob_group = group_of_two(&backend, &alice, &bob, 1, kept);
    let mut messages = Vec::new();
    for epoch in 0..epochs {
        messages.push(over_the_wire(
            alice_group
                .create_application_message(&backend, &alice.signer, b"", &[epoch as u8], 0)
                .unwrap(),
        ));
        let secret = epoch_secret(epoch as u8 + 1);
        advance(&backend, &mut alice_group, &alice, &bob, &secret);
        advance(&backend, &mut bob_group, &alice, &bob, &secret);
    }
    messages.push(over_the_wire(
        alice_group
            .create_application_message(&backend, &alice.signer, b"", &[epochs as u8], 0)
            .unwrap(),
    ));
    assert_eq!(bob_group.group_context.epoch(), GroupEpoch::new(epochs as u64));
    for (epoch, message) in messages.iter().enumerate() {
        let processed = bob_group.process_application_message(&backend, message, &configuration);
        if epoch + kept < epochs {
            assert_eq!(
                processed,
                Err(ProcessMessageError::DecryptionError(
                    MessageDecryptionError::AeadError
                ))
            );
        } else {
            assert_eq!(processed, Ok(vec![epoch as u8]));
            assert_eq!(
                bob_group.process_application_message(&backend, message, &configuration),
                Err(ProcessMessageError::DecryptionError(
                    MessageDecryptionError::SecretTreeError(SecretTreeError::SecretReuseError)
                ))
            );
        }
    }
}

#[test]
fn message_of_a_sender_outside_the_tree_is_refused() {
    let backend = OpenMlsRustCrypto::default();
    let configuration = SenderRatchetConfiguration::default();
    let alice = member(&backend, b"Alice");
    let bob = member(&backend, b"Bob");
    let mut bob_group = group_of_two(&backend, &alice, &bob, 1, 0);
    // The secrets of the epoch as Bob has them, for a sender at leaf 5
    let secrets = bob_group.message_secrets_for(GroupEpoch::new(0)).unwrap();
    let mut tree = SecretTree::new(
        EncryptionSecret::new(epoch_secret(1)),
        TreeSize::from_leaf_count(8).unwrap(),
        LeafNodeIndex::new(5),
    );
    let (generation, material) = tree
        .secret_for_encryption(SUITE, &backend, LeafNodeIndex::new(5), SecretType::ApplicationSecret)
        .unwrap();
    let message = seal_private_message(
        &backend,
        AeadType::Aes128Gcm,
        &secrets.sender_data_secret,
        &GroupId::from_slice(b"Test Group"),
        GroupEpoch::new(0),
        ContentType::Application,
        b"",
        SenderData {
            leaf_index: LeafNodeIndex::new(5),
            generation,
            reuse_guard: 1,
        },
        &material,
        &[0, 0],
    )
    .unwrap();
    assert_eq!(
        bob_group.process_application_message(&backend, &over_the_wire(message), &configuration),
        Err(ProcessMessageError::DecryptionError(
            MessageDecryptionError::SecretTreeError(SecretTreeError::IndexOutOfBounds)
        ))
    );
}
