use openmls::capabilities::Capabilities;
use openmls::codec::CodecError;
use openmls::credentials::{Credential, CredentialError, CredentialType, CredentialWithKey};
use openmls::extensions::{
    Extension, ExtensionType, Extensions, InvalidExtensionError, ProposalType,
    RequiredCapabilitiesExtension,
};
use openmls::group::GroupId;
use openmls::keys::{EncryptionKey, SignatureKeyPair, SignaturePublicKey};
use openmls::leaf_node::{
    encode_tbs, LeafNode, LeafNodeGenerationError, LeafNodeIn, LeafNodeSource, LeafNodeTbs,
    LeafNodeValidationError, LifetimeError, NewLeafNodeParams, PublicTreeError, TreeInfoTbs,
    TreePosition, VerifiableLeafNode,
};
use openmls::lifetime::Lifetime;
use openmls::signable::{sign_content, OpenMlsSignaturePublicKey, SignatureError};
use openmls::tree_math::LeafNodeIndex;
use openmls::types::{
    Ciphersuite, CryptoConfig, CryptoError, LibraryError, ProtocolVersion, SignatureScheme,
};
use openmls_rust_crypto::OpenMlsRustCrypto;
use openmls_traits::crypto::OpenMlsCrypto;
use openmls_traits::OpenMlsCryptoProvider;

const SUITE: Ciphersuite = Ciphersuite::MLS_128_DHKEMX25519_AES128GCM_SHA256_Ed25519;

fn signer(backend: &OpenMlsRustCrypto) -> SignatureKeyPair {
    SignatureKeyPair::new(backend, SignatureScheme::ED25519).unwrap()
}

fn credential(name: &[u8], signer: &SignatureKeyPair) -> CredentialWithKey {
    CredentialWithKey {
        credential: Credential::new(name.to_vec(), CredentialType::Basic).unwrap(),
        signature_key: SignaturePublicKey::new(signer.to_public_vec()),
    }
}

fn capabilities(extensions: &[ExtensionType], credentials: &[CredentialType]) -> Capabilities {
    Capabilities::new(None, None, Some(extensions), None, Some(credentials))
}

fn leaf_with(
    signer: &SignatureKeyPair,
    source: LeafNodeSource,
    capabilities: Capabilities,
    extensions: Extensions,
    tree_info: TreeInfoTbs,
) -> LeafNode {
    LeafNode::new_with_key(
        EncryptionKey::new(vec![7; 32]),
        credential(b"Alice", signer),
        source,
        capabilities,
        extensions,
        tree_info,
        signer,
    )
    .unwrap()
}

fn plain_leaf(signer: &SignatureKeyPair) -> LeafNode {
    leaf_with(
        signer,
        LeafNodeSource::KeyPackage(Lifetime {
            not_before: 100,
            not_after: 200,
        }),
        Capabilities::default(),
        Extensions::empty(),
        TreeInfoTbs::KeyPackage,
    )
}

fn verification_key(signer: &SignatureKeyPair) -> OpenMlsSignaturePublicKey {
    OpenMlsSignaturePublicKey::new(signer.to_public_vec(), SignatureScheme::ED25519)
}

#[test]
fn credential_is_basic_or_refused() {
    let credential = Credential::new(b"Alice".to_vec(), CredentialType::Basic).unwrap();
    assert_eq!(credential.identity(), b"Alice");
    assert_eq!(credential.credential_type(), CredentialType::Basic);
    assert_eq!(
        Credential::new(b"Alice".to_vec(), CredentialType::X509),
        Err(CredentialError::UnsupportedCredentialType)
    );
    assert_eq!(
        Credential::new(b"Alice".to_vec(), CredentialType::Unknown(7)),
        Err(CredentialError::UnsupportedCredentialType)
    );
    let mut out = Vec::new();
    credential.append_encoding(&mut out).unwrap();
    assert_eq!(out, vec![0, 1, 5, b'A', b'l', b'i', b'c', b'e']);
}

#[test]
fn kinds_have_their_wire_values() {
    assert_eq!(CredentialType::Basic.value(), 1);
    assert_eq!(CredentialType::X509.value(), 2);
    assert_eq!(CredentialType::Unknown(9).value(), 9);
    assert_eq!(CredentialType::from_value(1), CredentialType::Basic);
    assert_eq!(CredentialType::from_value(3), CredentialType::Unknown(3));
    assert_eq!(ExtensionType::ApplicationId.value(), 1);
    assert_eq!(ExtensionType::ExternalSenders.value(), 5);
    assert_eq!(ExtensionType::from_value(3), ExtensionType::RequiredCapabilities);
    assert_eq!(ExtensionType::from_value(6), ExtensionType::Unknown(6));
    assert_eq!(ProposalType::Add.value(), 1);
    assert_eq!(ProposalType::GroupContextExtensions.value(), 7);
    assert_eq!(ProposalType::AppAck.value(), 8);
    assert_eq!(ProposalType::Unknown(77).value(), 77);
}

#[test]
fn extensions_have_one_of_a_kind() {
    let a = Extension::new(ExtensionType::ApplicationId, vec![1, 2]);
    let b = Extension::new(ExtensionType::ExternalPub, vec![3]);
    let c = Extension::new(ExtensionType::ApplicationId, vec![4]);
    let mut extensions = Extensions::single(a);
    assert!(extensions.contains(ExtensionType::ApplicationId));
    assert!(!extensions.contains(ExtensionType::ExternalPub));
    assert_eq!(extensions.add(b), Ok(()));
    assert_eq!(extensions.add(c), Err(InvalidExtensionError::Duplicate));
    assert_eq!(extensions.len(), 2);
    assert_eq!(extensions.extension_type_at(1), ExtensionType::ExternalPub);
    assert!(Extensions::from_vec(vec![
        Extension::new(ExtensionType::ApplicationId, vec![]),
        Extension::new(ExtensionType::RatchetTree, vec![]),
    ])
    .is_ok());
    assert_eq!(
        Extensions::from_vec(vec![
            Extension::new(ExtensionType::ApplicationId, vec![]),
            Extension::new(ExtensionType::RatchetTree, vec![]),
            Extension::new(ExtensionType::ApplicationId, vec![1]),
        ]),
        Err(InvalidExtensionError::Duplicate)
    );
    let mut out = Vec::new();
    extensions.append_encoding(&mut out).unwrap();
    assert_eq!(out, vec![9, 0, 1, 2, 1, 2, 0, 4, 1, 3]);
    assert!(extensions.equals(&extensions.duplicate()));
    assert!(!extensions.equals(&Extensions::empty()));
    assert_eq!(Extensions::empty().len(), 0);
}

#[test]
fn capabilities_have_defaults() {
    let capabilities = Capabilities::default();
    assert_eq!(capabilities.versions(), &[ProtocolVersion::Mls10]);
    assert_eq!(capabilities.ciphersuites().len(), 3);
    assert_eq!(capabilities.ciphersuites()[0].0, 1);
    assert_eq!(capabilities.ciphersuites()[1].0, 2);
    assert_eq!(capabilities.ciphersuites()[2].0, 3);
    assert!(capabilities.extensions().is_empty());
    assert!(capabilities.proposals().is_empty());
    assert_eq!(capabilities.credentials(), &[CredentialType::Basic]);
    let mut out = Vec::new();
    capabilities.append_encoding(&mut out).unwrap();
    assert_eq!(out, vec![2, 0, 1, 6, 0, 1, 0, 2, 0, 3, 0, 0, 2, 0, 1]);
    let chosen = Capabilities::new(
        Some(&[ProtocolVersion::Mls10, ProtocolVersion::Mls10Draft11]),
        Some(&[Ciphersuite::MLS_256_DHKEMP384_AES256GCM_SHA384_P384]),
        Some(&[ExtensionType::RatchetTree]),
        Some(&[ProposalType::AppAck]),
        Some(&[CredentialType::X509]),
    );
    assert_eq!(chosen.versions().len(), 2);
    assert_eq!(chosen.ciphersuites()[0].0, 7);
    assert_eq!(chosen.extensions(), &[ExtensionType::RatchetTree]);
    assert_eq!(chosen.proposals(), &[ProposalType::AppAck]);
    assert_eq!(chosen.credentials(), &[CredentialType::X509]);
    assert!(chosen.equals(&chosen.duplicate()));
    assert!(!chosen.equals(&capabilities));
}

#[test]
fn leaf_node_keeps_what_it_was_made_of() {
    let backend = OpenMlsRustCrypto::default();
    let signer = signer(&backend);
    let leaf = plain_leaf(&signer);
    assert_eq!(leaf.encryption_key().as_slice(), &[7u8; 32]);
    assert_eq!(leaf.signature_key().as_slice(), signer.public());
    assert_eq!(leaf.credential().identity(), b"Alice");
    assert_eq!(leaf.parent_hash(), None);
    assert_eq!(
        leaf.life_time(),
        Some(&Lifetime {
            not_before: 100,
            not_after: 200
        })
    );
    assert_eq!(leaf.signature().as_slice().len(), 64);
    assert!(leaf.extensions().equals(&Extensions::empty()));
    assert!(leaf.capabilities().equals(&Capabilities::default()));
    assert!(leaf.equals(&leaf.duplicate()));
}

#[test]
fn leaf_node_signature_is_over_the_labelled_content() {
    let backend = OpenMlsRustCrypto::default();
    let signer = signer(&backend);
    let leaf = plain_leaf(&signer);
    let tbs = encode_tbs(leaf.payload(), &TreeInfoTbs::KeyPackage).unwrap();
    let signed = sign_content("LeafNodeTBS", &tbs).unwrap();
    assert!(backend
        .crypto()
        .verify_signature(
            openmls_traits::types::SignatureScheme::ED25519,
            &signed,
            signer.public(),
            leaf.signature().as_slice()
        )
        .is_ok());
    let mut expected = vec![19u8];
    expected.extend_from_slice(b"MLS 1.0 LeafNodeTBS");
    assert_eq!(&signed[..20], &expected[..]);
}

#[test]
fn leaf_node_from_the_wire_verifies_under_its_key() {
    let backend = OpenMlsRustCrypto::default();
    let signer = signer(&backend);
    let other = SignatureKeyPair::new(&backend, SignatureScheme::ED25519).unwrap();
    let leaf = plain_leaf(&signer);
    let incoming = LeafNodeIn::from(leaf.duplicate());
    assert_eq!(incoming.signature_key().as_slice(), signer.public());
    assert_eq!(incoming.credential().identity(), b"Alice");
    let verifiable = incoming.into_verifiable_leaf_node();
    assert!(matches!(verifiable, VerifiableLeafNode::KeyPackage(_)));
    assert_eq!(verifiable.signature_key().as_slice(), signer.public());
    let verified = verifiable
        .verify(&backend, &verification_key(&signer))
        .unwrap();
    assert!(verified.equals(&leaf));
    let verifiable = LeafNodeIn::from(leaf.duplicate()).into_verifiable_leaf_node();
    assert_eq!(
        verifiable.verify(&backend, &verification_key(&other)),
        Err(SignatureError::VerificationError)
    );
}

#[test]
fn leaf_node_that_was_changed_does_not_verify() {
    let backend = OpenMlsRustCrypto::default();
    let signer = signer(&backend);
    let mut leaf = plain_leaf(&signer);
    leaf.set_credential(Credential::new(b"Mallory".to_vec(), CredentialType::Basic).unwrap());
    let verifiable = LeafNodeIn::from(leaf).into_verifiable_leaf_node();
    assert_eq!(
        verifiable.verify(&backend, &verification_key(&signer)),
        Err(SignatureError::VerificationError)
    );
}

#[test]
fn leaf_node_in_a_tree_verifies_at_its_place_only() {
    let backend = OpenMlsRustCrypto::default();
    let signer = signer(&backend);
    let mut leaf = plain_leaf(&signer);
    leaf.update_parent_hash(
        &[9, 9, 9],
        GroupId::from_slice(b"group"),
        LeafNodeIndex::new(3),
        &signer,
    )
    .unwrap();
    assert_eq!(leaf.parent_hash(), Some(&[9u8, 9, 9][..]));
    assert_eq!(leaf.life_time(), None);
    assert!(leaf.validate_in_commit().is_ok());

    // without its place the node does not verify
    let verifiable = LeafNodeIn::from(leaf.duplicate()).into_verifiable_leaf_node();
    assert!(matches!(verifiable, VerifiableLeafNode::Commit(_)));
    assert_eq!(
        verifiable.verify(&backend, &verification_key(&signer)),
        Err(SignatureError::VerificationError)
    );

    let at = |group: &[u8], index: u32| {
        let mut verifiable = LeafNodeIn::from(leaf.duplicate()).into_verifiable_leaf_node();
        if let VerifiableLeafNode::Commit(node) = &mut verifiable {
            assert_eq!(node.unsigned_payload(), Err(CodecError::InvalidInput));
            node.add_tree_position(TreePosition::new(
                GroupId::from_slice(group),
                LeafNodeIndex::new(index),
            ));
            assert!(node.unsigned_payload().is_ok());
        }
        verifiable.verify(&backend, &verification_key(&signer))
    };
    assert!(at(b"group", 3).unwrap().equals(&leaf));
    assert_eq!(at(b"group", 4), Err(SignatureError::VerificationError));
    assert_eq!(at(b"other", 3), Err(SignatureError::VerificationError));
}

#[test]
fn update_takes_over_key_and_credential_and_signs_again() {
    let backend = OpenMlsRustCrypto::default();
    let signer = signer(&backend);
    let mut leaf = plain_leaf(&signer);
    let before = leaf.duplicate();
    assert_eq!(
        leaf.update_and_re_sign(
            None,
            None,
            GroupId::from_slice(b"group"),
            LeafNodeIndex::new(1),
            &signer
        ),
        Err(PublicTreeError::LibraryError(LibraryError::Custom))
    );
    assert!(leaf.equals(&before));

    leaf.update_and_re_sign(
        Some(EncryptionKey::new(vec![8; 32])),
        None,
        GroupId::from_slice(b"group"),
        LeafNodeIndex::new(1),
        &signer,
    )
    .unwrap();
    assert_eq!(leaf.encryption_key().as_slice(), &[8u8; 32]);
    assert_eq!(leaf.credential().identity(), b"Alice");
    assert!(leaf.validate_in_update().is_ok());
    assert_ne!(leaf.signature().as_slice(), before.signature().as_slice());

    let bob = leaf_with(
        &signer,
        LeafNodeSource::Update,
        Capabilities::default(),
        Extensions::empty(),
        TreeInfoTbs::KeyPackage,
    );
    let mut bob_named = bob.duplicate();
    bob_named.set_credential(Credential::new(b"Bob".to_vec(), CredentialType::Basic).unwrap());
    leaf.update_and_re_sign(
        Some(EncryptionKey::new(vec![1; 32])),
        Some(bob_named),
        GroupId::from_slice(b"group"),
        LeafNodeIndex::new(1),
        &signer,
    )
    .unwrap();
    // the new leaf node decides, not the key beside it
    assert_eq!(leaf.encryption_key().as_slice(), &[7u8; 32]);
    assert_eq!(leaf.credential().identity(), b"Bob");

    let mut verifiable = LeafNodeIn::from(leaf.duplicate()).into_verifiable_leaf_node();
    if let VerifiableLeafNode::Update(node) = &mut verifiable {
        node.add_tree_position(TreePosition::new(
            GroupId::from_slice(b"group"),
            LeafNodeIndex::new(1),
        ));
    } else {
        panic!("the source of the node is an update");
    }
    assert!(verifiable
        .verify(&backend, &verification_key(&signer))
        .is_ok());
}

#[test]
fn rekey_gives_a_fresh_key_pair() {
    let backend = OpenMlsRustCrypto::default();
    let signer = signer(&backend);
    let mut leaf = plain_leaf(&signer);
    let group = GroupId::from_slice(b"group");
    let pair = leaf
        .rekey(
            &group,
            LeafNodeIndex::new(0),
            SUITE,
            ProtocolVersion::Mls10,
            &backend,
            &signer,
        )
        .unwrap();
    assert_eq!(pair.public_key().as_slice().len(), 32);
    assert_eq!(pair.private_key().as_slice().len(), 32);
    assert_eq!(leaf.encryption_key().as_slice(), pair.public_key().as_slice());
    assert!(leaf.validate_in_update().is_ok());

    let before = leaf.duplicate();
    assert_eq!(
        leaf.rekey(
            &group,
            LeafNodeIndex::new(0),
            Ciphersuite::MLS_256_DHKEMP384_AES256GCM_SHA384_P384,
            ProtocolVersion::Mls10,
            &backend,
            &signer
        ),
        Err(PublicTreeError::LibraryError(LibraryError::Custom))
    );
    assert_eq!(
        leaf.rekey(
            &group,
            LeafNodeIndex::new(0),
            SUITE,
            ProtocolVersion::Mls10Draft11,
            &backend,
            &signer
        ),
        Err(PublicTreeError::LibraryError(LibraryError::Custom))
    );
    assert!(leaf.equals(&before));
}

#[test]
fn new_leaf_node_comes_with_its_key_pair() {
    let backend = OpenMlsRustCrypto::default();
    let signer = signer(&backend);
    let params = NewLeafNodeParams {
        config: CryptoConfig::with_default_version(SUITE),
        credential_with_key: credential(b"Alice", &signer),
        leaf_node_source: LeafNodeSource::Update,
        capabilities: Capabilities::default(),
        extensions: Extensions::empty(),
        tree_info_tbs: TreeInfoTbs::KeyPackage,
    };
    let (leaf, pair) = LeafNode::new(&backend, &signer, params).unwrap();
    assert_eq!(leaf.encryption_key().as_slice(), pair.public_key().as_slice());
    let derived = backend.crypto().derive_hpke_keypair(
        openmls_traits::types::Ciphersuite::MLS_128_DHKEMX25519_AES128GCM_SHA256_Ed25519
            .hpke_config(),
        &[1, 2, 3],
    );
    assert_eq!(derived.public.len(), pair.public_key().as_slice().len());

    let (updated, updated_pair) = leaf
        .updated(
            CryptoConfig::with_default_version(SUITE),
            TreeInfoTbs::commit(GroupId::from_slice(b"g"), LeafNodeIndex::new(0)),
            &backend,
            &signer,
        )
        .unwrap();
    assert_eq!(
        updated.encryption_key().as_slice(),
        updated_pair.public_key().as_slice()
    );
    assert_ne!(
        updated.encryption_key().as_slice(),
        leaf.encryption_key().as_slice()
    );
    assert_eq!(updated.credential().identity(), b"Alice");
    assert!(updated.validate_in_update().is_ok());

    let stored: Result<(), u8> = Ok(());
    assert!(LeafNode::after_storing(updated.duplicate(), stored)
        .unwrap()
        .equals(&updated));
    let failed: Result<(), u8> = Err(3);
    assert_eq!(
        LeafNode::after_storing(updated, failed),
        Err(LeafNodeGenerationError::KeyStoreError(3))
    );
}

#[test]
fn key_pairs_are_derived_for_x25519_only() {
    let backend = OpenMlsRustCrypto::default();
    let signer = signer(&backend);
    let params = NewLeafNodeParams {
        config: CryptoConfig::with_default_version(
            Ciphersuite::MLS_128_DHKEMP256_AES128GCM_SHA256_P256,
        ),
        credential_with_key: credential(b"Alice", &signer),
        leaf_node_source: LeafNodeSource::Update,
        capabilities: Capabilities::default(),
        extensions: Extensions::empty(),
        tree_info_tbs: TreeInfoTbs::KeyPackage,
    };
    assert!(LeafNode::new(&backend, &signer, params).is_err());
}

#[test]
fn only_ed25519_key_pairs_sign() {
    let backend = OpenMlsRustCrypto::default();
    assert!(SignatureKeyPair::new(&backend, SignatureScheme::ECDSA_SECP256R1_SHA256).is_err());
    let pair = SignatureKeyPair::from_raw(
        SignatureScheme::ECDSA_SECP256R1_SHA256,
        vec![1; 32],
        vec![2; 65],
    );
    assert_eq!(pair.signature_scheme(), SignatureScheme::ECDSA_SECP256R1_SHA256);
    assert_eq!(
        openmls::signable::sign(&pair, b"payload"),
        Err(SignatureError::SigningError)
    );
    // a private key that is no Ed25519 key pair signs nothing
    let broken = SignatureKeyPair::from_raw(SignatureScheme::ED25519, vec![1; 5], vec![2; 32]);
    assert_eq!(
        openmls::signable::sign(&broken, b"payload"),
        Err(SignatureError::SigningError)
    );
    let tbs = LeafNodeTbs::new(
        EncryptionKey::new(vec![7; 32]),
        credential(b"Alice", &broken),
        Capabilities::default(),
        LeafNodeSource::Update,
        Extensions::empty(),
        TreeInfoTbs::KeyPackage,
    )
    .unwrap();
    assert_eq!(tbs.label(), "LeafNodeTBS");
    assert!(tbs.unsigned_payload().is_ok());
    assert_eq!(tbs.sign(&broken), Err(SignatureError::SigningError));
}

#[test]
fn signing_is_deterministic_and_depends_on_the_payload() {
    let backend = OpenMlsRustCrypto::default();
    let signer = signer(&backend);
    let a = openmls::signable::sign(&signer, b"payload").unwrap();
    let b = openmls::signable::sign(&signer, b"payload").unwrap();
    let c = openmls::signable::sign(&signer, b"payloae").unwrap();
    assert_eq!(a, b);
    assert_ne!(a, c);
    assert_ne!(a, b"payload".to_vec());
}

#[test]
fn leaf_node_of_a_key_package_is_valid_within_its_lifetime() {
    let backend = OpenMlsRustCrypto::default();
    let signer = signer(&backend);
    let leaf = plain_leaf(&signer);
    assert!(leaf.validate_in_key_package_at(150).is_ok());
    assert_eq!(
        leaf.validate_in_key_package_at(100),
        Err(LeafNodeValidationError::Lifetime(LifetimeError::NotCurrent))
    );
    assert_eq!(
        leaf.validate_in_key_package_at(200),
        Err(LeafNodeValidationError::Lifetime(LifetimeError::NotCurrent))
    );
    assert_eq!(
        leaf.validate_in_key_package(),
        Err(LeafNodeValidationError::Lifetime(LifetimeError::NotCurrent))
    );
    assert_eq!(
        leaf.validate_in_update(),
        Err(LeafNodeValidationError::InvalidLeafNodeSource)
    );
    assert_eq!(
        leaf.validate_in_commit(),
        Err(LeafNodeValidationError::InvalidLeafNodeSource)
    );
    let long = leaf_with(
        &signer,
        LeafNodeSource::KeyPackage(Lifetime {
            not_before: 0,
            not_after: 7261201,
        }),
        Capabilities::default(),
        Extensions::empty(),
        TreeInfoTbs::KeyPackage,
    );
    assert_eq!(
        long.validate_in_key_package_at(5),
        Err(LeafNodeValidationError::Lifetime(LifetimeError::RangeTooBig))
    );
    let current = leaf_with(
        &signer,
        LeafNodeSource::KeyPackage(Lifetime::default()),
        Capabilities::default(),
        Extensions::empty(),
        TreeInfoTbs::KeyPackage,
    );
    assert!(current.validate_in_key_package().is_ok());
    let update = leaf_with(
        &signer,
        LeafNodeSource::Update,
        Capabilities::default(),
        Extensions::empty(),
        TreeInfoTbs::KeyPackage,
    );
    assert_eq!(
        update.validate_in_key_package_at(150),
        Err(LeafNodeValidationError::InvalidLeafNodeSource)
    );
    assert_eq!(
        update.validate_in_key_package(),
        Err(LeafNodeValidationError::InvalidLeafNodeSource)
    );
}

#[test]
fn leaf_node_supports_what_it_lists_and_the_defaults() {
    let backend = OpenMlsRustCrypto::default();
    let signer = signer(&backend);
    let leaf = leaf_with(
        &signer,
        LeafNodeSource::Update,
        Capabilities::new(
            None,
            None,
            Some(&[ExtensionType::RatchetTree]),
            Some(&[ProposalType::AppAck]),
            Some(&[CredentialType::Basic]),
        ),
        Extensions::empty(),
        TreeInfoTbs::KeyPackage,
    );
    assert!(leaf.supports_extension(&ExtensionType::RatchetTree));
    assert!(leaf.supports_extension(&ExtensionType::ApplicationId));
    assert!(!leaf.supports_extension(&ExtensionType::ExternalPub));
    assert!(leaf.supports_proposal(&ProposalType::AppAck));
    assert!(leaf.supports_proposal(&ProposalType::Add));
    assert!(leaf.supports_proposal(&ProposalType::GroupContextExtensions));
    assert!(!leaf.supports_proposal(&ProposalType::ExternalInit));
    assert!(leaf.supports_credential(&CredentialType::Basic));
    assert!(!leaf.supports_credential(&CredentialType::X509));
    assert_eq!(
        leaf.check_extension_support(&[ExtensionType::RatchetTree, ExtensionType::ApplicationId]),
        Ok(())
    );
    assert_eq!(
        leaf.check_extension_support(&[ExtensionType::RatchetTree, ExtensionType::ExternalPub]),
        Err(LeafNodeValidationError::UnsupportedExtensions)
    );
}

#[test]
fn validation_against_required_capabilities() {
    let backend = OpenMlsRustCrypto::default();
    let signer = signer(&backend);
    let leaf = leaf_with(
        &signer,
        LeafNodeSource::Update,
        capabilities(&[ExtensionType::RatchetTree], &[CredentialType::Basic]),
        Extensions::empty(),
        TreeInfoTbs::KeyPackage,
    );
    assert!(leaf.validate_required_capabilities(None).is_ok());
    let fine = RequiredCapabilitiesExtension::new(
        vec![ExtensionType::RatchetTree],
        vec![ProposalType::Remove],
        vec![CredentialType::Basic],
    );
    assert!(leaf.validate_required_capabilities(Some(&fine)).is_ok());
    let extension = RequiredCapabilitiesExtension::new(
        vec![ExtensionType::RatchetTree, ExtensionType::ExternalSenders],
        vec![ProposalType::AppAck],
        vec![CredentialType::X509],
    );
    assert_eq!(
        leaf.validate_required_capabilities(Some(&extension)),
        Err(LeafNodeValidationError::UnsupportedExtensions)
    );
    let proposal = RequiredCapabilitiesExtension::new(
        vec![],
        vec![ProposalType::Add, ProposalType::AppAck],
        vec![CredentialType::X509],
    );
    assert_eq!(
        leaf.validate_required_capabilities(Some(&proposal)),
        Err(LeafNodeValidationError::UnsupportedProposals)
    );
    let credential = RequiredCapabilitiesExtension::new(
        vec![],
        vec![],
        vec![CredentialType::Basic, CredentialType::X509],
    );
    assert_eq!(
        leaf.validate_required_capabilities(Some(&credential)),
        Err(LeafNodeValidationError::UnsupportedCredentials)
    );
    assert_eq!(credential.credential_types().len(), 2);
    assert!(credential.extension_types().is_empty());
    assert!(credential.proposal_types().is_empty());
}

#[test]
fn validation_against_the_group_reports_the_first_failure() {
    let backend = OpenMlsRustCrypto::default();
    let signer = signer(&backend);
    let supported = vec![vec![CredentialType::Basic], vec![CredentialType::Basic, CredentialType::X509]];
    let leaf = leaf_with(
        &signer,
        LeafNodeSource::Update,
        capabilities(&[ExtensionType::RatchetTree], &[CredentialType::Basic]),
        Extensions::single(Extension::new(ExtensionType::RatchetTree, vec![1])),
        TreeInfoTbs::KeyPackage,
    );
    assert!(leaf
        .validate(None, &[], &[], &supported, &[CredentialType::Basic])
        .is_ok());
    assert!(leaf.validate(None, &[], &[], &[], &[]).is_ok());

    let unlisted = leaf_with(
        &signer,
        LeafNodeSource::Update,
        capabilities(&[], &[CredentialType::X509]),
        Extensions::single(Extension::new(ExtensionType::RatchetTree, vec![1])),
        TreeInfoTbs::KeyPackage,
    );
    assert_eq!(
        unlisted.validate(None, &[], &[], &supported, &[]),
        Err(LeafNodeValidationError::ExtensionsNotInCapabilities)
    );
    let default_extension = leaf_with(
        &signer,
        LeafNodeSource::Update,
        capabilities(&[], &[CredentialType::X509]),
        Extensions::single(Extension::new(ExtensionType::ApplicationId, vec![1])),
        TreeInfoTbs::KeyPackage,
    );
    assert_eq!(
        default_extension.validate(None, &[], &[], &supported, &[]),
        Err(LeafNodeValidationError::CredentialNotInCapabilities)
    );

    let same_signature_key = [
        SignaturePublicKey::new(vec![1, 2, 3]),
        SignaturePublicKey::new(signer.to_public_vec()),
    ];
    let same_encryption_key = [EncryptionKey::new(vec![7; 32])];
    assert_eq!(
        leaf.validate(None, &same_signature_key, &same_encryption_key, &supported, &[]),
        Err(LeafNodeValidationError::SignatureKeyAlreadyInUse)
    );
    assert_eq!(
        leaf.validate(
            None,
            &[SignaturePublicKey::new(vec![1, 2, 3])],
            &same_encryption_key,
            &supported,
            &[]
        ),
        Err(LeafNodeValidationError::EncryptionKeyAlreadyInUse)
    );
    assert_eq!(
        leaf.validate(
            None,
            &[],
            &[EncryptionKey::new(vec![7; 31])],
            &[vec![CredentialType::Basic], vec![CredentialType::X509]],
            &[CredentialType::X509]
        ),
        Err(LeafNodeValidationError::LeafNodeCredentialNotSupportedByMember)
    );
    assert_eq!(
        leaf.validate(
            None,
            &[],
            &[],
            &supported,
            &[CredentialType::Basic, CredentialType::X509]
        ),
        Err(LeafNodeValidationError::MemberCredentialNotSupportedByLeafNode)
    );
    let required = RequiredCapabilitiesExtension::new(vec![ExtensionType::ExternalPub], vec![], vec![]);
    assert_eq!(
        leaf.validate(
            Some(&required),
            &same_signature_key,
            &same_encryption_key,
            &supported,
            &[]
        ),
        Err(LeafNodeValidationError::UnsupportedExtensions)
    );
}

#[test]
fn leaf_node_is_signed_again_with_another_credential() {
    let backend = OpenMlsRustCrypto::default();
    let alice = signer(&backend);
    let bob = signer(&backend);
    let mut leaf = plain_leaf(&alice);
    leaf.resign(&bob, credential(b"Bob", &bob), TreeInfoTbs::KeyPackage)
        .unwrap();
    assert_eq!(leaf.credential().identity(), b"Bob");
    assert_eq!(leaf.signature_key().as_slice(), bob.public());
    let verifiable = LeafNodeIn::from(leaf.duplicate()).into_verifiable_leaf_node();
    assert!(verifiable.verify(&backend, &verification_key(&bob)).is_ok());

    leaf.set_signature_key(SignaturePublicKey::new(vec![5; 32]));
    assert_eq!(leaf.signature_key().as_slice(), &[5u8; 32]);
    leaf.capabilities_mut().extensions.push(ExtensionType::ExternalPub);
    assert!(leaf.supports_extension(&ExtensionType::ExternalPub));

    let mut placed = plain_leaf(&alice);
    placed
        .resign_with_position(LeafNodeIndex::new(2), GroupId::from_slice(b"group"), &alice)
        .unwrap();
    let tbs = encode_tbs(
        placed.payload(),
        &TreeInfoTbs::commit(GroupId::from_slice(b"group"), LeafNodeIndex::new(2)),
    )
    .unwrap();
    let signed = sign_content("LeafNodeTBS", &tbs).unwrap();
    assert!(backend
        .crypto()
        .verify_signature(
            openmls_traits::types::SignatureScheme::ED25519,
            &signed,
            alice.public(),
            placed.signature().as_slice()
        )
        .is_ok());
    assert_eq!(&tbs[tbs.len() - 10..], &[5, b'g', b'r', b'o', b'u', b'p', 0, 0, 0, 2]);
}

#[test]
fn leaf_node_encoding_is_content_then_signature() {
    let backend = OpenMlsRustCrypto::default();
    let signer = signer(&backend);
    let leaf = plain_leaf(&signer);
    let mut encoded = Vec::new();
    leaf.append_encoding(&mut encoded).unwrap();
    let mut expected = vec![32u8];
    expected.extend_from_slice(&[7; 32]);
    expected.push(32);
    expected.extend_from_slice(signer.public());
    expected.extend_from_slice(&[0, 1, 5]);
    expected.extend_from_slice(b"Alice");
    expected.extend_from_slice(&[2, 0, 1, 6, 0, 1, 0, 2, 0, 3, 0, 0, 2, 0, 1]);
    expected.push(1);
    expected.extend_from_slice(&100u64.to_be_bytes());
    expected.extend_from_slice(&200u64.to_be_bytes());
    expected.push(0);
    expected.extend_from_slice(&[0x40, 0x40]);
    expected.extend_from_slice(leaf.signature().as_slice());
    assert_eq!(encoded, expected);
    let from_wire = LeafNode::from(LeafNodeIn::from(leaf.duplicate()));
    assert!(from_wire.equals(&leaf));
}

#[test]
fn fresh_leaf_nodes_fail_as_their_key_pair_or_signature_fails() {
    let backend = OpenMlsRustCrypto::default();
    let signer = signer(&backend);
    let p256 = CryptoConfig::with_default_version(
        Ciphersuite::MLS_128_DHKEMP256_AES128GCM_SHA256_P256,
    );
    let other_scheme = SignatureKeyPair::from_raw(
        SignatureScheme::ECDSA_SECP256R1_SHA256,
        vec![1; 32],
        vec![2; 65],
    );
    let generate = |config: CryptoConfig, signer: &SignatureKeyPair| {
        LeafNode::generate_update(
            config,
            credential(b"Alice", signer),
            Capabilities::default(),
            Extensions::empty(),
            TreeInfoTbs::commit(GroupId::from_slice(b"g"), LeafNodeIndex::new(1)),
            &backend,
            signer,
        )
    };
    // No key pairs are derived for the configuration
    assert_eq!(
        generate(p256, &signer).map(|_| ()),
        Err(LibraryError::UnexpectedCryptoError(
            CryptoError::UnsupportedCiphersuite
        ))
    );
    // The signer makes no signature
    assert_eq!(
        generate(CryptoConfig::with_default_version(SUITE), &other_scheme).map(|_| ()),
        Err(LibraryError::Custom)
    );
    // The key pair fails before the signature does
    assert_eq!(
        generate(p256, &other_scheme).map(|_| ()),
        Err(LibraryError::UnexpectedCryptoError(
            CryptoError::UnsupportedCiphersuite
        ))
    );
    let (leaf, pair) = generate(CryptoConfig::with_default_version(SUITE), &signer).unwrap();
    assert_eq!(leaf.encryption_key().as_slice(), pair.public_key().as_slice());
    assert_eq!(pair.public_key().as_slice().len(), 32);
    assert_eq!(pair.private_key().as_slice().len(), 32);
    assert_eq!(leaf.credential().identity(), b"Alice");
    assert_eq!(leaf.signature_key().as_slice(), &signer.to_public_vec()[..]);
    assert!(leaf.validate_in_update().is_ok());
    assert!(LeafNodeIn::from_leaf_node(leaf.duplicate())
        .into_verifiable_leaf_node()
        .verify(&backend, &verification_key(&signer))
        .is_err());

    // The same of a leaf node that is made of another
    let tree_info = || TreeInfoTbs::commit(GroupId::from_slice(b"g"), LeafNodeIndex::new(1));
    assert_eq!(
        leaf.updated(p256, tree_info(), &backend, &signer).map(|_| ()),
        Err(LibraryError::UnexpectedCryptoError(
            CryptoError::UnsupportedCiphersuite
        ))
    );
    assert_eq!(
        leaf.updated(
            CryptoConfig::with_default_version(SUITE),
            tree_info(),
            &backend,
            &other_scheme
        )
        .map(|_| ()),
        Err(LibraryError::Custom)
    );
    let (updated, updated_pair) = leaf
        .updated(
            CryptoConfig::with_default_version(SUITE),
            tree_info(),
            &backend,
            &signer,
        )
        .unwrap();
    assert_eq!(
        updated.encryption_key().as_slice(),
        updated_pair.public_key().as_slice()
    );
    assert_eq!(updated.signature_key().as_slice(), leaf.signature_key().as_slice());
    assert_eq!(updated.credential().identity(), leaf.credential().identity());
    assert!(updated.capabilities().equals(leaf.capabilities()));
    assert!(updated.extensions().equals(leaf.extensions()));
    assert!(updated.life_time().is_none());
    assert!(updated.parent_hash().is_none());
    // Two draws give two key pairs
    assert_ne!(
        updated_pair.public_key().as_slice(),
        pair.public_key().as_slice()
    );
}

#[test]
fn signature_of_a_form_that_cannot_be_verified_is_refused() {
    let backend = OpenMlsRustCrypto::default();
    let signer = signer(&backend);
    let key = verification_key(&signer);
    let content = b"content";
    let signature = openmls::signable::sign_with_label(&signer, "Label", content).unwrap();
    assert_eq!(signature.as_slice().len(), 64);
    assert!(signature.as_slice()[63] < 0x20);
    assert_eq!(key.verify_with_label(&backend, "Label", content, &signature), Ok(()));
    // The highest bits of the last byte are set: there is no such signature
    for last in [0x20u8, 0x40, 0x80, 0xe0, 0xff] {
        let mut bytes = signature.as_slice().to_vec();
        bytes[63] = last;
        assert!(!openmls::signable::has_verifiable_form(
            SignatureScheme::ED25519,
            &bytes
        ));
        assert_eq!(
            key.verify_with_label(
                &backend,
                "Label",
                content,
                &openmls::keys::Signature::new(bytes)
            ),
            Err(SignatureError::VerificationError)
        );
    }
    assert_eq!(
        key.verify_with_label(
            &backend,
            "Label",
            content,
            &openmls::keys::Signature::new(vec![0xff; 64])
        ),
        Err(SignatureError::VerificationError)
    );
    // Other lengths, and a changed byte, are for the provider to refuse
    for bytes in [vec![], vec![0xff; 63], vec![0xff; 65], vec![0; 64]] {
        assert!(openmls::signable::has_verifiable_form(
            SignatureScheme::ED25519,
            &bytes
        ));
        assert_eq!(
            key.verify_with_label(
                &backend,
                "Label",
                content,
                &openmls::keys::Signature::new(bytes)
            ),
            Err(SignatureError::VerificationError)
        );
    }
    assert!(openmls::signable::has_verifiable_form(
        SignatureScheme::ECDSA_SECP256R1_SHA256,
        &[0xff; 64]
    ));
    // A leaf node with such a signature does not verify
    let leaf = plain_leaf(&signer);
    let broken = LeafNodeIn::new(
        leaf.payload().duplicate(),
        openmls::keys::Signature::new(vec![0xff; 64]),
    );
    assert!(broken
        .into_verifiable_leaf_node()
        .verify(&backend, &key)
        .is_err());
    // Key pairs of another scheme are not made
    assert_eq!(
        SignatureKeyPair::new(&backend, SignatureScheme::ED448).map(|_| ()),
        Err(CryptoError::UnsupportedSignatureScheme)
    );
    assert!(SignatureKeyPair::new(&backend, SignatureScheme::ED25519).is_ok());
}

#[test]
fn rekey_fails_as_its_key_pair_or_signature_fails() {
    let backend = OpenMlsRustCrypto::default();
    let signer = signer(&backend);
    let group = GroupId::from_slice(b"group");
    let p256 = Ciphersuite::MLS_128_DHKEMP256_AES128GCM_SHA256_P256;
    let mut leaf = leaf_with(
        &signer,
        LeafNodeSource::KeyPackage(Lifetime {
            not_before: 100,
            not_after: 200,
        }),
        Capabilities::new(None, Some(&[SUITE, p256]), None, None, None),
        Extensions::empty(),
        TreeInfoTbs::KeyPackage,
    );
    let before = leaf.duplicate();
    // The node supports the ciphersuite, but no key pairs are derived for it
    assert_eq!(
        leaf.rekey(
            &group,
            LeafNodeIndex::new(0),
            p256,
            ProtocolVersion::Mls10,
            &backend,
            &signer
        ),
        Err(PublicTreeError::LibraryError(
            LibraryError::UnexpectedCryptoError(CryptoError::UnsupportedCiphersuite)
        ))
    );
    assert!(leaf.equals(&before));
    // The signer makes no signature
    let other_scheme = SignatureKeyPair::from_raw(
        SignatureScheme::ECDSA_SECP256R1_SHA256,
        vec![1; 32],
        vec![2; 65],
    );
    assert_eq!(
        leaf.rekey(
            &group,
            LeafNodeIndex::new(0),
            SUITE,
            ProtocolVersion::Mls10,
            &backend,
            &other_scheme
        ),
        Err(PublicTreeError::SignatureError(SignatureError::SigningError))
    );
    assert!(leaf.equals(&before));
    let pair = leaf
        .rekey(
            &group,
            LeafNodeIndex::new(0),
            SUITE,
            ProtocolVersion::Mls10,
            &backend,
            &signer,
        )
        .unwrap();
    assert_eq!(leaf.encryption_key().as_slice(), pair.public_key().as_slice());
    assert_ne!(leaf.encryption_key().as_slice(), before.encryption_key().as_slice());
    assert_eq!(leaf.signature_key().as_slice(), before.signature_key().as_slice());
    assert_eq!(leaf.credential().identity(), before.credential().identity());
    assert!(leaf.capabilities().equals(before.capabilities()));
    assert!(leaf.life_time().is_none());
    assert!(leaf.parent_hash().is_none());
}
