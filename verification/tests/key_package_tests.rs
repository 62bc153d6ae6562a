use openmls::capabilities::Capabilities;
use openmls::credentials::{Credential, CredentialType, CredentialWithKey};
use openmls::extensions::{Extension, ExtensionType, Extensions};
use openmls::key_package::{
    make_key_package_ref, KeyPackage, KeyPackageBuilder, KeyPackageBundle,
    KeyPackageExtensionSupportError, KeyPackageIn, KeyPackageNewError, KeyPackageTbs,
    KeyPackageVerifyError,
};
use openmls::leaf_node::{LeafNodeValidationError, LifetimeError};
use openmls::keys::{
    derive_hpke_key_pair, EncryptionKey, EncryptionKeyPair, HpkePrivateKey, HpkePublicKey,
    SignatureKeyPair, SignaturePublicKey,
};
use openmls::leaf_node::{LeafNode, LeafNodeSource, TreeInfoTbs};
use openmls::lifetime::Lifetime;
use openmls::secret::Secret;
use openmls::signable::SignatureError;
use openmls::types::{
    Ciphersuite, CryptoConfig, CryptoError, LibraryError, ProtocolVersion, SignatureScheme,
};
use openmls_rust_crypto::OpenMlsRustCrypto;
use openmls_traits::crypto::OpenMlsCrypto;
use openmls_traits::OpenMlsCryptoProvider;
use tls_codec::Serialize;

const SUITE: Ciphersuite = Ciphersuite::MLS_128_DHKEMX25519_AES128GCM_SHA256_Ed25519;

fn config() -> CryptoConfig {
    CryptoConfig::with_default_version(SUITE)
}

fn signer(backend: &OpenMlsRustCrypto) -> SignatureKeyPair {
    SignatureKeyPair::new(backend, SignatureScheme::ED25519).unwrap()
}

fn credential(name: &[u8], signer: &SignatureKeyPair) -> CredentialWithKey {
    CredentialWithKey {
        credential: Credential::new(name.to_vec(), CredentialType::Basic).unwrap(),
        signature_key: SignaturePublicKey::new(signer.to_public_vec()),
    }
}

fn fixed(signer: &SignatureKeyPair, extensions: Extensions) -> KeyPackage {
    KeyPackage::from_parts::<u8>(
        config(),
        signer,
        credential(b"Alice", signer),
        extensions,
        Capabilities::default(),
        Extensions::empty(),
        vec![3; 32],
        EncryptionKey::new(vec![7; 32]),
        Lifetime {
            not_before: 100,
            not_after: 200,
        },
    )
    .unwrap()
}

#[test]
fn builder_makes_a_key_package_with_fresh_keys() {
    let backend = OpenMlsRustCrypto::default();
    let signer = signer(&backend);
    let result = KeyPackage::builder()
        .build_without_key_storage::<u8>(config(), &backend, &signer, credential(b"Alice", &signer))
        .unwrap();
    let key_package = &result.key_package;
    assert_eq!(key_package.ciphersuite(), SUITE);
    assert_eq!(key_package.protocol_version(), ProtocolVersion::Mls10);
    assert_eq!(key_package.hpke_init_key().as_slice().len(), 32);
    assert_eq!(result.init_private_key.len(), 32);
    assert_ne!(
        key_package.hpke_init_key().as_slice(),
        key_package.leaf_node().encryption_key().as_slice()
    );
    assert_eq!(
        key_package.leaf_node().encryption_key().as_slice(),
        result.encryption_keypair.public_key().as_slice()
    );
    assert_eq!(key_package.leaf_node().credential().identity(), b"Alice");
    assert_eq!(key_package.leaf_node().signature_key().as_slice(), signer.public());
    assert!(key_package.extensions().equals(&Extensions::empty()));
    assert!(key_package
        .leaf_node()
        .capabilities()
        .equals(&Capabilities::default()));
    assert!(key_package.leaf_node().validate_in_key_package().is_ok());
    let lifetime = key_package.leaf_node().life_time().unwrap();
    assert_eq!(lifetime.not_after() - lifetime.not_before(), 7257600 + 3600);
    assert!(lifetime.has_acceptable_range());
    assert!(lifetime.is_valid());
}

#[test]
fn builder_takes_extensions_and_capabilities() {
    let backend = OpenMlsRustCrypto::default();
    let signer = signer(&backend);
    let capabilities = Capabilities::new(None, None, Some(&[ExtensionType::ExternalPub]), None, None);
    let builder = KeyPackageBuilder::new()
        .key_package_extensions(Extensions::single(Extension::new(
            ExtensionType::Unknown(0xff00),
            vec![1],
        )))
        .leaf_node_capabilities(capabilities.duplicate())
        .leaf_node_extensions(Extensions::single(Extension::new(
            ExtensionType::ExternalPub,
            vec![2],
        )));
    let result = builder
        .build_without_key_storage::<u8>(config(), &backend, &signer, credential(b"Alice", &signer))
        .unwrap();
    let key_package = result.key_package;
    assert!(key_package.extensions().contains(ExtensionType::Unknown(0xff00)));
    assert!(key_package.leaf_node().capabilities().equals(&capabilities));
    assert!(key_package
        .leaf_node()
        .extensions()
        .contains(ExtensionType::ExternalPub));
    let default = KeyPackageBuilder::default();
    assert!(default.key_package_extensions.is_none());
    assert!(default.leaf_node_capabilities.is_none());
    assert!(default.leaf_node_extensions.is_none());
}

#[test]
fn signer_has_to_be_of_the_scheme_of_the_ciphersuite() {
    let backend = OpenMlsRustCrypto::default();
    let signer = SignatureKeyPair::from_raw(
        SignatureScheme::ECDSA_SECP256R1_SHA256,
        vec![1; 32],
        vec![2; 65],
    );
    let result = KeyPackage::builder().build_without_key_storage::<u8>(
        config(),
        &backend,
        &signer,
        credential(b"Alice", &signer),
    );
    assert!(matches!(
        result,
        Err(KeyPackageNewError::CiphersuiteSignatureSchemeMismatch)
    ));
}

#[test]
fn key_package_for_a_p256_ciphersuite_is_not_made() {
    let backend = OpenMlsRustCrypto::default();
    let signer = SignatureKeyPair::from_raw(
        SignatureScheme::ECDSA_SECP256R1_SHA256,
        vec![1; 32],
        vec![2; 65],
    );
    let result = KeyPackage::create::<u8>(
        CryptoConfig::with_default_version(Ciphersuite::MLS_128_DHKEMP256_AES128GCM_SHA256_P256),
        &backend,
        &signer,
        credential(b"Alice", &signer),
        Extensions::empty(),
        Capabilities::default(),
        Extensions::empty(),
    );
    assert!(matches!(
        result,
        Err(KeyPackageNewError::LibraryError(LibraryError::UnexpectedCryptoError(
            CryptoError::UnsupportedCiphersuite
        )))
    ));
    assert_eq!(
        derive_hpke_key_pair(
            &backend,
            CryptoConfig::with_default_version(
                Ciphersuite::MLS_128_DHKEMP256_AES128GCM_SHA256_P256
            ),
            &[1; 32]
        ),
        Err(CryptoError::UnsupportedCiphersuite)
    );
}

#[test]
fn hpke_key_pair_is_derived_by_the_provider() {
    let backend = OpenMlsRustCrypto::default();
    let (private, public) = derive_hpke_key_pair(&backend, config(), &[9; 32]).unwrap();
    let expected = backend.crypto().derive_hpke_keypair(
        openmls_traits::types::Ciphersuite::MLS_128_DHKEMX25519_AES128GCM_SHA256_Ed25519
            .hpke_config(),
        &[9; 32],
    );
    assert_eq!(public, expected.public);
    assert_eq!(&private[..], &expected.private[..]);
    assert_ne!(public, vec![9u8; 32]);
    let ikm = Secret::from_slice(&[9; 32], ProtocolVersion::Mls10, SUITE);
    let pair = EncryptionKeyPair::derive(&backend, config(), &ikm).unwrap();
    assert_eq!(pair.public_key().as_slice(), &public[..]);
    assert_eq!(pair.private_key().as_slice(), &private[..]);
    let chacha = CryptoConfig::with_default_version(
        Ciphersuite::MLS_128_DHKEMX25519_CHACHA20POLY1305_SHA256_Ed25519,
    );
    let (_, other) = derive_hpke_key_pair(&backend, chacha, &[9; 32]).unwrap();
    assert_eq!(other, public);
}

#[test]
fn key_package_from_the_wire_verifies_under_the_key_of_its_leaf() {
    let backend = OpenMlsRustCrypto::default();
    let signer = signer(&backend);
    let key_package = fixed(&signer, Extensions::empty());
    let incoming = KeyPackageIn::from_key_package(key_package);
    let mut validated = incoming.validate_at(&backend, ProtocolVersion::Mls10, 150).unwrap();
    assert_eq!(validated.hpke_init_key().as_slice(), &[3u8; 32]);

    validated.set_public_key(HpkePublicKey::new(vec![4; 32]));
    assert_eq!(validated.hpke_init_key().as_slice(), &[4u8; 32]);
    assert_eq!(
        KeyPackageIn::from_key_package(validated)
            .validate_at(&backend, ProtocolVersion::Mls10, 150)
            .map(|_| ()),
        Err(KeyPackageVerifyError::InvalidSignature)
    );

    let mut changed = fixed(&signer, Extensions::empty());
    changed.set_version(ProtocolVersion::Mls10Draft11);
    assert_eq!(changed.protocol_version(), ProtocolVersion::Mls10Draft11);
    assert_eq!(
        KeyPackageIn::from_key_package(changed)
            .validate_at(&backend, ProtocolVersion::Mls10, 150)
            .map(|_| ()),
        Err(KeyPackageVerifyError::InvalidProtocolVersion)
    );
    let mut changed = fixed(&signer, Extensions::empty());
    changed.set_ciphersuite(Ciphersuite::MLS_128_DHKEMX25519_CHACHA20POLY1305_SHA256_Ed25519);
    assert!(KeyPackageIn::from_key_package(changed)
        .validate_at(&backend, ProtocolVersion::Mls10, 150)
        .is_err());
}

#[test]
fn key_packages_are_compared_without_their_signatures() {
    let backend = OpenMlsRustCrypto::default();
    let alice = signer(&backend);
    let a = fixed(&alice, Extensions::empty());
    let b = fixed(&alice, Extensions::empty());
    assert!(a == b);
    let with_extension = fixed(
        &alice,
        Extensions::single(Extension::new(ExtensionType::ApplicationId, vec![1])),
    );
    assert!(a != with_extension);
    // another signature over the same content
    let other = signer(&backend);
    let resigned = KeyPackageTbs::from(fixed(&alice, Extensions::empty()))
        .sign(&other)
        .unwrap();
    assert_ne!(resigned.signature().as_slice(), a.signature().as_slice());
    assert!(resigned == a);
}

#[test]
fn key_package_is_signed_again() {
    let backend = OpenMlsRustCrypto::default();
    let alice = signer(&backend);
    let bob = signer(&backend);
    let key_package = fixed(&alice, Extensions::empty());
    let moved = key_package
        .into_with_init_key(
            CryptoConfig {
                ciphersuite: Ciphersuite::MLS_128_DHKEMX25519_CHACHA20POLY1305_SHA256_Ed25519,
                version: ProtocolVersion::Mls10,
            },
            &alice,
            vec![5; 32],
        )
        .unwrap();
    assert_eq!(moved.hpke_init_key().as_slice(), &[5u8; 32]);
    assert_eq!(
        moved.ciphersuite(),
        Ciphersuite::MLS_128_DHKEMX25519_CHACHA20POLY1305_SHA256_Ed25519
    );
    assert_eq!(moved.leaf_node().encryption_key().as_slice(), &[7u8; 32]);
    assert!(KeyPackageIn::from_key_package(moved).validate_at(&backend, ProtocolVersion::Mls10, 150).is_ok());

    let resigned = fixed(&alice, Extensions::empty())
        .resign(&bob, credential(b"Bob", &bob))
        .unwrap();
    assert_eq!(resigned.leaf_node().credential().identity(), b"Bob");
    assert_eq!(resigned.leaf_node().signature_key().as_slice(), bob.public());
    assert!(KeyPackageIn::from_key_package(resigned)
        .validate_at(&backend, ProtocolVersion::Mls10, 150)
        .is_ok());

    let broken = SignatureKeyPair::from_raw(SignatureScheme::ED25519, vec![1; 3], vec![2; 32]);
    assert_eq!(
        fixed(&alice, Extensions::empty())
            .resign(&broken, credential(b"Bob", &bob))
            .map(|_| ()),
        Err(SignatureError::SigningError)
    );
}

#[test]
fn key_package_has_the_extensions_a_group_requires_or_not() {
    let backend = OpenMlsRustCrypto::default();
    let signer = signer(&backend);
    let extensions = Extensions::from_vec(vec![
        Extension::new(ExtensionType::ApplicationId, vec![1]),
        Extension::new(ExtensionType::ExternalPub, vec![2]),
    ])
    .unwrap();
    let key_package = fixed(&signer, extensions);
    assert_eq!(key_package.check_extension_support(&[]), Ok(()));
    assert_eq!(
        key_package
            .check_extension_support(&[ExtensionType::ExternalPub, ExtensionType::ApplicationId]),
        Ok(())
    );
    assert_eq!(
        key_package
            .check_extension_support(&[ExtensionType::ExternalPub, ExtensionType::RatchetTree]),
        Err(KeyPackageExtensionSupportError::UnsupportedExtension)
    );
}

#[test]
fn reference_of_a_key_package_is_the_hash_of_label_and_encoding() {
    let backend = OpenMlsRustCrypto::default();
    let signer = signer(&backend);
    let key_package = fixed(&signer, Extensions::empty());
    let reference = key_package.hash_ref(&backend).unwrap();
    assert_eq!(reference.as_slice().len(), 32);
    let encoded = key_package.encode().unwrap();
    let mut input = tls_codec::VLBytes::new(b"MLS 1.0 KeyPackage Reference".to_vec())
        .tls_serialize_detached()
        .unwrap();
    input.extend(
        tls_codec::VLBytes::new(encoded.clone())
            .tls_serialize_detached()
            .unwrap(),
    );
    let expected = backend
        .crypto()
        .hash(openmls_traits::types::HashType::Sha2_256, &input)
        .unwrap();
    assert_eq!(reference.as_slice(), &expected[..]);
    assert_eq!(
        make_key_package_ref(&encoded, SUITE, &backend)
            .unwrap()
            .as_slice(),
        &expected[..]
    );
    let longer = make_key_package_ref(
        &encoded,
        Ciphersuite::MLS_256_DHKEMP384_AES256GCM_SHA384_P384,
        &backend,
    )
    .unwrap();
    assert_eq!(longer.as_slice().len(), 48);
}

#[test]
fn key_package_encoding_is_content_then_signature() {
    let backend = OpenMlsRustCrypto::default();
    let signer = signer(&backend);
    let key_package = fixed(&signer, Extensions::empty());
    let encoded = key_package.encode().unwrap();
    let mut leaf = Vec::new();
    key_package.leaf_node().append_encoding(&mut leaf).unwrap();
    let mut expected = vec![0u8, 1, 0, 1, 32];
    expected.extend_from_slice(&[3; 32]);
    expected.extend_from_slice(&leaf);
    expected.push(0);
    expected.extend_from_slice(&[0x40, 0x40]);
    expected.extend_from_slice(key_package.signature().as_slice());
    assert_eq!(encoded, expected);
    let tbs = KeyPackageTbs::from(fixed(&signer, Extensions::empty()));
    assert_eq!(tbs.label(), "KeyPackageTBS");
    assert_eq!(tbs.unsigned_payload().unwrap(), &expected[..expected.len() - 66]);
}

#[test]
fn key_package_with_given_keys() {
    let backend = OpenMlsRustCrypto::default();
    let signer = signer(&backend);
    let (key_package, pair) = KeyPackage::new_from_init_key::<u8>(
        config(),
        &backend,
        &signer,
        credential(b"Alice", &signer),
        Extensions::empty(),
        Capabilities::default(),
        Extensions::empty(),
        vec![6; 32],
    )
    .unwrap();
    assert_eq!(key_package.hpke_init_key().as_slice(), &[6u8; 32]);
    assert_eq!(
        key_package.leaf_node().encryption_key().as_slice(),
        pair.public_key().as_slice()
    );
    let (key_package, init_private_key) = KeyPackage::new_from_encryption_key::<u8>(
        config(),
        &backend,
        &signer,
        credential(b"Alice", &signer),
        Extensions::empty(),
        Capabilities::default(),
        Extensions::empty(),
        EncryptionKey::new(vec![8; 32]),
    )
    .unwrap();
    assert_eq!(key_package.leaf_node().encryption_key().as_slice(), &[8u8; 32]);
    assert_eq!(init_private_key.len(), 32);
    assert!(KeyPackageIn::from_key_package(key_package)
        .validate(&backend, ProtocolVersion::Mls10)
        .is_ok());
}

#[test]
fn leaf_node_of_a_key_package_and_bundle() {
    let backend = OpenMlsRustCrypto::default();
    let signer = signer(&backend);
    let key_package = fixed(&signer, Extensions::empty());
    let copy = key_package.leaf_node().duplicate();
    let mut changed = fixed(&signer, Extensions::empty());
    let replacement = LeafNode::new_with_key(
        EncryptionKey::new(vec![1; 32]),
        credential(b"Carol", &signer),
        LeafNodeSource::Update,
        Capabilities::default(),
        Extensions::empty(),
        TreeInfoTbs::KeyPackage,
        &signer,
    )
    .unwrap();
    changed.set_leaf_node(replacement.duplicate());
    assert!(changed.leaf_node().equals(&replacement));
    let bundle = KeyPackageBundle::from_parts(key_package, HpkePrivateKey::new(vec![1, 2, 3]));
    assert_eq!(bundle.private_key().as_slice(), &[1u8, 2, 3]);
    assert!(bundle.key_package().leaf_node().equals(&copy));
    let leaf = LeafNode::from(bundle.key_package);
    assert!(leaf.equals(&copy));
    assert!(changed.into_leaf_node().equals(&replacement));
}

#[test]
fn key_package_from_the_wire_is_checked_step_by_step() {
    let backend = OpenMlsRustCrypto::default();
    let alice = signer(&backend);
    let mallory = signer(&backend);
    let check = |key_package: KeyPackage, now: u64| {
        KeyPackageIn::from_key_package(key_package)
            .validate_at(&backend, ProtocolVersion::Mls10, now)
            .map(|_| ())
    };
    assert_eq!(check(fixed(&alice, Extensions::empty()), 150), Ok(()));
    assert_eq!(
        check(fixed(&alice, Extensions::empty()), 200),
        Err(KeyPackageVerifyError::InvalidLeafNode(
            LeafNodeValidationError::Lifetime(LifetimeError::NotCurrent)
        ))
    );

    // a leaf node that does not come from a key package
    let mut from_update = fixed(&alice, Extensions::empty());
    from_update.set_leaf_node(
        LeafNode::new_with_key(
            EncryptionKey::new(vec![7; 32]),
            credential(b"Alice", &alice),
            LeafNodeSource::Update,
            Capabilities::default(),
            Extensions::empty(),
            TreeInfoTbs::KeyPackage,
            &alice,
        )
        .unwrap(),
    );
    assert_eq!(
        check(from_update, 150),
        Err(KeyPackageVerifyError::InvalidLeafNodeSourceType)
    );

    // a leaf node that another key signed
    let mut foreign_leaf = fixed(&alice, Extensions::empty());
    foreign_leaf.set_leaf_node(
        LeafNode::new_with_key(
            EncryptionKey::new(vec![7; 32]),
            credential(b"Alice", &alice),
            LeafNodeSource::KeyPackage(Lifetime {
                not_before: 100,
                not_after: 200,
            }),
            Capabilities::default(),
            Extensions::empty(),
            TreeInfoTbs::KeyPackage,
            &mallory,
        )
        .unwrap(),
    );
    assert_eq!(
        check(foreign_leaf, 150),
        Err(KeyPackageVerifyError::InvalidLeafNodeSignature)
    );

    // the init key is the encryption key
    let same_keys = KeyPackage::from_parts::<u8>(
        config(),
        &alice,
        credential(b"Alice", &alice),
        Extensions::empty(),
        Capabilities::default(),
        Extensions::empty(),
        vec![7; 32],
        EncryptionKey::new(vec![7; 32]),
        Lifetime {
            not_before: 100,
            not_after: 200,
        },
    )
    .unwrap();
    assert_eq!(
        check(same_keys, 150),
        Err(KeyPackageVerifyError::InitKeyEqualsEncryptionKey)
    );

    // the leaf node is signed by its key, the key package by another
    let outer = KeyPackageTbs::from(fixed(&alice, Extensions::empty()))
        .sign(&mallory)
        .unwrap();
    assert_eq!(check(outer, 150), Err(KeyPackageVerifyError::InvalidSignature));

    // a key package that was just made is valid now
    let fresh = KeyPackage::builder()
        .build_without_key_storage::<u8>(config(), &backend, &alice, credential(b"Alice", &alice))
        .unwrap()
        .key_package;
    assert!(KeyPackageIn::from_key_package(fresh)
        .validate(&backend, ProtocolVersion::Mls10)
        .is_ok());
    assert_eq!(
        KeyPackageIn::from_key_package(fixed(&alice, Extensions::empty()))
            .validate(&backend, ProtocolVersion::Mls10)
            .map(|_| ()),
        Err(KeyPackageVerifyError::InvalidLeafNode(
            LeafNodeValidationError::Lifetime(LifetimeError::NotCurrent)
        ))
    );
}

#[test]
fn builder_says_what_is_to_be_stored() {
    let backend = OpenMlsRustCrypto::default();
    let alice = signer(&backend);
    let storage = KeyPackage::builder()
        .build::<u8>(config(), &backend, &alice, credential(b"Alice", &alice))
        .unwrap();
    assert_eq!(
        storage.key_package_id.as_slice(),
        storage.key_package.hash_ref(&backend).unwrap().as_slice()
    );
    assert_eq!(
        storage.encryption_keypair.public_key().as_slice(),
        storage.key_package.leaf_node().encryption_key().as_slice()
    );
    assert_eq!(storage.init_private_key.as_slice().len(), 32);
    let stored: Result<(), u8> = Err(4);
    assert!(matches!(
        KeyPackage::after_storing(storage.key_package, stored),
        Err(KeyPackageNewError::KeyStoreError(4))
    ));
    let stored: Result<(), u8> = Ok(());
    let key_package = KeyPackage::after_storing(fixed(&alice, Extensions::empty()), stored).unwrap();
    assert!(key_package == fixed(&alice, Extensions::empty()));
}

#[test]
fn key_packages_with_given_keys_fail_as_their_key_pair_or_signature_fails() {
    let backend = OpenMlsRustCrypto::default();
    let signer = signer(&backend);
    let p256 = CryptoConfig::with_default_version(
        Ciphersuite::MLS_128_DHKEMP256_AES128GCM_SHA256_P256,
    );
    let other_scheme = SignatureKeyPair::from_raw(
        SignatureScheme::ECDSA_SECP256R1_SHA256,
        vec![1; 32],
        vec![2; 65],
    );
    let unsupported = || {
        KeyPackageNewError::<u8>::LibraryError(LibraryError::UnexpectedCryptoError(
            CryptoError::UnsupportedCiphersuite,
        ))
    };
    let unsigned = || KeyPackageNewError::<u8>::LibraryError(LibraryError::Custom);

    let from_keys = |config: CryptoConfig, signer: &SignatureKeyPair| {
        KeyPackage::new_from_keys::<u8>(
            config,
            &backend,
            signer,
            credential(b"Alice", signer),
            Extensions::empty(),
            Capabilities::default(),
            Extensions::empty(),
            vec![6; 32],
        )
    };
    assert_eq!(from_keys(p256, &signer).map(|_| ()), Err(unsupported()));
    assert_eq!(from_keys(config(), &other_scheme).map(|_| ()), Err(unsigned()));
    assert_eq!(from_keys(p256, &other_scheme).map(|_| ()), Err(unsupported()));
    let before = Lifetime::now().unwrap();
    let (key_package, pair) = from_keys(config(), &signer).unwrap();
    let after = Lifetime::now().unwrap();
    assert_eq!(key_package.hpke_init_key().as_slice(), &[6u8; 32]);
    assert_eq!(key_package.ciphersuite(), SUITE);
    assert_eq!(
        key_package.leaf_node().encryption_key().as_slice(),
        pair.public_key().as_slice()
    );
    assert_eq!(pair.public_key().as_slice().len(), 32);
    // The lifetime of the leaf node is of the default length from now
    let lifetime = *key_package.leaf_node().life_time().unwrap();
    assert!(before - 3600 <= lifetime.not_before && lifetime.not_before <= after - 3600);
    assert!(before + 7257600 <= lifetime.not_after && lifetime.not_after <= after + 7257600);
    assert_eq!(lifetime.not_after - lifetime.not_before, 7257600 + 3600);
    // It is what is made of the same parts
    let again = KeyPackage::from_parts::<u8>(
        config(),
        &signer,
        credential(b"Alice", &signer),
        Extensions::empty(),
        Capabilities::default(),
        Extensions::empty(),
        vec![6; 32],
        pair.public_key().duplicate(),
        *key_package.leaf_node().life_time().unwrap(),
    )
    .unwrap();
    assert!(again == key_package);
    assert_eq!(again.signature().as_slice(), key_package.signature().as_slice());

    let from_init_key = |config: CryptoConfig, signer: &SignatureKeyPair| {
        KeyPackage::new_from_init_key::<u8>(
            config,
            &backend,
            signer,
            credential(b"Alice", signer),
            Extensions::empty(),
            Capabilities::default(),
            Extensions::empty(),
            vec![6; 32],
        )
        .map(|_| ())
    };
    assert_eq!(from_init_key(p256, &signer), Err(unsupported()));
    assert_eq!(from_init_key(config(), &other_scheme), Err(unsigned()));
    assert_eq!(from_init_key(config(), &signer), Ok(()));

    let from_encryption_key = |config: CryptoConfig, signer: &SignatureKeyPair| {
        KeyPackage::new_from_encryption_key::<u8>(
            config,
            &backend,
            signer,
            credential(b"Alice", signer),
            Extensions::empty(),
            Capabilities::default(),
            Extensions::empty(),
            EncryptionKey::new(vec![8; 32]),
        )
    };
    assert_eq!(from_encryption_key(p256, &signer).map(|_| ()), Err(unsupported()));
    assert_eq!(
        from_encryption_key(config(), &other_scheme).map(|_| ()),
        Err(unsigned())
    );
    let (key_package, init_private_key) = from_encryption_key(config(), &signer).unwrap();
    assert_eq!(key_package.leaf_node().encryption_key().as_slice(), &[8u8; 32]);
    assert_eq!(init_private_key.len(), 32);
    assert_eq!(key_package.hpke_init_key().as_slice().len(), 32);
    // The private key is that of the init key: what is encrypted to the
    // init key is decrypted with it
    let sealed = openmls::hpke::encrypt_with_label(
        key_package.hpke_init_key().as_slice(),
        "Welcome",
        b"context",
        b"secret",
        SUITE,
        &backend,
    )
    .unwrap();
    assert_eq!(
        openmls::hpke::decrypt_with_label(
            &init_private_key,
            "Welcome",
            b"context",
            &sealed,
            SUITE,
            &backend
        )
        .unwrap(),
        b"secret"
    );
}

#[test]
fn built_key_package_comes_with_what_is_to_be_stored() {
    let backend = OpenMlsRustCrypto::default();
    let alice = signer(&backend);
    let storage = KeyPackageBuilder::new()
        .build::<u8>(config(), &backend, &alice, credential(b"Alice", &alice))
        .unwrap();
    assert_eq!(
        storage.key_package_id.as_slice(),
        storage.key_package.hash_ref(&backend).unwrap().as_slice()
    );
    // The init key is not the encryption key of the leaf node
    assert_ne!(
        storage.key_package.hpke_init_key().as_slice(),
        storage.key_package.leaf_node().encryption_key().as_slice()
    );
    assert_eq!(
        storage.key_package.leaf_node().encryption_key().as_slice(),
        storage.encryption_keypair.public_key().as_slice()
    );
    // Each private key is that of its public key: what is encrypted to the
    // public key is decrypted with it
    for (public, private) in [
        (
            storage.key_package.hpke_init_key().as_slice(),
            storage.init_private_key.as_slice(),
        ),
        (
            storage.encryption_keypair.public_key().as_slice(),
            storage.encryption_keypair.private_key().as_slice(),
        ),
    ] {
        assert_eq!(private.len(), 32);
        let sealed = openmls::hpke::encrypt_with_label(
            public, "Welcome", b"context", b"secret", SUITE, &backend,
        )
        .unwrap();
        assert_eq!(
            openmls::hpke::decrypt_with_label(
                private, "Welcome", b"context", &sealed, SUITE, &backend
            )
            .unwrap(),
            b"secret"
        );
    }
    assert!(KeyPackageIn::from_key_package(storage.key_package)
        .validate(&backend, ProtocolVersion::Mls10)
        .is_ok());

    // The signer is of another scheme than the ciphersuite: nothing else
    // gives this error
    let other_scheme = SignatureKeyPair::from_raw(
        SignatureScheme::ECDSA_SECP256R1_SHA256,
        vec![1; 32],
        vec![2; 65],
    );
    assert_eq!(
        KeyPackageBuilder::new()
            .build::<u8>(config(), &backend, &other_scheme, credential(b"Alice", &other_scheme))
            .map(|_| ()),
        Err(KeyPackageNewError::CiphersuiteSignatureSchemeMismatch)
    );
    assert_eq!(
        KeyPackageBuilder::new()
            .build_without_key_storage::<u8>(
                config(),
                &backend,
                &other_scheme,
                credential(b"Alice", &other_scheme)
            )
            .map(|_| ()),
        Err(KeyPackageNewError::CiphersuiteSignatureSchemeMismatch)
    );
    // A signer of the scheme that makes no signature
    let broken = SignatureKeyPair::from_raw(SignatureScheme::ED25519, vec![1; 5], vec![2; 32]);
    assert_eq!(
        KeyPackageBuilder::new()
            .build::<u8>(config(), &backend, &broken, credential(b"Alice", &broken))
            .map(|_| ()),
        Err(KeyPackageNewError::LibraryError(LibraryError::Custom))
    );
}
