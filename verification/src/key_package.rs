//! Key packages: what a client publishes so that others can add it to a
//! group without it being there.
//!
//! A key package holds a protocol version and a ciphersuite, an HPKE public
//! key to encrypt the secrets of the group to, the leaf node of the client
//! and extensions. It is signed with the signature key of the leaf node.

use vstd::prelude::*;
use vstd::string::StringSliceAdditionalSpecFns;
use openmls_rust_crypto::OpenMlsRustCrypto;
use crate::bytes::bytes_equal;
use crate::capabilities::Capabilities;
use crate::capabilities::CapabilitiesView;
use crate::codec::append_u16;
use crate::codec::append_vector;
use crate::codec::u16_encoding;
use crate::codec::vector_encoding;
use crate::codec::CodecError;
use crate::codec::MAX_VECTOR_LENGTH;
use crate::credentials::CredentialWithKey;
use crate::extensions::extensions_encodable;
use crate::extensions::extensions_encoding;
use crate::extensions::has_extension_type;
use crate::extensions::ExtensionType;
use crate::extensions::ExtensionView;
use crate::extensions::Extensions;
use crate::keys::derive_hpke_key_pair;
use crate::keys::derives_hpke_key_pairs;
use crate::keys::is_key_pair_of;
use crate::keys::is_randomness_for;
use crate::keys::key_pair_view;
use crate::keys::spec_fresh_key_pair;
use crate::keys::EncryptionKey;
use crate::keys::EncryptionKeyPair;
use crate::keys::HpkePrivateKey;
use crate::keys::HpkePublicKey;
use crate::keys::Signature;
use crate::keys::SignatureKeyPair;
use crate::keys::SignatureKeyPairView;
use crate::leaf_node::leaf_node_encodable;
use crate::leaf_node::leaf_node_encoding;
use crate::leaf_node::payload_of;
use crate::leaf_node::resigned_payload;
use crate::leaf_node::spec_signed_leaf_node;
use crate::leaf_node::LeafNode;
use crate::leaf_node::spec_validate_in_key_package;
use crate::leaf_node::spec_verify_leaf_node;
use crate::leaf_node::LeafNodeIn;
use crate::leaf_node::LeafNodeValidationError;
use crate::leaf_node::VerifiableLeafNode;
use crate::leaf_node::LeafNodeSource;
use crate::leaf_node::LeafNodeSourceView;
use crate::leaf_node::LeafNodeView;
use crate::leaf_node::TreeInfoTbs;
use crate::leaf_node::TreeInfoTbsView;
use crate::lifetime::Lifetime;
use crate::lifetime::DEFAULT_KEY_PACKAGE_LIFETIME_SECONDS;
use crate::provider::hash_digest;
use crate::provider::hpke_key_pair;
use crate::provider::provider_hash;
use crate::secret::Secret;
use crate::signable::sign_with_label;
use crate::signable::spec_sign_with_label;
use crate::signable::spec_verify_with_label;
use crate::signable::OpenMlsSignaturePublicKey;
use crate::signable::SignatureError;
use crate::signable::VerificationKeyView;
use crate::types::Ciphersuite;
use crate::types::CryptoConfig;
use crate::types::CryptoError;
use crate::types::LibraryError;
use crate::types::ProtocolVersion;
use vstd::std_specs::cmp::PartialEqSpecImpl;

verus! {

/// Failures of making a key package.
#[derive(Debug, PartialEq, Eq)]
pub enum KeyPackageNewError<KeyStoreError> {
    /// A condition that the library relies on was broken.
    LibraryError(LibraryError),
    /// The ciphersuite does not match the signature scheme.
    CiphersuiteSignatureSchemeMismatch,
    /// Accessing the key store failed.
    KeyStoreError(KeyStoreError),
    /// No signature was made.
    SignatureError(SignatureError),
}

/// Why a key package does not do for a group.
#[derive(Clone, Copy, Debug, PartialEq, Eq, Structural)]
pub enum KeyPackageExtensionSupportError {
    /// The key package does not have a required extension.
    UnsupportedExtension,
}

/// What a key package is before it is signed.
pub struct KeyPackageTbsView {
    pub protocol_version: ProtocolVersion,
    pub ciphersuite: Ciphersuite,
    pub init_key: Seq<u8>,
    pub leaf_node: LeafNodeView,
    pub extensions: Seq<ExtensionView>,
}

/// What a key package is: its content and its signature.
pub struct KeyPackageView {
    pub payload: KeyPackageTbsView,
    pub signature: Seq<u8>,
}

/// The content of a key package, which is signed.
#[derive(Debug)]
pub struct KeyPackageTbs {
    protocol_version: ProtocolVersion,
    ciphersuite: Ciphersuite,
    init_key: HpkePublicKey,
    leaf_node: LeafNode,
    extensions: Extensions,
}

/// A key package.
#[derive(Debug)]
pub struct KeyPackage {
    payload: KeyPackageTbs,
    signature: Signature,
}

/// A key package as it comes from the wire: not yet verified.
#[derive(Debug)]
pub struct KeyPackageIn {
    payload: KeyPackageTbs,
    signature: Signature,
}

/// The encoding of the content of a key package.
pub open spec fn key_package_tbs_encoding(payload: KeyPackageTbsView) -> Seq<u8> {
    u16_encoding(payload.protocol_version.spec_value()) + u16_encoding(payload.ciphersuite.spec_value()) + vector_encoding(payload.init_key) + leaf_node_encoding(
        payload.leaf_node,
    ) + extensions_encoding(payload.extensions)
}

/// Whether the content of a key package can be encoded.
pub open spec fn key_package_tbs_encodable(payload: KeyPackageTbsView) -> bool {
    &&& payload.init_key.len() <= MAX_VECTOR_LENGTH
    &&& leaf_node_encodable(payload.leaf_node)
    &&& extensions_encodable(payload.extensions)
}

/// The encoding of a key package: its content, then its signature as a
/// vector.
pub open spec fn key_package_encoding(key_package: KeyPackageView) -> Seq<u8> {
    key_package_tbs_encoding(key_package.payload) + vector_encoding(key_package.signature)
}

/// Whether a key package can be encoded.
pub open spec fn key_package_encodable(key_package: KeyPackageView) -> bool {
    key_package_tbs_encodable(key_package.payload) && key_package.signature.len() <= MAX_VECTOR_LENGTH
}

/// The label under which key packages are signed.
pub open spec fn key_package_label() -> Seq<u8> {
    "KeyPackageTBS".spec_bytes()
}

/// The signature that a key pair makes of the content of a key package, if
/// it makes one.
pub open spec fn spec_sign_key_package(signer: SignatureKeyPairView, payload: KeyPackageTbsView) -> Option<Seq<u8>> {
    if key_package_tbs_encodable(payload) {
        spec_sign_with_label(signer, key_package_label(), key_package_tbs_encoding(payload))
    } else {
        None
    }
}

/// The key package that signing a content gives, if it gives one.
pub open spec fn spec_signed_key_package(signer: SignatureKeyPairView, payload: KeyPackageTbsView) -> Option<KeyPackageView> {
    match spec_sign_key_package(signer, payload) {
        Some(signature) => Some(KeyPackageView { payload, signature }),
        None => None,
    }
}

/// Whether the signature of a key package is accepted under a key.
pub open spec fn spec_verify_key_package(key: VerificationKeyView, key_package: KeyPackageView) -> bool {
    key_package_tbs_encodable(key_package.payload) && spec_verify_with_label(key, key_package_label(), key_package_tbs_encoding(key_package.payload), key_package.signature)
}

/// The bytes of `"MLS 1.0 KeyPackage Reference"`.
pub open spec fn key_package_ref_label() -> Seq<u8> {
    "MLS 1.0 KeyPackage Reference".spec_bytes()
}

/// The reference of a key package: the hash, under the ciphersuite of the
/// key package, of the label of such references and the encoded key
/// package, each as a vector.
pub open spec fn spec_hash_ref(key_package: KeyPackageView) -> Seq<u8> {
    hash_digest(
        key_package.payload.ciphersuite.spec_hash_algorithm(),
        vector_encoding(key_package_ref_label()) + vector_encoding(key_package_encoding(key_package)),
    )
}

/// The key package made of its parts, if signing gives one: a leaf node of
/// a key package with the lifetime given, signed, in a content that is
/// signed in turn.
pub open spec fn spec_key_package(
    config: CryptoConfig,
    signer: SignatureKeyPairView,
    credential_with_key: CredentialWithKey,
    extensions: Seq<ExtensionView>,
    capabilities: CapabilitiesView,
    leaf_node_extensions: Seq<ExtensionView>,
    init_key: Seq<u8>,
    encryption_key: Seq<u8>,
    lifetime: Lifetime,
) -> Option<KeyPackageView> {
    match spec_signed_leaf_node(
        signer,
        payload_of(encryption_key, credential_with_key, capabilities, LeafNodeSourceView::KeyPackage(lifetime), leaf_node_extensions),
        TreeInfoTbsView::KeyPackage,
    ) {
        None => None,
        Some(leaf_node) => spec_signed_key_package(
            signer,
            KeyPackageTbsView { protocol_version: config.version, ciphersuite: config.ciphersuite, init_key, leaf_node, extensions },
        ),
    }
}

/// What making a key package of its parts gives: the key package, or
/// `Custom` where the signer makes no signature of the leaf node, or
/// `SigningError` where it makes none of the key package.
pub open spec fn spec_key_package_outcome<E>(
    config: CryptoConfig,
    signer: SignatureKeyPairView,
    credential_with_key: CredentialWithKey,
    extensions: Seq<ExtensionView>,
    capabilities: CapabilitiesView,
    leaf_node_extensions: Seq<ExtensionView>,
    init_key: Seq<u8>,
    encryption_key: Seq<u8>,
    lifetime: Lifetime,
) -> Result<KeyPackageView, KeyPackageNewError<E>> {
    match spec_signed_leaf_node(
        signer,
        payload_of(encryption_key, credential_with_key, capabilities, LeafNodeSourceView::KeyPackage(lifetime), leaf_node_extensions),
        TreeInfoTbsView::KeyPackage,
    ) {
        None => Err(KeyPackageNewError::LibraryError(LibraryError::Custom)),
        Some(leaf_node) => match spec_signed_key_package(
            signer,
            KeyPackageTbsView { protocol_version: config.version, ciphersuite: config.ciphersuite, init_key, leaf_node, extensions },
        ) {
            None => Err(KeyPackageNewError::SignatureError(SignatureError::SigningError)),
            Some(key_package) => Ok(key_package),
        },
    }
}

/// The key package that was made, or the failure.
pub open spec fn package_view<E>(r: Result<KeyPackage, KeyPackageNewError<E>>) -> Result<KeyPackageView, KeyPackageNewError<E>> {
    match r {
        Ok(key_package) => Ok(key_package@),
        Err(e) => Err(e),
    }
}

/// What making a key package with the init key given and a fresh
/// encryption key pair gives, for the randomness that the provider gave and
/// the time `now` of the clock: the key package, whose leaf node has the
/// public key of the fresh pair and a lifetime of the default length from
/// `now`, with the keys of the pair, private key first. Fails as the making
/// of the key pair or of the key package fails.
pub open spec fn spec_new_from_keys<E>(
    config: CryptoConfig,
    signer: SignatureKeyPairView,
    credential_with_key: CredentialWithKey,
    extensions: Seq<ExtensionView>,
    capabilities: CapabilitiesView,
    leaf_node_extensions: Seq<ExtensionView>,
    init_key: Seq<u8>,
    randomness: Option<Seq<u8>>,
    now: u64,
) -> Result<(KeyPackageView, (Seq<u8>, Seq<u8>)), KeyPackageNewError<E>> {
    match spec_fresh_key_pair(config, randomness) {
        Err(e) => Err(KeyPackageNewError::LibraryError(e)),
        Ok(pair) => match spec_key_package_outcome::<E>(
            config,
            signer,
            credential_with_key,
            extensions,
            capabilities,
            leaf_node_extensions,
            init_key,
            pair.1,
            Lifetime::spec_starting_at(now, DEFAULT_KEY_PACKAGE_LIFETIME_SECONDS),
        ) {
            Err(e) => Err(e),
            Ok(key_package) => Ok((key_package, pair)),
        },
    }
}

/// The key package that was made and the keys of the fresh encryption key
/// pair, private key first, or the failure.
pub open spec fn with_key_pair_view<E>(r: Result<(KeyPackage, EncryptionKeyPair), KeyPackageNewError<E>>) -> Result<
    (KeyPackageView, (Seq<u8>, Seq<u8>)),
    KeyPackageNewError<E>,
> {
    match r {
        Ok(out) => Ok((out.0@, (out.1.private_key@, out.1.public_key@))),
        Err(e) => Err(e),
    }
}

/// What making a key package with the encryption key given and a fresh
/// init key pair gives, for the randomness that the provider gave and the
/// time `now` of the clock: the key package, whose init key is the public
/// key of the fresh pair and whose leaf node has a lifetime of the default
/// length from `now`, with the private key of the pair. Fails as the making
/// of the key pair or of the key package fails.
pub open spec fn spec_new_from_encryption_key<E>(
    config: CryptoConfig,
    signer: SignatureKeyPairView,
    credential_with_key: CredentialWithKey,
    extensions: Seq<ExtensionView>,
    capabilities: CapabilitiesView,
    leaf_node_extensions: Seq<ExtensionView>,
    encryption_key: Seq<u8>,
    randomness: Option<Seq<u8>>,
    now: u64,
) -> Result<(KeyPackageView, Seq<u8>), KeyPackageNewError<E>> {
    match spec_fresh_key_pair(config, randomness) {
        Err(e) => Err(KeyPackageNewError::LibraryError(e)),
        Ok(pair) => match spec_key_package_outcome::<E>(
            config,
            signer,
            credential_with_key,
            extensions,
            capabilities,
            leaf_node_extensions,
            pair.1,
            encryption_key,
            Lifetime::spec_starting_at(now, DEFAULT_KEY_PACKAGE_LIFETIME_SECONDS),
        ) {
            Err(e) => Err(e),
            Ok(key_package) => Ok((key_package, pair.0)),
        },
    }
}

/// What making a key package with a fresh init key pair and a fresh
/// encryption key pair gives, for the randomness that the provider gave for
/// each and the time `now` of the clock: the key package, the keys of the
/// encryption key pair, private key first, and the private key of the init
/// key. Fails with `CiphersuiteSignatureSchemeMismatch` where the signer is
/// not of the signature scheme of the ciphersuite, and as the making of the
/// key pairs or of the key package fails.
pub open spec fn spec_create<E>(
    config: CryptoConfig,
    signer: SignatureKeyPairView,
    credential_with_key: CredentialWithKey,
    extensions: Seq<ExtensionView>,
    capabilities: CapabilitiesView,
    leaf_node_extensions: Seq<ExtensionView>,
    init_randomness: Option<Seq<u8>>,
    randomness: Option<Seq<u8>>,
    now: u64,
) -> Result<(KeyPackageView, (Seq<u8>, Seq<u8>), Seq<u8>), KeyPackageNewError<E>> {
    if config.ciphersuite.spec_signature_algorithm() != signer.signature_scheme {
        Err(KeyPackageNewError::CiphersuiteSignatureSchemeMismatch)
    } else {
        match spec_fresh_key_pair(config, init_randomness) {
            Err(e) => Err(KeyPackageNewError::LibraryError(e)),
            Ok(init) => match spec_new_from_keys::<E>(
                config,
                signer,
                credential_with_key,
                extensions,
                capabilities,
                leaf_node_extensions,
                init.1,
                randomness,
                now,
            ) {
                Err(e) => Err(e),
                Ok(out) => if init.1 == out.1.1 {
                    Err(KeyPackageNewError::LibraryError(LibraryError::Custom))
                } else {
                    Ok((out.0, out.1, init.0))
                },
            },
        }
    }
}

/// What making a key package for storing gives, for the randomness that
/// the provider gave for each key pair and the time `now` of the clock: the
/// key package that `spec_create` gives, its reference, the keys of the
/// encryption key pair, private key first, and the private key of the init
/// key. Fails as the making of the key package fails, and with
/// `MissingBoundsCheck` where the key package cannot be encoded for its
/// reference.
pub open spec fn spec_build<E>(
    config: CryptoConfig,
    signer: SignatureKeyPairView,
    credential_with_key: CredentialWithKey,
    extensions: Seq<ExtensionView>,
    capabilities: CapabilitiesView,
    leaf_node_extensions: Seq<ExtensionView>,
    init_randomness: Option<Seq<u8>>,
    randomness: Option<Seq<u8>>,
    now: u64,
) -> Result<(KeyPackageView, Seq<u8>, (Seq<u8>, Seq<u8>), Seq<u8>), KeyPackageNewError<E>> {
    match spec_create::<E>(config, signer, credential_with_key, extensions, capabilities, leaf_node_extensions, init_randomness, randomness, now) {
        Err(e) => Err(e),
        Ok(out) => if key_package_encodable(out.0) && key_package_encoding(out.0).len() <= MAX_VECTOR_LENGTH {
            Ok((out.0, spec_hash_ref(out.0), out.1, out.2))
        } else {
            Err(KeyPackageNewError::LibraryError(LibraryError::MissingBoundsCheck))
        },
    }
}

/// What is to be stored of the key package that was made, or the failure:
/// the key package, its reference, the keys of the encryption key pair,
/// private key first, and the private key of the init key.
pub open spec fn storage_view<E>(r: Result<KeyPackageStorage, KeyPackageNewError<E>>) -> Result<
    (KeyPackageView, Seq<u8>, (Seq<u8>, Seq<u8>), Seq<u8>),
    KeyPackageNewError<E>,
> {
    match r {
        Ok(out) => Ok((out.key_package@, out.key_package_id@, (out.encryption_keypair.private_key@, out.encryption_keypair.public_key@), out.init_private_key@)),
        Err(e) => Err(e),
    }
}

/// The key package that was made with the keys of its encryption key pair,
/// private key first, and the private key of its init key, or the failure.
pub open spec fn creation_view<E>(r: Result<KeyPackageCreationResult, KeyPackageNewError<E>>) -> Result<
    (KeyPackageView, (Seq<u8>, Seq<u8>), Seq<u8>),
    KeyPackageNewError<E>,
> {
    match r {
        Ok(out) => Ok((out.key_package@, (out.encryption_keypair.private_key@, out.encryption_keypair.public_key@), out.init_private_key@)),
        Err(e) => Err(e),
    }
}

/// The key package that was made and the private key of its init key, or
/// the failure.
pub open spec fn with_private_key_view<E>(r: Result<(KeyPackage, Vec<u8>), KeyPackageNewError<E>>) -> Result<(KeyPackageView, Seq<u8>), KeyPackageNewError<E>> {
    match r {
        Ok(out) => Ok((out.0@, out.1@)),
        Err(e) => Err(e),
    }
}

/// The lifetime of the leaf node of a key package; that of no time at all
/// where the leaf node has none.
pub open spec fn leaf_lifetime(key_package: KeyPackageView) -> Lifetime {
    match key_package.payload.leaf_node.payload.leaf_node_source {
        LeafNodeSourceView::KeyPackage(lifetime) => lifetime,
        _ => Lifetime { not_before: 0, not_after: 0 },
    }
}

impl View for KeyPackageTbs {
    type V = KeyPackageTbsView;

    closed spec fn view(&self) -> KeyPackageTbsView {
        KeyPackageTbsView {
            protocol_version: self.protocol_version,
            ciphersuite: self.ciphersuite,
            init_key: self.init_key@,
            leaf_node: self.leaf_node@,
            extensions: self.extensions@,
        }
    }
}

impl View for KeyPackage {
    type V = KeyPackageView;

    closed spec fn view(&self) -> KeyPackageView {
        KeyPackageView { payload: self.payload@, signature: self.signature@ }
    }
}

impl View for KeyPackageIn {
    type V = KeyPackageView;

    closed spec fn view(&self) -> KeyPackageView {
        KeyPackageView { payload: self.payload@, signature: self.signature@ }
    }
}

impl KeyPackageTbs {
    /// The content of a key package.
    pub fn from(kp: KeyPackage) -> (tbs: Self)
        ensures
            tbs@ == kp@.payload,
    {
        kp.payload
    }

    /// Whether two contents are the same.
    pub fn equals(&self, other: &Self) -> (b: bool)
        ensures
            b == (self@ == other@),
    {
        self.protocol_version == other.protocol_version && self.ciphersuite == other.ciphersuite && bytes_equal(self.init_key.as_slice(), other.init_key.as_slice())
            && self.leaf_node.equals(&other.leaf_node) && self.extensions.equals(&other.extensions)
    }

    /// Appends the encoding of the content. Fails where the content cannot
    /// be encoded; what `out` holds then is not told.
    pub fn append_encoding(&self, out: &mut Vec<u8>) -> (r: Result<(), CodecError>)
        ensures
            key_package_tbs_encodable(self@) ==> r is Ok && final(out)@ == old(out)@ + key_package_tbs_encoding(self@),
            !key_package_tbs_encodable(self@) ==> r == Err::<(), CodecError>(CodecError::InvalidVectorLength),
    {
        append_u16(out, self.protocol_version.value());
        append_u16(out, self.ciphersuite.value());
        match append_vector(out, self.init_key.as_slice()) {
            Err(e) => {
                return Err(e);
            },
            Ok(()) => {},
        }
        match self.leaf_node.append_encoding(out) {
            Err(e) => {
                return Err(e);
            },
            Ok(()) => {},
        }
        match self.extensions.append_encoding(out) {
            Err(e) => {
                return Err(e);
            },
            Ok(()) => {},
        }
        assert(out@ == old(out)@ + key_package_tbs_encoding(self@));
        Ok(())
    }

    /// The bytes that are signed.
    pub fn unsigned_payload(&self) -> (r: Result<Vec<u8>, CodecError>)
        ensures
            key_package_tbs_encodable(self@) ==> r is Ok && r.unwrap()@ == key_package_tbs_encoding(self@),
            !key_package_tbs_encodable(self@) ==> r == Err::<Vec<u8>, CodecError>(CodecError::InvalidVectorLength),
    {
        let mut out: Vec<u8> = Vec::new();
        match self.append_encoding(&mut out) {
            Ok(()) => {
                assert(out@ == key_package_tbs_encoding(self@));
                Ok(out)
            },
            Err(e) => Err(e),
        }
    }

    /// The label under which the bytes are signed.
    pub fn label(&self) -> (l: &'static str)
        ensures
            l.spec_bytes() == key_package_label(),
    {
        "KeyPackageTBS"
    }

    /// Signs the content. Fails with `SigningError` where the signer makes
    /// no signature.
    pub fn sign(self, signer: &SignatureKeyPair) -> (r: Result<KeyPackage, SignatureError>)
        ensures
            r is Ok == spec_signed_key_package(signer@, self@) is Some,
            r matches Ok(key_package) ==> Some(key_package@) == spec_signed_key_package(signer@, self@),
            r matches Err(e) ==> e == SignatureError::SigningError,
    {
        let payload = match self.unsigned_payload() {
            Ok(payload) => payload,
            Err(_) => {
                return Err(SignatureError::SigningError);
            },
        };
        match sign_with_label(signer, "KeyPackageTBS", payload.as_slice()) {
            Ok(signature) => Ok(KeyPackage::from_payload(self, signature)),
            Err(e) => Err(e),
        }
    }
}

/// What the making of a key package gives: the key package, the encryption
/// key pair of its leaf node and the private key of its init key.
#[derive(Debug)]
pub struct KeyPackageCreationResult {
    pub key_package: KeyPackage,
    pub encryption_keypair: EncryptionKeyPair,
    pub init_private_key: Vec<u8>,
}

/// Whether a list of extensions holds one of each kind of a list.
pub open spec fn has_all_extension_types(extensions: Seq<ExtensionView>, required: Seq<ExtensionType>) -> bool {
    forall|i: int| 0 <= i < required.len() ==> has_extension_type(extensions, #[trigger] required[i])
}

impl KeyPackage {
    /// The key package of a signed content.
    pub fn from_payload(payload: KeyPackageTbs, signature: Signature) -> (key_package: Self)
        ensures
            key_package@ == (KeyPackageView { payload: payload@, signature: signature@ }),
    {
        KeyPackage { payload, signature }
    }

    /// A builder of key packages.
    pub fn builder() -> (b: KeyPackageBuilder)
        ensures
            b.key_package_extensions is None,
            b.leaf_node_capabilities is None,
            b.leaf_node_extensions is None,
    {
        KeyPackageBuilder::new()
    }

    /// The key package made of the parts given, with the leaf node signed
    /// and then the key package. Fails with `SignatureError` where the
    /// signer makes no signature.
    pub fn from_parts<KeyStoreError>(
        config: CryptoConfig,
        signer: &SignatureKeyPair,
        credential_with_key: CredentialWithKey,
        extensions: Extensions,
        capabilities: Capabilities,
        leaf_node_extensions: Extensions,
        init_key: Vec<u8>,
        encryption_key: EncryptionKey,
        lifetime: Lifetime,
    ) -> (r: Result<Self, KeyPackageNewError<KeyStoreError>>)
        ensures
            r is Ok == spec_key_package(config, signer@, credential_with_key, extensions@, capabilities@, leaf_node_extensions@, init_key@, encryption_key@, lifetime) is Some,
            r matches Ok(key_package) ==> Some(key_package@) == spec_key_package(config, signer@, credential_with_key, extensions@, capabilities@, leaf_node_extensions@, init_key@, encryption_key@, lifetime),
            r matches Err(e) ==> e == KeyPackageNewError::<KeyStoreError>::LibraryError(LibraryError::Custom) || e == KeyPackageNewError::<KeyStoreError>::SignatureError(
                SignatureError::SigningError,
            ),
            package_view(r) == spec_key_package_outcome::<KeyStoreError>(
                config,
                signer@,
                credential_with_key,
                extensions@,
                capabilities@,
                leaf_node_extensions@,
                init_key@,
                encryption_key@,
                lifetime,
            ),
    {
        let leaf_node = match LeafNode::new_with_key(
            encryption_key,
            credential_with_key,
            LeafNodeSource::KeyPackage(lifetime),
            capabilities,
            leaf_node_extensions,
            TreeInfoTbs::KeyPackage,
            signer,
        ) {
            Ok(leaf_node) => leaf_node,
            Err(e) => {
                return Err(KeyPackageNewError::LibraryError(e));
            },
        };
        let key_package_tbs = KeyPackageTbs {
            protocol_version: config.version,
            ciphersuite: config.ciphersuite,
            init_key: HpkePublicKey::new(init_key),
            leaf_node,
            extensions,
        };
        match key_package_tbs.sign(signer) {
            Ok(key_package) => Ok(key_package),
            Err(e) => Err(KeyPackageNewError::SignatureError(e)),
        }
    }

    /// A new key package with a fresh init key pair and a fresh encryption
    /// key pair, with the private keys. Fails with
    /// `CiphersuiteSignatureSchemeMismatch` where the signer is not of the
    /// scheme of the ciphersuite, and where no randomness or key pair can be
    /// had, the signer makes no signature, or the two fresh public keys are
    /// the same: the init key of a key package is not the encryption key of
    /// its leaf node.
    pub fn create<KeyStoreError>(
        config: CryptoConfig,
        backend: &OpenMlsRustCrypto,
        signer: &SignatureKeyPair,
        credential_with_key: CredentialWithKey,
        extensions: Extensions,
        leaf_node_capabilities: Capabilities,
        leaf_node_extensions: Extensions,
    ) -> (r: Result<KeyPackageCreationResult, KeyPackageNewError<KeyStoreError>>)
        ensures
            config.ciphersuite.spec_signature_algorithm() != signer@.signature_scheme ==> r == Err::<KeyPackageCreationResult, KeyPackageNewError<KeyStoreError>>(
                KeyPackageNewError::CiphersuiteSignatureSchemeMismatch,
            ),
            !derives_hpke_key_pairs(config) ==> r is Err,
            r matches Ok(out) ==> config.ciphersuite.spec_signature_algorithm() == signer@.signature_scheme && Some(out.key_package@) == spec_key_package(
                config,
                signer@,
                credential_with_key,
                extensions@,
                leaf_node_capabilities@,
                leaf_node_extensions@,
                out.key_package@.payload.init_key,
                out.encryption_keypair.public_key@,
                leaf_lifetime(out.key_package@),
            ),
            r matches Ok(out) ==> exists|ikm: Seq<u8>| #[trigger] is_key_pair_of(out.encryption_keypair, config, ikm),
            r matches Ok(out) ==> exists|ikm: Seq<u8>| (out.init_private_key@, out.key_package@.payload.init_key) == #[trigger] hpke_key_pair(config.ciphersuite.spec_hpke_config().kem, ikm),
            r matches Ok(out) ==> out.key_package@.payload.init_key != out.key_package@.payload.leaf_node.payload.encryption_key,
            exists|init_randomness: Option<Seq<u8>>, randomness: Option<Seq<u8>>, now: u64|
                is_randomness_for(config, init_randomness) && is_randomness_for(config, randomness) && creation_view(r) == #[trigger] spec_create::<KeyStoreError>(
                    config,
                    signer@,
                    credential_with_key,
                    extensions@,
                    leaf_node_capabilities@,
                    leaf_node_extensions@,
                    init_randomness,
                    randomness,
                    now,
                ),
    {
        if !(config.ciphersuite.signature_algorithm() == signer.signature_scheme()) {
            let r = Err(KeyPackageNewError::CiphersuiteSignatureSchemeMismatch);
            assert(is_randomness_for(config, None));
            assert(creation_view(r) == spec_create::<KeyStoreError>(
                config,
                signer@,
                credential_with_key,
                extensions@,
                leaf_node_capabilities@,
                leaf_node_extensions@,
                None,
                None,
                0,
            ));
            return r;
        }
        let ikm = match Secret::random(config.ciphersuite, backend, config.version) {
            Ok(ikm) => ikm,
            Err(e) => {
                let r = Err(KeyPackageNewError::LibraryError(LibraryError::UnexpectedCryptoError(e)));
                assert(is_randomness_for(config, None));
                assert(creation_view(r) == spec_create::<KeyStoreError>(
                    config,
                    signer@,
                    credential_with_key,
                    extensions@,
                    leaf_node_capabilities@,
                    leaf_node_extensions@,
                    None,
                    None,
                    0,
                ));
                return r;
            },
        };
        let ghost init_randomness = Some(ikm@.bytes);
        assert(is_randomness_for(config, init_randomness));
        let init_key = match derive_hpke_key_pair(backend, config, ikm.as_slice()) {
            Ok(pair) => pair,
            Err(e) => {
                let r = Err(KeyPackageNewError::LibraryError(LibraryError::UnexpectedCryptoError(e)));
                assert(is_randomness_for(config, None));
                assert(creation_view(r) == spec_create::<KeyStoreError>(
                    config,
                    signer@,
                    credential_with_key,
                    extensions@,
                    leaf_node_capabilities@,
                    leaf_node_extensions@,
                    init_randomness,
                    None,
                    0,
                ));
                return r;
            },
        };
        let ghost init_public = init_key.1@;
        let made = KeyPackage::new_from_keys(config, backend, signer, credential_with_key, extensions, leaf_node_capabilities, leaf_node_extensions, init_key.1);
        let ghost witness = choose|randomness: Option<Seq<u8>>, now: u64|
            is_randomness_for(config, randomness) && with_key_pair_view(made) == #[trigger] spec_new_from_keys::<KeyStoreError>(
                config,
                signer@,
                credential_with_key,
                extensions@,
                leaf_node_capabilities@,
                leaf_node_extensions@,
                init_public,
                randomness,
                now,
            );
        let ghost outcome = spec_create::<KeyStoreError>(
            config,
            signer@,
            credential_with_key,
            extensions@,
            leaf_node_capabilities@,
            leaf_node_extensions@,
            init_randomness,
            witness.0,
            witness.1,
        );
        let r = match made {
            Ok((key_package, encryption_keypair)) => if bytes_equal(key_package.hpke_init_key().as_slice(), encryption_keypair.public_key().as_slice()) {
                Err(KeyPackageNewError::LibraryError(LibraryError::Custom))
            } else {
                Ok(KeyPackageCreationResult { key_package, encryption_keypair, init_private_key: init_key.0 })
            },
            Err(e) => Err(e),
        };
        assert(creation_view(r) == outcome);
        r
    }

    /// A new key package with the init key given and a fresh encryption key
    /// pair, which comes with it. The lifetime of its leaf node starts now.
    pub fn new_from_keys<KeyStoreError>(
        config: CryptoConfig,
        backend: &OpenMlsRustCrypto,
        signer: &SignatureKeyPair,
        credential_with_key: CredentialWithKey,
        extensions: Extensions,
        capabilities: Capabilities,
        leaf_node_extensions: Extensions,
        init_key: Vec<u8>,
    ) -> (r: Result<(Self, EncryptionKeyPair), KeyPackageNewError<KeyStoreError>>)
        ensures
            !derives_hpke_key_pairs(config) ==> r is Err,
            r matches Ok(out) ==> Some(out.0@) == spec_key_package(
                config,
                signer@,
                credential_with_key,
                extensions@,
                capabilities@,
                leaf_node_extensions@,
                init_key@,
                out.1.public_key@,
                leaf_lifetime(out.0@),
            ),
            r matches Ok(out) ==> exists|ikm: Seq<u8>| #[trigger] is_key_pair_of(out.1, config, ikm),
            exists|randomness: Option<Seq<u8>>, now: u64|
                is_randomness_for(config, randomness) && with_key_pair_view(r) == #[trigger] spec_new_from_keys::<KeyStoreError>(
                    config,
                    signer@,
                    credential_with_key,
                    extensions@,
                    capabilities@,
                    leaf_node_extensions@,
                    init_key@,
                    randomness,
                    now,
                ),
    {
        let made = EncryptionKeyPair::random(backend, config);
        let ghost randomness = choose|randomness: Option<Seq<u8>>| is_randomness_for(config, randomness) && key_pair_view(made) == #[trigger] spec_fresh_key_pair(config, randomness);
        let encryption_key_pair = match made {
            Ok(pair) => pair,
            Err(e) => {
                let r = Err(KeyPackageNewError::LibraryError(e));
                assert(with_key_pair_view(r) == spec_new_from_keys::<KeyStoreError>(
                    config,
                    signer@,
                    credential_with_key,
                    extensions@,
                    capabilities@,
                    leaf_node_extensions@,
                    init_key@,
                    randomness,
                    0,
                ));
                return r;
            },
        };
        let lifetime = Lifetime::default();
        let ghost now = choose|now: u64| lifetime == #[trigger] Lifetime::spec_starting_at(now, DEFAULT_KEY_PACKAGE_LIFETIME_SECONDS);
        let ghost outcome = spec_new_from_keys::<KeyStoreError>(
            config,
            signer@,
            credential_with_key,
            extensions@,
            capabilities@,
            leaf_node_extensions@,
            init_key@,
            randomness,
            now,
        );
        let r = match KeyPackage::from_parts(
            config,
            signer,
            credential_with_key,
            extensions,
            capabilities,
            leaf_node_extensions,
            init_key,
            encryption_key_pair.public_key().duplicate(),
            lifetime,
        ) {
            Ok(key_package) => Ok((key_package, encryption_key_pair)),
            Err(e) => Err(e),
        };
        assert(with_key_pair_view(r) == outcome);
        r
    }

    /// A new key package with the init key given and a fresh encryption key
    /// pair, which comes with it and is to be stored with the key package
    /// by the caller.
    pub fn new_from_init_key<KeyStoreError>(
        config: CryptoConfig,
        backend: &OpenMlsRustCrypto,
        signer: &SignatureKeyPair,
        credential_with_key: CredentialWithKey,
        extensions: Extensions,
        leaf_node_capabilities: Capabilities,
        leaf_node_extensions: Extensions,
        init_key: Vec<u8>,
    ) -> (r: Result<(Self, EncryptionKeyPair), KeyPackageNewError<KeyStoreError>>)
        ensures
            !derives_hpke_key_pairs(config) ==> r is Err,
            r matches Ok(out) ==> Some(out.0@) == spec_key_package(
                config,
                signer@,
                credential_with_key,
                extensions@,
                leaf_node_capabilities@,
                leaf_node_extensions@,
                init_key@,
                out.1.public_key@,
                leaf_lifetime(out.0@),
            ),
            exists|randomness: Option<Seq<u8>>, now: u64|
                is_randomness_for(config, randomness) && with_key_pair_view(r) == #[trigger] spec_new_from_keys::<KeyStoreError>(
                    config,
                    signer@,
                    credential_with_key,
                    extensions@,
                    leaf_node_capabilities@,
                    leaf_node_extensions@,
                    init_key@,
                    randomness,
                    now,
                ),
    {
        KeyPackage::new_from_keys(config, backend, signer, credential_with_key, extensions, leaf_node_capabilities, leaf_node_extensions, init_key)
    }

    /// A new key package with a fresh init key pair, whose private key comes
    /// with it and is to be stored by the caller, and with the encryption
    /// key given in its leaf node. The lifetime of the leaf node starts now.
    pub fn new_from_encryption_key<KeyStoreError>(
        config: CryptoConfig,
        backend: &OpenMlsRustCrypto,
        signer: &SignatureKeyPair,
        credential_with_key: CredentialWithKey,
        extensions: Extensions,
        leaf_node_capabilities: Capabilities,
        leaf_node_extensions: Extensions,
        encryption_key: EncryptionKey,
    ) -> (r: Result<(Self, Vec<u8>), KeyPackageNewError<KeyStoreError>>)
        ensures
            !derives_hpke_key_pairs(config) ==> r is Err,
            r matches Ok(out) ==> Some(out.0@) == spec_key_package(
                config,
                signer@,
                credential_with_key,
                extensions@,
                leaf_node_capabilities@,
                leaf_node_extensions@,
                out.0@.payload.init_key,
                encryption_key@,
                leaf_lifetime(out.0@),
            ),
            exists|randomness: Option<Seq<u8>>, now: u64|
                is_randomness_for(config, randomness) && with_private_key_view(r) == #[trigger] spec_new_from_encryption_key::<KeyStoreError>(
                    config,
                    signer@,
                    credential_with_key,
                    extensions@,
                    leaf_node_capabilities@,
                    leaf_node_extensions@,
                    encryption_key@,
                    randomness,
                    now,
                ),
    {
        let ikm = match Secret::random(config.ciphersuite, backend, config.version) {
            Ok(ikm) => ikm,
            Err(e) => {
                let r = Err(KeyPackageNewError::LibraryError(LibraryError::UnexpectedCryptoError(e)));
                assert(is_randomness_for(config, None));
                assert(with_private_key_view(r) == spec_new_from_encryption_key::<KeyStoreError>(
                    config,
                    signer@,
                    credential_with_key,
                    extensions@,
                    leaf_node_capabilities@,
                    leaf_node_extensions@,
                    encryption_key@,
                    None,
                    0,
                ));
                return r;
            },
        };
        let ghost randomness = Some(ikm@.bytes);
        assert(is_randomness_for(config, randomness));
        let init_key = match derive_hpke_key_pair(backend, config, ikm.as_slice()) {
            Ok(pair) => pair,
            Err(e) => {
                let r = Err(KeyPackageNewError::LibraryError(LibraryError::UnexpectedCryptoError(e)));
                assert(with_private_key_view(r) == spec_new_from_encryption_key::<KeyStoreError>(
                    config,
                    signer@,
                    credential_with_key,
                    extensions@,
                    leaf_node_capabilities@,
                    leaf_node_extensions@,
                    encryption_key@,
                    randomness,
                    0,
                ));
                return r;
            },
        };
        let lifetime = Lifetime::default();
        let ghost now = choose|now: u64| lifetime == #[trigger] Lifetime::spec_starting_at(now, DEFAULT_KEY_PACKAGE_LIFETIME_SECONDS);
        let ghost outcome = spec_new_from_encryption_key::<KeyStoreError>(
            config,
            signer@,
            credential_with_key,
            extensions@,
            leaf_node_capabilities@,
            leaf_node_extensions@,
            encryption_key@,
            randomness,
            now,
        );
        let r = match KeyPackage::from_parts(
            config,
            signer,
            credential_with_key,
            extensions,
            leaf_node_capabilities,
            leaf_node_extensions,
            init_key.1,
            encryption_key,
            lifetime,
        ) {
            Ok(key_package) => Ok((key_package, init_key.0)),
            Err(e) => Err(e),
        };
        assert(with_private_key_view(r) == outcome);
        r
    }

    /// The key package with another configuration and init key, signed
    /// again. Fails with `SigningError` where the signer makes no signature.
    pub fn into_with_init_key(self, config: CryptoConfig, signer: &SignatureKeyPair, init_key: Vec<u8>) -> (r: Result<Self, SignatureError>)
        ensures
            r is Ok == spec_signed_key_package(signer@, with_init_key(self@.payload, config, init_key@)) is Some,
            r matches Ok(key_package) ==> Some(key_package@) == spec_signed_key_package(signer@, with_init_key(self@.payload, config, init_key@)),
            r matches Err(e) ==> e == SignatureError::SigningError,
    {
        let key_package_tbs = KeyPackageTbs {
            protocol_version: config.version,
            ciphersuite: config.ciphersuite,
            init_key: HpkePublicKey::new(init_key),
            leaf_node: self.payload.leaf_node,
            extensions: self.payload.extensions,
        };
        key_package_tbs.sign(signer)
    }

    /// The key package with another credential, its leaf node and itself
    /// signed again. Fails with `SigningError` where the signer makes no
    /// signature.
    pub fn resign(self, signer: &SignatureKeyPair, credential_with_key: CredentialWithKey) -> (r: Result<Self, SignatureError>)
        ensures
            r is Ok == spec_resigned(self@, signer@, credential_with_key) is Some,
            r matches Ok(key_package) ==> Some(key_package@) == spec_resigned(self@, signer@, credential_with_key),
            r matches Err(e) ==> e == SignatureError::SigningError,
    {
        let mut payload = self.payload;
        match payload.leaf_node.resign(signer, credential_with_key, TreeInfoTbs::KeyPackage) {
            Err(e) => {
                return Err(e);
            },
            Ok(()) => {},
        }
        payload.sign(signer)
    }

    /// Replaces the init key. The signature stays.
    pub fn set_public_key(&mut self, public_key: HpkePublicKey)
        ensures
            final(self)@ == (KeyPackageView { payload: KeyPackageTbsView { init_key: public_key@, ..old(self)@.payload }, signature: old(self)@.signature }),
    {
        self.payload.init_key = public_key
    }

    /// Replaces the protocol version. The signature stays.
    pub fn set_version(&mut self, version: ProtocolVersion)
        ensures
            final(self)@ == (KeyPackageView { payload: KeyPackageTbsView { protocol_version: version, ..old(self)@.payload }, signature: old(self)@.signature }),
    {
        self.payload.protocol_version = version
    }

    /// Replaces the ciphersuite. The signature stays.
    pub fn set_ciphersuite(&mut self, ciphersuite: Ciphersuite)
        ensures
            final(self)@ == (KeyPackageView { payload: KeyPackageTbsView { ciphersuite, ..old(self)@.payload }, signature: old(self)@.signature }),
    {
        self.payload.ciphersuite = ciphersuite
    }

    /// Replaces the leaf node. The signature stays.
    pub fn set_leaf_node(&mut self, leaf_node: LeafNode)
        ensures
            final(self)@ == (KeyPackageView { payload: KeyPackageTbsView { leaf_node: leaf_node@, ..old(self)@.payload }, signature: old(self)@.signature }),
    {
        self.payload.leaf_node = leaf_node;
    }

    /// The extensions.
    pub fn extensions(&self) -> (e: &Extensions)
        ensures
            e@ == self@.payload.extensions,
    {
        &self.payload.extensions
    }

    /// Checks that the key package has an extension of each of the kinds
    /// required. Fails with `UnsupportedExtension` where it lacks one.
    pub fn check_extension_support(&self, required_extensions: &[ExtensionType]) -> (r: Result<(), KeyPackageExtensionSupportError>)
        ensures
            r is Ok == has_all_extension_types(self@.payload.extensions, required_extensions@),
            r matches Err(e) ==> e == KeyPackageExtensionSupportError::UnsupportedExtension,
    {
        let n: usize = required_extensions.len();
        let mut i: usize = 0;
        while i < n
            invariant
                n == required_extensions@.len(),
                i <= n,
                forall|k: int| 0 <= k < i ==> has_extension_type(self@.payload.extensions, #[trigger] required_extensions@[k]),
            decreases n - i,
        {
            if !self.payload.extensions.contains(required_extensions[i]) {
                return Err(KeyPackageExtensionSupportError::UnsupportedExtension);
            }
            i = i + 1;
        }
        Ok(())
    }

    /// The encoding of the key package.
    pub fn encode(&self) -> (r: Result<Vec<u8>, CodecError>)
        ensures
            key_package_encodable(self@) ==> r is Ok && r.unwrap()@ == key_package_encoding(self@),
            !key_package_encodable(self@) ==> r == Err::<Vec<u8>, CodecError>(CodecError::InvalidVectorLength),
    {
        let mut out: Vec<u8> = Vec::new();
        match self.payload.append_encoding(&mut out) {
            Err(e) => {
                return Err(e);
            },
            Ok(()) => {},
        }
        match append_vector(&mut out, self.signature.as_slice()) {
            Err(e) => {
                return Err(e);
            },
            Ok(()) => {},
        }
        assert(out@ == key_package_encoding(self@));
        Ok(out)
    }

    /// The reference of the key package, by which a new member is told
    /// which of its key packages it was added with. Fails with
    /// `MissingBoundsCheck` where the key package, or its encoding as a
    /// vector, cannot be encoded.
    pub fn hash_ref(&self, backend: &OpenMlsRustCrypto) -> (r: Result<KeyPackageRef, LibraryError>)
        ensures
            r is Ok == (key_package_encodable(self@) && key_package_encoding(self@).len() <= MAX_VECTOR_LENGTH),
            r matches Ok(reference) ==> reference@ == spec_hash_ref(self@) && reference@.len() == self@.payload.ciphersuite.spec_hash_length(),
            r matches Err(e) ==> e == LibraryError::MissingBoundsCheck,
    {
        let encoded = match self.encode() {
            Ok(encoded) => encoded,
            Err(_) => {
                return Err(LibraryError::MissingBoundsCheck);
            },
        };
        make_key_package_ref(encoded.as_slice(), self.payload.ciphersuite, backend)
    }

    /// The ciphersuite.
    pub fn ciphersuite(&self) -> (c: Ciphersuite)
        ensures
            c == self@.payload.ciphersuite,
    {
        self.payload.ciphersuite
    }

    /// The leaf node.
    pub fn leaf_node(&self) -> (n: &LeafNode)
        ensures
            n@ == self@.payload.leaf_node,
    {
        &self.payload.leaf_node
    }

    /// The init key: the HPKE public key that the secrets of a group are
    /// encrypted to when the client is added.
    pub fn hpke_init_key(&self) -> (k: &HpkePublicKey)
        ensures
            k@ == self@.payload.init_key,
    {
        &self.payload.init_key
    }

    /// The protocol version.
    pub fn protocol_version(&self) -> (v: ProtocolVersion)
        ensures
            v == self@.payload.protocol_version,
    {
        self.payload.protocol_version
    }

    /// The signature.
    pub fn signature(&self) -> (s: &Signature)
        ensures
            s@ == self@.signature,
    {
        &self.signature
    }

    /// The leaf node of the key package.
    pub fn into_leaf_node(self) -> (n: LeafNode)
        ensures
            n@ == self@.payload.leaf_node,
    {
        self.payload.leaf_node
    }
}

/// The content of a key package with another configuration and init key.
pub open spec fn with_init_key(payload: KeyPackageTbsView, config: CryptoConfig, init_key: Seq<u8>) -> KeyPackageTbsView {
    KeyPackageTbsView { protocol_version: config.version, ciphersuite: config.ciphersuite, init_key, ..payload }
}

/// The key package with another credential, its leaf node and itself signed
/// again, if signing gives them.
pub open spec fn spec_resigned(key_package: KeyPackageView, signer: SignatureKeyPairView, credential_with_key: CredentialWithKey) -> Option<KeyPackageView> {
    match spec_signed_leaf_node(signer, resigned_payload(key_package.payload.leaf_node.payload, credential_with_key), TreeInfoTbsView::KeyPackage) {
        None => None,
        Some(leaf_node) => spec_signed_key_package(signer, KeyPackageTbsView { leaf_node, ..key_package.payload }),
    }
}

impl PartialEq for KeyPackage {
    /// Whether two key packages have the same content. The signature is
    /// left out: one key package may have several valid signatures.
    fn eq(&self, other: &Self) -> (b: bool) {
        self.payload.equals(&other.payload)
    }
}

impl PartialEqSpecImpl for KeyPackage {
    open spec fn obeys_eq_spec() -> bool {
        true
    }

    open spec fn eq_spec(&self, other: &Self) -> bool {
        self@.payload == other@.payload
    }
}

impl From<KeyPackage> for LeafNode {
    fn from(key_package: KeyPackage) -> (r: Self) {
        key_package.payload.leaf_node
    }
}

impl vstd::std_specs::convert::FromSpecImpl<KeyPackage> for LeafNode {
    open spec fn obeys_from_spec() -> bool {
        true
    }

    closed spec fn from_spec(key_package: KeyPackage) -> Self {
        key_package.payload.leaf_node
    }
}

/// The reference of a key package.
#[derive(Debug, PartialEq, Eq)]
pub struct KeyPackageRef {
    pub value: Vec<u8>,
}

impl View for KeyPackageRef {
    type V = Seq<u8>;

    open spec fn view(&self) -> Seq<u8> {
        self.value@
    }
}

impl KeyPackageRef {
    /// The bytes of the reference.
    pub fn as_slice(&self) -> (b: &[u8])
        ensures
            b@ == self@,
    {
        self.value.as_slice()
    }
}

/// The reference of an encoded key package: the hash of the label of such
/// references and the encoding, each as a vector. Fails with
/// `MissingBoundsCheck` where the encoding is too long for a vector.
pub fn make_key_package_ref(value: &[u8], ciphersuite: Ciphersuite, backend: &OpenMlsRustCrypto) -> (r: Result<KeyPackageRef, LibraryError>)
    ensures
        r is Ok == (value@.len() <= MAX_VECTOR_LENGTH),
        r matches Ok(reference) ==> reference@ == hash_digest(
            ciphersuite.spec_hash_algorithm(),
            vector_encoding(key_package_ref_label()) + vector_encoding(value@),
        ) && reference@.len() == ciphersuite.spec_hash_length(),
        r matches Err(e) ==> e == LibraryError::MissingBoundsCheck,
{
    proof {
        lemma_reference_label_length();
    }
    let mut input: Vec<u8> = Vec::new();
    if append_vector(&mut input, "MLS 1.0 KeyPackage Reference".as_bytes()).is_err() {
        return Err(LibraryError::MissingBoundsCheck);
    }
    if append_vector(&mut input, value).is_err() {
        return Err(LibraryError::MissingBoundsCheck);
    }
    assert(input@ == vector_encoding(key_package_ref_label()) + vector_encoding(value@));
    match provider_hash(backend, ciphersuite.hash_algorithm(), input.as_slice()) {
        Some(digest) => Ok(KeyPackageRef { value: digest }),
        None => Err(LibraryError::MissingBoundsCheck),
    }
}

/// The label of the references of key packages has 28 bytes.
pub proof fn lemma_reference_label_length()
    ensures
        key_package_ref_label().len() == 28,
{
    reveal_strlit("MLS 1.0 KeyPackage Reference");
    vstd::string::is_ascii_spec_bytes("MLS 1.0 KeyPackage Reference");
}

impl KeyPackageIn {
    /// The key package with the content and the signature that came from
    /// the wire.
    pub fn new(
        protocol_version: ProtocolVersion,
        ciphersuite: Ciphersuite,
        init_key: HpkePublicKey,
        leaf_node: LeafNodeIn,
        extensions: Extensions,
        signature: Signature,
    ) -> (r: Self)
        ensures
            r@ == (KeyPackageView {
                payload: KeyPackageTbsView { protocol_version, ciphersuite, init_key: init_key@, leaf_node: leaf_node@, extensions: extensions@ },
                signature: signature@,
            }),
    {
        KeyPackageIn { payload: KeyPackageTbs { protocol_version, ciphersuite, init_key, leaf_node: leaf_node.into_leaf_node(), extensions }, signature }
    }

    /// The key package as it goes to the wire.
    pub fn from_key_package(key_package: KeyPackage) -> (r: Self)
        ensures
            r@ == key_package@,
    {
        KeyPackageIn { payload: key_package.payload, signature: key_package.signature }
    }

    /// The key package taken as it is, without verifying it.
    pub fn into_key_package(self) -> (r: KeyPackage)
        ensures
            r@ == self@,
    {
        KeyPackage { payload: self.payload, signature: self.signature }
    }

    /// Checks a key package that came from the wire, at the time `now` in
    /// seconds since the start of the Unix epoch, and gives the key package
    /// where it is valid.
    pub fn validate_at(self, backend: &OpenMlsRustCrypto, protocol_version: ProtocolVersion, now: u64) -> (r: Result<KeyPackage, KeyPackageVerifyError>)
        ensures
            r is Ok == spec_validate_key_package(self@, protocol_version, now) is Ok,
            r matches Ok(key_package) ==> key_package@ == self@,
            r matches Err(e) ==> spec_validate_key_package(self@, protocol_version, now) == Err::<(), KeyPackageVerifyError>(e),
    {
        let key = OpenMlsSignaturePublicKey::from_signature_key(self.payload.leaf_node.signature_key().as_slice(), self.payload.ciphersuite.signature_algorithm());
        // the leaf node first
        let verifiable = LeafNodeIn::from_leaf_node(self.payload.leaf_node.duplicate()).into_verifiable_leaf_node();
        match verifiable {
            VerifiableLeafNode::KeyPackage(_) => {
                if verifiable.verify(backend, &key).is_err() {
                    return Err(KeyPackageVerifyError::InvalidLeafNodeSignature);
                }
            },
            _ => {
                return Err(KeyPackageVerifyError::InvalidLeafNodeSourceType);
            },
        }
        if !(self.payload.protocol_version == protocol_version) {
            return Err(KeyPackageVerifyError::InvalidProtocolVersion);
        }
        if bytes_equal(self.payload.leaf_node.encryption_key().as_slice(), self.payload.init_key.as_slice()) {
            return Err(KeyPackageVerifyError::InitKeyEqualsEncryptionKey);
        }
        let accepted = match self.payload.unsigned_payload() {
            Ok(payload) => key.verify_with_label(backend, "KeyPackageTBS", payload.as_slice(), &self.signature).is_ok(),
            Err(_) => false,
        };
        if !accepted {
            return Err(KeyPackageVerifyError::InvalidSignature);
        }
        match self.payload.leaf_node.validate_in_key_package_at(now) {
            Err(e) => {
                return Err(KeyPackageVerifyError::InvalidLeafNode(e));
            },
            Ok(_) => {},
        }
        Ok(KeyPackage { payload: self.payload, signature: self.signature })
    }

    /// Checks a key package that came from the wire, at the time of the
    /// clock, and gives the key package where it is valid. A clock before
    /// the start of the Unix epoch is taken to be at it.
    pub fn validate(self, backend: &OpenMlsRustCrypto, protocol_version: ProtocolVersion) -> (r: Result<KeyPackage, KeyPackageVerifyError>)
        ensures
            r matches Ok(key_package) ==> key_package@ == self@,
            exists|now: u64| #[trigger] spec_validate_key_package(self@, protocol_version, now) == verification_outcome(r),
    {
        let now: u64 = match Lifetime::now() {
            Some(seconds) => seconds,
            None => 0,
        };
        let r = self.validate_at(backend, protocol_version, now);
        assert(spec_validate_key_package(self@, protocol_version, now) == verification_outcome(r));
        r
    }
}

/// Whether a check found a key package valid, or the error.
pub open spec fn verification_outcome(r: Result<KeyPackage, KeyPackageVerifyError>) -> Result<(), KeyPackageVerifyError> {
    match r {
        Ok(_) => Ok(()),
        Err(e) => Err(e),
    }
}

/// Why a key package is not valid.
#[derive(Clone, Copy, Debug, PartialEq, Eq, Structural)]
pub enum KeyPackageVerifyError {
    /// The leaf node signature is not valid.
    InvalidLeafNodeSignature,
    /// Invalid LeafNode source type
    InvalidLeafNodeSourceType,
    /// The protocol version is not the one asked for.
    InvalidProtocolVersion,
    /// The init key and the encryption key are equal.
    InitKeyEqualsEncryptionKey,
    /// The key package signature is not valid.
    InvalidSignature,
    /// The leaf node is not valid.
    InvalidLeafNode(LeafNodeValidationError),
}

/// What the checks of a key package that came from the wire give at the
/// time `now`; the first check that fails decides. The leaf node has to come
/// from a key package and its signature has to be accepted under its
/// signature key; the protocol version has to be the one asked for; the init
/// key has to differ from the encryption key of the leaf node; the
/// signature of the key package has to be accepted under the signature key
/// of the leaf node; and the lifetime of the leaf node has to be of an
/// accepted length and current.
pub open spec fn spec_validate_key_package(key_package: KeyPackageView, protocol_version: ProtocolVersion, now: u64) -> Result<(), KeyPackageVerifyError> {
    let leaf_node = key_package.payload.leaf_node;
    if !(leaf_node.payload.leaf_node_source is KeyPackage) {
        Err(KeyPackageVerifyError::InvalidLeafNodeSourceType)
    } else if !spec_verify_leaf_node(leaf_key(key_package), leaf_node.payload, TreeInfoTbsView::KeyPackage, leaf_node.signature) {
        Err(KeyPackageVerifyError::InvalidLeafNodeSignature)
    } else if key_package.payload.protocol_version != protocol_version {
        Err(KeyPackageVerifyError::InvalidProtocolVersion)
    } else if leaf_node.payload.encryption_key == key_package.payload.init_key {
        Err(KeyPackageVerifyError::InitKeyEqualsEncryptionKey)
    } else if !spec_verify_key_package(leaf_key(key_package), key_package) {
        Err(KeyPackageVerifyError::InvalidSignature)
    } else {
        match spec_validate_in_key_package(leaf_node, now) {
            Err(e) => Err(KeyPackageVerifyError::InvalidLeafNode(e)),
            Ok(()) => Ok(()),
        }
    }
}

/// The key that signs for a key package: the signature key of its leaf
/// node, of the scheme of its ciphersuite.
pub open spec fn leaf_key(key_package: KeyPackageView) -> VerificationKeyView {
    VerificationKeyView { signature_scheme: key_package.payload.ciphersuite.spec_signature_algorithm(), value: key_package.payload.leaf_node.payload.signature_key }
}

/// Puts a key package together step by step.
#[derive(Debug)]
pub struct KeyPackageBuilder {
    pub key_package_extensions: Option<Extensions>,
    pub leaf_node_capabilities: Option<Capabilities>,
    pub leaf_node_extensions: Option<Extensions>,
}

/// The capabilities given, or the default ones.
pub open spec fn capabilities_or_default(capabilities: Option<Capabilities>) -> CapabilitiesView {
    match capabilities {
        Some(c) => c@,
        None => CapabilitiesView {
            versions: crate::capabilities::spec_default_versions(),
            ciphersuites: crate::capabilities::spec_default_ciphersuites(),
            extensions: Seq::empty(),
            proposals: Seq::empty(),
            credentials: crate::capabilities::spec_default_credentials(),
        },
    }
}

/// The extensions given, or none.
pub open spec fn extensions_or_default(extensions: Option<Extensions>) -> Seq<ExtensionView> {
    match extensions {
        Some(e) => e@,
        None => Seq::empty(),
    }
}

impl KeyPackageBuilder {
    /// A builder with nothing set.
    pub fn new() -> (b: Self)
        ensures
            b.key_package_extensions is None,
            b.leaf_node_capabilities is None,
            b.leaf_node_extensions is None,
    {
        KeyPackageBuilder { key_package_extensions: None, leaf_node_capabilities: None, leaf_node_extensions: None }
    }

    /// Sets the extensions of the key package.
    pub fn key_package_extensions(self, extensions: Extensions) -> (b: Self)
        ensures
            b.key_package_extensions == Some(extensions),
            b.leaf_node_capabilities == self.leaf_node_capabilities,
            b.leaf_node_extensions == self.leaf_node_extensions,
    {
        let mut builder = self;
        builder.key_package_extensions = Some(extensions);
        builder
    }

    /// Sets the capabilities of the leaf node.
    pub fn leaf_node_capabilities(self, capabilities: Capabilities) -> (b: Self)
        ensures
            b.key_package_extensions == self.key_package_extensions,
            b.leaf_node_capabilities == Some(capabilities),
            b.leaf_node_extensions == self.leaf_node_extensions,
    {
        let mut builder = self;
        builder.leaf_node_capabilities = Some(capabilities);
        builder
    }

    /// Sets the extensions of the leaf node.
    pub fn leaf_node_extensions(self, extensions: Extensions) -> (b: Self)
        ensures
            b.key_package_extensions == self.key_package_extensions,
            b.leaf_node_capabilities == self.leaf_node_capabilities,
            b.leaf_node_extensions == Some(extensions),
    {
        let mut builder = self;
        builder.leaf_node_extensions = Some(extensions);
        builder
    }

    /// Makes the key package, with fresh key pairs whose private keys come
    /// with it and are to be stored by the caller. What was not set is as by
    /// default: no extensions, the default capabilities.
    pub fn build_without_key_storage<KeyStoreError>(
        self,
        config: CryptoConfig,
        backend: &OpenMlsRustCrypto,
        signer: &SignatureKeyPair,
        credential_with_key: CredentialWithKey,
    ) -> (r: Result<KeyPackageCreationResult, KeyPackageNewError<KeyStoreError>>)
        ensures
            config.ciphersuite.spec_signature_algorithm() != signer@.signature_scheme ==> r == Err::<KeyPackageCreationResult, KeyPackageNewError<KeyStoreError>>(
                KeyPackageNewError::CiphersuiteSignatureSchemeMismatch,
            ),
            !derives_hpke_key_pairs(config) ==> r is Err,
            r matches Ok(out) ==> out.key_package@.payload.extensions == extensions_or_default(self.key_package_extensions) && out.key_package@.payload.leaf_node.payload.extensions
                == extensions_or_default(self.leaf_node_extensions) && out.key_package@.payload.protocol_version == config.version && out.key_package@.payload.ciphersuite
                == config.ciphersuite && out.key_package@.payload.leaf_node.payload.encryption_key == out.encryption_keypair.public_key@,
            r matches Ok(out) ==> out.key_package@.payload.leaf_node.payload.capabilities == capabilities_or_default(self.leaf_node_capabilities),
            r matches Ok(out) ==> Some(out.key_package@) == spec_key_package(config, signer@, credential_with_key, extensions_or_default(self.key_package_extensions), capabilities_or_default(self.leaf_node_capabilities), extensions_or_default(self.leaf_node_extensions), out.key_package@.payload.init_key, out.encryption_keypair.public_key@, leaf_lifetime(out.key_package@)),
            r matches Ok(out) ==> out.key_package@.payload.init_key != out.key_package@.payload.leaf_node.payload.encryption_key,
            exists|init_randomness: Option<Seq<u8>>, randomness: Option<Seq<u8>>, now: u64|
                is_randomness_for(config, init_randomness) && is_randomness_for(config, randomness) && creation_view(r) == #[trigger] spec_create::<KeyStoreError>(
                    config,
                    signer@,
                    credential_with_key,
                    extensions_or_default(self.key_package_extensions),
                    capabilities_or_default(self.leaf_node_capabilities),
                    extensions_or_default(self.leaf_node_extensions),
                    init_randomness,
                    randomness,
                    now,
                ),
    {
        let extensions = match self.key_package_extensions {
            Some(e) => e,
            None => Extensions::empty(),
        };
        let capabilities = match self.leaf_node_capabilities {
            Some(c) => c,
            None => Capabilities::default(),
        };
        let leaf_node_extensions = match self.leaf_node_extensions {
            Some(e) => e,
            None => Extensions::empty(),
        };
        KeyPackage::create(config, backend, signer, credential_with_key, extensions, capabilities, leaf_node_extensions)
    }
}

/// What is to be stored of a new key package, and under which keys: the key
/// package under its reference, the encryption key pair of its leaf node
/// under the public key of the pair, and the private key of its init key
/// under the init key.
#[derive(Debug)]
pub struct KeyPackageStorage {
    pub key_package: KeyPackage,
    pub key_package_id: KeyPackageRef,
    pub encryption_keypair: EncryptionKeyPair,
    pub init_private_key: HpkePrivateKey,
}

impl KeyPackageBuilder {
    /// Makes the key package, with fresh key pairs, and says what is to be
    /// stored of it and under which keys. What was not set is as by default:
    /// no extensions, the default capabilities.
    pub fn build<KeyStoreError>(self, config: CryptoConfig, backend: &OpenMlsRustCrypto, signer: &SignatureKeyPair, credential_with_key: CredentialWithKey) -> (r: Result<
        KeyPackageStorage,
        KeyPackageNewError<KeyStoreError>,
    >)
        ensures
            config.ciphersuite.spec_signature_algorithm() != signer@.signature_scheme ==> r == Err::<KeyPackageStorage, KeyPackageNewError<KeyStoreError>>(
                KeyPackageNewError::CiphersuiteSignatureSchemeMismatch,
            ),
            !derives_hpke_key_pairs(config) ==> r is Err,
            r matches Ok(out) ==> out.key_package_id@ == spec_hash_ref(out.key_package@),
            r matches Ok(out) ==> out.key_package@.payload.leaf_node.payload.encryption_key == out.encryption_keypair.public_key@,
            r matches Ok(out) ==> Some(out.key_package@) == spec_key_package(config, signer@, credential_with_key, extensions_or_default(self.key_package_extensions), capabilities_or_default(self.leaf_node_capabilities), extensions_or_default(self.leaf_node_extensions), out.key_package@.payload.init_key, out.encryption_keypair.public_key@, leaf_lifetime(out.key_package@)),
            (r matches Err(KeyPackageNewError::CiphersuiteSignatureSchemeMismatch)) == (config.ciphersuite.spec_signature_algorithm() != signer@.signature_scheme),
            r matches Ok(out) ==> out.key_package@.payload.init_key != out.key_package@.payload.leaf_node.payload.encryption_key,
            exists|init_randomness: Option<Seq<u8>>, randomness: Option<Seq<u8>>, now: u64|
                is_randomness_for(config, init_randomness) && is_randomness_for(config, randomness) && storage_view(r) == #[trigger] spec_build::<KeyStoreError>(
                    config,
                    signer@,
                    credential_with_key,
                    extensions_or_default(self.key_package_extensions),
                    capabilities_or_default(self.leaf_node_capabilities),
                    extensions_or_default(self.leaf_node_extensions),
                    init_randomness,
                    randomness,
                    now,
                ),
    {
        let ghost extensions = extensions_or_default(self.key_package_extensions);
        let ghost capabilities = capabilities_or_default(self.leaf_node_capabilities);
        let ghost leaf_node_extensions = extensions_or_default(self.leaf_node_extensions);
        let made = self.build_without_key_storage(config, backend, signer, credential_with_key);
        let ghost (init_randomness, randomness, now) = choose|init_randomness: Option<Seq<u8>>, randomness: Option<Seq<u8>>, now: u64|
            is_randomness_for(config, init_randomness) && is_randomness_for(config, randomness) && creation_view(made) == #[trigger] spec_create::<KeyStoreError>(
                config,
                signer@,
                credential_with_key,
                extensions,
                capabilities,
                leaf_node_extensions,
                init_randomness,
                randomness,
                now,
            );
        let ghost outcome = spec_build::<KeyStoreError>(
            config,
            signer@,
            credential_with_key,
            extensions,
            capabilities,
            leaf_node_extensions,
            init_randomness,
            randomness,
            now,
        );
        let KeyPackageCreationResult { key_package, encryption_keypair, init_private_key } = match made {
            Ok(result) => result,
            Err(e) => {
                let r = Err(e);
                assert(storage_view(r) == outcome);
                return r;
            },
        };
        let key_package_id = match key_package.hash_ref(backend) {
            Ok(id) => id,
            Err(e) => {
                let r = Err(KeyPackageNewError::LibraryError(e));
                assert(storage_view(r) == outcome);
                return r;
            },
        };
        let r = Ok(KeyPackageStorage { key_package, key_package_id, encryption_keypair, init_private_key: HpkePrivateKey::new(init_private_key) });
        assert(storage_view(r) == outcome);
        r
    }
}

impl KeyPackage {
    /// The outcome of making a key package of which something was then
    /// handed to a key store: the key package where the store took it, else
    /// the error of the store.
    pub fn after_storing<KeyStoreError>(key_package: KeyPackage, stored: Result<(), KeyStoreError>) -> (r: Result<KeyPackage, KeyPackageNewError<KeyStoreError>>)
        ensures
            stored is Ok ==> r == Ok::<KeyPackage, KeyPackageNewError<KeyStoreError>>(key_package),
            stored matches Err(e) ==> r == Err::<KeyPackage, KeyPackageNewError<KeyStoreError>>(KeyPackageNewError::KeyStoreError(e)),
    {
        match stored {
            Ok(()) => Ok(key_package),
            Err(e) => Err(KeyPackageNewError::KeyStoreError(e)),
        }
    }
}

impl Default for KeyPackageBuilder {
    fn default() -> (b: Self)
        ensures
            b.key_package_extensions is None,
            b.leaf_node_capabilities is None,
            b.leaf_node_extensions is None,
    {
        KeyPackageBuilder::new()
    }
}

/// A key package with the private key of its init key.
#[derive(Debug)]
pub struct KeyPackageBundle {
    pub key_package: KeyPackage,
    pub private_key: HpkePrivateKey,
}

impl KeyPackageBundle {
    /// The bundle of a key package and the private key of its init key.
    pub fn from_parts(key_package: KeyPackage, private_key: HpkePrivateKey) -> (b: Self)
        ensures
            b.key_package == key_package,
            b.private_key == private_key,
    {
        KeyPackageBundle { key_package, private_key }
    }

    /// The key package.
    pub fn key_package(&self) -> (k: &KeyPackage)
        ensures
            *k == self.key_package,
    {
        &self.key_package
    }

    /// The private key.
    pub fn private_key(&self) -> (k: &HpkePrivateKey)
        ensures
            *k == self.private_key,
    {
        &self.private_key
    }
}

} // verus!
