//! Leaf nodes: what a member publishes of itself in the ratchet tree.
//!
//! A leaf node is signed by its member. What is signed is the content of the
//! node and, for a node that stands in a tree, the group and the leaf it
//! stands at. A node that comes from the wire is verified before it is used.

use vstd::prelude::*;
use vstd::string::StringSliceAdditionalSpecFns;
use openmls_rust_crypto::OpenMlsRustCrypto;
use crate::bytes::bytes_equal;
use crate::bytes::copy_bytes;
use crate::capabilities::capabilities_encodable;
use crate::capabilities::capabilities_encoding;
use crate::capabilities::contains_ciphersuite;
use crate::capabilities::contains_version;
use crate::capabilities::default_extensions;
use crate::capabilities::default_proposals;
use crate::capabilities::spec_default_extensions;
use crate::capabilities::spec_default_proposals;
use crate::capabilities::Capabilities;
use crate::capabilities::CapabilitiesView;
use crate::codec::append_u32;
use crate::codec::append_u8;
use crate::codec::append_vector;
use crate::codec::u32_encoding;
use crate::codec::u8_encoding;
use crate::codec::vector_encoding;
use crate::codec::CodecError;
use crate::codec::MAX_VECTOR_LENGTH;
use crate::credentials::credential_encodable;
use crate::credentials::credential_encoding;
use crate::credentials::Credential;
use crate::credentials::CredentialType;
use crate::credentials::CredentialView;
use crate::credentials::CredentialWithKey;
use crate::extensions::contains_credential_type;
use crate::extensions::contains_extension_type;
use crate::extensions::contains_proposal_type;
use crate::extensions::extensions_encodable;
use crate::extensions::extensions_encoding;
use crate::extensions::ExtensionType;
use crate::extensions::ExtensionView;
use crate::extensions::Extensions;
use crate::extensions::ProposalType;
use crate::extensions::RequiredCapabilitiesExtension;
use crate::group::GroupId;
use crate::keys::derives_hpke_key_pairs;
use crate::keys::is_key_pair_of;
use crate::keys::is_randomness_for;
use crate::keys::key_pair_view;
use crate::keys::spec_fresh_key_pair;
use crate::keys::EncryptionKey;
use crate::keys::EncryptionKeyPair;
use crate::keys::Signature;
use crate::keys::SignatureKeyPair;
use crate::keys::SignatureKeyPairView;
use crate::keys::SignaturePublicKey;
use crate::lifetime::lifetime_encoding;
use crate::lifetime::Lifetime;
use crate::provider::signature_accepted;
use crate::signable::is_verifiable_signature;
use crate::signable::sign_content_encoding;
use crate::signable::sign_with_label;
use crate::signable::spec_sign_with_label;
use crate::signable::spec_verify_with_label;
use crate::signable::OpenMlsSignaturePublicKey;
use crate::signable::SignatureError;
use crate::signable::VerificationKeyView;
use crate::tree_math::LeafNodeIndex;
use crate::types::Ciphersuite;
use crate::types::CryptoConfig;
use crate::types::CryptoError;
use crate::types::LibraryError;
use crate::types::ProtocolVersion;
use crate::types::VerifiableCiphersuite;

verus! {

/// Why a lifetime is not accepted.
#[derive(Clone, Copy, Debug, PartialEq, Eq, Structural)]
pub enum LifetimeError {
    /// The lifetime is longer than the greatest length accepted.
    RangeTooBig,
    /// The current time is not within the lifetime.
    NotCurrent,
}

/// Why a leaf node is not valid.
#[derive(Clone, Copy, Debug, PartialEq, Eq, Structural)]
pub enum LeafNodeValidationError {
    /// The lifetime is not accepted.
    Lifetime(LifetimeError),
    /// A required kind of extension is not supported.
    UnsupportedExtensions,
    /// A required kind of proposal is not supported.
    UnsupportedProposals,
    /// A required kind of credential is not supported.
    UnsupportedCredentials,
    /// The node has an extension of a kind that its capabilities do not list.
    ExtensionsNotInCapabilities,
    /// The kind of the node's credential is not in its capabilities.
    CredentialNotInCapabilities,
    /// The source of the node is not the one of its context.
    InvalidLeafNodeSource,
    /// The kind of the node's credential is not supported by some member.
    LeafNodeCredentialNotSupportedByMember,
    /// The node does not support a kind of credential that a member uses.
    MemberCredentialNotSupportedByLeafNode,
    /// Another member has the same signature key.
    SignatureKeyAlreadyInUse,
    /// Another member has the same encryption key.
    EncryptionKeyAlreadyInUse,
}

/// Failures of changes to the tree.
#[derive(Clone, Copy, Debug, PartialEq, Eq, Structural)]
pub enum PublicTreeError {
    /// A condition that the library relies on was broken.
    LibraryError(LibraryError),
    /// The tree is malformed.
    MalformedTree,
    /// A parent hash is not valid.
    InvalidParentHash,
    /// No signature was made.
    SignatureError(SignatureError),
}

/// Failures of making a leaf node.
#[derive(Debug, PartialEq, Eq)]
pub enum LeafNodeGenerationError<KeyStoreError> {
    /// A condition that the library relies on was broken.
    LibraryError(LibraryError),
    /// Error storing leaf private key in key store.
    KeyStoreError(KeyStoreError),
}

/// Where a leaf node comes from.
#[derive(Debug, PartialEq, Eq)]
pub enum LeafNodeSource {
    /// From a key package, with the lifetime of the node.
    KeyPackage(Lifetime),
    /// From an update proposal.
    Update,
    /// From a commit, with the hash of the parent of the node.
    Commit(Vec<u8>),
}

/// What the source of a leaf node is.
pub enum LeafNodeSourceView {
    KeyPackage(Lifetime),
    Update,
    Commit(Seq<u8>),
}

impl View for LeafNodeSource {
    type V = LeafNodeSourceView;

    open spec fn view(&self) -> LeafNodeSourceView {
        match self {
            LeafNodeSource::KeyPackage(lifetime) => LeafNodeSourceView::KeyPackage(*lifetime),
            LeafNodeSource::Update => LeafNodeSourceView::Update,
            LeafNodeSource::Commit(parent_hash) => LeafNodeSourceView::Commit(parent_hash@),
        }
    }
}

impl LeafNodeSource {
    /// Whether two sources are the same.
    pub fn equals(&self, other: &Self) -> (b: bool)
        ensures
            b == (self@ == other@),
    {
        match (self, other) {
            (LeafNodeSource::KeyPackage(a), LeafNodeSource::KeyPackage(b)) => a.not_before == b.not_before && a.not_after == b.not_after,
            (LeafNodeSource::Update, LeafNodeSource::Update) => true,
            (LeafNodeSource::Commit(a), LeafNodeSource::Commit(b)) => bytes_equal(a.as_slice(), b.as_slice()),
            _ => false,
        }
    }

    /// A copy of the source.
    pub fn duplicate(&self) -> (s: Self)
        ensures
            s@ == self@,
    {
        match self {
            LeafNodeSource::KeyPackage(lifetime) => LeafNodeSource::KeyPackage(*lifetime),
            LeafNodeSource::Update => LeafNodeSource::Update,
            LeafNodeSource::Commit(parent_hash) => LeafNodeSource::Commit(copy_bytes(parent_hash.as_slice())),
        }
    }
}

/// The content of a leaf node.
#[derive(Debug, PartialEq, Eq)]
pub struct LeafNodePayload {
    pub encryption_key: EncryptionKey,
    pub signature_key: SignaturePublicKey,
    pub credential: Credential,
    pub capabilities: Capabilities,
    pub leaf_node_source: LeafNodeSource,
    pub extensions: Extensions,
}

/// What the content of a leaf node is.
pub struct LeafNodePayloadView {
    pub encryption_key: Seq<u8>,
    pub signature_key: Seq<u8>,
    pub credential: CredentialView,
    pub capabilities: CapabilitiesView,
    pub leaf_node_source: LeafNodeSourceView,
    pub extensions: Seq<ExtensionView>,
}

impl View for LeafNodePayload {
    type V = LeafNodePayloadView;

    open spec fn view(&self) -> LeafNodePayloadView {
        LeafNodePayloadView {
            encryption_key: self.encryption_key@,
            signature_key: self.signature_key@,
            credential: self.credential@,
            capabilities: self.capabilities@,
            leaf_node_source: self.leaf_node_source@,
            extensions: self.extensions@,
        }
    }
}

/// The encoding of the source of a leaf node: its kind, and what comes with
/// the kind.
pub open spec fn source_encoding(source: LeafNodeSourceView) -> Seq<u8> {
    match source {
        LeafNodeSourceView::KeyPackage(lifetime) => u8_encoding(1) + lifetime_encoding(lifetime),
        LeafNodeSourceView::Update => u8_encoding(2),
        LeafNodeSourceView::Commit(parent_hash) => u8_encoding(3) + vector_encoding(parent_hash),
    }
}

/// Whether the source of a leaf node can be encoded.
pub open spec fn source_encodable(source: LeafNodeSourceView) -> bool {
    source matches LeafNodeSourceView::Commit(parent_hash) ==> parent_hash.len() <= MAX_VECTOR_LENGTH
}

/// The encoding of the content of a leaf node.
pub open spec fn payload_encoding(payload: LeafNodePayloadView) -> Seq<u8> {
    vector_encoding(payload.encryption_key) + vector_encoding(payload.signature_key) + credential_encoding(payload.credential) + capabilities_encoding(
        payload.capabilities,
    ) + source_encoding(payload.leaf_node_source) + extensions_encoding(payload.extensions)
}

/// Whether the content of a leaf node can be encoded.
pub open spec fn payload_encodable(payload: LeafNodePayloadView) -> bool {
    &&& payload.encryption_key.len() <= MAX_VECTOR_LENGTH
    &&& payload.signature_key.len() <= MAX_VECTOR_LENGTH
    &&& credential_encodable(payload.credential)
    &&& capabilities_encodable(payload.capabilities)
    &&& source_encodable(payload.leaf_node_source)
    &&& extensions_encodable(payload.extensions)
}

impl LeafNodePayload {
    /// Whether two contents are the same.
    pub fn equals(&self, other: &Self) -> (b: bool)
        ensures
            b == (self@ == other@),
    {
        self.encryption_key.equals(&other.encryption_key) && self.signature_key.equals(&other.signature_key) && self.credential.equals(&other.credential)
            && self.capabilities.equals(&other.capabilities) && self.leaf_node_source.equals(&other.leaf_node_source) && self.extensions.equals(
            &other.extensions,
        )
    }

    /// A copy of the content.
    pub fn duplicate(&self) -> (p: Self)
        ensures
            p@ == self@,
    {
        LeafNodePayload {
            encryption_key: self.encryption_key.duplicate(),
            signature_key: self.signature_key.duplicate(),
            credential: self.credential.duplicate(),
            capabilities: self.capabilities.duplicate(),
            leaf_node_source: self.leaf_node_source.duplicate(),
            extensions: self.extensions.duplicate(),
        }
    }

    /// Appends the encoding of the content. Fails where the content cannot
    /// be encoded; what `out` holds then is not told.
    pub fn append_encoding(&self, out: &mut Vec<u8>) -> (r: Result<(), CodecError>)
        ensures
            payload_encodable(self@) ==> r is Ok && final(out)@ == old(out)@ + payload_encoding(self@),
            !payload_encodable(self@) ==> r == Err::<(), CodecError>(CodecError::InvalidVectorLength),
    {
        match append_vector(out, self.encryption_key.as_slice()) {
            Err(e) => {
                return Err(e);
            },
            Ok(()) => {},
        }
        match append_vector(out, self.signature_key.as_slice()) {
            Err(e) => {
                return Err(e);
            },
            Ok(()) => {},
        }
        match self.credential.append_encoding(out) {
            Err(e) => {
                return Err(e);
            },
            Ok(()) => {},
        }
        match self.capabilities.append_encoding(out) {
            Err(e) => {
                return Err(e);
            },
            Ok(()) => {},
        }
        match &self.leaf_node_source {
            LeafNodeSource::KeyPackage(lifetime) => {
                append_u8(out, 1);
                lifetime.append_encoding(out);
            },
            LeafNodeSource::Update => {
                append_u8(out, 2);
            },
            LeafNodeSource::Commit(parent_hash) => {
                if parent_hash.len() > MAX_VECTOR_LENGTH {
                    return Err(CodecError::InvalidVectorLength);
                }
                append_u8(out, 3);
                let r = append_vector(out, parent_hash.as_slice());
                assert(r is Ok);
            },
        }
        assert(out@ == old(out)@ + vector_encoding(self@.encryption_key) + vector_encoding(self@.signature_key) + credential_encoding(self@.credential)
            + capabilities_encoding(self@.capabilities) + source_encoding(self@.leaf_node_source));
        match self.extensions.append_encoding(out) {
            Err(e) => {
                return Err(e);
            },
            Ok(()) => {},
        }
        assert(out@ == old(out)@ + payload_encoding(self@));
        Ok(())
    }
}

/// What a place in a tree is: the group and the leaf.
pub struct TreePositionView {
    pub group_id: Seq<u8>,
    pub leaf_index: u32,
}

/// A place in the tree of a group.
#[derive(Debug, PartialEq, Eq)]
pub struct TreePosition {
    group_id: GroupId,
    leaf_index: LeafNodeIndex,
}

impl View for TreePosition {
    type V = TreePositionView;

    closed spec fn view(&self) -> TreePositionView {
        TreePositionView { group_id: self.group_id@, leaf_index: self.leaf_index.0 }
    }
}

impl TreePosition {
    /// The place of a leaf in the tree of a group.
    pub fn new(group_id: GroupId, leaf_index: LeafNodeIndex) -> (p: Self)
        ensures
            p@ == (TreePositionView { group_id: group_id@, leaf_index: leaf_index.0 }),
    {
        TreePosition { group_id, leaf_index }
    }

    /// A copy of the place.
    pub fn duplicate(&self) -> (p: Self)
        ensures
            p@ == self@,
    {
        TreePosition { group_id: self.group_id.duplicate(), leaf_index: self.leaf_index }
    }
}

/// What is signed with a leaf node besides its content: nothing for a node
/// in a key package, the place of the node for a node in a tree.
#[derive(Debug, PartialEq, Eq)]
pub enum TreeInfoTbs {
    KeyPackage,
    Update(TreePosition),
    Commit(TreePosition),
}

/// What is signed with a leaf node besides its content.
pub enum TreeInfoTbsView {
    KeyPackage,
    Update(TreePositionView),
    Commit(TreePositionView),
}

impl View for TreeInfoTbs {
    type V = TreeInfoTbsView;

    open spec fn view(&self) -> TreeInfoTbsView {
        match self {
            TreeInfoTbs::KeyPackage => TreeInfoTbsView::KeyPackage,
            TreeInfoTbs::Update(position) => TreeInfoTbsView::Update(position@),
            TreeInfoTbs::Commit(position) => TreeInfoTbsView::Commit(position@),
        }
    }
}

impl TreeInfoTbs {
    /// What is signed with a leaf node of a commit at the place given.
    pub fn commit(group_id: GroupId, leaf_index: LeafNodeIndex) -> (t: Self)
        ensures
            t@ == TreeInfoTbsView::Commit(TreePositionView { group_id: group_id@, leaf_index: leaf_index.0 }),
    {
        TreeInfoTbs::Commit(TreePosition { group_id, leaf_index })
    }
}

/// The encoding of a place in a tree.
pub open spec fn position_encoding(position: TreePositionView) -> Seq<u8> {
    vector_encoding(position.group_id) + u32_encoding(position.leaf_index)
}

/// The encoding of what is signed with a leaf node besides its content.
pub open spec fn tree_info_encoding(tree_info: TreeInfoTbsView) -> Seq<u8> {
    match tree_info {
        TreeInfoTbsView::KeyPackage => Seq::empty(),
        TreeInfoTbsView::Update(position) => position_encoding(position),
        TreeInfoTbsView::Commit(position) => position_encoding(position),
    }
}

/// Whether what is signed with a leaf node besides its content can be
/// encoded.
pub open spec fn tree_info_encodable(tree_info: TreeInfoTbsView) -> bool {
    match tree_info {
        TreeInfoTbsView::KeyPackage => true,
        TreeInfoTbsView::Update(position) => position.group_id.len() <= MAX_VECTOR_LENGTH,
        TreeInfoTbsView::Commit(position) => position.group_id.len() <= MAX_VECTOR_LENGTH,
    }
}

/// The bytes that are signed for a leaf node.
pub open spec fn tbs_encoding(payload: LeafNodePayloadView, tree_info: TreeInfoTbsView) -> Seq<u8> {
    payload_encoding(payload) + tree_info_encoding(tree_info)
}

/// Whether the bytes that are signed for a leaf node can be made.
pub open spec fn tbs_encodable(payload: LeafNodePayloadView, tree_info: TreeInfoTbsView) -> bool {
    payload_encodable(payload) && tree_info_encodable(tree_info)
}

/// The label under which leaf nodes are signed.
pub open spec fn leaf_node_label() -> Seq<u8> {
    "LeafNodeTBS".spec_bytes()
}

/// The signature that a key pair makes of a leaf node, if it makes one.
pub open spec fn spec_sign_leaf_node(signer: SignatureKeyPairView, payload: LeafNodePayloadView, tree_info: TreeInfoTbsView) -> Option<Seq<u8>> {
    if tbs_encodable(payload, tree_info) {
        spec_sign_with_label(signer, leaf_node_label(), tbs_encoding(payload, tree_info))
    } else {
        None
    }
}

/// Whether a signature of a leaf node is accepted under a key.
pub open spec fn spec_verify_leaf_node(key: VerificationKeyView, payload: LeafNodePayloadView, tree_info: TreeInfoTbsView, signature: Seq<u8>) -> bool {
    tbs_encodable(payload, tree_info) && spec_verify_with_label(key, leaf_node_label(), tbs_encoding(payload, tree_info), signature)
}

/// Appends the encoding of what is signed with a leaf node besides its
/// content.
fn append_tree_info(out: &mut Vec<u8>, tree_info: &TreeInfoTbs) -> (r: Result<(), CodecError>)
    ensures
        tree_info_encodable(tree_info@) ==> r is Ok && final(out)@ == old(out)@ + tree_info_encoding(tree_info@),
        !tree_info_encodable(tree_info@) ==> r == Err::<(), CodecError>(CodecError::InvalidVectorLength),
{
    match tree_info {
        TreeInfoTbs::KeyPackage => {
            assert(out@ =~= old(out)@ + tree_info_encoding(tree_info@));
            Ok(())
        },
        TreeInfoTbs::Update(position) | TreeInfoTbs::Commit(position) => {
            match append_vector(out, position.group_id.as_slice()) {
                Err(e) => {
                    return Err(e);
                },
                Ok(()) => {},
            }
            append_u32(out, position.leaf_index.u32());
            assert(out@ == old(out)@ + tree_info_encoding(tree_info@));
            Ok(())
        },
    }
}

/// The bytes that are signed for a leaf node.
pub fn encode_tbs(payload: &LeafNodePayload, tree_info: &TreeInfoTbs) -> (r: Result<Vec<u8>, CodecError>)
    ensures
        tbs_encodable(payload@, tree_info@) ==> r is Ok && r.unwrap()@ == tbs_encoding(payload@, tree_info@),
        !tbs_encodable(payload@, tree_info@) ==> r == Err::<Vec<u8>, CodecError>(CodecError::InvalidVectorLength),
{
    let mut out: Vec<u8> = Vec::new();
    match payload.append_encoding(&mut out) {
        Err(e) => {
            return Err(e);
        },
        Ok(()) => {},
    }
    match append_tree_info(&mut out, tree_info) {
        Err(e) => {
            return Err(e);
        },
        Ok(()) => {},
    }
    assert(out@ == tbs_encoding(payload@, tree_info@));
    Ok(out)
}

/// Signs a leaf node's content with what is signed besides it.
pub fn sign_leaf_node(signer: &SignatureKeyPair, payload: &LeafNodePayload, tree_info: &TreeInfoTbs) -> (r: Result<Signature, SignatureError>)
    ensures
        r is Ok == spec_sign_leaf_node(signer@, payload@, tree_info@) is Some,
        r matches Ok(signature) ==> signature@ == spec_sign_leaf_node(signer@, payload@, tree_info@).unwrap(),
        r matches Err(e) ==> e == SignatureError::SigningError,
{
    let tbs = match encode_tbs(payload, tree_info) {
        Ok(tbs) => tbs,
        Err(_) => {
            return Err(SignatureError::SigningError);
        },
    };
    sign_with_label(signer, "LeafNodeTBS", tbs.as_slice())
}

/// What a leaf node is: its content and its signature.
pub struct LeafNodeView {
    pub payload: LeafNodePayloadView,
    pub signature: Seq<u8>,
}

/// The encoding of a leaf node: its content, then its signature as a
/// vector.
pub open spec fn leaf_node_encoding(leaf_node: LeafNodeView) -> Seq<u8> {
    payload_encoding(leaf_node.payload) + vector_encoding(leaf_node.signature)
}

/// Whether a leaf node can be encoded.
pub open spec fn leaf_node_encodable(leaf_node: LeafNodeView) -> bool {
    payload_encodable(leaf_node.payload) && leaf_node.signature.len() <= MAX_VECTOR_LENGTH
}

/// A leaf node.
#[derive(Debug, PartialEq, Eq)]
pub struct LeafNode {
    payload: LeafNodePayload,
    signature: Signature,
}

impl View for LeafNode {
    type V = LeafNodeView;

    closed spec fn view(&self) -> LeafNodeView {
        LeafNodeView { payload: self.payload@, signature: self.signature@ }
    }
}

/// What goes into a new leaf node.
pub struct NewLeafNodeParams {
    pub config: CryptoConfig,
    pub credential_with_key: CredentialWithKey,
    pub leaf_node_source: LeafNodeSource,
    pub capabilities: Capabilities,
    pub extensions: Extensions,
    pub tree_info_tbs: TreeInfoTbs,
}

/// A leaf node that is yet to be signed: its content, and what is signed
/// besides it.
#[derive(Debug, PartialEq, Eq)]
pub struct LeafNodeTbs {
    payload: LeafNodePayload,
    tree_info_tbs: TreeInfoTbs,
}

/// What a leaf node that is yet to be signed is.
pub struct LeafNodeTbsView {
    pub payload: LeafNodePayloadView,
    pub tree_info_tbs: TreeInfoTbsView,
}

impl View for LeafNodeTbs {
    type V = LeafNodeTbsView;

    closed spec fn view(&self) -> LeafNodeTbsView {
        LeafNodeTbsView { payload: self.payload@, tree_info_tbs: self.tree_info_tbs@ }
    }
}

/// The content of a leaf node made of its parts.
pub open spec fn payload_of(
    encryption_key: Seq<u8>,
    credential_with_key: CredentialWithKey,
    capabilities: CapabilitiesView,
    leaf_node_source: LeafNodeSourceView,
    extensions: Seq<ExtensionView>,
) -> LeafNodePayloadView {
    LeafNodePayloadView {
        encryption_key,
        signature_key: credential_with_key.signature_key@,
        credential: credential_with_key.credential@,
        capabilities,
        leaf_node_source,
        extensions,
    }
}

impl LeafNodeTbs {
    /// The leaf node to be signed again, with what is signed besides it.
    pub fn from(leaf_node: LeafNode, tree_info_tbs: TreeInfoTbs) -> (tbs: Self)
        ensures
            tbs@ == (LeafNodeTbsView { payload: leaf_node@.payload, tree_info_tbs: tree_info_tbs@ }),
    {
        LeafNodeTbs { payload: leaf_node.payload, tree_info_tbs }
    }

    /// The leaf node to be signed that is made of the parts given.
    pub fn new(
        encryption_key: EncryptionKey,
        credential_with_key: CredentialWithKey,
        capabilities: Capabilities,
        leaf_node_source: LeafNodeSource,
        extensions: Extensions,
        tree_info_tbs: TreeInfoTbs,
    ) -> (r: Result<Self, LibraryError>)
        ensures
            r is Ok,
            r.unwrap()@ == (LeafNodeTbsView {
                payload: payload_of(encryption_key@, credential_with_key, capabilities@, leaf_node_source@, extensions@),
                tree_info_tbs: tree_info_tbs@,
            }),
    {
        let payload = LeafNodePayload {
            encryption_key,
            signature_key: credential_with_key.signature_key,
            credential: credential_with_key.credential,
            capabilities,
            leaf_node_source,
            extensions,
        };
        Ok(LeafNodeTbs { payload, tree_info_tbs })
    }

    /// The bytes that are signed.
    pub fn unsigned_payload(&self) -> (r: Result<Vec<u8>, CodecError>)
        ensures
            tbs_encodable(self@.payload, self@.tree_info_tbs) ==> r is Ok && r.unwrap()@ == tbs_encoding(self@.payload, self@.tree_info_tbs),
            !tbs_encodable(self@.payload, self@.tree_info_tbs) ==> r == Err::<Vec<u8>, CodecError>(CodecError::InvalidVectorLength),
    {
        encode_tbs(&self.payload, &self.tree_info_tbs)
    }

    /// The label under which the bytes are signed.
    pub fn label(&self) -> (l: &'static str)
        ensures
            l.spec_bytes() == leaf_node_label(),
    {
        "LeafNodeTBS"
    }

    /// Signs the leaf node. Fails with `SigningError` where the signer makes
    /// no signature.
    pub fn sign(self, signer: &SignatureKeyPair) -> (r: Result<LeafNode, SignatureError>)
        ensures
            r is Ok == spec_sign_leaf_node(signer@, self@.payload, self@.tree_info_tbs) is Some,
            r matches Ok(leaf_node) ==> leaf_node@ == (LeafNodeView {
                payload: self@.payload,
                signature: spec_sign_leaf_node(signer@, self@.payload, self@.tree_info_tbs).unwrap(),
            }),
            r matches Err(e) ==> e == SignatureError::SigningError,
    {
        match sign_leaf_node(signer, &self.payload, &self.tree_info_tbs) {
            Ok(signature) => Ok(LeafNode::from_payload(self, signature)),
            Err(e) => Err(e),
        }
    }
}

/// The content of a leaf node with another encryption key.
pub open spec fn with_encryption_key(payload: LeafNodePayloadView, encryption_key: Seq<u8>) -> LeafNodePayloadView {
    LeafNodePayloadView { encryption_key, ..payload }
}

/// The leaf node with a fresh encryption key pair that the randomness of
/// the provider gives, with the keys of the pair, private key first: the
/// content given with the public key of the pair as its encryption key,
/// signed. Fails as the making of the key pair fails, and with `Custom`
/// where the signer makes no signature.
pub open spec fn spec_fresh_leaf_node(
    config: CryptoConfig,
    signer: SignatureKeyPairView,
    payload: LeafNodePayloadView,
    tree_info: TreeInfoTbsView,
    randomness: Option<Seq<u8>>,
) -> Result<(LeafNodeView, (Seq<u8>, Seq<u8>)), LibraryError> {
    match spec_fresh_key_pair(config, randomness) {
        Err(e) => Err(e),
        Ok(pair) => match spec_signed_leaf_node(signer, with_encryption_key(payload, pair.1), tree_info) {
            None => Err(LibraryError::Custom),
            Some(leaf_node) => Ok((leaf_node, pair)),
        },
    }
}

/// The leaf node that was made and the keys of its key pair, private key
/// first, or the failure.
pub open spec fn fresh_leaf_view(r: Result<(LeafNode, EncryptionKeyPair), LibraryError>) -> Result<(LeafNodeView, (Seq<u8>, Seq<u8>)), LibraryError> {
    match r {
        Ok(out) => Ok((out.0@, (out.1.private_key@, out.1.public_key@))),
        Err(e) => Err(e),
    }
}

/// The leaf node that signing gives, if it gives one.
pub open spec fn spec_signed_leaf_node(signer: SignatureKeyPairView, payload: LeafNodePayloadView, tree_info: TreeInfoTbsView) -> Option<LeafNodeView> {
    match spec_sign_leaf_node(signer, payload, tree_info) {
        Some(signature) => Some(LeafNodeView { payload, signature }),
        None => None,
    }
}

/// The content with another source.
pub open spec fn with_source(payload: LeafNodePayloadView, source: LeafNodeSourceView) -> LeafNodePayloadView {
    LeafNodePayloadView { leaf_node_source: source, ..payload }
}

/// The content of a leaf node after an update: the credential and the
/// encryption key of the new leaf node where one is given, else the new
/// encryption key; the source is an update.
pub open spec fn updated_payload(payload: LeafNodePayloadView, new_encryption_key: Option<Seq<u8>>, leaf_node: Option<LeafNodeView>) -> Option<LeafNodePayloadView> {
    match leaf_node {
        Some(new_leaf) => Some(
            LeafNodePayloadView {
                credential: new_leaf.payload.credential,
                encryption_key: new_leaf.payload.encryption_key,
                leaf_node_source: LeafNodeSourceView::Update,
                ..payload
            },
        ),
        None => match new_encryption_key {
            Some(key) => Some(LeafNodePayloadView { encryption_key: key, leaf_node_source: LeafNodeSourceView::Update, ..payload }),
            None => None,
        },
    }
}

/// What an update of a leaf node at a place in a tree gives: the node after
/// it, or the error. The node stays as it was where the update fails.
pub open spec fn spec_update_and_re_sign(
    leaf_node: LeafNodeView,
    new_encryption_key: Option<Seq<u8>>,
    new_leaf_node: Option<LeafNodeView>,
    position: TreePositionView,
    signer: SignatureKeyPairView,
) -> Result<LeafNodeView, PublicTreeError> {
    match updated_payload(leaf_node.payload, new_encryption_key, new_leaf_node) {
        None => Err(PublicTreeError::LibraryError(LibraryError::Custom)),
        Some(payload) => match spec_sign_leaf_node(signer, payload, TreeInfoTbsView::Update(position)) {
            None => Err(PublicTreeError::SignatureError(SignatureError::SigningError)),
            Some(signature) => Ok(LeafNodeView { payload, signature }),
        },
    }
}

impl LeafNode {
    /// The leaf node of a signed content.
    pub fn from_payload(tbs: LeafNodeTbs, signature: Signature) -> (leaf_node: Self)
        ensures
            leaf_node@ == (LeafNodeView { payload: tbs@.payload, signature: signature@ }),
    {
        LeafNode { payload: tbs.payload, signature }
    }

    /// A new leaf node with a fresh encryption key pair, which comes with
    /// it. Fails where no key pair can be had or the signer makes no
    /// signature.
    pub fn new(backend: &OpenMlsRustCrypto, signer: &SignatureKeyPair, new_leaf_node_params: NewLeafNodeParams) -> (r: Result<(Self, EncryptionKeyPair), LibraryError>)
        ensures
            r matches Ok(out) ==> derives_hpke_key_pairs(new_leaf_node_params.config) && Some(out.0@) == spec_signed_leaf_node(
                signer@,
                payload_of(
                    out.1.public_key@,
                    new_leaf_node_params.credential_with_key,
                    new_leaf_node_params.capabilities@,
                    new_leaf_node_params.leaf_node_source@,
                    new_leaf_node_params.extensions@,
                ),
                new_leaf_node_params.tree_info_tbs@,
            ),
            r matches Ok(out) ==> exists|ikm: Seq<u8>| #[trigger] is_key_pair_of(out.1, new_leaf_node_params.config, ikm),
            !derives_hpke_key_pairs(new_leaf_node_params.config) ==> r is Err,
            r matches Err(e) ==> e == LibraryError::Custom || e == LibraryError::UnexpectedCryptoError(CryptoError::InsufficientRandomness) || e == LibraryError::UnexpectedCryptoError(
                CryptoError::UnsupportedCiphersuite,
            ),
            exists|randomness: Option<Seq<u8>>|
                is_randomness_for(new_leaf_node_params.config, randomness) && fresh_leaf_view(r) == #[trigger] spec_fresh_leaf_node(
                    new_leaf_node_params.config,
                    signer@,
                    payload_of(
                        Seq::empty(),
                        new_leaf_node_params.credential_with_key,
                        new_leaf_node_params.capabilities@,
                        new_leaf_node_params.leaf_node_source@,
                        new_leaf_node_params.extensions@,
                    ),
                    new_leaf_node_params.tree_info_tbs@,
                    randomness,
                ),
    {
        let NewLeafNodeParams { config, credential_with_key, leaf_node_source, capabilities, extensions, tree_info_tbs } = new_leaf_node_params;
        let ghost rest = payload_of(Seq::empty(), credential_with_key, capabilities@, leaf_node_source@, extensions@);
        let ghost tree_info = tree_info_tbs@;
        let made = EncryptionKeyPair::random(backend, config);
        let ghost randomness = choose|randomness: Option<Seq<u8>>| is_randomness_for(config, randomness) && key_pair_view(made) == #[trigger] spec_fresh_key_pair(config, randomness);
        let encryption_key_pair = match made {
            Ok(pair) => pair,
            Err(e) => {
                assert(fresh_leaf_view(Err::<(LeafNode, EncryptionKeyPair), LibraryError>(e)) == spec_fresh_leaf_node(config, signer@, rest, tree_info, randomness));
                return Err(e);
            },
        };
        assert(with_encryption_key(rest, encryption_key_pair.public_key@) == payload_of(
            encryption_key_pair.public_key@,
            credential_with_key,
            capabilities@,
            leaf_node_source@,
            extensions@,
        ));
        let leaf_node = match LeafNode::new_with_key(
            encryption_key_pair.public_key().duplicate(),
            credential_with_key,
            leaf_node_source,
            capabilities,
            extensions,
            tree_info_tbs,
            signer,
        ) {
            Ok(leaf_node) => leaf_node,
            Err(e) => {
                assert(fresh_leaf_view(Err::<(LeafNode, EncryptionKeyPair), LibraryError>(e)) == spec_fresh_leaf_node(config, signer@, rest, tree_info, randomness));
                return Err(e);
            },
        };
        let r = Ok((leaf_node, encryption_key_pair));
        assert(fresh_leaf_view(r) == spec_fresh_leaf_node(config, signer@, rest, tree_info, randomness));
        r
    }

    /// A new leaf node with the encryption key given. Fails where the
    /// signer makes no signature.
    pub fn new_with_key(
        encryption_key: EncryptionKey,
        credential_with_key: CredentialWithKey,
        leaf_node_source: LeafNodeSource,
        capabilities: Capabilities,
        extensions: Extensions,
        tree_info_tbs: TreeInfoTbs,
        signer: &SignatureKeyPair,
    ) -> (r: Result<Self, LibraryError>)
        ensures
            r is Ok == spec_signed_leaf_node(signer@, payload_of(encryption_key@, credential_with_key, capabilities@, leaf_node_source@, extensions@), tree_info_tbs@) is Some,
            r matches Ok(leaf_node) ==> Some(leaf_node@) == spec_signed_leaf_node(
                signer@,
                payload_of(encryption_key@, credential_with_key, capabilities@, leaf_node_source@, extensions@),
                tree_info_tbs@,
            ),
            r matches Err(e) ==> e == LibraryError::Custom,
    {
        let leaf_node_tbs = match LeafNodeTbs::new(encryption_key, credential_with_key, capabilities, leaf_node_source, extensions, tree_info_tbs) {
            Ok(tbs) => tbs,
            Err(e) => {
                return Err(e);
            },
        };
        match leaf_node_tbs.sign(signer) {
            Ok(leaf_node) => Ok(leaf_node),
            Err(_) => Err(LibraryError::Custom),
        }
    }

    /// Exposes `new_with_key`.
    pub fn create_new_with_key(
        encryption_key: EncryptionKey,
        credential_with_key: CredentialWithKey,
        leaf_node_source: LeafNodeSource,
        capabilities: Capabilities,
        extensions: Extensions,
        tree_info_tbs: TreeInfoTbs,
        signer: &SignatureKeyPair,
    ) -> (r: Result<Self, LibraryError>)
        ensures
            r is Ok == spec_signed_leaf_node(signer@, payload_of(encryption_key@, credential_with_key, capabilities@, leaf_node_source@, extensions@), tree_info_tbs@) is Some,
            r matches Ok(leaf_node) ==> Some(leaf_node@) == spec_signed_leaf_node(
                signer@,
                payload_of(encryption_key@, credential_with_key, capabilities@, leaf_node_source@, extensions@),
                tree_info_tbs@,
            ),
            r matches Err(e) ==> e == LibraryError::Custom,
    {
        LeafNode::new_with_key(encryption_key, credential_with_key, leaf_node_source, capabilities, extensions, tree_info_tbs, signer)
    }

    /// Sets the parent hash of the leaf node, which makes it the node of a
    /// commit, and signs it again for its place. Where the signer makes no
    /// signature the parent hash is set all the same and the signature
    /// stays.
    pub fn update_parent_hash(&mut self, parent_hash: &[u8], group_id: GroupId, leaf_index: LeafNodeIndex, signer: &SignatureKeyPair) -> (r: Result<(), LibraryError>)
        ensures
            final(self)@.payload == with_source(old(self)@.payload, LeafNodeSourceView::Commit(parent_hash@)),
            r is Ok == spec_sign_leaf_node(signer@, final(self)@.payload, TreeInfoTbsView::Commit(TreePositionView { group_id: group_id@, leaf_index: leaf_index.0 })) is Some,
            r is Ok ==> final(self)@.signature == spec_sign_leaf_node(
                signer@,
                final(self)@.payload,
                TreeInfoTbsView::Commit(TreePositionView { group_id: group_id@, leaf_index: leaf_index.0 }),
            ).unwrap(),
            r matches Err(e) ==> e == LibraryError::Custom && final(self)@.signature == old(self)@.signature,
    {
        self.payload.leaf_node_source = LeafNodeSource::Commit(copy_bytes(parent_hash));
        let tree_info = TreeInfoTbs::Commit(TreePosition { group_id, leaf_index });
        match sign_leaf_node(signer, &self.payload, &tree_info) {
            Ok(signature) => {
                self.signature = signature;
                Ok(())
            },
            Err(_) => Err(LibraryError::Custom),
        }
    }

    /// Gives the leaf node a new encryption key and signs it again, as an
    /// update at its place. Where a new leaf node is given, its credential
    /// and encryption key are taken over; else the new encryption key has to
    /// be given.
    pub fn update_and_re_sign(
        &mut self,
        new_encryption_key: Option<EncryptionKey>,
        leaf_node: Option<LeafNode>,
        group_id: GroupId,
        leaf_index: LeafNodeIndex,
        signer: &SignatureKeyPair,
    ) -> (r: Result<(), PublicTreeError>)
        ensures
            r is Ok == spec_update_and_re_sign(
                old(self)@,
                match new_encryption_key { Some(key) => Some(key@), None => None },
                match leaf_node { Some(node) => Some(node@), None => None },
                TreePositionView { group_id: group_id@, leaf_index: leaf_index.0 },
                signer@,
            ) is Ok,
            r is Ok ==> final(self)@ == spec_update_and_re_sign(
                old(self)@,
                match new_encryption_key { Some(key) => Some(key@), None => None },
                match leaf_node { Some(node) => Some(node@), None => None },
                TreePositionView { group_id: group_id@, leaf_index: leaf_index.0 },
                signer@,
            ).unwrap(),
            r matches Err(e) ==> final(self)@ == old(self)@ && spec_update_and_re_sign(
                old(self)@,
                match new_encryption_key { Some(key) => Some(key@), None => None },
                match leaf_node { Some(node) => Some(node@), None => None },
                TreePositionView { group_id: group_id@, leaf_index: leaf_index.0 },
                signer@,
            ) == Err::<LeafNodeView, PublicTreeError>(e),
    {
        let tree_info = TreeInfoTbs::Update(TreePosition::new(group_id, leaf_index));
        let mut payload = self.payload.duplicate();
        match leaf_node {
            Some(new_leaf) => {
                payload.credential = new_leaf.payload.credential;
                payload.encryption_key = new_leaf.payload.encryption_key;
                payload.leaf_node_source = LeafNodeSource::Update;
            },
            None => match new_encryption_key {
                Some(key) => {
                    payload.leaf_node_source = LeafNodeSource::Update;
                    payload.encryption_key = key;
                },
                None => {
                    return Err(PublicTreeError::LibraryError(LibraryError::Custom));
                },
            },
        }
        match sign_leaf_node(signer, &payload, &tree_info) {
            Ok(signature) => {
                self.payload = payload;
                self.signature = signature;
                Ok(())
            },
            Err(e) => Err(PublicTreeError::SignatureError(e)),
        }
    }

    /// Whether the capabilities of the leaf node list a ciphersuite and a
    /// protocol version.
    pub open spec fn spec_supports_config(leaf_node: LeafNodeView, ciphersuite: Ciphersuite, protocol_version: ProtocolVersion) -> bool {
        leaf_node.payload.capabilities.ciphersuites.contains(VerifiableCiphersuite(ciphersuite.spec_value())) && leaf_node.payload.capabilities.versions.contains(
            protocol_version,
        )
    }

    /// What replacing the encryption key of a leaf node by a fresh one
    /// gives, for the randomness that the provider gave: the node after it,
    /// and the keys of the fresh pair, private key first. Fails with `Custom`
    /// where the node does not support the ciphersuite or the protocol
    /// version, as the making of the key pair fails, and as signing the
    /// node again fails; the node is then as it was.
    pub open spec fn spec_rekey(
        leaf_node: LeafNodeView,
        config: CryptoConfig,
        position: TreePositionView,
        signer: SignatureKeyPairView,
        randomness: Option<Seq<u8>>,
    ) -> (LeafNodeView, Result<(Seq<u8>, Seq<u8>), PublicTreeError>) {
        if !LeafNode::spec_supports_config(leaf_node, config.ciphersuite, config.version) {
            (leaf_node, Err(PublicTreeError::LibraryError(LibraryError::Custom)))
        } else {
            match spec_fresh_key_pair(config, randomness) {
                Err(e) => (leaf_node, Err(PublicTreeError::LibraryError(e))),
                Ok(pair) => match spec_update_and_re_sign(leaf_node, Some(pair.1), None, position, signer) {
                    Err(e) => (leaf_node, Err(e)),
                    Ok(next) => (next, Ok(pair)),
                },
            }
        }
    }

    /// The keys of the key pair that was made, private key first, or the
    /// failure.
    pub open spec fn rekey_view(r: Result<EncryptionKeyPair, PublicTreeError>) -> Result<(Seq<u8>, Seq<u8>), PublicTreeError> {
        match r {
            Ok(pair) => Ok((pair.private_key@, pair.public_key@)),
            Err(e) => Err(e),
        }
    }

    /// Replaces the encryption key of the leaf node by a fresh one, whose
    /// key pair comes back, and signs the node again as an update at its
    /// place. Fails, and leaves the node as it was, where the node does not
    /// support the ciphersuite or the protocol version, no key pair can be
    /// had or the signer makes no signature.
    pub fn rekey(
        &mut self,
        group_id: &GroupId,
        leaf_index: LeafNodeIndex,
        ciphersuite: Ciphersuite,
        protocol_version: ProtocolVersion,
        backend: &OpenMlsRustCrypto,
        signer: &SignatureKeyPair,
    ) -> (r: Result<EncryptionKeyPair, PublicTreeError>)
        ensures
            !LeafNode::spec_supports_config(old(self)@, ciphersuite, protocol_version) ==> r == Err::<EncryptionKeyPair, PublicTreeError>(
                PublicTreeError::LibraryError(LibraryError::Custom),
            ),
            r matches Ok(pair) ==> LeafNode::spec_supports_config(old(self)@, ciphersuite, protocol_version) && Ok::<LeafNodeView, PublicTreeError>(final(self)@) == spec_update_and_re_sign(
                old(self)@,
                Some(pair.public_key@),
                None,
                TreePositionView { group_id: group_id@, leaf_index: leaf_index.0 },
                signer@,
            ),
            r matches Ok(pair) ==> exists|ikm: Seq<u8>| #[trigger] is_key_pair_of(pair, CryptoConfig { ciphersuite, version: protocol_version }, ikm),
            r is Err ==> final(self)@ == old(self)@,
            exists|randomness: Option<Seq<u8>>|
                is_randomness_for(CryptoConfig { ciphersuite, version: protocol_version }, randomness) && (final(self)@, LeafNode::rekey_view(r)) == #[trigger] LeafNode::spec_rekey(
                    old(self)@,
                    CryptoConfig { ciphersuite, version: protocol_version },
                    TreePositionView { group_id: group_id@, leaf_index: leaf_index.0 },
                    signer@,
                    randomness,
                ),
    {
        let config = CryptoConfig { ciphersuite, version: protocol_version };
        let ghost position = TreePositionView { group_id: group_id@, leaf_index: leaf_index.0 };
        if !contains_ciphersuite(self.payload.capabilities.ciphersuites(), VerifiableCiphersuite::from_ciphersuite(ciphersuite)) || !contains_version(
            self.payload.capabilities.versions(),
            protocol_version,
        ) {
            let r = Err(PublicTreeError::LibraryError(LibraryError::Custom));
            assert(is_randomness_for(config, None));
            assert((self@, LeafNode::rekey_view(r)) == LeafNode::spec_rekey(old(self)@, config, position, signer@, None));
            return r;
        }
        let made = EncryptionKeyPair::random(backend, config);
        let ghost randomness = choose|randomness: Option<Seq<u8>>| is_randomness_for(config, randomness) && key_pair_view(made) == #[trigger] spec_fresh_key_pair(config, randomness);
        let ghost outcome = LeafNode::spec_rekey(old(self)@, config, position, signer@, randomness);
        let key_pair = match made {
            Ok(pair) => pair,
            Err(e) => {
                let r = Err(PublicTreeError::LibraryError(e));
                assert((self@, LeafNode::rekey_view(r)) == outcome);
                return r;
            },
        };
        let r = match self.update_and_re_sign(Some(key_pair.public_key().duplicate()), None, group_id.duplicate(), leaf_index, signer) {
            Ok(()) => Ok(key_pair),
            Err(e) => Err(e),
        };
        assert((self@, LeafNode::rekey_view(r)) == outcome);
        r
    }

    /// The encryption key.
    pub fn encryption_key(&self) -> (k: &EncryptionKey)
        ensures
            k@ == self@.payload.encryption_key,
    {
        &self.payload.encryption_key
    }

    /// The signature key.
    pub fn signature_key(&self) -> (k: &SignaturePublicKey)
        ensures
            k@ == self@.payload.signature_key,
    {
        &self.payload.signature_key
    }

    /// The credential.
    pub fn credential(&self) -> (c: &Credential)
        ensures
            c@ == self@.payload.credential,
    {
        &self.payload.credential
    }

    /// The parent hash, which a leaf node of a commit has.
    pub fn parent_hash(&self) -> (h: Option<&[u8]>)
        ensures
            match self@.payload.leaf_node_source {
                LeafNodeSourceView::Commit(parent_hash) => h is Some && h.unwrap()@ == parent_hash,
                _ => h is None,
            },
    {
        match &self.payload.leaf_node_source {
            LeafNodeSource::Commit(parent_hash) => Some(parent_hash.as_slice()),
            _ => None,
        }
    }

    /// The lifetime, which a leaf node of a key package has.
    pub fn life_time(&self) -> (l: Option<&Lifetime>)
        ensures
            match self@.payload.leaf_node_source {
                LeafNodeSourceView::KeyPackage(lifetime) => l is Some && *l.unwrap() == lifetime,
                _ => l is None,
            },
    {
        match &self.payload.leaf_node_source {
            LeafNodeSource::KeyPackage(lifetime) => Some(lifetime),
            _ => None,
        }
    }

    /// The signature.
    pub fn signature(&self) -> (s: &Signature)
        ensures
            s@ == self@.signature,
    {
        &self.signature
    }

    /// The capabilities.
    pub fn capabilities(&self) -> (c: &Capabilities)
        ensures
            c@ == self@.payload.capabilities,
    {
        &self.payload.capabilities
    }

    /// The extensions.
    pub fn extensions(&self) -> (e: &Extensions)
        ensures
            e@ == self@.payload.extensions,
    {
        &self.payload.extensions
    }

    /// The content.
    pub fn payload(&self) -> (p: &LeafNodePayload)
        ensures
            p@ == self@.payload,
    {
        &self.payload
    }

    /// A copy of the leaf node.
    pub fn duplicate(&self) -> (n: Self)
        ensures
            n@ == self@,
    {
        LeafNode { payload: self.payload.duplicate(), signature: self.signature.duplicate() }
    }

    /// Whether two leaf nodes are the same, signature and all.
    pub fn equals(&self, other: &Self) -> (b: bool)
        ensures
            b == (self@ == other@),
    {
        self.payload.equals(&other.payload) && bytes_equal(self.signature.as_slice(), other.signature.as_slice())
    }

    /// Appends the encoding of the leaf node: its content, then its
    /// signature as a vector. Fails where the leaf node cannot be encoded;
    /// what `out` holds then is not told.
    pub fn append_encoding(&self, out: &mut Vec<u8>) -> (r: Result<(), CodecError>)
        ensures
            leaf_node_encodable(self@) ==> r is Ok && final(out)@ == old(out)@ + leaf_node_encoding(self@),
            !leaf_node_encodable(self@) ==> r == Err::<(), CodecError>(CodecError::InvalidVectorLength),
    {
        match self.payload.append_encoding(out) {
            Err(e) => {
                return Err(e);
            },
            Ok(()) => {},
        }
        match append_vector(out, self.signature.as_slice()) {
            Err(e) => {
                return Err(e);
            },
            Ok(()) => {},
        }
        assert(out@ == old(out)@ + leaf_node_encoding(self@));
        Ok(())
    }
}

/// Whether a leaf node supports a kind of extension: its capabilities list
/// it, or every member supports it.
pub open spec fn spec_supports_extension(leaf_node: LeafNodeView, extension_type: ExtensionType) -> bool {
    leaf_node.payload.capabilities.extensions.contains(extension_type) || spec_default_extensions().contains(extension_type)
}

/// Whether a leaf node supports a kind of proposal: its capabilities list
/// it, or every member supports it.
pub open spec fn spec_supports_proposal(leaf_node: LeafNodeView, proposal_type: ProposalType) -> bool {
    leaf_node.payload.capabilities.proposals.contains(proposal_type) || spec_default_proposals().contains(proposal_type)
}

/// Whether a leaf node supports a kind of credential: its capabilities list
/// it.
pub open spec fn spec_supports_credential(leaf_node: LeafNodeView, credential_type: CredentialType) -> bool {
    leaf_node.payload.capabilities.credentials.contains(credential_type)
}

/// Whether a leaf node supports all the kinds of extension of a list.
pub open spec fn supports_all_extensions(leaf_node: LeafNodeView, list: Seq<ExtensionType>) -> bool {
    forall|i: int| 0 <= i < list.len() ==> spec_supports_extension(leaf_node, #[trigger] list[i])
}

/// Whether a leaf node supports all the kinds of proposal of a list.
pub open spec fn supports_all_proposals(leaf_node: LeafNodeView, list: Seq<ProposalType>) -> bool {
    forall|i: int| 0 <= i < list.len() ==> spec_supports_proposal(leaf_node, #[trigger] list[i])
}

/// Whether a leaf node supports all the kinds of credential of a list.
pub open spec fn supports_all_credentials(leaf_node: LeafNodeView, list: Seq<CredentialType>) -> bool {
    forall|i: int| 0 <= i < list.len() ==> spec_supports_credential(leaf_node, #[trigger] list[i])
}

/// What the check of a leaf node against what a group requires gives: the
/// first of the three lists with a kind that the node does not support
/// decides.
pub open spec fn spec_validate_required_capabilities(leaf_node: LeafNodeView, required: Option<RequiredCapabilitiesExtension>) -> Result<(), LeafNodeValidationError> {
    match required {
        None => Ok(()),
        Some(required) => if !supports_all_extensions(leaf_node, required.extension_types@) {
            Err(LeafNodeValidationError::UnsupportedExtensions)
        } else if !supports_all_proposals(leaf_node, required.proposal_types@) {
            Err(LeafNodeValidationError::UnsupportedProposals)
        } else if !supports_all_credentials(leaf_node, required.credential_types@) {
            Err(LeafNodeValidationError::UnsupportedCredentials)
        } else {
            Ok(())
        },
    }
}

/// Whether a leaf node supports the kinds of all its extensions.
pub open spec fn extensions_in_capabilities(leaf_node: LeafNodeView) -> bool {
    forall|i: int| 0 <= i < leaf_node.payload.extensions.len() ==> spec_supports_extension(leaf_node, (#[trigger] leaf_node.payload.extensions[i]).extension_type)
}

/// Whether all members of a group support the kind of credential of a leaf
/// node.
pub open spec fn credential_supported_by_members(leaf_node: LeafNodeView, members: Seq<Seq<CredentialType>>) -> bool {
    forall|i: int| 0 <= i < members.len() ==> (#[trigger] members[i]).contains(leaf_node.payload.credential.credential_type)
}

/// What members of a group support, as lists.
pub open spec fn member_lists(members: Seq<Vec<CredentialType>>) -> Seq<Seq<CredentialType>> {
    Seq::new(members.len(), |i: int| members[i]@)
}

/// The byte strings that keys are.
pub open spec fn signature_key_views(keys: Seq<SignaturePublicKey>) -> Seq<Seq<u8>> {
    Seq::new(keys.len(), |i: int| keys[i]@)
}

/// The byte strings that keys are.
pub open spec fn encryption_key_views(keys: Seq<EncryptionKey>) -> Seq<Seq<u8>> {
    Seq::new(keys.len(), |i: int| keys[i]@)
}

/// What the checks of a leaf node against its group give: the first check
/// that fails decides, in this order: what the group requires, the node's
/// extensions and credential against its capabilities, its keys against
/// those of the members, its credential against what the members support,
/// and the credentials in use against what the node supports.
pub open spec fn spec_validate(
    leaf_node: LeafNodeView,
    required: Option<RequiredCapabilitiesExtension>,
    signature_keys: Seq<Seq<u8>>,
    encryption_keys: Seq<Seq<u8>>,
    members_supported_credentials: Seq<Seq<CredentialType>>,
    currently_in_use: Seq<CredentialType>,
) -> Result<(), LeafNodeValidationError> {
    if spec_validate_required_capabilities(leaf_node, required) is Err {
        spec_validate_required_capabilities(leaf_node, required)
    } else if !extensions_in_capabilities(leaf_node) {
        Err(LeafNodeValidationError::ExtensionsNotInCapabilities)
    } else if !spec_supports_credential(leaf_node, leaf_node.payload.credential.credential_type) {
        Err(LeafNodeValidationError::CredentialNotInCapabilities)
    } else if signature_keys.contains(leaf_node.payload.signature_key) {
        Err(LeafNodeValidationError::SignatureKeyAlreadyInUse)
    } else if encryption_keys.contains(leaf_node.payload.encryption_key) {
        Err(LeafNodeValidationError::EncryptionKeyAlreadyInUse)
    } else if !credential_supported_by_members(leaf_node, members_supported_credentials) {
        Err(LeafNodeValidationError::LeafNodeCredentialNotSupportedByMember)
    } else if !supports_all_credentials(leaf_node, currently_in_use) {
        Err(LeafNodeValidationError::MemberCredentialNotSupportedByLeafNode)
    } else {
        Ok(())
    }
}

/// What the check of a leaf node in a key package gives at the time `now`:
/// the node has to come from a key package, with a lifetime of an accepted
/// length that `now` is within.
pub open spec fn spec_validate_in_key_package(leaf_node: LeafNodeView, now: u64) -> Result<(), LeafNodeValidationError> {
    match leaf_node.payload.leaf_node_source {
        LeafNodeSourceView::KeyPackage(lifetime) => if !lifetime.spec_has_acceptable_range() {
            Err(LeafNodeValidationError::Lifetime(LifetimeError::RangeTooBig))
        } else if !lifetime.spec_is_valid_at(now) {
            Err(LeafNodeValidationError::Lifetime(LifetimeError::NotCurrent))
        } else {
            Ok(())
        },
        _ => Err(LeafNodeValidationError::InvalidLeafNodeSource),
    }
}

impl LeafNode {
    /// Checks the leaf node as one of a key package, at the time `now` in
    /// seconds since the start of the Unix epoch.
    pub fn validate_in_key_package_at(&self, now: u64) -> (r: Result<&Self, LeafNodeValidationError>)
        ensures
            r is Ok == spec_validate_in_key_package(self@, now) is Ok,
            r matches Ok(leaf_node) ==> leaf_node == self,
            r matches Err(e) ==> spec_validate_in_key_package(self@, now) == Err::<(), LeafNodeValidationError>(e),
    {
        match self.payload.leaf_node_source {
            LeafNodeSource::KeyPackage(lifetime) => {
                if !lifetime.has_acceptable_range() {
                    return Err(LeafNodeValidationError::Lifetime(LifetimeError::RangeTooBig));
                }
                if !lifetime.is_valid_at(now) {
                    return Err(LeafNodeValidationError::Lifetime(LifetimeError::NotCurrent));
                }
                Ok(self)
            },
            _ => Err(LeafNodeValidationError::InvalidLeafNodeSource),
        }
    }

    /// Checks the leaf node as one of a key package, at the time of the
    /// clock. A clock before the start of the Unix epoch is taken to be at
    /// it, which makes no lifetime current.
    pub fn validate_in_key_package(&self) -> (r: Result<&Self, LeafNodeValidationError>)
        ensures
            r matches Ok(leaf_node) ==> leaf_node == self,
            exists|now: u64| #[trigger] spec_validate_in_key_package(self@, now) == validation_outcome(r),
    {
        let now: u64 = match Lifetime::now() {
            Some(seconds) => seconds,
            None => 0,
        };
        let r = self.validate_in_key_package_at(now);
        assert(spec_validate_in_key_package(self@, now) == validation_outcome(r));
        r
    }

    /// Checks the leaf node as one of an update: it has to come from one.
    pub fn validate_in_update(&self) -> (r: Result<&Self, LeafNodeValidationError>)
        ensures
            r is Ok == self@.payload.leaf_node_source is Update,
            r matches Ok(leaf_node) ==> leaf_node == self,
            r matches Err(e) ==> e == LeafNodeValidationError::InvalidLeafNodeSource,
    {
        match self.payload.leaf_node_source {
            LeafNodeSource::Update => Ok(self),
            _ => Err(LeafNodeValidationError::InvalidLeafNodeSource),
        }
    }

    /// Checks the leaf node as one of a commit: it has to come from one.
    pub fn validate_in_commit(&self) -> (r: Result<&Self, LeafNodeValidationError>)
        ensures
            r is Ok == self@.payload.leaf_node_source is Commit,
            r matches Ok(leaf_node) ==> leaf_node == self,
            r matches Err(e) ==> e == LeafNodeValidationError::InvalidLeafNodeSource,
    {
        match self.payload.leaf_node_source {
            LeafNodeSource::Commit(_) => Ok(self),
            _ => Err(LeafNodeValidationError::InvalidLeafNodeSource),
        }
    }

    /// The checks of the leaf node against its group that every context
    /// asks for.
    pub fn validate(
        &self,
        required_capabilities: Option<&RequiredCapabilitiesExtension>,
        signature_keys: &[SignaturePublicKey],
        encryption_keys: &[EncryptionKey],
        members_supported_credentials: &[Vec<CredentialType>],
        currently_in_use: &[CredentialType],
    ) -> (r: Result<&Self, LeafNodeValidationError>)
        ensures
            r is Ok == spec_validate(self@, option_of(required_capabilities), signature_key_views(signature_keys@), encryption_key_views(encryption_keys@), member_lists(members_supported_credentials@), currently_in_use@) is Ok,
            r matches Ok(leaf_node) ==> leaf_node == self,
            r matches Err(e) ==> spec_validate(self@, option_of(required_capabilities), signature_key_views(signature_keys@), encryption_key_views(encryption_keys@), member_lists(members_supported_credentials@), currently_in_use@) == Err::<(), LeafNodeValidationError>(e),
    {
        match self.validate_required_capabilities(required_capabilities) {
            Err(e) => {
                return Err(e);
            },
            Ok(_) => {},
        }
        match self.validate_that_capabilities_contain_extension_types() {
            Err(e) => {
                return Err(e);
            },
            Ok(_) => {},
        }
        match self.validate_that_capabilities_contain_credential_type() {
            Err(e) => {
                return Err(e);
            },
            Ok(_) => {},
        }
        match self.validate_that_signature_key_is_unique(signature_keys) {
            Err(e) => {
                return Err(e);
            },
            Ok(_) => {},
        }
        match self.validate_that_encryption_key_is_unique(encryption_keys) {
            Err(e) => {
                return Err(e);
            },
            Ok(_) => {},
        }
        match self.validate_against_group_credentials(members_supported_credentials) {
            Err(e) => {
                return Err(e);
            },
            Ok(_) => {},
        }
        match self.validate_credential_in_use(currently_in_use) {
            Err(e) => {
                return Err(e);
            },
            Ok(_) => {},
        }
        Ok(self)
    }

    /// Checks that the leaf node supports what the group requires.
    #[verifier::loop_isolation(false)]
    pub fn validate_required_capabilities(&self, required_capabilities: Option<&RequiredCapabilitiesExtension>) -> (r: Result<&Self, LeafNodeValidationError>)
        ensures
            r is Ok == spec_validate_required_capabilities(self@, option_of(required_capabilities)) is Ok,
            r matches Ok(leaf_node) ==> leaf_node == self,
            r matches Err(e) ==> spec_validate_required_capabilities(self@, option_of(required_capabilities)) == Err::<(), LeafNodeValidationError>(e),
    {
        if let Some(required) = required_capabilities {
            let extension_types = required.extension_types();
            let mut i: usize = 0;
            while i < extension_types.len()
                invariant
                    i <= extension_types@.len(),
                    forall|k: int| 0 <= k < i ==> spec_supports_extension(self@, #[trigger] extension_types@[k]),
                decreases extension_types@.len() - i,
            {
                if !self.supports_extension(&extension_types[i]) {
                    assert(!spec_supports_extension(self@, required.extension_types@[i as int]));
                    return Err(LeafNodeValidationError::UnsupportedExtensions);
                }
                i = i + 1;
            }
            assert(supports_all_extensions(self@, required.extension_types@));
            let proposal_types = required.proposal_types();
            let mut j: usize = 0;
            while j < proposal_types.len()
                invariant
                    j <= proposal_types@.len(),
                    forall|k: int| 0 <= k < j ==> spec_supports_proposal(self@, #[trigger] proposal_types@[k]),
                decreases proposal_types@.len() - j,
            {
                if !self.supports_proposal(&proposal_types[j]) {
                    assert(!spec_supports_proposal(self@, required.proposal_types@[j as int]));
                    return Err(LeafNodeValidationError::UnsupportedProposals);
                }
                j = j + 1;
            }
            assert(supports_all_proposals(self@, required.proposal_types@));
            let credential_types = required.credential_types();
            let mut m: usize = 0;
            while m < credential_types.len()
                invariant
                    m <= credential_types@.len(),
                    forall|k: int| 0 <= k < m ==> spec_supports_credential(self@, #[trigger] credential_types@[k]),
                decreases credential_types@.len() - m,
            {
                if !self.supports_credential(&credential_types[m]) {
                    assert(!spec_supports_credential(self@, required.credential_types@[m as int]));
                    return Err(LeafNodeValidationError::UnsupportedCredentials);
                }
                m = m + 1;
            }
            assert(supports_all_credentials(self@, required.credential_types@));
        }
        Ok(self)
    }

    /// Checks that the leaf node supports the kinds of its extensions.
    pub fn validate_that_capabilities_contain_extension_types(&self) -> (r: Result<&Self, LeafNodeValidationError>)
        ensures
            r is Ok == extensions_in_capabilities(self@),
            r matches Ok(leaf_node) ==> leaf_node == self,
            r matches Err(e) ==> e == LeafNodeValidationError::ExtensionsNotInCapabilities,
    {
        let n: usize = self.payload.extensions.len();
        let mut i: usize = 0;
        while i < n
            invariant
                n == self@.payload.extensions.len(),
                i <= n,
                forall|k: int| 0 <= k < i ==> spec_supports_extension(self@, (#[trigger] self@.payload.extensions[k]).extension_type),
            decreases n - i,
        {
            let id = self.payload.extensions.extension_type_at(i);
            if !self.supports_extension(&id) {
                return Err(LeafNodeValidationError::ExtensionsNotInCapabilities);
            }
            i = i + 1;
        }
        Ok(self)
    }

    /// Checks that the leaf node supports the kind of its credential.
    pub fn validate_that_capabilities_contain_credential_type(&self) -> (r: Result<&Self, LeafNodeValidationError>)
        ensures
            r is Ok == spec_supports_credential(self@, self@.payload.credential.credential_type),
            r matches Ok(leaf_node) ==> leaf_node == self,
            r matches Err(e) ==> e == LeafNodeValidationError::CredentialNotInCapabilities,
    {
        if !contains_credential_type(self.payload.capabilities.credentials(), self.payload.credential.credential_type()) {
            return Err(LeafNodeValidationError::CredentialNotInCapabilities);
        }
        Ok(self)
    }

    /// Checks that no member has the signature key of the leaf node.
    pub fn validate_that_signature_key_is_unique(&self, signature_keys: &[SignaturePublicKey]) -> (r: Result<&Self, LeafNodeValidationError>)
        ensures
            r is Ok == !signature_key_views(signature_keys@).contains(self@.payload.signature_key),
            r matches Ok(leaf_node) ==> leaf_node == self,
            r matches Err(e) ==> e == LeafNodeValidationError::SignatureKeyAlreadyInUse,
    {
        let n: usize = signature_keys.len();
        let mut i: usize = 0;
        while i < n
            invariant
                n == signature_keys@.len(),
                i <= n,
                forall|k: int| 0 <= k < i ==> signature_key_views(signature_keys@)[k] != self@.payload.signature_key,
            decreases n - i,
        {
            if signature_keys[i].equals(&self.payload.signature_key) {
                assert(signature_key_views(signature_keys@)[i as int] == self@.payload.signature_key);
                return Err(LeafNodeValidationError::SignatureKeyAlreadyInUse);
            }
            i = i + 1;
        }
        Ok(self)
    }

    /// Checks that no member has the encryption key of the leaf node.
    pub fn validate_that_encryption_key_is_unique(&self, encryption_keys: &[EncryptionKey]) -> (r: Result<&Self, LeafNodeValidationError>)
        ensures
            r is Ok == !encryption_key_views(encryption_keys@).contains(self@.payload.encryption_key),
            r matches Ok(leaf_node) ==> leaf_node == self,
            r matches Err(e) ==> e == LeafNodeValidationError::EncryptionKeyAlreadyInUse,
    {
        let n: usize = encryption_keys.len();
        let mut i: usize = 0;
        while i < n
            invariant
                n == encryption_keys@.len(),
                i <= n,
                forall|k: int| 0 <= k < i ==> encryption_key_views(encryption_keys@)[k] != self@.payload.encryption_key,
            decreases n - i,
        {
            if encryption_keys[i].equals(&self.payload.encryption_key) {
                assert(encryption_key_views(encryption_keys@)[i as int] == self@.payload.encryption_key);
                return Err(LeafNodeValidationError::EncryptionKeyAlreadyInUse);
            }
            i = i + 1;
        }
        Ok(self)
    }

    /// Checks that all members support the kind of credential of the leaf
    /// node.
    pub fn validate_against_group_credentials(&self, members_supported_credentials: &[Vec<CredentialType>]) -> (r: Result<&Self, LeafNodeValidationError>)
        ensures
            r is Ok == credential_supported_by_members(self@, member_lists(members_supported_credentials@)),
            r matches Ok(leaf_node) ==> leaf_node == self,
            r matches Err(e) ==> e == LeafNodeValidationError::LeafNodeCredentialNotSupportedByMember,
    {
        let n: usize = members_supported_credentials.len();
        let mut i: usize = 0;
        while i < n
            invariant
                n == members_supported_credentials@.len(),
                i <= n,
                forall|k: int| 0 <= k < i ==> (#[trigger] member_lists(members_supported_credentials@)[k]).contains(self@.payload.credential.credential_type),
            decreases n - i,
        {
            if !contains_credential_type(members_supported_credentials[i].as_slice(), self.payload.credential.credential_type()) {
                assert(!member_lists(members_supported_credentials@)[i as int].contains(self@.payload.credential.credential_type));
                return Err(LeafNodeValidationError::LeafNodeCredentialNotSupportedByMember);
            }
            i = i + 1;
        }
        Ok(self)
    }

    /// Checks that the leaf node supports the kinds of credential that the
    /// members use.
    pub fn validate_credential_in_use(&self, currently_in_use: &[CredentialType]) -> (r: Result<&Self, LeafNodeValidationError>)
        ensures
            r is Ok == supports_all_credentials(self@, currently_in_use@),
            r matches Ok(leaf_node) ==> leaf_node == self,
            r matches Err(e) ==> e == LeafNodeValidationError::MemberCredentialNotSupportedByLeafNode,
    {
        let n: usize = currently_in_use.len();
        let mut i: usize = 0;
        while i < n
            invariant
                n == currently_in_use@.len(),
                i <= n,
                forall|k: int| 0 <= k < i ==> spec_supports_credential(self@, #[trigger] currently_in_use@[k]),
            decreases n - i,
        {
            if !self.supports_credential(&currently_in_use[i]) {
                return Err(LeafNodeValidationError::MemberCredentialNotSupportedByLeafNode);
            }
            i = i + 1;
        }
        Ok(self)
    }

    /// Whether the leaf node supports a kind of extension.
    pub fn supports_extension(&self, extension_type: &ExtensionType) -> (b: bool)
        ensures
            b == spec_supports_extension(self@, *extension_type),
    {
        contains_extension_type(self.payload.capabilities.extensions(), *extension_type) || contains_extension_type(default_extensions().as_slice(), *extension_type)
    }

    /// Whether the leaf node supports a kind of proposal.
    pub fn supports_proposal(&self, proposal_type: &ProposalType) -> (b: bool)
        ensures
            b == spec_supports_proposal(self@, *proposal_type),
    {
        contains_proposal_type(self.payload.capabilities.proposals(), *proposal_type) || contains_proposal_type(default_proposals().as_slice(), *proposal_type)
    }

    /// Whether the leaf node supports a kind of credential.
    pub fn supports_credential(&self, credential_type: &CredentialType) -> (b: bool)
        ensures
            b == spec_supports_credential(self@, *credential_type),
    {
        contains_credential_type(self.payload.capabilities.credentials(), *credential_type)
    }

    /// Checks that the leaf node supports all the kinds of extension of a
    /// list. Fails with `UnsupportedExtensions` where it does not.
    pub fn check_extension_support(&self, extensions: &[ExtensionType]) -> (r: Result<(), LeafNodeValidationError>)
        ensures
            r is Ok == supports_all_extensions(self@, extensions@),
            r matches Err(e) ==> e == LeafNodeValidationError::UnsupportedExtensions,
    {
        let n: usize = extensions.len();
        let mut i: usize = 0;
        while i < n
            invariant
                n == extensions@.len(),
                i <= n,
                forall|k: int| 0 <= k < i ==> spec_supports_extension(self@, #[trigger] extensions@[k]),
            decreases n - i,
        {
            if !self.supports_extension(&extensions[i]) {
                return Err(LeafNodeValidationError::UnsupportedExtensions);
            }
            i = i + 1;
        }
        Ok(())
    }

    /// The capabilities, to be changed.
    pub fn capabilities_mut(&mut self) -> (c: &mut Capabilities)
        ensures
            (*c)@ == old(self)@.payload.capabilities,
            final(self)@.signature == old(self)@.signature,
            final(self)@.payload == (LeafNodePayloadView { capabilities: (*final(c))@, ..old(self)@.payload }),
    {
        &mut self.payload.capabilities
    }

    /// Replaces the credential. The signature stays.
    pub fn set_credential(&mut self, credential: Credential)
        ensures
            final(self)@.signature == old(self)@.signature,
            final(self)@.payload == (LeafNodePayloadView { credential: credential@, ..old(self)@.payload }),
    {
        self.payload.credential = credential;
    }

    /// Replaces the signature key. The signature stays.
    pub fn set_signature_key(&mut self, signature_key: SignaturePublicKey)
        ensures
            final(self)@.signature == old(self)@.signature,
            final(self)@.payload == (LeafNodePayloadView { signature_key: signature_key@, ..old(self)@.payload }),
    {
        self.payload.signature_key = signature_key;
    }

    /// Signs the leaf node again, with the credential and the signature key
    /// given. Fails, and leaves the node as it was, where the signer makes
    /// no signature.
    pub fn resign(&mut self, signer: &SignatureKeyPair, credential_with_key: CredentialWithKey, tree_info_tbs: TreeInfoTbs) -> (r: Result<(), SignatureError>)
        ensures
            r is Ok == spec_sign_leaf_node(signer@, resigned_payload(old(self)@.payload, credential_with_key), tree_info_tbs@) is Some,
            r is Ok ==> Some(final(self)@) == spec_signed_leaf_node(signer@, resigned_payload(old(self)@.payload, credential_with_key), tree_info_tbs@),
            r matches Err(e) ==> e == SignatureError::SigningError && final(self)@ == old(self)@,
    {
        let payload = LeafNodePayload {
            encryption_key: self.payload.encryption_key.duplicate(),
            signature_key: credential_with_key.signature_key,
            credential: credential_with_key.credential,
            capabilities: self.payload.capabilities.duplicate(),
            leaf_node_source: self.payload.leaf_node_source.duplicate(),
            extensions: self.payload.extensions.duplicate(),
        };
        match sign_leaf_node(signer, &payload, &tree_info_tbs) {
            Ok(signature) => {
                self.payload = payload;
                self.signature = signature;
                Ok(())
            },
            Err(e) => Err(e),
        }
    }

    /// Signs the leaf node again as one of a commit at the place given.
    /// Fails, and leaves the node as it was, where the signer makes no
    /// signature.
    pub fn resign_with_position(&mut self, leaf_index: LeafNodeIndex, group_id: GroupId, signer: &SignatureKeyPair) -> (r: Result<(), SignatureError>)
        ensures
            r is Ok == spec_sign_leaf_node(signer@, old(self)@.payload, commit_info(group_id@, leaf_index.0)) is Some,
            r is Ok ==> Some(final(self)@) == spec_signed_leaf_node(signer@, old(self)@.payload, commit_info(group_id@, leaf_index.0)),
            r matches Err(e) ==> e == SignatureError::SigningError && final(self)@ == old(self)@,
    {
        let tree_info_tbs = TreeInfoTbs::commit(group_id, leaf_index);
        match sign_leaf_node(signer, &self.payload, &tree_info_tbs) {
            Ok(signature) => {
                self.signature = signature;
                Ok(())
            },
            Err(e) => Err(e),
        }
    }
}

/// Whether a check found the leaf node valid, or the error.
pub open spec fn validation_outcome(r: Result<&LeafNode, LeafNodeValidationError>) -> Result<(), LeafNodeValidationError> {
    match r {
        Ok(_) => Ok(()),
        Err(e) => Err(e),
    }
}

/// What is signed with a leaf node of a commit at a place.
pub open spec fn commit_info(group_id: Seq<u8>, leaf_index: u32) -> TreeInfoTbsView {
    TreeInfoTbsView::Commit(TreePositionView { group_id, leaf_index })
}

/// The content with the credential and the signature key given.
pub open spec fn resigned_payload(payload: LeafNodePayloadView, credential_with_key: CredentialWithKey) -> LeafNodePayloadView {
    LeafNodePayloadView { signature_key: credential_with_key.signature_key@, credential: credential_with_key.credential@, ..payload }
}

/// What an optional reference refers to.
pub open spec fn option_of(required: Option<&RequiredCapabilitiesExtension>) -> Option<RequiredCapabilitiesExtension> {
    match required {
        Some(r) => Some(*r),
        None => None,
    }
}

impl LeafNode {
    /// A fresh leaf node of an update, with a fresh encryption key pair,
    /// which comes with it and is to be stored by the caller.
    pub fn generate_update(
        config: CryptoConfig,
        credential_with_key: CredentialWithKey,
        capabilities: Capabilities,
        extensions: Extensions,
        tree_info_tbs: TreeInfoTbs,
        backend: &OpenMlsRustCrypto,
        signer: &SignatureKeyPair,
    ) -> (r: Result<(Self, EncryptionKeyPair), LibraryError>)
        ensures
            r matches Ok(out) ==> derives_hpke_key_pairs(config) && Some(out.0@) == spec_signed_leaf_node(
                signer@,
                payload_of(out.1.public_key@, credential_with_key, capabilities@, LeafNodeSourceView::Update, extensions@),
                tree_info_tbs@,
            ),
            !derives_hpke_key_pairs(config) ==> r is Err,
            exists|randomness: Option<Seq<u8>>|
                is_randomness_for(config, randomness) && fresh_leaf_view(r) == #[trigger] spec_fresh_leaf_node(
                    config,
                    signer@,
                    payload_of(Seq::empty(), credential_with_key, capabilities@, LeafNodeSourceView::Update, extensions@),
                    tree_info_tbs@,
                    randomness,
                ),
    {
        let new_leaf_node_params = NewLeafNodeParams { config, credential_with_key, leaf_node_source: LeafNodeSource::Update, capabilities, extensions, tree_info_tbs };
        LeafNode::new(backend, signer, new_leaf_node_params)
    }

    /// A fresh leaf node of an update with the credential, the signature
    /// key, the capabilities and the extensions of this one, and with a
    /// fresh encryption key pair, which comes with it and is to be stored by
    /// the caller.
    pub fn updated(&self, config: CryptoConfig, tree_info_tbs: TreeInfoTbs, backend: &OpenMlsRustCrypto, signer: &SignatureKeyPair) -> (r: Result<
        (Self, EncryptionKeyPair),
        LibraryError,
    >)
        ensures
            r matches Ok(out) ==> derives_hpke_key_pairs(config) && Some(out.0@) == spec_signed_leaf_node(
                signer@,
                (LeafNodePayloadView { encryption_key: out.1.public_key@, leaf_node_source: LeafNodeSourceView::Update, ..self@.payload }),
                tree_info_tbs@,
            ),
            !derives_hpke_key_pairs(config) ==> r is Err,
            exists|randomness: Option<Seq<u8>>|
                is_randomness_for(config, randomness) && fresh_leaf_view(r) == #[trigger] spec_fresh_leaf_node(
                    config,
                    signer@,
                    with_source(self@.payload, LeafNodeSourceView::Update),
                    tree_info_tbs@,
                    randomness,
                ),
    {
        let credential_with_key = CredentialWithKey { credential: self.payload.credential.duplicate(), signature_key: self.payload.signature_key.duplicate() };
        let capabilities = self.payload.capabilities.duplicate();
        let extensions = self.payload.extensions.duplicate();
        let ghost made_of = payload_of(Seq::empty(), credential_with_key, capabilities@, LeafNodeSourceView::Update, extensions@);
        let ghost tree_info = tree_info_tbs@;
        let r = LeafNode::generate_update(config, credential_with_key, capabilities, extensions, tree_info_tbs, backend, signer);
        proof {
            let randomness = choose|randomness: Option<Seq<u8>>|
                is_randomness_for(config, randomness) && fresh_leaf_view(r) == #[trigger] spec_fresh_leaf_node(config, signer@, made_of, tree_info, randomness);
            let rest = with_source(self@.payload, LeafNodeSourceView::Update);
            assert forall|key: Seq<u8>| #[trigger] with_encryption_key(made_of, key) == with_encryption_key(rest, key) by {}
            assert(fresh_leaf_view(r) == spec_fresh_leaf_node(config, signer@, rest, tree_info, randomness));
        }
        r
    }

    /// The outcome of making a leaf node whose encryption key pair was then
    /// handed to a key store: the leaf node where the store took the key
    /// pair, else the error of the store.
    pub fn after_storing<KeyStoreError>(leaf_node: LeafNode, stored: Result<(), KeyStoreError>) -> (r: Result<LeafNode, LeafNodeGenerationError<KeyStoreError>>)
        ensures
            stored is Ok ==> r == Ok::<LeafNode, LeafNodeGenerationError<KeyStoreError>>(leaf_node),
            stored matches Err(e) ==> r == Err::<LeafNode, LeafNodeGenerationError<KeyStoreError>>(LeafNodeGenerationError::KeyStoreError(e)),
    {
        match stored {
            Ok(()) => Ok(leaf_node),
            Err(e) => Err(LeafNodeGenerationError::KeyStoreError(e)),
        }
    }

    /// The leaf node that a verified node is.
    pub fn from_verifiable(verifiable: VerifiableLeafNode) -> (leaf_node: Self)
        ensures
            leaf_node@ == verifiable.spec_leaf_node(),
    {
        match verifiable {
            VerifiableLeafNode::KeyPackage(v) => LeafNode { payload: v.payload, signature: v.signature },
            VerifiableLeafNode::Update(v) => LeafNode { payload: v.payload, signature: v.signature },
            VerifiableLeafNode::Commit(v) => LeafNode { payload: v.payload, signature: v.signature },
        }
    }
}

/// A leaf node as it comes from the wire: not yet verified.
#[derive(Debug, PartialEq, Eq)]
pub struct LeafNodeIn {
    payload: LeafNodePayload,
    signature: Signature,
}

impl View for LeafNodeIn {
    type V = LeafNodeView;

    closed spec fn view(&self) -> LeafNodeView {
        LeafNodeView { payload: self.payload@, signature: self.signature@ }
    }
}

/// A leaf node of a key package that is yet to be verified.
#[derive(Debug, PartialEq, Eq)]
pub struct VerifiableKeyPackageLeafNode {
    pub payload: LeafNodePayload,
    pub signature: Signature,
}

/// A leaf node of an update that is yet to be verified, with its place in
/// the tree once that is known.
#[derive(Debug, PartialEq, Eq)]
pub struct VerifiableUpdateLeafNode {
    pub payload: LeafNodePayload,
    pub signature: Signature,
    pub tree_position: Option<TreePosition>,
}

/// A leaf node of a commit that is yet to be verified, with its place in
/// the tree once that is known.
#[derive(Debug, PartialEq, Eq)]
pub struct VerifiableCommitLeafNode {
    pub payload: LeafNodePayload,
    pub signature: Signature,
    pub tree_position: Option<TreePosition>,
}

/// A leaf node that is yet to be verified, by its source.
#[derive(Debug, PartialEq, Eq)]
pub enum VerifiableLeafNode {
    KeyPackage(VerifiableKeyPackageLeafNode),
    Update(VerifiableUpdateLeafNode),
    Commit(VerifiableCommitLeafNode),
}

/// What a place that may be known is.
pub open spec fn position_view(position: Option<TreePosition>) -> Option<TreePositionView> {
    match position {
        Some(p) => Some(p@),
        None => None,
    }
}

/// The bytes that were signed for a leaf node in a tree, where its place is
/// known and they can be made.
pub open spec fn spec_positioned_payload(payload: LeafNodePayloadView, position: Option<TreePositionView>) -> Result<Seq<u8>, CodecError> {
    match position {
        None => Err(CodecError::InvalidInput),
        Some(p) => if tbs_encodable(payload, TreeInfoTbsView::Commit(p)) {
            Ok(tbs_encoding(payload, TreeInfoTbsView::Commit(p)))
        } else {
            Err(CodecError::InvalidVectorLength)
        },
    }
}

/// Whether the signature of a leaf node in a tree is accepted under a key:
/// it is not where the place of the node is not known.
pub open spec fn spec_verify_positioned(key: VerificationKeyView, payload: LeafNodePayloadView, position: Option<TreePositionView>, signature: Seq<u8>) -> bool {
    match position {
        None => false,
        Some(p) => spec_verify_leaf_node(key, payload, TreeInfoTbsView::Commit(p), signature),
    }
}

/// The signature of a leaf node in a tree is verified over the bytes that
/// were signed. Where a leaf node was signed for its place in a tree, as an
/// update or for a commit, verifying it with that place accepts the
/// signature exactly where the signature has a form that can be verified and
/// the provider accepts, under the key, the signature that was made of the
/// label and the bytes signed.
pub proof fn lemma_leaf_is_verified_over_what_was_signed(signer: SignatureKeyPairView, key: VerificationKeyView, payload: LeafNodePayloadView, position: TreePositionView, update: bool)
    requires
        spec_sign_leaf_node(signer, payload, if update { TreeInfoTbsView::Update(position) } else { TreeInfoTbsView::Commit(position) }) is Some,
    ensures
        spec_verify_positioned(
            key,
            payload,
            Some(position),
            spec_sign_leaf_node(signer, payload, if update { TreeInfoTbsView::Update(position) } else { TreeInfoTbsView::Commit(position) }).unwrap(),
        ) == (is_verifiable_signature(key.signature_scheme, spec_sign_leaf_node(signer, payload, TreeInfoTbsView::Update(position)).unwrap()) && signature_accepted(
            key.signature_scheme,
            sign_content_encoding(leaf_node_label(), tbs_encoding(payload, TreeInfoTbsView::Update(position))),
            key.value,
            spec_sign_leaf_node(signer, payload, TreeInfoTbsView::Update(position)).unwrap(),
        )),
{
    let update_info = TreeInfoTbsView::Update(position);
    let commit_info = TreeInfoTbsView::Commit(position);
    assert(tbs_encoding(payload, update_info) == tbs_encoding(payload, commit_info));
    assert(tbs_encodable(payload, update_info) == tbs_encodable(payload, commit_info));
    assert(spec_sign_leaf_node(signer, payload, update_info) == spec_sign_leaf_node(signer, payload, commit_info));
}

impl LeafNodeIn {
    /// The leaf node with the content and the signature that came from the
    /// wire.
    pub fn new(payload: LeafNodePayload, signature: Signature) -> (r: Self)
        ensures
            r@ == (LeafNodeView { payload: payload@, signature: signature@ }),
    {
        LeafNodeIn { payload, signature }
    }

    /// The leaf node as one to be verified, by its source.
    pub fn into_verifiable_leaf_node(self) -> (v: VerifiableLeafNode)
        ensures
            v.spec_leaf_node() == self@,
            v.spec_tree_position() is None,
            match self@.payload.leaf_node_source {
                LeafNodeSourceView::KeyPackage(_) => v is KeyPackage,
                LeafNodeSourceView::Update => v is Update,
                LeafNodeSourceView::Commit(_) => v is Commit,
            },
    {
        match self.payload.leaf_node_source {
            LeafNodeSource::KeyPackage(_) => {
                let verifiable = VerifiableKeyPackageLeafNode { payload: self.payload, signature: self.signature };
                VerifiableLeafNode::KeyPackage(verifiable)
            },
            LeafNodeSource::Update => {
                let verifiable = VerifiableUpdateLeafNode { payload: self.payload, signature: self.signature, tree_position: None };
                VerifiableLeafNode::Update(verifiable)
            },
            LeafNodeSource::Commit(_) => {
                let verifiable = VerifiableCommitLeafNode { payload: self.payload, signature: self.signature, tree_position: None };
                VerifiableLeafNode::Commit(verifiable)
            },
        }
    }

    /// The signature key.
    pub fn signature_key(&self) -> (k: &SignaturePublicKey)
        ensures
            k@ == self@.payload.signature_key,
    {
        &self.payload.signature_key
    }

    /// The credential.
    pub fn credential(&self) -> (c: &Credential)
        ensures
            c@ == self@.payload.credential,
    {
        &self.payload.credential
    }

    /// The leaf node as it goes to the wire.
    pub fn from_leaf_node(leaf_node: LeafNode) -> (r: Self)
        ensures
            r@ == leaf_node@,
    {
        LeafNodeIn { payload: leaf_node.payload, signature: leaf_node.signature }
    }

    /// The leaf node taken as it is, without verifying it.
    pub fn into_leaf_node(self) -> (r: LeafNode)
        ensures
            r@ == self@,
    {
        LeafNode { payload: self.payload, signature: self.signature }
    }
}

impl From<LeafNode> for LeafNodeIn {
    fn from(leaf_node: LeafNode) -> (r: Self) {
        LeafNodeIn { payload: leaf_node.payload, signature: leaf_node.signature }
    }
}

impl vstd::std_specs::convert::FromSpecImpl<LeafNode> for LeafNodeIn {
    open spec fn obeys_from_spec() -> bool {
        true
    }

    closed spec fn from_spec(leaf_node: LeafNode) -> Self {
        LeafNodeIn { payload: leaf_node.payload, signature: leaf_node.signature }
    }
}

impl From<LeafNodeIn> for LeafNode {
    fn from(deserialized: LeafNodeIn) -> (r: Self) {
        LeafNode { payload: deserialized.payload, signature: deserialized.signature }
    }
}

impl vstd::std_specs::convert::FromSpecImpl<LeafNodeIn> for LeafNode {
    open spec fn obeys_from_spec() -> bool {
        true
    }

    closed spec fn from_spec(deserialized: LeafNodeIn) -> Self {
        LeafNode { payload: deserialized.payload, signature: deserialized.signature }
    }
}

impl VerifiableLeafNode {
    /// The leaf node that is to be verified.
    pub closed spec fn spec_leaf_node(&self) -> LeafNodeView {
        match self {
            VerifiableLeafNode::KeyPackage(v) => LeafNodeView { payload: v.payload@, signature: v.signature@ },
            VerifiableLeafNode::Update(v) => LeafNodeView { payload: v.payload@, signature: v.signature@ },
            VerifiableLeafNode::Commit(v) => LeafNodeView { payload: v.payload@, signature: v.signature@ },
        }
    }

    /// The place of the leaf node in the tree, where it is known.
    pub closed spec fn spec_tree_position(&self) -> Option<TreePositionView> {
        match self {
            VerifiableLeafNode::KeyPackage(_) => None,
            VerifiableLeafNode::Update(v) => position_view(v.tree_position),
            VerifiableLeafNode::Commit(v) => position_view(v.tree_position),
        }
    }

    /// Whether the signature of the leaf node is accepted under a key: that
    /// of a node of a key package over its content, that of a node in a tree
    /// over its content and its place.
    pub open spec fn spec_verifies(&self, key: VerificationKeyView) -> bool {
        match self {
            VerifiableLeafNode::KeyPackage(_) => spec_verify_leaf_node(key, self.spec_leaf_node().payload, TreeInfoTbsView::KeyPackage, self.spec_leaf_node().signature),
            _ => spec_verify_positioned(key, self.spec_leaf_node().payload, self.spec_tree_position(), self.spec_leaf_node().signature),
        }
    }

    /// The signature key.
    pub fn signature_key(&self) -> (k: &SignaturePublicKey)
        ensures
            k@ == self.spec_leaf_node().payload.signature_key,
    {
        match self {
            VerifiableLeafNode::KeyPackage(v) => v.signature_key(),
            VerifiableLeafNode::Update(v) => v.signature_key(),
            VerifiableLeafNode::Commit(v) => v.signature_key(),
        }
    }

    /// Verifies the signature of the leaf node under a key, and gives the
    /// leaf node where it is accepted. Fails with `VerificationError` where
    /// it is not.
    pub fn verify(self, backend: &OpenMlsRustCrypto, key: &OpenMlsSignaturePublicKey) -> (r: Result<LeafNode, SignatureError>)
        ensures
            r is Ok == self.spec_verifies(key@),
            r matches Ok(leaf_node) ==> leaf_node@ == self.spec_leaf_node(),
            r matches Err(e) ==> e == SignatureError::VerificationError,
    {
        let accepted = match &self {
            VerifiableLeafNode::KeyPackage(v) => v.verify_signature(backend, key),
            VerifiableLeafNode::Update(v) => v.verify_signature(backend, key),
            VerifiableLeafNode::Commit(v) => v.verify_signature(backend, key),
        };
        if accepted {
            Ok(LeafNode::from_verifiable(self))
        } else {
            Err(SignatureError::VerificationError)
        }
    }
}

/// Whether the bytes signed for a leaf node verify under a key with the
/// signature given.
fn verify_encoded(backend: &OpenMlsRustCrypto, key: &OpenMlsSignaturePublicKey, payload: &LeafNodePayload, tree_info: &TreeInfoTbs, signature: &Signature) -> (b: bool)
    ensures
        b == spec_verify_leaf_node(key@, payload@, tree_info@, signature@),
{
    match encode_tbs(payload, tree_info) {
        Ok(tbs) => key.verify_with_label(backend, "LeafNodeTBS", tbs.as_slice(), signature).is_ok(),
        Err(_) => false,
    }
}

impl VerifiableKeyPackageLeafNode {
    /// The signature key.
    pub fn signature_key(&self) -> (k: &SignaturePublicKey)
        ensures
            k@ == self.payload@.signature_key,
    {
        &self.payload.signature_key
    }

    /// The bytes that were signed.
    pub fn unsigned_payload(&self) -> (r: Result<Vec<u8>, CodecError>)
        ensures
            payload_encodable(self.payload@) ==> r is Ok && r.unwrap()@ == payload_encoding(self.payload@),
            !payload_encodable(self.payload@) ==> r == Err::<Vec<u8>, CodecError>(CodecError::InvalidVectorLength),
    {
        let mut out: Vec<u8> = Vec::new();
        match self.payload.append_encoding(&mut out) {
            Ok(()) => {
                assert(out@ == payload_encoding(self.payload@));
                Ok(out)
            },
            Err(e) => Err(e),
        }
    }

    /// The signature.
    pub fn signature(&self) -> (s: &Signature)
        ensures
            s@ == self.signature@,
    {
        &self.signature
    }

    /// The label under which the bytes were signed.
    pub fn label(&self) -> (l: &'static str)
        ensures
            l.spec_bytes() == leaf_node_label(),
    {
        "LeafNodeTBS"
    }

    /// Whether the signature is accepted under a key.
    pub fn verify_signature(&self, backend: &OpenMlsRustCrypto, key: &OpenMlsSignaturePublicKey) -> (b: bool)
        ensures
            b == spec_verify_leaf_node(key@, self.payload@, TreeInfoTbsView::KeyPackage, self.signature@),
    {
        verify_encoded(backend, key, &self.payload, &TreeInfoTbs::KeyPackage, &self.signature)
    }
}

impl VerifiableUpdateLeafNode {
    /// Tells the place of the leaf node in the tree.
    pub fn add_tree_position(&mut self, tree_info: TreePosition)
        ensures
            final(self).payload == old(self).payload,
            final(self).signature == old(self).signature,
            final(self).tree_position == Some(tree_info),
    {
        self.tree_position = Some(tree_info);
    }

    /// The signature key.
    pub fn signature_key(&self) -> (k: &SignaturePublicKey)
        ensures
            k@ == self.payload@.signature_key,
    {
        &self.payload.signature_key
    }

    /// The bytes that were signed. Fails with `InvalidInput` where the place
    /// of the leaf node is not known.
    pub fn unsigned_payload(&self) -> (r: Result<Vec<u8>, CodecError>)
        ensures
            r is Ok == spec_positioned_payload(self.payload@, position_view(self.tree_position)) is Ok,
            r matches Ok(bytes) ==> spec_positioned_payload(self.payload@, position_view(self.tree_position)) == Ok::<Seq<u8>, CodecError>(bytes@),
            r matches Err(e) ==> spec_positioned_payload(self.payload@, position_view(self.tree_position)) == Err::<Seq<u8>, CodecError>(e),
    {
        let tree_info_tbs = match &self.tree_position {
            Some(tree_position) => TreeInfoTbs::Commit(tree_position.duplicate()),
            None => {
                return Err(CodecError::InvalidInput);
            },
        };
        encode_tbs(&self.payload, &tree_info_tbs)
    }

    /// The signature.
    pub fn signature(&self) -> (s: &Signature)
        ensures
            s@ == self.signature@,
    {
        &self.signature
    }

    /// The label under which the bytes were signed.
    pub fn label(&self) -> (l: &'static str)
        ensures
            l.spec_bytes() == leaf_node_label(),
    {
        "LeafNodeTBS"
    }

    /// Whether the signature is accepted under a key.
    pub fn verify_signature(&self, backend: &OpenMlsRustCrypto, key: &OpenMlsSignaturePublicKey) -> (b: bool)
        ensures
            b == spec_verify_positioned(key@, self.payload@, position_view(self.tree_position), self.signature@),
    {
        match &self.tree_position {
            Some(tree_position) => verify_encoded(backend, key, &self.payload, &TreeInfoTbs::Commit(tree_position.duplicate()), &self.signature),
            None => false,
        }
    }
}

impl VerifiableCommitLeafNode {
    /// Tells the place of the leaf node in the tree.
    pub fn add_tree_position(&mut self, tree_info: TreePosition)
        ensures
            final(self).payload == old(self).payload,
            final(self).signature == old(self).signature,
            final(self).tree_position == Some(tree_info),
    {
        self.tree_position = Some(tree_info);
    }

    /// The signature key.
    pub fn signature_key(&self) -> (k: &SignaturePublicKey)
        ensures
            k@ == self.payload@.signature_key,
    {
        &self.payload.signature_key
    }

    /// The bytes that were signed. Fails with `InvalidInput` where the place
    /// of the leaf node is not known.
    pub fn unsigned_payload(&self) -> (r: Result<Vec<u8>, CodecError>)
        ensures
            r is Ok == spec_positioned_payload(self.payload@, position_view(self.tree_position)) is Ok,
            r matches Ok(bytes) ==> spec_positioned_payload(self.payload@, position_view(self.tree_position)) == Ok::<Seq<u8>, CodecError>(bytes@),
            r matches Err(e) ==> spec_positioned_payload(self.payload@, position_view(self.tree_position)) == Err::<Seq<u8>, CodecError>(e),
    {
        let tree_info_tbs = match &self.tree_position {
            Some(tree_position) => TreeInfoTbs::Commit(tree_position.duplicate()),
            None => {
                return Err(CodecError::InvalidInput);
            },
        };
        encode_tbs(&self.payload, &tree_info_tbs)
    }

    /// The signature.
    pub fn signature(&self) -> (s: &Signature)
        ensures
            s@ == self.signature@,
    {
        &self.signature
    }

    /// The label under which the bytes were signed.
    pub fn label(&self) -> (l: &'static str)
        ensures
            l.spec_bytes() == leaf_node_label(),
    {
        "LeafNodeTBS"
    }

    /// Whether the signature is accepted under a key.
    pub fn verify_signature(&self, backend: &OpenMlsRustCrypto, key: &OpenMlsSignaturePublicKey) -> (b: bool)
        ensures
            b == spec_verify_positioned(key@, self.payload@, position_view(self.tree_position), self.signature@),
    {
        match &self.tree_position {
            Some(tree_position) => verify_encoded(backend, key, &self.payload, &TreeInfoTbs::Commit(tree_position.duplicate()), &self.signature),
            None => false,
        }
    }
}

} // verus!
