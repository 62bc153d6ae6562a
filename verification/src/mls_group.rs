//! The state of a member's group as it is kept between messages, and the
//! form in which it is saved and loaded.

use vstd::prelude::*;
use crate::bytes::copy_bytes;
use crate::codec::append_u16;
use crate::codec::append_u64;
use crate::codec::append_vector;
use crate::codec::u16_encoding;
use crate::codec::u64_encoding;
use crate::codec::vector_encoding;
use crate::codec::CodecError;
use crate::codec::MAX_VECTOR_LENGTH;
use crate::extensions::extensions_encodable;
use crate::extensions::extensions_encoding;
use crate::extensions::ExtensionView;
use crate::extensions::Extensions;
use crate::framing::PrivateMessage;
use crate::framing::PrivateMessageIn;
use crate::framing::Sender;
use crate::framing::WireFormat;
use crate::group::GroupEpoch;
use crate::group::GroupId;
use crate::keys::SignatureKeyPair;
use crate::keys::SignaturePublicKey;
use crate::leaf_node::LeafNode;
use crate::message_secrets::epochs_after_add;
use crate::message_secrets::is_store_decryption;
use crate::message_secrets::is_window_before;
use crate::message_secrets::lemma_window_advances;
use crate::message_secrets::lemma_window_keeps;
use crate::message_secrets::MessageDecryptionError;
use crate::message_secrets::MessageSecrets;
use crate::message_secrets::MessageSecretsStore;
use crate::message_secrets::MessageSecretsStoreView;
use crate::message_secrets::MessageSecretsView;
use openmls_rust_crypto::OpenMlsRustCrypto;
use crate::bytes::bytes_equal;
use crate::private_message::is_encryption_with;
use crate::private_message::opened_view;
use crate::private_message::sealed_view;
use crate::private_message::spec_verify_message;
use crate::private_message::MessageEncryptionError;
use crate::private_message::VerifiableApplicationMessage;
use crate::private_message::VerifiableMessageView;
use crate::signable::OpenMlsSignaturePublicKey;
use crate::signable::VerificationKeyView;
use crate::schedule::spec_key_schedule;
use crate::schedule::EpochSecrets;
use crate::schedule::EpochSecretsView;
use crate::schedule::InitSecret;
use crate::schedule::JoinerSecret;
use crate::schedule::KeySchedule;
use crate::secret::extracted_secret;
use crate::secret::option_view;
use crate::secret::Secret;
use crate::secret::SecretView;
use crate::secret_tree::LeafRatchetsView;
use crate::secret_tree::SecretTree;
use crate::secret_tree::SecretTreeView;
use crate::ratchet_tree::spec_tree_hash;
use crate::ratchet_tree::RatchetTree;
use crate::ratchet_tree::RatchetTreeView;
use crate::tree_math::TreeSize;
use crate::sender_ratchet::SenderRatchetConfiguration;
use crate::tree_math::LeafNodeIndex;
use crate::types::Ciphersuite;
use crate::types::CryptoConfig;
use crate::types::ProtocolVersion;

verus! {

/// Which wire formats a group accepts and sends.
#[derive(Clone, Copy, Debug, PartialEq, Eq, Structural)]
pub enum WireFormatPolicy {
    /// Messages are signed but not encrypted.
    PurePlaintext,
    /// Messages are encrypted.
    PureCiphertext,
    /// Messages of either kind are accepted.
    Mixed,
}

impl WireFormatPolicy {
    /// Whether the policy accepts an incoming message of a wire format: a
    /// message for a group of the kind that the policy names, or of either
    /// kind where it is mixed.
    pub open spec fn spec_accepts_incoming(self, wire_format: WireFormat) -> bool {
        match self {
            WireFormatPolicy::PurePlaintext => wire_format == WireFormat::PublicMessage,
            WireFormatPolicy::PureCiphertext => wire_format == WireFormat::PrivateMessage,
            WireFormatPolicy::Mixed => wire_format == WireFormat::PublicMessage || wire_format == WireFormat::PrivateMessage,
        }
    }

    /// Whether the policy accepts an incoming message of a wire format.
    pub fn accepts_incoming(&self, wire_format: WireFormat) -> (b: bool)
        ensures
            b == self.spec_accepts_incoming(wire_format),
    {
        match self {
            WireFormatPolicy::PurePlaintext => wire_format == WireFormat::PublicMessage,
            WireFormatPolicy::PureCiphertext => wire_format == WireFormat::PrivateMessage,
            WireFormatPolicy::Mixed => wire_format == WireFormat::PublicMessage || wire_format == WireFormat::PrivateMessage,
        }
    }
}

/// One who may send proposals from outside the group.
#[derive(Debug, PartialEq, Eq)]
pub struct ExternalSender {
    pub signature_key: SignaturePublicKey,
    pub identity: Vec<u8>,
}

/// How a group is set up.
#[derive(Debug, PartialEq, Eq)]
pub struct MlsGroupConfig {
    /// Which wire formats the group accepts and sends.
    pub wire_format_policy: WireFormatPolicy,
    /// The size that encrypted messages are padded to a multiple of.
    pub padding_size: usize,
    /// How many past epochs the secrets are kept of.
    pub max_past_epochs: usize,
    /// Whether the ratchet tree goes with group descriptions and welcomes.
    pub use_ratchet_tree_extension: bool,
    /// How far from the head of a ratchet a message may be.
    pub sender_ratchet_configuration: SenderRatchetConfiguration,
    /// The ciphersuite and the protocol version.
    pub crypto_config: CryptoConfig,
    /// Who may send proposals from outside the group.
    pub external_senders: Vec<ExternalSender>,
}

impl MlsGroupConfig {
    /// A builder of configurations.
    pub fn builder() -> (b: MlsGroupConfigBuilder)
        ensures
            b.config.wire_format_policy == WireFormatPolicy::PureCiphertext,
            b.config.padding_size == 0,
            b.config.max_past_epochs == 0,
            !b.config.use_ratchet_tree_extension,
            b.config.sender_ratchet_configuration == (SenderRatchetConfiguration { out_of_order_tolerance: 5, maximum_forward_distance: 1000 }),
            b.config.crypto_config == (CryptoConfig { ciphersuite: Ciphersuite::MLS_128_DHKEMX25519_AES128GCM_SHA256_Ed25519, version: ProtocolVersion::Mls10 }),
            b.config.external_senders@ == Seq::<ExternalSender>::empty(),
    {
        MlsGroupConfigBuilder::new()
    }

    /// Which wire formats the group accepts and sends.
    pub fn wire_format_policy(&self) -> (p: WireFormatPolicy)
        ensures
            p == self.wire_format_policy,
    {
        self.wire_format_policy
    }

    /// The size that encrypted messages are padded to a multiple of.
    pub fn padding_size(&self) -> (n: usize)
        ensures
            n == self.padding_size,
    {
        self.padding_size
    }

    /// How many past epochs the secrets are kept of.
    pub fn max_past_epochs(&self) -> (n: usize)
        ensures
            n == self.max_past_epochs,
    {
        self.max_past_epochs
    }

    /// Whether the ratchet tree goes with group descriptions and welcomes.
    pub fn use_ratchet_tree_extension(&self) -> (b: bool)
        ensures
            b == self.use_ratchet_tree_extension,
    {
        self.use_ratchet_tree_extension
    }

    /// How far from the head of a ratchet a message may be.
    pub fn sender_ratchet_configuration(&self) -> (c: &SenderRatchetConfiguration)
        ensures
            *c == self.sender_ratchet_configuration,
    {
        &self.sender_ratchet_configuration
    }

    /// The ciphersuite and the protocol version.
    pub fn crypto_config(&self) -> (c: &CryptoConfig)
        ensures
            *c == self.crypto_config,
    {
        &self.crypto_config
    }
}

/// Puts a configuration together step by step.
#[derive(Debug, PartialEq, Eq)]
pub struct MlsGroupConfigBuilder {
    pub config: MlsGroupConfig,
}

impl MlsGroupConfigBuilder {
    /// A builder that starts from the default configuration: encrypted
    /// messages without padding, no past epochs, no ratchet tree extension,
    /// the default distances of ratchets, the first ciphersuite, no senders
    /// from outside.
    pub fn new() -> (b: Self)
        ensures
            b.config.wire_format_policy == WireFormatPolicy::PureCiphertext,
            b.config.padding_size == 0,
            b.config.max_past_epochs == 0,
            !b.config.use_ratchet_tree_extension,
            b.config.sender_ratchet_configuration == (SenderRatchetConfiguration { out_of_order_tolerance: 5, maximum_forward_distance: 1000 }),
            b.config.crypto_config == (CryptoConfig { ciphersuite: Ciphersuite::MLS_128_DHKEMX25519_AES128GCM_SHA256_Ed25519, version: ProtocolVersion::Mls10 }),
            b.config.external_senders@ == Seq::<ExternalSender>::empty(),
    {
        MlsGroupConfigBuilder {
            config: MlsGroupConfig {
                wire_format_policy: WireFormatPolicy::PureCiphertext,
                padding_size: 0,
                max_past_epochs: 0,
                use_ratchet_tree_extension: false,
                sender_ratchet_configuration: SenderRatchetConfiguration { out_of_order_tolerance: 5, maximum_forward_distance: 1000 },
                crypto_config: CryptoConfig { ciphersuite: Ciphersuite::MLS_128_DHKEMX25519_AES128GCM_SHA256_Ed25519, version: ProtocolVersion::Mls10 },
                external_senders: Vec::new(),
            },
        }
    }

    /// Sets the wire format policy.
    pub fn wire_format_policy(self, wire_format_policy: WireFormatPolicy) -> (b: Self)
        ensures
            b.config == (MlsGroupConfig { wire_format_policy, ..self.config }),
    {
        let mut builder = self;
        builder.config.wire_format_policy = wire_format_policy;
        builder
    }

    /// Sets the padding size.
    pub fn padding_size(self, padding_size: usize) -> (b: Self)
        ensures
            b.config == (MlsGroupConfig { padding_size, ..self.config }),
    {
        let mut builder = self;
        builder.config.padding_size = padding_size;
        builder
    }

    /// Sets how many past epochs the secrets are kept of.
    pub fn max_past_epochs(self, max_past_epochs: usize) -> (b: Self)
        ensures
            b.config == (MlsGroupConfig { max_past_epochs, ..self.config }),
    {
        let mut builder = self;
        builder.config.max_past_epochs = max_past_epochs;
        builder
    }

    /// Sets whether the ratchet tree goes with group descriptions and
    /// welcomes.
    pub fn use_ratchet_tree_extension(self, use_ratchet_tree_extension: bool) -> (b: Self)
        ensures
            b.config == (MlsGroupConfig { use_ratchet_tree_extension, ..self.config }),
    {
        let mut builder = self;
        builder.config.use_ratchet_tree_extension = use_ratchet_tree_extension;
        builder
    }

    /// Sets how far from the head of a ratchet a message may be.
    pub fn sender_ratchet_configuration(self, sender_ratchet_configuration: SenderRatchetConfiguration) -> (b: Self)
        ensures
            b.config == (MlsGroupConfig { sender_ratchet_configuration, ..self.config }),
    {
        let mut builder = self;
        builder.config.sender_ratchet_configuration = sender_ratchet_configuration;
        builder
    }

    /// Sets the ciphersuite and the protocol version.
    pub fn crypto_config(self, crypto_config: CryptoConfig) -> (b: Self)
        ensures
            b.config == (MlsGroupConfig { crypto_config, ..self.config }),
    {
        let mut builder = self;
        builder.config.crypto_config = crypto_config;
        builder
    }

    /// Sets who may send proposals from outside the group.
    pub fn external_senders(self, external_senders: Vec<ExternalSender>) -> (b: Self)
        ensures
            b.config == (MlsGroupConfig { external_senders, ..self.config }),
    {
        let mut builder = self;
        builder.config.external_senders = external_senders;
        builder
    }

    /// The configuration.
    pub fn build(self) -> (c: MlsGroupConfig)
        ensures
            c == self.config,
    {
        self.config
    }
}

/// What the members of a group agree on in an epoch.
#[derive(Debug, PartialEq, Eq)]
pub struct GroupContext {
    pub protocol_version: ProtocolVersion,
    pub ciphersuite: Ciphersuite,
    pub group_id: GroupId,
    pub epoch: GroupEpoch,
    pub tree_hash: Vec<u8>,
    pub confirmed_transcript_hash: Vec<u8>,
    pub extensions: Extensions,
}

/// What a group context is.
pub struct GroupContextView {
    pub protocol_version: ProtocolVersion,
    pub ciphersuite: Ciphersuite,
    pub group_id: Seq<u8>,
    pub epoch: u64,
    pub tree_hash: Seq<u8>,
    pub confirmed_transcript_hash: Seq<u8>,
    pub extensions: Seq<ExtensionView>,
}

impl View for GroupContext {
    type V = GroupContextView;

    open spec fn view(&self) -> GroupContextView {
        GroupContextView {
            protocol_version: self.protocol_version,
            ciphersuite: self.ciphersuite,
            group_id: self.group_id@,
            epoch: self.epoch.0,
            tree_hash: self.tree_hash@,
            confirmed_transcript_hash: self.confirmed_transcript_hash@,
            extensions: self.extensions@,
        }
    }
}

/// The encoding of a group context.
pub open spec fn group_context_encoding(context: GroupContextView) -> Seq<u8> {
    u16_encoding(context.protocol_version.spec_value()) + u16_encoding(context.ciphersuite.spec_value()) + vector_encoding(context.group_id) + u64_encoding(
        context.epoch,
    ) + vector_encoding(context.tree_hash) + vector_encoding(context.confirmed_transcript_hash) + extensions_encoding(context.extensions)
}

/// Whether a group context can be encoded.
pub open spec fn group_context_encodable(context: GroupContextView) -> bool {
    &&& context.group_id.len() <= MAX_VECTOR_LENGTH
    &&& context.tree_hash.len() <= MAX_VECTOR_LENGTH
    &&& context.confirmed_transcript_hash.len() <= MAX_VECTOR_LENGTH
    &&& extensions_encodable(context.extensions)
}

/// The context of the epoch after that of a context: the next epoch, with
/// the tree hash and the confirmed transcript hash given.
pub open spec fn next_context(context: GroupContextView, tree_hash: Seq<u8>, confirmed_transcript_hash: Seq<u8>) -> GroupContextView {
    GroupContextView { epoch: (context.epoch + 1) as u64, tree_hash, confirmed_transcript_hash, ..context }
}

impl GroupContext {
    /// The epoch.
    pub fn epoch(&self) -> (e: GroupEpoch)
        ensures
            e == self.epoch,
    {
        self.epoch
    }

    /// The group.
    pub fn group_id(&self) -> (id: &GroupId)
        ensures
            *id == self.group_id,
    {
        &self.group_id
    }

    /// The hash of the ratchet tree.
    pub fn tree_hash(&self) -> (h: &[u8])
        ensures
            h@ == self@.tree_hash,
    {
        self.tree_hash.as_slice()
    }

    /// The encoding of the context. Fails where the context cannot be
    /// encoded.
    pub fn encode(&self) -> (r: Result<Vec<u8>, CodecError>)
        ensures
            group_context_encodable(self@) ==> r is Ok && r.unwrap()@ == group_context_encoding(self@),
            !group_context_encodable(self@) ==> r == Err::<Vec<u8>, CodecError>(CodecError::InvalidVectorLength),
    {
        let mut out: Vec<u8> = Vec::new();
        append_u16(&mut out, self.protocol_version.value());
        append_u16(&mut out, self.ciphersuite.value());
        match append_vector(&mut out, self.group_id.as_slice()) {
            Err(e) => {
                return Err(e);
            },
            Ok(()) => {},
        }
        append_u64(&mut out, self.epoch.0);
        match append_vector(&mut out, self.tree_hash.as_slice()) {
            Err(e) => {
                return Err(e);
            },
            Ok(()) => {},
        }
        match append_vector(&mut out, self.confirmed_transcript_hash.as_slice()) {
            Err(e) => {
                return Err(e);
            },
            Ok(()) => {},
        }
        match self.extensions.append_encoding(&mut out) {
            Err(e) => {
                return Err(e);
            },
            Ok(()) => {},
        }
        assert(out@ == group_context_encoding(self@));
        Ok(out)
    }

    /// A copy of the context.
    pub fn duplicate(&self) -> (c: Self)
        ensures
            c@ == self@,
    {
        GroupContext {
            protocol_version: self.protocol_version,
            ciphersuite: self.ciphersuite,
            group_id: self.group_id.duplicate(),
            epoch: self.epoch,
            tree_hash: copy_bytes(self.tree_hash.as_slice()),
            confirmed_transcript_hash: copy_bytes(self.confirmed_transcript_hash.as_slice()),
            extensions: self.extensions.duplicate(),
        }
    }

    /// The context of the next epoch, with the tree hash and the confirmed
    /// transcript hash given. None where the epochs are used up.
    pub fn next(self, tree_hash: Vec<u8>, confirmed_transcript_hash: Vec<u8>) -> (r: Option<GroupContext>)
        ensures
            r is Some == (self@.epoch < u64::MAX),
            r matches Some(context) ==> context@ == next_context(self@, tree_hash@, confirmed_transcript_hash@),
    {
        if self.epoch.0 == u64::MAX {
            return None;
        }
        Some(
            GroupContext {
                protocol_version: self.protocol_version,
                ciphersuite: self.ciphersuite,
                group_id: self.group_id,
                epoch: GroupEpoch(self.epoch.0 + 1),
                tree_hash,
                confirmed_transcript_hash,
                extensions: self.extensions,
            },
        )
    }
}

/// The secrets of past epochs that a group can be resumed from.
#[derive(Debug, PartialEq, Eq)]
pub struct ResumptionPskStore {
    pub number_of_secrets: usize,
    pub resumption_psks: Vec<(u64, Vec<u8>)>,
}

/// What the secrets of past epochs are.
pub open spec fn psk_views(psks: Seq<(u64, Vec<u8>)>) -> Seq<(u64, Seq<u8>)> {
    Seq::new(psks.len(), |i: int| (psks[i].0, psks[i].1@))
}

impl ResumptionPskStore {
    /// A store of `number_of_secrets` secrets at most, with none yet.
    pub fn new(number_of_secrets: usize) -> (s: Self)
        ensures
            s.number_of_secrets == number_of_secrets,
            s.resumption_psks@ == Seq::<(u64, Vec<u8>)>::empty(),
    {
        ResumptionPskStore { number_of_secrets, resumption_psks: Vec::new() }
    }

    /// A copy of the store.
    pub fn duplicate(&self) -> (s: Self)
        ensures
            s.number_of_secrets == self.number_of_secrets,
            psk_views(s.resumption_psks@) == psk_views(self.resumption_psks@),
    {
        let mut resumption_psks: Vec<(u64, Vec<u8>)> = Vec::new();
        let n: usize = self.resumption_psks.len();
        let mut i: usize = 0;
        while i < n
            invariant
                n == self.resumption_psks@.len(),
                i <= n,
                resumption_psks@.len() == i,
                forall|j: int| 0 <= j < i ==> psk_views(resumption_psks@)[j] == psk_views(self.resumption_psks@)[j],
            decreases n - i,
        {
            let ghost copied = resumption_psks@;
            let entry = (self.resumption_psks[i].0, copy_bytes(self.resumption_psks[i].1.as_slice()));
            resumption_psks.push(entry);
            assert forall|j: int| 0 <= j < i + 1 implies psk_views(resumption_psks@)[j] == psk_views(self.resumption_psks@)[j] by {
                if j < i {
                    assert(psk_views(copied)[j] == psk_views(self.resumption_psks@)[j]);
                }
            }
            i = i + 1;
        }
        assert(psk_views(resumption_psks@) =~= psk_views(self.resumption_psks@));
        ResumptionPskStore { number_of_secrets: self.number_of_secrets, resumption_psks }
    }
}

/// A proposal that waits to be committed.
#[derive(Debug, PartialEq, Eq)]
pub struct QueuedProposal {
    /// The hash of the encoded proposal, which names it.
    pub proposal_reference: Vec<u8>,
    /// The encoded proposal.
    pub proposal: Vec<u8>,
    pub sender: Sender,
}

/// The proposals that wait to be committed.
#[derive(Debug, PartialEq, Eq)]
pub struct ProposalStore {
    pub queued_proposals: Vec<QueuedProposal>,
}

impl ProposalStore {
    /// A store without proposals.
    pub fn new() -> (s: Self)
        ensures
            s.queued_proposals@ == Seq::<QueuedProposal>::empty(),
    {
        ProposalStore { queued_proposals: Vec::new() }
    }

    /// Adds a proposal.
    pub fn add(&mut self, queued_proposal: QueuedProposal)
        ensures
            final(self).queued_proposals@ == old(self).queued_proposals@.push(queued_proposal),
    {
        self.queued_proposals.push(queued_proposal);
    }

    /// Whether no proposals wait.
    pub fn is_empty(&self) -> (b: bool)
        ensures
            b == (self.queued_proposals@.len() == 0),
    {
        self.queued_proposals.len() == 0
    }

    /// Takes all proposals away.
    pub fn empty(&mut self)
        ensures
            final(self).queued_proposals@ == Seq::<QueuedProposal>::empty(),
    {
        self.queued_proposals.clear();
    }
}

/// The secrets of an epoch that a group keeps beside those that its
/// messages are protected with.
pub struct GroupEpochSecrets {
    pub init_secret: InitSecret,
    pub exporter_secret: Secret,
    pub epoch_authenticator: Secret,
    pub external_secret: Secret,
    pub resumption_psk: Secret,
}

/// The part of the state of a group that changes with the epoch only.
pub struct CoreGroup {
    pub group_context: GroupContext,
    pub tree: RatchetTree,
    pub own_leaf_index: LeafNodeIndex,
    pub group_epoch_secrets: GroupEpochSecrets,
    pub message_secrets_store: MessageSecretsStore,
    pub resumption_psk_store: ResumptionPskStore,
}

/// The state of the next epoch of a group, made and checked but not yet
/// entered.
pub struct StagedEpoch {
    group_context: GroupContext,
    tree: RatchetTree,
    group_epoch_secrets: GroupEpochSecrets,
    message_secrets: MessageSecrets,
}

/// Why the next epoch of a group was not staged.
#[derive(Clone, Copy, Debug, PartialEq, Eq, Structural)]
pub enum StageEpochError {
    /// A node of the tree cannot be encoded, so that the tree has no hash.
    TreeNotEncodable,
    /// The epochs are used up.
    EpochOverflow,
    /// The group context of the next epoch cannot be encoded.
    ContextNotEncodable,
    /// Confirmation tag is invalid.
    ConfirmationTagMismatch,
}

/// Why the core of a group was not made.
#[derive(Clone, Copy, Debug, PartialEq, Eq, Structural)]
pub enum CoreGroupError {
    /// The hash of the ratchet tree is not the tree hash in the group
    /// context.
    TreeHashMismatch,
    /// The group context cannot be encoded.
    ContextNotEncodable,
}

/// The tag that authenticates data under a key.
pub open spec fn spec_tag(key: SecretView, data: Seq<u8>) -> Seq<u8> {
    extracted_secret(key, data).bytes
}

/// The secrets that the messages of an epoch are protected with, of the
/// secrets of the epoch, for the member at a leaf of a tree with a number
/// of leaves.
pub open spec fn message_secrets_of(secrets: EpochSecretsView, serialized_context: Seq<u8>, leaf_count: nat, own_leaf_index: nat) -> MessageSecretsView {
    MessageSecretsView {
        sender_data_secret: secrets.sender_data_secret,
        membership_key: secrets.membership_key,
        confirmation_key: secrets.confirmation_key,
        serialized_context,
        secret_tree: SecretTreeView {
            root: secrets.encryption_secret,
            leaf_count,
            own_index: own_leaf_index,
            ratchets: Seq::new(leaf_count, |l: int| None::<LeafRatchetsView>),
        },
    }
}

/// Whether the secrets that a group keeps of an epoch are those of the
/// secrets of the epoch.
pub open spec fn are_group_secrets_of(kept: GroupEpochSecrets, secrets: EpochSecretsView) -> bool {
    &&& kept.init_secret@ == secrets.init_secret
    &&& kept.exporter_secret@ == secrets.exporter_secret
    &&& kept.epoch_authenticator@ == secrets.epoch_authenticator
    &&& kept.external_secret@ == secrets.external_secret
    &&& kept.resumption_psk@ == secrets.resumption_psk
}

/// The hash of a tree under the ciphersuite of a group context.
pub open spec fn tree_hash_for(context: GroupContextView, tree: RatchetTreeView) -> Option<Seq<u8>> {
    spec_tree_hash(tree, context.ciphersuite.spec_hash_algorithm())
}

/// The group context of the epoch after that of a context, for a tree: the
/// next epoch, with the hash of the tree and the confirmed transcript hash
/// given.
pub open spec fn next_context_for(context: GroupContextView, tree: RatchetTreeView, confirmed_transcript_hash: Seq<u8>) -> GroupContextView {
    next_context(context, tree_hash_for(context, tree).unwrap(), confirmed_transcript_hash)
}

/// The error that stands in the way of the next epoch of a group, if any:
/// the tree has no hash, the epochs are used up, the group context of the
/// next epoch cannot be encoded, or the confirmation tag is not that of the
/// confirmed transcript hash under the confirmation key of the next epoch.
pub open spec fn stage_obstacle(
    context: GroupContextView,
    init_secret: SecretView,
    commit_secret: Option<SecretView>,
    psk_secret: Option<SecretView>,
    tree: RatchetTreeView,
    confirmed_transcript_hash: Seq<u8>,
    confirmation_tag: Seq<u8>,
) -> Option<StageEpochError> {
    let next = next_context_for(context, tree, confirmed_transcript_hash);
    if tree_hash_for(context, tree) is None {
        Some(StageEpochError::TreeNotEncodable)
    } else if context.epoch >= u64::MAX {
        Some(StageEpochError::EpochOverflow)
    } else if !group_context_encodable(next) || group_context_encoding(next).len() > MAX_VECTOR_LENGTH {
        Some(StageEpochError::ContextNotEncodable)
    } else if spec_tag(spec_key_schedule(init_secret, commit_secret, psk_secret, group_context_encoding(next)).confirmation_key, confirmed_transcript_hash)
        != confirmation_tag {
        Some(StageEpochError::ConfirmationTagMismatch)
    } else {
        None
    }
}

impl StagedEpoch {
    /// The trees of the staged epoch are well formed, and the hash of its
    /// ratchet tree is that in its group context.
    pub closed spec fn wf(&self) -> bool {
        &&& self.message_secrets.wf()
        &&& self.tree.wf()
        &&& tree_hash_for(self.group_context@, self.tree@) == Some(self.group_context@.tree_hash)
    }

    /// The ratchet tree of the staged epoch.
    pub closed spec fn spec_tree(&self) -> RatchetTreeView {
        self.tree@
    }

    /// The group context of the staged epoch.
    pub closed spec fn spec_group_context(&self) -> GroupContextView {
        self.group_context@
    }

    /// The secrets that the group keeps of the staged epoch.
    pub closed spec fn spec_group_epoch_secrets(&self) -> GroupEpochSecrets {
        self.group_epoch_secrets
    }

    /// The secrets that the messages of the staged epoch are protected
    /// with.
    pub closed spec fn spec_message_secrets(&self) -> MessageSecretsView {
        self.message_secrets@
    }

    /// The group context of the staged epoch.
    pub fn group_context(&self) -> (c: &GroupContext)
        ensures
            c@ == self.spec_group_context(),
    {
        &self.group_context
    }

    /// The epoch authenticator of the staged epoch.
    pub fn epoch_authenticator(&self) -> (s: &Secret)
        ensures
            s@ == self.spec_group_epoch_secrets().epoch_authenticator@,
    {
        &self.group_epoch_secrets.epoch_authenticator
    }
}

impl CoreGroup {
    /// The ratchet tree and the store of secrets are well formed; the hash
    /// of the ratchet tree is the tree hash in the group context; and the
    /// past epochs that the store keeps are the epochs before that of the
    /// group.
    pub open spec fn wf(&self) -> bool {
        &&& self.tree.wf()
        &&& tree_hash_for(self.group_context@, self.tree@) == Some(self.group_context@.tree_hash)
        &&& self.message_secrets_store.wf()
        &&& is_window_before(self.message_secrets_store@, self.group_context.epoch.0)
    }

    /// The core of a group in an epoch with the ratchet tree and the
    /// secrets given, for the member at a leaf. From that epoch on the group
    /// keeps the secrets of `max_past_epochs` past epochs at most. Fails with
    /// `TreeHashMismatch` where the hash of the tree is not the tree hash in
    /// the group context, and with `ContextNotEncodable` where the group
    /// context cannot be encoded.
    pub fn new(
        backend: &OpenMlsRustCrypto,
        group_context: GroupContext,
        tree: RatchetTree,
        own_leaf_index: LeafNodeIndex,
        max_past_epochs: usize,
        epoch_secrets: EpochSecrets,
        resumption_psk_store: ResumptionPskStore,
    ) -> (r: Result<Self, CoreGroupError>)
        requires
            tree.wf(),
        ensures
            r is Ok == (tree_hash_for(group_context@, tree@) == Some(group_context@.tree_hash) && group_context_encodable(group_context@)),
            r matches Err(e) ==> e == (if tree_hash_for(group_context@, tree@) == Some(group_context@.tree_hash) {
                CoreGroupError::ContextNotEncodable
            } else {
                CoreGroupError::TreeHashMismatch
            }),
            r matches Ok(g) ==> g.wf() && g.group_context == group_context && g.tree == tree && g.own_leaf_index == own_leaf_index && g.resumption_psk_store
                == resumption_psk_store && are_group_secrets_of(g.group_epoch_secrets, epoch_secrets@),
            r matches Ok(g) ==> g.message_secrets_store@ == (MessageSecretsStoreView {
                max_epochs: max_past_epochs as nat,
                past_epochs: Seq::empty(),
                past_secrets: Seq::empty(),
                message_secrets: message_secrets_of(epoch_secrets@, group_context_encoding(group_context@), tree@.leaves.len(), own_leaf_index.0 as nat),
            }),
    {
        proof {
            tree.lemma_wf();
        }
        let matches = match tree.tree_hash(backend, group_context.ciphersuite.hash_algorithm()) {
            Some(hash) => bytes_equal(hash.as_slice(), group_context.tree_hash.as_slice()),
            None => false,
        };
        if !matches {
            return Err(CoreGroupError::TreeHashMismatch);
        }
        let serialized_context = match group_context.encode() {
            Ok(bytes) => bytes,
            Err(_) => {
                return Err(CoreGroupError::ContextNotEncodable);
            },
        };
        let (group_epoch_secrets, message_secrets) = split_epoch_secrets(epoch_secrets, serialized_context, tree.size(), own_leaf_index);
        Ok(
            CoreGroup {
                group_context,
                tree,
                own_leaf_index,
                group_epoch_secrets,
                message_secrets_store: MessageSecretsStore::new_with_secret(max_past_epochs, message_secrets),
                resumption_psk_store,
            },
        )
    }

    /// In every epoch of a group, the hash of its ratchet tree is the tree
    /// hash in its group context.
    pub proof fn lemma_tree_hash_is_in_context(&self)
        requires
            self.wf(),
        ensures
            spec_tree_hash(self.tree@, self.group_context@.ciphersuite.spec_hash_algorithm()) == Some(self.group_context@.tree_hash),
    {
    }

    /// The epoch authenticator of the epoch of the group.
    pub fn epoch_authenticator(&self) -> (s: &Secret)
        ensures
            *s == self.group_epoch_secrets.epoch_authenticator,
    {
        &self.group_epoch_secrets.epoch_authenticator
    }

    /// Makes the state of the next epoch, with the ratchet tree given, and
    /// checks the confirmation tag of the commit that leads to it. The
    /// group stays as it is: the epoch is entered when the staged epoch is
    /// merged.
    ///
    /// The group context of the next epoch has the next epoch number, the
    /// hash of the tree and the confirmed transcript hash given. Its
    /// secrets are those that the key schedule derives from the init secret
    /// of the group, the commit secret, the pre-shared key secret and the
    /// encoded group context of the next epoch.
    pub fn stage_epoch(
        &self,
        backend: &OpenMlsRustCrypto,
        commit_secret: Option<&Secret>,
        psk_secret: Option<&Secret>,
        tree: RatchetTree,
        confirmed_transcript_hash: Vec<u8>,
        confirmation_tag: &[u8],
    ) -> (r: Result<StagedEpoch, StageEpochError>)
        requires
            tree.wf(),
        ensures
            r is Ok == stage_obstacle(
                self.group_context@,
                self.group_epoch_secrets.init_secret@,
                option_view(commit_secret),
                option_view(psk_secret),
                tree@,
                confirmed_transcript_hash@,
                confirmation_tag@,
            ) is None,
            r matches Err(e) ==> stage_obstacle(
                self.group_context@,
                self.group_epoch_secrets.init_secret@,
                option_view(commit_secret),
                option_view(psk_secret),
                tree@,
                confirmed_transcript_hash@,
                confirmation_tag@,
            ) == Some(e),
            r matches Ok(staged) ==> staged.wf() && staged.spec_tree() == tree@ && staged.spec_group_context() == next_context_for(
                self.group_context@,
                tree@,
                confirmed_transcript_hash@,
            ),
            r matches Ok(staged) ==> are_group_secrets_of(
                staged.spec_group_epoch_secrets(),
                spec_key_schedule(
                    self.group_epoch_secrets.init_secret@,
                    option_view(commit_secret),
                    option_view(psk_secret),
                    group_context_encoding(staged.spec_group_context()),
                ),
            ),
            r matches Ok(staged) ==> staged.spec_message_secrets() == message_secrets_of(
                spec_key_schedule(
                    self.group_epoch_secrets.init_secret@,
                    option_view(commit_secret),
                    option_view(psk_secret),
                    group_context_encoding(staged.spec_group_context()),
                ),
                group_context_encoding(staged.spec_group_context()),
                tree@.leaves.len(),
                self.own_leaf_index.0 as nat,
            ),
    {
        proof {
            tree.lemma_wf();
        }
        let tree_hash = match tree.tree_hash(backend, self.group_context.ciphersuite.hash_algorithm()) {
            Some(hash) => hash,
            None => {
                return Err(StageEpochError::TreeNotEncodable);
            },
        };
        let group_context = match self.group_context.duplicate().next(tree_hash, confirmed_transcript_hash) {
            Some(context) => context,
            None => {
                return Err(StageEpochError::EpochOverflow);
            },
        };
        let serialized_context = match group_context.encode() {
            Ok(bytes) => bytes,
            Err(_) => {
                return Err(StageEpochError::ContextNotEncodable);
            },
        };
        if serialized_context.len() > MAX_VECTOR_LENGTH {
            return Err(StageEpochError::ContextNotEncodable);
        }
        let init_secret = self.group_epoch_secrets.init_secret.duplicate();
        let joiner_secret = match JoinerSecret::new(backend, commit_secret, init_secret, serialized_context.as_slice()) {
            Ok(joiner) => joiner,
            Err(_) => {
                return Err(StageEpochError::ContextNotEncodable);
            },
        };
        let key_schedule = KeySchedule::init(backend, joiner_secret, psk_secret);
        let epoch_secrets = match key_schedule.epoch_secrets(backend, serialized_context.as_slice()) {
            Ok(secrets) => secrets,
            Err(_) => {
                return Err(StageEpochError::ContextNotEncodable);
            },
        };
        let own_tag = tag(backend, epoch_secrets.confirmation_key(), group_context.confirmed_transcript_hash.as_slice());
        if !bytes_equal(own_tag.as_slice(), confirmation_tag) {
            return Err(StageEpochError::ConfirmationTagMismatch);
        }
        let (group_epoch_secrets, message_secrets) = split_epoch_secrets(epoch_secrets, serialized_context, tree.size(), self.own_leaf_index);
        Ok(StagedEpoch { group_context, tree, group_epoch_secrets, message_secrets })
    }

    /// Enters the epoch that was staged. The secrets that the messages of
    /// the epoch that ends were protected with go to the past epochs of the
    /// store; its other secrets are dropped.
    pub fn merge_staged_epoch(&mut self, staged: StagedEpoch)
        requires
            old(self).wf(),
            staged.wf(),
            staged.spec_group_context().epoch == old(self).group_context@.epoch + 1,
        ensures
            final(self).wf(),
            final(self).group_context@ == staged.spec_group_context(),
            final(self).tree@ == staged.spec_tree(),
            final(self).group_epoch_secrets == staged.spec_group_epoch_secrets(),
            final(self).own_leaf_index == old(self).own_leaf_index,
            final(self).resumption_psk_store == old(self).resumption_psk_store,
            final(self).message_secrets_store@ == (MessageSecretsStoreView {
                max_epochs: old(self).message_secrets_store@.max_epochs,
                past_epochs: epochs_after_add(old(self).message_secrets_store@.max_epochs, old(self).message_secrets_store@.past_epochs, old(self).group_context@.epoch),
                past_secrets: epochs_after_add(
                    old(self).message_secrets_store@.max_epochs,
                    old(self).message_secrets_store@.past_secrets,
                    old(self).message_secrets_store@.message_secrets,
                ),
                message_secrets: staged.spec_message_secrets(),
            }),
    {
        let past_epoch: u64 = self.group_context.epoch.0;
        proof {
            lemma_window_advances(self.message_secrets_store@, past_epoch);
        }
        let previous = self.message_secrets_store.replace_message_secrets(staged.message_secrets);
        self.message_secrets_store.add(past_epoch, previous);
        self.group_context = staged.group_context;
        self.tree = staged.tree;
        self.group_epoch_secrets = staged.group_epoch_secrets;
    }

    /// The secrets that a message of an epoch is protected with: those of
    /// the epoch of the group, or of a past epoch that the store keeps.
    /// Fails with `AeadError` where the message is of a past epoch that is
    /// not kept.
    pub fn message_secrets_for(&self, message_epoch: GroupEpoch) -> (r: Result<&MessageSecrets, MessageDecryptionError>)
        requires
            self.wf(),
        ensures
            r is Ok == has_secrets_for(self.group_context@.epoch, self.message_secrets_store@.past_epochs.len(), message_epoch.0),
            r matches Err(e) ==> e == MessageDecryptionError::AeadError,
            r matches Ok(secrets) ==> secrets.wf(),
            r matches Ok(secrets) ==> message_epoch.0 >= self.group_context@.epoch ==> secrets@ == self.message_secrets_store@.message_secrets,
    {
        proof {
            if message_epoch.0 < self.group_context.epoch.0 {
                lemma_window_keeps(self.message_secrets_store@, self.group_context.epoch.0, (self.group_context.epoch.0 - message_epoch.0) as u64);
            }
        }
        self.message_secrets_store.secrets_for_message(self.group_context.epoch.0, message_epoch.0)
    }
}

/// Failures of processing an application message.
#[derive(Clone, Copy, Debug, PartialEq, Eq, Structural)]
pub enum ProcessMessageError {
    /// The message was not decrypted.
    DecryptionError(MessageDecryptionError),
    /// The message names a sender that is at no leaf of the ratchet tree.
    UnknownSender,
    /// The signature of the sender was not accepted.
    InvalidSignature,
}

/// Whether two states of a group differ in the store of secrets at most.
pub open spec fn differ_in_store_only(before: CoreGroup, after: CoreGroup) -> bool {
    &&& after.group_context == before.group_context
    &&& after.tree == before.tree
    &&& after.own_leaf_index == before.own_leaf_index
    &&& after.group_epoch_secrets == before.group_epoch_secrets
    &&& after.resumption_psk_store == before.resumption_psk_store
}

/// The data of the application that the outcome of a decryption gives once
/// the signature of the sender is verified under the signature key of the
/// sender's leaf in a ratchet tree. Fails with `UnknownSender` where the
/// sender is at no leaf of the tree, and with `InvalidSignature` where the
/// signature is not accepted.
pub open spec fn spec_verified_data(tree: RatchetTreeView, ciphersuite: Ciphersuite, version: ProtocolVersion, opened: Result<VerifiableMessageView, MessageDecryptionError>) -> Result<
    Seq<u8>,
    ProcessMessageError,
> {
    match opened {
        Err(e) => Err(ProcessMessageError::DecryptionError(e)),
        Ok(message) => if message.sender.0 >= tree.leaves.len() || tree.leaves[message.sender.0 as int] is None {
            Err(ProcessMessageError::UnknownSender)
        } else if spec_verify_message(
            message,
            VerificationKeyView {
                signature_scheme: ciphersuite.spec_signature_algorithm(),
                value: tree.leaves[message.sender.0 as int]->Some_0.payload.signature_key,
            },
            version,
        ) {
            Ok(message.data)
        } else {
            Err(ProcessMessageError::InvalidSignature)
        },
    }
}

/// The data that processing gave, if any.
pub open spec fn processed_view(r: Result<Vec<u8>, ProcessMessageError>) -> Result<Seq<u8>, ProcessMessageError> {
    match r {
        Ok(data) => Ok(data@),
        Err(e) => Err(e),
    }
}

impl CoreGroup {
    /// Signs and encrypts data of the application as a message of the
    /// member that this state is of, in the epoch of the group. The next
    /// generation of the member's application ratchet is used up.
    pub fn create_application_message(&mut self, backend: &OpenMlsRustCrypto, signer: &SignatureKeyPair, authenticated_data: &[u8], data: &[u8], padding_size: usize) -> (r: Result<
        PrivateMessage,
        MessageEncryptionError,
    >)
        requires
            old(self).wf(),
        ensures
            final(self).wf(),
            differ_in_store_only(*old(self), *final(self)),
            final(self).message_secrets_store@ == (MessageSecretsStoreView {
                message_secrets: final(self).message_secrets_store@.message_secrets,
                ..old(self).message_secrets_store@
            }),
            is_encryption_with(
                old(self).message_secrets_store@.message_secrets,
                final(self).message_secrets_store@.message_secrets,
                sealed_view(r),
                old(self).group_context@.ciphersuite,
                old(self).group_context@.protocol_version,
                old(self).group_context@.group_id,
                old(self).group_context@.epoch,
                old(self).own_leaf_index,
                signer@,
                authenticated_data@,
                data@,
                padding_size as nat,
            ),
    {
        self.message_secrets_store.encrypt_application_message(
            backend,
            self.group_context.ciphersuite,
            self.group_context.protocol_version,
            &self.group_context.group_id,
            self.group_context.epoch,
            self.own_leaf_index,
            signer,
            authenticated_data,
            data,
            padding_size,
        )
    }

    /// Decrypts an application message with the secrets of its epoch, which
    /// uses up the generation of the sender's ratchet that the message is
    /// of. Fails with `AeadError`, and leaves the group as it was, where the
    /// message is of an epoch further back than the group keeps secrets of.
    pub fn decrypt_application_message(&mut self, backend: &OpenMlsRustCrypto, message: &PrivateMessageIn, configuration: &SenderRatchetConfiguration) -> (r: Result<
        VerifiableApplicationMessage,
        MessageDecryptionError,
    >)
        requires
            old(self).wf(),
        ensures
            final(self).wf(),
            differ_in_store_only(*old(self), *final(self)),
            is_store_decryption(
                old(self).message_secrets_store@,
                final(self).message_secrets_store@,
                opened_view(r),
                old(self).group_context@.epoch,
                old(self).group_context@.ciphersuite,
                message@,
                *configuration,
            ),
            !has_secrets_for(old(self).group_context@.epoch, old(self).message_secrets_store@.past_epochs.len(), message.epoch.0) ==> opened_view(r) == Err::<
                VerifiableMessageView,
                MessageDecryptionError,
            >(MessageDecryptionError::AeadError) && final(self).message_secrets_store@ == old(self).message_secrets_store@,
    {
        proof {
            if message.epoch.0 < self.group_context.epoch.0 {
                lemma_window_keeps(self.message_secrets_store@, self.group_context.epoch.0, (self.group_context.epoch.0 - message.epoch.0) as u64);
            }
        }
        self.message_secrets_store.decrypt_application_message(self.group_context.epoch.0, self.group_context.ciphersuite, backend, message, configuration)
    }

    /// Verifies the signature of a decrypted application message under the
    /// signature key of the sender's leaf in the ratchet tree of the group,
    /// and gives the data of the application.
    pub fn verify_application_message(&self, backend: &OpenMlsRustCrypto, message: VerifiableApplicationMessage) -> (r: Result<Vec<u8>, ProcessMessageError>)
        ensures
            processed_view(r) == spec_verified_data(
                self.tree@,
                self.group_context@.ciphersuite,
                self.group_context@.protocol_version,
                Ok::<VerifiableMessageView, MessageDecryptionError>(message@),
            ),
    {
        let leaf = match self.tree.leaf(message.sender()) {
            Some(leaf) => leaf,
            None => {
                return Err(ProcessMessageError::UnknownSender);
            },
        };
        let key = OpenMlsSignaturePublicKey::from_signature_key(leaf.signature_key().as_slice(), self.group_context.ciphersuite.signature_algorithm());
        match message.verify(backend, &key, self.group_context.protocol_version) {
            Ok(data) => Ok(data),
            Err(_) => Err(ProcessMessageError::InvalidSignature),
        }
    }

    /// Decrypts an application message and verifies the signature of its
    /// sender: gives the data of the application. The generation of the
    /// sender's ratchet that the message is of is used up whether or not the
    /// signature is accepted.
    pub fn process_application_message(&mut self, backend: &OpenMlsRustCrypto, message: &PrivateMessageIn, configuration: &SenderRatchetConfiguration) -> (r: Result<
        Vec<u8>,
        ProcessMessageError,
    >)
        requires
            old(self).wf(),
        ensures
            final(self).wf(),
            differ_in_store_only(*old(self), *final(self)),
            exists|opened: Result<VerifiableMessageView, MessageDecryptionError>|
                is_store_decryption(
                    old(self).message_secrets_store@,
                    final(self).message_secrets_store@,
                    opened,
                    old(self).group_context@.epoch,
                    old(self).group_context@.ciphersuite,
                    message@,
                    *configuration,
                ) && processed_view(r) == #[trigger] spec_verified_data(
                    old(self).tree@,
                    old(self).group_context@.ciphersuite,
                    old(self).group_context@.protocol_version,
                    opened,
                ),
    {
        let opened = self.decrypt_application_message(backend, message, configuration);
        let ghost outcome = opened_view(opened);
        let r = match opened {
            Ok(verifiable) => self.verify_application_message(backend, verifiable),
            Err(e) => Err(ProcessMessageError::DecryptionError(e)),
        };
        assert(processed_view(r) == spec_verified_data(old(self).tree@, old(self).group_context@.ciphersuite, old(self).group_context@.protocol_version, outcome));
        r
    }
}

/// The tag that authenticates data under a key.
pub fn tag(backend: &OpenMlsRustCrypto, key: &Secret, data: &[u8]) -> (t: Vec<u8>)
    ensures
        t@ == spec_tag(key@, data@),
{
    let data_secret = Secret::from_slice(data, key.version(), key.ciphersuite());
    let extracted = key.hkdf_extract(backend, Some(&data_secret));
    copy_bytes(extracted.as_slice())
}

/// Shares out the secrets of an epoch: those that the group keeps, and
/// those that its messages are protected with, with a fresh secret tree.
fn split_epoch_secrets(epoch_secrets: EpochSecrets, serialized_context: Vec<u8>, tree_size: TreeSize, own_leaf_index: LeafNodeIndex) -> (r: (GroupEpochSecrets, MessageSecrets))
    requires
        tree_size.wf(),
    ensures
        are_group_secrets_of(r.0, epoch_secrets@),
        r.1.wf(),
        r.1@ == message_secrets_of(epoch_secrets@, serialized_context@, tree_size.spec_leaf_count(), own_leaf_index.0 as nat),
{
    let parts = epoch_secrets.into_parts();
    let secret_tree = SecretTree::new(parts.encryption_secret, tree_size, own_leaf_index);
    (
        GroupEpochSecrets {
            init_secret: parts.init_secret,
            exporter_secret: parts.exporter_secret,
            epoch_authenticator: parts.epoch_authenticator,
            external_secret: parts.external_secret,
            resumption_psk: parts.resumption_psk,
        },
        MessageSecrets::new(parts.sender_data_secret, parts.membership_key, parts.confirmation_key, serialized_context, secret_tree),
    )
}

/// Whether a group in the epoch `current` that keeps the secrets of `kept`
/// past epochs has the secrets of the epoch `message_epoch`: that epoch is
/// `kept` epochs before the current one at most.
pub open spec fn has_secrets_for(current: u64, kept: nat, message_epoch: u64) -> bool {
    message_epoch + kept >= current
}

/// How many past epochs a group keeps the secrets of after it has entered
/// `entered` epochs, where it keeps those of `max_past_epochs` at most and
/// kept none at first.
pub open spec fn kept_after(max_past_epochs: nat, entered: nat) -> nat {
    if entered < max_past_epochs {
        entered
    } else {
        max_past_epochs
    }
}

/// The number of past epochs that a store keeps goes up by one with each
/// epoch that its group enters, up to the number that it keeps at most. So a
/// group that keeps the secrets of `k` past epochs, once it has entered `k`
/// epochs or more, has the secrets of the epochs `current - i` for `i` from
/// 0 to `k`, and of no epoch before them.
pub proof fn lemma_kept_after_next(max_past_epochs: nat, epochs: Seq<u64>, entered: nat, added: u64)
    requires
        epochs.len() == kept_after(max_past_epochs, entered),
    ensures
        epochs_after_add(max_past_epochs, epochs, added).len() == kept_after(max_past_epochs, entered + 1),
{
}

/// Whether the state of a group was saved since it last changed.
#[derive(Clone, Copy, Debug, PartialEq, Eq, Structural)]
pub enum InnerState {
    Changed,
    Persisted,
}

/// What a member can do in its group.
#[derive(Clone, Copy, Debug, PartialEq, Eq, Structural)]
pub enum MlsGroupState {
    /// The member has made a commit that waits to be merged.
    PendingCommit,
    /// The member can send and receive.
    Operational,
    /// The member was removed from the group.
    Inactive,
}

/// The state of a member's group.
pub struct MlsGroup {
    pub mls_group_config: MlsGroupConfig,
    pub group: CoreGroup,
    pub proposal_store: ProposalStore,
    pub own_leaf_nodes: Vec<LeafNode>,
    pub aad: Vec<u8>,
    pub group_state: MlsGroupState,
    pub state_changed: InnerState,
}

/// The state of a member's group as it is saved.
pub struct SerializedMlsGroup {
    pub mls_group_config: MlsGroupConfig,
    pub group: CoreGroup,
    pub proposal_store: ProposalStore,
    pub own_leaf_nodes: Vec<LeafNode>,
    pub aad: Vec<u8>,
    pub resumption_psk_store: ResumptionPskStore,
    pub group_state: MlsGroupState,
    pub state_changed: InnerState,
}

/// The group that a saved state is: all of the saved state but the
/// resumption secrets beside the core.
pub open spec fn spec_into_mls_group(saved: SerializedMlsGroup) -> MlsGroup {
    MlsGroup {
        mls_group_config: saved.mls_group_config,
        group: saved.group,
        proposal_store: saved.proposal_store,
        own_leaf_nodes: saved.own_leaf_nodes,
        aad: saved.aad,
        group_state: saved.group_state,
        state_changed: saved.state_changed,
    }
}

/// Whether a saved state is that of a group: all of the group, and the
/// resumption secrets of its core once more beside it.
pub open spec fn is_saved_form_of(saved: SerializedMlsGroup, group: MlsGroup) -> bool {
    &&& saved.mls_group_config == group.mls_group_config
    &&& saved.group == group.group
    &&& saved.proposal_store == group.proposal_store
    &&& saved.own_leaf_nodes == group.own_leaf_nodes
    &&& saved.aad == group.aad
    &&& saved.group_state == group.group_state
    &&& saved.state_changed == group.state_changed
    &&& saved.resumption_psk_store.number_of_secrets == group.group.resumption_psk_store.number_of_secrets
    &&& psk_views(saved.resumption_psk_store.resumption_psks@) == psk_views(group.group.resumption_psk_store.resumption_psks@)
}

impl SerializedMlsGroup {
    /// The group that was saved, with the mark of change that was saved
    /// with it; the resumption secrets are those within the core of the
    /// group.
    pub fn into_mls_group(self) -> (g: MlsGroup)
        ensures
            g == spec_into_mls_group(self),
    {
        MlsGroup {
            mls_group_config: self.mls_group_config,
            group: self.group,
            proposal_store: self.proposal_store,
            own_leaf_nodes: self.own_leaf_nodes,
            aad: self.aad,
            group_state: self.group_state,
            state_changed: self.state_changed,
        }
    }
}

impl MlsGroup {
    /// The group as it is saved: all of it, and the resumption secrets of
    /// its core once more beside it.
    pub fn into_serialized(self) -> (s: SerializedMlsGroup)
        ensures
            is_saved_form_of(s, self),
    {
        let resumption_psk_store = self.group.resumption_psk_store.duplicate();
        SerializedMlsGroup {
            mls_group_config: self.mls_group_config,
            group: self.group,
            proposal_store: self.proposal_store,
            own_leaf_nodes: self.own_leaf_nodes,
            aad: self.aad,
            resumption_psk_store,
            group_state: self.group_state,
            state_changed: self.state_changed,
        }
    }

    /// The epoch of the group.
    pub fn epoch(&self) -> (e: GroupEpoch)
        ensures
            e == self.group.group_context.epoch,
    {
        self.group.group_context.epoch()
    }

    /// The group.
    pub fn group_id(&self) -> (id: &GroupId)
        ensures
            *id == self.group.group_context.group_id,
    {
        self.group.group_context.group_id()
    }

    /// Whether the member is still in the group.
    pub fn is_active(&self) -> (b: bool)
        ensures
            b == (self.group_state != MlsGroupState::Inactive),
    {
        match self.group_state {
            MlsGroupState::Inactive => false,
            _ => true,
        }
    }

    /// Whether the state of the group was saved since it last changed.
    pub fn state_changed(&self) -> (s: InnerState)
        ensures
            s == self.state_changed,
    {
        self.state_changed
    }

    /// The data that is authenticated with the next message.
    pub fn aad(&self) -> (b: &[u8])
        ensures
            b@ == self.aad@,
    {
        self.aad.as_slice()
    }

    /// Sets the data that is authenticated with the next message, which
    /// changes the state.
    pub fn set_aad(&mut self, aad: &[u8])
        ensures
            final(self).aad@ == aad@,
            final(self).state_changed == InnerState::Changed,
            final(self).mls_group_config == old(self).mls_group_config,
            final(self).group == old(self).group,
            final(self).proposal_store == old(self).proposal_store,
            final(self).own_leaf_nodes == old(self).own_leaf_nodes,
            final(self).group_state == old(self).group_state,
    {
        self.aad = copy_bytes(aad);
        self.state_changed = InnerState::Changed;
    }
}

/// Saving a group and loading it gives the group: its configuration, its
/// core with its epoch and its secrets, its proposals, its leaf nodes, its
/// authenticated data, what the member can do and the mark of change are as
/// they were.
pub proof fn lemma_save_load_is_identity(group: MlsGroup, saved: SerializedMlsGroup)
    requires
        is_saved_form_of(saved, group),
    ensures
        spec_into_mls_group(saved) == group,
{
}

} // verus!
