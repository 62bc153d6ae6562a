//! The secrets that messages of an epoch are protected with, and the store
//! that keeps those of the last epochs, so that messages which arrive late
//! can still be decrypted.

use vstd::prelude::*;
use std::collections::VecDeque;
use openmls_rust_crypto::OpenMlsRustCrypto;
use crate::framing::PrivateMessage;
use crate::framing::PrivateMessageIn;
use crate::framing::PrivateMessageView;
use crate::group::GroupEpoch;
use crate::group::GroupId;
use crate::keys::SignatureKeyPair;
use crate::private_message::is_encryption_with;
use crate::private_message::opened_view;
use crate::private_message::sealed_view;
use crate::private_message::spec_decrypt_application_message;
use crate::private_message::MessageEncryptionError;
use crate::private_message::VerifiableApplicationMessage;
use crate::private_message::VerifiableMessageView;
use crate::secret::Secret;
use crate::secret::SecretView;
use crate::secret_tree::spec_tree_secret_for_decryption;
use crate::secret_tree::spec_tree_secret_for_encryption;
use crate::secret_tree::SecretTree;
use crate::secret_tree::SecretTreeError;
use crate::secret_tree::SecretTreeView;
use crate::secret_tree::SecretType;
use crate::sender_ratchet::Generation;
use crate::sender_ratchet::KeyMaterialView;
use crate::sender_ratchet::RatchetKeyMaterial;
use crate::sender_ratchet::SenderRatchetConfiguration;
use crate::tree_math::LeafNodeIndex;
use crate::types::Ciphersuite;
use crate::types::ProtocolVersion;

verus! {

/// Failures of decrypting a message.
#[derive(Clone, Copy, Debug, PartialEq, Eq, Structural)]
pub enum MessageDecryptionError {
    /// Couldn't find a ratcheting secret for the given sender and generation.
    GenerationOutOfBound,
    /// An error occurred during AEAD decryption.
    AeadError,
    /// The message is malformed.
    MalformedContent,
    /// The message holds a proposal or a commit, not data of the
    /// application.
    NotApplicationMessage,
    /// The secret tree gave no key material.
    SecretTreeError(SecretTreeError),
}

/// The secrets that the messages of an epoch are protected with.
pub struct MessageSecrets {
    pub sender_data_secret: Secret,
    pub membership_key: Secret,
    pub confirmation_key: Secret,
    pub serialized_context: Vec<u8>,
    pub secret_tree: SecretTree,
}

/// What the secrets of an epoch are.
pub struct MessageSecretsView {
    pub sender_data_secret: SecretView,
    pub membership_key: SecretView,
    pub confirmation_key: SecretView,
    pub serialized_context: Seq<u8>,
    pub secret_tree: SecretTreeView,
}

impl View for MessageSecrets {
    type V = MessageSecretsView;

    open spec fn view(&self) -> MessageSecretsView {
        MessageSecretsView {
            sender_data_secret: self.sender_data_secret@,
            membership_key: self.membership_key@,
            confirmation_key: self.confirmation_key@,
            serialized_context: self.serialized_context@,
            secret_tree: self.secret_tree@,
        }
    }
}

impl MessageSecrets {
    /// The secret tree is well formed.
    pub open spec fn wf(&self) -> bool {
        self.secret_tree.wf()
    }

    /// The secrets of an epoch.
    pub fn new(sender_data_secret: Secret, membership_key: Secret, confirmation_key: Secret, serialized_context: Vec<u8>, secret_tree: SecretTree) -> (m: Self)
        ensures
            m.sender_data_secret == sender_data_secret,
            m.membership_key == membership_key,
            m.confirmation_key == confirmation_key,
            m.serialized_context == serialized_context,
            m.secret_tree == secret_tree,
    {
        MessageSecrets { sender_data_secret, membership_key, confirmation_key, serialized_context, secret_tree }
    }

    /// The secret tree.
    pub fn secret_tree(&self) -> (t: &SecretTree)
        ensures
            *t == self.secret_tree,
    {
        &self.secret_tree
    }
}

/// The secrets of a past epoch.
pub struct EpochTree {
    pub epoch: u64,
    pub message_secrets: MessageSecrets,
}

/// What a store of secrets is: how many past epochs it keeps at most, the
/// past epochs it keeps, the oldest first, and the secrets of each.
pub struct MessageSecretsStoreView {
    pub max_epochs: nat,
    pub past_epochs: Seq<u64>,
    pub past_secrets: Seq<MessageSecretsView>,
    pub message_secrets: MessageSecretsView,
}

/// The secrets of the current epoch of a group and of its last epochs.
pub struct MessageSecretsStore {
    max_epochs: usize,
    past_epoch_trees: VecDeque<EpochTree>,
    message_secrets: MessageSecrets,
}

/// Whether `i` is the first place of an epoch among the past epochs of a
/// store.
pub open spec fn is_first_position(past_epochs: Seq<u64>, epoch: u64, i: int) -> bool {
    &&& 0 <= i < past_epochs.len()
    &&& past_epochs[i] == epoch
    &&& forall|j: int| 0 <= j < i ==> past_epochs[j] != epoch
}

/// What a secret tree gives to decrypt with, as the outcome of decrypting a
/// message.
pub open spec fn decryption_outcome(result: Result<KeyMaterialView, SecretTreeError>) -> Result<KeyMaterialView, MessageDecryptionError> {
    match result {
        Ok(material) => Ok(material),
        Err(e) => Err(MessageDecryptionError::SecretTreeError(e)),
    }
}

/// The secrets of an epoch with another secret tree.
pub open spec fn with_secret_tree(secrets: MessageSecretsView, secret_tree: SecretTreeView) -> MessageSecretsView {
    MessageSecretsView { secret_tree, ..secrets }
}

/// Whether a store keeps the secrets of an epoch.
pub open spec fn keeps_epoch(store: MessageSecretsStoreView, epoch: u64) -> bool {
    store.past_epochs.contains(epoch)
}

/// The last `keep` past epochs of a store, or all where there are fewer.
pub open spec fn last_epochs<T>(epochs: Seq<T>, keep: nat) -> Seq<T> {
    if epochs.len() <= keep {
        epochs
    } else {
        epochs.subrange(epochs.len() - keep, epochs.len() as int)
    }
}

/// The past epochs of a store after the secrets of an epoch were added: the
/// oldest epochs make room; a store that keeps none takes none.
pub open spec fn epochs_after_add<T>(max_epochs: nat, epochs: Seq<T>, added: T) -> Seq<T> {
    if max_epochs == 0 {
        epochs
    } else {
        last_epochs(epochs, (max_epochs - 1) as nat).push(added)
    }
}

/// Whether the past epochs of a store are the `past_epochs.len()` epochs
/// before `current`, in their order, and no more than the store keeps.
pub open spec fn is_window_before(store: MessageSecretsStoreView, current: u64) -> bool {
    &&& store.past_epochs.len() <= store.max_epochs
    &&& store.past_epochs.len() <= current
    &&& forall|i: int| 0 <= i < store.past_epochs.len() ==> #[trigger] store.past_epochs[i] == current - store.past_epochs.len() + i
}

/// A store whose past epochs are those before the current epoch keeps the
/// secrets of the epoch `distance` before the current one exactly where
/// `distance` is one at least and no more than the number of epochs kept.
pub proof fn lemma_window_keeps(store: MessageSecretsStoreView, current: u64, distance: u64)
    requires
        is_window_before(store, current),
        distance <= current,
    ensures
        keeps_epoch(store, (current - distance) as u64) <==> 1 <= distance <= store.past_epochs.len(),
{
    let epoch = (current - distance) as u64;
    if 1 <= distance <= store.past_epochs.len() {
        let i = store.past_epochs.len() - distance;
        assert(store.past_epochs[i] == epoch);
    }
}

/// Where a group that enters the epoch after `current` adds the secrets of
/// `current` to its store, the past epochs of the store are again those
/// before the epoch of the group, one more than before up to the number that
/// the store keeps.
pub proof fn lemma_window_advances(store: MessageSecretsStoreView, current: u64)
    requires
        is_window_before(store, current),
        current < u64::MAX,
    ensures
        is_window_before(
            MessageSecretsStoreView { past_epochs: epochs_after_add(store.max_epochs, store.past_epochs, current), ..store },
            (current + 1) as u64,
        ),
        epochs_after_add(store.max_epochs, store.past_epochs, current).len() == (if store.past_epochs.len() < store.max_epochs {
            store.past_epochs.len() + 1
        } else {
            store.max_epochs
        }),
{
}

/// What was handed out, if anything.
pub open spec fn result_view(r: Result<RatchetKeyMaterial, MessageDecryptionError>) -> Result<KeyMaterialView, MessageDecryptionError> {
    match r {
        Ok(material) => Ok(material@),
        Err(e) => Err(e),
    }
}

/// Whether the secrets of an epoch after a request for the key material to
/// decrypt with, and the outcome of the request, are what the secret tree of
/// the epoch gives.
pub open spec fn is_decryption_with(
    before: MessageSecretsView,
    after: MessageSecretsView,
    outcome: Result<KeyMaterialView, MessageDecryptionError>,
    ciphersuite: Ciphersuite,
    index: LeafNodeIndex,
    secret_type: SecretType,
    generation: Generation,
    configuration: SenderRatchetConfiguration,
) -> bool {
    let next = spec_tree_secret_for_decryption(before.secret_tree, ciphersuite, index.0 as nat, secret_type, generation, configuration);
    &&& after == with_secret_tree(before, next.0)
    &&& outcome == decryption_outcome(next.1)
}

/// Whether a store after the decryption of an application message, for a
/// group in the epoch `current_epoch`, and the outcome, are what decrypting
/// with the secrets of the epoch of the message gives: with those of the
/// current epoch for a message that is not of an earlier one, else with
/// those that the store keeps of the epoch of the message. Where the store
/// keeps none of that epoch, the outcome is `AeadError` and the store is as
/// before. The secrets of the other epochs stay as they are.
pub open spec fn is_store_decryption(
    before: MessageSecretsStoreView,
    after: MessageSecretsStoreView,
    outcome: Result<VerifiableMessageView, MessageDecryptionError>,
    current_epoch: u64,
    ciphersuite: Ciphersuite,
    message: PrivateMessageView,
    configuration: SenderRatchetConfiguration,
) -> bool {
    &&& after.max_epochs == before.max_epochs
    &&& after.past_epochs == before.past_epochs
    &&& if message.epoch >= current_epoch {
        after.past_secrets == before.past_secrets && (after.message_secrets, outcome) == spec_decrypt_application_message(
            before.message_secrets,
            ciphersuite,
            message,
            configuration,
        )
    } else if !keeps_epoch(before, message.epoch) {
        after == before && outcome == Err::<VerifiableMessageView, MessageDecryptionError>(MessageDecryptionError::AeadError)
    } else {
        after.message_secrets == before.message_secrets && exists|i: int|
            #![trigger after.past_secrets[i]]
            is_first_position(before.past_epochs, message.epoch, i) && after.past_secrets == before.past_secrets.update(i, after.past_secrets[i]) && (
            after.past_secrets[i],
            outcome,
        ) == spec_decrypt_application_message(before.past_secrets[i], ciphersuite, message, configuration)
    }
}

impl View for MessageSecretsStore {
    type V = MessageSecretsStoreView;

    closed spec fn view(&self) -> MessageSecretsStoreView {
        MessageSecretsStoreView {
            max_epochs: self.max_epochs as nat,
            past_epochs: Seq::new(self.past_epoch_trees@.len(), |i: int| self.past_epoch_trees@[i].epoch),
            past_secrets: Seq::new(self.past_epoch_trees@.len(), |i: int| self.past_epoch_trees@[i].message_secrets@),
            message_secrets: self.message_secrets@,
        }
    }
}

impl MessageSecretsStore {
    /// The secret trees are well formed, and no more past epochs are kept
    /// than the store keeps at most.
    pub closed spec fn wf(&self) -> bool {
        &&& self.message_secrets.wf()
        &&& self.past_epoch_trees@.len() <= self.max_epochs
        &&& forall|i: int| 0 <= i < self.past_epoch_trees@.len() ==> (#[trigger] self.past_epoch_trees@[i]).message_secrets.wf()
    }

    /// What a well-formed store holds.
    pub proof fn lemma_wf(&self)
        requires
            self.wf(),
        ensures
            self@.past_epochs.len() == self@.past_secrets.len(),
            self@.past_epochs.len() <= self@.max_epochs,
    {
    }

    /// The store of a group in its first epoch, which keeps `max_epochs`
    /// past epochs at most.
    pub fn new_with_secret(max_epochs: usize, message_secrets: MessageSecrets) -> (store: Self)
        requires
            message_secrets.wf(),
        ensures
            store.wf(),
            store@ == (MessageSecretsStoreView {
                max_epochs: max_epochs as nat,
                past_epochs: Seq::empty(),
                past_secrets: Seq::empty(),
                message_secrets: message_secrets@,
            }),
    {
        let store = MessageSecretsStore { max_epochs, past_epoch_trees: VecDeque::new(), message_secrets };
        assert(store@.past_epochs =~= Seq::empty());
        assert(store@.past_secrets =~= Seq::empty());
        store
    }

    /// Changes how many past epochs the store keeps at most; the oldest
    /// epochs go where there are more.
    pub fn resize(&mut self, max_past_epochs: usize)
        requires
            old(self).wf(),
        ensures
            final(self).wf(),
            final(self)@ == (MessageSecretsStoreView {
                max_epochs: max_past_epochs as nat,
                past_epochs: last_epochs(old(self)@.past_epochs, max_past_epochs as nat),
                past_secrets: last_epochs(old(self)@.past_secrets, max_past_epochs as nat),
                message_secrets: old(self)@.message_secrets,
            }),
    {
        self.max_epochs = max_past_epochs;
        self.drop_oldest(max_past_epochs);
    }

    /// Drops the oldest past epochs until `keep` are left at most.
    fn drop_oldest(&mut self, keep: usize)
        requires
            old(self).message_secrets.wf(),
            forall|i: int| 0 <= i < old(self).past_epoch_trees@.len() ==> (#[trigger] old(self).past_epoch_trees@[i]).message_secrets.wf(),
        ensures
            final(self).max_epochs == old(self).max_epochs,
            final(self).message_secrets == old(self).message_secrets,
            final(self).past_epoch_trees@ == last_epochs(old(self).past_epoch_trees@, keep as nat),
            final(self)@.past_epochs == last_epochs(old(self)@.past_epochs, keep as nat),
            final(self)@.past_secrets == last_epochs(old(self)@.past_secrets, keep as nat),
            final(self).past_epoch_trees@.len() <= keep,
            forall|i: int| 0 <= i < final(self).past_epoch_trees@.len() ==> (#[trigger] final(self).past_epoch_trees@[i]).message_secrets.wf(),
    {
        let ghost before = self.past_epoch_trees@;
        while self.past_epoch_trees.len() > keep
            invariant
                self.max_epochs == old(self).max_epochs,
                self.message_secrets == old(self).message_secrets,
                self.past_epoch_trees@.len() <= before.len(),
                self.past_epoch_trees@.len() == before.len() || self.past_epoch_trees@.len() >= keep,
                self.past_epoch_trees@ == before.subrange(before.len() - self.past_epoch_trees@.len(), before.len() as int),
            decreases self.past_epoch_trees@.len(),
        {
            let ghost kept = self.past_epoch_trees@;
            self.past_epoch_trees.pop_front();
            assert(self.past_epoch_trees@ =~= before.subrange(before.len() - self.past_epoch_trees@.len(), before.len() as int));
        }
        assert(self.past_epoch_trees@ =~= last_epochs(before, keep as nat)) by {
            if before.len() <= keep {
                assert(before.subrange(0, before.len() as int) =~= before);
            }
        }
        assert(self@.past_epochs =~= last_epochs(old(self)@.past_epochs, keep as nat));
        assert(self@.past_secrets =~= last_epochs(old(self)@.past_secrets, keep as nat));
    }

    /// Adds the secrets of an epoch that is past. The oldest epochs make
    /// room for them. A store that keeps no past epochs takes none.
    pub fn add(&mut self, group_epoch: u64, message_secrets: MessageSecrets)
        requires
            old(self).wf(),
            message_secrets.wf(),
        ensures
            final(self).wf(),
            final(self)@ == (MessageSecretsStoreView {
                max_epochs: old(self)@.max_epochs,
                past_epochs: epochs_after_add(old(self)@.max_epochs, old(self)@.past_epochs, group_epoch),
                past_secrets: epochs_after_add(old(self)@.max_epochs, old(self)@.past_secrets, message_secrets@),
                message_secrets: old(self)@.message_secrets,
            }),
    {
        // Don't store the tree if max_epochs is 0.
        if self.max_epochs == 0 {
            return;
        }
        let tree = EpochTree { epoch: group_epoch, message_secrets };
        self.drop_oldest(self.max_epochs - 1);
        let ghost kept = self.past_epoch_trees@;
        self.past_epoch_trees.push_back(tree);
        assert(self@.past_epochs =~= epochs_after_add(old(self)@.max_epochs, old(self)@.past_epochs, group_epoch));
        assert(self@.past_secrets =~= epochs_after_add(old(self)@.max_epochs, old(self)@.past_secrets, message_secrets@));
        assert forall|i: int| 0 <= i < self.past_epoch_trees@.len() implies (#[trigger] self.past_epoch_trees@[i]).message_secrets.wf() by {
            if i < kept.len() {
                assert(self.past_epoch_trees@[i] == kept[i]);
            }
        }
    }

    /// Replaces the secrets of the current epoch and gives the old ones.
    pub fn replace_message_secrets(&mut self, message_secrets: MessageSecrets) -> (previous: MessageSecrets)
        requires
            old(self).wf(),
            message_secrets.wf(),
        ensures
            final(self).wf(),
            previous.wf(),
            previous@ == old(self)@.message_secrets,
            final(self)@ == (MessageSecretsStoreView { message_secrets: message_secrets@, ..old(self)@ }),
    {
        let mut incoming = message_secrets;
        core::mem::swap(&mut self.message_secrets, &mut incoming);
        incoming
    }

    /// Whether the store keeps the secrets of a past epoch.
    pub fn contains_epoch(&self, epoch: u64) -> (b: bool)
        ensures
            b == keeps_epoch(self@, epoch),
    {
        self.position_of(epoch).is_some()
    }

    /// The place of a past epoch in the store, if it is kept.
    fn position_of(&self, epoch: u64) -> (r: Option<usize>)
        ensures
            r is Some == keeps_epoch(self@, epoch),
            r matches Some(i) ==> i < self.past_epoch_trees@.len() && self.past_epoch_trees@[i as int].epoch == epoch,
            r matches Some(i) ==> is_first_position(self@.past_epochs, epoch, i as int),
    {
        let n: usize = self.past_epoch_trees.len();
        let mut i: usize = 0;
        while i < n
            invariant
                n == self.past_epoch_trees@.len(),
                i <= n,
                forall|j: int| 0 <= j < i ==> self@.past_epochs[j] != epoch,
            decreases n - i,
        {
            if self.past_epoch_trees[i].epoch == epoch {
                assert(self@.past_epochs[i as int] == epoch);
                return Some(i);
            }
            i = i + 1;
        }
        None
    }

    /// The secrets of a past epoch, if the store keeps them.
    pub fn secrets_for_epoch(&self, epoch: u64) -> (r: Option<&MessageSecrets>)
        requires
            self.wf(),
        ensures
            r is Some == keeps_epoch(self@, epoch),
            r matches Some(secrets) ==> secrets.wf() && exists|i: int| 0 <= i < self@.past_epochs.len() && self@.past_epochs[i] == epoch && #[trigger] self@.past_secrets[i] == secrets@,
    {
        match self.position_of(epoch) {
            Some(i) => {
                let secrets = &self.past_epoch_trees[i].message_secrets;
                assert(self@.past_secrets[i as int] == secrets@);
                assert(self.past_epoch_trees@[i as int].message_secrets.wf());
                Some(secrets)
            },
            None => None,
        }
    }

    /// The secrets of the current epoch.
    pub fn message_secrets(&self) -> (m: &MessageSecrets)
        requires
            self.wf(),
        ensures
            m@ == self@.message_secrets,
            m.wf(),
    {
        &self.message_secrets
    }

    /// The secrets that a message of the epoch `message_epoch` is protected
    /// with, for a group in the epoch `current_epoch`: those of the current
    /// epoch for a message that is not of an earlier one, else those that
    /// the store keeps of the epoch of the message. Fails with `AeadError`
    /// where the store does not keep them.
    pub fn secrets_for_message(&self, current_epoch: u64, message_epoch: u64) -> (r: Result<&MessageSecrets, MessageDecryptionError>)
        requires
            self.wf(),
        ensures
            r is Ok == (message_epoch >= current_epoch || keeps_epoch(self@, message_epoch)),
            r matches Err(e) ==> e == MessageDecryptionError::AeadError,
            r matches Ok(secrets) ==> secrets.wf(),
            r matches Ok(secrets) ==> message_epoch >= current_epoch ==> secrets@ == self@.message_secrets,
            r matches Ok(secrets) ==> message_epoch < current_epoch ==> exists|i: int| 0 <= i < self@.past_epochs.len() && self@.past_epochs[i] == message_epoch && #[trigger] self@.past_secrets[i] == secrets@,
    {
        if message_epoch < current_epoch {
            match self.secrets_for_epoch(message_epoch) {
                Some(secrets) => Ok(secrets),
                None => Err(MessageDecryptionError::AeadError),
            }
        } else {
            Ok(self.message_secrets())
        }
    }

    /// The key material to decrypt a message of the epoch `message_epoch`
    /// with, for a group in the epoch `current_epoch`: that which the secret
    /// tree of the epoch of the message gives. Fails with `AeadError`, and
    /// leaves the store as it was, where the message is of a past epoch that
    /// the store does not keep.
    pub fn secret_for_decryption(
        &mut self,
        current_epoch: u64,
        message_epoch: u64,
        ciphersuite: Ciphersuite,
        backend: &OpenMlsRustCrypto,
        index: LeafNodeIndex,
        secret_type: SecretType,
        generation: Generation,
        configuration: &SenderRatchetConfiguration,
    ) -> (r: Result<RatchetKeyMaterial, MessageDecryptionError>)
        requires
            old(self).wf(),
        ensures
            final(self).wf(),
            final(self)@.max_epochs == old(self)@.max_epochs,
            final(self)@.past_epochs == old(self)@.past_epochs,
            message_epoch < current_epoch && !keeps_epoch(old(self)@, message_epoch) ==> r == Err::<RatchetKeyMaterial, MessageDecryptionError>(MessageDecryptionError::AeadError)
                && final(self)@ == old(self)@,
            message_epoch >= current_epoch ==> final(self)@.past_secrets == old(self)@.past_secrets && is_decryption_with(
                old(self)@.message_secrets,
                final(self)@.message_secrets,
                result_view(r),
                ciphersuite,
                index,
                secret_type,
                generation,
                *configuration,
            ),
            message_epoch < current_epoch && keeps_epoch(old(self)@, message_epoch) ==> final(self)@.message_secrets == old(self)@.message_secrets && exists|i: int|
                #![trigger final(self)@.past_secrets[i]]
                is_first_position(old(self)@.past_epochs, message_epoch, i) && final(self)@.past_secrets == old(self)@.past_secrets.update(i, final(self)@.past_secrets[i])
                    && is_decryption_with(old(self)@.past_secrets[i], final(self)@.past_secrets[i], result_view(r), ciphersuite, index, secret_type, generation, *configuration),
    {
        if message_epoch >= current_epoch {
            let r = self.message_secrets.secret_tree.secret_for_decryption(ciphersuite, backend, index, secret_type, generation, configuration);
            assert(self@.past_secrets =~= old(self)@.past_secrets);
            assert(self@.past_epochs =~= old(self)@.past_epochs);
            return match r {
                Ok(material) => Ok(material),
                Err(e) => Err(MessageDecryptionError::SecretTreeError(e)),
            };
        }
        let position = match self.position_of(message_epoch) {
            Some(position) => position,
            None => {
                return Err(MessageDecryptionError::AeadError);
            },
        };
        let ghost before = self.past_epoch_trees@;
        let mut tree = match self.past_epoch_trees.remove(position) {
            Some(tree) => tree,
            None => {
                assert(false);
                return Err(MessageDecryptionError::AeadError);
            },
        };
        assert(tree == before[position as int]);
        let ghost secrets_before = tree.message_secrets@;
        let r = tree.message_secrets.secret_tree.secret_for_decryption(ciphersuite, backend, index, secret_type, generation, configuration);
        let ghost secrets_after = tree.message_secrets@;
        let ghost tree_after = tree;
        self.past_epoch_trees.insert(position, tree);
        proof {
            assert(self.past_epoch_trees@ =~= before.update(position as int, tree_after));
            assert(self@.past_epochs =~= old(self)@.past_epochs);
            assert(self@.past_secrets =~= old(self)@.past_secrets.update(position as int, secrets_after));
            assert(self@.past_secrets[position as int] == secrets_after);
            assert(old(self)@.past_secrets[position as int] == secrets_before);
            assert forall|i: int| 0 <= i < self.past_epoch_trees@.len() implies (#[trigger] self.past_epoch_trees@[i]).message_secrets.wf() by {
                if i != position {
                    assert(self.past_epoch_trees@[i] == before[i]);
                }
            }
        }
        match r {
            Ok(material) => Ok(material),
            Err(e) => Err(MessageDecryptionError::SecretTreeError(e)),
        }
    }

    /// The generation and the key material to encrypt the next message of a
    /// kind of the member at a leaf with, in the current epoch: that which
    /// the secret tree of the current epoch gives.
    pub fn secret_for_encryption(&mut self, ciphersuite: Ciphersuite, backend: &OpenMlsRustCrypto, index: LeafNodeIndex, secret_type: SecretType) -> (r: Result<
        (Generation, RatchetKeyMaterial),
        SecretTreeError,
    >)
        requires
            old(self).wf(),
        ensures
            final(self).wf(),
            final(self)@ == (MessageSecretsStoreView {
                message_secrets: with_secret_tree(
                    old(self)@.message_secrets,
                    spec_tree_secret_for_encryption(old(self)@.message_secrets.secret_tree, ciphersuite, index.0 as nat, secret_type).0,
                ),
                ..old(self)@
            }),
            r is Ok == spec_tree_secret_for_encryption(old(self)@.message_secrets.secret_tree, ciphersuite, index.0 as nat, secret_type).1 is Ok,
            r matches Ok(out) ==> spec_tree_secret_for_encryption(old(self)@.message_secrets.secret_tree, ciphersuite, index.0 as nat, secret_type).1 == Ok::<
                (Generation, KeyMaterialView),
                SecretTreeError,
            >((out.0, out.1@)),
            r matches Err(e) ==> spec_tree_secret_for_encryption(old(self)@.message_secrets.secret_tree, ciphersuite, index.0 as nat, secret_type).1 == Err::<
                (Generation, KeyMaterialView),
                SecretTreeError,
            >(e),
    {
        let r = self.message_secrets.secret_tree.secret_for_encryption(ciphersuite, backend, index, secret_type);
        assert(self@.past_secrets =~= old(self)@.past_secrets);
        assert(self@.past_epochs =~= old(self)@.past_epochs);
        r
    }

    /// Signs and encrypts data of the application as a message of the
    /// member at the leaf `own`, with the secrets of the current epoch.
    pub fn encrypt_application_message(
        &mut self,
        backend: &OpenMlsRustCrypto,
        ciphersuite: Ciphersuite,
        version: ProtocolVersion,
        group_id: &GroupId,
        epoch: GroupEpoch,
        own: LeafNodeIndex,
        signer: &SignatureKeyPair,
        authenticated_data: &[u8],
        data: &[u8],
        padding_size: usize,
    ) -> (r: Result<PrivateMessage, MessageEncryptionError>)
        requires
            old(self).wf(),
        ensures
            final(self).wf(),
            final(self)@ == (MessageSecretsStoreView { message_secrets: final(self)@.message_secrets, ..old(self)@ }),
            is_encryption_with(
                old(self)@.message_secrets,
                final(self)@.message_secrets,
                sealed_view(r),
                ciphersuite,
                version,
                group_id@,
                epoch.0,
                own,
                signer@,
                authenticated_data@,
                data@,
                padding_size as nat,
            ),
    {
        let r = self.message_secrets.encrypt_application_message(backend, ciphersuite, version, group_id, epoch, own, signer, authenticated_data, data, padding_size);
        assert(self@.past_secrets =~= old(self)@.past_secrets);
        assert(self@.past_epochs =~= old(self)@.past_epochs);
        r
    }

    /// Decrypts an application message of the epoch that it names, for a
    /// group in the epoch `current_epoch`, with the secrets of the epoch of
    /// the message. Fails with `AeadError`, and leaves the store as it was,
    /// where the message is of a past epoch that the store does not keep.
    pub fn decrypt_application_message(
        &mut self,
        current_epoch: u64,
        ciphersuite: Ciphersuite,
        backend: &OpenMlsRustCrypto,
        message: &PrivateMessageIn,
        configuration: &SenderRatchetConfiguration,
    ) -> (r: Result<VerifiableApplicationMessage, MessageDecryptionError>)
        requires
            old(self).wf(),
        ensures
            final(self).wf(),
            is_store_decryption(old(self)@, final(self)@, opened_view(r), current_epoch, ciphersuite, message@, *configuration),
    {
        if message.epoch.0 >= current_epoch {
            let r = self.message_secrets.decrypt_application_message(backend, ciphersuite, message, configuration);
            assert(self@.past_secrets =~= old(self)@.past_secrets);
            assert(self@.past_epochs =~= old(self)@.past_epochs);
            return r;
        }
        let position = match self.position_of(message.epoch.0) {
            Some(position) => position,
            None => {
                return Err(MessageDecryptionError::AeadError);
            },
        };
        let ghost before = self.past_epoch_trees@;
        let mut tree = match self.past_epoch_trees.remove(position) {
            Some(tree) => tree,
            None => {
                assert(false);
                return Err(MessageDecryptionError::AeadError);
            },
        };
        assert(tree == before[position as int]);
        let ghost secrets_before = tree.message_secrets@;
        let r = tree.message_secrets.decrypt_application_message(backend, ciphersuite, message, configuration);
        let ghost secrets_after = tree.message_secrets@;
        let ghost tree_after = tree;
        self.past_epoch_trees.insert(position, tree);
        proof {
            assert(self.past_epoch_trees@ =~= before.update(position as int, tree_after));
            assert(self@.past_epochs =~= old(self)@.past_epochs);
            assert(self@.past_secrets =~= old(self)@.past_secrets.update(position as int, secrets_after));
            assert(self@.past_secrets[position as int] == secrets_after);
            assert(old(self)@.past_secrets[position as int] == secrets_before);
            assert forall|i: int| 0 <= i < self.past_epoch_trees@.len() implies (#[trigger] self.past_epoch_trees@[i]).message_secrets.wf() by {
                if i != position {
                    assert(self.past_epoch_trees@[i] == before[i]);
                }
            }
        }
        r
    }

    /// How many past epochs the store keeps at most.
    pub fn max_epochs(&self) -> (n: usize)
        ensures
            n == self@.max_epochs,
    {
        self.max_epochs
    }

    /// How many past epochs the store keeps.
    pub fn past_epoch_count(&self) -> (n: usize)
        ensures
            n == self@.past_epochs.len(),
    {
        self.past_epoch_trees.len()
    }
}

} // verus!
