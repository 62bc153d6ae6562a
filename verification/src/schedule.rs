//! The key schedule: the secrets of an epoch, derived from the init secret
//! of the epoch before, the commit secret, a pre-shared key secret where
//! there is one, and the group context.
//!
//! The init secret and the commit secret give the joiner secret; that and
//! the pre-shared key secret give the member secret, from which the welcome
//! secret and the epoch secret are derived; and the epoch secret gives the
//! secrets that the epoch is run with, and the init secret of the next
//! epoch.

use vstd::prelude::*;
use vstd::string::StringSliceAdditionalSpecFns;
use openmls_rust_crypto::OpenMlsRustCrypto;
use crate::secret::can_derive;
use crate::secret::derived_secret;
use crate::secret::extracted_secret;
use crate::secret::ikm_or_zero;
use crate::secret::lemma_derivation_fails;
use crate::secret::lemma_derivation_succeeds;
use crate::secret::option_view;
use crate::secret::spec_derive_secret;
use crate::secret::Secret;
use crate::secret::SecretView;
use crate::secret_tree::EncryptionSecret;
use crate::types::CryptoError;

verus! {

/// Failures of the key schedule.
#[derive(Clone, Copy, Debug, PartialEq, Eq, Structural)]
pub enum KeyScheduleError {
    /// A condition that the library relies on was broken.
    LibraryError,
    /// A derivation failed.
    CryptoError(CryptoError),
}

/// The joiner secret of an epoch: what a new member is given to derive the
/// epoch from.
pub open spec fn spec_joiner_secret(init_secret: SecretView, commit_secret: Option<SecretView>, group_context: Seq<u8>) -> SecretView {
    derived_secret(
        extracted_secret(init_secret, ikm_or_zero(commit_secret, init_secret.ciphersuite)),
        "joiner".spec_bytes(),
        group_context,
        init_secret.ciphersuite.spec_hash_length(),
    )
}

/// The member secret of an epoch, of the joiner secret and the pre-shared
/// key secret.
pub open spec fn spec_member_secret(joiner_secret: SecretView, psk_secret: Option<SecretView>) -> SecretView {
    extracted_secret(joiner_secret, ikm_or_zero(psk_secret, joiner_secret.ciphersuite))
}

/// The welcome secret of an epoch, which the description of the group is
/// encrypted with for new members.
pub open spec fn spec_welcome_secret(member_secret: SecretView) -> SecretView {
    spec_derive_secret(member_secret, "welcome".spec_bytes())
}

/// The epoch secret, of the member secret and the group context.
pub open spec fn spec_epoch_secret(member_secret: SecretView, group_context: Seq<u8>) -> SecretView {
    derived_secret(member_secret, "epoch".spec_bytes(), group_context, member_secret.ciphersuite.spec_hash_length())
}

/// What the secrets of an epoch are.
pub struct EpochSecretsView {
    pub init_secret: SecretView,
    pub sender_data_secret: SecretView,
    pub encryption_secret: SecretView,
    pub exporter_secret: SecretView,
    pub epoch_authenticator: SecretView,
    pub external_secret: SecretView,
    pub confirmation_key: SecretView,
    pub membership_key: SecretView,
    pub resumption_psk: SecretView,
}

/// The secrets of an epoch, each derived from the epoch secret under its
/// label.
pub open spec fn spec_epoch_secrets(epoch_secret: SecretView) -> EpochSecretsView {
    EpochSecretsView {
        init_secret: spec_derive_secret(epoch_secret, "init".spec_bytes()),
        sender_data_secret: spec_derive_secret(epoch_secret, "sender data".spec_bytes()),
        encryption_secret: spec_derive_secret(epoch_secret, "encryption".spec_bytes()),
        exporter_secret: spec_derive_secret(epoch_secret, "exporter".spec_bytes()),
        epoch_authenticator: spec_derive_secret(epoch_secret, "authentication".spec_bytes()),
        external_secret: spec_derive_secret(epoch_secret, "external".spec_bytes()),
        confirmation_key: spec_derive_secret(epoch_secret, "confirm".spec_bytes()),
        membership_key: spec_derive_secret(epoch_secret, "membership".spec_bytes()),
        resumption_psk: spec_derive_secret(epoch_secret, "resumption".spec_bytes()),
    }
}

/// The secrets of the epoch that a member enters with the init secret of
/// the epoch before, the commit secret, the pre-shared key secret and the
/// group context of the epoch.
pub open spec fn spec_key_schedule(init_secret: SecretView, commit_secret: Option<SecretView>, psk_secret: Option<SecretView>, group_context: Seq<u8>) -> EpochSecretsView {
    spec_epoch_secrets(spec_epoch_secret(spec_member_secret(spec_joiner_secret(init_secret, commit_secret, group_context), psk_secret), group_context))
}

/// The secrets of the epoch that a new member enters with the joiner secret
/// it was given, the pre-shared key secret and the group context.
pub open spec fn spec_key_schedule_of_joiner(joiner_secret: SecretView, psk_secret: Option<SecretView>, group_context: Seq<u8>) -> EpochSecretsView {
    spec_epoch_secrets(spec_epoch_secret(spec_member_secret(joiner_secret, psk_secret), group_context))
}

/// The labels of the key schedule are short.
pub proof fn lemma_schedule_labels()
    ensures
        "joiner".spec_bytes().len() == 6,
        "welcome".spec_bytes().len() == 7,
        "epoch".spec_bytes().len() == 5,
        "init".spec_bytes().len() == 4,
        "sender data".spec_bytes().len() == 11,
        "encryption".spec_bytes().len() == 10,
        "exporter".spec_bytes().len() == 8,
        "authentication".spec_bytes().len() == 14,
        "external".spec_bytes().len() == 8,
        "confirm".spec_bytes().len() == 7,
        "membership".spec_bytes().len() == 10,
        "resumption".spec_bytes().len() == 10,
{
    reveal_strlit("joiner");
    reveal_strlit("welcome");
    reveal_strlit("epoch");
    reveal_strlit("init");
    reveal_strlit("sender data");
    reveal_strlit("encryption");
    reveal_strlit("exporter");
    reveal_strlit("authentication");
    reveal_strlit("external");
    reveal_strlit("confirm");
    reveal_strlit("membership");
    reveal_strlit("resumption");
    vstd::string::is_ascii_spec_bytes("joiner");
    vstd::string::is_ascii_spec_bytes("welcome");
    vstd::string::is_ascii_spec_bytes("epoch");
    vstd::string::is_ascii_spec_bytes("init");
    vstd::string::is_ascii_spec_bytes("sender data");
    vstd::string::is_ascii_spec_bytes("encryption");
    vstd::string::is_ascii_spec_bytes("exporter");
    vstd::string::is_ascii_spec_bytes("authentication");
    vstd::string::is_ascii_spec_bytes("external");
    vstd::string::is_ascii_spec_bytes("confirm");
    vstd::string::is_ascii_spec_bytes("membership");
    vstd::string::is_ascii_spec_bytes("resumption");
}

/// The members that enter an epoch with the same init secret, commit
/// secret, pre-shared key secret and group context have the same secrets in
/// it: the same epoch authenticator, and the same encryption secret, from
/// which their secret trees are made.
pub proof fn lemma_members_agree(
    init_secret: SecretView,
    commit_secret: Option<SecretView>,
    psk_secret: Option<SecretView>,
    group_context: Seq<u8>,
    other_init_secret: SecretView,
    other_commit_secret: Option<SecretView>,
    other_psk_secret: Option<SecretView>,
    other_group_context: Seq<u8>,
)
    requires
        init_secret == other_init_secret,
        commit_secret == other_commit_secret,
        psk_secret == other_psk_secret,
        group_context == other_group_context,
    ensures
        spec_key_schedule(init_secret, commit_secret, psk_secret, group_context).epoch_authenticator == spec_key_schedule(
            other_init_secret,
            other_commit_secret,
            other_psk_secret,
            other_group_context,
        ).epoch_authenticator,
        spec_key_schedule(init_secret, commit_secret, psk_secret, group_context) == spec_key_schedule(
            other_init_secret,
            other_commit_secret,
            other_psk_secret,
            other_group_context,
        ),
{
}

/// A member that joins with the joiner secret of an epoch has the secrets
/// in it that the members have who entered it from the epoch before.
pub proof fn lemma_joiner_agrees(init_secret: SecretView, commit_secret: Option<SecretView>, psk_secret: Option<SecretView>, group_context: Seq<u8>)
    ensures
        spec_key_schedule_of_joiner(spec_joiner_secret(init_secret, commit_secret, group_context), psk_secret, group_context) == spec_key_schedule(
            init_secret,
            commit_secret,
            psk_secret,
            group_context,
        ),
{
}

/// The init secret of an epoch, which the next epoch is derived from.
#[derive(Debug)]
pub struct InitSecret {
    secret: Secret,
}

impl View for InitSecret {
    type V = SecretView;

    closed spec fn view(&self) -> SecretView {
        self.secret@
    }
}

impl InitSecret {
    /// The init secret that a secret is: that of the first epoch of a group
    /// is drawn at random.
    pub fn new(secret: Secret) -> (s: Self)
        ensures
            s@ == secret@,
    {
        InitSecret { secret }
    }

    /// A copy of the init secret.
    pub fn duplicate(&self) -> (s: Self)
        ensures
            s@ == self@,
    {
        InitSecret { secret: self.secret.duplicate() }
    }
}

/// The joiner secret of an epoch.
#[derive(Debug)]
pub struct JoinerSecret {
    secret: Secret,
}

impl View for JoinerSecret {
    type V = SecretView;

    closed spec fn view(&self) -> SecretView {
        self.secret@
    }
}

impl JoinerSecret {
    /// The joiner secret of the epoch that follows the epoch of an init
    /// secret with a commit secret and a group context. The init secret is
    /// used up.
    pub fn new(backend: &OpenMlsRustCrypto, commit_secret: Option<&Secret>, init_secret: InitSecret, serialized_group_context: &[u8]) -> (r: Result<Self, KeyScheduleError>)
        ensures
            serialized_group_context@.len() <= crate::codec::MAX_VECTOR_LENGTH ==> r is Ok,
            r matches Ok(joiner) ==> joiner@ == spec_joiner_secret(init_secret@, option_view(commit_secret), serialized_group_context@) && can_derive(joiner@),
            r matches Err(e) ==> e == KeyScheduleError::CryptoError(CryptoError::KdfSerializationError),
    {
        proof {
            lemma_schedule_labels();
        }
        let intermediate_secret = init_secret.secret.hkdf_extract(backend, commit_secret);
        let hash_len: usize = intermediate_secret.ciphersuite().hash_length();
        match intermediate_secret.kdf_expand_label(backend, "joiner", serialized_group_context, hash_len) {
            Ok(secret) => Ok(JoinerSecret { secret }),
            Err(e) => Err(KeyScheduleError::CryptoError(e)),
        }
    }

    /// The joiner secret that a new member was given.
    pub fn from_secret(secret: Secret) -> (s: Self)
        ensures
            s@ == secret@,
    {
        JoinerSecret { secret }
    }

    /// The bytes of the joiner secret, to be given to a new member.
    pub fn as_slice(&self) -> (b: &[u8])
        ensures
            b@ == self@.bytes,
    {
        self.secret.as_slice()
    }
}

/// The secrets of an epoch.
#[derive(Debug)]
pub struct EpochSecrets {
    init_secret: Secret,
    sender_data_secret: Secret,
    encryption_secret: Secret,
    exporter_secret: Secret,
    epoch_authenticator: Secret,
    external_secret: Secret,
    confirmation_key: Secret,
    membership_key: Secret,
    resumption_psk: Secret,
}

impl View for EpochSecrets {
    type V = EpochSecretsView;

    closed spec fn view(&self) -> EpochSecretsView {
        EpochSecretsView {
            init_secret: self.init_secret@,
            sender_data_secret: self.sender_data_secret@,
            encryption_secret: self.encryption_secret@,
            exporter_secret: self.exporter_secret@,
            epoch_authenticator: self.epoch_authenticator@,
            external_secret: self.external_secret@,
            confirmation_key: self.confirmation_key@,
            membership_key: self.membership_key@,
            resumption_psk: self.resumption_psk@,
        }
    }
}

/// What the secrets of an epoch are after they were handed out one by one.
pub struct EpochSecretsParts {
    pub init_secret: InitSecret,
    pub sender_data_secret: Secret,
    pub encryption_secret: EncryptionSecret,
    pub exporter_secret: Secret,
    pub epoch_authenticator: Secret,
    pub external_secret: Secret,
    pub confirmation_key: Secret,
    pub membership_key: Secret,
    pub resumption_psk: Secret,
}

impl EpochSecrets {
    /// The epoch authenticator: what the members of a group compare to see
    /// that they are in the same epoch.
    pub fn epoch_authenticator(&self) -> (s: &Secret)
        ensures
            s@ == self@.epoch_authenticator,
    {
        &self.epoch_authenticator
    }

    /// The confirmation key.
    pub fn confirmation_key(&self) -> (s: &Secret)
        ensures
            s@ == self@.confirmation_key,
    {
        &self.confirmation_key
    }

    /// The membership key.
    pub fn membership_key(&self) -> (s: &Secret)
        ensures
            s@ == self@.membership_key,
    {
        &self.membership_key
    }

    /// The exporter secret.
    pub fn exporter_secret(&self) -> (s: &Secret)
        ensures
            s@ == self@.exporter_secret,
    {
        &self.exporter_secret
    }

    /// The external secret.
    pub fn external_secret(&self) -> (s: &Secret)
        ensures
            s@ == self@.external_secret,
    {
        &self.external_secret
    }

    /// The resumption pre-shared key.
    pub fn resumption_psk(&self) -> (s: &Secret)
        ensures
            s@ == self@.resumption_psk,
    {
        &self.resumption_psk
    }

    /// The sender data secret.
    pub fn sender_data_secret(&self) -> (s: &Secret)
        ensures
            s@ == self@.sender_data_secret,
    {
        &self.sender_data_secret
    }

    /// Hands out the secrets, each to be used where it belongs: the init
    /// secret for the next epoch, the encryption secret for the secret tree.
    pub fn into_parts(self) -> (parts: EpochSecretsParts)
        ensures
            parts.init_secret@ == self@.init_secret,
            parts.sender_data_secret@ == self@.sender_data_secret,
            parts.encryption_secret@ == self@.encryption_secret,
            parts.exporter_secret@ == self@.exporter_secret,
            parts.epoch_authenticator@ == self@.epoch_authenticator,
            parts.external_secret@ == self@.external_secret,
            parts.confirmation_key@ == self@.confirmation_key,
            parts.membership_key@ == self@.membership_key,
            parts.resumption_psk@ == self@.resumption_psk,
    {
        EpochSecretsParts {
            init_secret: InitSecret::new(self.init_secret),
            sender_data_secret: self.sender_data_secret,
            encryption_secret: EncryptionSecret::new(self.encryption_secret),
            exporter_secret: self.exporter_secret,
            epoch_authenticator: self.epoch_authenticator,
            external_secret: self.external_secret,
            confirmation_key: self.confirmation_key,
            membership_key: self.membership_key,
            resumption_psk: self.resumption_psk,
        }
    }
}

/// The key schedule of an epoch, from the joiner secret on.
#[derive(Debug)]
pub struct KeySchedule {
    intermediate_secret: Secret,
}

impl View for KeySchedule {
    type V = SecretView;

    closed spec fn view(&self) -> SecretView {
        self.intermediate_secret@
    }
}

impl KeySchedule {
    /// The member secret can be derived from.
    pub closed spec fn wf(&self) -> bool {
        can_derive(self.intermediate_secret@)
    }

    /// The key schedule of an epoch, of its joiner secret and the
    /// pre-shared key secret. The joiner secret is used up.
    pub fn init(backend: &OpenMlsRustCrypto, joiner_secret: JoinerSecret, psk: Option<&Secret>) -> (schedule: Self)
        ensures
            schedule.wf(),
            schedule@ == spec_member_secret(joiner_secret@, option_view(psk)),
    {
        KeySchedule { intermediate_secret: joiner_secret.secret.hkdf_extract(backend, psk) }
    }

    /// The welcome secret of the epoch.
    pub fn welcome(&self, backend: &OpenMlsRustCrypto) -> (r: Result<Secret, KeyScheduleError>)
        requires
            self.wf(),
        ensures
            r is Ok,
            r.unwrap()@ == spec_welcome_secret(self@),
    {
        proof {
            lemma_schedule_labels();
            lemma_derivation_succeeds(self@, "welcome".spec_bytes(), Seq::empty(), self@.ciphersuite.spec_hash_length());
        }
        match self.intermediate_secret.derive_secret(backend, "welcome") {
            Ok(secret) => Ok(secret),
            Err(e) => Err(KeyScheduleError::CryptoError(e)),
        }
    }

    /// The secrets of the epoch, with its group context. The key schedule
    /// is used up: the secrets of an epoch are derived once.
    pub fn epoch_secrets(self, backend: &OpenMlsRustCrypto, serialized_group_context: &[u8]) -> (r: Result<EpochSecrets, KeyScheduleError>)
        requires
            self.wf(),
        ensures
            r is Ok == (serialized_group_context@.len() <= crate::codec::MAX_VECTOR_LENGTH),
            r matches Ok(secrets) ==> secrets@ == spec_epoch_secrets(spec_epoch_secret(self@, serialized_group_context@)),
            r matches Err(e) ==> e == KeyScheduleError::CryptoError(CryptoError::KdfSerializationError),
    {
        proof {
            lemma_schedule_labels();
        }
        let hash_len: usize = self.intermediate_secret.ciphersuite().hash_length();
        let epoch_secret = match self.intermediate_secret.kdf_expand_label(backend, "epoch", serialized_group_context, hash_len) {
            Ok(secret) => secret,
            Err(e) => {
                return Err(KeyScheduleError::CryptoError(e));
            },
        };
        match EpochSecrets::derive(backend, &epoch_secret) {
            Ok(secrets) => Ok(secrets),
            Err(e) => Err(e),
        }
    }
}

impl EpochSecrets {
    /// The secrets of an epoch, of its epoch secret. Fails with
    /// `CryptoLibraryError` where the epoch secret is shorter than the hash
    /// of its ciphersuite gives, so that nothing is derived from it.
    pub fn derive(backend: &OpenMlsRustCrypto, epoch_secret: &Secret) -> (r: Result<Self, KeyScheduleError>)
        ensures
            r is Ok == can_derive(epoch_secret@),
            r matches Ok(secrets) ==> secrets@ == spec_epoch_secrets(epoch_secret@),
            r matches Err(e) ==> e == KeyScheduleError::CryptoError(CryptoError::CryptoLibraryError),
    {
        proof {
            lemma_schedule_labels();
            let length = epoch_secret@.ciphersuite.spec_hash_length();
            if can_derive(epoch_secret@) {
                lemma_derivation_succeeds(epoch_secret@, "init".spec_bytes(), Seq::empty(), length);
                lemma_derivation_succeeds(epoch_secret@, "sender data".spec_bytes(), Seq::empty(), length);
                lemma_derivation_succeeds(epoch_secret@, "encryption".spec_bytes(), Seq::empty(), length);
                lemma_derivation_succeeds(epoch_secret@, "exporter".spec_bytes(), Seq::empty(), length);
                lemma_derivation_succeeds(epoch_secret@, "authentication".spec_bytes(), Seq::empty(), length);
                lemma_derivation_succeeds(epoch_secret@, "external".spec_bytes(), Seq::empty(), length);
                lemma_derivation_succeeds(epoch_secret@, "confirm".spec_bytes(), Seq::empty(), length);
                lemma_derivation_succeeds(epoch_secret@, "membership".spec_bytes(), Seq::empty(), length);
                lemma_derivation_succeeds(epoch_secret@, "resumption".spec_bytes(), Seq::empty(), length);
            } else {
                lemma_derivation_fails(epoch_secret@, "init".spec_bytes(), Seq::empty(), length);
            }
        }
        let init_secret = match epoch_secret.derive_secret(backend, "init") {
            Ok(secret) => secret,
            Err(e) => {
                return Err(KeyScheduleError::CryptoError(e));
            },
        };
        let derived = (
            epoch_secret.derive_secret(backend, "sender data"),
            epoch_secret.derive_secret(backend, "encryption"),
            epoch_secret.derive_secret(backend, "exporter"),
            epoch_secret.derive_secret(backend, "authentication"),
            epoch_secret.derive_secret(backend, "external"),
            epoch_secret.derive_secret(backend, "confirm"),
            epoch_secret.derive_secret(backend, "membership"),
            epoch_secret.derive_secret(backend, "resumption"),
        );
        match derived {
            (
                Ok(sender_data_secret),
                Ok(encryption_secret),
                Ok(exporter_secret),
                Ok(epoch_authenticator),
                Ok(external_secret),
                Ok(confirmation_key),
                Ok(membership_key),
                Ok(resumption_psk),
            ) => Ok(
                EpochSecrets {
                    init_secret,
                    sender_data_secret,
                    encryption_secret,
                    exporter_secret,
                    epoch_authenticator,
                    external_secret,
                    confirmation_key,
                    membership_key,
                    resumption_psk,
                },
            ),
            _ => Err(KeyScheduleError::CryptoError(CryptoError::CryptoLibraryError)),
        }
    }
}

} // verus!
