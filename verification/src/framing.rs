//! The messages of the protocol as they come from the wire, as far as the
//! handling of incoming messages looks into them.

use vstd::prelude::*;
use crate::group::GroupEpoch;
use crate::group::GroupId;
use crate::keys::Signature;
use crate::tree_math::LeafNodeIndex;
use crate::types::Ciphersuite;

verus! {

/// The formats of a message on the wire.
#[derive(Clone, Copy, Debug, PartialEq, Eq, Structural)]
pub enum WireFormat {
    /// A message that is signed but not encrypted.
    PublicMessage,
    /// A message that is encrypted.
    PrivateMessage,
    /// What a new member is welcomed with.
    Welcome,
    /// What describes a group to those outside it.
    GroupInfo,
    /// A key package.
    KeyPackage,
}

impl WireFormat {
    /// The value that stands for the format on the wire.
    pub open spec fn spec_value(self) -> u16 {
        match self {
            WireFormat::PublicMessage => 1,
            WireFormat::PrivateMessage => 2,
            WireFormat::Welcome => 3,
            WireFormat::GroupInfo => 4,
            WireFormat::KeyPackage => 5,
        }
    }

    /// The value that stands for the format on the wire.
    pub fn value(&self) -> (v: u16)
        ensures
            v == self.spec_value(),
    {
        match self {
            WireFormat::PublicMessage => 1,
            WireFormat::PrivateMessage => 2,
            WireFormat::Welcome => 3,
            WireFormat::GroupInfo => 4,
            WireFormat::KeyPackage => 5,
        }
    }

    /// The format that a wire value stands for, if any.
    pub fn from_value(v: u16) -> (r: Option<Self>)
        ensures
            r is Some == (1 <= v <= 5),
            r matches Some(format) ==> format.spec_value() == v,
    {
        match v {
            1 => Some(WireFormat::PublicMessage),
            2 => Some(WireFormat::PrivateMessage),
            3 => Some(WireFormat::Welcome),
            4 => Some(WireFormat::GroupInfo),
            5 => Some(WireFormat::KeyPackage),
            _ => None,
        }
    }
}

/// What a message within a group holds.
#[derive(Clone, Copy, Debug, PartialEq, Eq, Structural)]
pub enum ContentType {
    /// A message of the application.
    Application,
    /// A proposal to change the group.
    Proposal,
    /// A commit of proposals.
    Commit,
}

impl ContentType {
    /// The number that stands for the content type on the wire.
    pub open spec fn spec_value(self) -> u8 {
        match self {
            ContentType::Application => 1,
            ContentType::Proposal => 2,
            ContentType::Commit => 3,
        }
    }

    /// The number that stands for the content type on the wire.
    pub fn value(&self) -> (v: u8)
        ensures
            v == self.spec_value(),
    {
        match self {
            ContentType::Application => 1,
            ContentType::Proposal => 2,
            ContentType::Commit => 3,
        }
    }

    /// The content type that a number stands for, if it stands for one.
    pub fn from_value(v: u8) -> (r: Option<Self>)
        ensures
            r is Some == (1 <= v <= 3),
            r matches Some(content_type) ==> content_type.spec_value() == v,
    {
        match v {
            1 => Some(ContentType::Application),
            2 => Some(ContentType::Proposal),
            3 => Some(ContentType::Commit),
            _ => None,
        }
    }

    /// Whether the content is one of the handshake: a proposal or a commit.
    pub open spec fn spec_is_handshake_message(self) -> bool {
        self == ContentType::Proposal || self == ContentType::Commit
    }

    /// Whether the content is one of the handshake: a proposal or a commit.
    pub fn is_handshake_message(&self) -> (b: bool)
        ensures
            b == self.spec_is_handshake_message(),
    {
        match self {
            ContentType::Proposal | ContentType::Commit => true,
            ContentType::Application => false,
        }
    }
}

/// Who sent a message.
#[derive(Clone, Copy, Debug, PartialEq, Eq, Structural)]
pub enum Sender {
    /// The member at a leaf.
    Member(LeafNodeIndex),
    /// One of those who may send proposals from outside, by its place in
    /// their list.
    External(u32),
    /// A client that proposes to be added.
    NewMemberProposal,
    /// A client that joins by a commit of its own.
    NewMemberCommit,
}

impl Sender {
    /// Whether the sender is not a member.
    pub open spec fn spec_is_external(self) -> bool {
        !(self is Member)
    }

    /// Whether the sender is a member.
    pub fn is_member(&self) -> (b: bool)
        ensures
            b == self is Member,
    {
        match self {
            Sender::Member(_) => true,
            _ => false,
        }
    }
}

/// A message that is signed but not encrypted, as it comes from the wire.
#[derive(Debug, PartialEq, Eq)]
pub struct PublicMessageIn {
    pub group_id: GroupId,
    pub epoch: GroupEpoch,
    pub sender: Sender,
    pub authenticated_data: Vec<u8>,
    pub content_type: ContentType,
    /// The encoded proposal, commit or application data.
    pub content: Vec<u8>,
    pub signature: Signature,
    pub confirmation_tag: Option<Vec<u8>>,
    pub membership_tag: Option<Vec<u8>>,
}

impl PublicMessageIn {
    /// The group that the message is for.
    pub fn group_id(&self) -> (id: &GroupId)
        ensures
            *id == self.group_id,
    {
        &self.group_id
    }

    /// The epoch that the message is of.
    pub fn epoch(&self) -> (e: GroupEpoch)
        ensures
            e == self.epoch,
    {
        self.epoch
    }

    /// What the message holds.
    pub fn content_type(&self) -> (t: ContentType)
        ensures
            t == self.content_type,
    {
        self.content_type
    }

    /// Who sent the message.
    pub fn sender(&self) -> (s: &Sender)
        ensures
            *s == self.sender,
    {
        &self.sender
    }
}

/// A message that is signed but not encrypted, after it was verified or
/// before it is sent.
#[derive(Debug, PartialEq, Eq)]
pub struct PublicMessage {
    pub group_id: GroupId,
    pub epoch: GroupEpoch,
    pub sender: Sender,
    pub authenticated_data: Vec<u8>,
    pub content_type: ContentType,
    /// The encoded proposal, commit or application data.
    pub content: Vec<u8>,
    pub signature: Signature,
    pub confirmation_tag: Option<Vec<u8>>,
    pub membership_tag: Option<Vec<u8>>,
}

impl PublicMessage {
    /// What the message holds.
    pub fn content_type(&self) -> (t: ContentType)
        ensures
            t == self.content_type,
    {
        self.content_type
    }

    /// The message from the wire with the same fields.
    pub open spec fn as_message_in(self) -> PublicMessageIn {
        PublicMessageIn {
            group_id: self.group_id,
            epoch: self.epoch,
            sender: self.sender,
            authenticated_data: self.authenticated_data,
            content_type: self.content_type,
            content: self.content,
            signature: self.signature,
            confirmation_tag: self.confirmation_tag,
            membership_tag: self.membership_tag,
        }
    }

    /// The message as one that comes from the wire.
    pub fn into_public_message_in(self) -> (m: PublicMessageIn)
        ensures
            m == self.as_message_in(),
    {
        PublicMessageIn {
            group_id: self.group_id,
            epoch: self.epoch,
            sender: self.sender,
            authenticated_data: self.authenticated_data,
            content_type: self.content_type,
            content: self.content,
            signature: self.signature,
            confirmation_tag: self.confirmation_tag,
            membership_tag: self.membership_tag,
        }
    }
}

impl PublicMessageIn {
    /// The message taken as it is, without verifying it.
    pub fn into_public_message(self) -> (m: PublicMessage)
        ensures
            m.as_message_in() == self,
    {
        PublicMessage {
            group_id: self.group_id,
            epoch: self.epoch,
            sender: self.sender,
            authenticated_data: self.authenticated_data,
            content_type: self.content_type,
            content: self.content,
            signature: self.signature,
            confirmation_tag: self.confirmation_tag,
            membership_tag: self.membership_tag,
        }
    }
}

/// A message that is encrypted, as it comes from the wire.
#[derive(Debug, PartialEq, Eq)]
pub struct PrivateMessageIn {
    pub group_id: GroupId,
    pub epoch: GroupEpoch,
    pub content_type: ContentType,
    pub authenticated_data: Vec<u8>,
    pub encrypted_sender_data: Vec<u8>,
    pub ciphertext: Vec<u8>,
}

impl PrivateMessageIn {
    /// The group that the message is for.
    pub fn group_id(&self) -> (id: &GroupId)
        ensures
            *id == self.group_id,
    {
        &self.group_id
    }

    /// The epoch that the message is of.
    pub fn epoch(&self) -> (e: GroupEpoch)
        ensures
            e == self.epoch,
    {
        self.epoch
    }

    /// What the message holds.
    pub fn content_type(&self) -> (t: ContentType)
        ensures
            t == self.content_type,
    {
        self.content_type
    }
}

/// What an encrypted message is.
pub struct PrivateMessageView {
    pub group_id: Seq<u8>,
    pub epoch: u64,
    pub content_type: ContentType,
    pub authenticated_data: Seq<u8>,
    pub encrypted_sender_data: Seq<u8>,
    pub ciphertext: Seq<u8>,
}

impl View for PrivateMessageIn {
    type V = PrivateMessageView;

    open spec fn view(&self) -> PrivateMessageView {
        PrivateMessageView {
            group_id: self.group_id@,
            epoch: self.epoch.0,
            content_type: self.content_type,
            authenticated_data: self.authenticated_data@,
            encrypted_sender_data: self.encrypted_sender_data@,
            ciphertext: self.ciphertext@,
        }
    }
}

impl View for PrivateMessage {
    type V = PrivateMessageView;

    open spec fn view(&self) -> PrivateMessageView {
        self.as_message_in()@
    }
}

/// A message that is encrypted, before it is sent.
#[derive(Debug, PartialEq, Eq)]
pub struct PrivateMessage {
    pub group_id: GroupId,
    pub epoch: GroupEpoch,
    pub content_type: ContentType,
    pub authenticated_data: Vec<u8>,
    pub encrypted_sender_data: Vec<u8>,
    pub ciphertext: Vec<u8>,
}

impl PrivateMessage {
    /// The message from the wire with the same fields.
    pub open spec fn as_message_in(self) -> PrivateMessageIn {
        PrivateMessageIn {
            group_id: self.group_id,
            epoch: self.epoch,
            content_type: self.content_type,
            authenticated_data: self.authenticated_data,
            encrypted_sender_data: self.encrypted_sender_data,
            ciphertext: self.ciphertext,
        }
    }

    /// The message as one that comes from the wire.
    pub fn into_private_message_in(self) -> (m: PrivateMessageIn)
        ensures
            m == self.as_message_in(),
    {
        PrivateMessageIn {
            group_id: self.group_id,
            epoch: self.epoch,
            content_type: self.content_type,
            authenticated_data: self.authenticated_data,
            encrypted_sender_data: self.encrypted_sender_data,
            ciphertext: self.ciphertext,
        }
    }
}

/// An HPKE ciphertext: what the key encapsulation gives, and the encrypted
/// bytes.
#[derive(Debug, PartialEq, Eq)]
pub struct HpkeCiphertext {
    pub kem_output: Vec<u8>,
    pub ciphertext: Vec<u8>,
}

/// The secrets of a group encrypted to one new member.
#[derive(Debug, PartialEq, Eq)]
pub struct EncryptedGroupSecrets {
    /// The reference of the key package that the member was added with.
    pub new_member: Vec<u8>,
    pub encrypted_group_secrets: HpkeCiphertext,
}

/// What new members are welcomed with.
#[derive(Debug, PartialEq, Eq)]
pub struct Welcome {
    pub cipher_suite: Ciphersuite,
    pub secrets: Vec<EncryptedGroupSecrets>,
    pub encrypted_group_info: Vec<u8>,
}

impl Welcome {
    /// The ciphersuite.
    pub fn ciphersuite(&self) -> (c: Ciphersuite)
        ensures
            c == self.cipher_suite,
    {
        self.cipher_suite
    }

    /// The secrets, one for each new member.
    pub fn secrets(&self) -> (s: &[EncryptedGroupSecrets])
        ensures
            s@ == self.secrets@,
    {
        self.secrets.as_slice()
    }

    /// The encrypted description of the group.
    pub fn encrypted_group_info(&self) -> (b: &[u8])
        ensures
            b@ == self.encrypted_group_info@,
    {
        self.encrypted_group_info.as_slice()
    }
}

/// What describes a group to those outside it, not yet verified.
#[derive(Debug, PartialEq, Eq)]
pub struct VerifiableGroupInfo {
    /// The encoded description: the group context, the extensions and the
    /// confirmation tag.
    pub payload: Vec<u8>,
    /// The member that signed.
    pub signer: LeafNodeIndex,
    pub signature: Signature,
}

} // verus!
