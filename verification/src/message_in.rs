//! Incoming messages: what comes from the delivery service, before a group
//! has looked at it.
//!
//! A message holds one of five things. The wire format is not kept beside
//! the body: it is read off the body, so that the two cannot contradict
//! each other.

use vstd::prelude::*;
use crate::framing::ContentType;
use crate::framing::PrivateMessageIn;
use crate::framing::PublicMessage;
use crate::framing::PublicMessageIn;
use crate::framing::Sender;
use crate::framing::VerifiableGroupInfo;
use crate::framing::Welcome;
use crate::framing::WireFormat;
use crate::group::GroupEpoch;
use crate::group::GroupId;
use crate::key_package::KeyPackage;
use crate::key_package::KeyPackageIn;
use crate::types::ProtocolVersion;

verus! {

/// An incoming message.
#[derive(Debug)]
pub struct MlsMessageIn {
    pub version: ProtocolVersion,
    pub body: MlsMessageInBody,
}

/// What an incoming message holds.
#[derive(Debug)]
pub enum MlsMessageInBody {
    /// Plaintext message
    PublicMessage(PublicMessageIn),
    /// Ciphertext message
    PrivateMessage(PrivateMessageIn),
    /// Welcome message
    Welcome(Welcome),
    /// Group information
    GroupInfo(VerifiableGroupInfo),
    /// KeyPackage
    KeyPackage(KeyPackageIn),
}

impl MlsMessageInBody {
    /// The wire format of a body.
    pub open spec fn spec_wire_format(self) -> WireFormat {
        match self {
            MlsMessageInBody::PublicMessage(_) => WireFormat::PublicMessage,
            MlsMessageInBody::PrivateMessage(_) => WireFormat::PrivateMessage,
            MlsMessageInBody::Welcome(_) => WireFormat::Welcome,
            MlsMessageInBody::GroupInfo(_) => WireFormat::GroupInfo,
            MlsMessageInBody::KeyPackage(_) => WireFormat::KeyPackage,
        }
    }
}

/// A message for a group: one that is signed, or one that is encrypted.
#[derive(Debug)]
pub enum ProtocolMessage {
    /// A message that is encrypted.
    PrivateMessage(PrivateMessageIn),
    /// A message that is signed but not encrypted.
    PublicMessage(PublicMessageIn),
}

impl MlsMessageIn {
    /// The wire format.
    pub fn wire_format(&self) -> (format: WireFormat)
        ensures
            format == self.body.spec_wire_format(),
    {
        match self.body {
            MlsMessageInBody::PrivateMessage(_) => WireFormat::PrivateMessage,
            MlsMessageInBody::PublicMessage(_) => WireFormat::PublicMessage,
            MlsMessageInBody::Welcome(_) => WireFormat::Welcome,
            MlsMessageInBody::GroupInfo(_) => WireFormat::GroupInfo,
            MlsMessageInBody::KeyPackage(_) => WireFormat::KeyPackage,
        }
    }

    /// What the message holds.
    pub fn extract(self) -> (body: MlsMessageInBody)
        ensures
            body == self.body,
    {
        self.body
    }

    /// The key package that the message holds, taken without verifying it;
    /// none where it holds something else.
    pub fn into_keypackage(self) -> (r: Option<KeyPackage>)
        ensures
            r is Some == self.body is KeyPackage,
            r matches Some(key_package) ==> key_package@ == self.body->KeyPackage_0@,
    {
        match self.body {
            MlsMessageInBody::KeyPackage(kp) => Some(kp.into_key_package()),
            _ => None,
        }
    }

    /// The signed message that the message holds, taken without verifying
    /// it; none where it holds something else.
    pub fn into_plaintext(self) -> (r: Option<PublicMessage>)
        ensures
            r is Some == self.body is PublicMessage,
            r matches Some(m) ==> m.group_id == self.body->PublicMessage_0.group_id && m.epoch == self.body->PublicMessage_0.epoch && m.sender
                == self.body->PublicMessage_0.sender && m.content_type == self.body->PublicMessage_0.content_type && m.content == self.body->PublicMessage_0.content
                && m.authenticated_data == self.body->PublicMessage_0.authenticated_data && m.signature == self.body->PublicMessage_0.signature && m.confirmation_tag
                == self.body->PublicMessage_0.confirmation_tag && m.membership_tag == self.body->PublicMessage_0.membership_tag,
    {
        match self.body {
            MlsMessageInBody::PublicMessage(m) => Some(m.into_public_message()),
            _ => None,
        }
    }

    /// The encrypted message that the message holds; none where it holds
    /// something else.
    pub fn into_ciphertext(self) -> (r: Option<PrivateMessageIn>)
        ensures
            r is Some == self.body is PrivateMessage,
            r matches Some(m) ==> m == self.body->PrivateMessage_0,
    {
        match self.body {
            MlsMessageInBody::PrivateMessage(m) => Some(m),
            _ => None,
        }
    }

    /// The welcome that the message holds; none where it holds something
    /// else.
    pub fn into_welcome(self) -> (r: Option<Welcome>)
        ensures
            r is Some == self.body is Welcome,
            r matches Some(w) ==> w == self.body->Welcome_0,
    {
        match self.body {
            MlsMessageInBody::Welcome(w) => Some(w),
            _ => None,
        }
    }

    /// The message for a group that the message holds; none where it holds
    /// something else.
    pub fn into_protocol_message(self) -> (r: Option<ProtocolMessage>)
        ensures
            r is Some == (self.body is PublicMessage || self.body is PrivateMessage),
            self.body matches MlsMessageInBody::PublicMessage(m) ==> r == Some(ProtocolMessage::PublicMessage(m)),
            self.body matches MlsMessageInBody::PrivateMessage(m) ==> r == Some(ProtocolMessage::PrivateMessage(m)),
    {
        match self.body {
            MlsMessageInBody::PublicMessage(m) => Some(ProtocolMessage::PublicMessage(m)),
            MlsMessageInBody::PrivateMessage(m) => Some(ProtocolMessage::PrivateMessage(m)),
            _ => None,
        }
    }

    /// The description of a group that the message holds; none where it
    /// holds something else.
    pub fn into_verifiable_group_info(self) -> (r: Option<VerifiableGroupInfo>)
        ensures
            r is Some == self.body is GroupInfo,
            r matches Some(group_info) ==> group_info == self.body->GroupInfo_0,
    {
        match self.body {
            MlsMessageInBody::GroupInfo(group_info) => Some(group_info),
            _ => None,
        }
    }
}

impl ProtocolMessage {
    /// What the message holds.
    pub open spec fn spec_content_type(self) -> ContentType {
        match self {
            ProtocolMessage::PrivateMessage(m) => m.content_type,
            ProtocolMessage::PublicMessage(m) => m.content_type,
        }
    }

    /// Whether the message comes from outside the group: it is signed but
    /// not encrypted, and its sender is not a member. A message from
    /// outside cannot be encrypted.
    pub open spec fn spec_is_external(self) -> bool {
        match self {
            ProtocolMessage::PublicMessage(m) => m.sender.spec_is_external(),
            ProtocolMessage::PrivateMessage(_) => false,
        }
    }

    /// The wire format.
    pub fn wire_format(&self) -> (format: WireFormat)
        ensures
            self is PrivateMessage ==> format == WireFormat::PrivateMessage,
            self is PublicMessage ==> format == WireFormat::PublicMessage,
    {
        match self {
            ProtocolMessage::PrivateMessage(_) => WireFormat::PrivateMessage,
            ProtocolMessage::PublicMessage(_) => WireFormat::PublicMessage,
        }
    }

    /// The group that the message is for.
    pub fn group_id(&self) -> (id: &GroupId)
        ensures
            self matches ProtocolMessage::PrivateMessage(m) ==> *id == m.group_id,
            self matches ProtocolMessage::PublicMessage(m) ==> *id == m.group_id,
    {
        match self {
            ProtocolMessage::PrivateMessage(m) => m.group_id(),
            ProtocolMessage::PublicMessage(m) => m.group_id(),
        }
    }

    /// The epoch that the message is of.
    pub fn epoch(&self) -> (e: GroupEpoch)
        ensures
            self matches ProtocolMessage::PrivateMessage(m) ==> e == m.epoch,
            self matches ProtocolMessage::PublicMessage(m) ==> e == m.epoch,
    {
        match self {
            ProtocolMessage::PrivateMessage(m) => m.epoch(),
            ProtocolMessage::PublicMessage(m) => m.epoch(),
        }
    }

    /// What the message holds.
    pub fn content_type(&self) -> (t: ContentType)
        ensures
            t == self.spec_content_type(),
    {
        match self {
            ProtocolMessage::PrivateMessage(m) => m.content_type(),
            ProtocolMessage::PublicMessage(m) => m.content_type(),
        }
    }

    /// Whether the message is a proposal or a commit from outside the
    /// group.
    pub fn is_external(&self) -> (b: bool)
        ensures
            b == self.spec_is_external(),
    {
        match self {
            ProtocolMessage::PublicMessage(p) => {
                match p.sender() {
                    Sender::NewMemberProposal | Sender::NewMemberCommit | Sender::External(_) => true,
                    Sender::Member(_) => false,
                }
            },
            // a message from outside cannot be encrypted
            ProtocolMessage::PrivateMessage(_) => false,
        }
    }

    /// Whether the message is one of the handshake: a proposal or a commit.
    pub fn is_handshake_message(&self) -> (b: bool)
        ensures
            b == self.spec_content_type().spec_is_handshake_message(),
    {
        self.content_type().is_handshake_message()
    }

    /// The message for a group that a signed message is.
    pub fn from_public_message(msg: PublicMessage) -> (r: Self)
        ensures
            r == ProtocolMessage::PublicMessage(msg.as_message_in()),
    {
        ProtocolMessage::PublicMessage(msg.into_public_message_in())
    }
}

impl From<PrivateMessageIn> for ProtocolMessage {
    fn from(private_message: PrivateMessageIn) -> (r: Self) {
        ProtocolMessage::PrivateMessage(private_message)
    }
}

impl vstd::std_specs::convert::FromSpecImpl<PrivateMessageIn> for ProtocolMessage {
    open spec fn obeys_from_spec() -> bool {
        true
    }

    open spec fn from_spec(private_message: PrivateMessageIn) -> Self {
        ProtocolMessage::PrivateMessage(private_message)
    }
}

impl From<PublicMessageIn> for ProtocolMessage {
    fn from(public_message: PublicMessageIn) -> (r: Self) {
        ProtocolMessage::PublicMessage(public_message)
    }
}

impl vstd::std_specs::convert::FromSpecImpl<PublicMessageIn> for ProtocolMessage {
    open spec fn obeys_from_spec() -> bool {
        true
    }

    open spec fn from_spec(public_message: PublicMessageIn) -> Self {
        ProtocolMessage::PublicMessage(public_message)
    }
}

} // verus!
