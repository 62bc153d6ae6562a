//! Credentials: what a member says of its identity.

use vstd::prelude::*;
use crate::bytes::bytes_equal;
use crate::bytes::copy_bytes;
use crate::codec::append_u16;
use crate::codec::append_vector;
use crate::codec::u16_encoding;
use crate::codec::vector_encoding;
use crate::codec::CodecError;
use crate::codec::MAX_VECTOR_LENGTH;
use crate::keys::SignaturePublicKey;

verus! {

/// The kinds of credential.
#[derive(Clone, Copy, Debug, PartialEq, Eq, Structural)]
pub enum CredentialType {
    /// An identity that the member asserts.
    Basic,
    /// A chain of X.509 certificates.
    X509,
    /// Another kind, by its wire value.
    Unknown(u16),
}

impl CredentialType {
    /// The value that stands for the kind on the wire.
    pub open spec fn spec_value(self) -> u16 {
        match self {
            CredentialType::Basic => 1,
            CredentialType::X509 => 2,
            CredentialType::Unknown(v) => v,
        }
    }

    /// The value that stands for the kind on the wire.
    pub fn value(&self) -> (v: u16)
        ensures
            v == self.spec_value(),
    {
        match self {
            CredentialType::Basic => 1,
            CredentialType::X509 => 2,
            CredentialType::Unknown(v) => *v,
        }
    }

    /// The kind that a wire value stands for.
    pub fn from_value(v: u16) -> (t: Self)
        ensures
            t.spec_value() == v,
            t is Unknown <==> v != 1 && v != 2,
    {
        match v {
            1 => CredentialType::Basic,
            2 => CredentialType::X509,
            other => CredentialType::Unknown(other),
        }
    }
}

/// Failures on credentials.
#[derive(Clone, Copy, Debug, PartialEq, Eq, Structural)]
pub enum CredentialError {
    /// A credential of this kind cannot be made.
    UnsupportedCredentialType,
    /// The credential's signature is not valid.
    InvalidSignature,
}

/// What a credential is: its kind and the identity it asserts.
pub struct CredentialView {
    pub credential_type: CredentialType,
    pub identity: Seq<u8>,
}

/// A credential.
#[derive(Debug, PartialEq, Eq)]
pub struct Credential {
    credential_type: CredentialType,
    identity: Vec<u8>,
}

/// The encoding of a credential: its kind, then the identity as a vector.
pub open spec fn credential_encoding(credential: CredentialView) -> Seq<u8> {
    u16_encoding(credential.credential_type.spec_value()) + vector_encoding(credential.identity)
}

/// Whether a credential can be encoded: its identity is not too long.
pub open spec fn credential_encodable(credential: CredentialView) -> bool {
    credential.identity.len() <= MAX_VECTOR_LENGTH
}

impl View for Credential {
    type V = CredentialView;

    closed spec fn view(&self) -> CredentialView {
        CredentialView { credential_type: self.credential_type, identity: self.identity@ }
    }
}

impl Credential {
    /// A credential of the kind given for an identity. Only basic
    /// credentials are made: another kind fails with
    /// `UnsupportedCredentialType`.
    pub fn new(identity: Vec<u8>, credential_type: CredentialType) -> (r: Result<Self, CredentialError>)
        ensures
            credential_type == CredentialType::Basic ==> r is Ok && r.unwrap()@ == (CredentialView { credential_type, identity: identity@ }),
            credential_type != CredentialType::Basic ==> r == Err::<Self, CredentialError>(CredentialError::UnsupportedCredentialType),
    {
        match credential_type {
            CredentialType::Basic => Ok(Credential { credential_type, identity }),
            _ => Err(CredentialError::UnsupportedCredentialType),
        }
    }

    /// The credential of a kind with a content, as it comes from the wire.
    pub fn from_parts(credential_type: CredentialType, identity: Vec<u8>) -> (c: Self)
        ensures
            c@ == (CredentialView { credential_type, identity: identity@ }),
    {
        Credential { credential_type, identity }
    }

    /// The kind of the credential.
    pub fn credential_type(&self) -> (t: CredentialType)
        ensures
            t == self@.credential_type,
    {
        self.credential_type
    }

    /// The identity that the credential asserts.
    pub fn identity(&self) -> (b: &[u8])
        ensures
            b@ == self@.identity,
    {
        self.identity.as_slice()
    }

    /// Whether two credentials are the same.
    pub fn equals(&self, other: &Self) -> (b: bool)
        ensures
            b == (self@ == other@),
    {
        self.credential_type == other.credential_type && bytes_equal(self.identity.as_slice(), other.identity.as_slice())
    }

    /// A copy of the credential.
    pub fn duplicate(&self) -> (c: Self)
        ensures
            c@ == self@,
    {
        Credential { credential_type: self.credential_type, identity: copy_bytes(self.identity.as_slice()) }
    }

    /// Appends the encoding of the credential. Fails, and leaves `out` as it
    /// was, where the identity is too long.
    pub fn append_encoding(&self, out: &mut Vec<u8>) -> (r: Result<(), CodecError>)
        ensures
            credential_encodable(self@) ==> r is Ok && final(out)@ == old(out)@ + credential_encoding(self@),
            !credential_encodable(self@) ==> r == Err::<(), CodecError>(CodecError::InvalidVectorLength) && final(out)@ == old(out)@,
    {
        if self.identity.len() > MAX_VECTOR_LENGTH {
            return Err(CodecError::InvalidVectorLength);
        }
        append_u16(out, self.credential_type.value());
        let r = append_vector(out, self.identity.as_slice());
        assert(r is Ok);
        assert(out@ == old(out)@ + credential_encoding(self@));
        r
    }
}

/// A credential with the key that signs for it.
#[derive(Debug, PartialEq, Eq)]
pub struct CredentialWithKey {
    /// The credential.
    pub credential: Credential,
    /// The public key of the key pair that signs for the credential.
    pub signature_key: SignaturePublicKey,
}

} // verus!
