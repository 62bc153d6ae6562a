//! Signing and verifying under a label: what is signed is the label and the
//! content, each as a vector.

use vstd::prelude::*;
use vstd::string::StringSliceAdditionalSpecFns;
use openmls_rust_crypto::OpenMlsRustCrypto;
use crate::bytes::append_bytes;
use crate::bytes::copy_bytes;
use crate::codec::append_vector;
use crate::codec::vector_encoding;
use crate::codec::CodecError;
use crate::codec::MAX_VECTOR_LENGTH;
use crate::keys::Signature;
use crate::keys::SignatureKeyPair;
use crate::keys::SignatureKeyPairView;
use crate::provider::ed25519_signature;
use crate::provider::provider_verify_signature;
use crate::provider::signature_accepted;
use crate::provider::signer_sign;
use crate::secret::full_label;
use crate::secret::label_prefix_bytes;
use crate::types::SignatureScheme;

verus! {

/// Failures of signing and verifying.
#[derive(Clone, Copy, Debug, PartialEq, Eq, Structural)]
pub enum SignatureError {
    /// The signature was not accepted.
    VerificationError,
    /// No signature was made.
    SigningError,
}

/// The bytes that are signed for a content under a label.
pub open spec fn sign_content_encoding(label: Seq<u8>, content: Seq<u8>) -> Seq<u8> {
    vector_encoding(full_label(label)) + vector_encoding(content)
}

/// Whether a content can be signed under a label: neither is too long.
pub open spec fn sign_content_encodable(label: Seq<u8>, content: Seq<u8>) -> bool {
    full_label(label).len() <= MAX_VECTOR_LENGTH && content.len() <= MAX_VECTOR_LENGTH
}

/// The bytes that are signed for a content under a label.
pub fn sign_content(label: &str, content: &[u8]) -> (r: Result<Vec<u8>, CodecError>)
    ensures
        sign_content_encodable(label.spec_bytes(), content@) ==> r is Ok && r.unwrap()@ == sign_content_encoding(label.spec_bytes(), content@),
        !sign_content_encodable(label.spec_bytes(), content@) ==> r == Err::<Vec<u8>, CodecError>(CodecError::InvalidVectorLength),
{
    let mut full: Vec<u8> = label_prefix_bytes();
    append_bytes(&mut full, label.as_bytes());
    let mut out: Vec<u8> = Vec::new();
    match append_vector(&mut out, full.as_slice()) {
        Err(e) => {
            return Err(e);
        },
        Ok(()) => {},
    }
    match append_vector(&mut out, content) {
        Err(e) => {
            return Err(e);
        },
        Ok(()) => {},
    }
    assert(out@ == sign_content_encoding(label.spec_bytes(), content@));
    Ok(out)
}

/// The signature that a key pair makes of a payload, if it makes one: only
/// Ed25519 key pairs sign.
pub open spec fn spec_sign(signer: SignatureKeyPairView, payload: Seq<u8>) -> Option<Seq<u8>> {
    if signer.signature_scheme == SignatureScheme::ED25519 {
        ed25519_signature(signer.private, payload)
    } else {
        None
    }
}

/// The signature that a key pair makes of a content under a label, if it
/// makes one.
pub open spec fn spec_sign_with_label(signer: SignatureKeyPairView, label: Seq<u8>, content: Seq<u8>) -> Option<Seq<u8>> {
    if sign_content_encodable(label, content) {
        spec_sign(signer, sign_content_encoding(label, content))
    } else {
        None
    }
}

/// Signs a payload. Fails with `SigningError` where the key pair is not one
/// of Ed25519 or the signer makes no signature.
pub fn sign(signer: &SignatureKeyPair, payload: &[u8]) -> (r: Result<Vec<u8>, SignatureError>)
    ensures
        r is Ok == spec_sign(signer@, payload@) is Some,
        r matches Ok(signature) ==> signature@ == spec_sign(signer@, payload@).unwrap(),
        r matches Err(e) ==> e == SignatureError::SigningError,
{
    match signer.signature_scheme() {
        SignatureScheme::ED25519 => match signer_sign(signer.signature_scheme(), signer.private(), signer.public(), payload) {
            Some(signature) => Ok(signature),
            None => Err(SignatureError::SigningError),
        },
        _ => Err(SignatureError::SigningError),
    }
}

/// Signs a content under a label. Fails with `SigningError` where the
/// content or the label is too long or no signature is made.
pub fn sign_with_label(signer: &SignatureKeyPair, label: &str, content: &[u8]) -> (r: Result<Signature, SignatureError>)
    ensures
        r is Ok == spec_sign_with_label(signer@, label.spec_bytes(), content@) is Some,
        r matches Ok(signature) ==> signature@ == spec_sign_with_label(signer@, label.spec_bytes(), content@).unwrap(),
        r matches Err(e) ==> e == SignatureError::SigningError,
{
    let payload = match sign_content(label, content) {
        Ok(payload) => payload,
        Err(_) => {
            return Err(SignatureError::SigningError);
        },
    };
    match sign(signer, payload.as_slice()) {
        Ok(signature) => Ok(Signature::new(signature)),
        Err(e) => Err(e),
    }
}

/// What a public key to verify with is: its scheme and its bytes.
pub struct VerificationKeyView {
    pub signature_scheme: SignatureScheme,
    pub value: Seq<u8>,
}

/// A public key to verify signatures with, and its scheme.
#[derive(Debug, PartialEq, Eq)]
pub struct OpenMlsSignaturePublicKey {
    signature_scheme: SignatureScheme,
    value: Vec<u8>,
}

impl View for OpenMlsSignaturePublicKey {
    type V = VerificationKeyView;

    closed spec fn view(&self) -> VerificationKeyView {
        VerificationKeyView { signature_scheme: self.signature_scheme, value: self.value@ }
    }
}

/// Whether a signature has a form that can be verified at all: an Ed25519
/// signature of 64 bytes has the three highest bits of its last byte unset.
pub open spec fn is_verifiable_signature(scheme: SignatureScheme, signature: Seq<u8>) -> bool {
    scheme == SignatureScheme::ED25519 && signature.len() == 64 ==> signature[63] < 0x20
}

/// Whether a signature of a content under a label is accepted under a key:
/// the content can be encoded, the signature has a form that can be
/// verified, and the provider accepts it.
pub open spec fn spec_verify_with_label(key: VerificationKeyView, label: Seq<u8>, content: Seq<u8>, signature: Seq<u8>) -> bool {
    sign_content_encodable(label, content) && is_verifiable_signature(key.signature_scheme, signature) && signature_accepted(
        key.signature_scheme,
        sign_content_encoding(label, content),
        key.value,
        signature,
    )
}

/// Whether a signature has a form that can be verified at all.
pub fn has_verifiable_form(scheme: SignatureScheme, signature: &[u8]) -> (b: bool)
    ensures
        b == is_verifiable_signature(scheme, signature@),
{
    match scheme {
        SignatureScheme::ED25519 => signature.len() != 64 || signature[63] < 0x20,
        _ => true,
    }
}

impl OpenMlsSignaturePublicKey {
    /// The key of the scheme given that the bytes are.
    pub fn new(value: Vec<u8>, signature_scheme: SignatureScheme) -> (k: Self)
        ensures
            k@ == (VerificationKeyView { signature_scheme, value: value@ }),
    {
        OpenMlsSignaturePublicKey { signature_scheme, value }
    }

    /// The key of the scheme given with the bytes of a signature key.
    pub fn from_signature_key(key: &[u8], signature_scheme: SignatureScheme) -> (k: Self)
        ensures
            k@ == (VerificationKeyView { signature_scheme, value: key@ }),
    {
        OpenMlsSignaturePublicKey { signature_scheme, value: copy_bytes(key) }
    }

    /// The scheme of the key.
    pub fn signature_scheme(&self) -> (s: SignatureScheme)
        ensures
            s == self@.signature_scheme,
    {
        self.signature_scheme
    }

    /// The bytes of the key.
    pub fn as_slice(&self) -> (b: &[u8])
        ensures
            b@ == self@.value,
    {
        self.value.as_slice()
    }

    /// Verifies a signature of a content under a label. Fails with
    /// `VerificationError` where the signature is not accepted.
    pub fn verify_with_label(&self, backend: &OpenMlsRustCrypto, label: &str, content: &[u8], signature: &Signature) -> (r: Result<(), SignatureError>)
        ensures
            r is Ok == spec_verify_with_label(self@, label.spec_bytes(), content@, signature@),
            r matches Err(e) ==> e == SignatureError::VerificationError,
    {
        let payload = match sign_content(label, content) {
            Ok(payload) => payload,
            Err(_) => {
                return Err(SignatureError::VerificationError);
            },
        };
        if !has_verifiable_form(self.signature_scheme, signature.as_slice()) {
            return Err(SignatureError::VerificationError);
        }
        if provider_verify_signature(backend, self.signature_scheme, payload.as_slice(), self.value.as_slice(), signature.as_slice()) {
            Ok(())
        } else {
            Err(SignatureError::VerificationError)
        }
    }
}

} // verus!
