//! HPKE encryption under a label: the label and a context make up the info
//! string of the encryption.

use vstd::prelude::*;
use vstd::string::StringSliceAdditionalSpecFns;
use openmls_rust_crypto::OpenMlsRustCrypto;
use crate::bytes::append_bytes;
use crate::codec::append_vector;
use crate::codec::vector_encoding;
use crate::codec::CodecError;
use crate::codec::MAX_VECTOR_LENGTH;
use crate::framing::HpkeCiphertext;
use crate::provider::hpke_open_output;
use crate::provider::provider_hpke_open;
use crate::provider::provider_hpke_seal;
use crate::secret::full_label;
use crate::secret::label_prefix_bytes;
use crate::types::Ciphersuite;
use crate::types::CryptoError;
use crate::types::HpkeKemType;
use crate::types::LibraryError;

verus! {

/// Failures of HPKE encryption and decryption.
#[derive(Clone, Copy, Debug, PartialEq, Eq, Structural)]
pub enum HpkeError {
    /// A condition that the library relies on was broken.
    LibraryError(LibraryError),
    /// The ciphertext was not decrypted.
    DecryptionFailed,
}

/// The info string of an encryption under a label: the label with the
/// protocol's prefix and the context, each as a vector.
pub open spec fn encrypt_context_encoding(label: Seq<u8>, context: Seq<u8>) -> Seq<u8> {
    vector_encoding(full_label(label)) + vector_encoding(context)
}

/// Whether the info string of an encryption under a label can be made.
pub open spec fn encrypt_context_encodable(label: Seq<u8>, context: Seq<u8>) -> bool {
    full_label(label).len() <= MAX_VECTOR_LENGTH && context.len() <= MAX_VECTOR_LENGTH
}

/// The info string of an encryption under a label.
pub fn encrypt_context(label: &str, context: &[u8]) -> (r: Result<Vec<u8>, CodecError>)
    ensures
        encrypt_context_encodable(label.spec_bytes(), context@) ==> r is Ok && r.unwrap()@ == encrypt_context_encoding(label.spec_bytes(), context@),
        !encrypt_context_encodable(label.spec_bytes(), context@) ==> r == Err::<Vec<u8>, CodecError>(CodecError::InvalidVectorLength),
{
    let mut full: Vec<u8> = label_prefix_bytes();
    append_bytes(&mut full, label.as_bytes());
    let mut out: Vec<u8> = Vec::new();
    match append_vector(&mut out, full.as_slice()) {
        Err(e) => {
            return Err(e);
        },
        Ok(()) => {},
    }
    match append_vector(&mut out, context) {
        Err(e) => {
            return Err(e);
        },
        Ok(()) => {},
    }
    assert(out@ == encrypt_context_encoding(label.spec_bytes(), context@));
    Ok(out)
}

/// Whether the library encrypts and decrypts with HPKE under a
/// ciphersuite: its key encapsulation is over x25519.
pub open spec fn encrypts_with(ciphersuite: Ciphersuite) -> bool {
    ciphersuite.spec_hpke_config().kem == HpkeKemType::DhKem25519
}

/// The error that stands in the way of an encryption, if any: a
/// ciphersuite that is not encrypted with, an info string that cannot be
/// made, a public key that is not of 32 bytes or a plaintext that is too
/// long.
pub open spec fn encryption_obstacle(public_key: Seq<u8>, label: Seq<u8>, context: Seq<u8>, plaintext: Seq<u8>, ciphersuite: Ciphersuite) -> Option<HpkeError> {
    if !encrypts_with(ciphersuite) {
        Some(HpkeError::LibraryError(LibraryError::UnexpectedCryptoError(CryptoError::UnsupportedCiphersuite)))
    } else if !encrypt_context_encodable(label, context) {
        Some(HpkeError::LibraryError(LibraryError::MissingBoundsCheck))
    } else if public_key.len() != 32 || plaintext.len() > MAX_VECTOR_LENGTH {
        Some(HpkeError::LibraryError(LibraryError::UnexpectedCryptoError(CryptoError::InvalidLength)))
    } else {
        None
    }
}

/// What decrypting a ciphertext under a label gives: the plaintext, or the
/// error.
pub open spec fn spec_decrypt_with_label(
    private_key: Seq<u8>,
    label: Seq<u8>,
    context: Seq<u8>,
    kem_output: Seq<u8>,
    ciphertext: Seq<u8>,
    ciphersuite: Ciphersuite,
) -> Result<Seq<u8>, HpkeError> {
    if !encrypts_with(ciphersuite) {
        Err(HpkeError::LibraryError(LibraryError::UnexpectedCryptoError(CryptoError::UnsupportedCiphersuite)))
    } else if !encrypt_context_encodable(label, context) {
        Err(HpkeError::LibraryError(LibraryError::MissingBoundsCheck))
    } else {
        match hpke_open_output(ciphersuite.spec_hpke_config(), kem_output, ciphertext, private_key, encrypt_context_encoding(label, context), Seq::empty()) {
            Some(plaintext) => Ok(plaintext),
            None => Err(HpkeError::DecryptionFailed),
        }
    }
}

/// Encrypts a plaintext to a public key under a label and a context. The
/// output of the key encapsulation has 32 bytes and the ciphertext 16 more
/// than the plaintext; what they hold depends on the randomness of the
/// provider.
pub fn encrypt_with_label(public_key: &[u8], label: &str, context: &[u8], plaintext: &[u8], ciphersuite: Ciphersuite, backend: &OpenMlsRustCrypto) -> (r: Result<
    HpkeCiphertext,
    HpkeError,
>)
    ensures
        r is Ok == encryption_obstacle(public_key@, label.spec_bytes(), context@, plaintext@, ciphersuite) is None,
        r matches Err(e) ==> encryption_obstacle(public_key@, label.spec_bytes(), context@, plaintext@, ciphersuite) == Some(e),
        r matches Ok(sealed) ==> sealed.kem_output@.len() == 32 && sealed.ciphertext@.len() == plaintext@.len() + 16,
{
    let config = ciphersuite.hpke_config();
    match config.kem {
        HpkeKemType::DhKem25519 => {},
        _ => {
            return Err(HpkeError::LibraryError(LibraryError::UnexpectedCryptoError(CryptoError::UnsupportedCiphersuite)));
        },
    }
    let info = match encrypt_context(label, context) {
        Ok(info) => info,
        Err(_) => {
            return Err(HpkeError::LibraryError(LibraryError::MissingBoundsCheck));
        },
    };
    if public_key.len() != 32 || plaintext.len() > MAX_VECTOR_LENGTH {
        return Err(HpkeError::LibraryError(LibraryError::UnexpectedCryptoError(CryptoError::InvalidLength)));
    }
    let empty: Vec<u8> = Vec::new();
    let sealed = provider_hpke_seal(backend, config, public_key, info.as_slice(), empty.as_slice(), plaintext);
    Ok(HpkeCiphertext { kem_output: sealed.0, ciphertext: sealed.1 })
}

/// Decrypts a ciphertext with a private key under a label and a context.
/// Fails with `DecryptionFailed` where the ciphertext is refused.
pub fn decrypt_with_label(private_key: &[u8], label: &str, context: &[u8], ciphertext: &HpkeCiphertext, ciphersuite: Ciphersuite, backend: &OpenMlsRustCrypto) -> (r: Result<
    Vec<u8>,
    HpkeError,
>)
    ensures
        r is Ok == spec_decrypt_with_label(private_key@, label.spec_bytes(), context@, ciphertext.kem_output@, ciphertext.ciphertext@, ciphersuite) is Ok,
        r matches Ok(plaintext) ==> spec_decrypt_with_label(private_key@, label.spec_bytes(), context@, ciphertext.kem_output@, ciphertext.ciphertext@, ciphersuite)
            == Ok::<Seq<u8>, HpkeError>(plaintext@),
        r matches Err(e) ==> spec_decrypt_with_label(private_key@, label.spec_bytes(), context@, ciphertext.kem_output@, ciphertext.ciphertext@, ciphersuite) == Err::<
            Seq<u8>,
            HpkeError,
        >(e),
{
    let config = ciphersuite.hpke_config();
    match config.kem {
        HpkeKemType::DhKem25519 => {},
        _ => {
            return Err(HpkeError::LibraryError(LibraryError::UnexpectedCryptoError(CryptoError::UnsupportedCiphersuite)));
        },
    }
    let info = match encrypt_context(label, context) {
        Ok(info) => info,
        Err(_) => {
            return Err(HpkeError::LibraryError(LibraryError::MissingBoundsCheck));
        },
    };
    let empty: Vec<u8> = Vec::new();
    match provider_hpke_open(backend, config, ciphertext.kem_output.as_slice(), ciphertext.ciphertext.as_slice(), private_key, info.as_slice(), empty.as_slice()) {
        Some(plaintext) => Ok(plaintext),
        None => Err(HpkeError::DecryptionFailed),
    }
}

} // verus!
