//! Secrets and the derivation of one secret from another.

use vstd::prelude::*;
use vstd::string::StringSliceAdditionalSpecFns;
use openmls_rust_crypto::OpenMlsRustCrypto;
use crate::bytes::append_bytes;
use crate::bytes::copy_bytes;
use crate::codec::append_u16;
use crate::codec::append_vector;
use crate::codec::u16_encoding;
use crate::codec::vector_encoding;
use crate::codec::MAX_VECTOR_LENGTH;
use crate::provider::hkdf_expand_output;
use crate::provider::hkdf_extract_output;
use crate::provider::provider_hkdf_extract;
use crate::provider::provider_hkdf_expand;
use crate::provider::provider_random_vec;
use crate::types::Ciphersuite;
use crate::types::CryptoError;
use crate::types::ProtocolVersion;

verus! {

/// What a secret is: its bytes, and the ciphersuite and protocol version it
/// belongs to.
pub struct SecretView {
    pub ciphersuite: Ciphersuite,
    pub version: ProtocolVersion,
    pub bytes: Seq<u8>,
}

/// A secret value bound to a ciphersuite and a protocol version.
#[derive(Debug)]
pub struct Secret {
    ciphersuite: Ciphersuite,
    value: Vec<u8>,
    mls_version: ProtocolVersion,
}

/// The bytes of `"MLS 1.0 "`, which stand before every label.
pub open spec fn label_prefix() -> Seq<u8> {
    seq![0x4du8, 0x4cu8, 0x53u8, 0x20u8, 0x31u8, 0x2eu8, 0x30u8, 0x20u8]
}

/// The label with the protocol's prefix before it.
pub open spec fn full_label(label: Seq<u8>) -> Seq<u8> {
    label_prefix() + label
}

/// The encoding of the structure that labels a derivation: the length asked
/// for, the full label and the context.
pub open spec fn kdf_label_encoding(length: u16, label: Seq<u8>, context: Seq<u8>) -> Seq<u8> {
    u16_encoding(length) + vector_encoding(full_label(label)) + vector_encoding(context)
}

/// The bytes given where they are `length` in number, else that many zero
/// bytes: a byte string of that length in either case.
pub open spec fn with_length(bytes: Seq<u8>, length: nat) -> Seq<u8> {
    if bytes.len() == length {
        bytes
    } else {
        Seq::new(length, |i: int| 0u8)
    }
}

/// The secret that HKDF-Expand makes of a secret, an info string and a
/// length, where it makes one: the output of the expansion, which has the
/// length asked for.
pub open spec fn expanded_secret(secret: SecretView, info: Seq<u8>, okm_len: nat) -> SecretView {
    SecretView {
        ciphersuite: secret.ciphersuite,
        version: secret.version,
        bytes: with_length(hkdf_expand_output(secret.ciphersuite.spec_hash_algorithm(), secret.bytes, info, okm_len), okm_len),
    }
}

/// The secret of `length` bytes that the labelled derivation makes of a
/// secret, where it makes one.
pub open spec fn derived_secret(secret: SecretView, label: Seq<u8>, context: Seq<u8>, length: nat) -> SecretView {
    expanded_secret(secret, kdf_label_encoding(length as u16, label, context), length)
}

/// HKDF-Expand on a secret: fails with `CryptoLibraryError` where the secret
/// is shorter than the hash output or more than 255 blocks are asked for, and
/// with `InvalidLength` where nothing is asked for.
pub open spec fn spec_hkdf_expand(secret: SecretView, info: Seq<u8>, okm_len: nat) -> Result<SecretView, CryptoError> {
    let hash = secret.ciphersuite.spec_hash_algorithm();
    if secret.bytes.len() < hash.spec_size() || okm_len > 255 * hash.spec_size() {
        Err(CryptoError::CryptoLibraryError)
    } else if okm_len == 0 {
        Err(CryptoError::InvalidLength)
    } else {
        Ok(expanded_secret(secret, info, okm_len))
    }
}

/// The secret that HKDF-Extract makes of a secret as the salt and of input
/// key material: as long as the hash of the ciphersuite.
pub open spec fn extracted_secret(salt: SecretView, ikm: Seq<u8>) -> SecretView {
    SecretView {
        ciphersuite: salt.ciphersuite,
        version: salt.version,
        bytes: with_length(hkdf_extract_output(salt.ciphersuite.spec_hash_algorithm(), salt.bytes, ikm), salt.ciphersuite.spec_hash_length()),
    }
}

/// As many zero bytes as the hash of a ciphersuite is long: what stands for
/// input key material where there is none.
pub open spec fn zero_secret(ciphersuite: Ciphersuite) -> Seq<u8> {
    Seq::new(ciphersuite.spec_hash_length(), |i: int| 0u8)
}

/// The input key material of an extraction: that of the secret given, or
/// zero bytes where none is given.
pub open spec fn ikm_or_zero(ikm: Option<SecretView>, ciphersuite: Ciphersuite) -> Seq<u8> {
    match ikm {
        Some(secret) => secret.bytes,
        None => zero_secret(ciphersuite),
    }
}

/// What an optional secret is.
pub open spec fn option_view(secret: Option<&Secret>) -> Option<SecretView> {
    match secret {
        Some(s) => Some(s@),
        None => None,
    }
}

/// The secret of `Nh` bytes derived under a label with no context.
pub open spec fn spec_derive_secret(secret: SecretView, label: Seq<u8>) -> SecretView {
    derived_secret(secret, label, Seq::empty(), secret.ciphersuite.spec_hash_length())
}

/// Whether a secret is long enough to be the key of a derivation under its
/// ciphersuite.
pub open spec fn can_derive(secret: SecretView) -> bool {
    secret.bytes.len() >= secret.ciphersuite.spec_hash_length()
}

/// A derivation of a short secret under a short label succeeds.
pub proof fn lemma_derivation_succeeds(secret: SecretView, label: Seq<u8>, context: Seq<u8>, length: nat)
    requires
        can_derive(secret),
        label.len() <= 64,
        context.len() <= 64,
        1 <= length <= 64,
    ensures
        spec_kdf_expand_label(secret, label, context, length) == Ok::<SecretView, CryptoError>(derived_secret(secret, label, context, length)),
{
}

/// A derivation from a secret that is too short fails.
pub proof fn lemma_derivation_fails(secret: SecretView, label: Seq<u8>, context: Seq<u8>, length: nat)
    requires
        !can_derive(secret),
        label.len() <= 64,
        context.len() <= 64,
        1 <= length <= 64,
    ensures
        spec_kdf_expand_label(secret, label, context, length) == Err::<SecretView, CryptoError>(CryptoError::CryptoLibraryError),
{
}

/// The labelled derivation of a secret of `length` bytes from another.
pub open spec fn spec_kdf_expand_label(secret: SecretView, label: Seq<u8>, context: Seq<u8>, length: nat) -> Result<SecretView, CryptoError> {
    if length > u16::MAX {
        Err(CryptoError::KdfLabelTooLarge)
    } else if full_label(label).len() > MAX_VECTOR_LENGTH || context.len() > MAX_VECTOR_LENGTH {
        Err(CryptoError::KdfSerializationError)
    } else {
        spec_hkdf_expand(secret, kdf_label_encoding(length as u16, label, context), length)
    }
}

/// The bytes `"MLS 1.0 "`.
pub fn label_prefix_bytes() -> (out: Vec<u8>)
    ensures
        out@ == label_prefix(),
{
    let mut out: Vec<u8> = Vec::new();
    out.push(0x4d);
    out.push(0x4c);
    out.push(0x53);
    out.push(0x20);
    out.push(0x31);
    out.push(0x2e);
    out.push(0x30);
    out.push(0x20);
    assert(out@ == label_prefix());
    out
}

/// The encoded label of a derivation, or the error that the encoding stops
/// with.
pub fn serialized_label(label: &[u8], context: &[u8], length: usize) -> (r: Result<Vec<u8>, CryptoError>)
    ensures
        length > u16::MAX ==> r == Err::<Vec<u8>, CryptoError>(CryptoError::KdfLabelTooLarge),
        length <= u16::MAX && (full_label(label@).len() > MAX_VECTOR_LENGTH || context@.len() > MAX_VECTOR_LENGTH) ==> r == Err::<Vec<u8>, CryptoError>(CryptoError::KdfSerializationError),
        length <= u16::MAX && full_label(label@).len() <= MAX_VECTOR_LENGTH && context@.len() <= MAX_VECTOR_LENGTH ==> r is Ok && r.unwrap()@ == kdf_label_encoding(length as u16, label@, context@),
{
    if length > 0xffff {
        return Err(CryptoError::KdfLabelTooLarge);
    }
    let mut full: Vec<u8> = label_prefix_bytes();
    append_bytes(&mut full, label);
    let mut out: Vec<u8> = Vec::new();
    append_u16(&mut out, length as u16);
    if append_vector(&mut out, full.as_slice()).is_err() {
        return Err(CryptoError::KdfSerializationError);
    }
    if append_vector(&mut out, context).is_err() {
        return Err(CryptoError::KdfSerializationError);
    }
    assert(out@ == kdf_label_encoding(length as u16, label@, context@));
    Ok(out)
}

impl View for Secret {
    type V = SecretView;

    closed spec fn view(&self) -> SecretView {
        SecretView { ciphersuite: self.ciphersuite, version: self.mls_version, bytes: self.value@ }
    }
}

impl Secret {
    /// A secret made of the bytes given.
    pub fn from_slice(bytes: &[u8], mls_version: ProtocolVersion, ciphersuite: Ciphersuite) -> (s: Self)
        ensures
            s@ == (SecretView { ciphersuite, version: mls_version, bytes: bytes@ }),
    {
        Secret { ciphersuite, value: copy_bytes(bytes), mls_version }
    }

    /// A secret of random bytes, as long as the hash of the ciphersuite.
    /// Fails with `InsufficientRandomness` where the provider gives none.
    pub fn random(ciphersuite: Ciphersuite, backend: &OpenMlsRustCrypto, mls_version: ProtocolVersion) -> (r: Result<Self, CryptoError>)
        ensures
            r matches Ok(s) ==> s@.ciphersuite == ciphersuite && s@.version == mls_version && s@.bytes.len() == ciphersuite.spec_hash_length(),
            r matches Err(e) ==> e == CryptoError::InsufficientRandomness,
    {
        match provider_random_vec(backend, ciphersuite.hash_length()) {
            Some(value) => Ok(Secret { ciphersuite, value, mls_version }),
            None => Err(CryptoError::InsufficientRandomness),
        }
    }

    /// The bytes of the secret.
    pub fn as_slice(&self) -> (b: &[u8])
        ensures
            b@ == self@.bytes,
    {
        self.value.as_slice()
    }

    /// The ciphersuite of the secret.
    pub fn ciphersuite(&self) -> (c: Ciphersuite)
        ensures
            c == self@.ciphersuite,
    {
        self.ciphersuite
    }

    /// The protocol version of the secret.
    pub fn version(&self) -> (v: ProtocolVersion)
        ensures
            v == self@.version,
    {
        self.mls_version
    }

    /// A copy of the secret.
    pub fn duplicate(&self) -> (s: Self)
        ensures
            s@ == self@,
    {
        Secret { ciphersuite: self.ciphersuite, value: copy_bytes(self.value.as_slice()), mls_version: self.mls_version }
    }

    /// HKDF-Expand with this secret as the key.
    pub fn hkdf_expand(&self, backend: &OpenMlsRustCrypto, info: &[u8], okm_len: usize) -> (r: Result<Secret, CryptoError>)
        ensures
            r is Ok == spec_hkdf_expand(self@, info@, okm_len as nat) is Ok,
            r matches Ok(s) ==> s@ == spec_hkdf_expand(self@, info@, okm_len as nat).unwrap() && s@.bytes.len() == okm_len,
            r matches Err(e) ==> spec_hkdf_expand(self@, info@, okm_len as nat) == Err::<SecretView, CryptoError>(e),
    {
        if okm_len > 0xffff {
            return Err(CryptoError::CryptoLibraryError);
        }
        match provider_hkdf_expand(backend, self.ciphersuite.hash_algorithm(), self.value.as_slice(), info, okm_len) {
            None => Err(CryptoError::CryptoLibraryError),
            Some(key) => {
                if key.len() == 0 {
                    Err(CryptoError::InvalidLength)
                } else {
                    Ok(Secret { ciphersuite: self.ciphersuite, value: key, mls_version: self.mls_version })
                }
            },
        }
    }

    /// HKDF-Extract with this secret as the salt and with the input key
    /// material given, or with zero bytes where none is given.
    pub fn hkdf_extract(&self, backend: &OpenMlsRustCrypto, ikm_option: Option<&Secret>) -> (s: Secret)
        ensures
            s@ == extracted_secret(self@, ikm_or_zero(option_view(ikm_option), self@.ciphersuite)),
            can_derive(s@),
    {
        let hash = self.ciphersuite.hash_algorithm();
        let extracted = match ikm_option {
            Some(ikm) => provider_hkdf_extract(backend, hash, self.value.as_slice(), ikm.as_slice()),
            None => {
                let mut zeros: Vec<u8> = Vec::new();
                let n: usize = self.ciphersuite.hash_length();
                while zeros.len() < n
                    invariant
                        zeros@.len() <= n,
                        forall|i: int| 0 <= i < zeros@.len() ==> zeros@[i] == 0u8,
                    decreases n - zeros@.len(),
                {
                    zeros.push(0u8);
                }
                assert(zeros@ =~= zero_secret(self.ciphersuite));
                provider_hkdf_extract(backend, hash, self.value.as_slice(), zeros.as_slice())
            },
        };
        match extracted {
            Some(value) => Secret { ciphersuite: self.ciphersuite, value, mls_version: self.mls_version },
            None => unreached(),
        }
    }

    /// The secret of as many bytes as the hash is long derived under a label
    /// with no context.
    pub fn derive_secret(&self, backend: &OpenMlsRustCrypto, label: &str) -> (r: Result<Secret, CryptoError>)
        ensures
            r is Ok == spec_kdf_expand_label(self@, label.spec_bytes(), Seq::empty(), self@.ciphersuite.spec_hash_length()) is Ok,
            r matches Ok(s) ==> s@ == spec_kdf_expand_label(self@, label.spec_bytes(), Seq::empty(), self@.ciphersuite.spec_hash_length()).unwrap() && can_derive(s@),
            r matches Err(e) ==> spec_kdf_expand_label(self@, label.spec_bytes(), Seq::empty(), self@.ciphersuite.spec_hash_length()) == Err::<SecretView, CryptoError>(e),
    {
        let empty: Vec<u8> = Vec::new();
        self.kdf_expand_label(backend, label, empty.as_slice(), self.ciphersuite.hash_length())
    }

    /// The labelled derivation of a secret of `length` bytes from this one.
    pub fn kdf_expand_label(&self, backend: &OpenMlsRustCrypto, label: &str, context: &[u8], length: usize) -> (r: Result<Secret, CryptoError>)
        ensures
            r is Ok == spec_kdf_expand_label(self@, label.spec_bytes(), context@, length as nat) is Ok,
            r matches Ok(s) ==> s@ == spec_kdf_expand_label(self@, label.spec_bytes(), context@, length as nat).unwrap() && s@.bytes.len() == length,
            r matches Err(e) ==> spec_kdf_expand_label(self@, label.spec_bytes(), context@, length as nat) == Err::<SecretView, CryptoError>(e),
    {
        match serialized_label(label.as_bytes(), context, length) {
            Err(e) => Err(e),
            Ok(info) => self.hkdf_expand(backend, info.as_slice(), length),
        }
    }
}

} // verus!
