//! Keys and signatures as the byte strings they are on the wire, and the
//! generation of key pairs.

use vstd::prelude::*;
use openmls_rust_crypto::OpenMlsRustCrypto;
use crate::bytes::bytes_equal;
use crate::bytes::copy_bytes;
use crate::provider::hpke_key_pair;
use crate::provider::provider_derive_hpke_keypair;
use crate::provider::provider_signature_key_gen;
use crate::secret::Secret;
use crate::types::CryptoConfig;
use crate::types::CryptoError;
use crate::types::HpkeKemType;
use crate::types::LibraryError;
use crate::types::SignatureScheme;

verus! {

/// The public key of a signature key pair.
#[derive(Debug, PartialEq, Eq)]
pub struct SignaturePublicKey {
    pub value: Vec<u8>,
}

impl View for SignaturePublicKey {
    type V = Seq<u8>;

    open spec fn view(&self) -> Seq<u8> {
        self.value@
    }
}

impl SignaturePublicKey {
    /// The key that the bytes are.
    pub fn new(value: Vec<u8>) -> (k: Self)
        ensures
            k@ == value@,
    {
        SignaturePublicKey { value }
    }

    /// The bytes of the key.
    pub fn as_slice(&self) -> (b: &[u8])
        ensures
            b@ == self@,
    {
        self.value.as_slice()
    }

    /// A copy of the key.
    pub fn duplicate(&self) -> (k: Self)
        ensures
            k@ == self@,
    {
        SignaturePublicKey { value: copy_bytes(self.value.as_slice()) }
    }

    /// Whether two keys are the same.
    pub fn equals(&self, other: &Self) -> (b: bool)
        ensures
            b == (self@ == other@),
    {
        bytes_equal(self.value.as_slice(), other.value.as_slice())
    }
}

/// A signature.
#[derive(Debug, PartialEq, Eq)]
pub struct Signature {
    pub value: Vec<u8>,
}

impl View for Signature {
    type V = Seq<u8>;

    open spec fn view(&self) -> Seq<u8> {
        self.value@
    }
}

impl Signature {
    /// The signature that the bytes are.
    pub fn new(value: Vec<u8>) -> (s: Self)
        ensures
            s@ == value@,
    {
        Signature { value }
    }

    /// The bytes of the signature.
    pub fn as_slice(&self) -> (b: &[u8])
        ensures
            b@ == self@,
    {
        self.value.as_slice()
    }

    /// A copy of the signature.
    pub fn duplicate(&self) -> (s: Self)
        ensures
            s@ == self@,
    {
        Signature { value: copy_bytes(self.value.as_slice()) }
    }
}

/// The public key of an HPKE key pair.
#[derive(Debug, PartialEq, Eq)]
pub struct HpkePublicKey {
    pub value: Vec<u8>,
}

impl View for HpkePublicKey {
    type V = Seq<u8>;

    open spec fn view(&self) -> Seq<u8> {
        self.value@
    }
}

impl HpkePublicKey {
    /// The key that the bytes are.
    pub fn new(value: Vec<u8>) -> (k: Self)
        ensures
            k@ == value@,
    {
        HpkePublicKey { value }
    }

    /// The bytes of the key.
    pub fn as_slice(&self) -> (b: &[u8])
        ensures
            b@ == self@,
    {
        self.value.as_slice()
    }

    /// A copy of the key.
    pub fn duplicate(&self) -> (k: Self)
        ensures
            k@ == self@,
    {
        HpkePublicKey { value: copy_bytes(self.value.as_slice()) }
    }
}

/// The private key of an HPKE key pair.
#[derive(Debug, PartialEq, Eq)]
pub struct HpkePrivateKey {
    pub value: Vec<u8>,
}

impl View for HpkePrivateKey {
    type V = Seq<u8>;

    open spec fn view(&self) -> Seq<u8> {
        self.value@
    }
}

impl HpkePrivateKey {
    /// The key that the bytes are.
    pub fn new(value: Vec<u8>) -> (k: Self)
        ensures
            k@ == value@,
    {
        HpkePrivateKey { value }
    }

    /// The bytes of the key.
    pub fn as_slice(&self) -> (b: &[u8])
        ensures
            b@ == self@,
    {
        self.value.as_slice()
    }
}

/// The public key that path secrets are encrypted to: the HPKE public key of
/// a leaf or of a parent.
#[derive(Debug, PartialEq, Eq)]
pub struct EncryptionKey {
    pub key: HpkePublicKey,
}

impl View for EncryptionKey {
    type V = Seq<u8>;

    open spec fn view(&self) -> Seq<u8> {
        self.key@
    }
}

impl EncryptionKey {
    /// The key that the bytes are.
    pub fn new(value: Vec<u8>) -> (k: Self)
        ensures
            k@ == value@,
    {
        EncryptionKey { key: HpkePublicKey { value } }
    }

    /// The bytes of the key.
    pub fn as_slice(&self) -> (b: &[u8])
        ensures
            b@ == self@,
    {
        self.key.as_slice()
    }

    /// The key.
    pub fn key(&self) -> (k: &HpkePublicKey)
        ensures
            k@ == self@,
    {
        &self.key
    }

    /// A copy of the key.
    pub fn duplicate(&self) -> (k: Self)
        ensures
            k@ == self@,
    {
        EncryptionKey { key: self.key.duplicate() }
    }

    /// Whether two keys are the same.
    pub fn equals(&self, other: &Self) -> (b: bool)
        ensures
            b == (self@ == other@),
    {
        bytes_equal(self.key.as_slice(), other.key.as_slice())
    }
}

/// An encryption key with its private key.
#[derive(Debug, PartialEq, Eq)]
pub struct EncryptionKeyPair {
    pub public_key: EncryptionKey,
    pub private_key: HpkePrivateKey,
}

/// Whether HPKE key pairs are derived for a configuration: its key
/// encapsulation is over x25519, for which every input key material gives a
/// key pair.
pub open spec fn derives_hpke_key_pairs(config: CryptoConfig) -> bool {
    config.ciphersuite.spec_hpke_config().kem == HpkeKemType::DhKem25519
}

/// The HPKE key pair derived from input key material: the private key first.
/// Fails with `UnsupportedCiphersuite` where none are derived for the
/// configuration.
pub fn derive_hpke_key_pair(backend: &OpenMlsRustCrypto, config: CryptoConfig, ikm: &[u8]) -> (r: Result<(Vec<u8>, Vec<u8>), CryptoError>)
    ensures
        derives_hpke_key_pairs(config) ==> r is Ok && (r.unwrap().0@, r.unwrap().1@) == hpke_key_pair(config.ciphersuite.spec_hpke_config().kem, ikm@),
        !derives_hpke_key_pairs(config) ==> r == Err::<(Vec<u8>, Vec<u8>), CryptoError>(CryptoError::UnsupportedCiphersuite),
{
    let hpke_config = config.ciphersuite.hpke_config();
    match hpke_config.kem {
        HpkeKemType::DhKem25519 => Ok(provider_derive_hpke_keypair(backend, hpke_config, ikm)),
        _ => Err(CryptoError::UnsupportedCiphersuite),
    }
}

/// The key pair that a mechanism derives from input key material, as an
/// encryption key pair.
pub open spec fn is_key_pair_of(pair: EncryptionKeyPair, config: CryptoConfig, ikm: Seq<u8>) -> bool {
    (pair.private_key@, pair.public_key@) == hpke_key_pair(config.ciphersuite.spec_hpke_config().kem, ikm)
}

/// Whether `randomness` is what the provider can give when asked for the
/// input key material of a key pair: nothing, or as many bytes as the hash
/// function of the ciphersuite gives.
pub open spec fn is_randomness_for(config: CryptoConfig, randomness: Option<Seq<u8>>) -> bool {
    randomness matches Some(ikm) ==> ikm.len() == config.ciphersuite.spec_hash_length()
}

/// The fresh key pair, private key first, that the randomness of the
/// provider gives. Fails with `InsufficientRandomness` where the provider
/// gave none, and with `UnsupportedCiphersuite` where no key pairs are
/// derived for the configuration.
pub open spec fn spec_fresh_key_pair(config: CryptoConfig, randomness: Option<Seq<u8>>) -> Result<(Seq<u8>, Seq<u8>), LibraryError> {
    match randomness {
        None => Err(LibraryError::UnexpectedCryptoError(CryptoError::InsufficientRandomness)),
        Some(ikm) => if derives_hpke_key_pairs(config) {
            Ok(hpke_key_pair(config.ciphersuite.spec_hpke_config().kem, ikm))
        } else {
            Err(LibraryError::UnexpectedCryptoError(CryptoError::UnsupportedCiphersuite))
        },
    }
}

/// The keys of a key pair that was made, private key first, or the
/// failure.
pub open spec fn key_pair_view(r: Result<EncryptionKeyPair, LibraryError>) -> Result<(Seq<u8>, Seq<u8>), LibraryError> {
    match r {
        Ok(pair) => Ok((pair.private_key@, pair.public_key@)),
        Err(e) => Err(e),
    }
}

impl EncryptionKeyPair {
    /// The public key.
    pub fn public_key(&self) -> (k: &EncryptionKey)
        ensures
            *k == self.public_key,
    {
        &self.public_key
    }

    /// The private key.
    pub fn private_key(&self) -> (k: &HpkePrivateKey)
        ensures
            *k == self.private_key,
    {
        &self.private_key
    }

    /// The key pair derived from input key material.
    pub fn derive(backend: &OpenMlsRustCrypto, config: CryptoConfig, ikm: &Secret) -> (r: Result<Self, LibraryError>)
        ensures
            r is Ok == derives_hpke_key_pairs(config),
            r matches Ok(pair) ==> is_key_pair_of(pair, config, ikm@.bytes),
            r matches Err(e) ==> e == LibraryError::UnexpectedCryptoError(CryptoError::UnsupportedCiphersuite),
    {
        match derive_hpke_key_pair(backend, config, ikm.as_slice()) {
            Ok(pair) => Ok(EncryptionKeyPair { public_key: EncryptionKey::new(pair.1), private_key: HpkePrivateKey::new(pair.0) }),
            Err(e) => Err(LibraryError::UnexpectedCryptoError(e)),
        }
    }

    /// A key pair derived from random input key material. Fails where the
    /// provider gives no randomness or no key pairs are derived for the
    /// configuration; what the key pair is depends on the randomness.
    pub fn random(backend: &OpenMlsRustCrypto, config: CryptoConfig) -> (r: Result<Self, LibraryError>)
        ensures
            exists|randomness: Option<Seq<u8>>| is_randomness_for(config, randomness) && key_pair_view(r) == #[trigger] spec_fresh_key_pair(config, randomness),
            r is Ok ==> derives_hpke_key_pairs(config),
            r matches Ok(pair) ==> exists|ikm: Seq<u8>| ikm.len() == config.ciphersuite.spec_hash_length() && #[trigger] is_key_pair_of(pair, config, ikm),
            r matches Err(e) ==> e == LibraryError::UnexpectedCryptoError(CryptoError::InsufficientRandomness) || (e == LibraryError::UnexpectedCryptoError(
                CryptoError::UnsupportedCiphersuite,
            ) && !derives_hpke_key_pairs(config)),
    {
        let ikm = match Secret::random(config.ciphersuite, backend, config.version) {
            Ok(ikm) => ikm,
            Err(e) => {
                assert(is_randomness_for(config, None));
                assert(key_pair_view(Err::<EncryptionKeyPair, LibraryError>(LibraryError::UnexpectedCryptoError(e))) == spec_fresh_key_pair(config, None));
                return Err(LibraryError::UnexpectedCryptoError(e));
            },
        };
        let r = EncryptionKeyPair::derive(backend, config, &ikm);
        proof {
            if r is Ok {
                assert(is_key_pair_of(r.unwrap(), config, ikm@.bytes));
            }
            assert(is_randomness_for(config, Some(ikm@.bytes)));
            assert(key_pair_view(r) == spec_fresh_key_pair(config, Some(ikm@.bytes)));
        }
        r
    }
}

/// What a signature key pair is: its two keys and its scheme.
pub struct SignatureKeyPairView {
    pub private: Seq<u8>,
    pub public: Seq<u8>,
    pub signature_scheme: SignatureScheme,
}

/// A signature key pair.
pub struct SignatureKeyPair {
    private: Vec<u8>,
    public: Vec<u8>,
    signature_scheme: SignatureScheme,
}

impl View for SignatureKeyPair {
    type V = SignatureKeyPairView;

    closed spec fn view(&self) -> SignatureKeyPairView {
        SignatureKeyPairView { private: self.private@, public: self.public@, signature_scheme: self.signature_scheme }
    }
}

impl SignatureKeyPair {
    /// A fresh key pair of the scheme given. Only Ed25519 key pairs are
    /// generated: another scheme fails with `UnsupportedSignatureScheme`.
    /// Which key pair comes back depends on the randomness of the provider.
    pub fn new(backend: &OpenMlsRustCrypto, signature_scheme: SignatureScheme) -> (r: Result<Self, CryptoError>)
        ensures
            r is Ok ==> signature_scheme == SignatureScheme::ED25519,
            r matches Ok(pair) ==> pair@.signature_scheme == signature_scheme,
            signature_scheme != SignatureScheme::ED25519 ==> r == Err::<Self, CryptoError>(CryptoError::UnsupportedSignatureScheme),
            r matches Err(e) ==> e == (if signature_scheme == SignatureScheme::ED25519 {
                CryptoError::CryptoLibraryError
            } else {
                CryptoError::UnsupportedSignatureScheme
            }),
    {
        match signature_scheme {
            SignatureScheme::ED25519 => match provider_signature_key_gen(backend, signature_scheme) {
                Some(keys) => Ok(SignatureKeyPair { private: keys.0, public: keys.1, signature_scheme }),
                None => Err(CryptoError::CryptoLibraryError),
            },
            _ => Err(CryptoError::UnsupportedSignatureScheme),
        }
    }

    /// The key pair made of the raw keys given.
    pub fn from_raw(signature_scheme: SignatureScheme, private: Vec<u8>, public: Vec<u8>) -> (pair: Self)
        ensures
            pair@ == (SignatureKeyPairView { private: private@, public: public@, signature_scheme }),
    {
        SignatureKeyPair { private, public, signature_scheme }
    }

    /// The public key.
    pub fn public(&self) -> (k: &[u8])
        ensures
            k@ == self@.public,
    {
        self.public.as_slice()
    }

    /// The private key.
    pub fn private(&self) -> (k: &[u8])
        ensures
            k@ == self@.private,
    {
        self.private.as_slice()
    }

    /// A copy of the public key.
    pub fn to_public_vec(&self) -> (k: Vec<u8>)
        ensures
            k@ == self@.public,
    {
        copy_bytes(self.public.as_slice())
    }

    /// The scheme of the key pair.
    pub fn signature_scheme(&self) -> (s: SignatureScheme)
        ensures
            s == self@.signature_scheme,
    {
        self.signature_scheme
    }
}

} // verus!
