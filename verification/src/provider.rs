//! The cryptographic provider and the calls the library makes into it.

use vstd::prelude::*;
use openmls_rust_crypto::OpenMlsRustCrypto;
use openmls_traits::crypto::OpenMlsCrypto;
use openmls_traits::random::OpenMlsRand;
use openmls_traits::signatures::Signer;
use openmls_traits::OpenMlsCryptoProvider;
use crate::types::AeadType;
use crate::types::HashType;
use crate::types::HpkeAeadType;
use crate::types::HpkeConfig;
use crate::types::HpkeKdfType;
use crate::types::HpkeKemType;
use crate::types::SignatureScheme;

verus! {

/// `OpenMlsRustCrypto` of `openmls_rust_crypto`: the provider of the
/// cryptographic operations and of randomness. Nothing is known of what is
/// inside it.
#[verifier::external_type_specification]
#[verifier::external_body]
pub struct ExOpenMlsRustCrypto(OpenMlsRustCrypto);

/// The output keying material of HKDF-Expand for a hash function, a
/// pseudorandom key, an info string and an output length.
pub uninterp spec fn hkdf_expand_output(hash_type: HashType, prk: Seq<u8>, info: Seq<u8>, okm_len: nat) -> Seq<u8>;

/// The pseudorandom key that HKDF-Extract makes of a salt and input key
/// material under a hash function.
pub uninterp spec fn hkdf_extract_output(hash_type: HashType, salt: Seq<u8>, ikm: Seq<u8>) -> Seq<u8>;

/// The digest of `data` under a hash function.
pub uninterp spec fn hash_digest(hash_type: HashType, data: Seq<u8>) -> Seq<u8>;

/// The HPKE key pair, private key first, that a key encapsulation mechanism
/// derives from input key material.
pub uninterp spec fn hpke_key_pair(kem: HpkeKemType, ikm: Seq<u8>) -> (Seq<u8>, Seq<u8>);

/// The Ed25519 signature of `payload` under a private key, if the key is one
/// that signs.
pub uninterp spec fn ed25519_signature(private: Seq<u8>, payload: Seq<u8>) -> Option<Seq<u8>>;

/// Whether `signature` is accepted for `data` under a scheme and a public key.
pub uninterp spec fn signature_accepted(scheme: SignatureScheme, data: Seq<u8>, pk: Seq<u8>, signature: Seq<u8>) -> bool;

/// Calls `OpenMlsCrypto::hkdf_expand` of the provider. The call fails exactly
/// when the key is shorter than the hash output or more than 255 blocks are
/// asked for; otherwise it returns `okm_len` bytes that depend on the hash
/// function, the key and the info string only. The provider's error value is
/// dropped.
#[verifier::external_body]
pub(crate) fn provider_hkdf_expand(
    backend: &OpenMlsRustCrypto,
    hash_type: HashType,
    prk: &[u8],
    info: &[u8],
    okm_len: usize,
) -> (r: Option<Vec<u8>>)
    requires
        okm_len <= 0xffff,
    ensures
        r.is_some() == (prk@.len() >= hash_type.spec_size() && okm_len <= 255 * hash_type.spec_size()),
        r.is_some() ==> r.unwrap()@.len() == okm_len,
        r.is_some() ==> r.unwrap()@ == hkdf_expand_output(hash_type, prk@, info@, okm_len as nat),
{
    let outside = match hash_type {
        HashType::Sha2_256 => openmls_traits::types::HashType::Sha2_256,
        HashType::Sha2_384 => openmls_traits::types::HashType::Sha2_384,
        HashType::Sha2_512 => openmls_traits::types::HashType::Sha2_512,
    };
    backend.crypto().hkdf_expand(outside, prk, info, okm_len).ok().map(|okm| okm.as_slice().to_vec())
}

/// Calls `OpenMlsCrypto::hkdf_extract` of the provider, which gives a
/// pseudorandom key for each of the three hash functions, as long as the
/// output of the hash function. The key depends on the hash function, the
/// salt and the input key material only.
#[verifier::external_body]
pub(crate) fn provider_hkdf_extract(backend: &OpenMlsRustCrypto, hash_type: HashType, salt: &[u8], ikm: &[u8]) -> (r: Option<Vec<u8>>)
    ensures
        r.is_some(),
        r.unwrap()@ == hkdf_extract_output(hash_type, salt@, ikm@),
        r.unwrap()@.len() == hash_type.spec_size(),
{
    let outside = match hash_type {
        HashType::Sha2_256 => openmls_traits::types::HashType::Sha2_256,
        HashType::Sha2_384 => openmls_traits::types::HashType::Sha2_384,
        HashType::Sha2_512 => openmls_traits::types::HashType::Sha2_512,
    };
    backend.crypto().hkdf_extract(outside, salt, ikm).ok().map(|prk| prk.as_slice().to_vec())
}

/// Calls `OpenMlsCrypto::hash` of the provider, which digests `data` with the
/// hash function named, whichever of the three it is. The digest has the
/// length of the hash function's output.
#[verifier::external_body]
pub(crate) fn provider_hash(backend: &OpenMlsRustCrypto, hash_type: HashType, data: &[u8]) -> (r: Option<Vec<u8>>)
    ensures
        r.is_some(),
        r.unwrap()@ == hash_digest(hash_type, data@),
        r.unwrap()@.len() == hash_type.spec_size(),
{
    let outside = match hash_type {
        HashType::Sha2_256 => openmls_traits::types::HashType::Sha2_256,
        HashType::Sha2_384 => openmls_traits::types::HashType::Sha2_384,
        HashType::Sha2_512 => openmls_traits::types::HashType::Sha2_512,
    };
    backend.crypto().hash(outside, data).ok()
}

/// Calls `OpenMlsRand::random_vec` of the provider. Bytes that come back are
/// `len` in number; nothing else is known of them.
#[verifier::external_body]
pub(crate) fn provider_random_vec(backend: &OpenMlsRustCrypto, len: usize) -> (r: Option<Vec<u8>>)
    requires
        len <= 0xffff,
    ensures
        r.is_some() ==> r.unwrap()@.len() == len,
{
    backend.rand().random_vec(len).ok()
}

/// Calls `OpenMlsCrypto::derive_hpke_keypair` of the provider for a key
/// encapsulation over x25519, for which the derivation always ends with a key
/// pair. The pair, private key first, depends on the input key material only;
/// its keys have 32 bytes each.
#[verifier::external_body]
pub(crate) fn provider_derive_hpke_keypair(backend: &OpenMlsRustCrypto, config: HpkeConfig, ikm: &[u8]) -> (r: (Vec<u8>, Vec<u8>))
    requires
        config.kem == HpkeKemType::DhKem25519,
    ensures
        (r.0@, r.1@) == hpke_key_pair(config.kem, ikm@),
        r.0@.len() == 32,
        r.1@.len() == 32,
{
    let kdf = match config.kdf {
        HpkeKdfType::HkdfSha256 => openmls_traits::types::HpkeKdfType::HkdfSha256,
        HpkeKdfType::HkdfSha384 => openmls_traits::types::HpkeKdfType::HkdfSha384,
        HpkeKdfType::HkdfSha512 => openmls_traits::types::HpkeKdfType::HkdfSha512,
    };
    let aead = match config.aead {
        HpkeAeadType::AesGcm128 => openmls_traits::types::HpkeAeadType::AesGcm128,
        HpkeAeadType::AesGcm256 => openmls_traits::types::HpkeAeadType::AesGcm256,
        HpkeAeadType::ChaCha20Poly1305 => openmls_traits::types::HpkeAeadType::ChaCha20Poly1305,
    };
    let outside = openmls_traits::types::HpkeConfig(openmls_traits::types::HpkeKemType::DhKem25519, kdf, aead);
    let pair = backend.crypto().derive_hpke_keypair(outside, ikm);
    (pair.private.to_vec(), pair.public)
}

/// Calls `OpenMlsCrypto::signature_key_gen` of the provider for the scheme
/// given, which is to be Ed25519. Of a key pair that comes back, private key
/// first, nothing is known: it is drawn at random.
#[verifier::external_body]
pub(crate) fn provider_signature_key_gen(backend: &OpenMlsRustCrypto, scheme: SignatureScheme) -> (r: Option<(Vec<u8>, Vec<u8>)>)
    requires
        scheme == SignatureScheme::ED25519,
{
    let outside = match scheme {
        SignatureScheme::ECDSA_SECP256R1_SHA256 => openmls_traits::types::SignatureScheme::ECDSA_SECP256R1_SHA256,
        SignatureScheme::ECDSA_SECP384R1_SHA384 => openmls_traits::types::SignatureScheme::ECDSA_SECP384R1_SHA384,
        SignatureScheme::ECDSA_SECP521R1_SHA512 => openmls_traits::types::SignatureScheme::ECDSA_SECP521R1_SHA512,
        SignatureScheme::ED25519 => openmls_traits::types::SignatureScheme::ED25519,
        SignatureScheme::ED448 => openmls_traits::types::SignatureScheme::ED448,
    };
    backend.crypto().signature_key_gen(outside).ok()
}

/// Calls `Signer::sign` on a `SignatureKeyPair` of
/// `openmls_basic_credential` made of the scheme given, which is to be
/// Ed25519, and of the raw keys given. Whether a signature comes back, and
/// which, depends on the private key and the payload only. The signer's
/// error value is dropped.
#[verifier::external_body]
pub(crate) fn signer_sign(scheme: SignatureScheme, private: &[u8], public: &[u8], payload: &[u8]) -> (r: Option<Vec<u8>>)
    requires
        scheme == SignatureScheme::ED25519,
    ensures
        r.is_some() == ed25519_signature(private@, payload@).is_some(),
        r.is_some() ==> r.unwrap()@ == ed25519_signature(private@, payload@).unwrap(),
{
    let outside = match scheme {
        SignatureScheme::ECDSA_SECP256R1_SHA256 => openmls_traits::types::SignatureScheme::ECDSA_SECP256R1_SHA256,
        SignatureScheme::ECDSA_SECP384R1_SHA384 => openmls_traits::types::SignatureScheme::ECDSA_SECP384R1_SHA384,
        SignatureScheme::ECDSA_SECP521R1_SHA512 => openmls_traits::types::SignatureScheme::ECDSA_SECP521R1_SHA512,
        SignatureScheme::ED25519 => openmls_traits::types::SignatureScheme::ED25519,
        SignatureScheme::ED448 => openmls_traits::types::SignatureScheme::ED448,
    };
    let signer = openmls_basic_credential::SignatureKeyPair::from_raw(outside, private.to_vec(), public.to_vec());
    signer.sign(payload).ok()
}

/// Calls `OpenMlsCrypto::verify_signature` of the provider, and says whether
/// it accepted the signature. The answer depends on the scheme, the data, the
/// public key and the signature only. An Ed25519 signature of 64 bytes is to
/// have the three highest bits of its last byte unset: the provider does not
/// return for another.
#[verifier::external_body]
pub(crate) fn provider_verify_signature(
    backend: &OpenMlsRustCrypto,
    scheme: SignatureScheme,
    data: &[u8],
    pk: &[u8],
    signature: &[u8],
) -> (r: bool)
    requires
        scheme == SignatureScheme::ED25519 && signature@.len() == 64 ==> signature@[63] < 0x20,
    ensures
        r == signature_accepted(scheme, data@, pk@, signature@),
{
    let outside = match scheme {
        SignatureScheme::ECDSA_SECP256R1_SHA256 => openmls_traits::types::SignatureScheme::ECDSA_SECP256R1_SHA256,
        SignatureScheme::ECDSA_SECP384R1_SHA384 => openmls_traits::types::SignatureScheme::ECDSA_SECP384R1_SHA384,
        SignatureScheme::ECDSA_SECP521R1_SHA512 => openmls_traits::types::SignatureScheme::ECDSA_SECP521R1_SHA512,
        SignatureScheme::ED25519 => openmls_traits::types::SignatureScheme::ED25519,
        SignatureScheme::ED448 => openmls_traits::types::SignatureScheme::ED448,
    };
    backend.crypto().verify_signature(outside, data, pk, signature).is_ok()
}

/// What HPKE decryption in base mode gives for a configuration, the output
/// of the key encapsulation, a ciphertext, a private key, an info string and
/// associated data: the plaintext, or nothing where it refuses.
pub uninterp spec fn hpke_open_output(config: HpkeConfig, kem_output: Seq<u8>, ciphertext: Seq<u8>, sk_r: Seq<u8>, info: Seq<u8>, aad: Seq<u8>) -> Option<Seq<u8>>;

/// Calls `OpenMlsCrypto::hpke_seal` of the provider for a key encapsulation
/// over x25519, a public key of 32 bytes and a plaintext and associated
/// data of bounded length, on which it gives a ciphertext. The output of the key encapsulation is a
/// public key of 32 bytes; the ciphertext is the plaintext with a tag of 16
/// bytes. What they hold depends on the randomness of the provider.
#[verifier::external_body]
pub(crate) fn provider_hpke_seal(backend: &OpenMlsRustCrypto, config: HpkeConfig, pk_r: &[u8], info: &[u8], aad: &[u8], ptxt: &[u8]) -> (r: (Vec<u8>, Vec<u8>))
    requires
        config.kem == HpkeKemType::DhKem25519,
        pk_r@.len() == 32,
        aad@.len() <= 0x3fff_ffff,
        ptxt@.len() <= 0x3fff_ffff,
    ensures
        r.0@.len() == 32,
        r.1@.len() == ptxt@.len() + 16,
{
    let kdf = match config.kdf {
        HpkeKdfType::HkdfSha256 => openmls_traits::types::HpkeKdfType::HkdfSha256,
        HpkeKdfType::HkdfSha384 => openmls_traits::types::HpkeKdfType::HkdfSha384,
        HpkeKdfType::HkdfSha512 => openmls_traits::types::HpkeKdfType::HkdfSha512,
    };
    let aead = match config.aead {
        HpkeAeadType::AesGcm128 => openmls_traits::types::HpkeAeadType::AesGcm128,
        HpkeAeadType::AesGcm256 => openmls_traits::types::HpkeAeadType::AesGcm256,
        HpkeAeadType::ChaCha20Poly1305 => openmls_traits::types::HpkeAeadType::ChaCha20Poly1305,
    };
    let outside = openmls_traits::types::HpkeConfig(openmls_traits::types::HpkeKemType::DhKem25519, kdf, aead);
    let sealed = backend.crypto().hpke_seal(outside, pk_r, info, aad, ptxt);
    (sealed.kem_output.into(), sealed.ciphertext.into())
}

/// Calls `OpenMlsCrypto::hpke_open` of the provider for a key encapsulation
/// over x25519. Whether it gives a plaintext, and which, depends on its
/// arguments only. The provider's error value is dropped.
#[verifier::external_body]
pub(crate) fn provider_hpke_open(backend: &OpenMlsRustCrypto, config: HpkeConfig, kem_output: &[u8], ciphertext: &[u8], sk_r: &[u8], info: &[u8], aad: &[u8]) -> (r: Option<Vec<u8>>)
    requires
        config.kem == HpkeKemType::DhKem25519,
    ensures
        r.is_some() == hpke_open_output(config, kem_output@, ciphertext@, sk_r@, info@, aad@).is_some(),
        r.is_some() ==> r.unwrap()@ == hpke_open_output(config, kem_output@, ciphertext@, sk_r@, info@, aad@).unwrap(),
{
    let kdf = match config.kdf {
        HpkeKdfType::HkdfSha256 => openmls_traits::types::HpkeKdfType::HkdfSha256,
        HpkeKdfType::HkdfSha384 => openmls_traits::types::HpkeKdfType::HkdfSha384,
        HpkeKdfType::HkdfSha512 => openmls_traits::types::HpkeKdfType::HkdfSha512,
    };
    let aead = match config.aead {
        HpkeAeadType::AesGcm128 => openmls_traits::types::HpkeAeadType::AesGcm128,
        HpkeAeadType::AesGcm256 => openmls_traits::types::HpkeAeadType::AesGcm256,
        HpkeAeadType::ChaCha20Poly1305 => openmls_traits::types::HpkeAeadType::ChaCha20Poly1305,
    };
    let outside = openmls_traits::types::HpkeConfig(openmls_traits::types::HpkeKemType::DhKem25519, kdf, aead);
    let input = openmls_traits::types::HpkeCiphertext { kem_output: kem_output.into(), ciphertext: ciphertext.into() };
    backend.crypto().hpke_open(outside, &input, sk_r, info, aad).ok()
}

/// What `OpenMlsCrypto::aead_encrypt` of the provider returns for a nonce of
/// twelve bytes: the ciphertext with its tag, or nothing where it fails.
pub uninterp spec fn aead_seal_output(alg: AeadType, key: Seq<u8>, nonce: Seq<u8>, aad: Seq<u8>, plaintext: Seq<u8>) -> Option<Seq<u8>>;

/// What `OpenMlsCrypto::aead_decrypt` of the provider returns for a nonce of
/// twelve bytes: the plaintext, or nothing where it fails.
pub uninterp spec fn aead_open_output(alg: AeadType, key: Seq<u8>, nonce: Seq<u8>, aad: Seq<u8>, ciphertext: Seq<u8>) -> Option<Seq<u8>>;

/// Calls `OpenMlsCrypto::aead_encrypt` of the provider with a nonce of twelve
/// bytes. Whether a ciphertext comes back, and which, depends on the
/// algorithm, the key, the nonce, the associated data and the plaintext only.
/// The provider's error value is dropped.
#[verifier::external_body]
pub(crate) fn provider_aead_encrypt(backend: &OpenMlsRustCrypto, alg: AeadType, key: &[u8], plaintext: &[u8], nonce: &[u8], aad: &[u8]) -> (r: Option<Vec<u8>>)
    requires
        nonce@.len() == 12,
    ensures
        r.is_some() == aead_seal_output(alg, key@, nonce@, aad@, plaintext@).is_some(),
        r.is_some() ==> r.unwrap()@ == aead_seal_output(alg, key@, nonce@, aad@, plaintext@).unwrap(),
{
    let outside = match alg {
        AeadType::Aes128Gcm => openmls_traits::types::AeadType::Aes128Gcm,
        AeadType::Aes256Gcm => openmls_traits::types::AeadType::Aes256Gcm,
        AeadType::ChaCha20Poly1305 => openmls_traits::types::AeadType::ChaCha20Poly1305,
    };
    backend.crypto().aead_encrypt(outside, key, plaintext, nonce, aad).ok()
}

/// Calls `OpenMlsCrypto::aead_decrypt` of the provider with a nonce of twelve
/// bytes. Whether a plaintext comes back, and which, depends on the
/// algorithm, the key, the nonce, the associated data and the ciphertext
/// only. The provider's error value is dropped.
#[verifier::external_body]
pub(crate) fn provider_aead_decrypt(backend: &OpenMlsRustCrypto, alg: AeadType, key: &[u8], ciphertext: &[u8], nonce: &[u8], aad: &[u8]) -> (r: Option<Vec<u8>>)
    requires
        nonce@.len() == 12,
    ensures
        r.is_some() == aead_open_output(alg, key@, nonce@, aad@, ciphertext@).is_some(),
        r.is_some() ==> r.unwrap()@ == aead_open_output(alg, key@, nonce@, aad@, ciphertext@).unwrap(),
{
    let outside = match alg {
        AeadType::Aes128Gcm => openmls_traits::types::AeadType::Aes128Gcm,
        AeadType::Aes256Gcm => openmls_traits::types::AeadType::Aes256Gcm,
        AeadType::ChaCha20Poly1305 => openmls_traits::types::AeadType::ChaCha20Poly1305,
    };
    backend.crypto().aead_decrypt(outside, key, ciphertext, nonce, aad).ok()
}

} // verus!
