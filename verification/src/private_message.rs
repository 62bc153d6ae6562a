//! Encrypted application messages. The content of a message, with the
//! signature of its sender and a padding of zero bytes, is encrypted with
//! the key material of one generation of the sender's ratchet; who sent it,
//! and in which generation, is encrypted with key material derived from the
//! sender data secret and a sample of the ciphertext.

use vstd::prelude::*;
use vstd::string::StringSliceAdditionalSpecFns;
use openmls_rust_crypto::OpenMlsRustCrypto;
use crate::bytes::append_bytes;
use crate::bytes::copy_bytes;
use crate::codec::append_u16;
use crate::codec::append_u32;
use crate::codec::append_u64;
use crate::codec::append_u8;
use crate::codec::append_vector;
use crate::codec::u16_encoding;
use crate::codec::u32_encoding;
use crate::codec::u64_encoding;
use crate::codec::u8_encoding;
use crate::codec::vector_encoding;
use crate::codec::CodecError;
use crate::codec::MAX_VECTOR_LENGTH;
use crate::framing::ContentType;
use crate::framing::PrivateMessage;
use crate::framing::PrivateMessageIn;
use crate::framing::PrivateMessageView;
use crate::framing::WireFormat;
use crate::group::GroupEpoch;
use crate::group::GroupId;
use crate::keys::Signature;
use crate::keys::SignatureKeyPair;
use crate::keys::SignatureKeyPairView;
use crate::message_secrets::with_secret_tree;
use crate::message_secrets::MessageDecryptionError;
use crate::message_secrets::MessageSecrets;
use crate::message_secrets::MessageSecretsView;
use crate::provider::provider_random_vec;
use crate::provider::aead_open_output;
use crate::provider::aead_seal_output;
use crate::provider::provider_aead_decrypt;
use crate::provider::provider_aead_encrypt;
use crate::reader::expect_end;
use crate::reader::is_read;
use crate::reader::lemma_read_u32_of_encoding;
use crate::reader::lemma_read_u64_of_encoding;
use crate::reader::lemma_read_u8_of_encoding;
use crate::reader::read_u64;
use crate::reader::read_u8;
use crate::reader::spec_read_u64;
use crate::reader::spec_read_u8;
use crate::reader::lemma_read_vector_of_encoding;
use crate::reader::read_u32;
use crate::reader::read_vector;
use crate::reader::spec_read_u32;
use crate::reader::spec_read_vector;
use crate::reader::ReadError;
use crate::secret::spec_kdf_expand_label;
use crate::secret_tree::lemma_tree_second_decryption_fails;
use crate::secret_tree::spec_tree_secret_for_decryption;
use crate::secret_tree::spec_tree_secret_for_encryption;
use crate::secret_tree::SecretTreeError;
use crate::secret_tree::SecretType;
use crate::sender_ratchet::SenderRatchetConfiguration;
use crate::signable::sign_with_label;
use crate::signable::spec_sign_with_label;
use crate::secret::Secret;
use crate::secret::SecretView;
use crate::sender_ratchet::KeyMaterialView;
use crate::sender_ratchet::RatchetKeyMaterial;
use crate::signable::spec_verify_with_label;
use crate::signable::OpenMlsSignaturePublicKey;
use crate::signable::SignatureError;
use crate::signable::VerificationKeyView;
use crate::tree_math::LeafNodeIndex;
use crate::types::AeadType;
use crate::types::Ciphersuite;
use crate::types::CryptoError;
use crate::types::ProtocolVersion;

verus! {

/// The length of the tag that every AEAD algorithm of the ciphersuites puts
/// behind a ciphertext.
pub const TAG_SIZE: usize = 16;

/// Who sent an encrypted message and in which generation of the sender's
/// ratchet, with the guard against the reuse of a nonce.
#[derive(Clone, Copy, Debug, PartialEq, Eq, Structural)]
pub struct SenderData {
    pub leaf_index: LeafNodeIndex,
    pub generation: u32,
    pub reuse_guard: u32,
}

/// The encoding of sender data: the leaf, the generation and the four bytes
/// of the reuse guard.
pub open spec fn sender_data_encoding(data: SenderData) -> Seq<u8> {
    u32_encoding(data.leaf_index.0) + u32_encoding(data.generation) + u32_encoding(data.reuse_guard)
}

/// The sender data that bytes encode: nothing may follow it.
pub open spec fn spec_read_sender_data(bytes: Seq<u8>) -> Result<SenderData, ReadError> {
    match spec_read_u32(bytes) {
        Err(e) => Err(e),
        Ok((leaf_index, rest)) => match spec_read_u32(rest) {
            Err(e) => Err(e),
            Ok((generation, rest)) => match spec_read_u32(rest) {
                Err(e) => Err(e),
                Ok((reuse_guard, rest)) => if rest.len() > 0 {
                    Err(ReadError::TrailingData)
                } else {
                    Ok(SenderData { leaf_index: LeafNodeIndex(leaf_index), generation, reuse_guard })
                },
            },
        },
    }
}

/// Reading gives back the sender data that was encoded.
pub proof fn lemma_read_sender_data_of_encoding(data: SenderData)
    ensures
        spec_read_sender_data(sender_data_encoding(data)) == Ok::<SenderData, ReadError>(data),
{
    let tail = u32_encoding(data.generation) + u32_encoding(data.reuse_guard);
    assert(sender_data_encoding(data) == u32_encoding(data.leaf_index.0) + tail);
    lemma_read_u32_of_encoding(data.leaf_index.0, tail);
    lemma_read_u32_of_encoding(data.generation, u32_encoding(data.reuse_guard));
    assert(u32_encoding(data.reuse_guard) == u32_encoding(data.reuse_guard) + Seq::<u8>::empty());
    lemma_read_u32_of_encoding(data.reuse_guard, Seq::empty());
}

impl SenderData {
    /// The encoding of the sender data.
    pub fn encode(&self) -> (out: Vec<u8>)
        ensures
            out@ == sender_data_encoding(*self),
    {
        let mut out: Vec<u8> = Vec::new();
        append_u32(&mut out, self.leaf_index.0);
        append_u32(&mut out, self.generation);
        append_u32(&mut out, self.reuse_guard);
        assert(out@ == sender_data_encoding(*self));
        out
    }

    /// The sender data that bytes encode.
    pub fn decode(bytes: &[u8]) -> (r: Result<SenderData, ReadError>)
        ensures
            r == spec_read_sender_data(bytes@),
    {
        assert(bytes@.skip(0) == bytes@);
        let (leaf_index, at) = match read_u32(bytes, 0) {
            Ok(read) => read,
            Err(e) => {
                return Err(e);
            },
        };
        let (generation, at) = match read_u32(bytes, at) {
            Ok(read) => read,
            Err(e) => {
                return Err(e);
            },
        };
        let (reuse_guard, at) = match read_u32(bytes, at) {
            Ok(read) => read,
            Err(e) => {
                return Err(e);
            },
        };
        match expect_end(bytes, at) {
            Ok(()) => Ok(SenderData { leaf_index: LeafNodeIndex(leaf_index), generation, reuse_guard }),
            Err(e) => Err(e),
        }
    }
}

/// What is authenticated with the sender data of a message: the group, the
/// epoch and the content type.
pub open spec fn sender_data_aad(group_id: Seq<u8>, epoch: u64, content_type: ContentType) -> Seq<u8> {
    vector_encoding(group_id) + u64_encoding(epoch) + u8_encoding(content_type.spec_value())
}

/// What is authenticated with the content of a message: the group, the
/// epoch, the content type and the authenticated data.
pub open spec fn content_aad(group_id: Seq<u8>, epoch: u64, content_type: ContentType, authenticated_data: Seq<u8>) -> Seq<u8> {
    sender_data_aad(group_id, epoch, content_type) + vector_encoding(authenticated_data)
}

/// What is authenticated with the sender data of a message. Fails where the
/// group identifier is too long.
pub fn encode_sender_data_aad(group_id: &[u8], epoch: u64, content_type: ContentType) -> (r: Result<Vec<u8>, CodecError>)
    ensures
        r is Ok == (group_id@.len() <= MAX_VECTOR_LENGTH),
        r matches Ok(out) ==> out@ == sender_data_aad(group_id@, epoch, content_type),
        r matches Err(e) ==> e == CodecError::InvalidVectorLength,
{
    let mut out: Vec<u8> = Vec::new();
    match append_vector(&mut out, group_id) {
        Ok(()) => {},
        Err(e) => {
            return Err(e);
        },
    }
    append_u64(&mut out, epoch);
    append_u8(&mut out, content_type.value());
    assert(out@ == sender_data_aad(group_id@, epoch, content_type));
    Ok(out)
}

/// What is authenticated with the content of a message. Fails where the
/// group identifier or the authenticated data is too long.
pub fn encode_content_aad(group_id: &[u8], epoch: u64, content_type: ContentType, authenticated_data: &[u8]) -> (r: Result<Vec<u8>, CodecError>)
    ensures
        r is Ok == (group_id@.len() <= MAX_VECTOR_LENGTH && authenticated_data@.len() <= MAX_VECTOR_LENGTH),
        r matches Ok(out) ==> out@ == content_aad(group_id@, epoch, content_type, authenticated_data@),
        r matches Err(e) ==> e == CodecError::InvalidVectorLength,
{
    let mut out = match encode_sender_data_aad(group_id, epoch, content_type) {
        Ok(out) => out,
        Err(e) => {
            return Err(e);
        },
    };
    match append_vector(&mut out, authenticated_data) {
        Ok(()) => Ok(out),
        Err(e) => Err(e),
    }
}

/// The nonce of a generation with the reuse guard of a message: the four
/// bytes of the guard are combined, bit by bit and exclusively, with the
/// first four bytes of the nonce.
pub open spec fn guarded_nonce(nonce: Seq<u8>, reuse_guard: u32) -> Seq<u8> {
    Seq::new(
        nonce.len(),
        |i: int|
            if i < 4 {
                nonce[i] ^ u32_encoding(reuse_guard)[i]
            } else {
                nonce[i]
            },
    )
}

/// The nonce of a generation with the reuse guard of a message.
pub fn guard_nonce(nonce: &[u8], reuse_guard: u32) -> (out: Vec<u8>)
    ensures
        out@ == guarded_nonce(nonce@, reuse_guard),
{
    let mut guard: Vec<u8> = Vec::new();
    append_u32(&mut guard, reuse_guard);
    assert(guard@ == u32_encoding(reuse_guard));
    let mut out: Vec<u8> = Vec::new();
    let n: usize = nonce.len();
    let mut i: usize = 0;
    while i < n
        invariant
            n == nonce@.len(),
            i <= n,
            guard@ == u32_encoding(reuse_guard),
            out@.len() == i,
            forall|j: int| 0 <= j < i ==> out@[j] == guarded_nonce(nonce@, reuse_guard)[j],
        decreases n - i,
    {
        if i < 4 {
            out.push(nonce[i] ^ guard[i]);
        } else {
            out.push(nonce[i]);
        }
        i = i + 1;
    }
    assert(out@ =~= guarded_nonce(nonce@, reuse_guard));
    out
}

/// `n` zero bytes.
pub open spec fn zeros(n: nat) -> Seq<u8> {
    Seq::new(n, |i: int| 0u8)
}

/// How many zero bytes follow a content of `content_length` bytes, so that
/// the content with the padding and the tag of the ciphertext is a multiple
/// of the padding size; none where the padding size is zero.
pub open spec fn padding_length(content_length: nat, padding_size: nat) -> nat {
    if padding_size == 0 {
        0
    } else {
        ((padding_size - (content_length + TAG_SIZE) % (padding_size as int)) % (padding_size as int)) as nat
    }
}

/// With its padding and the tag, a content is a multiple of the padding
/// size; the padding is shorter than the padding size.
pub proof fn lemma_padding_fills(content_length: nat, padding_size: nat)
    requires
        padding_size > 0,
    ensures
        padding_length(content_length, padding_size) < padding_size,
        (content_length + TAG_SIZE + padding_length(content_length, padding_size)) % (padding_size as int) == 0,
{
    let total = (content_length + TAG_SIZE) as int;
    let size = padding_size as int;
    let over = total % size;
    let padding = padding_length(content_length, padding_size) as int;
    assert(0 <= over < size) by (nonlinear_arith)
        requires
            over == total % size,
            size > 0,
    ;
    if over == 0 {
        assert(size % size == 0) by (nonlinear_arith)
            requires
                size > 0,
        ;
        assert(padding == 0);
    } else {
        assert((size - over) % size == size - over) by (nonlinear_arith)
            requires
                0 < over < size,
        ;
        assert(padding == size - over);
        assert((total + size - over) % size == 0) by (nonlinear_arith)
            requires
                over == total % size,
                size > 0,
        ;
    }
}

/// The content of an application message as it is encrypted: the data of
/// the application and the signature, each as a vector, and the padding.
pub open spec fn application_content_encoding(data: Seq<u8>, signature: Seq<u8>, padding: nat) -> Seq<u8> {
    vector_encoding(data) + vector_encoding(signature) + zeros(padding)
}

/// The content of an application message as it is encrypted, padded for a
/// padding size. Fails where the data or the signature is too long.
pub fn encode_application_content(data: &[u8], signature: &[u8], padding_size: usize) -> (r: Result<Vec<u8>, CodecError>)
    ensures
        r is Ok == (data@.len() <= MAX_VECTOR_LENGTH && signature@.len() <= MAX_VECTOR_LENGTH),
        r matches Ok(out) ==> out@ == application_content_encoding(
            data@,
            signature@,
            padding_length((vector_encoding(data@) + vector_encoding(signature@)).len(), padding_size as nat),
        ),
        r matches Err(e) ==> e == CodecError::InvalidVectorLength,
{
    let mut out: Vec<u8> = Vec::new();
    match append_vector(&mut out, data) {
        Ok(()) => {},
        Err(e) => {
            return Err(e);
        },
    }
    match append_vector(&mut out, signature) {
        Ok(()) => {},
        Err(e) => {
            return Err(e);
        },
    }
    let ghost content = vector_encoding(data@) + vector_encoding(signature@);
    assert(out@ == content);
    let padding: usize = if padding_size == 0 {
        0
    } else {
        (padding_size - (out.len() + TAG_SIZE) % padding_size) % padding_size
    };
    let mut i: usize = 0;
    while i < padding
        invariant
            i <= padding,
            out@ == content + zeros(i as nat),
        decreases padding - i,
    {
        out.push(0);
        i = i + 1;
        assert(zeros(i as nat) == zeros((i - 1) as nat).push(0u8));
    }
    Ok(out)
}

/// The data of the application and the signature that the decrypted content
/// of a message holds. The content is malformed where one of the two
/// vectors is not there or a byte behind them is not zero.
pub open spec fn spec_parse_application_content(bytes: Seq<u8>) -> Result<(Seq<u8>, Seq<u8>), MessageDecryptionError> {
    match spec_read_vector(bytes) {
        Err(_) => Err(MessageDecryptionError::MalformedContent),
        Ok((data, rest)) => match spec_read_vector(rest) {
            Err(_) => Err(MessageDecryptionError::MalformedContent),
            Ok((signature, rest)) => if rest == zeros(rest.len()) {
                Ok((data, signature))
            } else {
                Err(MessageDecryptionError::MalformedContent)
            },
        },
    }
}

/// The decrypted content of a message gives back the data and the signature
/// that it was made of, whatever the padding.
pub proof fn lemma_parse_of_application_content(data: Seq<u8>, signature: Seq<u8>, padding: nat)
    requires
        data.len() <= MAX_VECTOR_LENGTH,
        signature.len() <= MAX_VECTOR_LENGTH,
    ensures
        spec_parse_application_content(application_content_encoding(data, signature, padding)) == Ok::<(Seq<u8>, Seq<u8>), MessageDecryptionError>((data, signature)),
{
    let tail = vector_encoding(signature) + zeros(padding);
    assert(application_content_encoding(data, signature, padding) == vector_encoding(data) + tail);
    lemma_read_vector_of_encoding(data, tail);
    lemma_read_vector_of_encoding(signature, zeros(padding));
    assert(zeros(padding) == zeros(zeros(padding).len()));
}

/// Splits the decrypted content of a message into the data of the
/// application and the signature.
#[verifier::loop_isolation(false)]
pub fn parse_application_content(bytes: &[u8]) -> (r: Result<(Vec<u8>, Vec<u8>), MessageDecryptionError>)
    ensures
        r is Ok == spec_parse_application_content(bytes@) is Ok,
        r matches Ok(parts) ==> spec_parse_application_content(bytes@) == Ok::<(Seq<u8>, Seq<u8>), MessageDecryptionError>((parts.0@, parts.1@)),
        r matches Err(e) ==> e == MessageDecryptionError::MalformedContent,
{
    assert(bytes@.skip(0) == bytes@);
    let (data, at) = match read_vector(bytes, 0) {
        Ok(read) => read,
        Err(_) => {
            return Err(MessageDecryptionError::MalformedContent);
        },
    };
    let (signature, at) = match read_vector(bytes, at) {
        Ok(read) => read,
        Err(_) => {
            return Err(MessageDecryptionError::MalformedContent);
        },
    };
    let ghost rest = bytes@.skip(at as int);
    let n: usize = bytes.len();
    let mut i: usize = at;
    while i < n
        invariant
            n == bytes@.len(),
            at <= i <= n,
            rest == bytes@.skip(at as int),
            forall|j: int| at <= j < i ==> bytes@[j] == 0,
        decreases n - i,
    {
        if bytes[i] != 0 {
            assert(rest[i - at] == bytes@[i as int]);
            assert(zeros(rest.len())[i - at] == 0);
            assert(rest != zeros(rest.len()));
            return Err(MessageDecryptionError::MalformedContent);
        }
        i = i + 1;
    }
    assert(rest =~= zeros(rest.len()));
    Ok((data, signature))
}

/// What the sender of an application message signs: the protocol version,
/// the wire format of encrypted messages, the group, the epoch, the sender
/// as a member at its leaf, the authenticated data, the content type, the
/// data of the application, and the encoded group context.
pub open spec fn framed_content_tbs(
    version: ProtocolVersion,
    group_id: Seq<u8>,
    epoch: u64,
    sender: LeafNodeIndex,
    authenticated_data: Seq<u8>,
    data: Seq<u8>,
    serialized_context: Seq<u8>,
) -> Seq<u8> {
    u16_encoding(version.spec_value()) + u16_encoding(WireFormat::PrivateMessage.spec_value()) + vector_encoding(group_id) + u64_encoding(epoch) + u8_encoding(1)
        + u32_encoding(sender.0) + vector_encoding(authenticated_data) + u8_encoding(ContentType::Application.spec_value()) + vector_encoding(data)
        + serialized_context
}

/// Whether what the sender of an application message signs can be encoded:
/// no vector in it is too long.
pub open spec fn framed_content_encodable(group_id: Seq<u8>, authenticated_data: Seq<u8>, data: Seq<u8>) -> bool {
    group_id.len() <= MAX_VECTOR_LENGTH && authenticated_data.len() <= MAX_VECTOR_LENGTH && data.len() <= MAX_VECTOR_LENGTH
}

/// What the sender of an application message signs. Fails where a vector in
/// it is too long.
pub fn encode_framed_content_tbs(
    version: ProtocolVersion,
    group_id: &[u8],
    epoch: u64,
    sender: LeafNodeIndex,
    authenticated_data: &[u8],
    data: &[u8],
    serialized_context: &[u8],
) -> (r: Result<Vec<u8>, CodecError>)
    ensures
        r is Ok == framed_content_encodable(group_id@, authenticated_data@, data@),
        r matches Ok(out) ==> out@ == framed_content_tbs(version, group_id@, epoch, sender, authenticated_data@, data@, serialized_context@),
        r matches Err(e) ==> e == CodecError::InvalidVectorLength,
{
    let mut out: Vec<u8> = Vec::new();
    append_u16(&mut out, version.value());
    append_u16(&mut out, WireFormat::PrivateMessage.value());
    match append_vector(&mut out, group_id) {
        Ok(()) => {},
        Err(e) => {
            return Err(e);
        },
    }
    append_u64(&mut out, epoch);
    append_u8(&mut out, 1);
    append_u32(&mut out, sender.0);
    match append_vector(&mut out, authenticated_data) {
        Ok(()) => {},
        Err(e) => {
            return Err(e);
        },
    }
    append_u8(&mut out, ContentType::Application.value());
    match append_vector(&mut out, data) {
        Ok(()) => {},
        Err(e) => {
            return Err(e);
        },
    }
    append_bytes(&mut out, serialized_context);
    assert(out@ == framed_content_tbs(version, group_id@, epoch, sender, authenticated_data@, data@, serialized_context@));
    Ok(out)
}

/// The sample of a ciphertext that the key material for the sender data is
/// derived with: its first bytes, as many as the hash function of the
/// ciphersuite gives, or all of it where it has fewer.
pub open spec fn ciphertext_sample(ciphersuite: Ciphersuite, ciphertext: Seq<u8>) -> Seq<u8> {
    if ciphertext.len() <= ciphersuite.spec_hash_length() {
        ciphertext
    } else {
        ciphertext.take(ciphersuite.spec_hash_length() as int)
    }
}

/// The key material that the sender data of a message is protected with:
/// derived from the sender data secret under the labels `"key"` and
/// `"nonce"`, with the sample of the ciphertext as context.
pub open spec fn spec_sender_data_material(secret: SecretView, ciphertext: Seq<u8>) -> Result<KeyMaterialView, CryptoError> {
    let sample = ciphertext_sample(secret.ciphersuite, ciphertext);
    let aead = secret.ciphersuite.spec_aead_algorithm();
    match spec_kdf_expand_label(secret, "key".spec_bytes(), sample, aead.spec_key_size()) {
        Err(e) => Err(e),
        Ok(key) => match spec_kdf_expand_label(secret, "nonce".spec_bytes(), sample, aead.spec_nonce_size()) {
            Err(e) => Err(e),
            Ok(nonce) => Ok(KeyMaterialView { key: key.bytes, nonce: nonce.bytes }),
        },
    }
}

/// The key and the nonce that the sender data of a message is protected
/// with.
pub fn sender_data_material(backend: &OpenMlsRustCrypto, secret: &Secret, ciphertext: &[u8]) -> (r: Result<(Secret, Secret), CryptoError>)
    ensures
        r is Ok == spec_sender_data_material(secret@, ciphertext@) is Ok,
        r matches Ok(material) ==> spec_sender_data_material(secret@, ciphertext@) == Ok::<KeyMaterialView, CryptoError>(
            KeyMaterialView { key: material.0@.bytes, nonce: material.1@.bytes },
        ) && material.1@.bytes.len() == 12,
        r matches Err(e) ==> spec_sender_data_material(secret@, ciphertext@) == Err::<KeyMaterialView, CryptoError>(e),
{
    let ciphersuite = secret.ciphersuite();
    let sample = if ciphertext.len() <= ciphersuite.hash_length() {
        ciphertext
    } else {
        vstd::slice::slice_subrange(ciphertext, 0, ciphersuite.hash_length())
    };
    assert(sample@ == ciphertext_sample(secret@.ciphersuite, ciphertext@));
    let aead = ciphersuite.aead_algorithm();
    let key = match secret.kdf_expand_label(backend, "key", sample, aead.key_size()) {
        Ok(key) => key,
        Err(e) => {
            return Err(e);
        },
    };
    let nonce = match secret.kdf_expand_label(backend, "nonce", sample, aead.nonce_size()) {
        Ok(nonce) => nonce,
        Err(e) => {
            return Err(e);
        },
    };
    Ok((key, nonce))
}

/// The ciphertext of a content under the key material of a generation and a
/// reuse guard, if there is one: the content is encrypted under the key and
/// the guarded nonce. There is none where the nonce has not twelve bytes.
pub open spec fn spec_seal_content(alg: AeadType, material: KeyMaterialView, reuse_guard: u32, aad: Seq<u8>, content: Seq<u8>) -> Option<Seq<u8>> {
    if material.nonce.len() == 12 {
        aead_seal_output(alg, material.key, guarded_nonce(material.nonce, reuse_guard), aad, content)
    } else {
        None
    }
}

/// The content of a ciphertext under the key material of a generation and a
/// reuse guard, if it is accepted.
pub open spec fn spec_open_content(alg: AeadType, material: KeyMaterialView, reuse_guard: u32, aad: Seq<u8>, ciphertext: Seq<u8>) -> Option<Seq<u8>> {
    if material.nonce.len() == 12 {
        aead_open_output(alg, material.key, guarded_nonce(material.nonce, reuse_guard), aad, ciphertext)
    } else {
        None
    }
}

/// Encrypts a content under the key material of a generation and a reuse
/// guard.
pub fn seal_content(backend: &OpenMlsRustCrypto, alg: AeadType, material: &RatchetKeyMaterial, reuse_guard: u32, aad: &[u8], content: &[u8]) -> (r: Option<Vec<u8>>)
    ensures
        r is Some == spec_seal_content(alg, material@, reuse_guard, aad@, content@) is Some,
        r matches Some(ciphertext) ==> Some(ciphertext@) == spec_seal_content(alg, material@, reuse_guard, aad@, content@),
{
    if material.nonce().len() != 12 {
        return None;
    }
    let nonce = guard_nonce(material.nonce(), reuse_guard);
    provider_aead_encrypt(backend, alg, material.key(), content, nonce.as_slice(), aad)
}

/// Decrypts a ciphertext under the key material of a generation and a reuse
/// guard.
pub fn open_content(backend: &OpenMlsRustCrypto, alg: AeadType, material: &RatchetKeyMaterial, reuse_guard: u32, aad: &[u8], ciphertext: &[u8]) -> (r: Option<Vec<u8>>)
    ensures
        r is Some == spec_open_content(alg, material@, reuse_guard, aad@, ciphertext@) is Some,
        r matches Some(content) ==> Some(content@) == spec_open_content(alg, material@, reuse_guard, aad@, ciphertext@),
{
    if material.nonce().len() != 12 {
        return None;
    }
    let nonce = guard_nonce(material.nonce(), reuse_guard);
    provider_aead_decrypt(backend, alg, material.key(), ciphertext, nonce.as_slice(), aad)
}

/// The encrypted sender data of a message with the ciphertext given, if
/// there is one: the encoded sender data, encrypted under the key material
/// that the sender data secret and the ciphertext give.
pub open spec fn spec_seal_sender_data(secret: SecretView, aad: Seq<u8>, ciphertext: Seq<u8>, sender_data: SenderData) -> Option<Seq<u8>> {
    match spec_sender_data_material(secret, ciphertext) {
        Err(_) => None,
        Ok(material) => aead_seal_output(secret.ciphersuite.spec_aead_algorithm(), material.key, material.nonce, aad, sender_data_encoding(sender_data)),
    }
}

/// Encrypts the sender data of a message with the ciphertext given.
pub fn seal_sender_data(backend: &OpenMlsRustCrypto, secret: &Secret, aad: &[u8], ciphertext: &[u8], sender_data: SenderData) -> (r: Option<Vec<u8>>)
    ensures
        r is Some == spec_seal_sender_data(secret@, aad@, ciphertext@, sender_data) is Some,
        r matches Some(sealed) ==> Some(sealed@) == spec_seal_sender_data(secret@, aad@, ciphertext@, sender_data),
{
    let (key, nonce) = match sender_data_material(backend, secret, ciphertext) {
        Ok(material) => material,
        Err(_) => {
            return None;
        },
    };
    let encoded = sender_data.encode();
    provider_aead_encrypt(backend, secret.ciphersuite().aead_algorithm(), key.as_slice(), encoded.as_slice(), nonce.as_slice(), aad)
}

/// The encrypted message that a content gives under the key material of a
/// generation of the sender's ratchet, if there is one. There is none where
/// the group identifier or the authenticated data is too long or the
/// encryption of the content or of the sender data fails.
pub open spec fn spec_private_message(
    alg: AeadType,
    sender_data_secret: SecretView,
    group_id: Seq<u8>,
    epoch: u64,
    content_type: ContentType,
    authenticated_data: Seq<u8>,
    sender_data: SenderData,
    material: KeyMaterialView,
    content: Seq<u8>,
) -> Option<PrivateMessageView> {
    if group_id.len() > MAX_VECTOR_LENGTH || authenticated_data.len() > MAX_VECTOR_LENGTH {
        None
    } else {
        match spec_seal_content(alg, material, sender_data.reuse_guard, content_aad(group_id, epoch, content_type, authenticated_data), content) {
            None => None,
            Some(ciphertext) => match spec_seal_sender_data(sender_data_secret, sender_data_aad(group_id, epoch, content_type), ciphertext, sender_data) {
                None => None,
                Some(encrypted_sender_data) => Some(PrivateMessageView { group_id, epoch, content_type, authenticated_data, encrypted_sender_data, ciphertext }),
            },
        }
    }
}

/// Encrypts a content, and who sent it, into a message.
pub fn seal_private_message(
    backend: &OpenMlsRustCrypto,
    alg: AeadType,
    sender_data_secret: &Secret,
    group_id: &GroupId,
    epoch: GroupEpoch,
    content_type: ContentType,
    authenticated_data: &[u8],
    sender_data: SenderData,
    material: &RatchetKeyMaterial,
    content: &[u8],
) -> (r: Option<PrivateMessage>)
    ensures
        r is Some == spec_private_message(alg, sender_data_secret@, group_id@, epoch.0, content_type, authenticated_data@, sender_data, material@, content@) is Some,
        r matches Some(message) ==> Some(message@) == spec_private_message(
            alg,
            sender_data_secret@,
            group_id@,
            epoch.0,
            content_type,
            authenticated_data@,
            sender_data,
            material@,
            content@,
        ),
{
    let aad = match encode_content_aad(group_id.as_slice(), epoch.0, content_type, authenticated_data) {
        Ok(aad) => aad,
        Err(_) => {
            return None;
        },
    };
    let ciphertext = match seal_content(backend, alg, material, sender_data.reuse_guard, aad.as_slice(), content) {
        Some(ciphertext) => ciphertext,
        None => {
            return None;
        },
    };
    let sender_aad = match encode_sender_data_aad(group_id.as_slice(), epoch.0, content_type) {
        Ok(aad) => aad,
        Err(_) => {
            return None;
        },
    };
    let encrypted_sender_data = match seal_sender_data(backend, sender_data_secret, sender_aad.as_slice(), ciphertext.as_slice(), sender_data) {
        Some(sealed) => sealed,
        None => {
            return None;
        },
    };
    Some(
        PrivateMessage {
            group_id: group_id.duplicate(),
            epoch,
            content_type,
            authenticated_data: copy_bytes(authenticated_data),
            encrypted_sender_data,
            ciphertext,
        },
    )
}

/// The sender data of an encrypted message. Fails with `AeadError` where
/// the encrypted sender data is not accepted under the key material that the
/// sender data secret and the ciphertext give, and with `MalformedContent`
/// where the group identifier is too long or what was decrypted is no sender
/// data.
pub open spec fn spec_open_sender_data(secret: SecretView, message: PrivateMessageView) -> Result<SenderData, MessageDecryptionError> {
    if message.group_id.len() > MAX_VECTOR_LENGTH {
        Err(MessageDecryptionError::MalformedContent)
    } else {
        match spec_sender_data_material(secret, message.ciphertext) {
            Err(_) => Err(MessageDecryptionError::AeadError),
            Ok(material) => match aead_open_output(
                secret.ciphersuite.spec_aead_algorithm(),
                material.key,
                material.nonce,
                sender_data_aad(message.group_id, message.epoch, message.content_type),
                message.encrypted_sender_data,
            ) {
                None => Err(MessageDecryptionError::AeadError),
                Some(bytes) => match spec_read_sender_data(bytes) {
                    Ok(sender_data) => Ok(sender_data),
                    Err(_) => Err(MessageDecryptionError::MalformedContent),
                },
            },
        }
    }
}

/// Decrypts the sender data of an encrypted message.
pub fn open_sender_data(backend: &OpenMlsRustCrypto, secret: &Secret, message: &PrivateMessageIn) -> (r: Result<SenderData, MessageDecryptionError>)
    ensures
        r == spec_open_sender_data(secret@, message@),
{
    let aad = match encode_sender_data_aad(message.group_id.as_slice(), message.epoch.0, message.content_type) {
        Ok(aad) => aad,
        Err(_) => {
            return Err(MessageDecryptionError::MalformedContent);
        },
    };
    let (key, nonce) = match sender_data_material(backend, secret, message.ciphertext.as_slice()) {
        Ok(material) => material,
        Err(_) => {
            return Err(MessageDecryptionError::AeadError);
        },
    };
    let alg = secret.ciphersuite().aead_algorithm();
    let bytes = match provider_aead_decrypt(backend, alg, key.as_slice(), message.encrypted_sender_data.as_slice(), nonce.as_slice(), aad.as_slice()) {
        Some(bytes) => bytes,
        None => {
            return Err(MessageDecryptionError::AeadError);
        },
    };
    match SenderData::decode(bytes.as_slice()) {
        Ok(sender_data) => Ok(sender_data),
        Err(_) => Err(MessageDecryptionError::MalformedContent),
    }
}

/// What a decrypted application message is before the signature of its
/// sender is verified.
pub struct VerifiableMessageView {
    pub group_id: Seq<u8>,
    pub epoch: u64,
    pub sender: LeafNodeIndex,
    pub authenticated_data: Seq<u8>,
    pub data: Seq<u8>,
    pub signature: Seq<u8>,
    /// The encoded group context of the epoch of the message.
    pub serialized_context: Seq<u8>,
}

/// A decrypted application message whose signature is not yet verified,
/// with the encoded group context of its epoch, which the signature covers.
#[derive(Debug, PartialEq, Eq)]
pub struct VerifiableApplicationMessage {
    group_id: GroupId,
    epoch: GroupEpoch,
    sender: LeafNodeIndex,
    authenticated_data: Vec<u8>,
    data: Vec<u8>,
    signature: Signature,
    serialized_context: Vec<u8>,
}

impl View for VerifiableApplicationMessage {
    type V = VerifiableMessageView;

    closed spec fn view(&self) -> VerifiableMessageView {
        VerifiableMessageView {
            group_id: self.group_id@,
            epoch: self.epoch.0,
            sender: self.sender,
            authenticated_data: self.authenticated_data@,
            data: self.data@,
            signature: self.signature@,
            serialized_context: self.serialized_context@,
        }
    }
}

/// The label under which the sender of a message signs it.
pub open spec fn framed_content_label() -> Seq<u8> {
    "FramedContentTBS".spec_bytes()
}

/// Whether the signature of a decrypted application message is accepted
/// under a key, for a protocol version: it is one of what the sender of the
/// message signs.
pub open spec fn spec_verify_message(message: VerifiableMessageView, key: VerificationKeyView, version: ProtocolVersion) -> bool {
    framed_content_encodable(message.group_id, message.authenticated_data, message.data) && spec_verify_with_label(
        key,
        framed_content_label(),
        framed_content_tbs(version, message.group_id, message.epoch, message.sender, message.authenticated_data, message.data, message.serialized_context),
        message.signature,
    )
}

impl VerifiableApplicationMessage {
    /// The member that the message says it is of.
    pub fn sender(&self) -> (l: LeafNodeIndex)
        ensures
            l == self@.sender,
    {
        self.sender
    }

    /// The data that was authenticated with the message.
    pub fn authenticated_data(&self) -> (b: &[u8])
        ensures
            b@ == self@.authenticated_data,
    {
        self.authenticated_data.as_slice()
    }

    /// Verifies the signature of the sender under a key, and gives the data
    /// of the application. Fails with `VerificationError` where the
    /// signature is not accepted.
    pub fn verify(self, backend: &OpenMlsRustCrypto, key: &OpenMlsSignaturePublicKey, version: ProtocolVersion) -> (r: Result<Vec<u8>, SignatureError>)
        ensures
            r is Ok == spec_verify_message(self@, key@, version),
            r matches Ok(data) ==> data@ == self@.data,
            r matches Err(e) ==> e == SignatureError::VerificationError,
    {
        let tbs = match encode_framed_content_tbs(
            version,
            self.group_id.as_slice(),
            self.epoch.0,
            self.sender,
            self.authenticated_data.as_slice(),
            self.data.as_slice(),
            self.serialized_context.as_slice(),
        ) {
            Ok(tbs) => tbs,
            Err(_) => {
                return Err(SignatureError::VerificationError);
            },
        };
        match key.verify_with_label(backend, "FramedContentTBS", tbs.as_slice(), &self.signature) {
            Ok(()) => Ok(self.data),
            Err(e) => Err(e),
        }
    }
}

/// The application message that an encrypted message holds for the sender
/// data and the key material given. Fails with `MalformedContent` where the
/// group identifier or the authenticated data is too long or the decrypted
/// content is malformed, and with `AeadError` where the ciphertext is not
/// accepted.
pub open spec fn spec_open_application_message(
    alg: AeadType,
    message: PrivateMessageView,
    sender_data: SenderData,
    material: KeyMaterialView,
    serialized_context: Seq<u8>,
) -> Result<VerifiableMessageView, MessageDecryptionError> {
    if message.group_id.len() > MAX_VECTOR_LENGTH || message.authenticated_data.len() > MAX_VECTOR_LENGTH {
        Err(MessageDecryptionError::MalformedContent)
    } else {
        match spec_open_content(
            alg,
            material,
            sender_data.reuse_guard,
            content_aad(message.group_id, message.epoch, message.content_type, message.authenticated_data),
            message.ciphertext,
        ) {
            None => Err(MessageDecryptionError::AeadError),
            Some(content) => match spec_parse_application_content(content) {
                Err(e) => Err(e),
                Ok((data, signature)) => Ok(
                    VerifiableMessageView {
                        group_id: message.group_id,
                        epoch: message.epoch,
                        sender: sender_data.leaf_index,
                        authenticated_data: message.authenticated_data,
                        data,
                        signature,
                        serialized_context,
                    },
                ),
            },
        }
    }
}

/// What was decrypted, if anything.
pub open spec fn opened_view(r: Result<VerifiableApplicationMessage, MessageDecryptionError>) -> Result<VerifiableMessageView, MessageDecryptionError> {
    match r {
        Ok(message) => Ok(message@),
        Err(e) => Err(e),
    }
}

/// Decrypts the content of an encrypted message with the key material
/// given, for the sender data given; the encoded group context of the epoch
/// of the message goes with what was decrypted.
pub fn open_application_message(
    backend: &OpenMlsRustCrypto,
    alg: AeadType,
    message: &PrivateMessageIn,
    sender_data: SenderData,
    material: &RatchetKeyMaterial,
    serialized_context: &[u8],
) -> (r: Result<VerifiableApplicationMessage, MessageDecryptionError>)
    ensures
        opened_view(r) == spec_open_application_message(alg, message@, sender_data, material@, serialized_context@),
{
    let aad = match encode_content_aad(message.group_id.as_slice(), message.epoch.0, message.content_type, message.authenticated_data.as_slice()) {
        Ok(aad) => aad,
        Err(_) => {
            return Err(MessageDecryptionError::MalformedContent);
        },
    };
    let content = match open_content(backend, alg, material, sender_data.reuse_guard, aad.as_slice(), message.ciphertext.as_slice()) {
        Some(content) => content,
        None => {
            return Err(MessageDecryptionError::AeadError);
        },
    };
    match parse_application_content(content.as_slice()) {
        Err(e) => Err(e),
        Ok((data, signature)) => Ok(
            VerifiableApplicationMessage {
                group_id: message.group_id.duplicate(),
                epoch: message.epoch,
                sender: sender_data.leaf_index,
                authenticated_data: copy_bytes(message.authenticated_data.as_slice()),
                data,
                signature: Signature::new(signature),
                serialized_context: copy_bytes(serialized_context),
            },
        ),
    }
}

/// Failures of encrypting a message.
#[derive(Clone, Copy, Debug, PartialEq, Eq, Structural)]
pub enum MessageEncryptionError {
    /// The group identifier, the authenticated data, the data or the
    /// signature is too long.
    ContentTooLong,
    /// The signer made no signature.
    SigningError,
    /// The provider gave no randomness for the reuse guard.
    InsufficientRandomness,
    /// The secret tree gave no key material.
    SecretTreeError(SecretTreeError),
    /// The content or the sender data was not encrypted.
    EncryptionError,
}

/// The content of an application message as it is encrypted: the data with
/// the signature of the sender over it and what frames it, padded for a
/// padding size. Fails with `ContentTooLong` where a vector is too long, and
/// with `SigningError` where no signature is made.
pub open spec fn spec_signed_content(
    version: ProtocolVersion,
    group_id: Seq<u8>,
    epoch: u64,
    sender: LeafNodeIndex,
    signer: SignatureKeyPairView,
    authenticated_data: Seq<u8>,
    data: Seq<u8>,
    serialized_context: Seq<u8>,
    padding_size: nat,
) -> Result<Seq<u8>, MessageEncryptionError> {
    if !framed_content_encodable(group_id, authenticated_data, data) {
        Err(MessageEncryptionError::ContentTooLong)
    } else {
        match spec_sign_with_label(
            signer,
            framed_content_label(),
            framed_content_tbs(version, group_id, epoch, sender, authenticated_data, data, serialized_context),
        ) {
            None => Err(MessageEncryptionError::SigningError),
            Some(signature) => if signature.len() > MAX_VECTOR_LENGTH {
                Err(MessageEncryptionError::ContentTooLong)
            } else {
                Ok(application_content_encoding(data, signature, padding_length((vector_encoding(data) + vector_encoding(signature)).len(), padding_size)))
            },
        }
    }
}

/// Signs the data of an application message with what frames it, and gives
/// the content as it is encrypted.
pub fn signed_application_content(
    version: ProtocolVersion,
    group_id: &GroupId,
    epoch: GroupEpoch,
    sender: LeafNodeIndex,
    signer: &SignatureKeyPair,
    authenticated_data: &[u8],
    data: &[u8],
    serialized_context: &[u8],
    padding_size: usize,
) -> (r: Result<Vec<u8>, MessageEncryptionError>)
    ensures
        r is Ok == spec_signed_content(version, group_id@, epoch.0, sender, signer@, authenticated_data@, data@, serialized_context@, padding_size as nat) is Ok,
        r matches Ok(content) ==> spec_signed_content(version, group_id@, epoch.0, sender, signer@, authenticated_data@, data@, serialized_context@, padding_size as nat)
            == Ok::<Seq<u8>, MessageEncryptionError>(content@),
        r matches Err(e) ==> spec_signed_content(version, group_id@, epoch.0, sender, signer@, authenticated_data@, data@, serialized_context@, padding_size as nat)
            == Err::<Seq<u8>, MessageEncryptionError>(e),
{
    let tbs = match encode_framed_content_tbs(version, group_id.as_slice(), epoch.0, sender, authenticated_data, data, serialized_context) {
        Ok(tbs) => tbs,
        Err(_) => {
            return Err(MessageEncryptionError::ContentTooLong);
        },
    };
    let signature = match sign_with_label(signer, "FramedContentTBS", tbs.as_slice()) {
        Ok(signature) => signature,
        Err(_) => {
            return Err(MessageEncryptionError::SigningError);
        },
    };
    match encode_application_content(data, signature.as_slice(), padding_size) {
        Ok(content) => Ok(content),
        Err(_) => Err(MessageEncryptionError::ContentTooLong),
    }
}

/// What encrypting a content as an application message of the member at
/// the leaf `own` does to the secrets of an epoch, and what it gives: the
/// next generation of the member's application ratchet is used up, and the
/// content is encrypted under its key material with the reuse guard given.
pub open spec fn spec_encrypt_content(
    secrets: MessageSecretsView,
    ciphersuite: Ciphersuite,
    group_id: Seq<u8>,
    epoch: u64,
    own: LeafNodeIndex,
    authenticated_data: Seq<u8>,
    content: Seq<u8>,
    reuse_guard: u32,
) -> (MessageSecretsView, Result<PrivateMessageView, MessageEncryptionError>) {
    let next = spec_tree_secret_for_encryption(secrets.secret_tree, ciphersuite, own.0 as nat, SecretType::ApplicationSecret);
    (
        with_secret_tree(secrets, next.0),
        match next.1 {
            Err(e) => Err(MessageEncryptionError::SecretTreeError(e)),
            Ok((generation, material)) => match spec_private_message(
                ciphersuite.spec_aead_algorithm(),
                secrets.sender_data_secret,
                group_id,
                epoch,
                ContentType::Application,
                authenticated_data,
                SenderData { leaf_index: own, generation, reuse_guard },
                material,
                content,
            ) {
                None => Err(MessageEncryptionError::EncryptionError),
                Some(message) => Ok(message),
            },
        },
    )
}

/// What decrypting an application message does to the secrets of an epoch,
/// and what it gives. The sender data is decrypted first; then the secret
/// tree is asked for the key material of the sender's generation, which uses
/// that generation up; then the content is decrypted and split. A message
/// that holds no data of the application, or whose sender data is not had,
/// leaves the secrets as they were.
pub open spec fn spec_decrypt_application_message(
    secrets: MessageSecretsView,
    ciphersuite: Ciphersuite,
    message: PrivateMessageView,
    configuration: SenderRatchetConfiguration,
) -> (MessageSecretsView, Result<VerifiableMessageView, MessageDecryptionError>) {
    if message.content_type != ContentType::Application {
        (secrets, Err(MessageDecryptionError::NotApplicationMessage))
    } else {
        match spec_open_sender_data(secrets.sender_data_secret, message) {
            Err(e) => (secrets, Err(e)),
            Ok(sender_data) => {
                let next = spec_tree_secret_for_decryption(
                    secrets.secret_tree,
                    ciphersuite,
                    sender_data.leaf_index.0 as nat,
                    SecretType::ApplicationSecret,
                    sender_data.generation,
                    configuration,
                );
                (
                    with_secret_tree(secrets, next.0),
                    match next.1 {
                        Err(e) => Err(MessageDecryptionError::SecretTreeError(e)),
                        Ok(material) => spec_open_application_message(
                            ciphersuite.spec_aead_algorithm(),
                            message,
                            sender_data,
                            material,
                            secrets.serialized_context,
                        ),
                    },
                )
            },
        }
    }
}

/// An application message is decrypted once. After a message was
/// decrypted with the secrets of its epoch, the same message is refused: the
/// generation of the sender's ratchet that it is of was used up. It is
/// refused with `SecretReuseError` where the configuration keeps key material
/// of earlier generations at all.
pub proof fn lemma_message_decrypts_once(secrets: MessageSecretsView, ciphersuite: Ciphersuite, message: PrivateMessageView, configuration: SenderRatchetConfiguration)
    requires
        secrets.secret_tree.ratchets.len() == secrets.secret_tree.leaf_count,
        spec_decrypt_application_message(secrets, ciphersuite, message, configuration).1 is Ok,
    ensures
        spec_decrypt_application_message(
            spec_decrypt_application_message(secrets, ciphersuite, message, configuration).0,
            ciphersuite,
            message,
            configuration,
        ).1 is Err,
        configuration.out_of_order_tolerance >= 1 ==> spec_decrypt_application_message(
            spec_decrypt_application_message(secrets, ciphersuite, message, configuration).0,
            ciphersuite,
            message,
            configuration,
        ).1 == Err::<VerifiableMessageView, MessageDecryptionError>(MessageDecryptionError::SecretTreeError(SecretTreeError::SecretReuseError)),
{
    let sender_data = spec_open_sender_data(secrets.sender_data_secret, message).unwrap();
    lemma_tree_second_decryption_fails(
        secrets.secret_tree,
        ciphersuite,
        sender_data.leaf_index.0 as nat,
        SecretType::ApplicationSecret,
        sender_data.generation,
        configuration,
    );
}

/// What was encrypted, if anything.
pub open spec fn sealed_view(r: Result<PrivateMessage, MessageEncryptionError>) -> Result<PrivateMessageView, MessageEncryptionError> {
    match r {
        Ok(message) => Ok(message@),
        Err(e) => Err(e),
    }
}

/// Whether the secrets of an epoch after the encryption of an application
/// message, and the outcome, are what signing the data, drawing a reuse
/// guard and encrypting the content give. Where no content is made or no
/// reuse guard is had, the secrets are as before.
pub open spec fn is_encryption_with(
    before: MessageSecretsView,
    after: MessageSecretsView,
    outcome: Result<PrivateMessageView, MessageEncryptionError>,
    ciphersuite: Ciphersuite,
    version: ProtocolVersion,
    group_id: Seq<u8>,
    epoch: u64,
    own: LeafNodeIndex,
    signer: SignatureKeyPairView,
    authenticated_data: Seq<u8>,
    data: Seq<u8>,
    padding_size: nat,
) -> bool {
    let signed = spec_signed_content(version, group_id, epoch, own, signer, authenticated_data, data, before.serialized_context, padding_size);
    if signed is Err {
        after == before && outcome == Err::<PrivateMessageView, MessageEncryptionError>(signed->Err_0)
    } else {
        (after == before && outcome == Err::<PrivateMessageView, MessageEncryptionError>(MessageEncryptionError::InsufficientRandomness)) || exists|reuse_guard: u32|
            (after, outcome) == #[trigger] spec_encrypt_content(before, ciphersuite, group_id, epoch, own, authenticated_data, signed->Ok_0, reuse_guard)
    }
}

/// An encryption with some reuse guard is an encryption.
proof fn lemma_encryption_with_guard(
    before: MessageSecretsView,
    after: MessageSecretsView,
    outcome: Result<PrivateMessageView, MessageEncryptionError>,
    ciphersuite: Ciphersuite,
    version: ProtocolVersion,
    group_id: Seq<u8>,
    epoch: u64,
    own: LeafNodeIndex,
    signer: SignatureKeyPairView,
    authenticated_data: Seq<u8>,
    data: Seq<u8>,
    padding_size: nat,
    content: Seq<u8>,
    reuse_guard: u32,
)
    requires
        spec_signed_content(version, group_id, epoch, own, signer, authenticated_data, data, before.serialized_context, padding_size) == Ok::<
            Seq<u8>,
            MessageEncryptionError,
        >(content),
        (after, outcome) == spec_encrypt_content(before, ciphersuite, group_id, epoch, own, authenticated_data, content, reuse_guard),
    ensures
        is_encryption_with(before, after, outcome, ciphersuite, version, group_id, epoch, own, signer, authenticated_data, data, padding_size),
{
    let signed = spec_signed_content(version, group_id, epoch, own, signer, authenticated_data, data, before.serialized_context, padding_size);
    assert(signed->Ok_0 == content);
    assert((after, outcome) == spec_encrypt_content(before, ciphersuite, group_id, epoch, own, authenticated_data, signed->Ok_0, reuse_guard));
}

impl MessageSecrets {
    /// Encrypts a content as an application message of the member at the
    /// leaf `own`, under the next generation of the member's application
    /// ratchet and with the reuse guard given.
    pub fn encrypt_content(
        &mut self,
        backend: &OpenMlsRustCrypto,
        ciphersuite: Ciphersuite,
        group_id: &GroupId,
        epoch: GroupEpoch,
        own: LeafNodeIndex,
        authenticated_data: &[u8],
        content: &[u8],
        reuse_guard: u32,
    ) -> (r: Result<PrivateMessage, MessageEncryptionError>)
        requires
            old(self).wf(),
        ensures
            final(self).wf(),
            (final(self)@, sealed_view(r)) == spec_encrypt_content(old(self)@, ciphersuite, group_id@, epoch.0, own, authenticated_data@, content@, reuse_guard),
    {
        let (generation, material) = match self.secret_tree.secret_for_encryption(ciphersuite, backend, own, SecretType::ApplicationSecret) {
            Ok(next) => next,
            Err(e) => {
                return Err(MessageEncryptionError::SecretTreeError(e));
            },
        };
        let sender_data = SenderData { leaf_index: own, generation, reuse_guard };
        match seal_private_message(
            backend,
            ciphersuite.aead_algorithm(),
            &self.sender_data_secret,
            group_id,
            epoch,
            ContentType::Application,
            authenticated_data,
            sender_data,
            &material,
            content,
        ) {
            Some(message) => Ok(message),
            None => Err(MessageEncryptionError::EncryptionError),
        }
    }

    /// Signs and encrypts data of the application as a message of the
    /// member at the leaf `own`, with a reuse guard drawn at random.
    pub fn encrypt_application_message(
        &mut self,
        backend: &OpenMlsRustCrypto,
        ciphersuite: Ciphersuite,
        version: ProtocolVersion,
        group_id: &GroupId,
        epoch: GroupEpoch,
        own: LeafNodeIndex,
        signer: &SignatureKeyPair,
        authenticated_data: &[u8],
        data: &[u8],
        padding_size: usize,
    ) -> (r: Result<PrivateMessage, MessageEncryptionError>)
        requires
            old(self).wf(),
        ensures
            final(self).wf(),
            is_encryption_with(
                old(self)@,
                final(self)@,
                sealed_view(r),
                ciphersuite,
                version,
                group_id@,
                epoch.0,
                own,
                signer@,
                authenticated_data@,
                data@,
                padding_size as nat,
            ),
    {
        let content = match signed_application_content(
            version,
            group_id,
            epoch,
            own,
            signer,
            authenticated_data,
            data,
            self.serialized_context.as_slice(),
            padding_size,
        ) {
            Ok(content) => content,
            Err(e) => {
                return Err(e);
            },
        };
        let reuse_guard = match draw_reuse_guard(backend) {
            Some(reuse_guard) => reuse_guard,
            None => {
                return Err(MessageEncryptionError::InsufficientRandomness);
            },
        };
        let r = self.encrypt_content(backend, ciphersuite, group_id, epoch, own, authenticated_data, content.as_slice(), reuse_guard);
        proof {
            lemma_encryption_with_guard(
                old(self)@,
                self@,
                sealed_view(r),
                ciphersuite,
                version,
                group_id@,
                epoch.0,
                own,
                signer@,
                authenticated_data@,
                data@,
                padding_size as nat,
                content@,
                reuse_guard,
            );
        }
        r
    }

    /// Decrypts an application message with the secrets of its epoch.
    pub fn decrypt_application_message(
        &mut self,
        backend: &OpenMlsRustCrypto,
        ciphersuite: Ciphersuite,
        message: &PrivateMessageIn,
        configuration: &SenderRatchetConfiguration,
    ) -> (r: Result<VerifiableApplicationMessage, MessageDecryptionError>)
        requires
            old(self).wf(),
        ensures
            final(self).wf(),
            (final(self)@, opened_view(r)) == spec_decrypt_application_message(old(self)@, ciphersuite, message@, *configuration),
    {
        match message.content_type {
            ContentType::Application => {},
            _ => {
                return Err(MessageDecryptionError::NotApplicationMessage);
            },
        }
        let sender_data = match open_sender_data(backend, &self.sender_data_secret, message) {
            Ok(sender_data) => sender_data,
            Err(e) => {
                return Err(e);
            },
        };
        let material = match self.secret_tree.secret_for_decryption(
            ciphersuite,
            backend,
            sender_data.leaf_index,
            SecretType::ApplicationSecret,
            sender_data.generation,
            configuration,
        ) {
            Ok(material) => material,
            Err(e) => {
                return Err(MessageDecryptionError::SecretTreeError(e));
            },
        };
        open_application_message(backend, ciphersuite.aead_algorithm(), message, sender_data, &material, self.serialized_context.as_slice())
    }
}

/// A reuse guard drawn at random, where the provider gives randomness.
/// Nothing is known of the guard.
pub fn draw_reuse_guard(backend: &OpenMlsRustCrypto) -> (r: Option<u32>) {
    let bytes = match provider_random_vec(backend, 4) {
        Some(bytes) => bytes,
        None => {
            return None;
        },
    };
    match read_u32(bytes.as_slice(), 0) {
        Ok((reuse_guard, _)) => Some(reuse_guard),
        Err(_) => None,
    }
}

/// The encoding of an encrypted message.
pub open spec fn private_message_encoding(message: PrivateMessageView) -> Seq<u8> {
    vector_encoding(message.group_id) + u64_encoding(message.epoch) + u8_encoding(message.content_type.spec_value()) + vector_encoding(message.authenticated_data)
        + vector_encoding(message.encrypted_sender_data) + vector_encoding(message.ciphertext)
}

/// Whether an encrypted message can be encoded: no vector in it is too
/// long.
pub open spec fn private_message_encodable(message: PrivateMessageView) -> bool {
    &&& message.group_id.len() <= MAX_VECTOR_LENGTH
    &&& message.authenticated_data.len() <= MAX_VECTOR_LENGTH
    &&& message.encrypted_sender_data.len() <= MAX_VECTOR_LENGTH
    &&& message.ciphertext.len() <= MAX_VECTOR_LENGTH
}

/// The content type at the start of `bytes`, and the bytes behind it.
pub open spec fn spec_read_content_type(bytes: Seq<u8>) -> Result<(ContentType, Seq<u8>), ReadError> {
    match spec_read_u8(bytes) {
        Err(e) => Err(e),
        Ok((value, rest)) => if value == 1 {
            Ok((ContentType::Application, rest))
        } else if value == 2 {
            Ok((ContentType::Proposal, rest))
        } else if value == 3 {
            Ok((ContentType::Commit, rest))
        } else {
            Err(ReadError::UnknownValue)
        },
    }
}

/// The encrypted message at the start of `bytes`, and the bytes behind it.
pub open spec fn spec_read_private_message(bytes: Seq<u8>) -> Result<(PrivateMessageView, Seq<u8>), ReadError> {
    match spec_read_vector(bytes) {
        Err(e) => Err(e),
        Ok((group_id, rest)) => match spec_read_u64(rest) {
            Err(e) => Err(e),
            Ok((epoch, rest)) => match spec_read_content_type(rest) {
                Err(e) => Err(e),
                Ok((content_type, rest)) => match spec_read_vector(rest) {
                    Err(e) => Err(e),
                    Ok((authenticated_data, rest)) => match spec_read_vector(rest) {
                        Err(e) => Err(e),
                        Ok((encrypted_sender_data, rest)) => match spec_read_vector(rest) {
                            Err(e) => Err(e),
                            Ok((ciphertext, rest)) => Ok(
                                (PrivateMessageView { group_id, epoch, content_type, authenticated_data, encrypted_sender_data, ciphertext }, rest),
                            ),
                        },
                    },
                },
            },
        },
    }
}

/// Reading gives back an encrypted message that was encoded, and leaves
/// what stands behind it.
pub proof fn lemma_read_private_message_of_encoding(message: PrivateMessageView, rest: Seq<u8>)
    requires
        private_message_encodable(message),
    ensures
        spec_read_private_message(private_message_encoding(message) + rest) == Ok::<(PrivateMessageView, Seq<u8>), ReadError>((message, rest)),
{
    let r5 = vector_encoding(message.ciphertext) + rest;
    let r4 = vector_encoding(message.encrypted_sender_data) + r5;
    let r3 = vector_encoding(message.authenticated_data) + r4;
    let r2 = u8_encoding(message.content_type.spec_value()) + r3;
    let r1 = u64_encoding(message.epoch) + r2;
    assert(private_message_encoding(message) + rest == vector_encoding(message.group_id) + r1);
    lemma_read_vector_of_encoding(message.group_id, r1);
    lemma_read_u64_of_encoding(message.epoch, r2);
    lemma_read_u8_of_encoding(message.content_type.spec_value(), r3);
    lemma_read_vector_of_encoding(message.authenticated_data, r4);
    lemma_read_vector_of_encoding(message.encrypted_sender_data, r5);
    lemma_read_vector_of_encoding(message.ciphertext, rest);
}

/// Reads a content type.
pub fn read_content_type(bytes: &[u8], at: usize) -> (r: Result<(ContentType, usize), ReadError>)
    requires
        at <= bytes@.len(),
    ensures
        is_read(r, bytes@, at, spec_read_content_type(bytes@.skip(at as int))),
{
    let (value, at) = match read_u8(bytes, at) {
        Ok(read) => read,
        Err(e) => {
            return Err(e);
        },
    };
    match ContentType::from_value(value) {
        Some(content_type) => Ok((content_type, at)),
        None => Err(ReadError::UnknownValue),
    }
}

impl PrivateMessage {
    /// The encoding of the message. Fails where a vector in it is too long.
    pub fn encode(&self) -> (r: Result<Vec<u8>, CodecError>)
        ensures
            r is Ok == private_message_encodable(self@),
            r matches Ok(out) ==> out@ == private_message_encoding(self@),
            r matches Err(e) ==> e == CodecError::InvalidVectorLength,
    {
        let mut out: Vec<u8> = Vec::new();
        match append_vector(&mut out, self.group_id.as_slice()) {
            Ok(()) => {},
            Err(e) => {
                return Err(e);
            },
        }
        append_u64(&mut out, self.epoch.0);
        append_u8(&mut out, self.content_type.value());
        match append_vector(&mut out, self.authenticated_data.as_slice()) {
            Ok(()) => {},
            Err(e) => {
                return Err(e);
            },
        }
        match append_vector(&mut out, self.encrypted_sender_data.as_slice()) {
            Ok(()) => {},
            Err(e) => {
                return Err(e);
            },
        }
        match append_vector(&mut out, self.ciphertext.as_slice()) {
            Ok(()) => {},
            Err(e) => {
                return Err(e);
            },
        }
        assert(out@ == private_message_encoding(self@));
        Ok(out)
    }
}

impl PrivateMessageIn {
    /// Reads an encrypted message: gives the message and the place behind
    /// it.
    pub fn read(bytes: &[u8], at: usize) -> (r: Result<(PrivateMessageIn, usize), ReadError>)
        requires
            at <= bytes@.len(),
        ensures
            r is Ok == spec_read_private_message(bytes@.skip(at as int)) is Ok,
            r matches Ok(read) ==> at <= read.1 <= bytes@.len() && spec_read_private_message(bytes@.skip(at as int)) == Ok::<(PrivateMessageView, Seq<u8>), ReadError>(
                (read.0@, bytes@.skip(read.1 as int)),
            ),
            r matches Err(e) ==> spec_read_private_message(bytes@.skip(at as int)) == Err::<(PrivateMessageView, Seq<u8>), ReadError>(e),
    {
        let (group_id, at) = match read_vector(bytes, at) {
            Ok(read) => read,
            Err(e) => {
                return Err(e);
            },
        };
        let (epoch, at) = match read_u64(bytes, at) {
            Ok(read) => read,
            Err(e) => {
                return Err(e);
            },
        };
        let (content_type, at) = match read_content_type(bytes, at) {
            Ok(read) => read,
            Err(e) => {
                return Err(e);
            },
        };
        let (authenticated_data, at) = match read_vector(bytes, at) {
            Ok(read) => read,
            Err(e) => {
                return Err(e);
            },
        };
        let (encrypted_sender_data, at) = match read_vector(bytes, at) {
            Ok(read) => read,
            Err(e) => {
                return Err(e);
            },
        };
        let (ciphertext, at) = match read_vector(bytes, at) {
            Ok(read) => read,
            Err(e) => {
                return Err(e);
            },
        };
        Ok((PrivateMessageIn { group_id: GroupId { value: group_id }, epoch: GroupEpoch(epoch), content_type, authenticated_data, encrypted_sender_data, ciphertext }, at))
    }

    /// The encrypted message that bytes encode: nothing may follow it.
    pub fn decode(bytes: &[u8]) -> (r: Result<PrivateMessageIn, ReadError>)
        ensures
            r is Ok == (spec_read_private_message(bytes@) is Ok && spec_read_private_message(bytes@).unwrap().1.len() == 0),
            r matches Ok(message) ==> message@ == spec_read_private_message(bytes@).unwrap().0,
            r matches Err(e) ==> e == (match spec_read_private_message(bytes@) {
                Err(e) => e,
                Ok(_) => ReadError::TrailingData,
            }),
    {
        assert(bytes@.skip(0) == bytes@);
        let (message, at) = match PrivateMessageIn::read(bytes, 0) {
            Ok(read) => read,
            Err(e) => {
                return Err(e);
            },
        };
        match expect_end(bytes, at) {
            Ok(()) => Ok(message),
            Err(e) => Err(e),
        }
    }
}

} // verus!
