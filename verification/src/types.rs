//! Algorithm identifiers and the parameters that follow from them.

use vstd::prelude::*;

verus! {

/// Hash algorithms used by the ciphersuites.
#[allow(non_camel_case_types)]
#[derive(Clone, Copy, Debug, PartialEq, Eq, Structural)]
pub enum HashType {
    Sha2_256,
    Sha2_384,
    Sha2_512,
}

impl HashType {
    /// Output size of the hash function in bytes.
    pub open spec fn spec_size(self) -> nat {
        match self {
            HashType::Sha2_256 => 32,
            HashType::Sha2_384 => 48,
            HashType::Sha2_512 => 64,
        }
    }

    /// Output size of the hash function in bytes.
    pub fn size(&self) -> (n: usize)
        ensures
            n == self.spec_size(),
    {
        match self {
            HashType::Sha2_256 => 32,
            HashType::Sha2_384 => 48,
            HashType::Sha2_512 => 64,
        }
    }
}

/// AEAD algorithms used by the ciphersuites.
#[derive(Clone, Copy, Debug, PartialEq, Eq, Structural)]
pub enum AeadType {
    Aes128Gcm,
    Aes256Gcm,
    ChaCha20Poly1305,
}

impl AeadType {
    /// Key size in bytes.
    pub open spec fn spec_key_size(self) -> nat {
        match self {
            AeadType::Aes128Gcm => 16,
            AeadType::Aes256Gcm => 32,
            AeadType::ChaCha20Poly1305 => 32,
        }
    }

    /// Nonce size in bytes.
    pub open spec fn spec_nonce_size(self) -> nat {
        12
    }

    /// Key size in bytes.
    pub fn key_size(&self) -> (n: usize)
        ensures
            n == self.spec_key_size(),
    {
        match self {
            AeadType::Aes128Gcm => 16,
            AeadType::Aes256Gcm => 32,
            AeadType::ChaCha20Poly1305 => 32,
        }
    }

    /// Nonce size in bytes.
    pub fn nonce_size(&self) -> (n: usize)
        ensures
            n == self.spec_nonce_size(),
    {
        12
    }
}

/// Signature schemes, named as in the IANA TLS parameters.
#[allow(non_camel_case_types)]
#[derive(Clone, Copy, Debug, PartialEq, Eq, Structural)]
pub enum SignatureScheme {
    ECDSA_SECP256R1_SHA256,
    ECDSA_SECP384R1_SHA384,
    ECDSA_SECP521R1_SHA512,
    ED25519,
    ED448,
}

/// Key encapsulation mechanisms of HPKE.
#[derive(Clone, Copy, Debug, PartialEq, Eq, Structural)]
pub enum HpkeKemType {
    DhKemP256,
    DhKemP384,
    DhKemP521,
    DhKem25519,
    DhKem448,
}

/// Key derivation functions of HPKE.
#[derive(Clone, Copy, Debug, PartialEq, Eq, Structural)]
pub enum HpkeKdfType {
    HkdfSha256,
    HkdfSha384,
    HkdfSha512,
}

/// AEAD algorithms of HPKE.
#[derive(Clone, Copy, Debug, PartialEq, Eq, Structural)]
pub enum HpkeAeadType {
    AesGcm128,
    AesGcm256,
    ChaCha20Poly1305,
}

/// The three algorithms that make up an HPKE configuration.
#[derive(Clone, Copy, Debug, PartialEq, Eq, Structural)]
pub struct HpkeConfig {
    pub kem: HpkeKemType,
    pub kdf: HpkeKdfType,
    pub aead: HpkeAeadType,
}

/// The MLS ciphersuites.
#[allow(non_camel_case_types)]
#[derive(Clone, Copy, Debug, PartialEq, Eq, Structural)]
pub enum Ciphersuite {
    /// DH KEM x25519 | AES-GCM 128 | SHA2-256 | Ed25519
    MLS_128_DHKEMX25519_AES128GCM_SHA256_Ed25519,
    /// DH KEM P256 | AES-GCM 128 | SHA2-256 | EcDSA P256
    MLS_128_DHKEMP256_AES128GCM_SHA256_P256,
    /// DH KEM x25519 | Chacha20Poly1305 | SHA2-256 | Ed25519
    MLS_128_DHKEMX25519_CHACHA20POLY1305_SHA256_Ed25519,
    /// DH KEM x448 | AES-GCM 256 | SHA2-512 | Ed448
    MLS_256_DHKEMX448_AES256GCM_SHA512_Ed448,
    /// DH KEM P521 | AES-GCM 256 | SHA2-512 | EcDSA P521
    MLS_256_DHKEMP521_AES256GCM_SHA512_P521,
    /// DH KEM x448 | Chacha20Poly1305 | SHA2-512 | Ed448
    MLS_256_DHKEMX448_CHACHA20POLY1305_SHA512_Ed448,
    /// DH KEM P384 | AES-GCM 256 | SHA2-384 | EcDSA P384
    MLS_256_DHKEMP384_AES256GCM_SHA384_P384,
}

impl Ciphersuite {
    /// The value that stands for the ciphersuite on the wire.
    pub open spec fn spec_value(self) -> u16 {
        match self {
            Ciphersuite::MLS_128_DHKEMX25519_AES128GCM_SHA256_Ed25519 => 1,
            Ciphersuite::MLS_128_DHKEMP256_AES128GCM_SHA256_P256 => 2,
            Ciphersuite::MLS_128_DHKEMX25519_CHACHA20POLY1305_SHA256_Ed25519 => 3,
            Ciphersuite::MLS_256_DHKEMX448_AES256GCM_SHA512_Ed448 => 4,
            Ciphersuite::MLS_256_DHKEMP521_AES256GCM_SHA512_P521 => 5,
            Ciphersuite::MLS_256_DHKEMX448_CHACHA20POLY1305_SHA512_Ed448 => 6,
            Ciphersuite::MLS_256_DHKEMP384_AES256GCM_SHA384_P384 => 7,
        }
    }

    /// The hash algorithm of the ciphersuite.
    pub open spec fn spec_hash_algorithm(self) -> HashType {
        match self {
            Ciphersuite::MLS_128_DHKEMX25519_AES128GCM_SHA256_Ed25519
            | Ciphersuite::MLS_128_DHKEMP256_AES128GCM_SHA256_P256
            | Ciphersuite::MLS_128_DHKEMX25519_CHACHA20POLY1305_SHA256_Ed25519 => HashType::Sha2_256,
            Ciphersuite::MLS_256_DHKEMP384_AES256GCM_SHA384_P384 => HashType::Sha2_384,
            Ciphersuite::MLS_256_DHKEMX448_AES256GCM_SHA512_Ed448
            | Ciphersuite::MLS_256_DHKEMP521_AES256GCM_SHA512_P521
            | Ciphersuite::MLS_256_DHKEMX448_CHACHA20POLY1305_SHA512_Ed448 => HashType::Sha2_512,
        }
    }

    /// The AEAD algorithm of the ciphersuite.
    pub open spec fn spec_aead_algorithm(self) -> AeadType {
        match self {
            Ciphersuite::MLS_128_DHKEMX25519_AES128GCM_SHA256_Ed25519
            | Ciphersuite::MLS_128_DHKEMP256_AES128GCM_SHA256_P256 => AeadType::Aes128Gcm,
            Ciphersuite::MLS_128_DHKEMX25519_CHACHA20POLY1305_SHA256_Ed25519
            | Ciphersuite::MLS_256_DHKEMX448_CHACHA20POLY1305_SHA512_Ed448 => AeadType::ChaCha20Poly1305,
            Ciphersuite::MLS_256_DHKEMX448_AES256GCM_SHA512_Ed448
            | Ciphersuite::MLS_256_DHKEMP521_AES256GCM_SHA512_P521
            | Ciphersuite::MLS_256_DHKEMP384_AES256GCM_SHA384_P384 => AeadType::Aes256Gcm,
        }
    }

    /// The signature scheme of the ciphersuite.
    pub open spec fn spec_signature_algorithm(self) -> SignatureScheme {
        match self {
            Ciphersuite::MLS_128_DHKEMX25519_AES128GCM_SHA256_Ed25519
            | Ciphersuite::MLS_128_DHKEMX25519_CHACHA20POLY1305_SHA256_Ed25519 => SignatureScheme::ED25519,
            Ciphersuite::MLS_128_DHKEMP256_AES128GCM_SHA256_P256 => SignatureScheme::ECDSA_SECP256R1_SHA256,
            Ciphersuite::MLS_256_DHKEMP521_AES256GCM_SHA512_P521 => SignatureScheme::ECDSA_SECP521R1_SHA512,
            Ciphersuite::MLS_256_DHKEMX448_AES256GCM_SHA512_Ed448
            | Ciphersuite::MLS_256_DHKEMX448_CHACHA20POLY1305_SHA512_Ed448 => SignatureScheme::ED448,
            Ciphersuite::MLS_256_DHKEMP384_AES256GCM_SHA384_P384 => SignatureScheme::ECDSA_SECP384R1_SHA384,
        }
    }

    /// The HPKE configuration of the ciphersuite.
    pub open spec fn spec_hpke_config(self) -> HpkeConfig {
        match self {
            Ciphersuite::MLS_128_DHKEMX25519_AES128GCM_SHA256_Ed25519 => HpkeConfig {
                kem: HpkeKemType::DhKem25519,
                kdf: HpkeKdfType::HkdfSha256,
                aead: HpkeAeadType::AesGcm128,
            },
            Ciphersuite::MLS_128_DHKEMP256_AES128GCM_SHA256_P256 => HpkeConfig {
                kem: HpkeKemType::DhKemP256,
                kdf: HpkeKdfType::HkdfSha256,
                aead: HpkeAeadType::AesGcm128,
            },
            Ciphersuite::MLS_128_DHKEMX25519_CHACHA20POLY1305_SHA256_Ed25519 => HpkeConfig {
                kem: HpkeKemType::DhKem25519,
                kdf: HpkeKdfType::HkdfSha256,
                aead: HpkeAeadType::ChaCha20Poly1305,
            },
            Ciphersuite::MLS_256_DHKEMX448_AES256GCM_SHA512_Ed448 => HpkeConfig {
                kem: HpkeKemType::DhKem448,
                kdf: HpkeKdfType::HkdfSha512,
                aead: HpkeAeadType::AesGcm256,
            },
            Ciphersuite::MLS_256_DHKEMP521_AES256GCM_SHA512_P521 => HpkeConfig {
                kem: HpkeKemType::DhKemP521,
                kdf: HpkeKdfType::HkdfSha512,
                aead: HpkeAeadType::AesGcm256,
            },
            Ciphersuite::MLS_256_DHKEMX448_CHACHA20POLY1305_SHA512_Ed448 => HpkeConfig {
                kem: HpkeKemType::DhKem448,
                kdf: HpkeKdfType::HkdfSha512,
                aead: HpkeAeadType::ChaCha20Poly1305,
            },
            Ciphersuite::MLS_256_DHKEMP384_AES256GCM_SHA384_P384 => HpkeConfig {
                kem: HpkeKemType::DhKemP384,
                kdf: HpkeKdfType::HkdfSha384,
                aead: HpkeAeadType::AesGcm256,
            },
        }
    }

    /// Whether the provider implements the ciphersuite: its key
    /// encapsulation is over x25519 or P-256.
    pub open spec fn spec_is_supported(self) -> bool {
        self.spec_hpke_config().kem == HpkeKemType::DhKem25519 || self.spec_hpke_config().kem
            == HpkeKemType::DhKemP256
    }

    /// Length in bytes of the hash of the ciphersuite.
    pub open spec fn spec_hash_length(self) -> nat {
        self.spec_hash_algorithm().spec_size()
    }

    /// The value that stands for the ciphersuite on the wire.
    pub fn value(&self) -> (v: u16)
        ensures
            v == self.spec_value(),
    {
        match self {
            Ciphersuite::MLS_128_DHKEMX25519_AES128GCM_SHA256_Ed25519 => 1,
            Ciphersuite::MLS_128_DHKEMP256_AES128GCM_SHA256_P256 => 2,
            Ciphersuite::MLS_128_DHKEMX25519_CHACHA20POLY1305_SHA256_Ed25519 => 3,
            Ciphersuite::MLS_256_DHKEMX448_AES256GCM_SHA512_Ed448 => 4,
            Ciphersuite::MLS_256_DHKEMP521_AES256GCM_SHA512_P521 => 5,
            Ciphersuite::MLS_256_DHKEMX448_CHACHA20POLY1305_SHA512_Ed448 => 6,
            Ciphersuite::MLS_256_DHKEMP384_AES256GCM_SHA384_P384 => 7,
        }
    }

    /// The ciphersuite that a wire value stands for, if any.
    pub fn from_value(v: u16) -> (r: Option<Ciphersuite>)
        ensures
            r matches Some(c) ==> c.spec_value() == v,
            r is None <==> !(1 <= v <= 7),
    {
        match v {
            1 => Some(Ciphersuite::MLS_128_DHKEMX25519_AES128GCM_SHA256_Ed25519),
            2 => Some(Ciphersuite::MLS_128_DHKEMP256_AES128GCM_SHA256_P256),
            3 => Some(Ciphersuite::MLS_128_DHKEMX25519_CHACHA20POLY1305_SHA256_Ed25519),
            4 => Some(Ciphersuite::MLS_256_DHKEMX448_AES256GCM_SHA512_Ed448),
            5 => Some(Ciphersuite::MLS_256_DHKEMP521_AES256GCM_SHA512_P521),
            6 => Some(Ciphersuite::MLS_256_DHKEMX448_CHACHA20POLY1305_SHA512_Ed448),
            7 => Some(Ciphersuite::MLS_256_DHKEMP384_AES256GCM_SHA384_P384),
            _ => None,
        }
    }

    /// The hash algorithm of the ciphersuite.
    pub fn hash_algorithm(&self) -> (h: HashType)
        ensures
            h == self.spec_hash_algorithm(),
    {
        match self {
            Ciphersuite::MLS_128_DHKEMX25519_AES128GCM_SHA256_Ed25519
            | Ciphersuite::MLS_128_DHKEMP256_AES128GCM_SHA256_P256
            | Ciphersuite::MLS_128_DHKEMX25519_CHACHA20POLY1305_SHA256_Ed25519 => HashType::Sha2_256,
            Ciphersuite::MLS_256_DHKEMP384_AES256GCM_SHA384_P384 => HashType::Sha2_384,
            Ciphersuite::MLS_256_DHKEMX448_AES256GCM_SHA512_Ed448
            | Ciphersuite::MLS_256_DHKEMP521_AES256GCM_SHA512_P521
            | Ciphersuite::MLS_256_DHKEMX448_CHACHA20POLY1305_SHA512_Ed448 => HashType::Sha2_512,
        }
    }

    /// The AEAD algorithm of the ciphersuite.
    pub fn aead_algorithm(&self) -> (a: AeadType)
        ensures
            a == self.spec_aead_algorithm(),
    {
        match self {
            Ciphersuite::MLS_128_DHKEMX25519_AES128GCM_SHA256_Ed25519
            | Ciphersuite::MLS_128_DHKEMP256_AES128GCM_SHA256_P256 => AeadType::Aes128Gcm,
            Ciphersuite::MLS_128_DHKEMX25519_CHACHA20POLY1305_SHA256_Ed25519
            | Ciphersuite::MLS_256_DHKEMX448_CHACHA20POLY1305_SHA512_Ed448 => AeadType::ChaCha20Poly1305,
            Ciphersuite::MLS_256_DHKEMX448_AES256GCM_SHA512_Ed448
            | Ciphersuite::MLS_256_DHKEMP521_AES256GCM_SHA512_P521
            | Ciphersuite::MLS_256_DHKEMP384_AES256GCM_SHA384_P384 => AeadType::Aes256Gcm,
        }
    }

    /// The signature scheme of the ciphersuite.
    pub fn signature_algorithm(&self) -> (s: SignatureScheme)
        ensures
            s == self.spec_signature_algorithm(),
    {
        match self {
            Ciphersuite::MLS_128_DHKEMX25519_AES128GCM_SHA256_Ed25519
            | Ciphersuite::MLS_128_DHKEMX25519_CHACHA20POLY1305_SHA256_Ed25519 => SignatureScheme::ED25519,
            Ciphersuite::MLS_128_DHKEMP256_AES128GCM_SHA256_P256 => SignatureScheme::ECDSA_SECP256R1_SHA256,
            Ciphersuite::MLS_256_DHKEMP521_AES256GCM_SHA512_P521 => SignatureScheme::ECDSA_SECP521R1_SHA512,
            Ciphersuite::MLS_256_DHKEMX448_AES256GCM_SHA512_Ed448
            | Ciphersuite::MLS_256_DHKEMX448_CHACHA20POLY1305_SHA512_Ed448 => SignatureScheme::ED448,
            Ciphersuite::MLS_256_DHKEMP384_AES256GCM_SHA384_P384 => SignatureScheme::ECDSA_SECP384R1_SHA384,
        }
    }

    /// The HPKE configuration of the ciphersuite.
    pub fn hpke_config(&self) -> (c: HpkeConfig)
        ensures
            c == self.spec_hpke_config(),
    {
        match self {
            Ciphersuite::MLS_128_DHKEMX25519_AES128GCM_SHA256_Ed25519 => HpkeConfig {
                kem: HpkeKemType::DhKem25519,
                kdf: HpkeKdfType::HkdfSha256,
                aead: HpkeAeadType::AesGcm128,
            },
            Ciphersuite::MLS_128_DHKEMP256_AES128GCM_SHA256_P256 => HpkeConfig {
                kem: HpkeKemType::DhKemP256,
                kdf: HpkeKdfType::HkdfSha256,
                aead: HpkeAeadType::AesGcm128,
            },
            Ciphersuite::MLS_128_DHKEMX25519_CHACHA20POLY1305_SHA256_Ed25519 => HpkeConfig {
                kem: HpkeKemType::DhKem25519,
                kdf: HpkeKdfType::HkdfSha256,
                aead: HpkeAeadType::ChaCha20Poly1305,
            },
            Ciphersuite::MLS_256_DHKEMX448_AES256GCM_SHA512_Ed448 => HpkeConfig {
                kem: HpkeKemType::DhKem448,
                kdf: HpkeKdfType::HkdfSha512,
                aead: HpkeAeadType::AesGcm256,
            },
            Ciphersuite::MLS_256_DHKEMP521_AES256GCM_SHA512_P521 => HpkeConfig {
                kem: HpkeKemType::DhKemP521,
                kdf: HpkeKdfType::HkdfSha512,
                aead: HpkeAeadType::AesGcm256,
            },
            Ciphersuite::MLS_256_DHKEMX448_CHACHA20POLY1305_SHA512_Ed448 => HpkeConfig {
                kem: HpkeKemType::DhKem448,
                kdf: HpkeKdfType::HkdfSha512,
                aead: HpkeAeadType::ChaCha20Poly1305,
            },
            Ciphersuite::MLS_256_DHKEMP384_AES256GCM_SHA384_P384 => HpkeConfig {
                kem: HpkeKemType::DhKemP384,
                kdf: HpkeKdfType::HkdfSha384,
                aead: HpkeAeadType::AesGcm256,
            },
        }
    }

    /// Whether the provider implements the ciphersuite.
    pub fn is_supported(&self) -> (b: bool)
        ensures
            b == self.spec_is_supported(),
    {
        match self.hpke_config().kem {
            HpkeKemType::DhKem25519 | HpkeKemType::DhKemP256 => true,
            _ => false,
        }
    }

    /// Length in bytes of the hash of the ciphersuite.
    pub fn hash_length(&self) -> (n: usize)
        ensures
            n == self.spec_hash_length(),
    {
        self.hash_algorithm().size()
    }

    /// Length in bytes of an AEAD key of the ciphersuite.
    pub fn aead_key_length(&self) -> (n: usize)
        ensures
            n == self.spec_aead_algorithm().spec_key_size(),
    {
        self.aead_algorithm().key_size()
    }

    /// Length in bytes of an AEAD nonce of the ciphersuite.
    pub fn aead_nonce_length(&self) -> (n: usize)
        ensures
            n == self.spec_aead_algorithm().spec_nonce_size(),
    {
        self.aead_algorithm().nonce_size()
    }

    /// Whether secrets, keys and nonces are as long under this ciphersuite
    /// as under another: what is derived with the lengths of the one is
    /// what is derived with the lengths of the other.
    pub open spec fn spec_same_lengths(self, other: Ciphersuite) -> bool {
        &&& self.spec_hash_length() == other.spec_hash_length()
        &&& self.spec_aead_algorithm().spec_key_size() == other.spec_aead_algorithm().spec_key_size()
        &&& self.spec_aead_algorithm().spec_nonce_size() == other.spec_aead_algorithm().spec_nonce_size()
    }

    /// Whether secrets, keys and nonces are as long under this ciphersuite
    /// as under another.
    pub fn same_lengths(&self, other: Ciphersuite) -> (b: bool)
        ensures
            b == self.spec_same_lengths(other),
    {
        self.hash_length() == other.hash_length() && self.aead_key_length() == other.aead_key_length() && self.aead_nonce_length() == other.aead_nonce_length()
    }
}

/// A ciphersuite by its wire value, whether or not it is one of the known.
#[derive(Clone, Copy, Debug, PartialEq, Eq, Structural)]
pub struct VerifiableCiphersuite(pub u16);

impl VerifiableCiphersuite {
    /// The ciphersuite with the wire value given.
    pub fn new(value: u16) -> (c: Self)
        ensures
            c.0 == value,
    {
        VerifiableCiphersuite(value)
    }

    /// The known ciphersuite, by its wire value.
    pub fn from_ciphersuite(ciphersuite: Ciphersuite) -> (c: Self)
        ensures
            c.0 == ciphersuite.spec_value(),
    {
        VerifiableCiphersuite(ciphersuite.value())
    }
}

/// Versions of the protocol.
#[derive(Clone, Copy, Debug, PartialEq, Eq, Structural)]
pub enum ProtocolVersion {
    /// The version of the protocol's RFC.
    Mls10,
    /// Draft 11 of the protocol.
    Mls10Draft11,
}

impl ProtocolVersion {
    /// The value that stands for the version on the wire.
    pub open spec fn spec_value(self) -> u16 {
        match self {
            ProtocolVersion::Mls10 => 1,
            ProtocolVersion::Mls10Draft11 => 200,
        }
    }

    /// The value that stands for the version on the wire.
    pub fn value(&self) -> (v: u16)
        ensures
            v == self.spec_value(),
    {
        match self {
            ProtocolVersion::Mls10 => 1,
            ProtocolVersion::Mls10Draft11 => 200,
        }
    }
}

impl Default for ProtocolVersion {
    fn default() -> (v: Self)
        ensures
            v == ProtocolVersion::Mls10,
    {
        ProtocolVersion::Mls10
    }
}

/// A ciphersuite together with a protocol version.
#[derive(Clone, Copy, Debug, PartialEq, Eq, Structural)]
pub struct CryptoConfig {
    /// The ciphersuite in use.
    pub ciphersuite: Ciphersuite,
    /// The protocol version in use.
    pub version: ProtocolVersion,
}

impl CryptoConfig {
    /// The configuration of a ciphersuite with the default protocol version.
    pub fn with_default_version(ciphersuite: Ciphersuite) -> (c: Self)
        ensures
            c.ciphersuite == ciphersuite,
            c.version == ProtocolVersion::Mls10,
    {
        CryptoConfig { ciphersuite, version: ProtocolVersion::Mls10 }
    }
}

/// Failures of cryptographic operations.
#[derive(Clone, Copy, Debug, PartialEq, Eq, Structural)]
pub enum CryptoError {
    CryptoLibraryError,
    AeadDecryptionError,
    HpkeDecryptionError,
    UnsupportedSignatureScheme,
    KdfLabelTooLarge,
    KdfSerializationError,
    HkdfOutputLengthInvalid,
    InsufficientRandomness,
    InvalidSignature,
    UnsupportedAeadAlgorithm,
    UnsupportedKdf,
    InvalidLength,
    UnsupportedHashAlgorithm,
    SignatureEncodingError,
    SignatureDecodingError,
    SenderSetupError,
    ReceiverSetupError,
    ExporterError,
    UnsupportedCiphersuite,
    TlsSerializationError,
}

/// An error that shows a defect in the library itself, with the reason.
#[derive(Clone, Copy, Debug, PartialEq, Eq, Structural)]
pub enum LibraryError {
    /// A cryptographic operation failed where it cannot fail.
    UnexpectedCryptoError(CryptoError),
    /// A length went over a bound that an earlier check should have held.
    MissingBoundsCheck,
    /// Another condition that the library relies on was broken.
    Custom,
}

} // verus!
