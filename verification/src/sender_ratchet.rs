//! Sender ratchets: the chain of secrets of one member and one kind of
//! message, from which the key and nonce of each generation are derived.
//!
//! A member advances its own chain when it encrypts. For the chains of the
//! others it keeps the key material of a few generations behind the head, so
//! that messages which arrive out of order can still be decrypted, each once.

use vstd::prelude::*;
use vstd::string::StringSliceAdditionalSpecFns;
use std::collections::VecDeque;
use openmls_rust_crypto::OpenMlsRustCrypto;
use crate::bytes::copy_bytes;
use crate::codec::u32_encoding;
use crate::secret::can_derive;
use crate::secret::derived_secret;
use crate::secret::lemma_derivation_fails;
use crate::secret::lemma_derivation_succeeds;
use crate::secret::Secret;
use crate::secret::SecretView;
use crate::secret_tree::derive_tree_secret;
use crate::secret_tree::SecretTreeError;
use crate::types::Ciphersuite;
use crate::types::CryptoError;

verus! {

/// The number of a link in a chain of secrets.
pub type Generation = u32;

/// How far from the head of a chain a message may be and still be decrypted.
#[derive(Clone, Copy, Debug, PartialEq, Eq, Structural)]
pub struct SenderRatchetConfiguration {
    /// How many generations behind the head are kept.
    pub out_of_order_tolerance: Generation,
    /// How many generations ahead of the head a chain is advanced at once.
    pub maximum_forward_distance: Generation,
}

impl SenderRatchetConfiguration {
    /// A configuration with the two distances given.
    pub fn new(out_of_order_tolerance: Generation, maximum_forward_distance: Generation) -> (c: Self)
        ensures
            c.out_of_order_tolerance == out_of_order_tolerance,
            c.maximum_forward_distance == maximum_forward_distance,
    {
        SenderRatchetConfiguration { out_of_order_tolerance, maximum_forward_distance }
    }

    /// How many generations behind the head are kept.
    pub fn out_of_order_tolerance(&self) -> (g: Generation)
        ensures
            g == self.out_of_order_tolerance,
    {
        self.out_of_order_tolerance
    }

    /// How many generations ahead of the head a chain is advanced at once.
    pub fn maximum_forward_distance(&self) -> (g: Generation)
        ensures
            g == self.maximum_forward_distance,
    {
        self.maximum_forward_distance
    }
}

impl Default for SenderRatchetConfiguration {
    fn default() -> (c: Self)
        ensures
            c.out_of_order_tolerance == 5,
            c.maximum_forward_distance == 1000,
    {
        SenderRatchetConfiguration { out_of_order_tolerance: 5, maximum_forward_distance: 1000 }
    }
}

/// What the key material of a generation is: a key and a nonce.
pub struct KeyMaterialView {
    pub key: Seq<u8>,
    pub nonce: Seq<u8>,
}

/// The key and the nonce of one generation.
#[derive(Debug)]
pub struct RatchetKeyMaterial {
    key: Vec<u8>,
    nonce: Vec<u8>,
}

impl View for RatchetKeyMaterial {
    type V = KeyMaterialView;

    closed spec fn view(&self) -> KeyMaterialView {
        KeyMaterialView { key: self.key@, nonce: self.nonce@ }
    }
}

impl RatchetKeyMaterial {
    /// The key.
    pub fn key(&self) -> (k: &[u8])
        ensures
            k@ == self@.key,
    {
        self.key.as_slice()
    }

    /// The nonce.
    pub fn nonce(&self) -> (n: &[u8])
        ensures
            n@ == self@.nonce,
    {
        self.nonce.as_slice()
    }
}

/// The secret that follows `secret` of generation `generation` in a chain.
pub open spec fn next_ratchet_secret(secret: SecretView, generation: nat) -> SecretView {
    derived_secret(secret, "secret".spec_bytes(), u32_encoding(generation as u32), secret.ciphersuite.spec_hash_length())
}

/// The secret of a generation in the chain that starts with `base`.
pub open spec fn ratchet_secret_at(base: SecretView, generation: nat) -> SecretView
    decreases generation,
{
    if generation == 0 {
        base
    } else {
        next_ratchet_secret(ratchet_secret_at(base, (generation - 1) as nat), (generation - 1) as nat)
    }
}

/// The key material derived from the secret of a generation.
pub open spec fn key_material_of(secret: SecretView, generation: nat) -> KeyMaterialView {
    KeyMaterialView {
        key: derived_secret(secret, "key".spec_bytes(), u32_encoding(generation as u32), secret.ciphersuite.spec_aead_algorithm().spec_key_size()).bytes,
        nonce: derived_secret(secret, "nonce".spec_bytes(), u32_encoding(generation as u32), secret.ciphersuite.spec_aead_algorithm().spec_nonce_size()).bytes,
    }
}

/// The key material of a generation in the chain that starts with `base`.
pub open spec fn key_material_at(base: SecretView, generation: nat) -> KeyMaterialView {
    key_material_of(ratchet_secret_at(base, generation), generation)
}

/// The labels of the derivations are short.
pub proof fn lemma_label_lengths()
    ensures
        "secret".spec_bytes().len() == 6,
        "key".spec_bytes().len() == 3,
        "nonce".spec_bytes().len() == 5,
        "tree".spec_bytes().len() == 4,
        "handshake".spec_bytes().len() == 9,
        "application".spec_bytes().len() == 11,
        "left".spec_bytes().len() == 4,
        "right".spec_bytes().len() == 5,
{
    reveal_strlit("left");
    reveal_strlit("right");
    vstd::string::is_ascii_spec_bytes("left");
    vstd::string::is_ascii_spec_bytes("right");
    reveal_strlit("secret");
    reveal_strlit("key");
    reveal_strlit("nonce");
    reveal_strlit("tree");
    reveal_strlit("handshake");
    reveal_strlit("application");
    vstd::string::is_ascii_spec_bytes("secret");
    vstd::string::is_ascii_spec_bytes("key");
    vstd::string::is_ascii_spec_bytes("nonce");
    vstd::string::is_ascii_spec_bytes("tree");
    vstd::string::is_ascii_spec_bytes("handshake");
    vstd::string::is_ascii_spec_bytes("application");
}

/// What a chain of secrets is: the secret it started with, and the generation
/// of its head.
pub struct RatchetSecretView {
    pub base: SecretView,
    pub generation: nat,
}

/// The head of a chain of secrets.
pub struct RatchetSecret {
    secret: Secret,
    generation: Generation,
    base: Ghost<SecretView>,
}

/// What advancing a chain by one generation gives: the chain after it, and
/// the generation and key material handed out, or the error. A chain whose
/// generation has reached the greatest number is not advanced, nor one whose
/// secret is too short to derive from. What is derived has the lengths of
/// the ciphersuite given, which are to be those of the ciphersuite of the
/// chain: with other lengths nothing is derived.
pub open spec fn spec_ratchet_forward(chain: RatchetSecretView, ciphersuite: Ciphersuite) -> (RatchetSecretView, Result<(Generation, KeyMaterialView), SecretTreeError>) {
    if !ciphersuite.spec_same_lengths(chain.base.ciphersuite) {
        (chain, Err(SecretTreeError::LibraryError))
    } else if chain.generation >= u32::MAX {
        (chain, Err(SecretTreeError::RatchetTooLong))
    } else if !can_derive(chain.base) {
        (chain, Err(SecretTreeError::CryptoError(CryptoError::CryptoLibraryError)))
    } else {
        (
            RatchetSecretView { base: chain.base, generation: chain.generation + 1 },
            Ok((chain.generation as u32, key_material_at(chain.base, chain.generation))),
        )
    }
}

impl View for RatchetSecret {
    type V = RatchetSecretView;

    closed spec fn view(&self) -> RatchetSecretView {
        RatchetSecretView { base: self.base@, generation: self.generation as nat }
    }
}

impl RatchetSecret {
    /// The head holds the secret of its generation.
    pub closed spec fn wf(&self) -> bool {
        &&& self.secret@ == ratchet_secret_at(self.base@, self.generation as nat)
        &&& self.secret@.ciphersuite == self.base@.ciphersuite
        &&& self.generation > 0 ==> can_derive(self.base@) && can_derive(self.secret@)
    }

    /// The chain that starts with `secret`.
    pub fn initial_ratchet_secret(secret: Secret) -> (r: Self)
        ensures
            r.wf(),
            r@ == (RatchetSecretView { base: secret@, generation: 0 }),
    {
        let ghost base = secret@;
        RatchetSecret { secret, generation: 0, base: Ghost(base) }
    }

    /// The generation of the head.
    pub fn generation(&self) -> (g: Generation)
        ensures
            g == self@.generation,
    {
        self.generation
    }

    /// The ciphersuite of the chain.
    pub fn ciphersuite(&self) -> (c: Ciphersuite)
        requires
            self.wf(),
        ensures
            c == self@.base.ciphersuite,
    {
        self.secret.ciphersuite()
    }

    /// Whether the chain started with a secret that is long enough to derive
    /// from.
    pub fn can_derive(&self) -> (b: bool)
        requires
            self.wf(),
        ensures
            b == can_derive(self@.base),
    {
        self.generation > 0 || self.secret.as_slice().len() >= self.secret.ciphersuite().hash_length()
    }

    /// Hands out the key material of the head's generation and advances the
    /// chain by one.
    pub fn ratchet_forward(&mut self, backend: &OpenMlsRustCrypto, ciphersuite: Ciphersuite) -> (r: Result<(Generation, RatchetKeyMaterial), SecretTreeError>)
        requires
            old(self).wf(),
        ensures
            final(self).wf(),
            final(self)@ == spec_ratchet_forward(old(self)@, ciphersuite).0,
            r is Ok == spec_ratchet_forward(old(self)@, ciphersuite).1 is Ok,
            r matches Ok(out) ==> spec_ratchet_forward(old(self)@, ciphersuite).1 == Ok::<(Generation, KeyMaterialView), SecretTreeError>((out.0, out.1@)),
            r matches Err(e) ==> spec_ratchet_forward(old(self)@, ciphersuite).1 == Err::<(Generation, KeyMaterialView), SecretTreeError>(e),
    {
        if !ciphersuite.same_lengths(self.secret.ciphersuite()) {
            return Err(SecretTreeError::LibraryError);
        }
        if self.generation == u32::MAX {
            return Err(SecretTreeError::RatchetTooLong);
        }
        proof {
            lemma_label_lengths();
            let context = u32_encoding(self.generation);
            if can_derive(self.base@) {
                lemma_derivation_succeeds(self.secret@, "nonce".spec_bytes(), context, ciphersuite.spec_aead_algorithm().spec_nonce_size());
                lemma_derivation_succeeds(self.secret@, "key".spec_bytes(), context, ciphersuite.spec_aead_algorithm().spec_key_size());
                lemma_derivation_succeeds(self.secret@, "secret".spec_bytes(), context, ciphersuite.spec_hash_length());
            } else {
                lemma_derivation_fails(self.secret@, "nonce".spec_bytes(), context, ciphersuite.spec_aead_algorithm().spec_nonce_size());
            }
        }
        let nonce = derive_tree_secret(&self.secret, "nonce", self.generation, ciphersuite.aead_nonce_length(), backend)?;
        let key = derive_tree_secret(&self.secret, "key", self.generation, ciphersuite.aead_key_length(), backend)?;
        let next = derive_tree_secret(&self.secret, "secret", self.generation, ciphersuite.hash_length(), backend)?;
        let generation: Generation = self.generation;
        self.secret = next;
        self.generation = generation + 1;
        let material = RatchetKeyMaterial { key: copy_bytes(key.as_slice()), nonce: copy_bytes(nonce.as_slice()) };
        Ok((generation, material))
    }
}

/// What the ratchet of another member is: the chain, and the key material
/// kept of the generations behind its head, the latest first. An entry is
/// empty where the key material was handed out or never kept.
pub struct DecryptionRatchetView {
    pub head: RatchetSecretView,
    pub past: Seq<Option<KeyMaterialView>>,
}

/// The ratchet of another member.
pub struct DecryptionRatchet {
    past_secrets: VecDeque<Option<RatchetKeyMaterial>>,
    ratchet_head: RatchetSecret,
}

/// What an entry of the window of past generations stands for.
pub open spec fn entry_view(entry: Option<RatchetKeyMaterial>) -> Option<KeyMaterialView> {
    match entry {
        Some(material) => Some(material@),
        None => None,
    }
}

/// What a window of past generations stands for.
pub open spec fn window_view(window: Seq<Option<RatchetKeyMaterial>>) -> Seq<Option<KeyMaterialView>> {
    Seq::new(window.len(), |i: int| entry_view(window[i]))
}

/// The window after the chain was advanced from its head to `generation` and
/// the key material of `generation` handed out: an empty entry for
/// `generation`, the key material of the generations passed over, and the
/// window as it was.
pub open spec fn advanced_window(ratchet: DecryptionRatchetView, generation: Generation) -> Seq<Option<KeyMaterialView>> {
    let passed = generation - ratchet.head.generation;
    Seq::new(
        (passed + 1 + ratchet.past.len()) as nat,
        |i: int|
            if i == 0 {
                None
            } else if i <= passed {
                Some(key_material_at(ratchet.head.base, (generation - i) as nat))
            } else {
                ratchet.past[i - passed - 1]
            },
    )
}

/// The first `length` entries of a window, or all where there are fewer.
pub open spec fn truncated_window(window: Seq<Option<KeyMaterialView>>, length: nat) -> Seq<Option<KeyMaterialView>> {
    if length <= window.len() {
        window.subrange(0, length as int)
    } else {
        window
    }
}

/// What asking a ratchet for the key material of `generation` gives: the
/// ratchet after it, and the key material or the error.
///
/// A generation further ahead of the head than the greatest forward distance
/// is refused, and so is one further behind it than the tolerance. For a
/// generation at or ahead of the head the chain is advanced past it, the key
/// material of the generations passed over is kept, and no more of the
/// window than the tolerance. A generation behind the head is served from
/// the window, once.
pub open spec fn spec_secret_for_decryption(
    ratchet: DecryptionRatchetView,
    ciphersuite: Ciphersuite,
    generation: Generation,
    configuration: SenderRatchetConfiguration,
) -> (DecryptionRatchetView, Result<KeyMaterialView, SecretTreeError>) {
    let head = ratchet.head.generation;
    if !ciphersuite.spec_same_lengths(ratchet.head.base.ciphersuite) {
        (ratchet, Err(SecretTreeError::LibraryError))
    } else if generation > head + configuration.maximum_forward_distance {
        (ratchet, Err(SecretTreeError::TooDistantInTheFuture))
    } else if generation + configuration.out_of_order_tolerance < head {
        (ratchet, Err(SecretTreeError::TooDistantInThePast))
    } else if generation >= head {
        if generation >= u32::MAX {
            (ratchet, Err(SecretTreeError::RatchetTooLong))
        } else if !can_derive(ratchet.head.base) {
            (ratchet, Err(SecretTreeError::CryptoError(CryptoError::CryptoLibraryError)))
        } else {
            (
                DecryptionRatchetView {
                    head: RatchetSecretView { base: ratchet.head.base, generation: (generation + 1) as nat },
                    past: truncated_window(advanced_window(ratchet, generation), configuration.out_of_order_tolerance as nat),
                },
                Ok(key_material_at(ratchet.head.base, generation as nat)),
            )
        }
    } else {
        let index = head - generation - 1;
        if index >= ratchet.past.len() {
            (ratchet, Err(SecretTreeError::IndexOutOfBounds))
        } else {
            match ratchet.past[index] {
                None => (ratchet, Err(SecretTreeError::SecretReuseError)),
                Some(material) => (
                    DecryptionRatchetView { head: ratchet.head, past: ratchet.past.update(index, None) },
                    Ok(material),
                ),
            }
        }
    }
}

/// Whether the key material of `generation` can no longer be had from a
/// ratchet: the chain is past it and the window does not hold it.
pub open spec fn is_consumed(ratchet: DecryptionRatchetView, generation: Generation) -> bool {
    &&& generation < ratchet.head.generation
    &&& {
        let index = ratchet.head.generation - generation - 1;
        index >= ratchet.past.len() || ratchet.past[index] is None
    }
}

/// Whether each entry of a window holds the key material of its generation.
pub open spec fn window_is_of_chain(ratchet: DecryptionRatchetView) -> bool {
    &&& ratchet.past.len() <= ratchet.head.generation
    &&& forall|i: int| 0 <= i < ratchet.past.len() ==> (#[trigger] ratchet.past[i] matches Some(material) ==> material == key_material_at(ratchet.head.base, (ratchet.head.generation - 1 - i) as nat))
}

/// Key material that a ratchet has handed out cannot be had from it again.
pub proof fn lemma_decryption_consumes(ratchet: DecryptionRatchetView, ciphersuite: Ciphersuite, generation: Generation, configuration: SenderRatchetConfiguration)
    requires
        spec_secret_for_decryption(ratchet, ciphersuite, generation, configuration).1 is Ok,
    ensures
        is_consumed(spec_secret_for_decryption(ratchet, ciphersuite, generation, configuration).0, generation),
{
}

/// Key material that can no longer be had is refused.
pub proof fn lemma_consumed_is_refused(ratchet: DecryptionRatchetView, ciphersuite: Ciphersuite, generation: Generation, configuration: SenderRatchetConfiguration)
    requires
        is_consumed(ratchet, generation),
    ensures
        spec_secret_for_decryption(ratchet, ciphersuite, generation, configuration).1 is Err,
{
}

/// Key material that can no longer be had from a ratchet cannot be had from
/// it after anything else was asked of it either.
pub proof fn lemma_consumed_stays_consumed(
    ratchet: DecryptionRatchetView,
    generation: Generation,
    ciphersuite: Ciphersuite,
    other: Generation,
    configuration: SenderRatchetConfiguration,
)
    requires
        is_consumed(ratchet, generation),
    ensures
        is_consumed(spec_secret_for_decryption(ratchet, ciphersuite, other, configuration).0, generation),
{
}

/// A second request for the key material of a generation, made right after
/// the first was granted, fails with `SecretReuseError` where the
/// configuration keeps a window at all.
pub proof fn lemma_second_decryption_fails(ratchet: DecryptionRatchetView, ciphersuite: Ciphersuite, generation: Generation, configuration: SenderRatchetConfiguration)
    requires
        spec_secret_for_decryption(ratchet, ciphersuite, generation, configuration).1 is Ok,
        configuration.out_of_order_tolerance >= 1,
    ensures
        spec_secret_for_decryption(spec_secret_for_decryption(ratchet, ciphersuite, generation, configuration).0, ciphersuite, generation, configuration).1
            == Err::<KeyMaterialView, SecretTreeError>(SecretTreeError::SecretReuseError),
{
}

/// Key material that a ratchet hands out is that of the generation asked
/// for in its chain, whatever was asked of the ratchet before.
pub proof fn lemma_decryption_is_of_chain(ratchet: DecryptionRatchetView, ciphersuite: Ciphersuite, generation: Generation, configuration: SenderRatchetConfiguration)
    requires
        window_is_of_chain(ratchet),
    ensures
        window_is_of_chain(spec_secret_for_decryption(ratchet, ciphersuite, generation, configuration).0),
        spec_secret_for_decryption(ratchet, ciphersuite, generation, configuration).1 matches Ok(material) ==> material == key_material_at(ratchet.head.base, generation as nat),
{
}

impl View for DecryptionRatchet {
    type V = DecryptionRatchetView;

    closed spec fn view(&self) -> DecryptionRatchetView {
        DecryptionRatchetView { head: self.ratchet_head@, past: window_view(self.past_secrets@) }
    }
}

impl DecryptionRatchet {
    /// The head is well formed and the window holds key material of the
    /// chain.
    pub closed spec fn wf(&self) -> bool {
        &&& self.ratchet_head.wf()
        &&& window_is_of_chain(self@)
    }

    /// What a well-formed ratchet holds.
    pub proof fn lemma_wf(&self)
        requires
            self.wf(),
        ensures
            window_is_of_chain(self@),
    {
    }

    /// The ratchet of the chain that starts with `secret`.
    pub fn new(secret: Secret) -> (r: Self)
        ensures
            r.wf(),
            r@ == (DecryptionRatchetView { head: RatchetSecretView { base: secret@, generation: 0 }, past: Seq::empty() }),
    {
        let r = DecryptionRatchet { past_secrets: VecDeque::new(), ratchet_head: RatchetSecret::initial_ratchet_secret(secret) };
        assert(r@.past =~= Seq::empty());
        r
    }

    /// The generation of the head of the chain.
    pub fn generation(&self) -> (g: Generation)
        ensures
            g == self@.head.generation,
    {
        self.ratchet_head.generation()
    }

    /// Advances the chain past `generation`, keeps the key material of the
    /// generations passed over and hands out that of `generation`.
    fn advance(&mut self, backend: &OpenMlsRustCrypto, ciphersuite: Ciphersuite, generation: Generation) -> (material: RatchetKeyMaterial)
        requires
            old(self).wf(),
            ciphersuite.spec_same_lengths(old(self)@.head.base.ciphersuite),
            can_derive(old(self)@.head.base),
            old(self)@.head.generation <= generation < u32::MAX,
        ensures
            final(self).ratchet_head.wf(),
            final(self)@.head == (RatchetSecretView { base: old(self)@.head.base, generation: (generation + 1) as nat }),
            final(self)@.past == advanced_window(old(self)@, generation),
            material@ == key_material_at(old(self)@.head.base, generation as nat),
    {
        let ghost before = self@;
        let head: Generation = self.ratchet_head.generation();
        let steps: Generation = generation - head;
        let mut done: Generation = 0;
        while done < steps
            invariant
                done <= steps,
                steps == generation - head,
                generation < u32::MAX,
                head == before.head.generation,
                self.ratchet_head.wf(),
                self.ratchet_head@ == (RatchetSecretView { base: before.head.base, generation: (head + done) as nat }),
                ciphersuite.spec_same_lengths(before.head.base.ciphersuite),
                can_derive(before.head.base),
                self.past_secrets@.len() == done + before.past.len(),
                forall|i: int| 0 <= i < done ==> #[trigger] entry_view(self.past_secrets@[i]) == Some(key_material_at(before.head.base, (head + done - 1 - i) as nat)),
                forall|i: int| done <= i < done + before.past.len() ==> #[trigger] entry_view(self.past_secrets@[i]) == before.past[i - done],
            decreases steps - done,
        {
            let ghost window = self.past_secrets@;
            match self.ratchet_head.ratchet_forward(backend, ciphersuite) {
                Err(_) => {
                    assert(false);
                },
                Ok(out) => {
                    self.past_secrets.push_front(Some(out.1));
                },
            }
            done = done + 1;
            assert forall|i: int| 0 <= i < done implies #[trigger] entry_view(self.past_secrets@[i]) == Some(key_material_at(before.head.base, (head + done - 1 - i) as nat)) by {
                if i > 0 {
                    assert(self.past_secrets@[i] == window[i - 1]);
                }
            }
            assert forall|i: int| done <= i < done + before.past.len() implies #[trigger] entry_view(self.past_secrets@[i]) == before.past[i - done] by {
                assert(self.past_secrets@[i] == window[i - 1]);
            }
        }
        let ghost window = self.past_secrets@;
        let result = self.ratchet_head.ratchet_forward(backend, ciphersuite);
        self.past_secrets.push_front(None);
        assert(window_view(self.past_secrets@) =~= advanced_window(before, generation)) by {
            assert forall|i: int| 0 <= i < self.past_secrets@.len() implies window_view(self.past_secrets@)[i] == advanced_window(before, generation)[i] by {
                if i > 0 {
                    assert(self.past_secrets@[i] == window[i - 1]);
                    assert(entry_view(window[i - 1]) == advanced_window(before, generation)[i]);
                }
            }
        }
        match result {
            Ok(out) => out.1,
            Err(_) => {
                assert(false);
                RatchetKeyMaterial { key: Vec::new(), nonce: Vec::new() }
            },
        }
    }

    /// Takes the key material out of an entry of the window.
    fn take(&mut self, index: usize) -> (r: Option<RatchetKeyMaterial>)
        requires
            index < old(self)@.past.len(),
        ensures
            final(self).ratchet_head == old(self).ratchet_head,
            final(self)@.past == old(self)@.past.update(index as int, None),
            entry_view(r) == old(self)@.past[index as int],
    {
        let ghost window = self.past_secrets@;
        let entry = self.past_secrets.remove(index);
        self.past_secrets.insert(index, None);
        assert(window_view(self.past_secrets@) =~= window_view(window).update(index as int, None));
        match entry {
            Some(inner) => inner,
            None => None,
        }
    }

    /// Hands out the key material of `generation`, once.
    pub fn secret_for_decryption(
        &mut self,
        ciphersuite: Ciphersuite,
        backend: &OpenMlsRustCrypto,
        generation: Generation,
        configuration: &SenderRatchetConfiguration,
    ) -> (r: Result<RatchetKeyMaterial, SecretTreeError>)
        requires
            old(self).wf(),
        ensures
            final(self).wf(),
            final(self)@ == spec_secret_for_decryption(old(self)@, ciphersuite, generation, *configuration).0,
            r is Ok == spec_secret_for_decryption(old(self)@, ciphersuite, generation, *configuration).1 is Ok,
            r matches Ok(material) ==> spec_secret_for_decryption(old(self)@, ciphersuite, generation, *configuration).1 == Ok::<KeyMaterialView, SecretTreeError>(material@),
            r matches Err(e) ==> spec_secret_for_decryption(old(self)@, ciphersuite, generation, *configuration).1 == Err::<KeyMaterialView, SecretTreeError>(e),
    {
        let ghost before = self@;
        proof {
            lemma_decryption_is_of_chain(before, ciphersuite, generation, *configuration);
        }
        let head: Generation = self.ratchet_head.generation();
        if !ciphersuite.same_lengths(self.ratchet_head.ciphersuite()) {
            return Err(SecretTreeError::LibraryError);
        }
        if generation as u64 > head as u64 + configuration.maximum_forward_distance as u64 {
            return Err(SecretTreeError::TooDistantInTheFuture);
        }
        if (generation as u64 + configuration.out_of_order_tolerance as u64) < head as u64 {
            return Err(SecretTreeError::TooDistantInThePast);
        }
        if generation >= head {
            if generation == u32::MAX {
                return Err(SecretTreeError::RatchetTooLong);
            }
            if !self.ratchet_head.can_derive() {
                return Err(SecretTreeError::CryptoError(CryptoError::CryptoLibraryError));
            }
            let material = self.advance(backend, ciphersuite, generation);
            let ghost full = self.past_secrets@;
            self.past_secrets.truncate(configuration.out_of_order_tolerance as usize);
            assert(window_view(self.past_secrets@) =~= truncated_window(window_view(full), configuration.out_of_order_tolerance as nat));
            Ok(material)
        } else {
            let index: usize = (head - generation - 1) as usize;
            if index >= self.past_secrets.len() {
                return Err(SecretTreeError::IndexOutOfBounds);
            }
            match self.take(index) {
                None => {
                    assert(self@.past =~= before.past);
                    Err(SecretTreeError::SecretReuseError)
                },
                Some(material) => Ok(material),
            }
        }
    }
}

/// The ratchet of a member: that of the member itself, which it encrypts
/// with, or that of another, which it decrypts with.
pub enum SenderRatchet {
    EncryptionRatchet(RatchetSecret),
    DecryptionRatchet(DecryptionRatchet),
}

/// What a ratchet is, of either kind.
pub enum RatchetView {
    Encryption(RatchetSecretView),
    Decryption(DecryptionRatchetView),
}

impl View for SenderRatchet {
    type V = RatchetView;

    open spec fn view(&self) -> RatchetView {
        match self {
            SenderRatchet::EncryptionRatchet(ratchet) => RatchetView::Encryption(ratchet@),
            SenderRatchet::DecryptionRatchet(ratchet) => RatchetView::Decryption(ratchet@),
        }
    }
}

impl SenderRatchet {
    /// The ratchet is well formed.
    pub open spec fn wf(&self) -> bool {
        match self {
            SenderRatchet::EncryptionRatchet(ratchet) => ratchet.wf(),
            SenderRatchet::DecryptionRatchet(ratchet) => ratchet.wf(),
        }
    }

    /// The generation of the head of the chain.
    pub open spec fn spec_generation(&self) -> nat {
        match self {
            SenderRatchet::EncryptionRatchet(ratchet) => ratchet@.generation,
            SenderRatchet::DecryptionRatchet(ratchet) => ratchet@.head.generation,
        }
    }

    /// The secret that the chain started with.
    pub open spec fn spec_base(&self) -> SecretView {
        match self {
            SenderRatchet::EncryptionRatchet(ratchet) => ratchet@.base,
            SenderRatchet::DecryptionRatchet(ratchet) => ratchet@.head.base,
        }
    }

    /// The generation of the head of the chain.
    pub fn generation(&self) -> (g: Generation)
        ensures
            g == self.spec_generation(),
    {
        match self {
            SenderRatchet::EncryptionRatchet(ratchet) => ratchet.generation(),
            SenderRatchet::DecryptionRatchet(ratchet) => ratchet.generation(),
        }
    }
}

} // verus!
