//! The secret tree: the symmetric secrets of a group's members for one
//! epoch, derived on demand from the epoch's encryption secret.

use vstd::prelude::*;
use vstd::string::StringSliceAdditionalSpecFns;
use openmls_rust_crypto::OpenMlsRustCrypto;
use crate::codec::append_u32;
use crate::framing::ContentType;
use crate::framing::PublicMessage;
use crate::codec::u32_encoding;
use crate::codec::CodecError;
use crate::secret::can_derive;
use crate::secret::derived_secret;
use crate::secret::lemma_derivation_fails;
use crate::secret::lemma_derivation_succeeds;
use crate::secret::spec_kdf_expand_label;
use crate::secret::Secret;
use crate::secret::SecretView;
use crate::sender_ratchet::lemma_label_lengths;
use crate::sender_ratchet::spec_ratchet_forward;
use crate::sender_ratchet::spec_secret_for_decryption;
use crate::sender_ratchet::DecryptionRatchet;
use crate::sender_ratchet::DecryptionRatchetView;
use crate::sender_ratchet::Generation;
use crate::sender_ratchet::KeyMaterialView;
use crate::sender_ratchet::RatchetKeyMaterial;
use crate::sender_ratchet::RatchetSecret;
use crate::sender_ratchet::RatchetSecretView;
use crate::sender_ratchet::RatchetView;
use crate::sender_ratchet::SenderRatchet;
use crate::sender_ratchet::SenderRatchetConfiguration;
use crate::tree_math::ancestor;
use crate::tree_math::direct_path;
use crate::tree_math::is_pow2;
use crate::tree_math::left;
use crate::tree_math::lemma_ancestor_unique;
use crate::tree_math::lemma_children_spans;
use crate::tree_math::lemma_low_bit_is_pow2;
use crate::tree_math::lemma_pow2_is_pow2;
use crate::tree_math::lemma_pow2_log2;
use crate::tree_math::lemma_span_of_ancestor;
use crate::tree_math::log2;
use crate::tree_math::parent_covers;
use crate::tree_math::pow2;
use crate::tree_math::right;
use crate::tree_math::root;
use crate::tree_math::span;
use crate::tree_math::LeafNodeIndex;
use crate::tree_math::ParentNodeIndex;
use crate::tree_math::TreeNodeIndex;
use crate::tree_math::TreeSize;
use crate::types::Ciphersuite;
use crate::types::CryptoError;

verus! {

/// Failures of the secret tree and of its ratchets.
#[derive(Clone, Copy, Debug, PartialEq, Eq, Structural)]
pub enum SecretTreeError {
    /// Generation is too old to be processed.
    TooDistantInThePast,
    /// Generation is too far in the future to be processed.
    TooDistantInTheFuture,
    /// Index out of bounds.
    IndexOutOfBounds,
    /// The requested secret was deleted to preserve forward secrecy.
    SecretReuseError,
    /// Cannot create decryption secrets from own sender ratchet or encryption
    /// secrets from the sender ratchets of other members.
    RatchetTypeError,
    /// Ratchet generation has reached `u32::MAX`.
    RatchetTooLong,
    /// An unrecoverable error has occurred due to a bug in the implementation.
    LibraryError,
    /// An encoding failed.
    CodecError(CodecError),
    /// A cryptographic operation failed.
    CryptoError(CryptoError),
}

/// The two kinds of secret that a member has in an epoch.
#[derive(Clone, Copy, Debug, PartialEq, Eq, Structural)]
pub enum SecretType {
    HandshakeSecret,
    ApplicationSecret,
}

impl SecretType {
    /// The kind of secret that messages with a content of a kind are
    /// encrypted with: application messages with an application secret, those
    /// of the handshake with a handshake secret.
    pub open spec fn spec_of_content_type(content_type: ContentType) -> SecretType {
        match content_type {
            ContentType::Application => SecretType::ApplicationSecret,
            ContentType::Commit => SecretType::HandshakeSecret,
            ContentType::Proposal => SecretType::HandshakeSecret,
        }
    }

    /// The kind of secret that a signed message would be encrypted with.
    pub fn of_public_message(public_message: &PublicMessage) -> (t: SecretType)
        ensures
            t == SecretType::spec_of_content_type(public_message.content_type),
    {
        SecretType::from(&public_message.content_type())
    }
}

impl From<&ContentType> for SecretType {
    fn from(content_type: &ContentType) -> (t: SecretType) {
        match content_type {
            ContentType::Application => SecretType::ApplicationSecret,
            ContentType::Commit => SecretType::HandshakeSecret,
            ContentType::Proposal => SecretType::HandshakeSecret,
        }
    }
}

impl vstd::std_specs::convert::FromSpecImpl<&ContentType> for SecretType {
    open spec fn obeys_from_spec() -> bool {
        true
    }

    open spec fn from_spec(content_type: &ContentType) -> SecretType {
        SecretType::spec_of_content_type(*content_type)
    }
}

/// The derivation of a secret within the secret tree: a labelled derivation
/// whose context is the generation.
pub open spec fn spec_derive_tree_secret(secret: SecretView, label: Seq<u8>, generation: u32, length: nat) -> Result<SecretView, SecretTreeError> {
    match spec_kdf_expand_label(secret, label, u32_encoding(generation), length) {
        Ok(s) => Ok(s),
        Err(e) => Err(SecretTreeError::CryptoError(e)),
    }
}

/// Derives a secret within the secret tree.
pub fn derive_tree_secret(secret: &Secret, label: &str, generation: u32, length: usize, backend: &OpenMlsRustCrypto) -> (r: Result<Secret, SecretTreeError>)
    ensures
        r is Ok == spec_derive_tree_secret(secret@, label.spec_bytes(), generation, length as nat) is Ok,
        r matches Ok(s) ==> s@ == spec_derive_tree_secret(secret@, label.spec_bytes(), generation, length as nat).unwrap() && s@.bytes.len() == length,
        r matches Err(e) ==> spec_derive_tree_secret(secret@, label.spec_bytes(), generation, length as nat) == Err::<SecretView, SecretTreeError>(e),
{
    let mut context: Vec<u8> = Vec::new();
    append_u32(&mut context, generation);
    assert(context@ == u32_encoding(generation));
    match secret.kdf_expand_label(backend, label, context.as_slice(), length) {
        Ok(s) => Ok(s),
        Err(e) => Err(SecretTreeError::CryptoError(e)),
    }
}

/// The secret of an epoch from which the secret tree is derived.
#[derive(Debug)]
pub struct EncryptionSecret {
    secret: Secret,
}

impl View for EncryptionSecret {
    type V = SecretView;

    closed spec fn view(&self) -> SecretView {
        self.secret@
    }
}

impl EncryptionSecret {
    /// The encryption secret that `secret` is.
    pub fn new(secret: Secret) -> (e: Self)
        ensures
            e@ == secret@,
    {
        EncryptionSecret { secret }
    }

    /// Gives up the secret.
    pub fn consume_secret(self) -> (s: Secret)
        ensures
            s@ == self@,
    {
        self.secret
    }
}

/// The secret of a child, derived from that of its parent.
pub open spec fn child_secret(parent: SecretView, is_left: bool) -> SecretView {
    derived_secret(
        parent,
        "tree".spec_bytes(),
        if is_left {
            "left".spec_bytes()
        } else {
            "right".spec_bytes()
        },
        parent.ciphersuite.spec_hash_length(),
    )
}

/// The secret of a node above leaf `l` in a tree of `n` leaves: of the leaf
/// itself where `f` is 0, else of the parent whose children have `f` leaves
/// each. The root has the secret `root`.
pub open spec fn node_secret(root: SecretView, n: nat, l: nat, f: nat) -> SecretView
    decreases n - f,
{
    if n <= 1 || 2 * f >= n {
        root
    } else {
        let up = if f == 0 {
            1
        } else {
            2 * f
        };
        child_secret(node_secret(root, n, l, up), l <= ancestor(l, up))
    }
}

/// The label of the derivation of a ratchet's first secret.
pub open spec fn ratchet_label(secret_type: SecretType) -> Seq<u8> {
    match secret_type {
        SecretType::HandshakeSecret => "handshake".spec_bytes(),
        SecretType::ApplicationSecret => "application".spec_bytes(),
    }
}

/// The first secret of a ratchet of the member at leaf `l`.
pub open spec fn ratchet_base(root: SecretView, n: nat, l: nat, secret_type: SecretType) -> SecretView {
    derived_secret(node_secret(root, n, l, 0), ratchet_label(secret_type), Seq::empty(), root.ciphersuite.spec_hash_length())
}

/// The secrets of the nodes of a tree are of the ciphersuite of the
/// encryption secret.
pub proof fn lemma_node_secret_ciphersuite(root: SecretView, n: nat, l: nat, f: nat)
    ensures
        node_secret(root, n, l, f).ciphersuite == root.ciphersuite,
    decreases n - f,
{
    if !(n <= 1 || 2 * f >= n) {
        let up = if f == 0 {
            1
        } else {
            2 * f
        };
        lemma_node_secret_ciphersuite(root, n, l, up);
    }
}

/// The first secret of a ratchet is of the ciphersuite of the encryption
/// secret and long enough to derive from.
pub proof fn lemma_ratchet_base_derives(root: SecretView, n: nat, l: nat, secret_type: SecretType)
    ensures
        ratchet_base(root, n, l, secret_type).ciphersuite == root.ciphersuite,
        can_derive(ratchet_base(root, n, l, secret_type)),
{
    lemma_node_secret_ciphersuite(root, n, l, 0);
}

/// The two ratchets of a member.
pub struct LeafRatchetsView {
    pub handshake: RatchetView,
    pub application: RatchetView,
}

impl LeafRatchetsView {
    /// The ratchet of a kind.
    pub open spec fn get(self, secret_type: SecretType) -> RatchetView {
        match secret_type {
            SecretType::HandshakeSecret => self.handshake,
            SecretType::ApplicationSecret => self.application,
        }
    }

    /// The ratchets with that of a kind replaced.
    pub open spec fn set(self, secret_type: SecretType, ratchet: RatchetView) -> LeafRatchetsView {
        match secret_type {
            SecretType::HandshakeSecret => LeafRatchetsView { handshake: ratchet, application: self.application },
            SecretType::ApplicationSecret => LeafRatchetsView { handshake: self.handshake, application: ratchet },
        }
    }
}

/// What a secret tree is: the encryption secret it was made of, its number
/// of leaves, the leaf of the member that holds it, and the ratchets of the
/// members whose ratchets were asked for.
pub struct SecretTreeView {
    pub root: SecretView,
    pub leaf_count: nat,
    pub own_index: nat,
    pub ratchets: Seq<Option<LeafRatchetsView>>,
}

/// A ratchet that was not used yet: that of the member itself is one to
/// encrypt with, that of another one to decrypt with.
pub open spec fn initial_ratchet(base: SecretView, own: bool) -> RatchetView {
    if own {
        RatchetView::Encryption(RatchetSecretView { base, generation: 0 })
    } else {
        RatchetView::Decryption(DecryptionRatchetView { head: RatchetSecretView { base, generation: 0 }, past: Seq::empty() })
    }
}

/// The ratchets of the member at leaf `l` before they were used.
pub open spec fn initial_ratchets(tree: SecretTreeView, l: nat) -> LeafRatchetsView {
    LeafRatchetsView {
        handshake: initial_ratchet(ratchet_base(tree.root, tree.leaf_count, l, SecretType::HandshakeSecret), l == tree.own_index),
        application: initial_ratchet(ratchet_base(tree.root, tree.leaf_count, l, SecretType::ApplicationSecret), l == tree.own_index),
    }
}

/// The ratchets of the member at leaf `l`, as they are or, where they were
/// not asked for yet, as they are at first.
pub open spec fn ratchets_of(tree: SecretTreeView, l: nat) -> LeafRatchetsView {
    match tree.ratchets[l as int] {
        Some(ratchets) => ratchets,
        None => initial_ratchets(tree, l),
    }
}

/// The tree with the ratchets of the member at leaf `l` replaced.
pub open spec fn with_ratchets(tree: SecretTreeView, l: nat, ratchets: LeafRatchetsView) -> SecretTreeView {
    SecretTreeView { root: tree.root, leaf_count: tree.leaf_count, own_index: tree.own_index, ratchets: tree.ratchets.update(l as int, Some(ratchets)) }
}

/// The error that stands in the way of the ratchets of the member at leaf
/// `index`, if any: the leaf is not in the tree, the lengths of the
/// ciphersuite given are not those of the ciphersuite of the tree, or the
/// ratchets are yet to be derived and the encryption secret is too short to
/// derive from. Secrets are derived with the lengths of the ciphersuite
/// given; with lengths that the secrets of the epoch are not of, nothing is
/// derived.
pub open spec fn ratchet_obstacle(tree: SecretTreeView, ciphersuite: Ciphersuite, index: nat) -> Option<SecretTreeError> {
    if index >= tree.leaf_count {
        Some(SecretTreeError::IndexOutOfBounds)
    } else if !ciphersuite.spec_same_lengths(tree.root.ciphersuite) {
        Some(SecretTreeError::LibraryError)
    } else if tree.ratchets[index as int] is None && !can_derive(tree.root) {
        Some(SecretTreeError::CryptoError(CryptoError::CryptoLibraryError))
    } else {
        None
    }
}

/// What asking a ratchet of either kind for the key material to decrypt
/// with gives: a ratchet to encrypt with refuses and stays as it is.
pub open spec fn after_decryption(ratchet: RatchetView, ciphersuite: Ciphersuite, generation: Generation, configuration: SenderRatchetConfiguration) -> (
    RatchetView,
    Result<KeyMaterialView, SecretTreeError>,
) {
    match ratchet {
        RatchetView::Encryption(_) => (ratchet, Err(SecretTreeError::RatchetTypeError)),
        RatchetView::Decryption(inner) => {
            let next = spec_secret_for_decryption(inner, ciphersuite, generation, configuration);
            (RatchetView::Decryption(next.0), next.1)
        },
    }
}

/// What asking a ratchet of either kind for the key material to encrypt
/// with gives: a ratchet to decrypt with refuses and stays as it is.
pub open spec fn after_encryption(ratchet: RatchetView, ciphersuite: Ciphersuite) -> (RatchetView, Result<(Generation, KeyMaterialView), SecretTreeError>) {
    match ratchet {
        RatchetView::Decryption(_) => (ratchet, Err(SecretTreeError::RatchetTypeError)),
        RatchetView::Encryption(inner) => {
            let next = spec_ratchet_forward(inner, ciphersuite);
            (RatchetView::Encryption(next.0), next.1)
        },
    }
}

/// Asking a tree in which the ratchets of a member were derived gives what
/// asking the tree before that gives.
pub proof fn lemma_decryption_after_derivation(
    tree: SecretTreeView,
    ciphersuite: Ciphersuite,
    index: nat,
    secret_type: SecretType,
    generation: Generation,
    configuration: SenderRatchetConfiguration,
)
    requires
        ratchet_obstacle(tree, ciphersuite, index) is None,
        tree.ratchets.len() == tree.leaf_count,
    ensures
        ({
            let derived = with_ratchets(tree, index, ratchets_of(tree, index));
            let ratchets = derived.ratchets[index as int].unwrap();
            let next = after_decryption(ratchets.get(secret_type), ciphersuite, generation, configuration);
            &&& derived.ratchets[index as int] is Some
            &&& index < derived.leaf_count
            &&& spec_tree_secret_for_decryption(tree, ciphersuite, index, secret_type, generation, configuration) == (with_ratchets(derived, index, ratchets.set(secret_type, next.0)), next.1)
        }),
{
    let derived = with_ratchets(tree, index, ratchets_of(tree, index));
    let ratchets = ratchets_of(tree, index);
    let next = after_decryption(ratchets.get(secret_type), ciphersuite, generation, configuration);
    assert(with_ratchets(derived, index, ratchets.set(secret_type, next.0)).ratchets =~= with_ratchets(tree, index, ratchets.set(secret_type, next.0)).ratchets);
}

/// Asking a tree in which the ratchets of a member were derived gives what
/// asking the tree before that gives.
pub proof fn lemma_encryption_after_derivation(tree: SecretTreeView, ciphersuite: Ciphersuite, index: nat, secret_type: SecretType)
    requires
        ratchet_obstacle(tree, ciphersuite, index) is None,
        tree.ratchets.len() == tree.leaf_count,
    ensures
        ({
            let derived = with_ratchets(tree, index, ratchets_of(tree, index));
            let ratchets = derived.ratchets[index as int].unwrap();
            let next = after_encryption(ratchets.get(secret_type), ciphersuite);
            &&& derived.ratchets[index as int] is Some
            &&& index < derived.leaf_count
            &&& spec_tree_secret_for_encryption(tree, ciphersuite, index, secret_type) == (with_ratchets(derived, index, ratchets.set(secret_type, next.0)), next.1)
        }),
{
    let derived = with_ratchets(tree, index, ratchets_of(tree, index));
    let ratchets = ratchets_of(tree, index);
    let next = after_encryption(ratchets.get(secret_type), ciphersuite);
    assert(with_ratchets(derived, index, ratchets.set(secret_type, next.0)).ratchets =~= with_ratchets(tree, index, ratchets.set(secret_type, next.0)).ratchets);
}

/// What asking a tree for the key material to decrypt a message of the
/// member at leaf `index` gives: the tree after it, and the key material or
/// the error. The ratchets of the member are derived where they were not
/// yet; the member's own ratchets do not decrypt.
pub open spec fn spec_tree_secret_for_decryption(
    tree: SecretTreeView,
    ciphersuite: Ciphersuite,
    index: nat,
    secret_type: SecretType,
    generation: Generation,
    configuration: SenderRatchetConfiguration,
) -> (SecretTreeView, Result<KeyMaterialView, SecretTreeError>) {
    match ratchet_obstacle(tree, ciphersuite, index) {
        Some(e) => (tree, Err(e)),
        None => {
            let ratchets = ratchets_of(tree, index);
            let next = after_decryption(ratchets.get(secret_type), ciphersuite, generation, configuration);
            (with_ratchets(tree, index, ratchets.set(secret_type, next.0)), next.1)
        },
    }
}

/// What asking a tree for the key material to encrypt the next message of
/// the member at leaf `index` gives: the tree after it, and the generation
/// and key material or the error. Only the member's own ratchets encrypt.
pub open spec fn spec_tree_secret_for_encryption(
    tree: SecretTreeView,
    ciphersuite: Ciphersuite,
    index: nat,
    secret_type: SecretType,
) -> (SecretTreeView, Result<(Generation, KeyMaterialView), SecretTreeError>) {
    match ratchet_obstacle(tree, ciphersuite, index) {
        Some(e) => (tree, Err(e)),
        None => {
            let ratchets = ratchets_of(tree, index);
            let next = after_encryption(ratchets.get(secret_type), ciphersuite);
            (with_ratchets(tree, index, ratchets.set(secret_type, next.0)), next.1)
        },
    }
}

/// Over each leaf, the node that holds a secret, after the secrets of the
/// children of the parent `p` were derived from the secret of `p`: over the
/// leaves under `p` it is the child of `p` above them, over the others it is
/// as before. A node is named by the number of leaves under each of its
/// children, a leaf by 0; -1 says that no node over the leaf holds a secret.
pub open spec fn levels_after_derive(levels: Seq<int>, p: nat) -> Seq<int> {
    Seq::new(
        levels.len(),
        |l: int|
            if parent_covers(p, l as nat) {
                if span(p) == 1 {
                    0int
                } else {
                    (span(p) / 2) as int
                }
            } else {
                levels[l]
            },
    )
}

/// Over each leaf, the node that holds a secret, after the secrets were
/// derived from the parent above the leaf `index` whose children have `f`
/// leaves each down to that leaf: the children of that parent are derived,
/// then those of its child above the leaf, and so on.
pub open spec fn levels_after_descent(levels: Seq<int>, index: nat, f: nat) -> Seq<int>
    decreases f,
{
    if f == 0 {
        levels
    } else {
        levels_after_descent(levels_after_derive(levels, ancestor(index, f)), index, f / 2)
    }
}

/// Over each leaf, the node that holds a secret, after the ratchets of the
/// member at the leaf `index` were asked for. Where they were derived
/// already nothing changes. Else the secrets are derived from the node that
/// holds the secret over the leaf down to the leaf, and the secret of the
/// leaf is taken away: only the nodes on that way and their children change.
pub open spec fn levels_after_ratchets(levels: Seq<int>, index: nat) -> Seq<int> {
    if levels[index as int] < 0 {
        levels
    } else {
        levels_after_descent(levels, index, levels[index as int] as nat).update(index as int, -1)
    }
}

/// The parents above a leaf lie one under the other: a leaf under the
/// parent above `l` whose children have `f / 2` leaves each lies under the
/// parent above `l` whose children have `f` leaves each.
pub proof fn lemma_ancestors_nest(l: nat, f: nat, other: nat)
    requires
        is_pow2(f),
        f >= 2,
        parent_covers(ancestor(l, (f / 2) as nat), other),
    ensures
        parent_covers(ancestor(l, f), other),
{
    let h = (f / 2) as nat;
    assert(is_pow2(h));
    assert(f == 2 * h);
    lemma_span_of_ancestor(l, h);
    lemma_span_of_ancestor(l, f);
    crate::tree_math::lemma_ancestor_covers(l, h);
    crate::tree_math::lemma_ancestor_covers(l, f);
    let q = (l / f) as int;
    let half = q / 2;
    assert((l as int) / (f as int * 2) == q / 2) by {
        vstd::arithmetic::div_mod::lemma_div_denominator(l as int, f as int, 2);
    }
    assert(q == 2 * half + q % 2);
    let a = q * f;
    let b = half * (2 * f);
    assert(a - b == (q % 2) * f) by (nonlinear_arith)
        requires
            a == q * f,
            b == half * (2 * f),
            q == 2 * half + q % 2,
    ;
    assert(0 <= (q % 2) * f <= f) by (nonlinear_arith)
        requires
            0 <= q % 2 <= 1,
            f >= 0,
    ;
    assert(2 * h == f);
    assert(ancestor(l, h) == (l / (2 * h)) * (2 * h) + h - 1);
    assert((l / (2 * h)) as int == q);
    assert(ancestor(l, h) == a + h - 1);
    assert(ancestor(l, f) == (l / (2 * f)) * (2 * f) + f - 1);
    assert((l / (2 * f)) as int == half);
    assert(ancestor(l, f) == b + f - 1);
}

/// Deriving the secrets down to a leaf changes nothing over the leaves that
/// do not lie under the parent from which the secrets are derived.
pub proof fn lemma_descent_keeps_outside(levels: Seq<int>, index: nat, f: nat, other: int)
    requires
        f == 0 || is_pow2(f),
        0 <= other < levels.len(),
        f >= 1 ==> !parent_covers(ancestor(index, f), other as nat),
    ensures
        levels_after_descent(levels, index, f).len() == levels.len(),
        levels_after_descent(levels, index, f)[other] == levels[other],
    decreases f,
{
    if f >= 1 {
        let next = levels_after_derive(levels, ancestor(index, f));
        assert(next[other] == levels[other]);
        if f >= 2 {
            assert(is_pow2((f / 2) as nat));
            if parent_covers(ancestor(index, (f / 2) as nat), other as nat) {
                lemma_ancestors_nest(index, f, other as nat);
            }
        }
        lemma_descent_keeps_outside(next, index, (f / 2) as nat, other);
    }
}

/// Asking for the ratchets of a member changes which node holds a secret
/// over the leaf of the member, and over the leaves under the node that
/// held the secret over it: over every other leaf the same node holds a
/// secret as before.
pub proof fn lemma_request_keeps_outside(levels: Seq<int>, index: nat, other: int)
    requires
        index < levels.len(),
        0 <= other < levels.len(),
        other != index,
        levels[index as int] >= 1 ==> is_pow2(levels[index as int] as nat) && !parent_covers(ancestor(index, levels[index as int] as nat), other as nat),
    ensures
        levels_after_ratchets(levels, index).len() == levels.len(),
        levels_after_ratchets(levels, index)[other] == levels[other],
{
    if levels[index as int] >= 0 {
        lemma_descent_keeps_outside(levels, index, levels[index as int] as nat, other);
    }
}

/// A node of the secret tree.
#[derive(Debug)]
pub struct SecretTreeNode {
    secret: Secret,
}

/// The secret tree of a member for one epoch.
pub struct SecretTree {
    own_index: LeafNodeIndex,
    leaf_nodes: Vec<Option<SecretTreeNode>>,
    parent_nodes: Vec<Option<SecretTreeNode>>,
    handshake_sender_ratchets: Vec<Option<SenderRatchet>>,
    application_sender_ratchets: Vec<Option<SenderRatchet>>,
    size: TreeSize,
    ciphersuite: Ciphersuite,
    root: Ghost<SecretView>,
    front: Ghost<Seq<int>>,
}

/// Whether `f` names the root of a tree of `n` leaves: the leaf of a tree of
/// one leaf, else the parent with half the leaves under each child.
pub open spec fn is_root_level(n: nat, f: int) -> bool {
    (n <= 1 && f == 0) || (n >= 2 && 2 * f == n)
}

/// Whether a stored secret is that of its node, and long enough to derive
/// from unless it is the encryption secret itself.
pub open spec fn is_node_secret(secret: SecretView, root: SecretView, n: nat, l: nat, f: nat) -> bool {
    &&& secret == node_secret(root, n, l, f)
    &&& secret.ciphersuite == root.ciphersuite
    &&& (is_root_level(n, f as int) || can_derive(secret))
}

/// Whether an unused or used ratchet is that of a member and a kind.
pub open spec fn is_ratchet_of(ratchet: SenderRatchet, base: SecretView, own: bool) -> bool {
    &&& ratchet.wf()
    &&& ratchet.spec_base() == base
    &&& can_derive(base)
    &&& own <==> ratchet is EncryptionRatchet
}

impl View for SecretTree {
    type V = SecretTreeView;

    closed spec fn view(&self) -> SecretTreeView {
        SecretTreeView {
            root: self.root@,
            leaf_count: self.size.spec_leaf_count(),
            own_index: self.own_index.0 as nat,
            ratchets: Seq::new(
                self.size.spec_leaf_count(),
                |l: int|
                    if self.front@[l] == -1 {
                        Some(
                            LeafRatchetsView {
                                handshake: self.handshake_sender_ratchets@[l].unwrap()@,
                                application: self.application_sender_ratchets@[l].unwrap()@,
                            },
                        )
                    } else {
                        None
                    },
            ),
        }
    }
}

impl SecretTree {
    /// The number of leaves.
    pub closed spec fn n(&self) -> nat {
        self.size.spec_leaf_count()
    }

    /// Over each leaf, the node that holds a secret: -1 where none does,
    /// the ratchets of the leaf being derived; 0 where the leaf does; else
    /// the number of leaves under each child of the parent above the leaf
    /// that does.
    pub closed spec fn levels(&self) -> Seq<int> {
        self.front@
    }

    /// The vectors are as long as the tree is wide.
    pub closed spec fn shape_ok(&self) -> bool {
        &&& self.size.wf()
        &&& self.leaf_nodes@.len() == self.n()
        &&& self.parent_nodes@.len() == self.n() - 1
        &&& self.handshake_sender_ratchets@.len() == self.n()
        &&& self.application_sender_ratchets@.len() == self.n()
        &&& self.front@.len() == self.n()
        &&& self.root@.ciphersuite == self.ciphersuite
    }

    /// Over leaf `l` exactly one node holds a secret, or none where the
    /// ratchets of the leaf were derived: the node that `front` names. What
    /// is held is what is to be held.
    pub closed spec fn leaf_ok(&self, l: int) -> bool {
        let f = self.front@[l];
        let n = self.n();
        &&& f == -1 || f == 0 || (f >= 1 && is_pow2(f as nat) && 2 * f <= n)
        &&& is_root_level(n, f) || can_derive(self.root@)
        &&& self.leaf_nodes@[l] is Some <==> f == 0
        &&& forall|g: nat| is_pow2(g) && 2 * g <= n ==> (self.parent_nodes@[#[trigger] ancestor(l as nat, g) as int] is Some <==> f == g)
        &&& f == 0 ==> is_node_secret(self.leaf_nodes@[l].unwrap().secret@, self.root@, n, l as nat, 0)
        &&& f >= 1 ==> is_node_secret(self.parent_nodes@[ancestor(l as nat, f as nat) as int].unwrap().secret@, self.root@, n, l as nat, f as nat)
        &&& self.handshake_sender_ratchets@[l] is Some <==> f == -1
        &&& self.application_sender_ratchets@[l] is Some <==> f == -1
        &&& f == -1 ==> is_ratchet_of(self.handshake_sender_ratchets@[l].unwrap(), ratchet_base(self.root@, n, l as nat, SecretType::HandshakeSecret), l == self.own_index.0)
        &&& f == -1 ==> is_ratchet_of(self.application_sender_ratchets@[l].unwrap(), ratchet_base(self.root@, n, l as nat, SecretType::ApplicationSecret), l == self.own_index.0)
    }

    /// The tree is well formed.
    pub closed spec fn wf(&self) -> bool {
        &&& self.shape_ok()
        &&& forall|l: int| 0 <= l < self.n() ==> #[trigger] self.leaf_ok(l)
    }

    /// What a well-formed tree holds.
    pub proof fn lemma_wf(&self)
        requires
            self.wf(),
        ensures
            self@.ratchets.len() == self@.leaf_count,
            1 <= self@.leaf_count,
            is_pow2(self@.leaf_count),
    {
        self.size.lemma_wf();
    }

    /// The secret tree of the member at leaf `own_index` of a tree of the
    /// size given, for the epoch whose encryption secret is given. No ratchet
    /// is derived yet.
    pub fn new(encryption_secret: EncryptionSecret, size: TreeSize, own_index: LeafNodeIndex) -> (tree: Self)
        requires
            size.wf(),
        ensures
            tree.wf(),
            tree@ == (SecretTreeView {
                root: encryption_secret@,
                leaf_count: size.spec_leaf_count(),
                own_index: own_index.0 as nat,
                ratchets: Seq::new(size.spec_leaf_count(), |l: int| None::<LeafRatchetsView>),
            }),
            forall|l: nat| #[trigger] tree.leaf_holds_secret(l) <==> l == 0 && size.spec_leaf_count() == 1,
            forall|p: nat| #[trigger] tree.parent_holds_secret(p) <==> size.spec_leaf_count() >= 2 && p == size.spec_leaf_count() / 2 - 1,
            tree.levels() == Seq::new(size.spec_leaf_count(), |l: int| (size.spec_leaf_count() / 2) as int),
    {
        let n: usize = size.leaf_count() as usize;
        let secret = encryption_secret.consume_secret();
        let ciphersuite = secret.ciphersuite();
        let ghost root_view = secret@;
        let mut leaf_nodes: Vec<Option<SecretTreeNode>> = Vec::new();
        let mut parent_nodes: Vec<Option<SecretTreeNode>> = Vec::new();
        let mut handshake_sender_ratchets: Vec<Option<SenderRatchet>> = Vec::new();
        let mut application_sender_ratchets: Vec<Option<SenderRatchet>> = Vec::new();
        let mut i: usize = 0;
        while i < n
            invariant
                i <= n,
                leaf_nodes@.len() == i,
                handshake_sender_ratchets@.len() == i,
                application_sender_ratchets@.len() == i,
                parent_nodes@.len() == (if i == 0 { 0int } else { i - 1 }),
                forall|j: int| 0 <= j < leaf_nodes@.len() ==> leaf_nodes@[j] is None,
                forall|j: int| 0 <= j < parent_nodes@.len() ==> parent_nodes@[j] is None,
                forall|j: int| 0 <= j < i ==> handshake_sender_ratchets@[j] is None,
                forall|j: int| 0 <= j < i ==> application_sender_ratchets@[j] is None,
            decreases n - i,
        {
            leaf_nodes.push(None);
            handshake_sender_ratchets.push(None);
            application_sender_ratchets.push(None);
            if i > 0 {
                parent_nodes.push(None);
            }
            i = i + 1;
        }
        let node = Some(SecretTreeNode { secret });
        let ghost top: int;
        match root(size) {
            TreeNodeIndex::Leaf(leaf_index) => {
                leaf_nodes.set(leaf_index.usize(), node);
                proof {
                    top = 0;
                }
            },
            TreeNodeIndex::Parent(parent_index) => {
                parent_nodes.set(parent_index.usize(), node);
                proof {
                    top = (n / 2) as int;
                }
            },
        }
        let tree = SecretTree {
            own_index,
            leaf_nodes,
            parent_nodes,
            handshake_sender_ratchets,
            application_sender_ratchets,
            size,
            ciphersuite,
            root: Ghost(root_view),
            front: Ghost(Seq::new(n as nat, |l: int| top)),
        };
        proof {
            assert forall|l: int| 0 <= l < tree.n() implies #[trigger] tree.leaf_ok(l) by {
                if n > 1 {
                    let half = (n / 2) as nat;
                    lemma_span_of_ancestor(l as nat, half);
                    // every leaf lies under the root
                    assert(ancestor(l as nat, half) == half - 1) by {
                        crate::tree_math::lemma_ancestor_covers(l as nat, half);
                        lemma_root_is_above(l as nat, half);
                    }
                    assert forall|g: nat| is_pow2(g) && 2 * g <= n implies (tree.parent_nodes@[#[trigger] ancestor(l as nat, g) as int] is Some <==> half == g) by {
                        lemma_span_of_ancestor(l as nat, g);
                        crate::tree_math::lemma_ancestor_covers(l as nat, g);
                        lemma_ancestor_in_tree(l as nat, g, n as nat);
                    }
                }
            }
            assert(tree@.ratchets =~= Seq::new(size.spec_leaf_count(), |l: int| None::<LeafRatchetsView>));
            assert(tree.levels() =~= Seq::new(size.spec_leaf_count(), |l: int| (size.spec_leaf_count() / 2) as int));
        }
        tree
    }

    /// Which node holds the secret over each leaf after the secrets of the
    /// children of the parent `p` were derived.
    pub closed spec fn front_after_derive(&self, p: nat) -> Seq<int> {
        levels_after_derive(self.front@, p)
    }

    /// The tree in which the children of the parent `p` hold the secrets
    /// given and `p` holds none.
    pub closed spec fn derived_from(&self, before: &SecretTree, p: nat, left_node: SecretTreeNode, right_node: SecretTreeNode) -> bool {
        let f = span(p);
        &&& self.own_index == before.own_index
        &&& self.size == before.size
        &&& self.ciphersuite == before.ciphersuite
        &&& self.root@ == before.root@
        &&& self.handshake_sender_ratchets@ == before.handshake_sender_ratchets@
        &&& self.application_sender_ratchets@ == before.application_sender_ratchets@
        &&& self.front@ == before.front_after_derive(p)
        &&& f == 1 ==> self.leaf_nodes@ == before.leaf_nodes@.update(p as int, Some(left_node)).update(p as int + 1, Some(right_node))
        &&& f == 1 ==> self.parent_nodes@ == before.parent_nodes@.update(p as int, None)
        &&& f != 1 ==> self.leaf_nodes@ == before.leaf_nodes@
        &&& f != 1 ==> self.parent_nodes@ == before.parent_nodes@.update(p as int - f as int / 2, Some(left_node)).update(p as int + f as int / 2, Some(right_node)).update(p as int, None)
    }

    /// Deriving the secrets of the children of a parent keeps what holds
    /// over each leaf.
    #[verifier::spinoff_prover]
    #[verifier::rlimit(40)]
    proof fn lemma_derived_leaf_ok(&self, before: &SecretTree, p: nat, left_node: SecretTreeNode, right_node: SecretTreeNode, l: int)
        requires
            before.wf(),
            p < before.n() - 1,
            before.parent_nodes@[p as int] is Some,
            can_derive(before.parent_nodes@[p as int].unwrap().secret@),
            left_node.secret@ == child_secret(before.parent_nodes@[p as int].unwrap().secret@, true),
            right_node.secret@ == child_secret(before.parent_nodes@[p as int].unwrap().secret@, false),
            can_derive(left_node.secret@),
            can_derive(right_node.secret@),
            self.derived_from(before, p, left_node, right_node),
            0 <= l < before.n(),
        ensures
            self.leaf_ok(l),
            (self.front@[l] == -1) == (before.front@[l] == -1),
    {
        let n = before.n();
        let f = span(p);
        let top = before.parent_nodes@[p as int].unwrap().secret@;
        before.size.lemma_wf();
        lemma_parent_range_in_tree(p, n);
        assert(before.leaf_ok(l));
        if f >= 2 {
            lemma_children_spans(p);
        }
        if parent_covers(p, l as nat) {
            lemma_ancestor_unique(p, l as nat);
            assert(before.front@[l] == f);
            assert(is_node_secret(top, before.root@, n, l as nat, f));
            if f == 1 {
                assert(node_secret(before.root@, n, l as nat, 0) == child_secret(node_secret(before.root@, n, l as nat, 1), l <= ancestor(l as nat, 1)));
            } else {
                let h = f / 2;
                let c = if l < p + 1 {
                    (p - h) as nat
                } else {
                    p + h
                };
                lemma_ancestor_unique(c, l as nat);
                assert(ancestor(l as nat, h) == c);
                assert(node_secret(before.root@, n, l as nat, h) == child_secret(node_secret(before.root@, n, l as nat, f), l <= ancestor(l as nat, f)));
            }
            assert forall|g: nat| is_pow2(g) && 2 * g <= n implies (self.parent_nodes@[#[trigger] ancestor(l as nat, g) as int] is Some <==> self.front@[l] == g) by {
                lemma_span_of_ancestor(l as nat, g);
                lemma_ancestor_in_tree(l as nat, g, n);
            }
        } else {
            assert forall|g: nat| is_pow2(g) && 2 * g <= n implies (self.parent_nodes@[#[trigger] ancestor(l as nat, g) as int] is Some <==> self.front@[l] == g) by {
                lemma_span_of_ancestor(l as nat, g);
                lemma_ancestor_in_tree(l as nat, g, n);
                let a = ancestor(l as nat, g);
                assert(a != p);
                if f >= 2 {
                    assert(a != p - f / 2);
                    assert(a != p + f / 2);
                }
            }
            let own = before.front@[l];
            if own >= 1 {
                lemma_span_of_ancestor(l as nat, own as nat);
                lemma_ancestor_in_tree(l as nat, own as nat, n);
                let a = ancestor(l as nat, own as nat);
                assert(a != p);
                if f >= 2 {
                    assert(a != p - f / 2);
                    assert(a != p + f / 2);
                }
            }
        }
    }

    /// Puts the secrets derived from that of a parent into its children and
    /// takes that of the parent away.
    fn install_children(&mut self, index_in_tree: ParentNodeIndex, left_secret: Secret, right_secret: Secret)
        requires
            old(self).wf(),
            index_in_tree.0 < old(self).n() - 1,
            old(self).parent_nodes@[index_in_tree.0 as int] is Some,
            can_derive(old(self).parent_nodes@[index_in_tree.0 as int].unwrap().secret@),
            left_secret@ == child_secret(old(self).parent_nodes@[index_in_tree.0 as int].unwrap().secret@, true),
            right_secret@ == child_secret(old(self).parent_nodes@[index_in_tree.0 as int].unwrap().secret@, false),
            can_derive(left_secret@),
            can_derive(right_secret@),
        ensures
            final(self).wf(),
            final(self)@ == old(self)@,
            final(self).ciphersuite == old(self).ciphersuite,
            final(self).size == old(self).size,
            final(self).own_index == old(self).own_index,
            final(self).root@ == old(self).root@,
            final(self).front@ == old(self).front_after_derive(index_in_tree.0 as nat),
    {
        let ghost before = *self;
        let ghost p = index_in_tree.0 as nat;
        proof {
            self.size.lemma_wf();
            lemma_parent_range_in_tree(p, self.n());
            if span(p) >= 2 {
                lemma_children_spans(p);
            }
        }
        let left_index = left(index_in_tree);
        let right_index = right(index_in_tree);
        let left_node = SecretTreeNode { secret: left_secret };
        let right_node = SecretTreeNode { secret: right_secret };
        let ghost left_copy = left_node;
        let ghost right_copy = right_node;
        match left_index {
            TreeNodeIndex::Leaf(i) => {
                self.leaf_nodes.set(i.usize(), Some(left_node));
            },
            TreeNodeIndex::Parent(i) => {
                self.parent_nodes.set(i.usize(), Some(left_node));
            },
        }
        match right_index {
            TreeNodeIndex::Leaf(i) => {
                self.leaf_nodes.set(i.usize(), Some(right_node));
            },
            TreeNodeIndex::Parent(i) => {
                self.parent_nodes.set(i.usize(), Some(right_node));
            },
        }
        self.parent_nodes.set(index_in_tree.usize(), None);
        self.front = Ghost(before.front_after_derive(p));
        proof {
            assert(self.derived_from(&before, p, left_copy, right_copy));
            assert forall|l: int| 0 <= l < self.n() implies #[trigger] self.leaf_ok(l) by {
                self.lemma_derived_leaf_ok(&before, p, left_copy, right_copy, l);
            }
            assert(self@.ratchets =~= before@.ratchets) by {
                assert forall|l: int| 0 <= l < self.n() implies self@.ratchets[l] == before@.ratchets[l] by {
                    self.lemma_derived_leaf_ok(&before, p, left_copy, right_copy, l);
                }
            }
        }
    }

    /// A parent that holds a secret holds that of its place, over each of
    /// its leaves.
    proof fn lemma_populated_parent(&self, p: nat, l: nat)
        requires
            self.wf(),
            p < self.n() - 1,
            self.parent_nodes@[p as int] is Some,
            parent_covers(p, l),
        ensures
            l < self.n(),
            self.front@[l as int] == span(p),
            is_node_secret(self.parent_nodes@[p as int].unwrap().secret@, self.root@, self.n(), l, span(p)),
            is_root_level(self.n(), span(p) as int) || can_derive(self.root@),
            self.parent_nodes@[p as int].unwrap().secret@.ciphersuite == self.ciphersuite,
    {
        self.size.lemma_wf();
        lemma_parent_range_in_tree(p, self.n());
        lemma_ancestor_unique(p, l);
        assert(self.leaf_ok(l as int));
    }

    /// Derives the secrets of the children of a parent, with the lengths of
    /// the ciphersuite given, and takes that of the parent away. Fails, and
    /// leaves the tree as it was, with `LibraryError` where the parent holds
    /// no secret or the lengths are not those of the ciphersuite of the
    /// tree, and where the secret of the parent is too short to derive from.
    fn derive_down(&mut self, ciphersuite: Ciphersuite, backend: &OpenMlsRustCrypto, index_in_tree: ParentNodeIndex) -> (r: Result<(), SecretTreeError>)
        requires
            old(self).wf(),
            index_in_tree.0 < old(self).n() - 1,
        ensures
            !ciphersuite.spec_same_lengths(old(self).ciphersuite) ==> r == Err::<(), SecretTreeError>(SecretTreeError::LibraryError),
            final(self).wf(),
            final(self)@ == old(self)@,
            final(self).ciphersuite == old(self).ciphersuite,
            final(self).size == old(self).size,
            final(self).own_index == old(self).own_index,
            final(self).root@ == old(self).root@,
            !old(self).parent_holds_secret(index_in_tree.0 as nat) ==> r == Err::<(), SecretTreeError>(SecretTreeError::LibraryError),
            r is Ok ==> final(self).levels() == levels_after_derive(old(self).levels(), index_in_tree.0 as nat) && can_derive(old(self).root@),
            r is Ok ==> !final(self).parent_holds_secret(index_in_tree.0 as nat),
            r is Err ==> *final(self) == *old(self),
            r matches Err(e) ==> !old(self).parent_holds_secret(index_in_tree.0 as nat) || !ciphersuite.spec_same_lengths(old(self).ciphersuite) || (e
                == SecretTreeError::CryptoError(CryptoError::CryptoLibraryError) && !can_derive(old(self).root@)),
    {
        if self.parent_nodes[index_in_tree.usize()].is_none() || !ciphersuite.same_lengths(self.ciphersuite) {
            return Err(SecretTreeError::LibraryError);
        }
        let ghost p = index_in_tree.0 as nat;
        let ghost top = self.parent_nodes@[p as int].unwrap().secret@;
        proof {
            self.size.lemma_wf();
            lemma_parent_range_in_tree(p, self.n());
            let l = (p + 1 - span(p)) as nat;
            self.lemma_populated_parent(p, l);
            lemma_label_lengths();
            let length = ciphersuite.spec_hash_length();
            if can_derive(top) {
                lemma_derivation_succeeds(top, "tree".spec_bytes(), "left".spec_bytes(), length);
                lemma_derivation_succeeds(top, "tree".spec_bytes(), "right".spec_bytes(), length);
            } else {
                lemma_derivation_fails(top, "tree".spec_bytes(), "left".spec_bytes(), length);
                lemma_derivation_fails(top, "tree".spec_bytes(), "right".spec_bytes(), length);
            }
        }
        let hash_len: usize = ciphersuite.hash_length();
        let derived = match &self.parent_nodes[index_in_tree.usize()] {
            Some(node) => {
                let left_secret = node.secret.kdf_expand_label(backend, "tree", "left".as_bytes(), hash_len);
                let right_secret = node.secret.kdf_expand_label(backend, "tree", "right".as_bytes(), hash_len);
                (left_secret, right_secret)
            },
            None => {
                assert(false);
                return Err(SecretTreeError::LibraryError);
            },
        };
        match derived {
            (Ok(left_secret), Ok(right_secret)) => {
                self.install_children(index_in_tree, left_secret, right_secret);
                proof {
                    // the parent holds no secret any more
                    let l = (p + 1 - span(p)) as nat;
                    lemma_ancestor_unique(p, l);
                    assert(self.leaf_ok(l as int));
                    if span(p) >= 2 {
                        lemma_children_spans(p);
                    }
                }
                Ok(())
            },
            (Err(e), _) => Err(SecretTreeError::CryptoError(e)),
            (_, Err(e)) => Err(SecretTreeError::CryptoError(e)),
        }
    }

    /// The ratchets of a leaf are both there or both not.
    proof fn lemma_ratchets_together(&self, l: int)
        requires
            self.wf(),
            0 <= l < self.n(),
        ensures
            self.handshake_sender_ratchets@[l] is Some <==> self@.ratchets[l] is Some,
            self.application_sender_ratchets@[l] is Some <==> self@.ratchets[l] is Some,
            self@.ratchets[l] is Some <==> self.front@[l] == -1,
            self@.ratchets[l] matches Some(ratchets) ==> ratchets.handshake == self.handshake_sender_ratchets@[l].unwrap()@ && ratchets.application
                == self.application_sender_ratchets@[l].unwrap()@,
            self@.ratchets.len() == self.n(),
            self@.leaf_count == self.n(),
            self@.root == self.root@,
            self@.own_index == self.own_index.0,
            self.n() == self.size.spec_leaf_count(),
            self.root@.ciphersuite == self.ciphersuite,
    {
        assert(self.leaf_ok(l));
    }

    /// Derives the secrets on the way from the lowest parent above a leaf
    /// that holds a secret down to the leaf.
    fn derive_to_leaf(&mut self, ciphersuite: Ciphersuite, backend: &OpenMlsRustCrypto, index: LeafNodeIndex) -> (r: Result<(), SecretTreeError>)
        requires
            old(self).wf(),
            index.0 < old(self).n(),
            ciphersuite.spec_same_lengths(old(self).ciphersuite),
            old(self).front@[index.0 as int] >= 1,
        ensures
            final(self).wf(),
            final(self)@ == old(self)@,
            final(self).ciphersuite == old(self).ciphersuite,
            final(self).size == old(self).size,
            final(self).own_index == old(self).own_index,
            final(self).root@ == old(self).root@,
            r is Ok ==> final(self).front@[index.0 as int] == 0,
            r is Ok ==> final(self).levels() == levels_after_descent(old(self).levels(), index.0 as nat, old(self).levels()[index.0 as int] as nat),
            r is Err ==> final(self).levels() == old(self).levels(),
            r matches Err(e) ==> e == SecretTreeError::CryptoError(CryptoError::CryptoLibraryError) && !can_derive(old(self).root@),
    {
        let ghost l = index.0 as nat;
        let ghost n = self.n();
        let ghost start = self.front@[l as int] as nat;
        proof {
            self.size.lemma_wf();
            assert(self.leaf_ok(l as int));
        }
        let path = direct_path(index, self.size);
        // the lowest parent above the leaf that holds a secret
        let mut found: usize = 0;
        while found < path.len() && self.parent_nodes[path[found].usize()].is_none()
            invariant
                self.wf(),
                n == self.n(),
                l < n,
                found <= path@.len(),
                path@.len() == log2(n),
                forall|t: int| 0 <= t < path@.len() ==> (#[trigger] path@[t]).0 == ancestor(l, pow2(t as nat)),
                forall|t: int| 0 <= t < path@.len() ==> (#[trigger] path@[t]).0 < n - 1,
                forall|t: int| 0 <= t < path@.len() ==> 2 * #[trigger] pow2(t as nat) <= n,
                forall|t: int| 0 <= t < found ==> self.front@[l as int] != #[trigger] pow2(t as nat),
            decreases path@.len() - found,
        {
            proof {
                lemma_pow2_is_pow2(found as nat);
                assert(self.leaf_ok(l as int));
                assert(path@[found as int].0 == ancestor(l, pow2(found as nat)));
            }
            found = found + 1;
        }
        if found >= path.len() {
            proof {
                // some parent above the leaf holds a secret
                let f = self.front@[l as int] as nat;
                assert(self.leaf_ok(l as int));
                lemma_pow2_log2(f);
                crate::tree_math::lemma_log2_below(f, n);
                assert(self.front@[l as int] != pow2(log2(f)));
                assert(false);
            }
            return Err(SecretTreeError::LibraryError);
        }
        proof {
            lemma_pow2_is_pow2(found as nat);
            assert(self.leaf_ok(l as int));
            assert(path@[found as int].0 == ancestor(l, pow2(found as nat)));
            assert(self.front@[l as int] == pow2(found as nat));
        }
        // from there down to the leaf
        let mut level: usize = found + 1;
        while level > 0
            invariant
                self.wf(),
                self@ == old(self)@,
                self.ciphersuite == old(self).ciphersuite,
                self.size == old(self).size,
                self.own_index == old(self).own_index,
                self.root@ == old(self).root@,
                ciphersuite.spec_same_lengths(self.ciphersuite),
                n == self.n(),
                l < n,
                level <= path@.len(),
                path@.len() == log2(n),
                forall|t: int| 0 <= t < path@.len() ==> (#[trigger] path@[t]).0 == ancestor(l, pow2(t as nat)),
                forall|t: int| 0 <= t < path@.len() ==> (#[trigger] path@[t]).0 < n - 1,
                forall|t: int| 0 <= t < path@.len() ==> 2 * #[trigger] pow2(t as nat) <= n,
                level > 0 ==> self.front@[l as int] == pow2((level - 1) as nat),
                level == 0 ==> self.front@[l as int] == 0,
                self.front@ == old(self).front@ || can_derive(self.root@),
                levels_after_descent(self.front@, l, self.front@[l as int] as nat) == levels_after_descent(old(self).front@, l, start),
            decreases level,
        {
            level = level - 1;
            let parent: ParentNodeIndex = path[level];
            let ghost current = self.front@;
            proof {
                lemma_pow2_is_pow2(level as nat);
                assert(self.leaf_ok(l as int));
                assert(path@[level as int].0 == ancestor(l, pow2(level as nat)));
                lemma_span_of_ancestor(l, pow2(level as nat));
                self.size.lemma_wf();
                lemma_ancestor_in_tree(l, pow2(level as nat), n);
                assert(self.parent_holds_secret(parent.0 as nat));
            }
            match self.derive_down(ciphersuite, backend, parent) {
                Err(e) => {
                    return Err(e);
                },
                Ok(()) => {},
            }
            proof {
                if level > 0 {
                    assert(pow2(level as nat) / 2 == pow2((level - 1) as nat));
                } else {
                    assert(pow2(0) / 2 == 0);
                }
                assert(self.front@ == levels_after_derive(current, ancestor(l, pow2(level as nat))));
                assert(levels_after_descent(current, l, pow2(level as nat)) == levels_after_descent(self.front@, l, pow2(level as nat) / 2));
            }
        }
        Ok(())
    }

    /// Makes the ratchets of a leaf of the secret that the leaf holds, and
    /// takes the secret away.
    fn ratchets_from_leaf(&mut self, ciphersuite: Ciphersuite, backend: &OpenMlsRustCrypto, index: LeafNodeIndex) -> (r: Result<(), SecretTreeError>)
        requires
            old(self).wf(),
            index.0 < old(self).n(),
            ciphersuite.spec_same_lengths(old(self).ciphersuite),
            old(self).front@[index.0 as int] == 0,
        ensures
            final(self).wf(),
            final(self).ciphersuite == old(self).ciphersuite,
            final(self).size == old(self).size,
            final(self).own_index == old(self).own_index,
            final(self).root@ == old(self).root@,
            r is Ok ==> final(self)@ == with_ratchets(old(self)@, index.0 as nat, initial_ratchets(old(self)@, index.0 as nat)) && can_derive(old(self).root@),
            r is Ok ==> final(self).levels() == old(self).levels().update(index.0 as int, -1),
            r is Err ==> final(self).levels() == old(self).levels(),
            r matches Err(e) ==> e == SecretTreeError::CryptoError(CryptoError::CryptoLibraryError) && !can_derive(old(self).root@) && final(self)@ == old(self)@,
    {
        let ghost before = *self;
        let ghost l = index.0 as int;
        let ghost n = self.n();
        let ghost leaf_secret = self.leaf_nodes@[l].unwrap().secret@;
        proof {
            self.size.lemma_wf();
            assert(self.leaf_ok(l));
            lemma_label_lengths();
            let length = ciphersuite.spec_hash_length();
            if can_derive(leaf_secret) {
                lemma_derivation_succeeds(leaf_secret, "handshake".spec_bytes(), Seq::empty(), length);
                lemma_derivation_succeeds(leaf_secret, "application".spec_bytes(), Seq::empty(), length);
            } else {
                lemma_derivation_fails(leaf_secret, "handshake".spec_bytes(), Seq::empty(), length);
                lemma_derivation_fails(leaf_secret, "application".spec_bytes(), Seq::empty(), length);
            }
        }
        let hash_len: usize = ciphersuite.hash_length();
        let empty: Vec<u8> = Vec::new();
        let derived = match &self.leaf_nodes[index.usize()] {
            Some(node) => {
                let handshake = node.secret.kdf_expand_label(backend, "handshake", empty.as_slice(), hash_len);
                let application = node.secret.kdf_expand_label(backend, "application", empty.as_slice(), hash_len);
                (handshake, application)
            },
            None => {
                assert(false);
                return Err(SecretTreeError::LibraryError);
            },
        };
        let (handshake_secret, application_secret) = match derived {
            (Ok(handshake), Ok(application)) => (handshake, application),
            (Err(e), _) => {
                return Err(SecretTreeError::CryptoError(e));
            },
            (_, Err(e)) => {
                return Err(SecretTreeError::CryptoError(e));
            },
        };
        let own: bool = index.u32() == self.own_index.u32();
        let (handshake_ratchet, application_ratchet) = if own {
            (
                SenderRatchet::EncryptionRatchet(RatchetSecret::initial_ratchet_secret(handshake_secret)),
                SenderRatchet::EncryptionRatchet(RatchetSecret::initial_ratchet_secret(application_secret)),
            )
        } else {
            (
                SenderRatchet::DecryptionRatchet(DecryptionRatchet::new(handshake_secret)),
                SenderRatchet::DecryptionRatchet(DecryptionRatchet::new(application_secret)),
            )
        };
        self.handshake_sender_ratchets.set(index.usize(), Some(handshake_ratchet));
        self.application_sender_ratchets.set(index.usize(), Some(application_ratchet));
        // the secret of the leaf is not needed any more
        self.leaf_nodes.set(index.usize(), None);
        self.front = Ghost(before.front@.update(l, -1));
        proof {
            assert forall|k: int| 0 <= k < self.n() implies #[trigger] self.leaf_ok(k) by {
                assert(before.leaf_ok(k));
                assert forall|g: nat| is_pow2(g) && 2 * g <= n implies (self.parent_nodes@[#[trigger] ancestor(k as nat, g) as int] is Some <==> self.front@[k] == g) by {
                    assert(before.parent_nodes@[ancestor(k as nat, g) as int] is Some <==> before.front@[k] == g);
                }
            }
            assert(self@.ratchets =~= with_ratchets(before@, index.0 as nat, initial_ratchets(before@, index.0 as nat)).ratchets);
        }
        Ok(())
    }

    /// Derives the ratchets of the member at a leaf, where they were not
    /// derived yet, and takes away the secrets they were derived from.
    fn initialize_sender_ratchets(&mut self, ciphersuite: Ciphersuite, backend: &OpenMlsRustCrypto, index: LeafNodeIndex) -> (r: Result<(), SecretTreeError>)
        requires
            old(self).wf(),
        ensures
            final(self).wf(),
            r is Ok == ratchet_obstacle(old(self)@, ciphersuite, index.0 as nat) is None,
            r matches Err(e) ==> ratchet_obstacle(old(self)@, ciphersuite, index.0 as nat) == Some(e) && final(self)@ == old(self)@,
            r is Ok ==> final(self)@ == with_ratchets(old(self)@, index.0 as nat, ratchets_of(old(self)@, index.0 as nat)),
            r is Ok ==> final(self).levels() == levels_after_ratchets(old(self).levels(), index.0 as nat),
            r is Err ==> final(self).levels() == old(self).levels(),
    {
        let ghost before = *self;
        if index.u32() >= self.size.leaf_count() {
            return Err(SecretTreeError::IndexOutOfBounds);
        }
        if !ciphersuite.same_lengths(self.ciphersuite) {
            return Err(SecretTreeError::LibraryError);
        }
        proof {
            self.lemma_ratchets_together(index.0 as int);
        }
        if self.handshake_sender_ratchets[index.usize()].is_some() && self.application_sender_ratchets[index.usize()].is_some() {
            assert(self@.ratchets =~= with_ratchets(self@, index.0 as nat, ratchets_of(self@, index.0 as nat)).ratchets);
            return Ok(());
        }
        if self.leaf_nodes[index.usize()].is_none() {
            proof {
                assert(self.leaf_ok(index.0 as int));
            }
            match self.derive_to_leaf(ciphersuite, backend, index) {
                Err(e) => {
                    return Err(e);
                },
                Ok(()) => {},
            }
        }
        proof {
            assert(self.leaf_ok(index.0 as int));
            self.lemma_ratchets_together(index.0 as int);
        }
        self.ratchets_from_leaf(ciphersuite, backend, index)
    }

    /// The ratchet of a kind of the member at a leaf, if it was derived.
    /// Fails with `IndexOutOfBounds` where the leaf is not in the tree.
    pub fn ratchet_opt(&self, index: LeafNodeIndex, secret_type: SecretType) -> (r: Result<Option<&SenderRatchet>, SecretTreeError>)
        requires
            self.wf(),
        ensures
            index.0 >= self@.leaf_count ==> r == Err::<Option<&SenderRatchet>, SecretTreeError>(SecretTreeError::IndexOutOfBounds),
            index.0 < self@.leaf_count ==> r is Ok && r.unwrap() is Some == self@.ratchets[index.0 as int] is Some,
            index.0 < self@.leaf_count && r.unwrap() is Some ==> r.unwrap().unwrap()@ == self@.ratchets[index.0 as int].unwrap().get(secret_type) && r.unwrap().unwrap().wf(),
    {
        let sender_ratchets = match secret_type {
            SecretType::HandshakeSecret => &self.handshake_sender_ratchets,
            SecretType::ApplicationSecret => &self.application_sender_ratchets,
        };
        if index.usize() < sender_ratchets.len() {
            proof {
                self.lemma_ratchets_together(index.0 as int);
                assert(self.leaf_ok(index.0 as int));
            }
            Ok(sender_ratchets[index.usize()].as_ref())
        } else {
            Err(SecretTreeError::IndexOutOfBounds)
        }
    }

    /// The generation of the head of a ratchet of the member at a leaf of
    /// the tree; 0 where the ratchet was not derived yet.
    pub fn generation(&self, index: LeafNodeIndex, secret_type: SecretType) -> (g: Generation)
        requires
            self.wf(),
            index.0 < self@.leaf_count,
        ensures
            self@.ratchets[index.0 as int] is None ==> g == 0,
            self@.ratchets[index.0 as int] matches Some(ratchets) ==> g == ratchet_generation(ratchets.get(secret_type)),
    {
        match self.ratchet_opt(index, secret_type) {
            Ok(Some(sender_ratchet)) => sender_ratchet.generation(),
            _ => 0,
        }
    }

    /// The key material to decrypt a message of the member at leaf `index`,
    /// of the kind and generation given.
    pub fn secret_for_decryption(
        &mut self,
        ciphersuite: Ciphersuite,
        backend: &OpenMlsRustCrypto,
        index: LeafNodeIndex,
        secret_type: SecretType,
        generation: Generation,
        configuration: &SenderRatchetConfiguration,
    ) -> (r: Result<RatchetKeyMaterial, SecretTreeError>)
        requires
            old(self).wf(),
        ensures
            final(self).wf(),
            final(self)@ == spec_tree_secret_for_decryption(old(self)@, ciphersuite, index.0 as nat, secret_type, generation, *configuration).0,
            r is Ok == spec_tree_secret_for_decryption(old(self)@, ciphersuite, index.0 as nat, secret_type, generation, *configuration).1 is Ok,
            r matches Ok(material) ==> spec_tree_secret_for_decryption(old(self)@, ciphersuite, index.0 as nat, secret_type, generation, *configuration).1 == Ok::<KeyMaterialView, SecretTreeError>(material@),
            r matches Err(e) ==> spec_tree_secret_for_decryption(old(self)@, ciphersuite, index.0 as nat, secret_type, generation, *configuration).1 == Err::<KeyMaterialView, SecretTreeError>(e),
            final(self).levels() == (if ratchet_obstacle(old(self)@, ciphersuite, index.0 as nat) is None {
                levels_after_ratchets(old(self).levels(), index.0 as nat)
            } else {
                old(self).levels()
            }),
    {
        proof {
            old(self).lemma_wf();
        }
        match self.initialize_sender_ratchets(ciphersuite, backend, index) {
            Err(e) => {
                return Err(e);
            },
            Ok(()) => {},
        }
        proof {
            lemma_decryption_after_derivation(old(self)@, ciphersuite, index.0 as nat, secret_type, generation, *configuration);
        }
        self.decrypt_with_ratchet(ciphersuite, backend, index, secret_type, generation, configuration)
    }

    /// Asks a ratchet that is there for the key material to decrypt with.
    fn decrypt_with_ratchet(
        &mut self,
        ciphersuite: Ciphersuite,
        backend: &OpenMlsRustCrypto,
        index: LeafNodeIndex,
        secret_type: SecretType,
        generation: Generation,
        configuration: &SenderRatchetConfiguration,
    ) -> (r: Result<RatchetKeyMaterial, SecretTreeError>)
        requires
            old(self).wf(),
            index.0 < old(self)@.leaf_count,
            old(self)@.ratchets[index.0 as int] is Some,
        ensures
            final(self).wf(),
            final(self)@ == with_ratchets(old(self)@, index.0 as nat, old(self)@.ratchets[index.0 as int].unwrap().set(secret_type, after_decryption(old(self)@.ratchets[index.0 as int].unwrap().get(secret_type), ciphersuite, generation, *configuration).0)),
            r is Ok == after_decryption(old(self)@.ratchets[index.0 as int].unwrap().get(secret_type), ciphersuite, generation, *configuration).1 is Ok,
            r matches Ok(material) ==> after_decryption(old(self)@.ratchets[index.0 as int].unwrap().get(secret_type), ciphersuite, generation, *configuration).1 == Ok::<KeyMaterialView, SecretTreeError>(material@),
            r matches Err(e) ==> after_decryption(old(self)@.ratchets[index.0 as int].unwrap().get(secret_type), ciphersuite, generation, *configuration).1 == Err::<KeyMaterialView, SecretTreeError>(e),
            final(self).levels() == old(self).levels(),
    {
        let ghost ready = *self;
        let ghost l = index.0 as int;
        proof {
            self.lemma_ratchets_together(l);
            assert(self.leaf_ok(l));
        }
        let sender_ratchet = self.ratchet_mut(index, secret_type);
        let result = match sender_ratchet {
            SenderRatchet::EncryptionRatchet(_) => Err(SecretTreeError::RatchetTypeError),
            SenderRatchet::DecryptionRatchet(dec_ratchet) => dec_ratchet.secret_for_decryption(ciphersuite, backend, generation, configuration),
        };
        proof {
            self.lemma_ratchet_replaced(&ready, l, secret_type);
        }
        result
    }

    /// The generation and the key material to encrypt the next message of
    /// the kind given of the member at leaf `index`.
    pub fn secret_for_encryption(&mut self, ciphersuite: Ciphersuite, backend: &OpenMlsRustCrypto, index: LeafNodeIndex, secret_type: SecretType) -> (r: Result<
        (Generation, RatchetKeyMaterial),
        SecretTreeError,
    >)
        requires
            old(self).wf(),
        ensures
            final(self).wf(),
            final(self)@ == spec_tree_secret_for_encryption(old(self)@, ciphersuite, index.0 as nat, secret_type).0,
            r is Ok == spec_tree_secret_for_encryption(old(self)@, ciphersuite, index.0 as nat, secret_type).1 is Ok,
            r matches Ok(out) ==> spec_tree_secret_for_encryption(old(self)@, ciphersuite, index.0 as nat, secret_type).1 == Ok::<(Generation, KeyMaterialView), SecretTreeError>((out.0, out.1@)),
            r matches Err(e) ==> spec_tree_secret_for_encryption(old(self)@, ciphersuite, index.0 as nat, secret_type).1 == Err::<(Generation, KeyMaterialView), SecretTreeError>(e),
            final(self).levels() == (if ratchet_obstacle(old(self)@, ciphersuite, index.0 as nat) is None {
                levels_after_ratchets(old(self).levels(), index.0 as nat)
            } else {
                old(self).levels()
            }),
    {
        proof {
            old(self).lemma_wf();
        }
        match self.initialize_sender_ratchets(ciphersuite, backend, index) {
            Err(e) => {
                return Err(e);
            },
            Ok(()) => {},
        }
        proof {
            lemma_encryption_after_derivation(old(self)@, ciphersuite, index.0 as nat, secret_type);
        }
        self.encrypt_with_ratchet(ciphersuite, backend, index, secret_type)
    }

    /// Asks a ratchet that is there for the key material to encrypt with.
    fn encrypt_with_ratchet(&mut self, ciphersuite: Ciphersuite, backend: &OpenMlsRustCrypto, index: LeafNodeIndex, secret_type: SecretType) -> (r: Result<
        (Generation, RatchetKeyMaterial),
        SecretTreeError,
    >)
        requires
            old(self).wf(),
            index.0 < old(self)@.leaf_count,
            old(self)@.ratchets[index.0 as int] is Some,
        ensures
            final(self).wf(),
            final(self)@ == with_ratchets(old(self)@, index.0 as nat, old(self)@.ratchets[index.0 as int].unwrap().set(secret_type, after_encryption(old(self)@.ratchets[index.0 as int].unwrap().get(secret_type), ciphersuite).0)),
            r is Ok == after_encryption(old(self)@.ratchets[index.0 as int].unwrap().get(secret_type), ciphersuite).1 is Ok,
            r matches Ok(out) ==> after_encryption(old(self)@.ratchets[index.0 as int].unwrap().get(secret_type), ciphersuite).1 == Ok::<(Generation, KeyMaterialView), SecretTreeError>((out.0, out.1@)),
            r matches Err(e) ==> after_encryption(old(self)@.ratchets[index.0 as int].unwrap().get(secret_type), ciphersuite).1 == Err::<(Generation, KeyMaterialView), SecretTreeError>(e),
            final(self).levels() == old(self).levels(),
    {
        let ghost ready = *self;
        let ghost l = index.0 as int;
        proof {
            self.lemma_ratchets_together(l);
            assert(self.leaf_ok(l));
        }
        let sender_ratchet = self.ratchet_mut(index, secret_type);
        let result = match sender_ratchet {
            SenderRatchet::DecryptionRatchet(_) => Err(SecretTreeError::RatchetTypeError),
            SenderRatchet::EncryptionRatchet(enc_ratchet) => enc_ratchet.ratchet_forward(backend, ciphersuite),
        };
        proof {
            self.lemma_ratchet_replaced(&ready, l, secret_type);
        }
        result
    }

    /// The tree in which a ratchet of the member at leaf `l` is another
    /// than in `before`, and all else is as in `before`.
    pub closed spec fn ratchet_replaced(&self, before: &SecretTree, l: int, secret_type: SecretType) -> bool {
        &&& self.own_index == before.own_index
        &&& self.size == before.size
        &&& self.ciphersuite == before.ciphersuite
        &&& self.root@ == before.root@
        &&& self.front@ == before.front@
        &&& self.leaf_nodes@ == before.leaf_nodes@
        &&& self.parent_nodes@ == before.parent_nodes@
        &&& match secret_type {
            SecretType::HandshakeSecret => {
                &&& self.application_sender_ratchets@ == before.application_sender_ratchets@
                &&& self.handshake_sender_ratchets@.len() == before.handshake_sender_ratchets@.len()
                &&& forall|k: int| 0 <= k < self.handshake_sender_ratchets@.len() && k != l ==> self.handshake_sender_ratchets@[k] == before.handshake_sender_ratchets@[k]
                &&& self.handshake_sender_ratchets@[l] is Some
                &&& is_same_ratchet(self.handshake_sender_ratchets@[l].unwrap(), before.handshake_sender_ratchets@[l].unwrap())
            },
            SecretType::ApplicationSecret => {
                &&& self.handshake_sender_ratchets@ == before.handshake_sender_ratchets@
                &&& self.application_sender_ratchets@.len() == before.application_sender_ratchets@.len()
                &&& forall|k: int| 0 <= k < self.application_sender_ratchets@.len() && k != l ==> self.application_sender_ratchets@[k] == before.application_sender_ratchets@[k]
                &&& self.application_sender_ratchets@[l] is Some
                &&& is_same_ratchet(self.application_sender_ratchets@[l].unwrap(), before.application_sender_ratchets@[l].unwrap())
            },
        }
    }

    /// A tree stays well formed where a ratchet is replaced by a later state
    /// of itself.
    proof fn lemma_ratchet_replaced(&self, before: &SecretTree, l: int, secret_type: SecretType)
        requires
            before.wf(),
            0 <= l < before.n(),
            before.front@[l] == -1,
            self.ratchet_replaced(before, l, secret_type),
        ensures
            self.wf(),
            self@ == with_ratchets(before@, l as nat, before@.ratchets[l].unwrap().set(secret_type, self.ratchet_at(l, secret_type)@)),
    {
        assert forall|k: int| 0 <= k < self.n() implies #[trigger] self.leaf_ok(k) by {
            assert(before.leaf_ok(k));
            assert forall|g: nat| is_pow2(g) && 2 * g <= self.n() implies (self.parent_nodes@[#[trigger] ancestor(k as nat, g) as int] is Some <==> self.front@[k] == g) by {
                assert(before.parent_nodes@[ancestor(k as nat, g) as int] is Some <==> before.front@[k] == g);
            }
        }
        assert(self@.ratchets =~= with_ratchets(before@, l as nat, before@.ratchets[l].unwrap().set(secret_type, self.ratchet_at(l, secret_type)@)).ratchets);
    }

    /// The ratchet of a kind of the member at leaf `l`.
    pub closed spec fn ratchet_at(&self, l: int, secret_type: SecretType) -> SenderRatchet {
        match secret_type {
            SecretType::HandshakeSecret => self.handshake_sender_ratchets@[l].unwrap(),
            SecretType::ApplicationSecret => self.application_sender_ratchets@[l].unwrap(),
        }
    }

    /// The ratchet of a kind of the member at a leaf, to be advanced. The
    /// ratchet has to be there, and to be well formed again, with the secret
    /// it started with, when the borrow ends.
    fn ratchet_mut(&mut self, index: LeafNodeIndex, secret_type: SecretType) -> (r: &mut SenderRatchet)
        requires
            old(self).shape_ok(),
            index.0 < old(self).n(),
            old(self).handshake_sender_ratchets@[index.0 as int] is Some,
            old(self).application_sender_ratchets@[index.0 as int] is Some,
        ensures
            *r == old(self).ratchet_at(index.0 as int, secret_type),
            is_same_ratchet(*final(r), *r) ==> final(self).ratchet_replaced(old(self), index.0 as int, secret_type),
            final(self).ratchet_at(index.0 as int, secret_type) == *final(r),
    {
        let sender_ratchets = match secret_type {
            SecretType::HandshakeSecret => &mut self.handshake_sender_ratchets,
            SecretType::ApplicationSecret => &mut self.application_sender_ratchets,
        };
        match &mut sender_ratchets[index.usize()] {
            Some(sender_ratchet) => sender_ratchet,
            None => unreached(),
        }
    }
}

/// The generation of the head of a ratchet.
pub open spec fn ratchet_generation(ratchet: RatchetView) -> nat {
    match ratchet {
        RatchetView::Encryption(chain) => chain.generation,
        RatchetView::Decryption(ratchet) => ratchet.head.generation,
    }
}

/// Whether a ratchet is a later state of another: well formed, of the same
/// kind and with the same first secret.
pub open spec fn is_same_ratchet(after: SenderRatchet, before: SenderRatchet) -> bool {
    &&& after.wf()
    &&& after.spec_base() == before.spec_base()
    &&& after is EncryptionRatchet <==> before is EncryptionRatchet
}

impl SecretTree {
    /// Whether the leaf `l` holds a secret.
    pub closed spec fn leaf_holds_secret(&self, l: nat) -> bool {
        l < self.leaf_nodes@.len() && self.leaf_nodes@[l as int] is Some
    }

    /// Whether the parent `p` holds a secret.
    pub closed spec fn parent_holds_secret(&self, p: nat) -> bool {
        p < self.parent_nodes@.len() && self.parent_nodes@[p as int] is Some
    }

    /// The levels of a tree say which nodes hold secrets: over a leaf whose
    /// ratchets were derived none does; over another the node that its
    /// level names does, and no other.
    pub proof fn lemma_levels_are_occupancy(&self, l: nat, g: nat)
        requires
            self.wf(),
            l < self@.leaf_count,
            is_pow2(g),
            2 * g <= self@.leaf_count,
        ensures
            self.levels().len() == self@.leaf_count,
            self@.ratchets[l as int] is Some <==> self.levels()[l as int] == -1,
            self.leaf_holds_secret(l) <==> self.levels()[l as int] == 0,
            self.parent_holds_secret(ancestor(l, g)) <==> self.levels()[l as int] == g,
    {
        self.lemma_ratchets_together(l as int);
        assert(self.leaf_ok(l as int));
        self.size.lemma_wf();
        lemma_ancestor_in_tree(l, g, self.n());
    }

    /// Once the ratchets of a member were derived, neither its leaf nor a
    /// parent above its leaf holds a secret: what the ratchets were derived
    /// from cannot be derived again.
    pub proof fn lemma_derived_secrets_are_gone(&self, l: nat, p: nat)
        requires
            self.wf(),
            l < self@.leaf_count,
            self@.ratchets[l as int] is Some,
            parent_covers(p, l),
        ensures
            !self.leaf_holds_secret(l),
            !self.parent_holds_secret(p),
    {
        self.lemma_ratchets_together(l as int);
        assert(self.leaf_ok(l as int));
        if p < self.n() - 1 {
            self.size.lemma_wf();
            lemma_parent_range_in_tree(p, self.n());
            lemma_ancestor_unique(p, l);
        }
    }

    /// While the ratchets of a member are yet to be derived, exactly one of
    /// its leaf and the parents above its leaf holds a secret: of two nodes
    /// of which one is above the other only one holds a secret.
    pub proof fn lemma_one_secret_above_a_leaf(&self, l: nat, p: nat, q: nat)
        requires
            self.wf(),
            l < self@.leaf_count,
            parent_covers(p, l),
            parent_covers(q, l),
            self.parent_holds_secret(p),
        ensures
            !self.leaf_holds_secret(l),
            self.parent_holds_secret(q) ==> q == p,
            self@.ratchets[l as int] is None,
    {
        self.lemma_ratchets_together(l as int);
        assert(self.leaf_ok(l as int));
        self.size.lemma_wf();
        lemma_parent_range_in_tree(p, self.n());
        lemma_ancestor_unique(p, l);
        if self.parent_holds_secret(q) {
            lemma_parent_range_in_tree(q, self.n());
            lemma_ancestor_unique(q, l);
        }
    }

    /// While the ratchets of a member are yet to be derived, its leaf or a
    /// parent above its leaf holds a secret to derive them from.
    pub proof fn lemma_secret_above_a_leaf(&self, l: nat) -> (p: nat)
        requires
            self.wf(),
            l < self@.leaf_count,
            self@.ratchets[l as int] is None,
        ensures
            self.leaf_holds_secret(l) || (parent_covers(p, l) && self.parent_holds_secret(p)),
    {
        self.lemma_ratchets_together(l as int);
        assert(self.leaf_ok(l as int));
        self.size.lemma_wf();
        let f = self.front@[l as int];
        if f >= 1 {
            lemma_span_of_ancestor(l, f as nat);
            lemma_ancestor_in_tree(l, f as nat, self.n());
            ancestor(l, f as nat)
        } else {
            0
        }
    }

    /// The ratchets of a well-formed tree are those of the tree.
    pub proof fn lemma_ratchets_are_of_tree(&self)
        requires
            self.wf(),
        ensures
            ratchets_are_of_tree(self@),
    {
        self.lemma_wf();
        assert forall|l: int| 0 <= l < self@.leaf_count implies #[trigger] leaf_ratchets_are_of_tree(self@, l) by {
            assert(self.leaf_ok(l));
            if self.front@[l] == -1 {
                match self.handshake_sender_ratchets@[l].unwrap() {
                    SenderRatchet::DecryptionRatchet(ratchet) => {
                        ratchet.lemma_wf();
                    },
                    SenderRatchet::EncryptionRatchet(_) => {},
                }
                match self.application_sender_ratchets@[l].unwrap() {
                    SenderRatchet::DecryptionRatchet(ratchet) => {
                        ratchet.lemma_wf();
                    },
                    SenderRatchet::EncryptionRatchet(_) => {},
                }
            }
        }
    }
}

/// Whether a ratchet is of the chain that starts with `base`, is of the
/// kind that the member has, and keeps key material of its chain only.
pub open spec fn ratchet_is_of_chain(ratchet: RatchetView, base: SecretView, own: bool) -> bool {
    match ratchet {
        RatchetView::Encryption(chain) => own && chain.base == base,
        RatchetView::Decryption(inner) => !own && inner.head.base == base && crate::sender_ratchet::window_is_of_chain(inner),
    }
}

/// Whether the ratchets of the member at leaf `l`, where they were derived,
/// are of the chains that start with the secrets derived for that member.
pub open spec fn leaf_ratchets_are_of_tree(tree: SecretTreeView, l: int) -> bool {
    tree.ratchets[l] matches Some(ratchets) ==> {
        &&& ratchet_is_of_chain(ratchets.handshake, ratchet_base(tree.root, tree.leaf_count, l as nat, SecretType::HandshakeSecret), l == tree.own_index)
        &&& ratchet_is_of_chain(ratchets.application, ratchet_base(tree.root, tree.leaf_count, l as nat, SecretType::ApplicationSecret), l == tree.own_index)
    }
}

/// Whether all ratchets of a tree are of the chains that start with the
/// secrets derived for their members from the encryption secret.
pub open spec fn ratchets_are_of_tree(tree: SecretTreeView) -> bool {
    &&& tree.ratchets.len() == tree.leaf_count
    &&& forall|l: int| 0 <= l < tree.leaf_count ==> #[trigger] leaf_ratchets_are_of_tree(tree, l)
}

/// Key material that a tree hands out to decrypt with is that of the
/// generation asked for in the chain of the member and the kind: it depends
/// on the encryption secret, the size of the tree, the leaf, the kind and
/// the generation only, so that all members of a group derive the same.
pub proof fn lemma_decryption_key_material(
    tree: SecretTreeView,
    ciphersuite: Ciphersuite,
    index: nat,
    secret_type: SecretType,
    generation: Generation,
    configuration: SenderRatchetConfiguration,
)
    requires
        ratchets_are_of_tree(tree),
    ensures
        ratchets_are_of_tree(spec_tree_secret_for_decryption(tree, ciphersuite, index, secret_type, generation, configuration).0),
        spec_tree_secret_for_decryption(tree, ciphersuite, index, secret_type, generation, configuration).1 matches Ok(material) ==> material
            == crate::sender_ratchet::key_material_at(ratchet_base(tree.root, tree.leaf_count, index, secret_type), generation as nat),
{
    let next = spec_tree_secret_for_decryption(tree, ciphersuite, index, secret_type, generation, configuration);
    if ratchet_obstacle(tree, ciphersuite, index) is None {
        assert(leaf_ratchets_are_of_tree(tree, index as int));
        let ratchets = ratchets_of(tree, index);
        match ratchets.get(secret_type) {
            RatchetView::Decryption(inner) => {
                crate::sender_ratchet::lemma_decryption_is_of_chain(inner, ciphersuite, generation, configuration);
            },
            RatchetView::Encryption(_) => {},
        }
        assert forall|l: int| 0 <= l < next.0.leaf_count implies #[trigger] leaf_ratchets_are_of_tree(next.0, l) by {
            assert(leaf_ratchets_are_of_tree(tree, l));
        }
    }
}

/// Key material that a tree hands out to encrypt with is that of the
/// generation handed out with it in the chain of the member and the kind:
/// the key material that the other members derive to decrypt with.
pub proof fn lemma_encryption_key_material(tree: SecretTreeView, ciphersuite: Ciphersuite, index: nat, secret_type: SecretType)
    requires
        ratchets_are_of_tree(tree),
    ensures
        ratchets_are_of_tree(spec_tree_secret_for_encryption(tree, ciphersuite, index, secret_type).0),
        spec_tree_secret_for_encryption(tree, ciphersuite, index, secret_type).1 matches Ok(out) ==> out.1 == crate::sender_ratchet::key_material_at(
            ratchet_base(tree.root, tree.leaf_count, index, secret_type),
            out.0 as nat,
        ),
{
    let next = spec_tree_secret_for_encryption(tree, ciphersuite, index, secret_type);
    if ratchet_obstacle(tree, ciphersuite, index) is None {
        assert(leaf_ratchets_are_of_tree(tree, index as int));
        assert forall|l: int| 0 <= l < next.0.leaf_count implies #[trigger] leaf_ratchets_are_of_tree(next.0, l) by {
            assert(leaf_ratchets_are_of_tree(tree, l));
        }
    }
}

/// Key material that a tree has handed out to decrypt a message of a
/// member, a kind and a generation is refused when asked for again, with
/// `SecretReuseError` where the configuration keeps a window at all.
pub proof fn lemma_tree_second_decryption_fails(
    tree: SecretTreeView,
    ciphersuite: Ciphersuite,
    index: nat,
    secret_type: SecretType,
    generation: Generation,
    configuration: SenderRatchetConfiguration,
)
    requires
        tree.ratchets.len() == tree.leaf_count,
        spec_tree_secret_for_decryption(tree, ciphersuite, index, secret_type, generation, configuration).1 is Ok,
    ensures
        spec_tree_secret_for_decryption(
            spec_tree_secret_for_decryption(tree, ciphersuite, index, secret_type, generation, configuration).0,
            ciphersuite,
            index,
            secret_type,
            generation,
            configuration,
        ).1 is Err,
        configuration.out_of_order_tolerance >= 1 ==> spec_tree_secret_for_decryption(
            spec_tree_secret_for_decryption(tree, ciphersuite, index, secret_type, generation, configuration).0,
            ciphersuite,
            index,
            secret_type,
            generation,
            configuration,
        ).1 == Err::<KeyMaterialView, SecretTreeError>(SecretTreeError::SecretReuseError),
{
    let ratchets = ratchets_of(tree, index);
    match ratchets.get(secret_type) {
        RatchetView::Decryption(inner) => {
            crate::sender_ratchet::lemma_decryption_consumes(inner, ciphersuite, generation, configuration);
            let after = spec_secret_for_decryption(inner, ciphersuite, generation, configuration).0;
            crate::sender_ratchet::lemma_consumed_is_refused(after, ciphersuite, generation, configuration);
            if configuration.out_of_order_tolerance >= 1 {
                crate::sender_ratchet::lemma_second_decryption_fails(inner, ciphersuite, generation, configuration);
            }
        },
        RatchetView::Encryption(_) => {},
    }
}

/// A parent of a tree has all its leaves in the tree.
pub proof fn lemma_parent_range_in_tree(p: nat, n: nat)
    requires
        is_pow2(n),
        p + 1 < n,
    ensures
        is_pow2(span(p)),
        1 <= span(p) <= p + 1,
        2 * span(p) <= n,
        p + 1 + span(p) <= n,
{
    let f = span(p);
    lemma_low_bit_is_pow2(p + 1);
    crate::tree_math::lemma_pow2_below(f, n);
    let q = crate::tree_math::lemma_low_bit_factor(p + 1);
    assert(is_pow2(2 * f)) by {
        assert((2 * f) / 2 == f);
    }
    let m = lemma_pow2_divides(2 * f, n);
    assert(q < 2 * m) by (nonlinear_arith)
        requires
            p + 1 == f * q,
            n == (2 * f) * m,
            p + 1 < n,
            f >= 1,
    ;
    assert(f * q + f <= (2 * f) * m) by (nonlinear_arith)
        requires
            q + 1 <= 2 * m,
            f >= 1,
    ;
}

/// In a tree of `2 * half` leaves the parent above every leaf with `half`
/// leaves under each child is the root.
pub proof fn lemma_root_is_above(l: nat, half: nat)
    requires
        half >= 1,
        l < 2 * half,
    ensures
        ancestor(l, half) == half - 1,
{
    vstd::arithmetic::div_mod::lemma_fundamental_div_mod_converse(l as int, (2 * half) as int, 0, l as int);
    assert((l / (2 * half)) * (2 * half) == 0) by (nonlinear_arith)
        requires
            l / (2 * half) == 0,
    ;
}

/// The parents above the leaves of a tree are in the tree.
pub proof fn lemma_ancestor_in_tree(l: nat, g: nat, n: nat)
    requires
        is_pow2(g),
        is_pow2(n),
        2 * g <= n,
        l < n,
    ensures
        ancestor(l, g) < n - 1,
{
    crate::tree_math::lemma_ancestor_covers(l, g);
    let w = 2 * g;
    let j = l / w;
    // the tree is made of whole blocks of `w` leaves
    let m = lemma_pow2_divides(w, n);
    assert(j < m) by (nonlinear_arith)
        requires
            j * w <= l,
            l < n,
            n == w * m,
            w >= 1,
    ;
    assert(j * w + w <= w * m) by (nonlinear_arith)
        requires
            j < m,
            w >= 1,
    ;
}

/// A power of two divides every power of two that is not less.
pub proof fn lemma_pow2_divides(w: nat, n: nat) -> (m: nat)
    requires
        is_pow2(w),
        is_pow2(n),
        w <= n,
    ensures
        n == w * m,
        m >= 1,
    decreases n,
{
    if w == n {
        assert(n == w * 1) by (nonlinear_arith)
            requires
                w == n,
        ;
        1
    } else {
        crate::tree_math::lemma_pow2_below(w, n);
        let half = lemma_pow2_divides(w, n / 2);
        assert(n == w * (2 * half)) by (nonlinear_arith)
            requires
                n / 2 == w * half,
                n % 2 == 0,
        ;
        2 * half
    }
}

} // verus!
