//! The ratchet tree of a group: the leaf nodes of its members and the
//! parent nodes above them, and the hash of the tree, which the members of
//! a group agree on.

use vstd::prelude::*;
use openmls_rust_crypto::OpenMlsRustCrypto;
use crate::bytes::copy_bytes;
use crate::codec::append_u32;
use crate::codec::append_u32_list;
use crate::codec::append_u8;
use crate::codec::append_vector;
use crate::codec::u32_encoding;
use crate::codec::u32_list_encoding;
use crate::codec::u8_encoding;
use crate::codec::vector_encoding;
use crate::codec::MAX_VECTOR_LENGTH;
use crate::keys::EncryptionKey;
use crate::leaf_node::leaf_node_encodable;
use crate::leaf_node::leaf_node_encoding;
use crate::leaf_node::LeafNode;
use crate::leaf_node::LeafNodeView;
use crate::provider::hash_digest;
use crate::provider::provider_hash;
use crate::secret::with_length;
use crate::tree_math::is_pow2;
use crate::tree_math::lemma_children_spans;
use crate::tree_math::lemma_low_bit_is_pow2;
use crate::tree_math::lemma_low_bit_odd_multiple;
use crate::tree_math::span;
use crate::tree_math::LeafNodeIndex;
use crate::tree_math::TreeSize;
use crate::types::HashType;

verus! {

/// What a parent node is: its public key, the hash of its parent, and the
/// leaves below it that were added since it was last given a key.
pub struct ParentNodeView {
    pub encryption_key: Seq<u8>,
    pub parent_hash: Seq<u8>,
    pub unmerged_leaves: Seq<u32>,
}

/// A parent node of the ratchet tree.
#[derive(Debug, PartialEq, Eq)]
pub struct ParentNode {
    pub encryption_key: EncryptionKey,
    pub parent_hash: Vec<u8>,
    pub unmerged_leaves: Vec<u32>,
}

impl View for ParentNode {
    type V = ParentNodeView;

    open spec fn view(&self) -> ParentNodeView {
        ParentNodeView { encryption_key: self.encryption_key@, parent_hash: self.parent_hash@, unmerged_leaves: self.unmerged_leaves@ }
    }
}

/// The encoding of a parent node.
pub open spec fn parent_node_encoding(parent: ParentNodeView) -> Seq<u8> {
    vector_encoding(parent.encryption_key) + vector_encoding(parent.parent_hash) + u32_list_encoding(parent.unmerged_leaves)
}

/// Whether a parent node can be encoded.
pub open spec fn parent_node_encodable(parent: ParentNodeView) -> bool {
    &&& parent.encryption_key.len() <= MAX_VECTOR_LENGTH
    &&& parent.parent_hash.len() <= MAX_VECTOR_LENGTH
    &&& 4 * parent.unmerged_leaves.len() <= MAX_VECTOR_LENGTH
}

impl ParentNode {
    /// A copy of the parent node.
    pub fn duplicate(&self) -> (p: Self)
        ensures
            p@ == self@,
    {
        ParentNode {
            encryption_key: self.encryption_key.duplicate(),
            parent_hash: copy_bytes(self.parent_hash.as_slice()),
            unmerged_leaves: vstd::slice::slice_to_vec(self.unmerged_leaves.as_slice()),
        }
    }
}

/// What is hashed for a leaf of the tree: that it is a leaf, its place, and
/// the leaf node where the leaf is not blank. Nothing where the leaf node
/// cannot be encoded.
pub open spec fn leaf_hash_input(leaf_index: u32, leaf: Option<LeafNodeView>) -> Option<Seq<u8>> {
    match leaf {
        None => Some(u8_encoding(1) + u32_encoding(leaf_index) + u8_encoding(0)),
        Some(node) => if leaf_node_encodable(node) {
            Some(u8_encoding(1) + u32_encoding(leaf_index) + u8_encoding(1) + leaf_node_encoding(node))
        } else {
            None
        },
    }
}

/// What is hashed for a parent of the tree: that it is a parent, the parent
/// node where the parent is not blank, and the hashes of its two subtrees.
/// Nothing where the parent node or a hash cannot be encoded.
pub open spec fn parent_hash_input(parent: Option<ParentNodeView>, left_hash: Seq<u8>, right_hash: Seq<u8>) -> Option<Seq<u8>> {
    if left_hash.len() > MAX_VECTOR_LENGTH || right_hash.len() > MAX_VECTOR_LENGTH {
        None
    } else {
        match parent {
            None => Some(u8_encoding(2) + u8_encoding(0) + vector_encoding(left_hash) + vector_encoding(right_hash)),
            Some(node) => if parent_node_encodable(node) {
                Some(u8_encoding(2) + u8_encoding(1) + parent_node_encoding(node) + vector_encoding(left_hash) + vector_encoding(right_hash))
            } else {
                None
            },
        }
    }
}

/// The digest of data: the output of the hash function, which has the
/// length of its outputs.
pub open spec fn digest(hash_type: HashType, data: Seq<u8>) -> Seq<u8> {
    with_length(hash_digest(hash_type, data), hash_type.spec_size())
}

/// What a ratchet tree is: its leaves and its parents, each a node or
/// blank.
pub struct RatchetTreeView {
    pub leaves: Seq<Option<LeafNodeView>>,
    pub parents: Seq<Option<ParentNodeView>>,
}

/// The hash of a leaf of a tree, where what is hashed for it can be
/// encoded.
pub open spec fn spec_leaf_tree_hash(tree: RatchetTreeView, hash_type: HashType, l: nat) -> Option<Seq<u8>> {
    match leaf_hash_input(l as u32, tree.leaves[l as int]) {
        Some(input) => Some(digest(hash_type, input)),
        None => None,
    }
}

/// The hash of the subtree below the parent `p`, whose children have `f`
/// leaves each: the digest of what is hashed for `p` with the hashes of
/// the subtrees below its children.
pub open spec fn spec_subtree_hash(tree: RatchetTreeView, hash_type: HashType, p: nat, f: nat) -> Option<Seq<u8>>
    decreases f,
{
    let left = if f <= 1 {
        spec_leaf_tree_hash(tree, hash_type, p)
    } else {
        spec_subtree_hash(tree, hash_type, (p - f / 2) as nat, f / 2)
    };
    let right = if f <= 1 {
        spec_leaf_tree_hash(tree, hash_type, p + 1)
    } else {
        spec_subtree_hash(tree, hash_type, p + f / 2, f / 2)
    };
    match (left, right) {
        (Some(left_hash), Some(right_hash)) => match parent_hash_input(tree.parents[p as int], left_hash, right_hash) {
            Some(input) => Some(digest(hash_type, input)),
            None => None,
        },
        _ => None,
    }
}

/// The hash of a tree: that of its root.
pub open spec fn spec_tree_hash(tree: RatchetTreeView, hash_type: HashType) -> Option<Seq<u8>> {
    if tree.leaves.len() <= 1 {
        spec_leaf_tree_hash(tree, hash_type, 0)
    } else {
        spec_subtree_hash(tree, hash_type, (tree.leaves.len() / 2 - 1) as nat, tree.leaves.len() / 2)
    }
}

/// What optional leaf nodes are.
pub open spec fn leaf_views(leaves: Seq<Option<LeafNode>>) -> Seq<Option<LeafNodeView>> {
    Seq::new(
        leaves.len(),
        |i: int|
            match leaves[i] {
                Some(node) => Some(node@),
                None => None,
            },
    )
}

/// What optional parent nodes are.
pub open spec fn parent_views(parents: Seq<Option<ParentNode>>) -> Seq<Option<ParentNodeView>> {
    Seq::new(
        parents.len(),
        |i: int|
            match parents[i] {
                Some(node) => Some(node@),
                None => None,
            },
    )
}

/// Why a ratchet tree is not made of nodes.
#[derive(Clone, Copy, Debug, PartialEq, Eq, Structural)]
pub enum RatchetTreeError {
    /// The number of leaves is not a power of two, or there is not one
    /// parent less than there are leaves.
    MalformedTree,
}

/// A ratchet tree.
#[derive(Debug)]
pub struct RatchetTree {
    leaf_nodes: Vec<Option<LeafNode>>,
    parent_nodes: Vec<Option<ParentNode>>,
    size: TreeSize,
}

impl View for RatchetTree {
    type V = RatchetTreeView;

    closed spec fn view(&self) -> RatchetTreeView {
        RatchetTreeView { leaves: leaf_views(self.leaf_nodes@), parents: parent_views(self.parent_nodes@) }
    }
}

impl RatchetTree {
    /// The tree is full: its leaves are a power of two in number, and its
    /// parents one less.
    pub closed spec fn wf(&self) -> bool {
        &&& self.size.wf()
        &&& self.leaf_nodes@.len() == self.size.spec_leaf_count()
        &&& self.parent_nodes@.len() == self.size.spec_leaf_count() - 1
    }

    /// The size of the tree.
    pub closed spec fn spec_size(&self) -> TreeSize {
        self.size
    }

    /// What a well-formed tree holds.
    pub proof fn lemma_wf(&self)
        requires
            self.wf(),
        ensures
            self.spec_size().wf(),
            self@.leaves.len() == self.spec_size().spec_leaf_count(),
            self@.parents.len() == self@.leaves.len() - 1,
            is_pow2(self@.leaves.len()),
    {
        self.size.lemma_wf();
    }

    /// The tree of the nodes given. Fails with `MalformedTree` where the
    /// leaves are not a power of two in number or the parents not one less.
    pub fn from_nodes(leaf_nodes: Vec<Option<LeafNode>>, parent_nodes: Vec<Option<ParentNode>>) -> (r: Result<Self, RatchetTreeError>)
        ensures
            r is Ok == (is_pow2(leaf_nodes@.len()) && leaf_nodes@.len() <= crate::tree_math::MAX_LEAF_COUNT && parent_nodes@.len() == leaf_nodes@.len() - 1),
            r matches Ok(tree) ==> tree.wf() && tree@ == (RatchetTreeView { leaves: leaf_views(leaf_nodes@), parents: parent_views(parent_nodes@) }),
            r matches Err(e) ==> e == RatchetTreeError::MalformedTree,
    {
        if leaf_nodes.len() == 0 || leaf_nodes.len() > crate::tree_math::MAX_LEAF_COUNT as usize {
            return Err(RatchetTreeError::MalformedTree);
        }
        let size = match TreeSize::from_leaf_count(leaf_nodes.len() as u32) {
            Some(size) => size,
            None => {
                return Err(RatchetTreeError::MalformedTree);
            },
        };
        proof {
            size.lemma_wf();
            if is_pow2(leaf_nodes@.len()) && size.spec_leaf_count() != leaf_nodes@.len() {
                // the least power of two that is not less than a power of
                // two is that power of two
                crate::tree_math::lemma_pow2_below(leaf_nodes@.len(), size.spec_leaf_count());
            }
        }
        if size.leaf_count() as usize != leaf_nodes.len() || parent_nodes.len() != leaf_nodes.len() - 1 {
            return Err(RatchetTreeError::MalformedTree);
        }
        Ok(RatchetTree { leaf_nodes, parent_nodes, size })
    }

    /// The size of the tree.
    pub fn size(&self) -> (s: TreeSize)
        ensures
            s == self.spec_size(),
    {
        self.size
    }

    /// The number of leaves of the tree.
    pub fn leaf_count(&self) -> (n: u32)
        requires
            self.wf(),
        ensures
            n == self@.leaves.len(),
    {
        self.size.leaf_count()
    }

    /// The leaf node at a leaf, where the leaf is in the tree and not
    /// blank.
    pub fn leaf(&self, index: LeafNodeIndex) -> (r: Option<&LeafNode>)
        ensures
            r is Some == (index.0 < self@.leaves.len() && self@.leaves[index.0 as int] is Some),
            r matches Some(node) ==> Some(node@) == self@.leaves[index.0 as int],
    {
        if index.usize() < self.leaf_nodes.len() {
            self.leaf_nodes[index.usize()].as_ref()
        } else {
            None
        }
    }

    /// The hash of a leaf of the tree.
    fn leaf_tree_hash(&self, backend: &OpenMlsRustCrypto, hash_type: HashType, l: u32) -> (r: Option<Vec<u8>>)
        requires
            l < self.leaf_nodes@.len(),
        ensures
            r is Some == spec_leaf_tree_hash(self@, hash_type, l as nat) is Some,
            r matches Some(hash) ==> Some(hash@) == spec_leaf_tree_hash(self@, hash_type, l as nat) && hash@.len() == hash_type.spec_size(),
    {
        let mut input: Vec<u8> = Vec::new();
        append_u8(&mut input, 1);
        append_u32(&mut input, l);
        match &self.leaf_nodes[l as usize] {
            None => {
                append_u8(&mut input, 0);
            },
            Some(node) => {
                append_u8(&mut input, 1);
                if node.append_encoding(&mut input).is_err() {
                    return None;
                }
            },
        }
        assert(Some(input@) == leaf_hash_input(l, self@.leaves[l as int]));
        provider_hash(backend, hash_type, input.as_slice())
    }

    /// The hash of the subtree below a parent.
    fn subtree_hash(&self, backend: &OpenMlsRustCrypto, hash_type: HashType, p: u32, f: u32) -> (r: Option<Vec<u8>>)
        requires
            self.wf(),
            p < self.parent_nodes@.len(),
            f == span(p as nat),
        ensures
            r is Some == spec_subtree_hash(self@, hash_type, p as nat, f as nat) is Some,
            r matches Some(hash) ==> Some(hash@) == spec_subtree_hash(self@, hash_type, p as nat, f as nat) && hash@.len() == hash_type.spec_size(),
        decreases f,
    {
        proof {
            self.size.lemma_wf();
            crate::secret_tree::lemma_parent_range_in_tree(p as nat, self.leaf_nodes@.len());
            lemma_low_bit_is_pow2((p + 1) as nat);
            if f >= 2 {
                lemma_children_spans(p as nat);
            }
        }
        let (left, right) = if f <= 1 {
            (self.leaf_tree_hash(backend, hash_type, p), self.leaf_tree_hash(backend, hash_type, p + 1))
        } else {
            (self.subtree_hash(backend, hash_type, p - f / 2, f / 2), self.subtree_hash(backend, hash_type, p + f / 2, f / 2))
        };
        let (left_hash, right_hash) = match (left, right) {
            (Some(left_hash), Some(right_hash)) => (left_hash, right_hash),
            _ => {
                return None;
            },
        };
        let mut input: Vec<u8> = Vec::new();
        append_u8(&mut input, 2);
        match &self.parent_nodes[p as usize] {
            None => {
                append_u8(&mut input, 0);
            },
            Some(node) => {
                append_u8(&mut input, 1);
                if append_vector(&mut input, node.encryption_key.as_slice()).is_err() {
                    return None;
                }
                if append_vector(&mut input, node.parent_hash.as_slice()).is_err() {
                    return None;
                }
                if append_u32_list(&mut input, node.unmerged_leaves.as_slice()).is_err() {
                    return None;
                }
            },
        }
        let r1 = append_vector(&mut input, left_hash.as_slice());
        let r2 = append_vector(&mut input, right_hash.as_slice());
        assert(r1 is Ok && r2 is Ok);
        assert(Some(input@) == parent_hash_input(self@.parents[p as int], left_hash@, right_hash@));
        provider_hash(backend, hash_type, input.as_slice())
    }

    /// The hash of the tree. None where a node of the tree cannot be
    /// encoded.
    pub fn tree_hash(&self, backend: &OpenMlsRustCrypto, hash_type: HashType) -> (r: Option<Vec<u8>>)
        requires
            self.wf(),
        ensures
            r is Some == spec_tree_hash(self@, hash_type) is Some,
            r matches Some(hash) ==> Some(hash@) == spec_tree_hash(self@, hash_type) && hash@.len() == hash_type.spec_size(),
    {
        let n: u32 = self.size.leaf_count();
        if n == 1 {
            self.leaf_tree_hash(backend, hash_type, 0)
        } else {
            proof {
                self.size.lemma_wf();
                assert(is_pow2((n / 2) as nat));
                lemma_low_bit_odd_multiple((n / 2) as nat, 1);
                assert(((n / 2) as nat) * 1 == (n / 2) as nat) by (nonlinear_arith);
            }
            self.subtree_hash(backend, hash_type, n / 2 - 1, n / 2)
        }
    }
}

} // verus!
