use openmls::capabilities::Capabilities;
use openmls::credentials::{Credential, CredentialType, CredentialWithKey};
use openmls::extensions::Extensions;
use openmls::keys::{EncryptionKey, SignatureKeyPair, SignaturePublicKey};
use openmls::leaf_node::{LeafNode, LeafNodeSource, TreeInfoTbs};
use openmls::ratchet_tree::{ParentNode, RatchetTree, RatchetTreeError};
use openmls::tree_math::LeafNodeIndex;
use openmls::types::{HashType, SignatureScheme};
use openmls_rust_crypto::OpenMlsRustCrypto;
use openmls_traits::crypto::OpenMlsCrypto;
use openmls_traits::OpenMlsCryptoProvider;

fn sha256(backend: &OpenMlsRustCrypto, data: &[u8]) -> Vec<u8> {
    backend
        .crypto()
        .hash(openmls_traits::types::HashType::Sha2_256, data)
        .unwrap()
}

fn leaf(backend: &OpenMlsRustCrypto, name: &[u8]) -> LeafNode {
    let signer = SignatureKeyPair::new(backend, SignatureScheme::ED25519).unwrap();
    LeafNode::new_with_key(
        EncryptionKey::new(vec![7; 32]),
        CredentialWithKey {
            credential: Credential::new(name.to_vec(), CredentialType::Basic).unwrap(),
            signature_key: SignaturePublicKey::new(signer.to_public_vec()),
        },
        LeafNodeSource::Update,
        Capabilities::default(),
        Extensions::empty(),
        TreeInfoTbs::KeyPackage,
        &signer,
    )
    .unwrap()
}

fn leaf_hash(backend: &OpenMlsRustCrypto, index: u32, node: Option<&LeafNode>) -> Vec<u8> {
    let mut input = vec![1u8];
    input.extend_from_slice(&index.to_be_bytes());
    match node {
        None => input.push(0),
        Some(node) => {
            input.push(1);
            node.append_encoding(&mut input).unwrap();
        }
    }
    sha256(backend, &input)
}

fn parent_hash(backend: &OpenMlsRustCrypto, node: Option<&[u8]>, left: &[u8], right: &[u8]) -> Vec<u8> {
    let mut input = vec![2u8];
    match node {
        None => input.push(0),
        Some(encoded) => {
            input.push(1);
            input.extend_from_slice(encoded);
        }
    }
    input.push(32);
    input.extend_from_slice(left);
    input.push(32);
    input.extend_from_slice(right);
    sha256(backend, &input)
}

#[test]
fn tree_is_made_of_a_power_of_two_of_leaves() {
    assert!(RatchetTree::from_nodes(vec![None], vec![]).is_ok());
    assert!(RatchetTree::from_nodes(vec![None, None], vec![None]).is_ok());
    assert!(RatchetTree::from_nodes(vec![None, None, None, None], vec![None, None, None]).is_ok());
    let malformed = |leaves: usize, parents: usize| {
        RatchetTree::from_nodes(
            (0..leaves).map(|_| None).collect(),
            (0..parents).map(|_| None).collect(),
        )
        .map(|_| ())
    };
    assert_eq!(malformed(0, 0), Err(RatchetTreeError::MalformedTree));
    assert_eq!(malformed(3, 2), Err(RatchetTreeError::MalformedTree));
    assert_eq!(malformed(4, 2), Err(RatchetTreeError::MalformedTree));
    assert_eq!(malformed(4, 4), Err(RatchetTreeError::MalformedTree));
    assert_eq!(malformed(1, 1), Err(RatchetTreeError::MalformedTree));
    assert_eq!(malformed(8, 7), Ok(()));
}

#[test]
fn hash_of_a_tree_of_one_leaf_is_that_of_the_leaf() {
    let backend = OpenMlsRustCrypto::default();
    let blank = RatchetTree::from_nodes(vec![None], vec![]).unwrap();
    assert_eq!(blank.leaf_count(), 1);
    assert_eq!(
        blank.tree_hash(&backend, HashType::Sha2_256).unwrap(),
        sha256(&backend, &[1, 0, 0, 0, 0, 0])
    );
    let alice = leaf(&backend, b"Alice");
    let tree = RatchetTree::from_nodes(vec![Some(alice.duplicate())], vec![]).unwrap();
    assert_eq!(
        tree.tree_hash(&backend, HashType::Sha2_256).unwrap(),
        leaf_hash(&backend, 0, Some(&alice))
    );
    assert!(tree.leaf(LeafNodeIndex::new(0)).unwrap().equals(&alice));
    assert!(tree.leaf(LeafNodeIndex::new(1)).is_none());
    assert!(blank.leaf(LeafNodeIndex::new(0)).is_none());
    assert_eq!(
        blank.tree_hash(&backend, HashType::Sha2_384).unwrap().len(),
        48
    );
}

#[test]
fn hash_of_a_tree_is_that_of_its_root_over_its_subtrees() {
    let backend = OpenMlsRustCrypto::default();
    let alice = leaf(&backend, b"Alice");
    let bob = leaf(&backend, b"Bob");
    let carol = leaf(&backend, b"Carol");
    let parent = ParentNode {
        encryption_key: EncryptionKey::new(vec![9; 32]),
        parent_hash: vec![8; 32],
        unmerged_leaves: vec![2],
    };
    let tree = RatchetTree::from_nodes(
        vec![Some(alice.duplicate()), Some(bob.duplicate()), Some(carol.duplicate()), None],
        vec![None, Some(parent.duplicate()), None],
    )
    .unwrap();
    assert_eq!(tree.leaf_count(), 4);
    assert_eq!(tree.size().leaf_count(), 4);
    let left = parent_hash(
        &backend,
        None,
        &leaf_hash(&backend, 0, Some(&alice)),
        &leaf_hash(&backend, 1, Some(&bob)),
    );
    let right = parent_hash(
        &backend,
        None,
        &leaf_hash(&backend, 2, Some(&carol)),
        &leaf_hash(&backend, 3, None),
    );
    let mut encoded = vec![32u8];
    encoded.extend_from_slice(&[9; 32]);
    encoded.push(32);
    encoded.extend_from_slice(&[8; 32]);
    encoded.extend_from_slice(&[4, 0, 0, 0, 2]);
    let root = parent_hash(&backend, Some(&encoded), &left, &right);
    assert_eq!(tree.tree_hash(&backend, HashType::Sha2_256).unwrap(), root);

    // a change anywhere in the tree changes the hash
    let moved = RatchetTree::from_nodes(
        vec![Some(alice.duplicate()), Some(bob.duplicate()), None, Some(carol.duplicate())],
        vec![None, Some(parent.duplicate()), None],
    )
    .unwrap();
    assert_ne!(moved.tree_hash(&backend, HashType::Sha2_256).unwrap(), root);
    let blanked = RatchetTree::from_nodes(
        vec![Some(alice.duplicate()), Some(bob.duplicate()), Some(carol.duplicate()), None],
        vec![None, None, None],
    )
    .unwrap();
    assert_ne!(blanked.tree_hash(&backend, HashType::Sha2_256).unwrap(), root);
    let same = RatchetTree::from_nodes(
        vec![Some(alice), Some(bob), Some(carol), None],
        vec![None, Some(parent), None],
    )
    .unwrap();
    assert_eq!(same.tree_hash(&backend, HashType::Sha2_256).unwrap(), root);
}

#[test]
fn hash_of_a_large_blank_tree() {
    let backend = OpenMlsRustCrypto::default();
    let leaves = 256usize;
    let tree = RatchetTree::from_nodes(
        (0..leaves).map(|_| None).collect(),
        (0..leaves - 1).map(|_| None).collect(),
    )
    .unwrap();
    let mut level: Vec<Vec<u8>> = (0..leaves as u32)
        .map(|i| leaf_hash(&backend, i, None))
        .collect();
    while level.len() > 1 {
        level = level
            .chunks(2)
            .map(|pair| parent_hash(&backend, None, &pair[0], &pair[1]))
            .collect();
    }
    assert_eq!(tree.tree_hash(&backend, HashType::Sha2_256).unwrap(), level[0]);
}
