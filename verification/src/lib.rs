//! Core data structures of the Messaging Layer Security protocol: tree
//! arithmetic, the secret tree with its sender ratchets, the key schedule,
//! leaf nodes, key packages, the framing of incoming messages and the
//! encryption of application messages.

pub mod bytes;
pub mod capabilities;
pub mod codec;
pub mod credentials;
pub mod extensions;
pub mod framing;
pub mod group;
pub mod hpke;
pub mod key_package;
pub mod keys;
pub mod leaf_node;
pub mod lifetime;
pub mod message_in;
pub mod message_secrets;
pub mod mls_group;
pub mod private_message;
pub mod provider;
pub mod ratchet_tree;
pub mod reader;
pub mod schedule;
pub mod secret;
pub mod signable;
pub mod secret_tree;
pub mod sender_ratchet;
pub mod tree_math;
pub mod types;
