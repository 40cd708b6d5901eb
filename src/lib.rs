//! Hierarchical-deterministic sr25519 keys and signatures: seed expansion,
//! hard and soft derivation with chain codes, signing and verification, over
//! byte encodings, with the group arithmetic left to `schnorrkel`.
pub mod error;
pub mod keys;
pub mod primitive;
pub mod signing;
