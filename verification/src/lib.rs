//! This library provides elementary functionality for
//! distributed identities: mutual authentication between subjects that are
//! known by a decentralized identifier (DID).
//!
//! A subject proves who it is by signing a fixed greeting with its Ed25519
//! private key. The peer looks the sender's DID up, takes the public key out
//! of the published document and checks the signature against it. This crate
//! holds the decisions of that exchange; sending, listening and looking
//! documents up are left to the caller, who hands the outcomes in as plain
//! values.
pub mod crypto;
pub mod document;
pub mod error;
pub mod handshake;
pub mod interface;
pub mod subject;
pub mod text;

pub use subject::storage;
pub use subject::StorageSettings;
pub use subject::Subject;
pub use subject::SubjectBuilder;
