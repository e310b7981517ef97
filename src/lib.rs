//! A replicated key-value / list store modelled as communicating actors:
//! the message vocabulary, the client request generators, the replica's
//! decisions for both synchronisation strategies over its automerge
//! document, the cluster topology and the consistency predicates that an
//! exhaustive search evaluates.
pub mod message;
pub mod client;
pub mod replica;
pub mod document;
pub mod properties;
pub mod model;
