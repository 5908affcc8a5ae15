//! Distributed secret-store cluster core: the session/consensus engine that
//! drives multi-party key operations (server-key generation and retrieval,
//! document-key store and retrieval, key-version negotiation) across a fixed
//! set of cluster nodes.
//!
//! The engine is pure state-machine logic over plain values: node ids,
//! session ids and key ids are integers, connectivity is a flag per node, and
//! every operation is a function from the old state (plus an event) to the
//! new state and a result. Network transport, persistent storage, access
//! control and the threshold-cryptography primitives are external
//! collaborators, reached only through narrow interfaces.

pub mod consensus;
pub mod digest;
pub mod errors;
pub mod facade;
pub mod nodes;
pub mod registry;
pub mod shard;
pub mod session;

pub use errors::Classification;
pub use errors::Error;
pub use errors::RetryDecision;
pub use errors::classify;
pub use errors::retry_decision;
