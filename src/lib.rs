//! Resumable zero-knowledge transfer verification: bounded request queues,
//! a nullifier ledger, and round-bounded hash and proof-verification engines
//! whose every step is a pure function of persisted registers.

pub mod types;
pub mod queue;
pub mod nullifier;
pub mod curve;
pub mod pairing;
pub mod field;
pub mod poseidon;
pub mod request;
pub mod hashing;
pub mod verification;
pub mod accounts;
pub mod network;
