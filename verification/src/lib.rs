//! Verified core of a chain-runtime consistency checker: deterministic
//! storage-key derivation, runtime-version extraction from source text,
//! version and storage diffing, and the decision logic of the node-process
//! supervisor.

pub mod bytes;
pub mod extract;
pub mod hashing;
pub mod node;
pub mod storage_diff;
pub mod storager;
pub mod submetadatan;
pub mod version;
