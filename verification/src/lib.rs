//! Public parameters of a layered proof of replication and of the winning and
//! window proofs of spacetime: seed derivation, the split of a challenge
//! budget over layers and partitions, and the setup records handed to the
//! proof schemes.

pub mod constants;
pub mod crypto;
pub mod error;
pub mod fallback;
pub mod merkle;
pub mod parameters;
pub mod policy;
pub mod scheme;
pub mod stacked;
pub mod types;
