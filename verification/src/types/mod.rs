//! Values that sealing and proving pass along.

use std::marker::PhantomData;
use vstd::prelude::*;

use crate::merkle::{Hasher, MerkleTreeTrait};

mod bytes_amount;
mod post_config;
mod sector_size;

pub use self::bytes_amount::PaddedBytesAmount;
pub use self::post_config::{PoStConfig, PoStType};
pub use self::sector_size::SectorSize;
pub use merkletree::store::StoreConfig;

verus! {

/// `merkletree::store::StoreConfig`: where a tree's data is kept. Carried
/// through as it is; nothing in here looks inside.
#[verifier::external_type_specification]
#[verifier::external_body]
pub struct ExStoreConfig(merkletree::store::StoreConfig);

/// The root that a replica or the data of a sector is committed to.
pub type Commitment = [u8; 32];

/// Randomness that challenges are drawn from.
pub type ChallengeSeed = [u8; 32];

/// Who proves.
pub type ProverId = [u8; 32];

/// Randomness that is bound into one proving session.
pub type Ticket = [u8; 32];

/// Arity for oct trees, used for comm_r_last.
pub const OCT_ARITY: usize = 8;

/// Arity for binary trees, used for comm_d.
pub const BINARY_ARITY: usize = 2;

/// One vanilla proof of a seal over trees of shape `Tree`.
pub type VanillaSealProof<Tree> = <Tree as MerkleTreeTrait>::VanillaProof;

/// The store locations of the labels of each layer.
#[derive(Debug)]
pub struct Labels<Tree: MerkleTreeTrait> {
    pub labels: Vec<StoreConfig>,
    pub _h: PhantomData<Tree>,
}

/// What pre-commit ends with: the commitments to the replica and to the
/// data.
#[derive(Debug, Clone)]
pub struct SealPreCommitOutput {
    pub comm_r: Commitment,
    pub comm_d: Commitment,
}

/// What the first phase of commit hands to the second: the vanilla proofs of
/// each partition, and what they were made for.
#[derive(Clone, Debug)]
pub struct SealCommitPhase1Output<Tree: MerkleTreeTrait> {
    pub vanilla_proofs: Vec<Vec<VanillaSealProof<Tree>>>,
    pub comm_r: Commitment,
    pub comm_d: Commitment,
    pub replica_id: <Tree::Hasher as Hasher>::Domain,
    pub seed: Ticket,
    pub ticket: Ticket,
}

/// What commit ends with: the proof, as bytes.
#[derive(Clone, Debug)]
pub struct SealCommitOutput {
    pub proof: Vec<u8>,
}

/// What the first phase of pre-commit hands to the second: the labels, where
/// the tree over the data is kept, and the commitment to the data.
#[derive(Debug)]
pub struct SealPreCommitPhase1Output<Tree: MerkleTreeTrait> {
    pub labels: Labels<Tree>,
    pub config: StoreConfig,
    pub comm_d: Commitment,
}

} // verus!
