//! The shape of a Merkle tree, as far as the parameter and sealing records
//! depend on it.

use std::fmt::Debug;
use vstd::prelude::*;

verus! {

/// A hash function together with the type of its digests.
pub trait Hasher {
    /// A value in the hash function's domain.
    type Domain: Clone + Debug;
}

/// What a tree structure has to name so that records can be generic over it.
pub trait MerkleTreeTrait {
    /// The hash function of the tree's nodes.
    type Hasher: Hasher;

    /// One vanilla proof record over a tree of this shape.
    type VanillaProof: Clone + Debug;
}

} // verus!
