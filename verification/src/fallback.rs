//! What the proofs of spacetime are set up with.

use std::marker::PhantomData;
use vstd::prelude::*;

use crate::merkle::MerkleTreeTrait;
use crate::scheme::ProofScheme;

verus! {

/// The setup record of a proof of spacetime.
#[derive(Clone, Copy, Debug, PartialEq, Eq, Structural)]
pub struct SetupParams {
    /// Size of the sector in bytes.
    pub sector_size: u64,
    /// Number of challenges per sector.
    pub challenge_count: usize,
    /// Number of challenged sectors.
    pub sector_count: usize,
}

/// What prover and verifier of a proof of spacetime share.
#[derive(Clone, Copy, Debug, PartialEq, Eq, Structural)]
pub struct PublicParams {
    /// Size of the sector in bytes.
    pub sector_size: u64,
    /// Number of challenges per sector.
    pub challenge_count: usize,
    /// Number of challenged sectors.
    pub sector_count: usize,
}

/// The public parameters that belong to setup parameters: the same three
/// values.
pub open spec fn public_params_of(sp: SetupParams) -> PublicParams {
    PublicParams {
        sector_size: sp.sector_size,
        challenge_count: sp.challenge_count,
        sector_count: sp.sector_count,
    }
}

/// The proof of spacetime over trees of shape `Tree`.
pub struct FallbackPoSt<Tree: MerkleTreeTrait> {
    _t: PhantomData<Tree>,
}

impl<Tree: MerkleTreeTrait> ProofScheme for FallbackPoSt<Tree> {
    type SetupParams = SetupParams;

    type PublicParams = PublicParams;

    /// The public parameters repeat the three setup values.
    fn setup(sp: &SetupParams) -> (pp: PublicParams)
        ensures
            pp == public_params_of(*sp),
    {
        PublicParams {
            sector_size: sp.sector_size,
            challenge_count: sp.challenge_count,
            sector_count: sp.sector_count,
        }
    }
}

} // verus!
