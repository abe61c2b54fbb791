//! What the parameter builders need from a proof scheme.

use vstd::prelude::*;

verus! {

/// A proof scheme, as far as its setup goes.
pub trait ProofScheme {
    /// What the scheme is set up with.
    type SetupParams;

    /// What prover and verifier of the scheme share.
    type PublicParams;

    /// Turns setup parameters into public parameters. It takes every value
    /// of the setup parameters.
    fn setup(sp: &Self::SetupParams) -> Self::PublicParams;
}

} // verus!
