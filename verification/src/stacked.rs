//! What the layered proof of replication is set up with.

use vstd::prelude::*;

verus! {

/// A number of layers and the number of challenges drawn in each of them.
///
/// Both numbers are at least 1 and their product fits in `usize`. Only the
/// challenge selection makes a value of this type.
#[derive(Clone, Copy, Debug)]
pub struct LayerChallenges {
    /// How many layers we are generating challenges for.
    layers: usize,
    /// The count of challenges in each layer.
    max_count: usize,
}

impl LayerChallenges {
    #[verifier::type_invariant]
    spec fn well_formed(self) -> bool {
        &&& self.layers >= 1
        &&& self.max_count >= 1
        &&& self.layers * self.max_count <= usize::MAX
    }

    pub closed spec fn spec_layers(&self) -> usize {
        self.layers
    }

    pub closed spec fn spec_max_count(&self) -> usize {
        self.max_count
    }

    /// Challenges over all layers together.
    pub open spec fn spec_challenges_count_all(&self) -> nat {
        (self.spec_layers() * self.spec_max_count()) as nat
    }

    pub(crate) fn new(layers: usize, max_count: usize) -> (plan: Self)
        requires
            layers >= 1,
            max_count >= 1,
            layers * max_count <= usize::MAX,
        ensures
            plan.spec_layers() == layers,
            plan.spec_max_count() == max_count,
    {
        LayerChallenges { layers, max_count }
    }

    #[verifier::when_used_as_spec(spec_layers)]
    pub fn layers(&self) -> (layers: usize)
        ensures
            layers == self.spec_layers(),
            layers >= 1,
    {
        proof {
            use_type_invariant(self);
        }
        self.layers
    }

    /// Challenges in each single layer.
    #[verifier::when_used_as_spec(spec_max_count)]
    pub fn max_count(&self) -> (count: usize)
        ensures
            count == self.spec_max_count(),
            count >= 1,
    {
        proof {
            use_type_invariant(self);
        }
        self.max_count
    }

    /// Challenges over all layers together: the layers times the count in
    /// each.
    pub fn challenges_count_all(&self) -> (total: usize)
        ensures
            total == self.spec_challenges_count_all(),
            total >= 1,
    {
        proof {
            use_type_invariant(self);
            assert(self.layers * self.max_count >= 1) by (nonlinear_arith)
                requires
                    self.layers >= 1,
                    self.max_count >= 1,
            ;
        }
        self.layers * self.max_count
    }
}

/// The setup record of the layered proof of replication.
#[derive(Clone, Copy, Debug)]
pub struct SetupParams {
    /// Number of nodes in one layer of the graph.
    pub nodes: usize,
    /// Base degree of the depth-robust graph.
    pub degree: usize,
    /// Degree of the expander between layers.
    pub expansion_degree: usize,
    /// Seed of the depth-robust graph.
    pub seed: [u8; 28],
    pub layer_challenges: LayerChallenges,
}

} // verus!
