//! The table of supported sector sizes.

use std::collections::HashMap;
use vstd::prelude::*;

verus! {

/// What the table holds for one sector size.
#[derive(Clone, Copy, Debug, PartialEq, Eq, Structural)]
pub struct PorepPolicyEntry {
    /// Challenges that a proof must hold at least, over all partitions.
    pub minimum_challenges: usize,
    /// Layers of the replication.
    pub layers: usize,
}

/// Maps each supported sector size in bytes to its minimum of challenges
/// and its number of layers.
pub struct PorepPolicy {
    entries: HashMap<u64, PorepPolicyEntry>,
}

impl View for PorepPolicy {
    type V = Map<u64, PorepPolicyEntry>;

    closed spec fn view(&self) -> Map<u64, PorepPolicyEntry> {
        self.entries@
    }
}

impl PorepPolicy {
    /// A table without entries.
    pub fn new() -> (policy: Self)
        ensures
            policy@ == Map::<u64, PorepPolicyEntry>::empty(),
    {
        PorepPolicy { entries: HashMap::new() }
    }

    /// Sets the entry of `sector_size`, in place of an earlier one if there
    /// is one.
    pub fn insert(&mut self, sector_size: u64, minimum_challenges: usize, layers: usize)
        ensures
            final(self)@ == old(self)@.insert(
                sector_size,
                (PorepPolicyEntry { minimum_challenges, layers }),
            ),
    {
        broadcast use vstd::std_specs::hash::group_hash_axioms;

        self.entries.insert(sector_size, PorepPolicyEntry { minimum_challenges, layers });
    }

    /// The entry of `sector_size`, if the table has one.
    pub fn get(&self, sector_size: u64) -> (entry: Option<PorepPolicyEntry>)
        ensures
            entry == (if self@.contains_key(sector_size) {
                Some(self@[sector_size])
            } else {
                None::<PorepPolicyEntry>
            }),
    {
        broadcast use vstd::std_specs::hash::group_hash_axioms;

        match self.entries.get(&sector_size) {
            Some(found) => Some(*found),
            None => None,
        }
    }
}

} // verus!
