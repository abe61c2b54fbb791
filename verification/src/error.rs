//! What the parameter builders reject, with the values that were at fault.

use vstd::prelude::*;

verus! {

/// Why a parameter builder gave no record. None of these is worth a retry:
/// the arguments or the table have to change.
#[derive(Clone, Copy, Debug, PartialEq, Eq, Structural)]
pub enum ParamsError {
    /// The sector size is zero or no multiple of the node size.
    InvalidSectorSize { sector_bytes: u64 },
    /// The policy table has no entry for the sector size.
    UnknownSectorSize { sector_bytes: u64 },
    /// The sector count does not divide the challenge count.
    IndivisibleChallengeCount { challenge_count: usize, sector_count: usize },
    /// The recomputed counts do not multiply back to the challenge count.
    /// The winning builder tests for this before it answers; its contract
    /// shows that the test never fails.
    InternalInconsistency { sector_count: usize, challenge_count: usize, expected: usize },
}

} // verus!
