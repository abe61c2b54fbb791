use vstd::prelude::*;

use crate::types::bytes_amount::PaddedBytesAmount;
use crate::types::sector_size::SectorSize;

verus! {

/// Which proof of spacetime a configuration is for.
#[derive(Clone, Copy, Debug, PartialEq, Eq, Structural)]
pub enum PoStType {
    Winning,
    Window,
}

#[derive(Clone, Debug)]
pub struct PoStConfig {
    pub sector_size: SectorSize,
    pub challenge_count: usize,
    pub sector_count: usize,
    pub typ: PoStType,
    /// High priority (always runs on GPU) == true
    pub priority: bool,
}

impl PoStConfig {
    /// The sector size as a padded amount of bytes.
    pub open spec fn spec_padded_sector_size(&self) -> PaddedBytesAmount {
        PaddedBytesAmount(self.sector_size.0)
    }

    #[verifier::when_used_as_spec(spec_padded_sector_size)]
    pub fn padded_sector_size(&self) -> (bytes: PaddedBytesAmount)
        ensures
            bytes == self.spec_padded_sector_size(),
    {
        PaddedBytesAmount::from(self.sector_size)
    }
}

} // verus!
