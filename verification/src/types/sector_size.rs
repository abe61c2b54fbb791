use vstd::prelude::*;
use vstd::std_specs::convert::FromSpecImpl;

verus! {

/// The size of a sector in bytes.
#[derive(Clone, Copy, Debug, PartialEq, Eq, Structural)]
pub struct SectorSize(pub u64);

impl From<u64> for SectorSize {
    fn from(size: u64) -> (sector_size: SectorSize) {
        SectorSize(size)
    }
}

impl FromSpecImpl<u64> for SectorSize {
    open spec fn obeys_from_spec() -> bool {
        true
    }

    open spec fn from_spec(size: u64) -> SectorSize {
        SectorSize(size)
    }
}

impl From<SectorSize> for u64 {
    fn from(size: SectorSize) -> (bytes: u64) {
        size.0
    }
}

impl FromSpecImpl<SectorSize> for u64 {
    open spec fn obeys_from_spec() -> bool {
        true
    }

    open spec fn from_spec(size: SectorSize) -> u64 {
        size.0
    }
}

} // verus!
