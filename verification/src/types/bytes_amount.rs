use vstd::prelude::*;
use vstd::std_specs::convert::FromSpecImpl;

use crate::types::sector_size::SectorSize;

verus! {

/// A number of bytes after padding.
#[derive(Clone, Copy, Debug, PartialEq, Eq, Structural)]
pub struct PaddedBytesAmount(pub u64);

impl From<PaddedBytesAmount> for u64 {
    fn from(n: PaddedBytesAmount) -> (bytes: u64) {
        n.0
    }
}

impl FromSpecImpl<PaddedBytesAmount> for u64 {
    open spec fn obeys_from_spec() -> bool {
        true
    }

    open spec fn from_spec(n: PaddedBytesAmount) -> u64 {
        n.0
    }
}

impl From<SectorSize> for PaddedBytesAmount {
    fn from(size: SectorSize) -> (bytes: PaddedBytesAmount) {
        PaddedBytesAmount(size.0)
    }
}

impl FromSpecImpl<SectorSize> for PaddedBytesAmount {
    open spec fn obeys_from_spec() -> bool {
        true
    }

    open spec fn from_spec(size: SectorSize) -> PaddedBytesAmount {
        PaddedBytesAmount(size.0)
    }
}

} // verus!
