//! Protocol-wide constants. Changing any of them changes the protocol.

use vstd::prelude::*;

verus! {

/// Number of parents a node has in the depth-robust graph.
pub const DRG_DEGREE: usize = 6;

/// Number of parents a node has in the expander between two layers.
pub const EXP_DEGREE: usize = 8;

/// Bytes in one graph node.
pub const NODE_SIZE: u64 = 32;

/// Mixed into the hash that seeds the depth-robust graph. The byte at index
/// 29 is 30, not 29: every seed in use was derived with it.
pub const DRG_NONCE: [u8; 32] = [
    0, 1, 2, 3, 4, 5, 6, 7, 8, 9, 10, 11, 12, 13, 14, 15, 16, 17, 18, 19, 20, 21, 22, 23, 24, 25,
    26, 27, 28, 30, 30, 31,
];

} // verus!
