//! Constants shared by the kernel modules.

use vstd::prelude::*;

verus! {

/// Size of one page in bytes.
pub const PAGE_SIZE: usize = 4096;

/// Number of bits of the in-page offset.
pub const PAGE_SIZE_BITS: usize = 12;

} // verus!
