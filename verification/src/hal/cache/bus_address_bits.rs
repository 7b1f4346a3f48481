//! The top two bits of a VideoCore bus address select how an access goes
//! through the caches.
use vstd::prelude::*;

verus! {

/// Alias 4: L2 cache coherent (non allocating).
pub const ALIAS_4_L2_COHERENT: u32 = 0x4000_0000;

} // verus!
