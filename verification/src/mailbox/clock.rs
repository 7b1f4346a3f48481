//! Clock identifiers
use vstd::prelude::*;

verus! {

pub const UART: u32 = 0x0000_0002;

} // verus!
