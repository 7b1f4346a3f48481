//! BCM2837 peripheral addresses and register encodings.
pub mod bsc0;
pub mod mbox;
pub mod rng;
pub mod uart0;
pub mod uart1;

use vstd::prelude::*;

verus! {

/// Physical base address of the peripheral (MMIO) window.
pub const MMIO_BASE: u32 = 0x3F00_0000;

} // verus!
