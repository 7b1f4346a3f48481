//! Mini UART (UART1), in the auxiliary peripherals block
use vstd::prelude::*;

use crate::bcm2837::MMIO_BASE;

verus! {

pub const PADDR: u32 = MMIO_BASE + 0x0021_5000;

/// Handle on the UART1 register block at a physical address.
pub struct UART1 {
    addr: u32,
}

impl UART1 {
    /// The physical address of the register block.
    pub closed spec fn base(&self) -> u32 {
        self.addr
    }

    /// A handle on the register block at `addr`, which must not be 0.
    pub fn from_addr(addr: u32) -> (r: UART1)
        requires
            addr != 0,
        ensures
            r.base() == addr,
    {
        UART1 { addr }
    }

    /// The physical address of the register block.
    pub fn addr(&self) -> (r: u32)
        ensures
            r == self.base(),
    {
        self.addr
    }
}

} // verus!
