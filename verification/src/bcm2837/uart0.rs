//! PL011 UART (UART0)
use vstd::prelude::*;

use crate::bcm2837::MMIO_BASE;

verus! {

pub const PADDR: u32 = MMIO_BASE + 0x0020_1000;

/// Handle on the UART0 register block at a physical address.
pub struct UART0 {
    addr: u32,
}

impl UART0 {
    /// The physical address of the register block.
    pub closed spec fn base(&self) -> u32 {
        self.addr
    }

    /// A handle on the register block at `addr`, which must not be 0.
    pub fn from_addr(addr: u32) -> (r: UART0)
        requires
            addr != 0,
        ensures
            r.base() == addr,
    {
        UART0 { addr }
    }

    /// The physical address of the register block.
    pub fn addr(&self) -> (r: u32)
        ensures
            r == self.base(),
    {
        self.addr
    }
}

} // verus!
