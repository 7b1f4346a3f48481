//! RNG
use vstd::prelude::*;

use crate::bcm2837::MMIO_BASE;

verus! {

pub const PADDR: u32 = MMIO_BASE + 0x0010_4000;

/// Byte offsets of the registers in the RNG register block.
pub const CTRL_OFFSET: u32 = 0x00;
pub const STATUS_OFFSET: u32 = 0x04;
pub const DATA_OFFSET: u32 = 0x08;
pub const INT_MASK_OFFSET: u32 = 0x10;

/// Handle on the RNG register block at a physical address.
pub struct RNG {
    addr: u32,
}

impl RNG {
    /// The physical address of the register block.
    pub closed spec fn base(&self) -> u32 {
        self.addr
    }

    /// A handle on the register block at `addr`, which must not be 0.
    pub fn from_addr(addr: u32) -> (r: RNG)
        requires
            addr != 0,
        ensures
            r.base() == addr,
    {
        RNG { addr }
    }

    /// The physical address of the register block.
    pub fn addr(&self) -> (r: u32)
        ensures
            r == self.base(),
    {
        self.addr
    }
}

} // verus!
