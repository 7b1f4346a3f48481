//! Broadcom Serial Controller 0 (I2C0)
use vstd::prelude::*;

use crate::bcm2837::MMIO_BASE;

verus! {

pub const PADDR: u32 = MMIO_BASE + 0x0020_5000;

/// STATUS register: transfer done (bit 1).
pub const STATUS_DONE: u32 = 1 << 1;
/// STATUS register: the FIFO can accept data (bit 4).
pub const STATUS_TXD: u32 = 1 << 4;
/// STATUS register: the FIFO holds data (bit 5).
pub const STATUS_RXD: u32 = 1 << 5;
/// STATUS register: the slave did not acknowledge its address (bit 8).
pub const STATUS_ERR: u32 = 1 << 8;
/// STATUS register: the slave held SCL low too long (bit 9).
pub const STATUS_CLKT: u32 = 1 << 9;

/// Handle on the I2C0 register block at a physical address.
pub struct I2C0 {
    addr: u32,
}

impl I2C0 {
    /// The physical address of the register block.
    pub closed spec fn base(&self) -> u32 {
        self.addr
    }

    /// A handle on the register block at `addr`, which must not be 0.
    pub fn from_addr(addr: u32) -> (r: I2C0)
        requires
            addr != 0,
        ensures
            r.base() == addr,
    {
        I2C0 { addr }
    }

    /// The physical address of the register block.
    pub fn addr(&self) -> (r: u32)
        ensures
            r == self.base(),
    {
        self.addr
    }
}

} // verus!
