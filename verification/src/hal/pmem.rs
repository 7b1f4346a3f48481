//! Physical memory wrapper
use vstd::prelude::*;

use crate::hal::cache::bus_address_bits;

verus! {

/// A pmem error type
#[derive(Debug, Clone, Copy, PartialEq, Eq, Structural)]
pub enum Error {
    InvalidSize,
}

/// A region of physical memory: `size` bytes starting at `paddr`.
#[derive(Debug, Copy, Clone)]
pub struct PMem {
    paddr: u32,
    size: usize,
}

impl PMem {
    /// The first physical address of the region.
    pub closed spec fn base(&self) -> u32 {
        self.paddr
    }

    /// The size of the region in bytes.
    pub closed spec fn len(&self) -> usize {
        self.size
    }

    /// The region as a 32-bit address span: `paddr + size` computed as the
    /// original does, with the size truncated to 32 bits.
    pub open spec fn end32(&self) -> int {
        self.base() + (self.len() as u32)
    }

    /// Whether `addr` lies in the region.
    pub open spec fn holds(&self, addr: u32) -> bool {
        self.len() != 0 && self.base() <= addr && addr < self.end32()
    }

    /// Creates a region. The address and the size must both be non-zero.
    pub fn new(paddr: u32, size: usize) -> (r: Self)
        requires
            paddr != 0,
            size != 0,
        ensures
            r.base() == paddr,
            r.len() == size,
    {
        PMem { paddr, size }
    }

    pub fn paddr(&self) -> (r: u32)
        ensures
            r == self.base(),
    {
        self.paddr
    }

    pub fn size(&self) -> (r: usize)
        ensures
            r == self.len(),
    {
        self.size
    }

    /// The region's address as seen from the VideoCore bus, through the
    /// L2-coherent alias.
    pub fn bus_paddr(&self) -> (r: u32)
        ensures
            r == self.base() | bus_address_bits::ALIAS_4_L2_COHERENT,
    {
        self.paddr | bus_address_bits::ALIAS_4_L2_COHERENT
    }

    /// Whether `paddr` lies in the region. When the region is not empty and
    /// `paddr` is not below it, the end of the region must be representable
    /// in 32 bits.
    pub fn contains_paddr(&self, paddr: u32) -> (r: bool)
        requires
            self.len() != 0 && paddr >= self.base() ==> self.end32() <= u32::MAX,
        ensures
            r == self.holds(paddr),
    {
        if self.size == 0 {
            false
        } else {
            if (paddr >= self.paddr) && (paddr < (self.paddr + self.size as u32)) {
                true
            } else {
                false
            }
        }
    }

    /// Splits the region at byte offset `at`: `self` keeps the first `at`
    /// bytes and the tail is returned. Fails when `at` is not inside the
    /// region.
    pub fn split_off(&mut self, at: usize) -> (r: Result<Self, Error>)
        requires
            at < old(self).len() ==> old(self).base() + (at as u32) <= u32::MAX,
        ensures
            at >= old(self).len() <==> r is Err,
            r is Err ==> r == Err::<Self, Error>(Error::InvalidSize) && *final(self) == *old(self),
            r matches Ok(tail) ==> {
                &&& final(self).base() == old(self).base()
                &&& final(self).len() == at
                &&& tail.base() == old(self).base() + (at as u32)
                &&& tail.len() == old(self).len() - at
            },
            // The head and the tail partition the original region.
            r is Ok && old(self).len() <= u32::MAX && old(self).end32() <= u32::MAX ==> {
                let tail = r->Ok_0;
                forall|a: u32|
                    #[trigger] old(self).holds(a) <==> (final(self).holds(a) || tail.holds(a))
            },
            r is Ok && old(self).len() <= u32::MAX ==> {
                let tail = r->Ok_0;
                forall|a: u32| !(#[trigger] final(self).holds(a) && tail.holds(a))
            },
    {
        if at >= self.size {
            Err(Error::InvalidSize)
        } else {
            let mut tail_region = self.clone();

            // New region consumes tail
            tail_region.paddr = tail_region.paddr + at as u32;
            tail_region.size = tail_region.size - at;

            // Our region consumes the head, ending at the offset
            self.size = at;

            Ok(tail_region)
        }
    }

    /// Shrinks the region to `size` bytes. Fails when `size` is larger than
    /// the region.
    pub fn shrink_to(&mut self, size: usize) -> (r: Result<(), Error>)
        ensures
            size > old(self).len() <==> r is Err,
            r is Err ==> r == Err::<(), Error>(Error::InvalidSize) && *final(self) == *old(self),
            r is Ok ==> final(self).base() == old(self).base() && final(self).len() == size,
            // A shrunk region only holds addresses the original region held.
            r is Ok && old(self).len() <= u32::MAX ==> forall|a: u32| #[trigger] final(self).holds(a) ==> old(self).holds(a),
    {
        if size > self.size {
            Err(Error::InvalidSize)
        } else {
            self.size = size;
            Ok(())
        }
    }

    /// The region's first address, as the machine address at which the
    /// region's memory is read.
    pub fn as_ptr(&self) -> (r: usize)
        ensures
            r == self.base(),
    {
        self.paddr as usize
    }

    /// The region's first address, as the machine address at which the
    /// region's memory is written.
    pub fn as_mut_ptr(&self) -> (r: usize)
        ensures
            r == self.base(),
    {
        self.paddr as usize
    }
}

} // verus!
