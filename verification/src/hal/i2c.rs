//! I2C
use vstd::prelude::*;

use crate::bcm2837::bsc0;
use crate::bcm2837::bsc0::I2C0;

verus! {

/// I2C error
#[derive(Debug, Clone, Copy, PartialEq, Eq, Structural)]
pub enum Error {
    /// No acknowledge returned
    Nack,
    /// Slave held the SCL low for longer than specified
    ClockStretchTimeout,
    /// Reserved so that more errors can be added later.
    _Extensible,
}

pub trait Pins<I2c> {

}

pub trait PinScl<I2c> {

}

pub trait PinSda<I2c> {

}

impl<I2c, SCL, SDA> Pins<I2c> for (SCL, SDA) where SCL: PinScl<I2c>, SDA: PinSda<I2c> {

}

/// The only bus speed supported, in Hz.
pub const SPEED_HZ: u32 = 100_000;

/// I2C abstraction
pub struct I2c<I2C, PINS> {
    i2c: I2C,
    pins: PINS,
}

impl<I2C, PINS> I2c<I2C, PINS> {
    /// The controller in use.
    pub closed spec fn i2c_of(&self) -> I2C {
        self.i2c
    }

    /// The pins in use.
    pub closed spec fn pins_of(&self) -> PINS {
        self.pins
    }

    /// The controller in use.
    pub fn i2c(&self) -> (r: &I2C)
        ensures
            *r == self.i2c_of(),
    {
        &self.i2c
    }
}

impl<PINS> I2c<I2C0, PINS> {
    /// Sets up I2C0 from an APB clock of `apb_clock` Hz: returns the bus and
    /// the clock divider to program. Only 100 kHz is supported, whatever
    /// `_speed_khz` asks for.
    pub fn i2c0(i2c: I2C0, pins: PINS, _speed_khz: u32, apb_clock: u32) -> (r: (Self, u32))
        where PINS: Pins<I2C0>
        ensures
            r.0.i2c_of() == i2c,
            r.0.pins_of() == pins,
            r.1 == apb_clock / SPEED_HZ,
            // The divider brings the APB clock down to 100 kHz, rounding down.
            r.1 * 100_000 <= apb_clock < (r.1 + 1) * 100_000,
    {
        let cdiv: u32 = apb_clock / SPEED_HZ;
        proof {
            crate::hal::serial::lemma_div_bounds(cdiv as int, apb_clock as int, 100_000);
        }
        (I2c { i2c, pins }, cdiv)
    }

    pub fn free(self) -> (r: (I2C0, PINS))
        ensures
            r == (self.i2c_of(), self.pins_of()),
    {
        (self.i2c, self.pins)
    }
}

/// Direction of a transfer.
#[derive(Debug, Clone, Copy, PartialEq, Eq, Structural)]
pub enum Direction {
    /// Bytes go from the slave into the buffer.
    Read,
    /// Bytes go from the buffer to the slave.
    Write,
}

/// What the driver does next during a transfer.
#[derive(Debug, Clone, Copy, PartialEq, Eq, Structural)]
pub enum Step {
    /// Read the STATUS register again.
    Poll,
    /// Read a byte from the FIFO into this position of the buffer.
    Receive(usize),
    /// Write the byte at this position of the buffer to the FIFO.
    Send(usize),
    /// Every byte has been moved: check the status and finish.
    Finish,
}

/// The byte loop of a transfer of `len` bytes: each byte is moved once the
/// FIFO is ready for it, in buffer order.
#[derive(Debug, Clone, Copy)]
pub struct Transfer {
    direction: Direction,
    len: usize,
    next: usize,
}

impl Transfer {
    pub closed spec fn dir(&self) -> Direction {
        self.direction
    }

    /// The number of bytes to move.
    pub closed spec fn total(&self) -> nat {
        self.len as nat
    }

    /// The number of bytes moved so far.
    pub closed spec fn moved(&self) -> nat {
        self.next as nat
    }

    pub closed spec fn wf(&self) -> bool {
        self.next <= self.len
    }

    /// A transfer of `len` bytes, none moved yet.
    pub fn new(direction: Direction, len: usize) -> (r: Transfer)
        ensures
            r.wf(),
            r.dir() == direction,
            r.total() == len,
            r.moved() == 0,
    {
        Transfer { direction, len, next: 0 }
    }

    /// The next step after reading `status` from the STATUS register: finish
    /// once every byte has moved; otherwise move the next byte when the FIFO
    /// is ready for it (data to receive, or room to send), poll when not.
    pub fn on_status(&mut self, status: u32) -> (s: Step)
        requires
            old(self).wf(),
        ensures
            final(self).wf(),
            final(self).dir() == old(self).dir(),
            final(self).total() == old(self).total(),
            old(self).moved() == old(self).total() ==> s == Step::Finish && final(self).moved()
                == old(self).moved(),
            old(self).moved() < old(self).total() && old(self).dir() == Direction::Read
                && status & bsc0::STATUS_RXD != 0 ==> s == Step::Receive(old(self).moved() as usize)
                && final(self).moved() == old(self).moved() + 1,
            old(self).moved() < old(self).total() && old(self).dir() == Direction::Write
                && status & bsc0::STATUS_TXD != 0 ==> s == Step::Send(old(self).moved() as usize)
                && final(self).moved() == old(self).moved() + 1,
            old(self).moved() < old(self).total() && (old(self).dir() == Direction::Read ==> status
                & bsc0::STATUS_RXD == 0) && (old(self).dir() == Direction::Write ==> status
                & bsc0::STATUS_TXD == 0) ==> s == Step::Poll
                && final(self).moved() == old(self).moved(),
    {
        if self.next == self.len {
            return Step::Finish;
        }
        let ready = match self.direction {
            Direction::Read => status & bsc0::STATUS_RXD != 0,
            Direction::Write => status & bsc0::STATUS_TXD != 0,
        };
        if ready {
            let index = self.next;
            self.next = self.next + 1;
            match self.direction {
                Direction::Read => Step::Receive(index),
                Direction::Write => Step::Send(index),
            }
        } else {
            Step::Poll
        }
    }
}

/// The outcome of a finished transfer, given the STATUS register value: a
/// missing acknowledge, else a clock stretch timeout, else success. The
/// transfer must be done.
pub fn transfer_result(status: u32) -> (r: Result<(), Error>)
    requires
        status & bsc0::STATUS_DONE != 0,
    ensures
        status & bsc0::STATUS_ERR != 0 ==> r == Err::<(), Error>(Error::Nack),
        status & bsc0::STATUS_ERR == 0 && status & bsc0::STATUS_CLKT != 0 ==> r == Err::<
            (),
            Error,
        >(Error::ClockStretchTimeout),
        status & bsc0::STATUS_ERR == 0 && status & bsc0::STATUS_CLKT == 0 ==> r is Ok,
{
    if status & bsc0::STATUS_ERR != 0 {
        Err(Error::Nack)
    } else if status & bsc0::STATUS_CLKT != 0 {
        Err(Error::ClockStretchTimeout)
    } else {
        Ok(())
    }
}

} // verus!
