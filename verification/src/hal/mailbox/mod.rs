//! Mailbox abstraction over a physical memory buffer.
use vstd::prelude::*;

use crate::bcm2837::mbox;
use crate::bcm2837::mbox::MBOX;
use crate::hal::pmem::PMem;
use crate::mailbox::response;

verus! {

/// Length of the message buffer, in 32-bit words.
pub const BUFFER_LEN: usize = 36;

/// Size of the message buffer, in bytes.
pub const BUFFER_SIZE: usize = 144;

pub type Result<T> = core::result::Result<T, Error>;

#[derive(Debug, Copy, Clone, PartialEq, Eq, Structural)]
pub enum Error {
    UnkownTagId(u32),
    Truncated,
    MessageWordAlign,
    Malformed,
    /// The response buffer has error bit(s) set
    BadRequest,
    /// Status word was not recognized
    BadStatusWord,
    /// Unknown error
    Unknown,
}

#[derive(Debug, Copy, Clone, PartialEq, Eq, Structural)]
pub enum Channel {
    /// Property channel, number 8
    Prop,
}

/// The number of a channel.
pub open spec fn channel_number(c: Channel) -> u32 {
    match c {
        Channel::Prop => 8,
    }
}

impl From<Channel> for u32 {
    fn from(c: Channel) -> (r: u32) {
        match c {
            Channel::Prop => 8,
        }
    }
}

impl vstd::std_specs::convert::FromSpecImpl<Channel> for u32 {
    open spec fn obeys_from_spec() -> bool {
        true
    }

    open spec fn from_spec(c: Channel) -> u32 {
        channel_number(c)
    }
}

/// Mailbox abstraction
pub struct Mailbox {
    mbox: MBOX,
    buffer_pmem: PMem,
}

impl Mailbox {
    /// The mailbox registers in use.
    pub closed spec fn regs(&self) -> MBOX {
        self.mbox
    }

    /// The physical memory that holds the message buffer.
    pub closed spec fn buffer(&self) -> PMem {
        self.buffer_pmem
    }

    /// A mailbox whose messages go through `buffer_pmem`; fails when that
    /// region is smaller than a message buffer.
    pub fn new(mbox: MBOX, buffer_pmem: PMem) -> (r: Result<Self>)
        ensures
            buffer_pmem.len() < BUFFER_SIZE <==> r is Err,
            r is Err ==> r == Err::<Self, Error>(Error::Truncated),
            r matches Ok(m) ==> m.regs() == mbox && m.buffer() == buffer_pmem,
    {
        if buffer_pmem.size() < BUFFER_SIZE {
            Err(Error::Truncated)
        } else {
            Ok(Mailbox { mbox, buffer_pmem })
        }
    }

    /// The mailbox registers in use.
    pub fn mbox(&self) -> (r: &MBOX)
        ensures
            *r == self.regs(),
    {
        &self.mbox
    }

    /// The physical memory that holds the message buffer.
    pub fn buffer_pmem(&self) -> (r: &PMem)
        ensures
            *r == self.buffer(),
    {
        &self.buffer_pmem
    }

    /// The handshake that sends the buffer's message on `channel`.
    pub fn handshake(&self, channel: Channel) -> (r: mbox::Handshake)
        ensures
            r.paddr() == self.buffer().base(),
            r.chan() == channel_number(channel),
            r.stage() == mbox::Phase::WaitWritable,
    {
        mbox::Handshake::new(self.buffer_pmem.paddr(), u32::from(channel))
    }
}

/// The outcome of a call given the status word (word 1) of the answered
/// buffer: success, a request the VideoCore could not parse, or a status
/// word that is neither.
pub fn status_word_result(status: u32) -> (r: Result<()>)
    ensures
        status == response::SUCCESS <==> r is Ok,
        status == response::ERROR ==> r == Err::<(), Error>(Error::BadRequest),
        status != response::SUCCESS && status != response::ERROR ==> r == Err::<(), Error>(
            Error::BadStatusWord,
        ),
{
    if status == response::SUCCESS {
        Ok(())
    } else if status == response::ERROR {
        Err(Error::BadRequest)
    } else {
        Err(Error::BadStatusWord)
    }
}

} // verus!
