//! VideoCore Mailbox
use vstd::prelude::*;

use crate::bcm2837::MMIO_BASE;

verus! {

pub const BASE_PADDR: u32 = MMIO_BASE + 0xB000;
pub const BASE_OFFSET: u32 = 0x0880;
pub const PADDR: u32 = BASE_PADDR + BASE_OFFSET;

/// Byte offset of the READ register in the register block.
pub const READ_OFFSET: u32 = 0x00;
/// Byte offset of the STATUS register in the register block.
pub const STATUS_OFFSET: u32 = 0x18;
/// Byte offset of the WRITE register in the register block.
pub const WRITE_OFFSET: u32 = 0x20;

/// STATUS register: the mailbox is full (bit 31).
pub const STATUS_FULL: u32 = 0x8000_0000;
/// STATUS register: the mailbox is empty (bit 30).
pub const STATUS_EMPTY: u32 = 0x4000_0000;

/// Handle on the mailbox register block at a physical address.
pub struct MBOX {
    addr: u32,
}

impl MBOX {
    /// The physical address of the register block.
    pub closed spec fn base(&self) -> u32 {
        self.addr
    }

    /// A handle on the register block at `addr`, which must not be 0.
    pub fn from_addr(addr: u32) -> (r: MBOX)
        requires
            addr != 0,
        ensures
            r.base() == addr,
    {
        MBOX { addr }
    }

    /// The physical address of the register block.
    pub fn addr(&self) -> (r: u32)
        ensures
            r == self.base(),
    {
        self.addr
    }
}

/// The word that announces a message: the message buffer's address with
/// its low four bits replaced by the channel number.
pub open spec fn request_word_of(buffer_paddr: u32, channel: u32) -> u32 {
    (buffer_paddr & !0xFu32) | (channel & 0xFu32)
}

/// Whether `resp_word`, read from the mailbox, answers the message at
/// `buffer_paddr` sent on `channel`.
pub open spec fn answers(resp_word: u32, channel: u32, buffer_paddr: u32) -> bool {
    (resp_word & 0xFu32) == channel && (resp_word & !0xFu32) == buffer_paddr
}

/// The word to write to the mailbox to send the message at `buffer_paddr`
/// on `channel`.
pub fn request_word(buffer_paddr: u32, channel: u32) -> (r: u32)
    ensures
        r == request_word_of(buffer_paddr, channel),
{
    (buffer_paddr & !0xF) | (channel & 0xF)
}

/// Whether the word read from the mailbox is the answer to the message at
/// `buffer_paddr` sent on `channel`.
pub fn is_response_to(resp_word: u32, channel: u32, buffer_paddr: u32) -> (r: bool)
    ensures
        r == answers(resp_word, channel, buffer_paddr),
{
    ((resp_word & 0xF) == channel) && ((resp_word & !0xF) == buffer_paddr)
}

/// When the message buffer is 16-byte aligned and the channel fits in four
/// bits, the word announcing a message is recognised as the answer to that
/// message, and to no other message of an aligned buffer on a valid channel.
pub proof fn lemma_request_word_answers(
    buffer_paddr: u32,
    channel: u32,
    other_paddr: u32,
    other_channel: u32,
)
    requires
        buffer_paddr & 0xFu32 == 0,
        channel < 16,
        other_paddr & 0xFu32 == 0,
        other_channel < 16,
    ensures
        answers(request_word_of(buffer_paddr, channel), channel, buffer_paddr),
        answers(request_word_of(buffer_paddr, channel), other_channel, other_paddr) <==> (
        other_channel == channel && other_paddr == buffer_paddr),
{
    assert(answers(request_word_of(buffer_paddr, channel), channel, buffer_paddr)) by (bit_vector)
        requires
            buffer_paddr & 0xFu32 == 0,
            channel < 16,
    ;
    assert(answers(request_word_of(buffer_paddr, channel), other_channel, other_paddr) <==> (
    other_channel == channel && other_paddr == buffer_paddr)) by (bit_vector)
        requires
            buffer_paddr & 0xFu32 == 0,
            channel < 16,
            other_paddr & 0xFu32 == 0,
            other_channel < 16,
    ;
}

/// Whether a STATUS register value says the mailbox is full.
pub fn status_is_full(status: u32) -> (r: bool)
    ensures
        r == (status & STATUS_FULL != 0),
{
    status & STATUS_FULL != 0
}

/// Whether a STATUS register value says the mailbox is empty.
pub fn status_is_empty(status: u32) -> (r: bool)
    ensures
        r == (status & STATUS_EMPTY != 0),
{
    status & STATUS_EMPTY != 0
}

/// Where a call through the mailbox stands.
#[derive(Debug, Clone, Copy, PartialEq, Eq, Structural)]
pub enum Phase {
    /// Waiting for room to write the request word.
    WaitWritable,
    /// The request word is written; waiting for the answer.
    WaitAnswer,
    /// The answer has been read.
    Done,
}

/// What the caller does next.
#[derive(Debug, Clone, Copy, PartialEq, Eq, Structural)]
pub enum Action {
    /// Idle briefly, then read the STATUS register again.
    Poll,
    /// Write this word to the WRITE register, then read STATUS again.
    Write(u32),
    /// Read the READ register.
    Read,
    /// The message has been answered: the buffer holds the response.
    Finish,
}

/// The handshake of one mailbox call: write the request word once the
/// mailbox has room, then read words until one answers the message.
#[derive(Debug, Clone, Copy)]
pub struct Handshake {
    buffer_paddr: u32,
    channel: u32,
    phase: Phase,
}

impl Handshake {
    pub closed spec fn paddr(&self) -> u32 {
        self.buffer_paddr
    }

    pub closed spec fn chan(&self) -> u32 {
        self.channel
    }

    pub closed spec fn stage(&self) -> Phase {
        self.phase
    }

    /// A handshake for the message at `buffer_paddr` on `channel`, waiting
    /// for room to write.
    pub fn new(buffer_paddr: u32, channel: u32) -> (r: Handshake)
        ensures
            r.paddr() == buffer_paddr,
            r.chan() == channel,
            r.stage() == Phase::WaitWritable,
    {
        Handshake { buffer_paddr, channel, phase: Phase::WaitWritable }
    }

    pub fn phase(&self) -> (r: Phase)
        ensures
            r == self.stage(),
    {
        self.phase
    }

    /// The next step after reading `status` from the STATUS register: write
    /// the request word once the mailbox is not full, read once it is not
    /// empty, poll otherwise.
    pub fn on_status(&mut self, status: u32) -> (a: Action)
        ensures
            final(self).paddr() == old(self).paddr(),
            final(self).chan() == old(self).chan(),
            old(self).stage() == Phase::WaitWritable && status & STATUS_FULL != 0 ==> a
                == Action::Poll && final(self).stage() == Phase::WaitWritable,
            old(self).stage() == Phase::WaitWritable && status & STATUS_FULL == 0 ==> a
                == Action::Write(request_word_of(old(self).paddr(), old(self).chan()))
                && final(self).stage() == Phase::WaitAnswer,
            old(self).stage() == Phase::WaitAnswer && status & STATUS_EMPTY != 0 ==> a
                == Action::Poll && final(self).stage() == Phase::WaitAnswer,
            old(self).stage() == Phase::WaitAnswer && status & STATUS_EMPTY == 0 ==> a
                == Action::Read && final(self).stage() == Phase::WaitAnswer,
            old(self).stage() == Phase::Done ==> a == Action::Finish && final(self).stage()
                == Phase::Done,
    {
        match self.phase {
            Phase::WaitWritable => {
                if status_is_full(status) {
                    Action::Poll
                } else {
                    self.phase = Phase::WaitAnswer;
                    Action::Write(request_word(self.buffer_paddr, self.channel))
                }
            },
            Phase::WaitAnswer => {
                if status_is_empty(status) {
                    Action::Poll
                } else {
                    Action::Read
                }
            },
            Phase::Done => Action::Finish,
        }
    }

    /// The next step after reading `word` from the READ register: finish
    /// when it answers the message, otherwise wait for another word.
    pub fn on_read(&mut self, word: u32) -> (a: Action)
        ensures
            final(self).paddr() == old(self).paddr(),
            final(self).chan() == old(self).chan(),
            old(self).stage() == Phase::WaitAnswer && answers(
                word,
                old(self).chan(),
                old(self).paddr(),
            ) ==> a == Action::Finish && final(self).stage() == Phase::Done,
            old(self).stage() == Phase::WaitAnswer && !answers(
                word,
                old(self).chan(),
                old(self).paddr(),
            ) ==> a == Action::Poll && final(self).stage() == Phase::WaitAnswer,
            old(self).stage() == Phase::WaitWritable ==> a == Action::Poll && final(self).stage()
                == Phase::WaitWritable,
            old(self).stage() == Phase::Done ==> a == Action::Finish && final(self).stage()
                == Phase::Done,
    {
        match self.phase {
            Phase::WaitAnswer => {
                if is_response_to(word, self.channel, self.buffer_paddr) {
                    self.phase = Phase::Done;
                    Action::Finish
                } else {
                    Action::Poll
                }
            },
            Phase::WaitWritable => Action::Poll,
            Phase::Done => Action::Finish,
        }
    }
}

} // verus!
