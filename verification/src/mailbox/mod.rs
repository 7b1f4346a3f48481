//! VideoCore mailbox property interface: request buffers and responses.
pub mod channel;
pub mod clock;
pub mod msg;
pub mod response;
pub mod tag;

use vstd::prelude::*;

use crate::bcm2837::mbox::MBOX;

verus! {

/// Request code written into word 1 of a request buffer.
pub const REQUEST: u32 = 0;

/// Length of a mailbox buffer, in 32-bit words.
pub const MAILBOX_BUFFER_LEN: usize = 36;

/// Number of words of the message held in `b`: word 0 is its size in bytes.
pub open spec fn message_words(b: Seq<u32>) -> int {
    b[0] as int / 4
}

/// The tags of a property message, from the tag at word `i` up to the end
/// tag at word `end`: each tag is a non-zero id, a value buffer size in
/// bytes (a multiple of 4), a request/response code and the value buffer;
/// the next tag follows the value buffer.
pub open spec fn tag_chain(b: Seq<u32>, i: int, end: int) -> bool
    decreases end - i,
{
    if i == end {
        0 <= i < b.len() && b[i] == tag::LAST
    } else if 0 <= i && i + 3 <= end && end < b.len() && b[i] != tag::LAST && b[i + 1] % 4 == 0
        && i + 3 + b[i + 1] / 4 <= end {
        tag_chain(b, i + 3 + b[i + 1] / 4, end)
    } else {
        false
    }
}

/// A well-formed property request: word 0 is the size in bytes of the whole
/// message, which fits in the buffer; word 1 is the request code; the tags
/// run from word 2 to the end tag, the message's last word.
pub open spec fn well_formed_request(b: Seq<u32>) -> bool {
    &&& b.len() == MAILBOX_BUFFER_LEN
    &&& b[0] % 4 == 0
    &&& 3 <= message_words(b) <= MAILBOX_BUFFER_LEN
    &&& b[1] == REQUEST
    &&& tag_chain(b, 2, message_words(b) - 1)
}

/// A message that can be written into a mailbox buffer as a property
/// request.
pub trait MailboxBufferConstructor {
    /// The words of the request message.
    spec fn request(&self) -> Seq<u32>;

    /// Writes the request into the first words of `buffer`; the words after
    /// the message are left as they were.
    fn construct_buffer(&self, buffer: &mut [u32; MAILBOX_BUFFER_LEN])
        ensures
            message_words(final(buffer)@) == self.request().len(),
            final(buffer)@.subrange(0, self.request().len() as int) == self.request(),
            well_formed_request(final(buffer)@),
            forall|i: int|
                message_words(final(buffer)@) <= i < MAILBOX_BUFFER_LEN
                    ==> #[trigger] final(buffer)@[i] == old(buffer)@[i],
    ;
}

// Custom errors
#[derive(Debug, Clone, Copy, PartialEq, Eq, Structural)]
pub enum MboxError {
    ResponseError,
    UnknownError,
}

pub type Result<T> = core::result::Result<T, MboxError>;

/// A mailbox and the buffer through which its messages go.
pub struct Mailbox {
    mbox: MBOX,
    buffer: [u32; MAILBOX_BUFFER_LEN],
}

impl Mailbox {
    /// The words of the message buffer.
    pub closed spec fn words(&self) -> Seq<u32> {
        self.buffer@
    }

    /// The mailbox registers in use.
    pub closed spec fn regs(&self) -> MBOX {
        self.mbox
    }

    /// A mailbox with a zeroed buffer.
    pub fn new(mbox: MBOX) -> (r: Self)
        ensures
            r.regs() == mbox,
            r.words() == Seq::new(MAILBOX_BUFFER_LEN as nat, |i: int| 0u32),
    {
        let r = Self { mbox, buffer: [0; MAILBOX_BUFFER_LEN] };
        assert(r.words() =~= Seq::new(MAILBOX_BUFFER_LEN as nat, |i: int| 0u32));
        r
    }

    /// The mailbox registers in use.
    pub fn mbox(&self) -> (r: &MBOX)
        ensures
            *r == self.regs(),
    {
        &self.mbox
    }

    /// The message buffer.
    pub fn buffer(&self) -> (r: &[u32; MAILBOX_BUFFER_LEN])
        ensures
            r@ == self.words(),
    {
        &self.buffer
    }

    /// Writes the request of `constructor` into the buffer, the first step
    /// of a call.
    pub fn prepare<T: MailboxBufferConstructor>(&mut self, constructor: &T)
        ensures
            final(self).regs() == old(self).regs(),
            message_words(final(self).words()) == constructor.request().len(),
            final(self).words().subrange(0, constructor.request().len() as int)
                == constructor.request(),
            well_formed_request(final(self).words()),
            forall|i: int|
                message_words(final(self).words()) <= i < MAILBOX_BUFFER_LEN
                    ==> #[trigger] final(self).words()[i] == old(self).words()[i],
    {
        constructor.construct_buffer(&mut self.buffer);
    }

    /// The outcome of a call, read from the buffer once the VideoCore has
    /// answered.
    pub fn response(&self) -> (r: Result<msg::Resp>)
        requires
            self.words()[1] == response::SUCCESS ==> msg::resp_parsable(self.words()),
        ensures
            r == outcome(self.words()),
    {
        Self::response_of(&self.buffer)
    }

    /// The outcome of a call whose answered buffer is `buffer`: the parsed
    /// response when word 1 is the success code, a response error when it is
    /// the error code, an unknown error otherwise.
    pub fn response_of(buffer: &[u32; MAILBOX_BUFFER_LEN]) -> (r: Result<msg::Resp>)
        requires
            buffer@[1] == response::SUCCESS ==> msg::resp_parsable(buffer@),
        ensures
            r == outcome(buffer@),
            buffer@[1] == 0x8000_0000 && buffer@[2] == 0x38002 ==> (r matches Ok(
                msg::Resp::SetClockRateResp(c),
            ) && c.clock_id == buffer@[5] && c.freq == buffer@[6]),
            buffer@[1] == 0x8000_0000 && buffer@[2] == 0x40002 ==> (r matches Ok(
                msg::Resp::BlankScreenResp(bs),
            ) && bs.state == (buffer@[5] & 1 != 0)),
            buffer@[1] == 0x8000_0000 && buffer@[2] == 0x30006 ==> (r matches Ok(
                msg::Resp::GetTemperatureResp(t),
            ) && t.id == buffer@[5] && t.value == buffer@[6]),
            buffer@[1] == 0x8000_0000 && buffer@[2] == 0x48003 ==> (r matches Ok(
                msg::Resp::FramebufferResp(f),
            ) && f@.phy_width == buffer@[5] && f@.phy_height == buffer@[6] && f@.pitch
                == buffer@[33] && f@.pixels == buffer@[28] & 0x3FFF_FFFFu32),
            buffer@[1] == 0x8000_0000 && buffer@[2] != 0x38002 && buffer@[2] != 0x40002
                && buffer@[2] != 0x30006 && buffer@[2] != 0x48003 ==> (r matches Ok(msg::Resp::Ack)),
            buffer@[1] == 0x8000_0001 ==> (r matches Err(MboxError::ResponseError)),
            buffer@[1] != 0x8000_0000 && buffer@[1] != 0x8000_0001 ==> (r matches Err(
                MboxError::UnknownError,
            )),
    {
        let status = buffer[1];
        if status == response::SUCCESS {
            Ok(msg::Resp::from_buffer(buffer))
        } else if status == response::ERROR {
            Err(MboxError::ResponseError)
        } else {
            Err(MboxError::UnknownError)
        }
    }
}

/// The outcome of a call whose answered buffer is `b`, decided by its status
/// word (word 1).
pub open spec fn outcome(b: Seq<u32>) -> Result<msg::Resp> {
    if b[1] == response::SUCCESS {
        Ok(msg::resp_of(b))
    } else if b[1] == response::ERROR {
        Err(MboxError::ResponseError)
    } else {
        Err(MboxError::UnknownError)
    }
}

} // verus!
