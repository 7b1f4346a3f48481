//! Blank screen command and response
use vstd::prelude::*;

use crate::mailbox::tag;
use crate::mailbox::{
    tag_chain, MailboxBufferConstructor, MAILBOX_BUFFER_LEN,
    REQUEST,
};

verus! {

pub const TAG: u32 = 0x0004_0002;

pub const CMD_LEN: u32 = 4;
pub const RESP_LEN: u32 = 4;

#[derive(Debug)]
pub struct BlankScreenCmd {
    pub state: bool,
}

#[derive(Debug)]
pub struct BlankScreenResp {
    pub state: bool,
}

impl MailboxBufferConstructor for BlankScreenCmd {
    open spec fn request(&self) -> Seq<u32> {
        seq![
            28u32,
            REQUEST,
            TAG,
            CMD_LEN,
            RESP_LEN,
            if self.state { 1u32 } else { 0u32 },
            tag::LAST,
        ]
    }

    fn construct_buffer(&self, buffer: &mut [u32; MAILBOX_BUFFER_LEN])
        ensures
            final(buffer)@[0] == 28,
            final(buffer)@[1] == 0,
            final(buffer)@[2] == 0x40002,
            final(buffer)@[3] == 4,
            final(buffer)@[4] == 4,
            final(buffer)@[5] == (if self.state { 1u32 } else { 0u32 }),
            final(buffer)@[6] == 0,
    {
        buffer[0] = 7 * 4;
        buffer[1] = REQUEST;
        buffer[2] = TAG;
        buffer[3] = CMD_LEN;
        buffer[4] = RESP_LEN;
        buffer[5] = if self.state { 1 } else { 0 };
        buffer[6] = tag::LAST;
        proof {
            let b = buffer@;
            assert(tag_chain(b, 6, 6));
            assert(tag_chain(b, 2, 6));
            assert(b.subrange(0, 7) =~= self.request());
        }
    }
}

impl BlankScreenResp {
    /// Reads the response from a buffer whose first tag is the blank screen
    /// tag with a response length of `RESP_LEN`: the screen is blanked when
    /// bit 0 of word 5 is set.
    pub fn from_buffer(buffer: &[u32; MAILBOX_BUFFER_LEN]) -> (r: BlankScreenResp)
        requires
            buffer@[2] == TAG,
            buffer@[3] == RESP_LEN,
        ensures
            r.state == (buffer@[5] & 0x1 != 0),
    {
        BlankScreenResp { state: if buffer[5] & 0x1 == 0 { false } else { true } }
    }
}

/// A blank screen request carries 1 at word 5 when the screen is to be
/// blanked, 0 otherwise.
pub proof fn lemma_blank_screen_request_layout(cmd: BlankScreenCmd)
    ensures
        cmd.request().len() == 7,
        cmd.request()[0] == 28,
        cmd.request()[1] == 0,
        cmd.request()[2] == 0x40002,
        cmd.request()[3] == 4,
        cmd.request()[4] == 4,
        cmd.request()[5] == (if cmd.state { 1u32 } else { 0u32 }),
        cmd.request()[6] == 0,
{
}

} // verus!
