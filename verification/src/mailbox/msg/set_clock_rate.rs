//! Clock rate command
use vstd::prelude::*;

use crate::mailbox::tag;
use crate::mailbox::{
    tag_chain, MailboxBufferConstructor, MAILBOX_BUFFER_LEN,
    REQUEST,
};

verus! {

pub const TAG: u32 = 0x38002;

pub const CMD_LEN: u32 = 12;
pub const RESP_LEN: u32 = 8;

#[derive(Debug)]
pub struct SetClockRateCmd {
    pub clock_id: u32,
    pub freq: u32,
    pub flags: u32,
}

#[derive(Debug)]
pub struct SetClockRateResp {
    pub clock_id: u32,
    pub freq: u32,
}

impl MailboxBufferConstructor for SetClockRateCmd {
    /// The turbo setting word is always written as 0.
    open spec fn request(&self) -> Seq<u32> {
        seq![
            36u32,
            REQUEST,
            TAG,
            CMD_LEN,
            RESP_LEN,
            self.clock_id,
            self.freq,
            0,
            tag::LAST,
        ]
    }

    fn construct_buffer(&self, buffer: &mut [u32; MAILBOX_BUFFER_LEN])
        ensures
            final(buffer)@[0] == 36,
            final(buffer)@[1] == 0,
            final(buffer)@[2] == 0x38002,
            final(buffer)@[3] == 12,
            final(buffer)@[4] == 8,
            final(buffer)@[5] == self.clock_id,
            final(buffer)@[6] == self.freq,
            final(buffer)@[7] == 0,
            final(buffer)@[8] == 0,
    {
        buffer[0] = 9 * 4;
        buffer[1] = REQUEST;
        buffer[2] = TAG;
        buffer[3] = CMD_LEN;
        buffer[4] = RESP_LEN;
        buffer[5] = self.clock_id;
        buffer[6] = self.freq;
        // skip turbo setting
        buffer[7] = 0;
        buffer[8] = tag::LAST;
        proof {
            let b = buffer@;
            assert(b.subrange(0, 9) =~= self.request());
            assert(tag_chain(b, 8, 8));
            assert(tag_chain(b, 2, 8));
        }
    }
}

impl SetClockRateResp {
    /// Reads the response from a buffer whose first tag is the clock rate
    /// tag: the clock id is word 5 and the rate set, in Hz, word 6.
    pub fn from_buffer(buffer: &[u32; MAILBOX_BUFFER_LEN]) -> (r: SetClockRateResp)
        requires
            buffer@[2] == TAG,
        ensures
            r.clock_id == buffer@[5],
            r.freq == buffer@[6],
    {
        SetClockRateResp { clock_id: buffer[5], freq: buffer[6] }
    }
}

/// A clock rate request carries the command's clock id at word 5 and its
/// rate at word 6; the turbo word 7 is 0.
pub proof fn lemma_set_clock_rate_request_layout(cmd: SetClockRateCmd)
    ensures
        cmd.request().len() == 9,
        cmd.request()[0] == 36,
        cmd.request()[1] == 0,
        cmd.request()[2] == 0x38002,
        cmd.request()[3] == 12,
        cmd.request()[4] == 8,
        cmd.request()[5] == cmd.clock_id,
        cmd.request()[6] == cmd.freq,
        cmd.request()[7] == 0,
        cmd.request()[8] == 0,
{
}

} // verus!
