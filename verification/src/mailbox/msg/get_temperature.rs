//! SoC temperature query
use vstd::prelude::*;

use crate::mailbox::tag;
use crate::mailbox::{
    tag_chain, MailboxBufferConstructor, MAILBOX_BUFFER_LEN,
    REQUEST,
};

verus! {

pub const TAG: u32 = 0x0003_0006;

pub const CMD_LEN: u32 = 4;
pub const RESP_LEN: u32 = 8;

#[derive(Debug)]
pub struct GetTemperatureCmd {
    pub id: u32,
}

#[derive(Debug)]
pub struct GetTemperatureResp {
    pub id: u32,
    pub value: u32,
}

impl MailboxBufferConstructor for GetTemperatureCmd {
    open spec fn request(&self) -> Seq<u32> {
        seq![
            28u32,
            REQUEST,
            TAG,
            CMD_LEN,
            RESP_LEN,
            self.id,
            tag::LAST,
        ]
    }

    fn construct_buffer(&self, buffer: &mut [u32; MAILBOX_BUFFER_LEN])
        ensures
            final(buffer)@[0] == 28,
            final(buffer)@[1] == 0,
            final(buffer)@[2] == 0x30006,
            final(buffer)@[3] == 4,
            final(buffer)@[4] == 8,
            final(buffer)@[5] == self.id,
            final(buffer)@[6] == 0,
    {
        buffer[0] = 7 * 4;
        buffer[1] = REQUEST;
        buffer[2] = TAG;
        buffer[3] = CMD_LEN;
        buffer[4] = RESP_LEN;
        buffer[5] = self.id;
        buffer[6] = tag::LAST;
        proof {
            let b = buffer@;
            assert(b.subrange(0, 7) =~= self.request());
            assert(tag_chain(b, 6, 6));
            assert(tag_chain(b, 2, 6));
        }
    }
}

impl GetTemperatureResp {
    /// Reads the response from a buffer whose first tag is the temperature
    /// tag: the sensor id is word 5 and the temperature, in thousandths of a
    /// degree Celsius, word 6.
    pub fn from_buffer(buffer: &[u32; MAILBOX_BUFFER_LEN]) -> (r: GetTemperatureResp)
        requires
            buffer@[2] == TAG,
        ensures
            r.id == buffer@[5],
            r.value == buffer@[6],
    {
        GetTemperatureResp { id: buffer[5], value: buffer[6] }
    }
}

/// A temperature request carries the sensor id at word 5.
pub proof fn lemma_temperature_request_layout(cmd: GetTemperatureCmd)
    ensures
        cmd.request().len() == 7,
        cmd.request()[0] == 28,
        cmd.request()[1] == 0,
        cmd.request()[2] == 0x30006,
        cmd.request()[3] == 4,
        cmd.request()[4] == 8,
        cmd.request()[5] == cmd.id,
        cmd.request()[6] == 0,
{
}

} // verus!
