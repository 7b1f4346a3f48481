//! Board serial number query
use vstd::prelude::*;

use crate::mailbox::tag;
use crate::mailbox::{
    tag_chain, MailboxBufferConstructor, MAILBOX_BUFFER_LEN,
    REQUEST,
};

verus! {

pub const TAG: u32 = 0x0001_0004;

pub const CMD_LEN: u32 = 0;
pub const RESP_LEN: u32 = 8;

#[derive(Debug)]
pub struct GetSerialNumCmd;

#[derive(Debug)]
pub struct GetSerialNumResp {
    pub serial_number: u64,
}

impl MailboxBufferConstructor for GetSerialNumCmd {
    open spec fn request(&self) -> Seq<u32> {
        seq![24u32, REQUEST, TAG, CMD_LEN, RESP_LEN, tag::LAST]
    }

    fn construct_buffer(&self, buffer: &mut [u32; MAILBOX_BUFFER_LEN])
        ensures
            final(buffer)@[0] == 24,
            final(buffer)@[1] == 0,
            final(buffer)@[2] == 0x10004,
            final(buffer)@[3] == 0,
            final(buffer)@[4] == 8,
            final(buffer)@[5] == 0,
    {
        buffer[0] = 6 * 4;
        buffer[1] = REQUEST;
        buffer[2] = TAG;
        buffer[3] = CMD_LEN;
        buffer[4] = RESP_LEN;
        buffer[5] = tag::LAST;
        proof {
            let b = buffer@;
            assert(b.subrange(0, 6) =~= self.request());
            assert(tag_chain(b, 5, 5));
            assert(tag_chain(b, 2, 5));
        }
    }
}

impl GetSerialNumResp {
    /// Reads the response from a buffer whose first tag is the serial number
    /// tag: word 5 holds the low 32 bits of the serial number, word 6 the
    /// high 32 bits.
    pub fn from_buffer(buffer: &[u32; MAILBOX_BUFFER_LEN]) -> (r: GetSerialNumResp)
        requires
            buffer@[2] == TAG,
        ensures
            r.serial_number == buffer@[5] + buffer@[6] * 0x1_0000_0000,
    {
        let lo: u32 = buffer[5];
        let hi: u32 = buffer[6];
        let serial_number: u64 = lo as u64 | (hi as u64) << 32;
        assert(lo as u64 | (hi as u64) << 32 == lo + hi * 0x1_0000_0000) by (bit_vector);
        GetSerialNumResp { serial_number }
    }
}

/// A serial number request is the serial number tag with an empty value
/// buffer.
pub proof fn lemma_serial_num_request_layout(cmd: GetSerialNumCmd)
    ensures
        cmd.request().len() == 6,
        cmd.request()[0] == 24,
        cmd.request()[1] == 0,
        cmd.request()[2] == 0x10004,
        cmd.request()[3] == 0,
        cmd.request()[4] == 8,
        cmd.request()[5] == 0,
{
}

} // verus!
