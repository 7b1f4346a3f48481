//! Board revision query
use vstd::prelude::*;

use crate::mailbox::tag;
use crate::mailbox::{
    tag_chain, MailboxBufferConstructor, MAILBOX_BUFFER_LEN,
    REQUEST,
};

verus! {

pub const TAG: u32 = 0x0001_0002;

pub const CMD_LEN: u32 = 0;
pub const RESP_LEN: u32 = 4;

#[derive(Debug)]
pub struct GetBoardRevCmd;

#[derive(Debug)]
pub struct GetBoardRevResp {
    pub board_revision: u32,
}

impl MailboxBufferConstructor for GetBoardRevCmd {
    open spec fn request(&self) -> Seq<u32> {
        seq![24u32, REQUEST, TAG, CMD_LEN, RESP_LEN, tag::LAST]
    }

    fn construct_buffer(&self, buffer: &mut [u32; MAILBOX_BUFFER_LEN])
        ensures
            final(buffer)@[0] == 24,
            final(buffer)@[1] == 0,
            final(buffer)@[2] == 0x10002,
            final(buffer)@[3] == 0,
            final(buffer)@[4] == 4,
            final(buffer)@[5] == 0,
    {
        buffer[0] = 6 * 4;
        buffer[1] = REQUEST;
        buffer[2] = TAG;
        buffer[3] = CMD_LEN;
        buffer[4] = RESP_LEN;
        buffer[5] = tag::LAST;
        proof {
            let b = buffer@;
            assert(b.subrange(0, 6) =~= self.request());
            assert(tag_chain(b, 5, 5));
            assert(tag_chain(b, 2, 5));
        }
    }
}

impl GetBoardRevResp {
    /// Reads the response from a buffer whose first tag is the board
    /// revision tag: the revision is word 5.
    pub fn from_buffer(buffer: &[u32; MAILBOX_BUFFER_LEN]) -> (r: GetBoardRevResp)
        requires
            buffer@[2] == TAG,
        ensures
            r.board_revision == buffer@[5],
    {
        GetBoardRevResp { board_revision: buffer[5] }
    }
}

/// A board revision request is the board revision tag with an empty value
/// buffer.
pub proof fn lemma_board_rev_request_layout(cmd: GetBoardRevCmd)
    ensures
        cmd.request().len() == 6,
        cmd.request()[0] == 24,
        cmd.request()[1] == 0,
        cmd.request()[2] == 0x10002,
        cmd.request()[3] == 0,
        cmd.request()[4] == 4,
        cmd.request()[5] == 0,
{
}

} // verus!
