//! Property messages and the responses read back from a buffer.
pub mod blank_screen;
pub mod framebuffer;
pub mod get_board_rev;
pub mod get_serial_num;
pub mod get_temperature;
pub mod set_clock_rate;

use vstd::prelude::*;

use self::blank_screen::BlankScreenResp;
use self::framebuffer::FramebufferResp;
use self::get_temperature::GetTemperatureResp;
use self::set_clock_rate::SetClockRateResp;
use crate::mailbox::MAILBOX_BUFFER_LEN;

verus! {

#[derive(Debug)]
pub enum Resp {
    Ack,
    SetClockRateResp(SetClockRateResp),
    BlankScreenResp(BlankScreenResp),
    FramebufferResp(FramebufferResp),
    GetTemperatureResp(GetTemperatureResp),
}

/// Whether a response buffer can be read: a blank screen response must
/// carry a response length of 4, and a framebuffer response a depth of 32
/// bits and a non-zero buffer address.
pub open spec fn resp_parsable(b: Seq<u32>) -> bool {
    &&& b.len() == MAILBOX_BUFFER_LEN
    &&& b[2] == blank_screen::TAG ==> b[3] == blank_screen::RESP_LEN
    &&& b[2] == framebuffer::SET_PHY_SIZE_TAG ==> b[20] == 32 && b[28] != 0
}

/// The response held in a buffer, chosen by its first tag; a buffer whose
/// first tag is none of the known ones is a plain acknowledgement.
pub open spec fn resp_of(b: Seq<u32>) -> Resp {
    if b[2] == set_clock_rate::TAG {
        Resp::SetClockRateResp(SetClockRateResp { clock_id: b[5], freq: b[6] })
    } else if b[2] == blank_screen::TAG {
        Resp::BlankScreenResp(BlankScreenResp { state: b[5] & 0x1 != 0 })
    } else if b[2] == get_temperature::TAG {
        Resp::GetTemperatureResp(GetTemperatureResp { id: b[5], value: b[6] })
    } else if b[2] == framebuffer::SET_PHY_SIZE_TAG {
        Resp::FramebufferResp(FramebufferResp::of_buffer(b))
    } else {
        Resp::Ack
    }
}

/// The response read from a buffer is chosen by its first tag and reads
/// the words of that tag's value buffer: clock id and rate from words 5 and
/// 6, blanking from bit 0 of word 5, sensor id and temperature from words 5
/// and 6, framebuffer size, pitch and pixel address from words 5, 6, 33 and
/// 28; any other first tag is an acknowledgement.
pub proof fn lemma_resp_of_fields(b: Seq<u32>)
    ensures
        b[2] == 0x38002 ==> (resp_of(b) matches Resp::SetClockRateResp(c) && c.clock_id == b[5]
            && c.freq == b[6]),
        b[2] == 0x40002 ==> (resp_of(b) matches Resp::BlankScreenResp(bs) && bs.state == (b[5] & 1
            != 0)),
        b[2] == 0x30006 ==> (resp_of(b) matches Resp::GetTemperatureResp(t) && t.id == b[5]
            && t.value == b[6]),
        b[2] == 0x48003 ==> (resp_of(b) matches Resp::FramebufferResp(f) && f@.phy_width == b[5]
            && f@.phy_height == b[6] && f@.pitch == b[33] && f@.pixels == b[28] & 0x3FFF_FFFFu32),
        b[2] != 0x38002 && b[2] != 0x40002 && b[2] != 0x30006 && b[2] != 0x48003 ==> resp_of(
            b,
        ) is Ack,
{
    FramebufferResp::lemma_of_buffer(b);
}

impl Resp {
    /// Reads the response held in a buffer, chosen by its first tag.
    pub fn from_buffer(buffer: &[u32; MAILBOX_BUFFER_LEN]) -> (r: Resp)
        requires
            resp_parsable(buffer@),
        ensures
            r == resp_of(buffer@),
            buffer@[2] == 0x38002 ==> (r matches Resp::SetClockRateResp(c) && c.clock_id
                == buffer@[5] && c.freq == buffer@[6]),
            buffer@[2] == 0x40002 ==> (r matches Resp::BlankScreenResp(bs) && bs.state == (
            buffer@[5] & 1 != 0)),
            buffer@[2] == 0x30006 ==> (r matches Resp::GetTemperatureResp(t) && t.id == buffer@[5]
                && t.value == buffer@[6]),
            buffer@[2] == 0x48003 ==> (r matches Resp::FramebufferResp(f) && f@.phy_width
                == buffer@[5] && f@.phy_height == buffer@[6] && f@.pitch == buffer@[33]
                && f@.pixels == buffer@[28] & 0x3FFF_FFFFu32),
            buffer@[2] != 0x38002 && buffer@[2] != 0x40002 && buffer@[2] != 0x30006 && buffer@[2]
                != 0x48003 ==> r is Ack,
    {
        let first_tag = buffer[2];
        if first_tag == set_clock_rate::TAG {
            Resp::SetClockRateResp(SetClockRateResp::from_buffer(buffer))
        } else if first_tag == blank_screen::TAG {
            Resp::BlankScreenResp(BlankScreenResp::from_buffer(buffer))
        } else if first_tag == get_temperature::TAG {
            Resp::GetTemperatureResp(GetTemperatureResp::from_buffer(buffer))
        } else if first_tag == framebuffer::SET_PHY_SIZE_TAG {
            // gate on the first tag
            Resp::FramebufferResp(FramebufferResp::from_buffer(buffer))
        } else {
            Resp::Ack
        }
    }

    /// Whether `from_buffer` can read `buffer`.
    pub fn parsable(buffer: &[u32; MAILBOX_BUFFER_LEN]) -> (r: bool)
        ensures
            r == resp_parsable(buffer@),
    {
        (buffer[2] != blank_screen::TAG || buffer[3] == blank_screen::RESP_LEN) && (buffer[2]
            != framebuffer::SET_PHY_SIZE_TAG || (buffer[20] == 32 && buffer[28] != 0))
    }
}

} // verus!
