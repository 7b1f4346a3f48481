//! Framebuffer commands and responses
use vstd::prelude::*;

use crate::mailbox::tag;
use crate::mailbox::{
    tag_chain, MailboxBufferConstructor, MAILBOX_BUFFER_LEN,
    REQUEST,
};

verus! {

pub const ALLOC_BUFFER_TAG: u32 = 0x40001;
pub const GET_PITCH_TAG: u32 = 0x40008;
pub const SET_PHY_SIZE_TAG: u32 = 0x48003;
pub const SET_VIRT_SIZE_TAG: u32 = 0x48004;
pub const SET_DEPTH_TAG: u32 = 0x48005;
pub const SET_PIXEL_ORDER_TAG: u32 = 0x48006;
pub const SET_VIRT_OFFSET_TAG: u32 = 0x48009;

#[derive(Debug)]
pub struct FramebufferCmd {
    pub phy_width: u32,
    pub phy_height: u32,
    pub virt_width: u32,
    pub virt_height: u32,
    pub x_offset: u32,
    pub y_offset: u32,
}

/// What a framebuffer response holds: the physical size, the pitch in bytes
/// and the ARM physical address of the first pixel.
pub struct FramebufferView {
    pub phy_width: u32,
    pub phy_height: u32,
    pub pitch: u32,
    pub pixels: u32,
}

#[derive(Debug)]
pub struct FramebufferResp {
    pub phy_width: u32,
    pub phy_height: u32,
    pub pitch: u32,
    pixels_addr: u32,
}

/// The words of a framebuffer request for `cmd`: physical size, virtual
/// size, virtual offset, a depth of 32 bits, RGB pixel order, a buffer
/// allocation with 4096-byte alignment and a pitch query.
pub open spec fn framebuffer_request(cmd: FramebufferCmd) -> Seq<u32> {
    seq![
        140u32, REQUEST,
        SET_PHY_SIZE_TAG, 8, 8, cmd.phy_width, cmd.phy_height,
        SET_VIRT_SIZE_TAG, 8, 8, cmd.virt_width, cmd.virt_height,
        SET_VIRT_OFFSET_TAG, 8, 8, cmd.x_offset, cmd.y_offset,
        SET_DEPTH_TAG, 4, 4, 32,
        SET_PIXEL_ORDER_TAG, 4, 4, 1,
        ALLOC_BUFFER_TAG, 8, 8, 4096, 0,
        GET_PITCH_TAG, 4, 4, 0,
        tag::LAST,
    ]
}

impl MailboxBufferConstructor for FramebufferCmd {
    open spec fn request(&self) -> Seq<u32> {
        framebuffer_request(*self)
    }

    fn construct_buffer(&self, buffer: &mut [u32; MAILBOX_BUFFER_LEN])
        ensures
            final(buffer)@[0] == 140,
            final(buffer)@[1] == 0,
            final(buffer)@[2] == 0x48003,
            final(buffer)@[3] == 8,
            final(buffer)@[4] == 8,
            final(buffer)@[5] == self.phy_width,
            final(buffer)@[6] == self.phy_height,
            final(buffer)@[7] == 0x48004,
            final(buffer)@[8] == 8,
            final(buffer)@[9] == 8,
            final(buffer)@[10] == self.virt_width,
            final(buffer)@[11] == self.virt_height,
            final(buffer)@[12] == 0x48009,
            final(buffer)@[13] == 8,
            final(buffer)@[14] == 8,
            final(buffer)@[15] == self.x_offset,
            final(buffer)@[16] == self.y_offset,
            final(buffer)@[17] == 0x48005,
            final(buffer)@[18] == 4,
            final(buffer)@[19] == 4,
            final(buffer)@[20] == 32,
            final(buffer)@[21] == 0x48006,
            final(buffer)@[22] == 4,
            final(buffer)@[23] == 4,
            final(buffer)@[24] == 1,
            final(buffer)@[25] == 0x40001,
            final(buffer)@[26] == 8,
            final(buffer)@[27] == 8,
            final(buffer)@[28] == 4096,
            final(buffer)@[29] == 0,
            final(buffer)@[30] == 0x40008,
            final(buffer)@[31] == 4,
            final(buffer)@[32] == 4,
            final(buffer)@[33] == 0,
            final(buffer)@[34] == 0,
    {
        buffer[0] = 35 * 4;
        buffer[1] = REQUEST;

        buffer[2] = SET_PHY_SIZE_TAG;
        buffer[3] = 8;
        buffer[4] = 8;
        buffer[5] = self.phy_width;
        buffer[6] = self.phy_height;

        buffer[7] = SET_VIRT_SIZE_TAG;
        buffer[8] = 8;
        buffer[9] = 8;
        buffer[10] = self.virt_width;
        buffer[11] = self.virt_height;

        buffer[12] = SET_VIRT_OFFSET_TAG;
        buffer[13] = 8;
        buffer[14] = 8;
        buffer[15] = self.x_offset;
        buffer[16] = self.y_offset;

        buffer[17] = SET_DEPTH_TAG;
        buffer[18] = 4;
        buffer[19] = 4;
        buffer[20] = 32;

        buffer[21] = SET_PIXEL_ORDER_TAG;
        buffer[22] = 4;
        buffer[23] = 4;
        // RGB
        buffer[24] = 1;

        buffer[25] = ALLOC_BUFFER_TAG;
        buffer[26] = 8;
        buffer[27] = 8;
        buffer[28] = 4096;
        buffer[29] = 0;

        buffer[30] = GET_PITCH_TAG;
        buffer[31] = 4;
        buffer[32] = 4;
        buffer[33] = 0;

        buffer[34] = tag::LAST;
        proof {
            let b = buffer@;
            assert(b.subrange(0, 35) =~= self.request());
            assert(tag_chain(b, 34, 34));
            assert(tag_chain(b, 30, 34));
            assert(tag_chain(b, 25, 34));
            assert(tag_chain(b, 21, 34));
            assert(tag_chain(b, 17, 34));
            assert(tag_chain(b, 12, 34));
            assert(tag_chain(b, 7, 34));
            assert(tag_chain(b, 2, 34));
        }
    }
}

impl View for FramebufferResp {
    type V = FramebufferView;

    closed spec fn view(&self) -> FramebufferView {
        FramebufferView {
            phy_width: self.phy_width,
            phy_height: self.phy_height,
            pitch: self.pitch,
            pixels: self.pixels_addr,
        }
    }
}

impl FramebufferResp {
    /// Reads the response from a buffer whose first tag is the physical size
    /// tag, whose depth is 32 bits and whose allocated buffer address is not
    /// 0. The pixels' ARM physical address is the bus address with the two
    /// alias bits cleared.
    pub fn from_buffer(buffer: &[u32; MAILBOX_BUFFER_LEN]) -> (r: FramebufferResp)
        requires
            buffer@[2] == SET_PHY_SIZE_TAG,
            buffer@[20] == 32,
            buffer@[28] != 0,
        ensures
            r == FramebufferResp::of_buffer(buffer@),
            r@ == FramebufferResp::view_of_buffer(buffer@),
            r@.phy_width == buffer@[5],
            r@.phy_height == buffer@[6],
            r@.pitch == buffer@[33],
            // The pixel address differs from the bus address only in the two
            // alias bits, which it has cleared.
            r@.pixels == buffer@[28] & 0x3FFF_FFFFu32,
            r@.pixels | (buffer@[28] & 0xC000_0000u32) == buffer@[28],
            r@.pixels < 0x4000_0000,
    {
        let bus: u32 = buffer[28];
        let pixels: u32 = bus & 0x3FFF_FFFF;
        assert(pixels | (bus & 0xC000_0000u32) == bus && pixels < 0x4000_0000) by (bit_vector)
            requires
                pixels == bus & 0x3FFF_FFFFu32,
        ;
        FramebufferResp {
            phy_width: buffer[5],
            phy_height: buffer[6],
            pitch: buffer[33],
            pixels_addr: pixels,
        }
    }

    /// The response held in a buffer: the physical size, the pitch and the
    /// ARM address of the allocated buffer.
    pub closed spec fn of_buffer(b: Seq<u32>) -> FramebufferResp {
        FramebufferResp {
            phy_width: b[5],
            phy_height: b[6],
            pitch: b[33],
            pixels_addr: b[28] & 0x3FFF_FFFF,
        }
    }

    /// What a framebuffer response read from a buffer holds: the physical
    /// size from words 5 and 6, the pitch from word 33, and the ARM address of
    /// the allocated buffer, which is the bus address in word 28 with the two
    /// alias bits cleared.
    pub open spec fn view_of_buffer(b: Seq<u32>) -> FramebufferView {
        FramebufferView {
            phy_width: b[5],
            phy_height: b[6],
            pitch: b[33],
            pixels: b[28] & 0x3FFF_FFFF,
        }
    }

    /// The view of `of_buffer(b)` is `view_of_buffer(b)`.
    pub proof fn lemma_of_buffer(b: Seq<u32>)
        ensures
            FramebufferResp::of_buffer(b)@ == FramebufferResp::view_of_buffer(b),
    {
    }

    /// A framebuffer response read from a buffer holds the physical size of
    /// words 5 and 6 and the pitch of word 33; its pixel address is the bus
    /// address of word 28 with only the two alias bits (31 and 30) cleared.
    pub proof fn lemma_view_of_buffer_fields(b: Seq<u32>)
        ensures
            FramebufferResp::of_buffer(b)@.phy_width == b[5],
            FramebufferResp::of_buffer(b)@.phy_height == b[6],
            FramebufferResp::of_buffer(b)@.pitch == b[33],
            FramebufferResp::of_buffer(b)@.pixels | (b[28] & 0xC000_0000u32) == b[28],
            FramebufferResp::of_buffer(b)@.pixels < 0x4000_0000,
            FramebufferResp::view_of_buffer(b).pixels | (b[28] & 0xC000_0000u32) == b[28],
            FramebufferResp::view_of_buffer(b).pixels < 0x4000_0000,
    {
        let bus: u32 = b[28];
        let pixels: u32 = FramebufferResp::of_buffer(b)@.pixels;
        let view_pixels: u32 = FramebufferResp::view_of_buffer(b).pixels;
        assert(pixels == bus & 0x3FFF_FFFFu32);
        assert(view_pixels == bus & 0x3FFF_FFFFu32);
        assert(pixels | (bus & 0xC000_0000u32) == bus && pixels < 0x4000_0000) by (bit_vector)
            requires
                pixels == bus & 0x3FFF_FFFFu32,
        ;
        assert(view_pixels | (bus & 0xC000_0000u32) == bus && view_pixels < 0x4000_0000)
            by (bit_vector)
            requires
                view_pixels == bus & 0x3FFF_FFFFu32,
        ;
    }

    pub fn phy_width(&self) -> (r: u32)
        ensures
            r == self@.phy_width,
    {
        self.phy_width
    }

    pub fn phy_height(&self) -> (r: u32)
        ensures
            r == self@.phy_height,
    {
        self.phy_height
    }

    pub fn pitch(&self) -> (r: u32)
        ensures
            r == self@.pitch,
    {
        self.pitch
    }

    /// The ARM physical address of the first pixel.
    pub fn pixels_addr(&self) -> (r: u32)
        ensures
            r == self@.pixels,
    {
        self.pixels_addr
    }

    /// Word offset, from the first pixel, of pixel (`x`, `y`): rows are
    /// `pitch` bytes apart and pixels are 32-bit words.
    pub open spec fn offset_of(&self, x: u32, y: u32) -> int {
        y * (self@.pitch / 4) + x
    }

    /// Word offset, from the first pixel, of pixel (`x`, `y`), which must fit
    /// in 32 bits. The pixel's value is written at that offset.
    pub fn pixel_offset(&self, x: u32, y: u32) -> (r: u32)
        requires
            self.offset_of(x, y) <= u32::MAX,
        ensures
            r == self.offset_of(x, y),
    {
        proof {
            assert(0 <= y * (self.pitch / 4) <= self.offset_of(x, y)) by (nonlinear_arith)
                requires
                    self.offset_of(x, y) == y * (self.pitch / 4) + x,
                    x >= 0,
            ;
        }
        (y * (self.pitch / 4)) + x
    }
}

/// A framebuffer request carries each field of the command at its fixed word:
/// the physical size at words 5 and 6, the virtual size at 10 and 11, and the
/// virtual offset, x then y, at 15 and 16.
pub proof fn lemma_framebuffer_request_layout(cmd: FramebufferCmd)
    ensures
        cmd.request().len() == 35,
        cmd.request()[0] == 140,
        cmd.request()[1] == 0,
        cmd.request()[2] == 0x48003,
        cmd.request()[3] == 8,
        cmd.request()[4] == 8,
        cmd.request()[5] == cmd.phy_width,
        cmd.request()[6] == cmd.phy_height,
        cmd.request()[7] == 0x48004,
        cmd.request()[8] == 8,
        cmd.request()[9] == 8,
        cmd.request()[10] == cmd.virt_width,
        cmd.request()[11] == cmd.virt_height,
        cmd.request()[12] == 0x48009,
        cmd.request()[13] == 8,
        cmd.request()[14] == 8,
        cmd.request()[15] == cmd.x_offset,
        cmd.request()[16] == cmd.y_offset,
        cmd.request()[17] == 0x48005,
        cmd.request()[18] == 4,
        cmd.request()[19] == 4,
        cmd.request()[20] == 32,
        cmd.request()[21] == 0x48006,
        cmd.request()[22] == 4,
        cmd.request()[23] == 4,
        cmd.request()[24] == 1,
        cmd.request()[25] == 0x40001,
        cmd.request()[26] == 8,
        cmd.request()[27] == 8,
        cmd.request()[28] == 4096,
        cmd.request()[29] == 0,
        cmd.request()[30] == 0x40008,
        cmd.request()[31] == 4,
        cmd.request()[32] == 4,
        cmd.request()[33] == 0,
        cmd.request()[34] == 0,
{
}

} // verus!
