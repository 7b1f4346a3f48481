//! A framebuffer display drawn with 32-bit pixel values.
use vstd::prelude::*;

use crate::mailbox::msg::framebuffer::FramebufferResp;

verus! {

pub struct Display {
    fb_data: FramebufferResp,
}

impl Display {
    /// The framebuffer the display draws into.
    pub closed spec fn fb(&self) -> FramebufferResp {
        self.fb_data
    }

    pub fn new(fb_data: FramebufferResp) -> (r: Self)
        ensures
            r.fb() == fb_data,
    {
        Self { fb_data }
    }

    /// The framebuffer the display draws into.
    pub fn framebuffer(&self) -> (r: &FramebufferResp)
        ensures
            *r == self.fb(),
    {
        &self.fb_data
    }

    pub fn width(&self) -> (r: u32)
        ensures
            r == self.fb()@.phy_width,
    {
        self.fb_data.phy_width()
    }

    pub fn height(&self) -> (r: u32)
        ensures
            r == self.fb()@.phy_height,
    {
        self.fb_data.phy_height()
    }

    /// Where drawing pixel (`x`, `y`) with value `color` writes: nothing
    /// when the pixel lies outside the display, else the word offset of the
    /// pixel and the value. The offsets of the display's pixels must fit in
    /// 32 bits.
    pub fn pixel_write(&self, x: u32, y: u32, color: u32) -> (r: Option<(u32, u32)>)
        requires
            x < self.fb()@.phy_width && y < self.fb()@.phy_height ==> self.fb().offset_of(x, y)
                <= u32::MAX,
        ensures
            x >= self.fb()@.phy_width || y >= self.fb()@.phy_height ==> r is None,
            x < self.fb()@.phy_width && y < self.fb()@.phy_height ==> r == Some(
                (self.fb().offset_of(x, y) as u32, color),
            ),
            r matches Some(p) ==> p.0 == y * (self.fb()@.pitch / 4) + x && p.1 == color,
    {
        if x >= self.fb_data.phy_width() || y >= self.fb_data.phy_height() {
            None
        } else {
            Some((self.fb_data.pixel_offset(x, y), color))
        }
    }
}

} // verus!
