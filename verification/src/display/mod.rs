//! A framebuffer display with RGB colors.
use vstd::prelude::*;

use crate::mailbox::msg::framebuffer::{FramebufferCmd, FramebufferResp};
use crate::mailbox::msg::Resp;
use crate::mailbox::{MboxError, Result};

verus! {

/// An 8-bit-per-channel RGB color.
#[derive(Copy, Clone, Debug, Eq, PartialEq, Structural, Ord, PartialOrd, Hash)]
pub struct Rgb8 {
    pub r: u8,
    pub g: u8,
    pub b: u8,
}

impl Rgb8 {
    pub fn new(r: u8, g: u8, b: u8) -> (c: Rgb8)
        ensures
            c == (Rgb8 { r, g, b }),
    {
        Rgb8 { r, g, b }
    }
}

impl Default for Rgb8 {
    fn default() -> (c: Rgb8)
        ensures
            c == (Rgb8 { r: 0, g: 0, b: 0 }),
    {
        Rgb8 { r: 0, g: 0, b: 0 }
    }
}

/// A pixel color of the display.
#[derive(Copy, Clone, Debug, Eq, PartialEq, Structural, Ord, PartialOrd, Hash)]
pub struct DisplayColor(pub Rgb8);

impl Default for DisplayColor {
    fn default() -> (c: DisplayColor)
        ensures
            c == DisplayColor(Rgb8 { r: 0, g: 0, b: 0 }),
    {
        DisplayColor(Rgb8 { r: 0, g: 0, b: 0 })
    }
}

/// A grey level: the same value on the three channels.
pub open spec fn grey(level: u8) -> DisplayColor {
    DisplayColor(Rgb8 { r: level, g: level, b: level })
}

/// A 16-bit value taken as a grey level: bits 1 to 8.
pub open spec fn grey_of_u16(v: u16) -> DisplayColor {
    grey(((v >> 1u16) & 0xFFu16) as u8)
}

/// A 32-bit value taken as a color: red in bits 0-7, green in bits 8-15,
/// blue in bits 16-23.
pub open spec fn color_of_u32(v: u32) -> DisplayColor {
    DisplayColor(
        Rgb8 {
            r: (v & 0xFFu32) as u8,
            g: ((v >> 8u32) & 0xFFu32) as u8,
            b: ((v >> 16u32) & 0xFFu32) as u8,
        },
    )
}

/// The framebuffer word of a color: opaque alpha in bits 24-31, then blue,
/// green and red.
pub open spec fn word_of_color(c: DisplayColor) -> u32 {
    0xFF00_0000u32 | (c.0.r as u32) | ((c.0.g as u32) << 8u32) | ((c.0.b as u32) << 16u32)
}

impl From<u8> for DisplayColor {
    fn from(other: u8) -> (c: Self) {
        DisplayColor(Rgb8::new(other, other, other))
    }
}

impl vstd::std_specs::convert::FromSpecImpl<u8> for DisplayColor {
    open spec fn obeys_from_spec() -> bool {
        true
    }

    open spec fn from_spec(v: u8) -> DisplayColor {
        grey(v)
    }
}

impl From<u16> for DisplayColor {
    fn from(other: u16) -> (c: Self) {
        let mono = (other >> 1 & 0xFF) as u8;
        DisplayColor(Rgb8::new(mono, mono, mono))
    }
}

impl vstd::std_specs::convert::FromSpecImpl<u16> for DisplayColor {
    open spec fn obeys_from_spec() -> bool {
        true
    }

    open spec fn from_spec(v: u16) -> DisplayColor {
        grey_of_u16(v)
    }
}

impl From<u32> for DisplayColor {
    fn from(other: u32) -> (c: Self) {
        DisplayColor(
            Rgb8::new((other & 0xFF) as u8, (other >> 8 & 0xFF) as u8, (other >> 16 & 0xFF) as u8),
        )
    }
}

impl vstd::std_specs::convert::FromSpecImpl<u32> for DisplayColor {
    open spec fn obeys_from_spec() -> bool {
        true
    }

    open spec fn from_spec(v: u32) -> DisplayColor {
        color_of_u32(v)
    }
}

impl From<(u8, u8, u8)> for DisplayColor {
    fn from(other: (u8, u8, u8)) -> (c: Self) {
        DisplayColor(Rgb8::new(other.0, other.1, other.2))
    }
}

impl vstd::std_specs::convert::FromSpecImpl<(u8, u8, u8)> for DisplayColor {
    open spec fn obeys_from_spec() -> bool {
        true
    }

    open spec fn from_spec(v: (u8, u8, u8)) -> DisplayColor {
        DisplayColor(Rgb8 { r: v.0, g: v.1, b: v.2 })
    }
}

impl From<Rgb8> for DisplayColor {
    fn from(other: Rgb8) -> (c: Self) {
        DisplayColor(other)
    }
}

impl vstd::std_specs::convert::FromSpecImpl<Rgb8> for DisplayColor {
    open spec fn obeys_from_spec() -> bool {
        true
    }

    open spec fn from_spec(v: Rgb8) -> DisplayColor {
        DisplayColor(v)
    }
}

impl From<DisplayColor> for u32 {
    fn from(color: DisplayColor) -> (w: u32) {
        0xFF_00_00_00 | color.0.r as u32 | (color.0.g as u32) << 8 | (color.0.b as u32) << 16
    }
}

impl vstd::std_specs::convert::FromSpecImpl<DisplayColor> for u32 {
    open spec fn obeys_from_spec() -> bool {
        true
    }

    open spec fn from_spec(c: DisplayColor) -> u32 {
        word_of_color(c)
    }
}

impl DisplayColor {
    pub fn into_inner(self) -> (c: Rgb8)
        ensures
            c == self.0,
    {
        self.0
    }
}

/// Reading a color back from its framebuffer word gives the color; the word
/// of the color read from a 32-bit value keeps the value's low 24 bits and
/// sets the alpha byte.
pub proof fn lemma_color_word_round_trip(c: DisplayColor, v: u32)
    ensures
        color_of_u32(word_of_color(c)) == c,
        word_of_color(color_of_u32(v)) == 0xFF00_0000u32 | (v & 0x00FF_FFFFu32),
{
    let r = c.0.r;
    let g = c.0.g;
    let b = c.0.b;
    let w = word_of_color(c);
    assert(w == 0xFF00_0000u32 | (r as u32) | ((g as u32) << 8u32) | ((b as u32) << 16u32));
    assert((w & 0xFFu32) as u8 == r && ((w >> 8u32) & 0xFFu32) as u8 == g && ((w >> 16u32)
        & 0xFFu32) as u8 == b) by (bit_vector)
        requires
            w == 0xFF00_0000u32 | (r as u32) | ((g as u32) << 8u32) | ((b as u32) << 16u32),
    ;
    let d = color_of_u32(v);
    assert(0xFF00_0000u32 | (((v & 0xFFu32) as u8) as u32) | (((((v >> 8u32) & 0xFFu32) as u8)
        as u32) << 8u32) | (((((v >> 16u32) & 0xFFu32) as u8) as u32) << 16u32) == 0xFF00_0000u32
        | (v & 0x00FF_FFFFu32)) by (bit_vector);
}

/// What each conversion computes, channel by channel: a 32-bit value gives
/// red from its low byte, green from the next and blue from the third; a
/// color's framebuffer word is full alpha plus red, green * 2^8 and
/// blue * 2^16; a grey level goes to every channel, and a 16-bit value gives
/// the grey level of its bits 1 to 8.
pub proof fn lemma_color_channels(v: u32, w: u16, level: u8, c: DisplayColor)
    ensures
        color_of_u32(v).0.r == v % 256,
        color_of_u32(v).0.g == (v / 256) % 256,
        color_of_u32(v).0.b == (v / 65536) % 256,
        word_of_color(c) == 0xFF00_0000 + c.0.r + c.0.g * 256 + c.0.b * 65536,
        grey(level).0.r == level && grey(level).0.g == level && grey(level).0.b == level,
        grey_of_u16(w).0.r == (w / 2) % 256,
        grey_of_u16(w).0.g == (w / 2) % 256,
        grey_of_u16(w).0.b == (w / 2) % 256,
{
    let r = c.0.r;
    let g = c.0.g;
    let b = c.0.b;
    assert(((v & 0xFFu32) as u8) == v % 256 && (((v >> 8u32) & 0xFFu32) as u8) == (v / 256) % 256
        && (((v >> 16u32) & 0xFFu32) as u8) == (v / 65536) % 256) by (bit_vector);
    assert(0xFF00_0000u32 | (r as u32) | ((g as u32) << 8u32) | ((b as u32) << 16u32) == 0xFF00_0000
        + r + g * 256 + b * 65536) by (bit_vector);
    assert((((w >> 1u16) & 0xFFu16) as u8) == (w / 2) % 256) by (bit_vector);
}

/// The framebuffer configuration used when none is given: 240 by 240 pixels.
pub fn default_fb_cfg() -> (r: FramebufferCmd)
    ensures
        r == (FramebufferCmd {
            phy_width: 240,
            phy_height: 240,
            virt_width: 240,
            virt_height: 240,
            x_offset: 0,
            y_offset: 0,
        }),
{
    FramebufferCmd {
        phy_width: 240,
        phy_height: 240,
        virt_width: 240,
        virt_height: 240,
        x_offset: 0,
        y_offset: 0,
    }
}

pub struct Display {
    fb_data: FramebufferResp,
}

impl From<FramebufferResp> for Display {
    fn from(resp: FramebufferResp) -> (d: Display) {
        Display { fb_data: resp }
    }
}

impl vstd::std_specs::convert::FromSpecImpl<FramebufferResp> for Display {
    open spec fn obeys_from_spec() -> bool {
        true
    }

    open spec fn from_spec(resp: FramebufferResp) -> Display {
        Display::of_resp(resp)
    }
}

impl Display {
    /// The framebuffer the display draws into.
    pub closed spec fn fb(&self) -> FramebufferResp {
        self.fb_data
    }

    /// The display drawing into the framebuffer of `resp`.
    pub closed spec fn of_resp(resp: FramebufferResp) -> Display {
        Display { fb_data: resp }
    }

    /// `of_resp` draws into the framebuffer it is given.
    pub proof fn lemma_of_resp(resp: FramebufferResp)
        ensures
            Display::of_resp(resp).fb() == resp,
    {
    }

    /// The framebuffer request a display is set up with: `cfgcmd` when
    /// given, else the default configuration.
    pub fn fb_request(cfgcmd: Option<FramebufferCmd>) -> (r: FramebufferCmd)
        ensures
            cfgcmd matches Some(c) ==> r == c,
            cfgcmd is None ==> r == (FramebufferCmd {
                phy_width: 240,
                phy_height: 240,
                virt_width: 240,
                virt_height: 240,
                x_offset: 0,
                y_offset: 0,
            }),
    {
        if let Some(cfgcmd) = cfgcmd {
            cfgcmd
        } else {
            default_fb_cfg()
        }
    }

    /// The display for the response to its framebuffer request: a
    /// framebuffer response gives the display, any other response is a
    /// response error.
    pub fn from_resp(resp: Resp) -> (r: Result<Self>)
        ensures
            resp matches Resp::FramebufferResp(fb) ==> r matches Ok(d) && d.fb() == fb,
            !(resp is FramebufferResp) ==> r == Err::<Self, MboxError>(MboxError::ResponseError),
    {
        if let Resp::FramebufferResp(fb_resp) = resp {
            Ok(Display::from(fb_resp))
        } else {
            Err(MboxError::ResponseError)
        }
    }

    /// The framebuffer the display draws into.
    pub fn framebuffer(&self) -> (r: &FramebufferResp)
        ensures
            *r == self.fb(),
    {
        &self.fb_data
    }

    pub fn width(&self) -> (r: u32)
        ensures
            r == self.fb()@.phy_width,
    {
        self.fb_data.phy_width()
    }

    pub fn height(&self) -> (r: u32)
        ensures
            r == self.fb()@.phy_height,
    {
        self.fb_data.phy_height()
    }

    /// Where drawing pixel (`x`, `y`) in `color` writes: nothing when the
    /// pixel lies outside the display, else the word offset of the pixel and
    /// the color's framebuffer word. The offsets of the display's pixels must
    /// fit in 32 bits.
    pub fn pixel_write(&self, x: u32, y: u32, color: DisplayColor) -> (r: Option<(u32, u32)>)
        requires
            x < self.fb()@.phy_width && y < self.fb()@.phy_height ==> self.fb().offset_of(x, y)
                <= u32::MAX,
        ensures
            x >= self.fb()@.phy_width || y >= self.fb()@.phy_height ==> r is None,
            x < self.fb()@.phy_width && y < self.fb()@.phy_height ==> r == Some(
                (self.fb().offset_of(x, y) as u32, word_of_color(color)),
            ),
            // The pixel's word offset is its row times the words per row plus
            // its column; its word is full alpha plus red, green * 2^8 and
            // blue * 2^16.
            r matches Some(p) ==> p.0 == y * (self.fb()@.pitch / 4) + x && p.1 == 0xFF00_0000
                + color.0.r + color.0.g * 256 + color.0.b * 65536,
    {
        proof {
            lemma_color_channels(0, 0, 0, color);
        }
        if x >= self.fb_data.phy_width() || y >= self.fb_data.phy_height() {
            None
        } else {
            Some((self.fb_data.pixel_offset(x, y), u32::from(color)))
        }
    }
}

} // verus!
