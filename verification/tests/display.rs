use rpi3_periph::bar_graph::BarGeometry;
use rpi3_periph::console::{self, Serial, SerialError};
use rpi3_periph::bcm2837::uart0::{self, UART0};
use rpi3_periph::display::{self, Display, DisplayColor, Rgb8};
use rpi3_periph::eg_display;
use rpi3_periph::mailbox::msg::framebuffer::{self, FramebufferCmd, FramebufferResp};
use rpi3_periph::mailbox::msg::Resp;
use rpi3_periph::mailbox::{response, MboxError, MAILBOX_BUFFER_LEN};

fn fb(width: u32, height: u32, pitch: u32) -> FramebufferResp {
    let mut b = [0u32; MAILBOX_BUFFER_LEN];
    b[1] = response::SUCCESS;
    b[2] = framebuffer::SET_PHY_SIZE_TAG;
    b[5] = width;
    b[6] = height;
    b[20] = 32;
    b[28] = 0x4008_0000;
    b[33] = pitch;
    FramebufferResp::from_buffer(&b)
}

#[test]
fn display_color_conversions() {
    assert_eq!(DisplayColor::from(7u8), DisplayColor(Rgb8 { r: 7, g: 7, b: 7 }));
    assert_eq!(DisplayColor::from(0x01FEu16), DisplayColor(Rgb8 { r: 0xFF, g: 0xFF, b: 0xFF }));
    assert_eq!(DisplayColor::from(0x0100u16), DisplayColor(Rgb8 { r: 0x80, g: 0x80, b: 0x80 }));
    assert_eq!(
        DisplayColor::from(0xAA11_2233u32),
        DisplayColor(Rgb8 { r: 0x33, g: 0x22, b: 0x11 })
    );
    assert_eq!(DisplayColor::from((1u8, 2u8, 3u8)), DisplayColor(Rgb8 { r: 1, g: 2, b: 3 }));
    assert_eq!(DisplayColor::from(Rgb8::new(4, 5, 6)).into_inner(), Rgb8 { r: 4, g: 5, b: 6 });
    assert_eq!(DisplayColor::default(), DisplayColor(Rgb8 { r: 0, g: 0, b: 0 }));
}

#[test]
fn display_color_word() {
    let c = DisplayColor(Rgb8 { r: 0x12, g: 0x34, b: 0x56 });
    assert_eq!(u32::from(c), 0xFF56_3412);
    assert_eq!(DisplayColor::from(u32::from(c)), c);
    assert_eq!(u32::from(DisplayColor::from(0x0012_3456u32)), 0xFF12_3456);
    assert_eq!(u32::from(DisplayColor::from(0x7712_3456u32)), 0xFF12_3456);
}

#[test]
fn display_fb_request() {
    let d = Display::fb_request(None);
    assert_eq!((d.phy_width, d.phy_height, d.virt_width, d.virt_height), (240, 240, 240, 240));
    assert_eq!((d.x_offset, d.y_offset), (0, 0));
    let c = FramebufferCmd {
        phy_width: 800,
        phy_height: 480,
        virt_width: 800,
        virt_height: 480,
        x_offset: 0,
        y_offset: 0,
    };
    assert_eq!(Display::fb_request(Some(c)).phy_width, 800);
    assert_eq!(display::default_fb_cfg().virt_height, 240);
}

#[test]
fn display_from_resp() {
    let d = Display::from_resp(Resp::FramebufferResp(fb(640, 480, 2560))).ok().unwrap();
    assert_eq!((d.width(), d.height()), (640, 480));
    assert!(matches!(Display::from_resp(Resp::Ack), Err(MboxError::ResponseError)));
    let d = Display::from(fb(10, 20, 40));
    assert_eq!((d.width(), d.height()), (10, 20));
}

#[test]
fn display_pixel_write_clips() {
    let d = Display::from(fb(640, 480, 2560));
    let white = DisplayColor::from((0xFFu8, 0xFFu8, 0xFFu8));
    assert_eq!(d.pixel_write(0, 0, white), Some((0, 0xFFFF_FFFF)));
    assert_eq!(d.pixel_write(639, 479, white), Some((479 * 640 + 639, 0xFFFF_FFFF)));
    assert_eq!(d.pixel_write(640, 0, white), None);
    assert_eq!(d.pixel_write(0, 480, white), None);
}

#[test]
fn eg_display_pixel_write() {
    let d = eg_display::Display::new(fb(240, 240, 1024));
    assert_eq!((d.width(), d.height()), (240, 240));
    assert_eq!(d.pixel_write(5, 2, 0x00FF_00FF), Some((2 * 256 + 5, 0x00FF_00FF)));
    assert_eq!(d.pixel_write(240, 2, 0x00FF_00FF), None);
}

#[test]
fn console_puts_expands_newlines() {
    let s = Serial::new(UART0::from_addr(uart0::PADDR));
    assert_eq!(s.puts("Hello\n"), vec!['H', 'e', 'l', 'l', 'o', '\r', '\n']);
    assert_eq!(s.puts(""), Vec::<char>::new());
    assert_eq!(s.puts("é\n\n"), vec!['é', '\r', '\n', '\r', '\n']);
}

#[test]
fn console_rx_char() {
    assert_eq!(Serial::rx_char(b'\r' as u32), '\n');
    assert_eq!(Serial::rx_char(0x0141), 'A');
    assert_eq!(Serial::rx_char(b'x' as u32), 'x');
}

#[test]
fn console_clock_request() {
    let c = Serial::clock_request();
    assert_eq!((c.clock_id, c.freq, c.flags), (2, 4_000_000, 0));
    assert_eq!((console::IBRD, console::FBRD), (2, 0xB));
    assert_eq!(SerialError::MailboxError, SerialError::MailboxError);
}

#[test]
fn bar_geometry() {
    let g = BarGeometry::new((100, 50), (150, 250));
    assert_eq!(
        g,
        BarGeometry { width: 50, height: 200, center_x: 125, center_y: 150 }
    );
    // Absolute coordinates: width is |-30| - |10| = 20.
    let g = BarGeometry::new((10, 0), (-30, 5));
    assert_eq!((g.width, g.height, g.center_x, g.center_y), (20, 5, 20, 2));
    // Negative sizes round toward zero.
    let g = BarGeometry::new((20, 9), (15, 2));
    assert_eq!((g.width, g.height, g.center_x, g.center_y), (-5, -7, 18, 6));
}
