use rpi3_periph::bcm2837::mbox::{self, MBOX};
use rpi3_periph::mailbox::msg::blank_screen::{self, BlankScreenCmd, BlankScreenResp};
use rpi3_periph::mailbox::msg::framebuffer::{self, FramebufferCmd, FramebufferResp};
use rpi3_periph::mailbox::msg::get_board_rev::{self, GetBoardRevCmd, GetBoardRevResp};
use rpi3_periph::mailbox::msg::get_serial_num::{self, GetSerialNumCmd, GetSerialNumResp};
use rpi3_periph::mailbox::msg::get_temperature::{self, GetTemperatureCmd, GetTemperatureResp};
use rpi3_periph::mailbox::msg::set_clock_rate::{self, SetClockRateCmd, SetClockRateResp};
use rpi3_periph::mailbox::msg::Resp;
use rpi3_periph::mailbox::{
    channel, clock, response, tag, Mailbox, MailboxBufferConstructor, MboxError,
    MAILBOX_BUFFER_LEN, REQUEST,
};

fn filled() -> [u32; MAILBOX_BUFFER_LEN] {
    [0xDEAD_BEEF; MAILBOX_BUFFER_LEN]
}

/// Checks the size word, the request code, the tag chain and that the words
/// after the message are untouched.
fn check_request(b: &[u32; MAILBOX_BUFFER_LEN], words: usize) {
    assert_eq!(b[0] as usize, words * 4);
    assert_eq!(b[1], REQUEST);
    let mut i = 2;
    while b[i] != tag::LAST {
        assert_eq!(b[i + 1] % 4, 0);
        i += 3 + (b[i + 1] / 4) as usize;
    }
    assert_eq!(i, words - 1);
    for w in &b[words..] {
        assert_eq!(*w, 0xDEAD_BEEF);
    }
}

#[test]
fn constants() {
    assert_eq!(channel::PROP, 8);
    assert_eq!(clock::UART, 2);
    assert_eq!(response::SUCCESS, 0x8000_0000);
    assert_eq!(response::ERROR, 0x8000_0001);
    assert_eq!(MAILBOX_BUFFER_LEN, 36);
}

#[test]
fn blank_screen_request() {
    let mut b = filled();
    BlankScreenCmd { state: true }.construct_buffer(&mut b);
    assert_eq!(&b[..7], &[28, 0, 0x0004_0002, 4, 4, 1, 0]);
    check_request(&b, 7);
    BlankScreenCmd { state: false }.construct_buffer(&mut b);
    assert_eq!(b[5], 0);
}

#[test]
fn framebuffer_request() {
    let mut b = filled();
    let cmd = FramebufferCmd {
        phy_width: 800,
        phy_height: 480,
        virt_width: 800,
        virt_height: 480,
        x_offset: 0,
        y_offset: 0,
    };
    cmd.construct_buffer(&mut b);
    assert_eq!(
        &b[..35],
        &[
            140, 0, 0x48003, 8, 8, 800, 480, 0x48004, 8, 8, 800, 480, 0x48009, 8, 8, 0, 0, 0x48005,
            4, 4, 32, 0x48006, 4, 4, 1, 0x40001, 8, 8, 4096, 0, 0x40008, 4, 4, 0, 0
        ]
    );
    check_request(&b, 35);
}

#[test]
fn board_rev_request() {
    let mut b = filled();
    GetBoardRevCmd.construct_buffer(&mut b);
    assert_eq!(&b[..6], &[24, 0, 0x0001_0002, 0, 4, 0]);
    check_request(&b, 6);
}

#[test]
fn serial_num_request() {
    let mut b = filled();
    GetSerialNumCmd.construct_buffer(&mut b);
    assert_eq!(&b[..6], &[24, 0, 0x0001_0004, 0, 8, 0]);
    check_request(&b, 6);
}

#[test]
fn temperature_request() {
    let mut b = filled();
    GetTemperatureCmd { id: 0 }.construct_buffer(&mut b);
    assert_eq!(&b[..7], &[28, 0, 0x0003_0006, 4, 8, 0, 0]);
    check_request(&b, 7);
}

#[test]
fn clock_rate_request_skips_turbo() {
    let mut b = filled();
    SetClockRateCmd { clock_id: clock::UART, freq: 4_000_000, flags: 1 }.construct_buffer(&mut b);
    assert_eq!(&b[..9], &[36, 0, 0x38002, 12, 8, 2, 4_000_000, 0, 0]);
    check_request(&b, 9);
}

fn answered(tag: u32) -> [u32; MAILBOX_BUFFER_LEN] {
    let mut b = [0u32; MAILBOX_BUFFER_LEN];
    b[0] = 36 * 4;
    b[1] = response::SUCCESS;
    b[2] = tag;
    b
}

#[test]
fn responses_read_their_words() {
    let mut b = answered(blank_screen::TAG);
    b[3] = blank_screen::RESP_LEN;
    b[5] = 3;
    assert!(BlankScreenResp::from_buffer(&b).state);
    b[5] = 2;
    assert!(!BlankScreenResp::from_buffer(&b).state);

    let mut b = answered(get_board_rev::TAG);
    b[5] = 0xA02082;
    assert_eq!(GetBoardRevResp::from_buffer(&b).board_revision, 0xA02082);

    let mut b = answered(get_serial_num::TAG);
    b[5] = 0x1234_5678;
    b[6] = 0x9ABC_DEF0;
    assert_eq!(GetSerialNumResp::from_buffer(&b).serial_number, 0x9ABC_DEF0_1234_5678);

    let mut b = answered(get_temperature::TAG);
    b[5] = 0;
    b[6] = 47_236;
    let t = GetTemperatureResp::from_buffer(&b);
    assert_eq!((t.id, t.value), (0, 47_236));

    let mut b = answered(set_clock_rate::TAG);
    b[5] = 2;
    b[6] = 3_000_000;
    let c = SetClockRateResp::from_buffer(&b);
    assert_eq!((c.clock_id, c.freq), (2, 3_000_000));
}

#[test]
fn framebuffer_response_clears_alias_bits() {
    let mut b = answered(framebuffer::SET_PHY_SIZE_TAG);
    b[5] = 640;
    b[6] = 480;
    b[20] = 32;
    b[28] = 0xC010_0000;
    b[33] = 2560;
    let fb = FramebufferResp::from_buffer(&b);
    assert_eq!((fb.phy_width, fb.phy_height, fb.pitch), (640, 480, 2560));
    assert_eq!(fb.pixels_addr(), 0x0010_0000);
    assert_eq!(fb.pixel_offset(0, 0), 0);
    assert_eq!(fb.pixel_offset(3, 2), 2 * 640 + 3);
}

#[test]
fn resp_dispatch_on_first_tag() {
    let mut b = answered(blank_screen::TAG);
    b[3] = blank_screen::RESP_LEN;
    b[5] = 1;
    assert!(Resp::parsable(&b));
    assert!(matches!(Resp::from_buffer(&b), Resp::BlankScreenResp(BlankScreenResp { state: true })));

    let b = answered(get_temperature::TAG);
    assert!(matches!(Resp::from_buffer(&b), Resp::GetTemperatureResp(_)));

    let b = answered(set_clock_rate::TAG);
    assert!(matches!(Resp::from_buffer(&b), Resp::SetClockRateResp(_)));

    let mut b = answered(framebuffer::SET_PHY_SIZE_TAG);
    b[20] = 32;
    b[28] = 0x4000_1000;
    assert!(matches!(Resp::from_buffer(&b), Resp::FramebufferResp(_)));

    // Tags without a response variant are acknowledgements.
    let b = answered(get_board_rev::TAG);
    assert!(matches!(Resp::from_buffer(&b), Resp::Ack));
}

#[test]
fn resp_parsable_rejects_bad_buffers() {
    let mut b = answered(blank_screen::TAG);
    b[3] = 8;
    assert!(!Resp::parsable(&b));
    let mut b = answered(framebuffer::SET_PHY_SIZE_TAG);
    b[20] = 16;
    b[28] = 0x4000_1000;
    assert!(!Resp::parsable(&b));
    b[20] = 32;
    b[28] = 0;
    assert!(!Resp::parsable(&b));
}

#[test]
fn mailbox_new_zeroes_buffer() {
    let m = Mailbox::new(MBOX::from_addr(mbox::PADDR));
    assert_eq!(m.buffer(), &[0u32; MAILBOX_BUFFER_LEN]);
    assert_eq!(m.mbox().addr(), mbox::PADDR);
}

#[test]
fn mailbox_prepare_and_response() {
    let mut m = Mailbox::new(MBOX::from_addr(mbox::PADDR));
    m.prepare(&GetTemperatureCmd { id: 0 });
    assert_eq!(&m.buffer()[..7], &[28, 0, 0x0003_0006, 4, 8, 0, 0]);
    // Word 1 still holds the request code: neither success nor error.
    assert!(matches!(m.response(), Err(MboxError::UnknownError)));
}

#[test]
fn mailbox_response_by_status_word() {
    let mut b = answered(get_temperature::TAG);
    b[6] = 40_000;
    match Mailbox::response_of(&b) {
        Ok(Resp::GetTemperatureResp(t)) => assert_eq!(t.value, 40_000),
        _ => panic!("expected a temperature response"),
    }
    b[1] = response::ERROR;
    assert!(matches!(Mailbox::response_of(&b), Err(MboxError::ResponseError)));
    b[1] = 0x8000_0002;
    assert!(matches!(Mailbox::response_of(&b), Err(MboxError::UnknownError)));
}
