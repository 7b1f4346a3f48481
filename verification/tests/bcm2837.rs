use rpi3_periph::bcm2837::mbox::{self, Action, Handshake, Phase, MBOX};
use rpi3_periph::bcm2837::rng::{self, RNG};
use rpi3_periph::bcm2837::{bsc0, uart0, uart1, MMIO_BASE};

#[test]
fn peripheral_addresses() {
    assert_eq!(MMIO_BASE, 0x3F00_0000);
    assert_eq!(mbox::BASE_PADDR, 0x3F00_B000);
    assert_eq!(mbox::PADDR, 0x3F00_B880);
    assert_eq!(rng::PADDR, 0x3F10_4000);
    assert_eq!(uart0::PADDR, 0x3F20_1000);
    assert_eq!(uart1::PADDR, 0x3F21_5000);
    assert_eq!(bsc0::PADDR, 0x3F20_5000);
}

#[test]
fn handles_keep_their_address() {
    assert_eq!(MBOX::from_addr(mbox::PADDR).addr(), 0x3F00_B880);
    assert_eq!(RNG::from_addr(rng::PADDR).addr(), 0x3F10_4000);
}

#[test]
fn request_word_carries_address_and_channel() {
    assert_eq!(mbox::request_word(0x0008_1230, 8), 0x0008_1238);
    // Low bits of the address and high bits of the channel are dropped.
    assert_eq!(mbox::request_word(0x0008_123F, 0x18), 0x0008_1238);
}

#[test]
fn response_word_is_recognised() {
    let w = mbox::request_word(0x0008_1230, 8);
    assert!(mbox::is_response_to(w, 8, 0x0008_1230));
    assert!(!mbox::is_response_to(w, 9, 0x0008_1230));
    assert!(!mbox::is_response_to(w, 8, 0x0008_1240));
    assert!(!mbox::is_response_to(0x0008_1239, 8, 0x0008_1230));
}

#[test]
fn status_bits() {
    assert!(mbox::status_is_full(0x8000_0000));
    assert!(!mbox::status_is_full(0x4000_0000));
    assert!(mbox::status_is_empty(0x4000_0000));
    assert!(!mbox::status_is_empty(0x8000_0001));
}

#[test]
fn handshake_writes_then_waits_for_answer() {
    let mut hs = Handshake::new(0x0008_1230, 8);
    assert_eq!(hs.phase(), Phase::WaitWritable);
    // A word read before the request is written is ignored.
    assert_eq!(hs.on_read(0x0008_1238), Action::Poll);
    assert_eq!(hs.on_status(mbox::STATUS_FULL), Action::Poll);
    assert_eq!(hs.phase(), Phase::WaitWritable);
    assert_eq!(hs.on_status(0), Action::Write(0x0008_1238));
    assert_eq!(hs.phase(), Phase::WaitAnswer);
    assert_eq!(hs.on_status(mbox::STATUS_EMPTY), Action::Poll);
    assert_eq!(hs.on_status(0), Action::Read);
    // An answer to another message keeps waiting.
    assert_eq!(hs.on_read(0x0009_0008), Action::Poll);
    assert_eq!(hs.phase(), Phase::WaitAnswer);
    assert_eq!(hs.on_read(0x0008_1238), Action::Finish);
    assert_eq!(hs.phase(), Phase::Done);
    assert_eq!(hs.on_status(0), Action::Finish);
}
