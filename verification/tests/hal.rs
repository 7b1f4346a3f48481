use rpi3_periph::bcm2837::bsc0::{self, I2C0};
use rpi3_periph::bcm2837::mbox::{self, MBOX};
use rpi3_periph::bcm2837::uart0::{self, UART0};
use rpi3_periph::bcm2837::uart1::{self, UART1};
use rpi3_periph::hal::i2c::{self, I2c, PinScl, PinSda};
use rpi3_periph::hal::mailbox::{self, Channel, Mailbox};
use rpi3_periph::hal::pmem::PMem;
use rpi3_periph::hal::serial::{self, PinRx, PinTx, Serial, Uart0Divisors};

struct Tx;
struct Rx;
impl PinTx<UART0> for Tx {}
impl PinRx<UART0> for Rx {}
impl PinTx<UART1> for Tx {}
impl PinRx<UART1> for Rx {}

struct Scl;
struct Sda;
impl PinScl<I2C0> for Scl {}
impl PinSda<I2C0> for Sda {}

#[test]
fn hal_mailbox_new_needs_a_full_buffer() {
    let small = PMem::new(0x1000, mailbox::BUFFER_SIZE - 1);
    assert!(matches!(
        Mailbox::new(MBOX::from_addr(mbox::PADDR), small),
        Err(mailbox::Error::Truncated)
    ));
    let exact = PMem::new(0x1000, mailbox::BUFFER_SIZE);
    let m = Mailbox::new(MBOX::from_addr(mbox::PADDR), exact).unwrap();
    assert_eq!(m.buffer_pmem().paddr(), 0x1000);
    assert_eq!(m.mbox().addr(), mbox::PADDR);
}

#[test]
fn hal_mailbox_channel_number() {
    assert_eq!(u32::from(Channel::Prop), 8);
}

#[test]
fn hal_mailbox_handshake() {
    let m = Mailbox::new(MBOX::from_addr(mbox::PADDR), PMem::new(0x0010_0000, 0x1000)).unwrap();
    let mut hs = m.handshake(Channel::Prop);
    assert_eq!(hs.phase(), mbox::Phase::WaitWritable);
    assert_eq!(hs.on_status(0), mbox::Action::Write(0x0010_0008));
    assert_eq!(hs.on_read(0x0010_0009), mbox::Action::Poll);
    assert_eq!(hs.on_read(0x0020_0008), mbox::Action::Poll);
    assert_eq!(hs.on_read(0x0010_0008), mbox::Action::Finish);
}

#[test]
fn hal_mailbox_status_word() {
    assert_eq!(mailbox::status_word_result(0x8000_0000), Ok(()));
    assert_eq!(mailbox::status_word_result(0x8000_0001), Err(mailbox::Error::BadRequest));
    assert_eq!(mailbox::status_word_result(0), Err(mailbox::Error::BadStatusWord));
}

#[test]
fn uart0_divisors_16x_oversampling() {
    // 48 MHz / (16 * 115200) = 26.04 -> 26 + 2/64
    let (s, d) = Serial::uart0(UART0::from_addr(uart0::PADDR), (Tx, Rx), 115_200, 48_000_000);
    assert_eq!(d, Uart0Divisors { ibrd: 26, fbrd: 2 });
    let (u, _pins) = s.free();
    assert_eq!(u.addr(), uart0::PADDR);
}

#[test]
fn uart0_divisors_8x_oversampling() {
    // Above clock / 16 baud: 48 MHz * 8 / 4_000_000 = 96 -> 1 + 32/64
    let (_s, d) = Serial::uart0(UART0::from_addr(uart0::PADDR), (Tx, Rx), 4_000_000, 48_000_000);
    assert_eq!(d, Uart0Divisors { ibrd: 1, fbrd: 32 });
}

#[test]
fn uart1_baud_register() {
    // 250 MHz / 115200 = 2170; / 8 = 271; - 1 = 270
    let (s, brr) = Serial::uart1(UART1::from_addr(uart1::PADDR), (Tx, Rx), 115_200, 250_000_000);
    assert_eq!(brr, 270);
    let (u, _pins) = s.free();
    assert_eq!(u.addr(), uart1::PADDR);
}

#[test]
fn serial_tx_bytes_expand_newlines() {
    assert_eq!(serial::tx_bytes("a\nb\n"), vec![b'a', b'\r', b'\n', b'b', b'\r', b'\n']);
    assert_eq!(serial::tx_bytes(""), Vec::<u8>::new());
    assert_eq!(serial::tx_bytes("\r"), vec![b'\r']);
}

#[test]
fn serial_rx_byte_maps_carriage_return() {
    assert_eq!(serial::rx_byte(13), 10);
    assert_eq!(serial::rx_byte(0x0141), 0x41);
    assert_eq!(serial::rx_byte(0x010D), 10);
    assert_eq!(serial::rx_byte(10), 10);
}

#[test]
fn i2c0_divider_for_100khz() {
    let (bus, cdiv) = I2c::i2c0(I2C0::from_addr(bsc0::PADDR), (Scl, Sda), 400, 150_000_000);
    assert_eq!(cdiv, 1500);
    let (i2c, _pins) = bus.free();
    assert_eq!(i2c.addr(), bsc0::PADDR);
}

#[test]
fn i2c_transfer_result() {
    let done = bsc0::STATUS_DONE;
    assert_eq!(i2c::transfer_result(done), Ok(()));
    assert_eq!(i2c::transfer_result(done | bsc0::STATUS_ERR), Err(i2c::Error::Nack));
    assert_eq!(
        i2c::transfer_result(done | bsc0::STATUS_CLKT),
        Err(i2c::Error::ClockStretchTimeout)
    );
    assert_eq!(
        i2c::transfer_result(done | bsc0::STATUS_ERR | bsc0::STATUS_CLKT),
        Err(i2c::Error::Nack)
    );
}

#[test]
fn i2c_read_transfer_moves_bytes_in_order() {
    let mut t = i2c::Transfer::new(i2c::Direction::Read, 2);
    assert_eq!(t.on_status(0), i2c::Step::Poll);
    assert_eq!(t.on_status(bsc0::STATUS_TXD), i2c::Step::Poll);
    assert_eq!(t.on_status(bsc0::STATUS_RXD), i2c::Step::Receive(0));
    assert_eq!(t.on_status(bsc0::STATUS_RXD), i2c::Step::Receive(1));
    assert_eq!(t.on_status(bsc0::STATUS_RXD), i2c::Step::Finish);
}

#[test]
fn i2c_write_transfer_moves_bytes_in_order() {
    let mut t = i2c::Transfer::new(i2c::Direction::Write, 1);
    assert_eq!(t.on_status(bsc0::STATUS_RXD), i2c::Step::Poll);
    assert_eq!(t.on_status(bsc0::STATUS_TXD), i2c::Step::Send(0));
    assert_eq!(t.on_status(0), i2c::Step::Finish);
    let mut empty = i2c::Transfer::new(i2c::Direction::Write, 0);
    assert_eq!(empty.on_status(0), i2c::Step::Finish);
}
