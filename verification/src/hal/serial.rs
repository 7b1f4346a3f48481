//! Serial
//!
//! There are two built-in UARTS, a PL011 (UART0)
//! and a mini UART (UART1).
use vstd::prelude::*;

use vstd::string::StringSliceAdditionalSpecFns;

use crate::bcm2837::uart0::UART0;
use crate::bcm2837::uart1::UART1;

verus! {

pub trait Pins<UART> {

}

pub trait PinTx<UART> {

}

pub trait PinRx<UART> {

}

impl<UART, TX, RX> Pins<UART> for (TX, RX) where TX: PinTx<UART>, RX: PinRx<UART> {

}

/// Serial abstraction
pub struct Serial<UART, PINS> {
    uart: UART,
    pins: PINS,
}

/// Baud rate divisor of the PL011, split into its integer part (IBRD) and
/// its 6-bit fractional part (FBRD).
#[derive(Debug, Clone, Copy, PartialEq, Eq, Structural)]
pub struct Uart0Divisors {
    pub ibrd: u32,
    pub fbrd: u32,
}

/// The PL011 baud rate divisor in 64ths: with 16-times oversampling it is
/// `clock * 4 / baud`; above `clock / 16` baud the UART runs at 8-times
/// oversampling and it is `clock * 8 / baud`.
pub open spec fn uart0_brr(baud_rate: u32, uart_clock: u32) -> int {
    if baud_rate > uart_clock / 16 {
        (uart_clock * 8) / (baud_rate as int)
    } else {
        (uart_clock * 4) / (baud_rate as int)
    }
}

/// Integer division rounds down: the quotient times the divisor does not
/// exceed the dividend, and one more does.
pub proof fn lemma_div_bounds(q: int, x: int, d: int)
    requires
        d > 0,
        x >= 0,
        q == x / d,
    ensures
        q * d <= x < (q + 1) * d,
{
    assert(q * d <= x < (q + 1) * d) by (nonlinear_arith)
        requires
            d > 0,
            q == x / d,
    ;
}

/// The PL011 divisor, in 64ths, is the UART clock over the baud rate,
/// rounded down: with 16-times oversampling up to `uart_clock / 16` baud,
/// with 8-times oversampling above.
pub proof fn lemma_uart0_brr_bounds(baud_rate: u32, uart_clock: u32)
    requires
        baud_rate != 0,
    ensures
        baud_rate <= uart_clock / 16 ==> uart0_brr(baud_rate, uart_clock) * baud_rate
            <= uart_clock * 4 < (uart0_brr(baud_rate, uart_clock) + 1) * baud_rate,
        baud_rate > uart_clock / 16 ==> uart0_brr(baud_rate, uart_clock) * baud_rate
            <= uart_clock * 8 < (uart0_brr(baud_rate, uart_clock) + 1) * baud_rate,
{
    if baud_rate <= uart_clock / 16 {
        lemma_div_bounds(uart0_brr(baud_rate, uart_clock), uart_clock * 4, baud_rate as int);
    } else {
        lemma_div_bounds(uart0_brr(baud_rate, uart_clock), uart_clock * 8, baud_rate as int);
    }
}

/// The mini UART baud register: `clock / baud / 8 - 1`, for its 8-times
/// oversampling.
pub open spec fn uart1_baud_reg(baud_rate: u32, core_clock: u32) -> int {
    (core_clock / baud_rate) / 8 - 1
}

impl<UART, PINS> Serial<UART, PINS> {
    /// The UART peripheral in use.
    pub closed spec fn uart_of(&self) -> UART {
        self.uart
    }

    /// The pins in use.
    pub closed spec fn pins_of(&self) -> PINS {
        self.pins
    }

    /// The UART peripheral in use.
    pub fn uart(&self) -> (r: &UART)
        ensures
            *r == self.uart_of(),
    {
        &self.uart
    }
}

impl<PINS> Serial<UART0, PINS> {
    /// Sets up UART0 at `baud_rate` from a UART clock of `uart_clock` Hz:
    /// returns the serial port and the divisors to program, 8N1 with the
    /// transmitter and receiver enabled.
    pub fn uart0(uart: UART0, pins: PINS, baud_rate: u32, uart_clock: u32) -> (r: (Self, Uart0Divisors))
        where PINS: Pins<UART0>
        requires
            baud_rate != 0,
            baud_rate > uart_clock / 16 ==> uart_clock * 8 <= u32::MAX,
            baud_rate <= uart_clock / 16 ==> uart_clock * 4 <= u32::MAX,
        ensures
            r.0.uart_of() == uart,
            r.0.pins_of() == pins,
            r.1.ibrd == uart0_brr(baud_rate, uart_clock) / 64,
            r.1.fbrd == uart0_brr(baud_rate, uart_clock) % 64,
            // The two registers hold the whole divisor.
            r.1.ibrd * 64 + r.1.fbrd == uart0_brr(baud_rate, uart_clock),
            r.1.fbrd < 64,
            // The divisor, in 64ths, is the clock over the baud rate with
            // 16-times oversampling, rounded down...
            baud_rate <= uart_clock / 16 ==> (r.1.ibrd * 64 + r.1.fbrd) * baud_rate <= uart_clock
                * 4 < (r.1.ibrd * 64 + r.1.fbrd + 1) * baud_rate,
            // ...and with 8-times oversampling above `uart_clock / 16` baud.
            baud_rate > uart_clock / 16 ==> (r.1.ibrd * 64 + r.1.fbrd) * baud_rate <= uart_clock
                * 8 < (r.1.ibrd * 64 + r.1.fbrd + 1) * baud_rate,
    {
        let brr: u32 = if baud_rate > (uart_clock / 16) {
            (uart_clock * 8) / baud_rate
        } else {
            (uart_clock * 4) / baud_rate
        };
        let ibrd: u32 = brr >> 6;
        let fbrd: u32 = brr & 0x3F;
        assert(ibrd == brr / 64 && fbrd == brr % 64) by (bit_vector)
            requires
                ibrd == brr >> 6,
                fbrd == brr & 0x3F,
        ;
        proof {
            lemma_div_bounds(brr as int, (if baud_rate > uart_clock / 16 {
                uart_clock * 8
            } else {
                uart_clock * 4
            }) as int, baud_rate as int);
        }
        (Serial { uart, pins }, Uart0Divisors { ibrd, fbrd })
    }

    pub fn free(self) -> (r: (UART0, PINS))
        ensures
            r == (self.uart_of(), self.pins_of()),
    {
        (self.uart, self.pins)
    }
}

impl<PINS> Serial<UART1, PINS> {
    /// Sets up the mini UART at `baud_rate` from a core clock of `core_clock`
    /// Hz: returns the serial port and the value of the baud rate register,
    /// 8-bit data with the transmitter and receiver enabled.
    pub fn uart1(uart: UART1, pins: PINS, baud_rate: u32, core_clock: u32) -> (r: (Self, u32))
        where PINS: Pins<UART1>
        requires
            baud_rate != 0,
            (core_clock / baud_rate) / 8 >= 1,
        ensures
            r.0.uart_of() == uart,
            r.0.pins_of() == pins,
            r.1 == uart1_baud_reg(baud_rate, core_clock),
            // With 8-times oversampling, 8 * (register + 1) baud periods fit
            // in the clock rate, and 8 * (register + 2) do not.
            (r.1 + 1) * 8 * baud_rate <= core_clock < (r.1 + 2) * 8 * baud_rate,
    {
        // Mini UART uses 8-times oversampling
        // baudrate_reg = ((sys_clock / baudrate) / 8) - 1
        let brr: u32 = ((core_clock / baud_rate) / 8) - 1;
        proof {
            let q = core_clock as int / baud_rate as int;
            lemma_div_bounds(q, core_clock as int, baud_rate as int);
            lemma_div_bounds(q / 8, q, 8);
            assert((brr + 1) * 8 * baud_rate <= q * baud_rate) by (nonlinear_arith)
                requires
                    (brr + 1) * 8 <= q,
                    baud_rate >= 0,
            ;
            assert(q + 1 <= (brr + 2) * 8);
            assert((q + 1) * baud_rate <= (brr + 2) * 8 * baud_rate) by (nonlinear_arith)
                requires
                    q + 1 <= (brr + 2) * 8,
                    baud_rate >= 0,
            ;
        }
        (Serial { uart, pins }, brr)
    }

    pub fn free(self) -> (r: (UART1, PINS))
        ensures
            r == (self.uart_of(), self.pins_of()),
    {
        (self.uart, self.pins)
    }
}

/// The bytes sent for `s`: each newline is preceded by a carriage return.
pub open spec fn crlf(s: Seq<u8>) -> Seq<u8>
    decreases s.len(),
{
    if s.len() == 0 {
        Seq::empty()
    } else if s.last() == 10 {
        crlf(s.drop_last()) + seq![13u8, 10u8]
    } else {
        crlf(s.drop_last()).push(s.last())
    }
}

/// Writing one more byte appends it, after a carriage return when it is a
/// newline; nothing is sent for nothing.
pub proof fn lemma_crlf_push(s: Seq<u8>, b: u8)
    ensures
        crlf(Seq::empty()) == Seq::<u8>::empty(),
        b == 10 ==> crlf(s.push(b)) == crlf(s) + seq![13u8, 10u8],
        b != 10 ==> crlf(s.push(b)) == crlf(s).push(b),
{
    assert(s.push(b).drop_last() =~= s);
}

/// The bytes a serial port transmits to write `s`: its UTF-8 bytes, with
/// '\n' turned into "\r\n".
pub fn tx_bytes(s: &str) -> (r: Vec<u8>)
    ensures
        r@ == crlf(s.spec_bytes()),
{
    let bytes = s.as_bytes();
    let mut out: Vec<u8> = Vec::new();
    let mut i: usize = 0;
    while i < bytes.len()
        invariant
            0 <= i <= bytes@.len(),
            bytes@ == s.spec_bytes(),
            out@ == crlf(bytes@.take(i as int)),
        decreases bytes@.len() - i,
    {
        let b = bytes[i];
        // Convert '\n' to '\r\n'
        if b == 10 {
            out.push(13);
        }
        out.push(b);
        assert(bytes@.take(i + 1).drop_last() =~= bytes@.take(i as int));
        i = i + 1;
    }
    assert(bytes@.take(bytes@.len() as int) =~= bytes@);
    out
}

/// The byte received from the mini UART's IO register value `io`: its low
/// byte, with a carriage return turned into a newline.
pub fn rx_byte(io: u32) -> (r: u8)
    ensures
        r == (if io % 256 == 13 { 10 } else { io % 256 }),
{
    let mut data: u8 = (io & 0xFF) as u8;
    // convert carrige return to newline
    if data == 13 {
        data = 10;
    }
    assert((io & 0xFF) == io % 256) by (bit_vector);
    data
}

} // verus!
