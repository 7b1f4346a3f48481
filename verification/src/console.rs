//! Serial console on UART0, clocked through the mailbox.
use vstd::prelude::*;

use crate::bcm2837::uart0::UART0;
use crate::mailbox::clock;
use crate::mailbox::msg::set_clock_rate::SetClockRateCmd;

verus! {

#[derive(Debug, Clone, Copy, PartialEq, Eq, Structural)]
pub enum SerialError {
    MailboxError,
}

pub type Result<T> = core::result::Result<T, SerialError>;

/// UART clock rate set through the mailbox before the UART is enabled, in
/// Hz.
pub const UART_CLOCK_HZ: u32 = 4_000_000;

/// Integer baud rate divisor for 115200 baud from a 4 MHz clock.
pub const IBRD: u32 = 2;

/// Fractional baud rate divisor for 115200 baud from a 4 MHz clock.
pub const FBRD: u32 = 0xB;

pub struct Serial {
    uart: UART0,
}

/// The characters sent for `s`: each newline is preceded by a carriage
/// return.
pub open spec fn crlf_chars(s: Seq<char>) -> Seq<char>
    decreases s.len(),
{
    if s.len() == 0 {
        Seq::empty()
    } else if s.last() == '\n' {
        crlf_chars(s.drop_last()) + seq!['\r', '\n']
    } else {
        crlf_chars(s.drop_last()).push(s.last())
    }
}

/// Sending one more character appends it, after a carriage return when it
/// is a newline; nothing is sent for nothing.
pub proof fn lemma_crlf_chars_push(s: Seq<char>, c: char)
    ensures
        crlf_chars(Seq::empty()) == Seq::<char>::empty(),
        c == '\n' ==> crlf_chars(s.push(c)) == crlf_chars(s) + seq!['\r', '\n'],
        c != '\n' ==> crlf_chars(s.push(c)) == crlf_chars(s).push(c),
{
    assert(s.push(c).drop_last() =~= s);
}

impl Serial {
    /// The UART in use.
    pub closed spec fn uart_of(&self) -> UART0 {
        self.uart
    }

    /// The UART in use.
    pub fn uart(&self) -> (r: &UART0)
        ensures
            *r == self.uart_of(),
    {
        &self.uart
    }

    pub fn new(uart: UART0) -> (r: Self)
        ensures
            r.uart_of() == uart,
    {
        Self { uart }
    }

    /// The mailbox request that sets the UART clock for consistent divisor
    /// values, without turbo.
    pub fn clock_request() -> (r: SetClockRateCmd)
        ensures
            r.clock_id == clock::UART,
            r.freq == UART_CLOCK_HZ,
            r.flags == 0,
    {
        SetClockRateCmd { clock_id: clock::UART, freq: UART_CLOCK_HZ, flags: 0 }
    }

    /// The characters, in order, that displaying `string` sends: each newline
    /// goes out as a carriage return and a newline.
    pub fn puts(&self, string: &str) -> (r: Vec<char>)
        ensures
            r@ == crlf_chars(string@),
    {
        let mut out: Vec<char> = Vec::new();
        let ghost s = string@;
        for c in it: string.chars()
            invariant
                it.seq() == s,
                out@ == crlf_chars(s.take(it.index() as int)),
        {
            // convert newline to carrige return + newline
            if c == '\n' {
                out.push('\r');
            }
            out.push(c);
            assert(s.take(it.index() + 1).drop_last() =~= s.take(it.index() as int));
        }
        assert(s.take(s.len() as int) =~= s);
        out
    }

    /// The character received for a data register value: its low byte, with
    /// a carriage return turned into a newline.
    pub fn rx_char(data: u32) -> (r: char)
        ensures
            data % 256 == 13 ==> r == '\n',
            data % 256 != 13 ==> r as int == data % 256,
    {
        let b: u8 = (data & 0xFF) as u8;
        assert((data & 0xFF) == data % 256) by (bit_vector);
        let mut ret = b as char;
        // convert carrige return to newline
        if ret == '\r' {
            ret = '\n';
        }
        ret
    }
}

} // verus!
