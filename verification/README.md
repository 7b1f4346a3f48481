# rpi3_periph

Verified peripheral logic for the Raspberry Pi 3 (BCM2837), written in Verus.

- `src/hal/pmem.rs`: physical memory regions (containment, splitting, shrinking).
- `src/bcm2837/`: peripheral addresses, and the mailbox handshake: the
  request word, recognition of the answer, and the call's state machine.
- `src/mailbox/`: the VideoCore property interface: every request written
  by a `MailboxBufferConstructor` is a well-formed property message; the
  responses are read back from the answered buffer.
- `src/hal/mailbox`, `src/hal/serial.rs`, `src/hal/i2c.rs`: mailbox over a
  physical buffer, UART divisors and newline handling, I2C divider and
  transfer status.
- `src/console.rs`, `src/display/`, `src/eg_display.rs`, `src/bar_graph.rs`:
  serial console text, colors, framebuffer pixel addressing and widget
  geometry.

`app/` holds what cannot be verified: register accesses, polling loops,
framebuffer stores, floating point and formatting.
