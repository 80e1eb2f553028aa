# kernel8

Verified drivers for a small Raspberry Pi 3 (AArch64) kernel.

- `src/` is the library, with machine-checked contracts. Each driver that touches
  memory-mapped registers is a state machine: `next()` names the register
  access it needs (`mmio::Access`) or gives its result (`mmio::Step::Done`),
  and `feed(value)` takes what the access returned.
  - `mmio`: register addresses, the access types, UART flag decoding.
  - `io::serial`: sending and receiving bytes on the PL011 UART, strings,
    lines and hexadecimal numbers.
  - `delay`: reading the 64-bit system timer, millisecond waits, no-op
    countdowns.
  - `cpu`: the exception level from the CurrentEL register.
  - `rand`: starting the hardware random-number generator and drawing
    numbers in a range.
  - `mailbox`: property-mailbox messages, the posting/answer exchange.
  - `fb`: PSF font headers, colours, pixels, glyph drawing, and the
    frame-buffer request.
- `app/` is the kernel itself: it performs the register and memory accesses
  the drivers ask for, and holds the formatted-output plumbing.
- `tests/` drive the state machines against simulated registers.
