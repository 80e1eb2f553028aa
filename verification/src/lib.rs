//! Drivers for the Raspberry Pi 3 peripherals used by a small AArch64 kernel:
//! the PL011 UART, the system timer, the hardware random-number
//! generator, the VideoCore property mailbox and the frame buffer.
//!
//! Every access to a memory-mapped register is a step of a small state
//! machine: the machine says which register to read or write next, the
//! caller performs the access and feeds back what it read. The machines and
//! the values they compute are verified; performing the accesses is left to
//! the caller.

pub mod mmio;
pub mod io;
pub mod mailbox;
pub mod rand;
pub mod delay;
pub mod fb;
pub mod cpu;
