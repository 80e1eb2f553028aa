use vstd::prelude::*;

verus! {

/// Data register of the PL011 UART.
pub const UART_DR: u32 = 0x3F201000;

/// Flag register of the PL011 UART.
pub const UART_FR: u32 = 0x3F201018;

/// Base of the peripheral address space.
pub const BASE: u32 = 0x3F000000;

/// Bit `k` of `v`.
pub open spec fn bit(v: u32, k: u32) -> bool {
    (v >> k) & 1 == 1
}

/// Bit `k` of `v` is the parity of `v` divided by `2^k`: the flags the UART
/// functions read are bit 5 (transmit FIFO full) and bit 4 (receive FIFO
/// empty) of the flag register, and no other bit affects them.
pub proof fn lemma_uart_flag_bits(fr: u32)
    ensures
        bit(fr, 5) == ((fr / 32) % 2 == 1),
        bit(fr, 4) == ((fr / 16) % 2 == 1),
{
    assert(((fr >> 5u32) & 1 == 1) == ((fr / 32) % 2 == 1)) by (bit_vector);
    assert(((fr >> 4u32) & 1 == 1) == ((fr / 16) % 2 == 1)) by (bit_vector);
}

/// One access to a memory-mapped register.
#[derive(Debug, Clone, Copy, PartialEq, Eq, Structural)]
pub enum Access {
    /// Read the 32-bit register at `reg`.
    Read { reg: u32 },
    /// Write `val` to the 32-bit register at `reg`.
    Write { reg: u32, val: u32 },
}

/// What a driver wants next: a register access, or its final result.
#[derive(Debug)]
pub enum Step<T> {
    Io(Access),
    Done(T),
}

/// Whether the UART's transmit FIFO is full, given the flag register `fr`
/// (bit 5, TXFF).
pub fn transmit_fifo_full(fr: u32) -> (full: bool)
    ensures
        full == bit(fr, 5),
{
    proof {
        assert((fr & (1u32 << 5) > 0) == ((fr >> 5u32) & 1 == 1)) by (bit_vector);
    }
    fr & (1u32 << 5) > 0
}

/// Whether the UART's receive FIFO is empty, given the flag register `fr`
/// (bit 4, RXFE).
pub fn receive_fifo_empty(fr: u32) -> (empty: bool)
    ensures
        empty == bit(fr, 4),
{
    proof {
        assert((fr & (1u32 << 4) > 0) == ((fr >> 4u32) & 1 == 1)) by (bit_vector);
    }
    fr & (1u32 << 4) > 0
}

} // verus!
