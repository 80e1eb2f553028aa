//! The PL011 UART: polled transmission and reception of bytes.

use vstd::prelude::*;
use numtoa::NumToA;
use crate::mmio::{bit, transmit_fifo_full, receive_fifo_empty, Access, Step, UART_DR, UART_FR};

verus! {

/// Where a single-byte transmission stands.
#[derive(Debug, Clone, Copy, PartialEq, Eq, Structural)]
pub enum TxPhase {
    /// Waiting for room in the transmit FIFO.
    AwaitRoom,
    /// Room was seen; the byte goes to the data register next.
    Send,
    /// The byte has been written.
    Sent,
}

/// Transmission of one byte: poll the flag register until the transmit FIFO
/// has room, then write the byte to the data register.
#[derive(Debug, Clone, Copy, PartialEq, Eq, Structural)]
pub struct WriteChar {
    pub byte: u8,
    pub phase: TxPhase,
}

impl WriteChar {
    /// The access this transmission asks for next, or its end.
    pub open spec fn spec_next(self) -> Step<()> {
        match self.phase {
            TxPhase::AwaitRoom => Step::Io(Access::Read { reg: UART_FR }),
            TxPhase::Send => Step::Io(Access::Write { reg: UART_DR, val: self.byte as u32 }),
            TxPhase::Sent => Step::Done(()),
        }
    }

    /// The transmission after the access it asked for gave `value`.
    pub open spec fn spec_feed(self, value: u32) -> WriteChar {
        match self.phase {
            TxPhase::AwaitRoom => if bit(value, 5) {
                self
            } else {
                WriteChar { phase: TxPhase::Send, ..self }
            },
            TxPhase::Send => WriteChar { phase: TxPhase::Sent, ..self },
            TxPhase::Sent => self,
        }
    }

    pub fn next(&self) -> (s: Step<()>)
        ensures
            s == self.spec_next(),
    {
        match self.phase {
            TxPhase::AwaitRoom => Step::Io(Access::Read { reg: UART_FR }),
            TxPhase::Send => Step::Io(Access::Write { reg: UART_DR, val: self.byte as u32 }),
            TxPhase::Sent => Step::Done(()),
        }
    }

    /// Reports the outcome of the access asked for: the value read, or
    /// anything after a write.
    pub fn feed(&mut self, value: u32)
        ensures
            *final(self) == old(self).spec_feed(value),
    {
        match self.phase {
            TxPhase::AwaitRoom => {
                if !transmit_fifo_full(value) {
                    self.phase = TxPhase::Send;
                }
            },
            TxPhase::Send => {
                self.phase = TxPhase::Sent;
            },
            TxPhase::Sent => {},
        }
    }
}

/// A transmission writes its byte once: once written, it stays finished and
/// asks for nothing more.
pub proof fn lemma_written_once(w: WriteChar, value: u32)
    requires
        w.phase == TxPhase::Sent,
    ensures
        w.spec_feed(value) == w,
        w.spec_next() == Step::<()>::Done(()),
{
}

/// A transmission waiting for room goes on to send exactly when bit 5 of the
/// flag register (transmit FIFO full) reads 0, and sends its own byte; a
/// reception waiting for data goes on to fetch exactly when bit 4 (receive
/// FIFO empty) reads 0, and keeps the data register's value modulo 256.
pub proof fn lemma_uart_handshakes(w: WriteChar, r: ReadChar, fr: u32, dr: u32)
    ensures
        w.phase == TxPhase::AwaitRoom ==> (w.spec_feed(fr).phase == TxPhase::Send <==> (fr / 32)
            % 2 == 0) && w.spec_feed(fr).byte == w.byte,
        w.phase == TxPhase::Send ==> w.spec_next() == Step::<()>::Io(
            Access::Write { reg: UART_DR, val: w.byte as u32 },
        ),
        r.phase == RxPhase::AwaitData ==> (r.spec_feed(fr).phase == RxPhase::Fetch <==> (fr / 16)
            % 2 == 0),
        r.phase == RxPhase::Fetch ==> (r.spec_feed(dr).phase matches RxPhase::Got(b) && b as int
            == dr as int % 256),
{
    crate::mmio::lemma_uart_flag_bits(fr);
    assert((dr as u8) as int == dr as int % 256) by (bit_vector);
}

/// Starts the transmission of `c`.
pub fn writec(c: u8) -> (w: WriteChar)
    ensures
        w == (WriteChar { byte: c, phase: TxPhase::AwaitRoom }),
{
    WriteChar { byte: c, phase: TxPhase::AwaitRoom }
}

/// Where the reception of one byte stands.
#[derive(Debug, Clone, Copy, PartialEq, Eq, Structural)]
pub enum RxPhase {
    /// Waiting for the receive FIFO to hold data.
    AwaitData,
    /// Data is there; the data register is read next.
    Fetch,
    /// The byte that was received.
    Got(u8),
}

/// Reception of one byte: poll the flag register until the receive FIFO
/// holds data, then read the data register and keep its low byte.
#[derive(Debug, Clone, Copy, PartialEq, Eq, Structural)]
pub struct ReadChar {
    pub phase: RxPhase,
}

impl ReadChar {
    pub open spec fn spec_next(self) -> Step<u8> {
        match self.phase {
            RxPhase::AwaitData => Step::Io(Access::Read { reg: UART_FR }),
            RxPhase::Fetch => Step::Io(Access::Read { reg: UART_DR }),
            RxPhase::Got(b) => Step::Done(b),
        }
    }

    pub open spec fn spec_feed(self, value: u32) -> ReadChar {
        match self.phase {
            RxPhase::AwaitData => if bit(value, 4) {
                self
            } else {
                ReadChar { phase: RxPhase::Fetch }
            },
            RxPhase::Fetch => ReadChar { phase: RxPhase::Got(value as u8) },
            RxPhase::Got(_) => self,
        }
    }

    pub fn next(&self) -> (s: Step<u8>)
        ensures
            s == self.spec_next(),
    {
        match self.phase {
            RxPhase::AwaitData => Step::Io(Access::Read { reg: UART_FR }),
            RxPhase::Fetch => Step::Io(Access::Read { reg: UART_DR }),
            RxPhase::Got(b) => Step::Done(b),
        }
    }

    pub fn feed(&mut self, value: u32)
        ensures
            *final(self) == old(self).spec_feed(value),
    {
        match self.phase {
            RxPhase::AwaitData => {
                if !receive_fifo_empty(value) {
                    self.phase = RxPhase::Fetch;
                }
            },
            RxPhase::Fetch => {
                self.phase = RxPhase::Got(value as u8);
            },
            RxPhase::Got(_) => {},
        }
    }
}

/// Starts the reception of one byte.
pub fn getc() -> (r: ReadChar)
    ensures
        r == (ReadChar { phase: RxPhase::AwaitData }),
{
    ReadChar { phase: RxPhase::AwaitData }
}

/// The bytes that a string is sent as: each character cut to its low byte.
pub open spec fn chars_to_bytes(s: Seq<char>) -> Seq<u8> {
    s.map_values(|c: char| c as u8)
}

proof fn lemma_char_low_byte(c: char)
    ensures
        (c as u8) as int == (c as u32) as int % 256,
{
    let x = c as u32;
    assert((x as u8) as int == x as int % 256) by (bit_vector);
    assert(c as u8 == (c as u32) as u8);
}

/// A string goes out as one byte per character, in order: the byte for
/// character `i` is its code point modulo 256 (so '\n' goes out as 10, and
/// ASCII characters as themselves).
pub proof fn lemma_string_bytes(s: Seq<char>)
    ensures
        chars_to_bytes(s).len() == s.len(),
        forall|i: int|
            0 <= i < s.len() ==> #[trigger] chars_to_bytes(s)[i] as int == (s[i] as u32) as int
                % 256,
{
    assert forall|i: int| 0 <= i < s.len() implies #[trigger] chars_to_bytes(s)[i] as int == (
    s[i] as u32) as int % 256 by {
        lemma_char_low_byte(s[i]);
    }
}

/// Digit `d` (below 16) in the upper-case hexadecimal alphabet.
pub open spec fn hex_digit(d: nat) -> u8 {
    if d < 10 {
        (48 + d) as u8
    } else {
        (55 + d) as u8
    }
}

/// `v` in hexadecimal, upper case, most significant digit first, without
/// leading zeros ("0" for zero).
pub open spec fn hex_digits(v: nat) -> Seq<u8>
    decreases v,
{
    if v < 16 {
        seq![hex_digit(v)]
    } else {
        hex_digits(v / 16).push(hex_digit(v % 16))
    }
}

/// The value of an upper-case hexadecimal digit character ('0'-'9' and
/// 'A'-'F'), and -1 for any other byte.
pub open spec fn hex_digit_value(c: u8) -> int {
    if 48 <= c <= 57 {
        c - 48
    } else if 65 <= c <= 70 {
        c - 55
    } else {
        -1
    }
}

/// The number that a string of hexadecimal digits spells, most significant
/// digit first.
pub open spec fn hex_number(s: Seq<u8>) -> int
    decreases s.len(),
{
    if s.len() == 0 {
        0
    } else {
        hex_number(s.drop_last()) * 16 + hex_digit_value(s.last())
    }
}

/// The hexadecimal form of `v` is made of upper-case hexadecimal digits,
/// spells `v` back, and has no leading zero (zero itself is "0").
pub proof fn lemma_hex_digits_read_back(v: nat)
    ensures
        hex_digits(v).len() > 0,
        forall|i: int|
            0 <= i < hex_digits(v).len() ==> 0 <= #[trigger] hex_digit_value(hex_digits(v)[i]) < 16,
        hex_number(hex_digits(v)) == v,
        v > 0 ==> hex_digits(v)[0] != 48u8,
        v == 0 ==> hex_digits(v) == seq![48u8],
    decreases v,
{
    if v >= 16 {
        let prefix = hex_digits(v / 16);
        lemma_hex_digits_read_back(v / 16);
        let d = hex_digit((v % 16) as nat);
        assert(hex_digits(v) == prefix.push(d));
        assert(hex_digits(v).drop_last() == prefix);
        assert(hex_digit_value(d) == v % 16);
        assert forall|i: int| 0 <= i < hex_digits(v).len() implies 0 <= #[trigger] hex_digit_value(
            hex_digits(v)[i],
        ) < 16 by {
            if i < prefix.len() {
                assert(hex_digits(v)[i] == prefix[i]);
            }
        }
        assert(hex_digits(v)[0] == prefix[0]);
        vstd::arithmetic::div_mod::lemma_fundamental_div_mod(v as int, 16);
        assert(hex_number(hex_digits(v)) == hex_number(prefix) * 16 + v % 16);
    } else {
        assert(hex_digits(v) == seq![hex_digit(v)]);
        assert(hex_digits(v).drop_last() == Seq::<u8>::empty());
        assert(hex_number(Seq::<u8>::empty()) == 0);
        assert(hex_digit_value(hex_digit(v)) == v);
    }
}

/// What `write_hex` sends for `v`: "0x", the hexadecimal digits, a newline.
pub open spec fn hex_line(v: u64) -> Seq<u8> {
    seq![48u8, 120u8] + hex_digits(v as nat) + seq![10u8]
}

/// `v` in hexadecimal, as `numtoa` writes it in base 16.
///
/// Trusted: calls `NumToA::<u64>::numtoa` with base 16 on a 24-byte buffer and
/// returns the digits it wrote. The contract claims what numtoa's source shows
/// for a base other than 10: the remainders are looked up in
/// "0123456789ABCDEF..." from the least significant end, and zero is "0".
/// Sixteen digits at most, so the buffer is always large enough.
#[verifier::external_body]
fn numtoa_hex(v: u64) -> (digits: Vec<u8>)
    ensures
        digits@ == hex_digits(v as nat),
{
    let mut buf = [0u8; 24];
    let start = v.numtoa(16, &mut buf);
    buf[start..].to_vec()
}

/// Transmission of a sequence of bytes, one after the other, each as
/// `writec` sends it.
pub struct WriteBytes {
    bytes: Vec<u8>,
    progress: TxProgress,
}

/// How far a `WriteBytes` has come.
struct TxProgress {
    pos: usize,
    current: WriteChar,
    sent: Ghost<Seq<u8>>,
}

impl WriteBytes {
    #[verifier::type_invariant]
    spec fn wf(self) -> bool {
        &&& self.progress.pos <= self.bytes@.len()
        &&& self.progress.pos < self.bytes@.len() ==> {
            &&& self.progress.current.byte == self.bytes@[self.progress.pos as int]
            &&& self.progress.current.phase != TxPhase::Sent
        }
        &&& self.progress.sent@ == self.bytes@.subrange(0, self.progress.pos as int)
    }

    /// All the bytes to send.
    pub closed spec fn bytes(self) -> Seq<u8> {
        self.bytes@
    }

    /// How many bytes have been written to the data register.
    pub closed spec fn pos(self) -> nat {
        self.progress.pos as nat
    }

    /// The transmission of the byte at `pos()`.
    pub closed spec fn current(self) -> WriteChar {
        self.progress.current
    }

    /// The bytes written to the data register so far, in order.
    pub closed spec fn sent(self) -> Seq<u8> {
        self.progress.sent@
    }

    /// Whether every byte has been sent.
    pub open spec fn finished(self) -> bool {
        self.pos() == self.bytes().len()
    }

    /// Starts sending `bytes`.
    pub fn new(bytes: Vec<u8>) -> (w: WriteBytes)
        ensures
            w.bytes() == bytes@,
            w.pos() == 0,
            w.sent() == Seq::<u8>::empty(),
            bytes@.len() > 0 ==> w.current() == (WriteChar {
                byte: bytes@[0],
                phase: TxPhase::AwaitRoom,
            }),
    {
        let first = if bytes.len() > 0 {
            bytes[0]
        } else {
            0
        };
        proof {
            assert(bytes@.subrange(0, 0) == Seq::<u8>::empty());
        }
        WriteBytes {
            bytes,
            progress: TxProgress { pos: 0, current: writec(first), sent: Ghost(Seq::empty()) },
        }
    }

    pub fn next(&self) -> (s: Step<()>)
        ensures
            s == (if self.finished() {
                Step::Done(())
            } else {
                self.current().spec_next()
            }),
            self.pos() <= self.bytes().len(),
            self.sent() == self.bytes().subrange(0, self.pos() as int),
            !self.finished() ==> self.current().byte == self.bytes()[self.pos() as int]
                && self.current().phase != TxPhase::Sent,
            self.finished() ==> self.sent() == self.bytes(),
    {
        proof {
            use_type_invariant(self);
            assert(self.progress.pos == self.bytes@.len() ==> self.bytes@.subrange(
                0,
                self.progress.pos as int,
            ) == self.bytes@);
        }
        if self.progress.pos == self.bytes.len() {
            Step::Done(())
        } else {
            self.progress.current.next()
        }
    }

    /// Reports the outcome of the access asked for.
    pub fn feed(&mut self, value: u32)
        ensures
            final(self).bytes() == old(self).bytes(),
            old(self).finished() ==> final(self).pos() == old(self).pos()
                && final(self).sent() == old(self).sent(),
            !old(self).finished() && old(self).current().phase == TxPhase::Send ==> {
                &&& final(self).pos() == old(self).pos() + 1
                &&& final(self).sent() == old(self).sent().push(old(self).current().byte)
                &&& !final(self).finished() ==> final(self).current() == (WriteChar {
                    byte: old(self).bytes()[old(self).pos() + 1int],
                    phase: TxPhase::AwaitRoom,
                })
            },
            !old(self).finished() && old(self).current().phase != TxPhase::Send ==> {
                &&& final(self).pos() == old(self).pos()
                &&& final(self).sent() == old(self).sent()
                &&& final(self).current() == old(self).current().spec_feed(value)
            },
    {
        proof {
            use_type_invariant(&*self);
        }
        if self.progress.pos < self.bytes.len() {
            let mut current = self.progress.current;
            current.feed(value);
            if current.phase == TxPhase::Sent {
                let pos = self.progress.pos + 1;
                let next = if pos < self.bytes.len() {
                    writec(self.bytes[pos])
                } else {
                    current
                };
                let ghost sent = self.progress.sent@.push(self.progress.current.byte);
                proof {
                    assert(sent == self.bytes@.subrange(0, pos as int));
                }
                self.progress = TxProgress { pos, current: next, sent: Ghost(sent) };
            } else {
                self.progress = TxProgress {
                    pos: self.progress.pos,
                    current,
                    sent: self.progress.sent,
                };
            }
        }
    }
}

/// The bytes of `s`, each character cut to its low byte.
fn str_bytes(s: &str) -> (r: Vec<u8>)
    ensures
        r@ == chars_to_bytes(s@),
{
    let mut out: Vec<u8> = Vec::new();
    for c in it: s.chars()
        invariant
            out@ == chars_to_bytes(it.seq().take(it.index() as int)),
    {
        out.push(c as u8);
    }
    out
}

/// Starts sending `s`, each character as its low byte.
pub fn write(s: &str) -> (w: WriteBytes)
    ensures
        w.bytes() == chars_to_bytes(s@),
        w.pos() == 0,
        w.sent() == Seq::<u8>::empty(),
        w.bytes().len() > 0 ==> w.current() == (WriteChar {
            byte: w.bytes()[0],
            phase: TxPhase::AwaitRoom,
        }),
{
    WriteBytes::new(str_bytes(s))
}

/// Starts sending `s` followed by a newline.
pub fn writeln(s: &str) -> (w: WriteBytes)
    ensures
        w.bytes() == chars_to_bytes(s@).push(10u8),
        w.pos() == 0,
        w.sent() == Seq::<u8>::empty(),
        w.bytes().len() > 0 ==> w.current() == (WriteChar {
            byte: w.bytes()[0],
            phase: TxPhase::AwaitRoom,
        }),
{
    let mut bytes = str_bytes(s);
    bytes.push(10u8);
    WriteBytes::new(bytes)
}

/// Starts sending `v` as "0x", its upper-case hexadecimal digits and a newline.
pub fn write_hex(v: u64) -> (w: WriteBytes)
    ensures
        w.bytes() == hex_line(v),
        w.pos() == 0,
        w.sent() == Seq::<u8>::empty(),
        w.bytes().len() > 0 ==> w.current() == (WriteChar {
            byte: w.bytes()[0],
            phase: TxPhase::AwaitRoom,
        }),
{
    let mut bytes: Vec<u8> = Vec::new();
    bytes.push(48u8);
    bytes.push(120u8);
    let mut digits = numtoa_hex(v);
    bytes.append(&mut digits);
    bytes.push(10u8);
    proof {
        assert(bytes@ == hex_line(v));
    }
    WriteBytes::new(bytes)
}

/// The sink behind the kernel's formatted output.
#[derive(Debug, Clone, Copy)]
pub struct Writer;

impl Writer {
    /// Starts sending `s`, as `write` does.
    pub fn write_str(&mut self, s: &str) -> (w: WriteBytes)
        ensures
            w.bytes() == chars_to_bytes(s@),
            w.pos() == 0,
            w.sent() == Seq::<u8>::empty(),
            w.bytes().len() > 0 ==> w.current() == (WriteChar {
                byte: w.bytes()[0],
                phase: TxPhase::AwaitRoom,
            }),
    {
        write(s)
    }
}

} // verus!
