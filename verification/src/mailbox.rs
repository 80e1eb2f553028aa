//! The VideoCore property mailbox: messages to the GPU and their answers.

use vstd::prelude::*;
use crate::io::serial::{chars_to_bytes, TxPhase, WriteBytes, WriteChar};
use crate::mmio::{Access, Step, BASE};

verus! {

/// A mailbox channel.
#[derive(Debug, Clone, Copy, PartialEq, Eq, Structural)]
pub enum Channel {
    Power,
    Fb,
    Vuart,
    Vchiq,
    Leds,
    Bins,
    Touch,
    Count,
    Prop,
}

impl Channel {
    pub open spec fn spec_number(self) -> u8 {
        match self {
            Channel::Power => 0,
            Channel::Fb => 1,
            Channel::Vuart => 2,
            Channel::Vchiq => 3,
            Channel::Leds => 4,
            Channel::Bins => 5,
            Channel::Touch => 6,
            Channel::Count => 7,
            Channel::Prop => 8,
        }
    }

    /// The channel's number, which goes in the low four bits of a mailbox
    /// word.
    #[verifier::when_used_as_spec(spec_number)]
    pub fn number(self) -> (n: u8)
        ensures
            n == self.spec_number(),
    {
        match self {
            Channel::Power => 0,
            Channel::Fb => 1,
            Channel::Vuart => 2,
            Channel::Vchiq => 3,
            Channel::Leds => 4,
            Channel::Bins => 5,
            Channel::Touch => 6,
            Channel::Count => 7,
            Channel::Prop => 8,
        }
    }
}

/// A property tag.
#[derive(Debug, Clone, Copy, PartialEq, Eq, Structural)]
pub enum Tag {
    GetSerial,
    SetPower,
    SetClkRate,
    Last,
}

impl Tag {
    pub open spec fn spec_value(self) -> u32 {
        match self {
            Tag::GetSerial => 0x10004,
            Tag::SetPower => 0x28001,
            Tag::SetClkRate => 0x38002,
            Tag::Last => 0,
        }
    }

    /// The tag's identifier in a message.
    #[verifier::when_used_as_spec(spec_value)]
    pub fn value(self) -> (v: u32)
        ensures
            v == self.spec_value(),
    {
        match self {
            Tag::GetSerial => 0x10004,
            Tag::SetPower => 0x28001,
            Tag::SetClkRate => 0x38002,
            Tag::Last => 0,
        }
    }
}

/// A message buffer: thirty-six 32-bit words.
pub type MailBox = [u32; 36];

pub const VIDEOCORE: u32 = BASE + 0x0000B880;

/// The register the GPU's answers are read from.
pub const READ: u32 = VIDEOCORE + 0x0;

pub const POLL: u32 = VIDEOCORE + 0x10;

pub const SENDER: u32 = VIDEOCORE + 0x14;

/// The mailbox status register.
pub const STATUS: u32 = VIDEOCORE + 0x18;

pub const CONFIG: u32 = VIDEOCORE + 0x1C;

/// The register messages are posted to.
pub const WRITE: u32 = VIDEOCORE + 0x20;

/// The code in the second word of a buffer that the GPU has answered
/// successfully.
pub const RESPONSE: u32 = 0x80000000;

/// Status bit: no room to post a message.
pub const FULL: u32 = 0x80000000;

/// Status bit: no answer to read.
pub const EMPTY: u32 = 0x40000000;

/// The code in the second word of a buffer that holds a request.
pub const REQUEST: u32 = 0;

/// The word posted to the mailbox for a buffer at `buffer_addr` on channel
/// `ch`: the buffer's address with its low four bits replaced by the channel.
pub open spec fn mailbox_word(buffer_addr: u32, ch: Channel) -> u32 {
    (buffer_addr & !0xFu32) | ((ch.spec_number() & 0xFu8) as u32)
}

/// The word posted to the mailbox for a buffer at `buffer_addr` on channel
/// `ch`.
pub fn mailbox_address(buffer_addr: u32, ch: Channel) -> (w: u32)
    ensures
        w == mailbox_word(buffer_addr, ch),
        w >> 4u32 == buffer_addr >> 4u32,
        w & 0xFu32 == ch.spec_number() as u32,
{
    let n = ch.number();
    let w = (buffer_addr & !0xFu32) | ((n & 0xFu8) as u32);
    proof {
        assert(n <= 8);
        assert(n <= 8 ==> ((buffer_addr & !0xFu32) | ((n & 0xFu8) as u32)) >> 4u32 == buffer_addr
            >> 4u32) by (bit_vector);
        assert(n <= 8 ==> ((buffer_addr & !0xFu32) | ((n & 0xFu8) as u32)) & 0xFu32 == n as u32)
            by (bit_vector);
    }
    w
}

/// Where a mailbox exchange stands.
#[derive(Debug, Clone, Copy, PartialEq, Eq, Structural)]
pub enum CallPhase {
    /// Waiting until the mailbox has room for a message.
    AwaitRoom,
    /// The buffer's word is posted next.
    Post,
    /// Waiting until an answer is there.
    AwaitReply,
    /// An answer is there; it is read next.
    CheckReply,
    /// The answer named this buffer: the GPU is done with it.
    Replied,
}

/// One exchange with the GPU over the mailbox: wait for room, post the
/// buffer's word, then read answers until one names the same word.
#[derive(Debug, Clone, Copy, PartialEq, Eq, Structural)]
pub struct MailboxCall {
    /// The word posted, and looked for among the answers.
    pub word: u32,
    pub phase: CallPhase,
}

impl MailboxCall {
    pub open spec fn spec_next(self) -> Step<()> {
        match self.phase {
            CallPhase::AwaitRoom => Step::Io(Access::Read { reg: STATUS }),
            CallPhase::Post => Step::Io(Access::Write { reg: WRITE, val: self.word }),
            CallPhase::AwaitReply => Step::Io(Access::Read { reg: STATUS }),
            CallPhase::CheckReply => Step::Io(Access::Read { reg: READ }),
            CallPhase::Replied => Step::Done(()),
        }
    }

    pub open spec fn spec_feed(self, value: u32) -> MailboxCall {
        match self.phase {
            CallPhase::AwaitRoom => if value & FULL != 0 {
                self
            } else {
                MailboxCall { phase: CallPhase::Post, ..self }
            },
            CallPhase::Post => MailboxCall { phase: CallPhase::AwaitReply, ..self },
            CallPhase::AwaitReply => if value & EMPTY != 0 {
                self
            } else {
                MailboxCall { phase: CallPhase::CheckReply, ..self }
            },
            CallPhase::CheckReply => if value == self.word {
                MailboxCall { phase: CallPhase::Replied, ..self }
            } else {
                MailboxCall { phase: CallPhase::AwaitReply, ..self }
            },
            CallPhase::Replied => self,
        }
    }

    /// Starts an exchange for a buffer at `buffer_addr` on channel `ch`.
    pub fn new(ch: Channel, buffer_addr: u32) -> (c: MailboxCall)
        ensures
            c == (MailboxCall { word: mailbox_word(buffer_addr, ch), phase: CallPhase::AwaitRoom }),
    {
        MailboxCall { word: mailbox_address(buffer_addr, ch), phase: CallPhase::AwaitRoom }
    }

    pub fn next(&self) -> (s: Step<()>)
        ensures
            s == self.spec_next(),
    {
        match self.phase {
            CallPhase::AwaitRoom => Step::Io(Access::Read { reg: STATUS }),
            CallPhase::Post => Step::Io(Access::Write { reg: WRITE, val: self.word }),
            CallPhase::AwaitReply => Step::Io(Access::Read { reg: STATUS }),
            CallPhase::CheckReply => Step::Io(Access::Read { reg: READ }),
            CallPhase::Replied => Step::Done(()),
        }
    }

    /// Reports the outcome of the access asked for.
    pub fn feed(&mut self, value: u32)
        ensures
            *final(self) == old(self).spec_feed(value),
    {
        match self.phase {
            CallPhase::AwaitRoom => {
                if value & FULL == 0 {
                    self.phase = CallPhase::Post;
                }
            },
            CallPhase::Post => {
                self.phase = CallPhase::AwaitReply;
            },
            CallPhase::AwaitReply => {
                if value & EMPTY == 0 {
                    self.phase = CallPhase::CheckReply;
                }
            },
            CallPhase::CheckReply => {
                if value == self.word {
                    self.phase = CallPhase::Replied;
                } else {
                    self.phase = CallPhase::AwaitReply;
                }
            },
            CallPhase::Replied => {},
        }
    }
}

/// Whether an exchange has posted its word.
pub open spec fn has_posted(c: MailboxCall) -> bool {
    c.phase == CallPhase::AwaitReply || c.phase == CallPhase::CheckReply || c.phase
        == CallPhase::Replied
}

/// An exchange posts its word once: after that, every step it asks for is a
/// read or its end, whatever the registers read.
pub proof fn lemma_posted_once(c: MailboxCall, value: u32)
    requires
        has_posted(c),
    ensures
        has_posted(c.spec_feed(value)),
        c.spec_feed(value).word == c.word,
        !(c.spec_next() matches Step::Io(Access::Write { .. })),
{
}

/// An exchange ends only on an answer that names its own word.
pub proof fn lemma_replied_only_to_own_word(c: MailboxCall, value: u32)
    requires
        c.phase != CallPhase::Replied,
        c.spec_feed(value).phase == CallPhase::Replied,
    ensures
        c.phase == CallPhase::CheckReply,
        value == c.word,
{
}

/// An exchange waiting for room posts next exactly when the status's top bit
/// (FULL) is clear, that is when the status is below 2^31, whatever its
/// other bits; one waiting for an answer reads it next exactly when bit 30
/// (EMPTY) is clear.
pub proof fn lemma_status_bits(c: MailboxCall, status: u32)
    ensures
        c.phase == CallPhase::AwaitRoom ==> (c.spec_feed(status).phase == CallPhase::Post
            <==> status < 0x8000_0000),
        c.phase == CallPhase::AwaitRoom && status >= 0x8000_0000 ==> c.spec_feed(status) == c,
        c.phase == CallPhase::AwaitReply ==> (c.spec_feed(status).phase == CallPhase::CheckReply
            <==> (status / 0x4000_0000) % 2 == 0),
        c.phase == CallPhase::AwaitReply && (status / 0x4000_0000) % 2 == 1 ==> c.spec_feed(
            status,
        ) == c,
{
    assert((status & 0x8000_0000u32 != 0) == (status >= 0x8000_0000u32)) by (bit_vector);
    assert((status & 0x4000_0000u32 != 0) == ((status / 0x4000_0000u32) % 2 == 1))
        by (bit_vector);
}

/// A message to the GPU, and how its answer is read.
pub trait Message {
    type Ret;

    /// The buffer that carries the message.
    spec fn spec_to_array(&self) -> Seq<u32>;

    /// What the answer in `data` yields.
    spec fn spec_get_result(&self, data: Seq<u32>) -> Result<Self::Ret, ()>;

    fn to_array(&self) -> (b: MailBox)
        ensures
            b@ == self.spec_to_array(),
    ;

    fn get_result(&self, data: MailBox) -> (r: Result<Self::Ret, ()>)
        ensures
            r == self.spec_get_result(data@),
    ;

    /// Starts sending this message on channel `ch`: the buffer that carries
    /// it, to be stored at `buffer_addr` before the first register access,
    /// and the exchange that posts that address.
    fn call(&self, ch: Channel, buffer_addr: u32) -> (r: (MailBox, MailboxCall))
        ensures
            r.0@ == self.spec_to_array(),
            r.1 == (MailboxCall {
                word: mailbox_word(buffer_addr, ch),
                phase: CallPhase::AwaitRoom,
            }),
    {
        let buffer = self.to_array();
        (buffer, MailboxCall::new(ch, buffer_addr))
    }
}

/// The note sent on the UART when the GPU has answered a message
/// successfully.
pub open spec fn response_note() -> Seq<u8> {
    chars_to_bytes("Got Response: "@)
}

/// What an exchange yields once the GPU is done with the buffer, which then
/// holds `data`. When the GPU marked the buffer as a successful response,
/// the note "Got Response: " is to be sent and the result is the message's
/// result; otherwise nothing is sent and the result is an error.
pub fn answer<M: Message>(msg: &M, data: MailBox) -> (r: (WriteBytes, Result<M::Ret, ()>))
    ensures
        data@[1] == RESPONSE ==> r.0.bytes() == response_note() && r.1 == msg.spec_get_result(
            data@,
        ),
        data@[1] != RESPONSE ==> r.0.bytes() == Seq::<u8>::empty() && r.1 == Err::<M::Ret, ()>(()),
        r.0.pos() == 0,
        r.0.sent() == Seq::<u8>::empty(),
        r.0.bytes().len() > 0 ==> r.0.current() == (WriteChar {
            byte: r.0.bytes()[0],
            phase: TxPhase::AwaitRoom,
        }),
{
    if data[1] == RESPONSE {
        let note = crate::io::serial::write("Got Response: ");
        (note, msg.get_result(data))
    } else {
        (WriteBytes::new(Vec::new()), Err(()))
    }
}

/// A request with one tag and two argument words.
#[derive(Debug, Clone, Copy)]
pub struct Request {
    pub tag: Tag,
    pub arg: [u32; 2],
}

impl Request {
    pub fn new(tag: Tag, arg: [u32; 2]) -> (r: Request)
        ensures
            r == (Request { tag, arg }),
    {
        Request { tag, arg }
    }
}

impl Message for Request {
    type Ret = u64;

    open spec fn spec_to_array(&self) -> Seq<u32> {
        seq![
            32, REQUEST, self.tag.spec_value(), 8, 8, self.arg@[0], self.arg@[1], 0,
            0, 0, 0, 0, 0, 0, 0, 0, 0, 0, 0, 0, 0, 0, 0, 0, 0, 0, 0, 0, 0, 0, 0, 0, 0, 0, 0, 0,
        ]
    }

    /// The answer's fifth word shifted up by 32 bits, masked with its sixth
    /// word: that is always zero.
    open spec fn spec_get_result(&self, data: Seq<u32>) -> Result<u64, ()> {
        Ok(((data[5] as u64) << 32u64) & (data[6] as u64))
    }

    fn to_array(&self) -> (b: MailBox) {
        [
            8 * 4, REQUEST, self.tag.value(), 8, 8, self.arg[0], self.arg[1], Tag::Last.value(),
            0, 0, 0, 0, 0, 0, 0, 0, 0, 0, 0, 0, 0, 0, 0, 0, 0, 0, 0, 0, 0, 0, 0, 0, 0, 0, 0, 0,
        ]
    }

    fn get_result(&self, data: MailBox) -> (r: Result<u64, ()>) {
        Ok(((data[5] as u64) << 32u64) & (data[6] as u64))
    }
}

/// A request's answer is always `Ok(0)`: the shifted word has no low bits
/// and the masking word no high ones.
pub proof fn lemma_request_result_is_zero(req: Request, data: Seq<u32>)
    requires
        data.len() == 36,
    ensures
        req.spec_get_result(data) == Ok::<u64, ()>(0),
{
    let hi = data[5];
    let lo = data[6];
    assert(((hi as u64) << 32u64) & (lo as u64) == 0) by (bit_vector);
}

/// Starts asking the GPU for the board's serial number: the request, the
/// buffer that carries it (to be stored at `buffer_addr`), and the exchange
/// on the property channel.
pub fn get_serial(buffer_addr: u32) -> (r: (Request, MailBox, MailboxCall))
    ensures
        r.0 == (Request { tag: Tag::GetSerial, arg: [3424, 23423] }),
        r.1@ == r.0.spec_to_array(),
        r.2 == (MailboxCall {
            word: mailbox_word(buffer_addr, Channel::Prop),
            phase: CallPhase::AwaitRoom,
        }),
{
    let req = Request::new(Tag::GetSerial, [3424, 23423]);
    let (buffer, call) = req.call(Channel::Prop, buffer_addr);
    (req, buffer, call)
}

} // verus!
