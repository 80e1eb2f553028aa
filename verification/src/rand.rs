//! The hardware random-number generator.

use vstd::prelude::*;
use crate::mmio::{Access, Step, BASE};

verus! {

pub const CTRL: u32 = BASE + 0x00104000;

pub const STATUS: u32 = BASE + 0x00104004;

pub const DATA: u32 = BASE + 0x00104008;

pub const INT_MASK: u32 = BASE + 0x00104010;

/// The warm-up count written to the status register before enabling the
/// generator.
pub const WARMUP: u32 = 0x40000;

/// A started random-number generator.
#[derive(Debug, Clone, Copy, PartialEq, Eq, Structural)]
pub struct Rand {}

/// Where the start of the generator stands.
#[derive(Debug, Clone, Copy, PartialEq, Eq, Structural)]
pub enum InitPhase {
    /// The warm-up count is written next.
    SetWarmup,
    /// The interrupt mask is read next.
    ReadMask,
    /// The mask, with its lowest bit set, is written back next.
    WriteMask { mask: u32 },
    /// The control register is read next.
    ReadCtrl,
    /// The control value, with its enable bit set, is written back next.
    WriteCtrl { ctrl: u32 },
    /// Waiting until the status register's top byte shows generated words.
    AwaitEntropy,
    /// The generator is running.
    Ready,
}

/// The start of the generator: write the warm-up count, mask its interrupt,
/// enable it, then wait until it reports generated words.
#[derive(Debug, Clone, Copy, PartialEq, Eq, Structural)]
pub struct RandInit {
    pub phase: InitPhase,
}

impl RandInit {
    pub open spec fn spec_next(self) -> Step<Rand> {
        match self.phase {
            InitPhase::SetWarmup => Step::Io(Access::Write { reg: STATUS, val: WARMUP }),
            InitPhase::ReadMask => Step::Io(Access::Read { reg: INT_MASK }),
            InitPhase::WriteMask { mask } => Step::Io(Access::Write { reg: INT_MASK, val: mask | 1 }),
            InitPhase::ReadCtrl => Step::Io(Access::Read { reg: CTRL }),
            InitPhase::WriteCtrl { ctrl } => Step::Io(Access::Write { reg: CTRL, val: ctrl | 1 }),
            InitPhase::AwaitEntropy => Step::Io(Access::Read { reg: STATUS }),
            InitPhase::Ready => Step::Done(Rand {  }),
        }
    }

    pub open spec fn spec_feed(self, value: u32) -> RandInit {
        match self.phase {
            InitPhase::SetWarmup => RandInit { phase: InitPhase::ReadMask },
            InitPhase::ReadMask => RandInit { phase: InitPhase::WriteMask { mask: value } },
            InitPhase::WriteMask { .. } => RandInit { phase: InitPhase::ReadCtrl },
            InitPhase::ReadCtrl => RandInit { phase: InitPhase::WriteCtrl { ctrl: value } },
            InitPhase::WriteCtrl { .. } => RandInit { phase: InitPhase::AwaitEntropy },
            InitPhase::AwaitEntropy => if value >> 24u32 == 0 {
                self
            } else {
                RandInit { phase: InitPhase::Ready }
            },
            InitPhase::Ready => self,
        }
    }

    pub fn next(&self) -> (s: Step<Rand>)
        ensures
            s == self.spec_next(),
    {
        match self.phase {
            InitPhase::SetWarmup => Step::Io(Access::Write { reg: STATUS, val: WARMUP }),
            InitPhase::ReadMask => Step::Io(Access::Read { reg: INT_MASK }),
            InitPhase::WriteMask { mask } => Step::Io(Access::Write { reg: INT_MASK, val: mask | 1 }),
            InitPhase::ReadCtrl => Step::Io(Access::Read { reg: CTRL }),
            InitPhase::WriteCtrl { ctrl } => Step::Io(Access::Write { reg: CTRL, val: ctrl | 1 }),
            InitPhase::AwaitEntropy => Step::Io(Access::Read { reg: STATUS }),
            InitPhase::Ready => Step::Done(Rand {  }),
        }
    }

    /// Reports the outcome of the access asked for.
    pub fn feed(&mut self, value: u32)
        ensures
            *final(self) == old(self).spec_feed(value),
    {
        match self.phase {
            InitPhase::SetWarmup => {
                self.phase = InitPhase::ReadMask;
            },
            InitPhase::ReadMask => {
                self.phase = InitPhase::WriteMask { mask: value };
            },
            InitPhase::WriteMask { .. } => {
                self.phase = InitPhase::ReadCtrl;
            },
            InitPhase::ReadCtrl => {
                self.phase = InitPhase::WriteCtrl { ctrl: value };
            },
            InitPhase::WriteCtrl { .. } => {
                self.phase = InitPhase::AwaitEntropy;
            },
            InitPhase::AwaitEntropy => {
                if value >> 24u32 != 0 {
                    self.phase = InitPhase::Ready;
                }
            },
            InitPhase::Ready => {},
        }
    }
}

/// Starting the generator ends exactly when the status register reads 2^24 or
/// more (a non-zero count of generated words in its top byte); below that it
/// keeps waiting.
pub proof fn lemma_entropy_ready(init: RandInit, status: u32)
    ensures
        init.phase == InitPhase::AwaitEntropy ==> (init.spec_feed(status).phase == InitPhase::Ready
            <==> status >= 0x100_0000),
        init.phase == InitPhase::AwaitEntropy && status < 0x100_0000 ==> init.spec_feed(status)
            == init,
{
    assert((status >> 24u32 == 0) == (status < 0x100_0000u32)) by (bit_vector);
}

/// The number `range(min, max)` yields when the data register reads `data`.
pub open spec fn range_value(data: u32, min: u32, max: u32) -> u32
    recommends
        min < max,
{
    (data % ((max - min) as u32) + min) as u32
}

/// The number drawn from the data word `data` lies in `min..max`, and its
/// offset from `min` is `data`'s remainder modulo the width of the range:
/// `data` and `result - min` differ by a multiple of `max - min`.
pub proof fn lemma_range_value(data: u32, min: u32, max: u32)
    requires
        min < max,
    ensures
        min <= range_value(data, min, max) < max,
        (data - (range_value(data, min, max) - min)) % ((max - min) as int) == 0,
        range_value(data, min, max) - min == data as int % (max - min) as int,
{
    let w = (max - min) as int;
    let r = range_value(data, min, max) - min;
    assert(r == data as int % w);
    vstd::arithmetic::div_mod::lemma_fundamental_div_mod(data as int, w);
    vstd::arithmetic::div_mod::lemma_mod_multiples_basic(data as int / w, w);
    assert(data - r == (data as int / w) * w);
}

/// Where the drawing of one number stands.
#[derive(Debug, Clone, Copy, PartialEq, Eq, Structural)]
pub enum DrawPhase {
    /// The data register is read next.
    Fetch,
    /// The number drawn.
    Got(u32),
}

/// The drawing of one number in `min..max`: read the data register and
/// reduce the word into the range.
#[derive(Debug, Clone, Copy, PartialEq, Eq, Structural)]
pub struct RandomRange {
    pub min: u32,
    pub max: u32,
    pub phase: DrawPhase,
}

impl RandomRange {
    pub open spec fn spec_next(self) -> Step<u32> {
        match self.phase {
            DrawPhase::Fetch => Step::Io(Access::Read { reg: DATA }),
            DrawPhase::Got(v) => Step::Done(v),
        }
    }

    pub fn next(&self) -> (s: Step<u32>)
        ensures
            s == self.spec_next(),
    {
        match self.phase {
            DrawPhase::Fetch => Step::Io(Access::Read { reg: DATA }),
            DrawPhase::Got(v) => Step::Done(v),
        }
    }

    /// Reports the outcome of the access asked for. The number drawn lies in
    /// `min..max`.
    pub fn feed(&mut self, value: u32)
        requires
            old(self).min < old(self).max,
        ensures
            final(self).min == old(self).min,
            final(self).max == old(self).max,
            old(self).phase == DrawPhase::Fetch ==> final(self).phase == DrawPhase::Got(
                range_value(value, old(self).min, old(self).max),
            ),
            old(self).phase != DrawPhase::Fetch ==> final(self).phase == old(self).phase,
            old(self).phase == DrawPhase::Fetch ==> (final(self).phase matches DrawPhase::Got(v) && old(
                self,
            ).min <= v < old(self).max),
    {
        match self.phase {
            DrawPhase::Fetch => {
                let v = value % (self.max - self.min) + self.min;
                self.phase = DrawPhase::Got(v);
            },
            DrawPhase::Got(_) => {},
        }
    }
}

impl Rand {
    /// Starts the generator.
    pub fn new() -> (r: RandInit)
        ensures
            r == (RandInit { phase: InitPhase::SetWarmup }),
    {
        RandInit { phase: InitPhase::SetWarmup }
    }

    /// Starts drawing a number in `min..max`.
    pub fn range(&self, min: u32, max: u32) -> (r: RandomRange)
        requires
            min < max,
        ensures
            r == (RandomRange { min, max, phase: DrawPhase::Fetch }),
    {
        RandomRange { min, max, phase: DrawPhase::Fetch }
    }
}

} // verus!
