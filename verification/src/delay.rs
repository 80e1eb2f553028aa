//! Time: the system timer and busy waiting on the generic counter.

use vstd::prelude::*;
use crate::mmio::{Access, Step};

verus! {

pub const TIMER_BASE: u32 = 0x7E003000;

/// The system timer's low word.
pub const TIMER_LOW: u32 = TIMER_BASE + 0x4;

/// The system timer's high word.
pub const TIMER_HIGH: u32 = TIMER_BASE + 0x8;

/// The 64-bit time made of a high and a low word.
pub open spec fn time_of(high: u32, low: u32) -> u64 {
    (high as int * 0x1_0000_0000 + low as int) as u64
}

/// The 64-bit value whose high word is `high` and whose low word is `low`.
pub fn join_words(high: u32, low: u32) -> (t: u64)
    ensures
        t == time_of(high, low),
        t as int == high as int * 0x1_0000_0000 + low as int,
{
    let t = ((high as u64) << 32u64) | (low as u64);
    proof {
        let h = high as u64;
        let l = low as u64;
        assert(h < 0x1_0000_0000 && l < 0x1_0000_0000 ==> (h << 32u64) | l == h * 0x1_0000_0000
            + l) by (bit_vector);
    }
    t
}

/// Where a reading of the system timer stands.
#[derive(Debug, Clone, Copy, PartialEq, Eq, Structural)]
pub enum TimePhase {
    /// The high word is read first.
    High,
    /// Then the low word.
    Low { high: u32 },
    /// Then the high word again, to see whether the low word wrapped between
    /// the two reads.
    Recheck { high: u32, low: u32 },
    /// The high word changed: the low word is read again,
    LowAgain,
    /// and then the high word once more.
    HighAgain { low: u32 },
    /// The words the time is made of.
    Finished { high: u32, low: u32 },
}

/// A reading of the 64-bit system timer from its two 32-bit halves.
#[derive(Debug, Clone, Copy, PartialEq, Eq, Structural)]
pub struct SysTime {
    pub phase: TimePhase,
}

impl SysTime {
    pub open spec fn spec_next(self) -> Step<u64> {
        match self.phase {
            TimePhase::High => Step::Io(Access::Read { reg: TIMER_HIGH }),
            TimePhase::Low { .. } => Step::Io(Access::Read { reg: TIMER_LOW }),
            TimePhase::Recheck { .. } => Step::Io(Access::Read { reg: TIMER_HIGH }),
            TimePhase::LowAgain => Step::Io(Access::Read { reg: TIMER_LOW }),
            TimePhase::HighAgain { .. } => Step::Io(Access::Read { reg: TIMER_HIGH }),
            TimePhase::Finished { high, low } => Step::Done(time_of(high, low)),
        }
    }

    pub open spec fn spec_feed(self, value: u32) -> SysTime {
        match self.phase {
            TimePhase::High => SysTime { phase: TimePhase::Low { high: value } },
            TimePhase::Low { high } => SysTime { phase: TimePhase::Recheck { high, low: value } },
            TimePhase::Recheck { high, low } => if high != value {
                SysTime { phase: TimePhase::LowAgain }
            } else {
                SysTime { phase: TimePhase::Finished { high, low } }
            },
            TimePhase::LowAgain => SysTime { phase: TimePhase::HighAgain { low: value } },
            TimePhase::HighAgain { low } => SysTime {
                phase: TimePhase::Finished { high: value, low },
            },
            TimePhase::Finished { .. } => self,
        }
    }

    pub fn next(&self) -> (s: Step<u64>)
        ensures
            s == self.spec_next(),
    {
        match self.phase {
            TimePhase::High => Step::Io(Access::Read { reg: TIMER_HIGH }),
            TimePhase::Low { .. } => Step::Io(Access::Read { reg: TIMER_LOW }),
            TimePhase::Recheck { .. } => Step::Io(Access::Read { reg: TIMER_HIGH }),
            TimePhase::LowAgain => Step::Io(Access::Read { reg: TIMER_LOW }),
            TimePhase::HighAgain { .. } => Step::Io(Access::Read { reg: TIMER_HIGH }),
            TimePhase::Finished { high, low } => Step::Done(join_words(high, low)),
        }
    }

    /// Reports the word read.
    pub fn feed(&mut self, value: u32)
        ensures
            *final(self) == old(self).spec_feed(value),
    {
        match self.phase {
            TimePhase::High => {
                self.phase = TimePhase::Low { high: value };
            },
            TimePhase::Low { high } => {
                self.phase = TimePhase::Recheck { high, low: value };
            },
            TimePhase::Recheck { high, low } => {
                if high != value {
                    self.phase = TimePhase::LowAgain;
                } else {
                    self.phase = TimePhase::Finished { high, low };
                }
            },
            TimePhase::LowAgain => {
                self.phase = TimePhase::HighAgain { low: value };
            },
            TimePhase::HighAgain { low } => {
                self.phase = TimePhase::Finished { high: value, low };
            },
            TimePhase::Finished { .. } => {},
        }
    }
}

/// A reading of the timer yields the first high and low words when the high
/// word reads the same twice; when it changed in between, the low word is
/// read again and paired with a third read of the high word.
pub proof fn lemma_sys_time_reading(h1: u32, l1: u32, h2: u32, l2: u32, h3: u32)
    ensures
        h1 == h2 ==> ({
            let t = SysTime { phase: TimePhase::High }.spec_feed(h1).spec_feed(l1).spec_feed(h2);
            t.spec_next() == Step::<u64>::Done(time_of(h1, l1))
        }),
        h1 != h2 ==> ({
            let t = SysTime { phase: TimePhase::High }.spec_feed(h1).spec_feed(l1).spec_feed(
                h2,
            ).spec_feed(l2).spec_feed(h3);
            t.spec_next() == Step::<u64>::Done(time_of(h3, l2))
        }),
{
}

/// The high word of a 64-bit counter value.
pub open spec fn high_word(x: u64) -> u32 {
    (x / 0x1_0000_0000) as u32
}

/// The low word of a 64-bit counter value.
pub open spec fn low_word(x: u64) -> u32 {
    (x % 0x1_0000_0000) as u32
}

/// A reading of the timer is never torn. Let `c(t)` be the 64-bit counter at
/// time `t`, never decreasing, with the high word changing at most once
/// between the first read (at `t1`) and the last (at `t5`); the reads of the
/// high word at `t1`, `t3`, `t5` give its high word and those of the low word
/// at `t2`, `t4` its low word. Then the time the reading yields is the
/// counter's value at some moment between its first and its last read.
pub proof fn lemma_sys_time_untorn(c: spec_fn(int) -> u64, t1: int, t2: int, t3: int, t4: int, t5: int)
    requires
        t1 <= t2 <= t3 <= t4 <= t5,
        forall|a: int, b: int| a <= b ==> #[trigger] c(a) <= #[trigger] c(b),
        forall|a: int, b: int, x: int, y: int|
            t1 <= a <= b <= x <= y <= t5 && high_word(#[trigger] c(a)) != high_word(#[trigger] c(b))
                ==> high_word(#[trigger] c(x)) == high_word(#[trigger] c(y)),
    ensures
        ({
            let (h1, l1, h2) = (high_word(c(t1)), low_word(c(t2)), high_word(c(t3)));
            let (l2, h3) = (low_word(c(t4)), high_word(c(t5)));
            let t = SysTime { phase: TimePhase::High }.spec_feed(h1).spec_feed(l1).spec_feed(h2);
            let fin = if h1 == h2 {
                t
            } else {
                t.spec_feed(l2).spec_feed(h3)
            };
            exists|t: int| t1 <= t <= t5 && fin.spec_next() == Step::<u64>::Done(#[trigger] c(t))
        }),
{
    let k: int = 0x1_0000_0000;
    let (h1, l1, h2) = (high_word(c(t1)), low_word(c(t2)), high_word(c(t3)));
    let (l2, h3) = (low_word(c(t4)), high_word(c(t5)));
    lemma_sys_time_reading(h1, l1, h2, l2, h3);
    assert(c(t1) <= c(t2) && c(t2) <= c(t3) && c(t4) <= c(t5));
    vstd::arithmetic::div_mod::lemma_div_is_ordered(c(t1) as int, c(t2) as int, k);
    vstd::arithmetic::div_mod::lemma_div_is_ordered(c(t2) as int, c(t3) as int, k);
    vstd::arithmetic::div_mod::lemma_fundamental_div_mod(c(t2) as int, k);
    vstd::arithmetic::div_mod::lemma_fundamental_div_mod(c(t4) as int, k);
    if h1 == h2 {
        assert(high_word(c(t2)) == h1);
        assert(time_of(h1, l1) == c(t2));
    } else {
        assert(high_word(c(t1)) != high_word(c(t3)));
        assert(high_word(c(t4)) == high_word(c(t5)));
        assert(time_of(h3, l2) == c(t4));
    }
}

/// Starts reading the system timer.
pub fn get_sys_time() -> (t: SysTime)
    ensures
        t == (SysTime { phase: TimePhase::High }),
{
    SysTime { phase: TimePhase::High }
}

/// The counter value that a wait of `n` milliseconds lasts until, for a
/// counter at `count` that ticks `freq` times a second.
pub open spec fn msec_deadline(freq: u32, count: u32, n: u32) -> int {
    count + ((freq / 1000) * n) / 1000
}

/// What a countdown of no-op cycles asks for next.
#[derive(Debug, Clone, Copy, PartialEq, Eq, Structural)]
pub enum CycleStep {
    /// Execute one no-op instruction.
    Nop,
    /// The countdown is over.
    Done,
}

/// A countdown of `left` no-op instructions.
#[derive(Debug, Clone, Copy, PartialEq, Eq, Structural)]
pub struct CycleWait {
    pub left: u32,
}

impl CycleWait {
    pub fn next(&self) -> (s: CycleStep)
        ensures
            s == (if self.left > 0 {
                CycleStep::Nop
            } else {
                CycleStep::Done
            }),
    {
        if self.left > 0 {
            CycleStep::Nop
        } else {
            CycleStep::Done
        }
    }

    /// Reports that the no-op asked for was executed.
    pub fn feed(&mut self)
        ensures
            final(self).left == if old(self).left > 0 {
                old(self).left - 1
            } else {
                0
            },
    {
        if self.left > 0 {
            self.left = self.left - 1;
        }
    }
}

/// Starts a countdown of `n` no-op instructions: `n` steps ask for a no-op,
/// and the next one ends the countdown.
pub fn wait_cycles(n: u32) -> (w: CycleWait)
    ensures
        w == (CycleWait { left: n }),
{
    CycleWait { left: n }
}

/// The number of no-op cycles spun between two readings of the counter.
pub const SPIN_CYCLES: u32 = 10000000;

/// What a wait asks for next.
#[derive(Debug, Clone, Copy, PartialEq, Eq, Structural)]
pub enum WaitStep {
    /// Print this number on its own line.
    Print(u32),
    /// Read the generic counter (its low 32 bits).
    ReadCounter,
    /// Spin for this many no-op cycles.
    Spin(u32),
    /// The wait is over.
    Done,
}

/// Where a wait stands.
#[derive(Debug, Clone, Copy, PartialEq, Eq, Structural)]
pub enum WaitPhase {
    /// The deadline is printed first.
    ShowDeadline,
    /// The counter is read next.
    Read,
    /// The reading `counter` is printed next.
    ShowReading { counter: u32 },
    /// Then the wait spins, after reading `counter`.
    Spin { counter: u32 },
    /// A reading reached the deadline.
    Finished,
}

/// A busy wait on the generic counter: print the deadline, then read the
/// counter, print the reading and spin, until a reading is at or past the
/// deadline. The counter is read at least once.
#[derive(Debug, Clone, Copy, PartialEq, Eq, Structural)]
pub struct MsecWait {
    /// The counter value the wait lasts until.
    pub deadline: u32,
    pub phase: WaitPhase,
}

impl MsecWait {
    pub open spec fn spec_next(self) -> WaitStep {
        match self.phase {
            WaitPhase::ShowDeadline => WaitStep::Print(self.deadline),
            WaitPhase::Read => WaitStep::ReadCounter,
            WaitPhase::ShowReading { counter } => WaitStep::Print(counter),
            WaitPhase::Spin { .. } => WaitStep::Spin(SPIN_CYCLES),
            WaitPhase::Finished => WaitStep::Done,
        }
    }

    pub open spec fn spec_feed(self, value: u32) -> MsecWait {
        match self.phase {
            WaitPhase::ShowDeadline => MsecWait { phase: WaitPhase::Read, ..self },
            WaitPhase::Read => MsecWait { phase: WaitPhase::ShowReading { counter: value }, ..self },
            WaitPhase::ShowReading { counter } => MsecWait {
                phase: WaitPhase::Spin { counter },
                ..self
            },
            WaitPhase::Spin { counter } => if counter < self.deadline {
                MsecWait { phase: WaitPhase::Read, ..self }
            } else {
                MsecWait { phase: WaitPhase::Finished, ..self }
            },
            WaitPhase::Finished => self,
        }
    }

    /// Whether the wait goes on after the counter read `counter`.
    pub fn keep_waiting(&self, counter: u32) -> (b: bool)
        ensures
            b == (counter < self.deadline),
    {
        counter < self.deadline
    }

    pub fn next(&self) -> (s: WaitStep)
        ensures
            s == self.spec_next(),
    {
        match self.phase {
            WaitPhase::ShowDeadline => WaitStep::Print(self.deadline),
            WaitPhase::Read => WaitStep::ReadCounter,
            WaitPhase::ShowReading { counter } => WaitStep::Print(counter),
            WaitPhase::Spin { .. } => WaitStep::Spin(SPIN_CYCLES),
            WaitPhase::Finished => WaitStep::Done,
        }
    }

    /// Reports that the step asked for was done: `value` is the counter
    /// reading after `ReadCounter`, and is ignored after the other steps.
    pub fn feed(&mut self, value: u32)
        ensures
            *final(self) == old(self).spec_feed(value),
    {
        match self.phase {
            WaitPhase::ShowDeadline => {
                self.phase = WaitPhase::Read;
            },
            WaitPhase::Read => {
                self.phase = WaitPhase::ShowReading { counter: value };
            },
            WaitPhase::ShowReading { counter } => {
                self.phase = WaitPhase::Spin { counter };
            },
            WaitPhase::Spin { counter } => {
                if self.keep_waiting(counter) {
                    self.phase = WaitPhase::Read;
                } else {
                    self.phase = WaitPhase::Finished;
                }
            },
            WaitPhase::Finished => {},
        }
    }
}

/// One round of a wait from the point where the counter is read next: read
/// `counter`, print it, spin.
pub open spec fn wait_round(w: MsecWait, counter: u32) -> MsecWait {
    w.spec_feed(counter).spec_feed(0).spec_feed(0)
}

/// A wait reads the counter before it can end: after the deadline is
/// printed, its next step is a read. Each round then ends the wait exactly
/// when its reading is at or past the deadline, and otherwise reads again.
pub proof fn lemma_wait_rounds(deadline: u32, value: u32, counter: u32)
    ensures
        ({
            let start = MsecWait { deadline, phase: WaitPhase::ShowDeadline };
            &&& start.spec_next() == WaitStep::Print(deadline)
            &&& start.spec_feed(value) == (MsecWait { deadline, phase: WaitPhase::Read })
            &&& start.spec_feed(value).spec_next() == WaitStep::ReadCounter
        }),
        ({
            let reading = MsecWait { deadline, phase: WaitPhase::Read };
            &&& reading.spec_feed(counter).spec_next() == WaitStep::Print(counter)
            &&& reading.spec_feed(counter).spec_feed(0).spec_next() == WaitStep::Spin(SPIN_CYCLES)
            &&& counter < deadline ==> wait_round(reading, counter) == reading
            &&& counter >= deadline ==> wait_round(reading, counter) == (MsecWait {
                deadline,
                phase: WaitPhase::Finished,
            })
        }),
{
}

/// Starts a wait of `n` milliseconds, for a counter at `count` that ticks
/// `freq` times a second.
pub fn wait_msec(freq: u32, count: u32, n: u32) -> (w: MsecWait)
    requires
        (freq / 1000) * n <= u32::MAX,
        msec_deadline(freq, count, n) <= u32::MAX,
    ensures
        w == (MsecWait {
            deadline: msec_deadline(freq, count, n) as u32,
            phase: WaitPhase::ShowDeadline,
        }),
{
    let ticks = ((freq / 1000) * n) / 1000;
    MsecWait { deadline: count + ticks, phase: WaitPhase::ShowDeadline }
}

} // verus!
