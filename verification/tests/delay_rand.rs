use kernel8::delay::{get_sys_time, join_words, wait_cycles, wait_msec, CycleStep, WaitPhase, WaitStep, SPIN_CYCLES, TIMER_HIGH, TIMER_LOW};
use kernel8::mmio::{Access, Step};
use kernel8::rand::{DrawPhase, InitPhase, Rand, CTRL, DATA, INT_MASK, STATUS, WARMUP};

/// Reads the timer from a sequence of register values, checking which
/// register each read goes to.
fn read_timer(values: &[(u32, u32)]) -> u64 {
    let mut t = get_sys_time();
    let mut values = values.iter();
    loop {
        match t.next() {
            Step::Done(v) => {
                assert!(values.next().is_none());
                return v;
            }
            Step::Io(Access::Read { reg }) => {
                let (expected, v) = *values.next().unwrap();
                assert_eq!(reg, expected);
                t.feed(v);
            }
            Step::Io(Access::Write { .. }) => panic!("the timer is only read"),
        }
    }
}

#[test]
fn join_words_makes_high_and_low_halves() {
    assert_eq!(join_words(0, 0), 0);
    assert_eq!(join_words(1, 2), 0x1_0000_0002);
    assert_eq!(join_words(u32::MAX, u32::MAX), u64::MAX);
}

#[test]
fn stable_high_word_gives_the_first_reading() {
    let t = read_timer(&[(TIMER_HIGH, 7), (TIMER_LOW, 100), (TIMER_HIGH, 7)]);
    assert_eq!(t, (7u64 << 32) | 100);
}

#[test]
fn changed_high_word_reads_both_again() {
    let t = read_timer(&[
        (TIMER_HIGH, 7),
        (TIMER_LOW, 0xFFFF_FFFF),
        (TIMER_HIGH, 8),
        (TIMER_LOW, 3),
        (TIMER_HIGH, 8),
    ]);
    assert_eq!(t, (8u64 << 32) | 3);
}

#[test]
fn wait_msec_deadline() {
    // A 19.2 MHz counter: (19 200 000 / 1000) * 300 / 1000 = 5760 ticks.
    let w = wait_msec(19_200_000, 1000, 300);
    assert_eq!(w.deadline, 1000 + 5760);
    assert!(w.keep_waiting(1000));
    assert!(w.keep_waiting(6759));
    assert!(!w.keep_waiting(6760));
    assert!(!w.keep_waiting(u32::MAX));
    assert_eq!(w.phase, WaitPhase::ShowDeadline);
    let z = wait_msec(999, 5, 1000);
    assert_eq!(z.deadline, 5);
}

/// Runs a wait against a counter that gives `readings` in turn; returns the
/// steps taken.
fn run_wait(deadline_freq: u32, count: u32, n: u32, readings: &[u32]) -> Vec<WaitStep> {
    let mut w = wait_msec(deadline_freq, count, n);
    let mut readings = readings.iter();
    let mut steps = Vec::new();
    loop {
        let step = w.next();
        steps.push(step);
        match step {
            WaitStep::Done => return steps,
            WaitStep::ReadCounter => w.feed(*readings.next().unwrap()),
            _ => w.feed(0),
        }
    }
}

#[test]
fn wait_reads_until_a_reading_reaches_the_deadline() {
    // Deadline 1000 + 5760 = 6760.
    let steps = run_wait(19_200_000, 1000, 300, &[1000, 6759, 6760, 9999]);
    assert_eq!(
        steps,
        vec![
            WaitStep::Print(6760),
            WaitStep::ReadCounter,
            WaitStep::Print(1000),
            WaitStep::Spin(SPIN_CYCLES),
            WaitStep::ReadCounter,
            WaitStep::Print(6759),
            WaitStep::Spin(SPIN_CYCLES),
            WaitStep::ReadCounter,
            WaitStep::Print(6760),
            WaitStep::Spin(SPIN_CYCLES),
            WaitStep::Done,
        ]
    );
}

#[test]
fn wait_reads_at_least_once_even_when_already_past() {
    // A zero-length wait: the deadline is the start count, and the counter is
    // still read once.
    let steps = run_wait(19_200_000, 500, 0, &[500]);
    assert_eq!(
        steps,
        vec![
            WaitStep::Print(500),
            WaitStep::ReadCounter,
            WaitStep::Print(500),
            WaitStep::Spin(SPIN_CYCLES),
            WaitStep::Done,
        ]
    );
}

#[test]
fn rand_new_starts_the_generator() {
    let mut init = Rand::new();
    let mut accesses = Vec::new();
    let mut status_reads = 0;
    let rand = loop {
        match init.next() {
            Step::Done(r) => break r,
            Step::Io(a) => {
                accesses.push(a);
                let v = match a {
                    Access::Read { reg } if reg == INT_MASK => 0x10,
                    Access::Read { reg } if reg == CTRL => 0x4,
                    Access::Read { reg } if reg == STATUS => {
                        status_reads += 1;
                        if status_reads < 3 { 0x00FF_FFFF } else { 0x0100_0000 }
                    }
                    _ => 0,
                };
                init.feed(v);
            }
        }
    };
    assert_eq!(rand, Rand {});
    assert_eq!(init.phase, InitPhase::Ready);
    assert_eq!(
        accesses,
        vec![
            Access::Write { reg: STATUS, val: WARMUP },
            Access::Read { reg: INT_MASK },
            Access::Write { reg: INT_MASK, val: 0x11 },
            Access::Read { reg: CTRL },
            Access::Write { reg: CTRL, val: 0x5 },
            Access::Read { reg: STATUS },
            Access::Read { reg: STATUS },
            Access::Read { reg: STATUS },
        ]
    );
}

fn draw(rand: &Rand, data: u32, min: u32, max: u32) -> u32 {
    let mut r = rand.range(min, max);
    assert!(matches!(r.next(), Step::Io(Access::Read { reg: DATA })));
    r.feed(data);
    match r.next() {
        Step::Done(v) => v,
        Step::Io(_) => panic!("one read is enough"),
    }
}

#[test]
fn test_rand() {
    let rand = Rand {};
    let res = draw(&rand, 0xDEAD_BEEF, 2, 3);
    assert!(res > 1);
    assert_eq!(res, 2);
}

#[test]
fn range_reduces_the_data_word() {
    let rand = Rand {};
    assert_eq!(draw(&rand, 1234, 0, 100), 34);
    assert_eq!(draw(&rand, 99, 0, 100), 99);
    assert_eq!(draw(&rand, 100, 0, 100), 0);
    assert_eq!(draw(&rand, u32::MAX, 10, 20), 10 + u32::MAX % 10);
    assert_eq!(draw(&rand, u32::MAX, 0, u32::MAX), 0);
    let mut r = rand.range(5, 6);
    r.feed(7);
    assert_eq!(r.phase, DrawPhase::Got(5));
}

#[test]
fn wait_cycles_asks_for_exactly_n_nops() {
    let mut w = wait_cycles(3);
    let mut nops = 0;
    while w.next() == CycleStep::Nop {
        nops += 1;
        w.feed();
    }
    assert_eq!(nops, 3);
    assert_eq!(w.next(), CycleStep::Done);
    let z = wait_cycles(0);
    assert_eq!(z.next(), CycleStep::Done);
}

#[test]
fn exception_level_is_current_el_shifted() {
    assert_eq!(kernel8::cpu::get_el(0b1000), 2);
    assert_eq!(kernel8::cpu::get_el(0b1100), 3);
    assert_eq!(kernel8::cpu::get_el(0b0100), 1);
    assert_eq!(kernel8::cpu::get_el(0b0111), 1);
    assert_eq!(kernel8::cpu::get_el(u64::MAX), u64::MAX >> 2);
}
