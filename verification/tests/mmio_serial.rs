use kernel8::io::serial;
use kernel8::io::serial::{getc, write_hex, writec, RxPhase, TxPhase, WriteBytes, Writer};
use kernel8::mmio::{receive_fifo_empty, transmit_fifo_full, Access, Step, UART_DR, UART_FR};

#[test]
fn fifo_flags_read_their_bits() {
    assert!(transmit_fifo_full(0x20));
    assert!(!transmit_fifo_full(0x10));
    assert!(transmit_fifo_full(0xFFFF_FFFF));
    assert!(!transmit_fifo_full(0));
    assert!(receive_fifo_empty(0x10));
    assert!(!receive_fifo_empty(0x20));
    assert!(receive_fifo_empty(0x90));
    assert!(!receive_fifo_empty(0));
}

#[test]
fn writec_waits_for_room_then_writes_the_byte() {
    let mut w = writec(b'A');
    assert!(matches!(w.next(), Step::Io(Access::Read { reg: UART_FR })));
    w.feed(0x20); // transmit FIFO full
    assert_eq!(w.phase, TxPhase::AwaitRoom);
    assert!(matches!(w.next(), Step::Io(Access::Read { reg: UART_FR })));
    w.feed(0x00); // room
    match w.next() {
        Step::Io(a) => assert_eq!(a, Access::Write { reg: UART_DR, val: 65 }),
        Step::Done(_) => panic!("expected a write"),
    }
    w.feed(0);
    assert!(matches!(w.next(), Step::Done(())));
}

#[test]
fn getc_waits_for_data_then_keeps_the_low_byte() {
    let mut r = getc();
    assert!(matches!(r.next(), Step::Io(Access::Read { reg: UART_FR })));
    r.feed(0x10); // receive FIFO empty
    assert_eq!(r.phase, RxPhase::AwaitData);
    r.feed(0x80); // data there
    assert_eq!(r.phase, RxPhase::Fetch);
    assert!(matches!(r.next(), Step::Io(Access::Read { reg: UART_DR })));
    r.feed(0x1234_5678);
    assert!(matches!(r.next(), Step::Done(0x78)));
}

/// Drives a transmission against a UART whose FIFO is full on every other
/// status read, and returns the bytes written to the data register.
fn transmit(mut w: WriteBytes) -> Vec<u8> {
    let mut out = Vec::new();
    let mut busy = true;
    loop {
        match w.next() {
            Step::Done(()) => return out,
            Step::Io(Access::Read { reg }) => {
                assert_eq!(reg, UART_FR);
                busy = !busy;
                w.feed(if busy { 0x20 } else { 0 });
            }
            Step::Io(Access::Write { reg, val }) => {
                assert_eq!(reg, UART_DR);
                out.push(val as u8);
                w.feed(0);
            }
        }
    }
}

#[test]
fn write_sends_each_character_as_its_low_byte() {
    assert_eq!(transmit(serial::write("Kernel8")), b"Kernel8".to_vec());
    assert_eq!(transmit(serial::write("")), Vec::<u8>::new());
    // 'é' is U+00E9 and 'Ā' is U+0100: only the low byte goes out.
    assert_eq!(transmit(serial::write("é\u{100}")), vec![0xE9, 0x00]);
}

#[test]
fn writeln_adds_a_newline() {
    assert_eq!(transmit(serial::writeln("ok")), b"ok\n".to_vec());
    assert_eq!(transmit(serial::writeln("")), b"\n".to_vec());
}

#[test]
fn write_hex_sends_upper_case_digits() {
    assert_eq!(transmit(write_hex(0)), b"0x0\n".to_vec());
    assert_eq!(transmit(write_hex(255)), b"0xFF\n".to_vec());
    assert_eq!(transmit(write_hex(0x3F20_1000)), b"0x3F201000\n".to_vec());
    assert_eq!(transmit(write_hex(u64::MAX)), b"0xFFFFFFFFFFFFFFFF\n".to_vec());
    assert_eq!(transmit(write_hex(16)), b"0x10\n".to_vec());
}

#[test]
fn writer_sends_like_write() {
    let mut writer = Writer;
    assert_eq!(transmit(writer.write_str("Testing")), b"Testing".to_vec());
}

#[test]
fn finished_transmission_stays_finished() {
    let mut w = serial::write("a");
    w.feed(0); // room
    w.feed(0); // written
    assert!(matches!(w.next(), Step::Done(())));
    w.feed(0x20);
    assert!(matches!(w.next(), Step::Done(())));
}

#[test]
fn written_byte_is_not_written_again() {
    let mut w = writec(b'z');
    w.feed(0);
    w.feed(0);
    assert_eq!(w.phase, TxPhase::Sent);
    w.feed(0x20);
    w.feed(0);
    assert_eq!(w.phase, TxPhase::Sent);
    assert!(matches!(w.next(), Step::Done(())));
}
