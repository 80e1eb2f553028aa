use kernel8::fb::{
    cap, Color, FrameBuffer, FrameBufferRequest, PSFHeader, PixelWrite, ScreenFont,
    PSF_HEADER_LEN,
};
use kernel8::mailbox::{
    answer, get_serial, mailbox_address, CallPhase, Channel, MailBox, MailboxCall, Message,
    Request, Tag, EMPTY, FULL, READ, RESPONSE, STATUS, WRITE,
};
use kernel8::mmio::{Access, Step};

fn header_bytes(header_size: u32, bytes_per_glyph: u32, height: u32, width: u32) -> Vec<u8> {
    let words = [0x864a_b572u32, 0, header_size, 0, 256, bytes_per_glyph, height, width];
    let mut b = Vec::new();
    for w in words {
        b.extend_from_slice(&w.to_le_bytes());
    }
    b.push(0xAB);
    b
}

fn font(height: u32, width: u32) -> ScreenFont {
    ScreenFont::new(0x8_0000, &header_bytes(32, height * ((width + 7) / 8), height, width))
}

#[test]
fn psf_header_is_read_little_endian() {
    let b = header_bytes(32, 16, 16, 8);
    assert_eq!(b.len(), PSF_HEADER_LEN);
    let h = PSFHeader::from_bytes(&b);
    assert_eq!(h.magic, 0x864a_b572);
    assert_eq!(h.version, 0);
    assert_eq!(h.header_size, 32);
    assert_eq!(h.num_glyph, 256);
    assert_eq!(h.bytes_per_glyph, 16);
    assert_eq!(h.height, 16);
    assert_eq!(h.width, 8);
    assert_eq!(h.glyphs, 0xAB);
}

#[test]
fn screen_font_glyphs_follow_the_header() {
    let f = ScreenFont::new(0x8_0000, &header_bytes(32, 16, 16, 8));
    assert_eq!(f.start, 0x8_0020);
    assert_eq!(f.glyph(0), 0x8_0020);
    assert_eq!(f.glyph(b'A'), 0x8_0020 + 65 * 16);
    assert_eq!(f.glyph(255), 0x8_0020 + 255 * 16);
}

#[test]
fn cap_clamps() {
    assert_eq!(cap(5, 10, 20), 10);
    assert_eq!(cap(25, 10, 20), 20);
    assert_eq!(cap(15, 10, 20), 15);
    assert_eq!(cap(10, 10, 20), 10);
    assert_eq!(cap(20, 10, 20), 20);
    // An empty range: below `low` gives `low`, otherwise `high`.
    assert_eq!(cap(1, 5, 3), 5);
    assert_eq!(cap(7, 5, 3), 3);
}

#[test]
fn colors_and_their_words() {
    assert_eq!(Color::new(1, 2, 3, 4), Color { r: 1, g: 2, b: 3, a: 4 });
    assert_eq!(u32::from(Color::new(0x12, 0x34, 0x56, 0x78)), 0x1234_5678);
    assert_eq!(u32::from(Color::red()), 0xFF00_00FF);
    assert_eq!(u32::from(Color::white()), 0x0000_00FF);
    assert_eq!(u32::from(Color::black()), 0);
    let w: u32 = Color::new(9, 8, 7, 6).into();
    assert_eq!(w, 0x0908_0706);
    assert_eq!(kernel8::fb::color_to_word(Color::new(0xAA, 0, 0xBB, 1)), 0xAA00_BB01);
}

fn frame_buffer(font: ScreenFont) -> FrameBuffer {
    FrameBuffer {
        buffer: 0x3C10_0000,
        width: 1024,
        height: 768,
        real_width: 1024,
        real_height: 768,
        pitch: 4096,
        is_rgb: 1,
        font,
    }
}

#[test]
fn set_pixel_offsets_by_row_and_column() {
    let fb = frame_buffer(font(16, 8));
    assert_eq!(
        fb.set_pixel(3, 2, Color::white()),
        PixelWrite { addr: 0x3C10_0000 + 2 * 1024 + 3, value: 0xFF }
    );
    assert_eq!(fb.set_pixel(0, 0, Color::red()), PixelWrite { addr: 0x3C10_0000, value: 0xFF00_00FF });
}

#[test]
fn char_at_draws_every_pixel_of_the_glyph_box() {
    let fb = frame_buffer(font(2, 8));
    // Row 0: leftmost and rightmost pixels set; row 1: all clear.
    let bitmap = [0b1000_0001u8, 0b0000_0000];
    let writes = fb.char_at(10, 20, &bitmap);
    assert_eq!(writes.len(), 16);
    for (k, w) in writes.iter().enumerate() {
        let (i, j) = ((k / 8) as u64, (k % 8) as u64);
        assert_eq!(w.addr, 0x3C10_0000 + (20 + i) * 1024 + 10 + j);
        let on = i == 0 && (j == 0 || j == 7);
        assert_eq!(w.value, if on { 0xFF } else { 0 });
    }
}

#[test]
fn narrow_glyph_reads_one_byte_for_every_row() {
    let fb = frame_buffer(font(3, 4));
    let writes = fb.char_at(0, 0, &[0b1010_0000u8]);
    assert_eq!(writes.len(), 12);
    let values: Vec<u32> = writes.iter().map(|w| w.value).collect();
    assert_eq!(values, vec![0xFF, 0, 0xFF, 0, 0xFF, 0, 0xFF, 0, 0xFF, 0, 0xFF, 0]);
    let text = fb.font.debug_glyph(&[0b1010_0000u8]);
    assert_eq!(text, b"# # \n# # \n# # \n".to_vec());
}

#[test]
fn debug_glyph_shows_rows() {
    let f = font(3, 8);
    let text = f.debug_glyph(&[0xFF, 0x81, 0x18]);
    assert_eq!(text, b"########\n#      #\n   ##   \n".to_vec());
}

#[test]
fn debug_glyph_and_char_at_agree() {
    let fb = frame_buffer(font(4, 8));
    let bitmap = [0x3C, 0x42, 0x7E, 0x42];
    let text = fb.font.debug_glyph(&bitmap);
    let writes = fb.char_at(0, 0, &bitmap);
    for i in 0..4 {
        for j in 0..8 {
            let shown = text[i * 9 + j] == b'#';
            let drawn = writes[i * 8 + j].value != 0;
            assert_eq!(shown, drawn);
        }
    }
}

#[test]
fn mailbox_word_puts_the_channel_in_the_low_bits() {
    assert_eq!(mailbox_address(0x0008_2000, Channel::Prop), 0x0008_2008);
    assert_eq!(mailbox_address(0x0008_200F, Channel::Fb), 0x0008_2001);
    assert_eq!(mailbox_address(0xFFFF_FFFF, Channel::Power), 0xFFFF_FFF0);
    assert_eq!(Channel::Count.number(), 7);
    assert_eq!(Tag::GetSerial.value(), 0x10004);
    assert_eq!(Tag::SetPower.value(), 0x28001);
    assert_eq!(Tag::SetClkRate.value(), 0x38002);
    assert_eq!(Tag::Last.value(), 0);
}

#[test]
fn request_buffer_layout() {
    let req = Request::new(Tag::SetPower, [1, 3]);
    let b = req.to_array();
    let mut expected: MailBox = [0; 36];
    expected[..7].copy_from_slice(&[32, 0, 0x28001, 8, 8, 1, 3]);
    assert_eq!(b, expected);
}

#[test]
fn request_result_is_always_zero() {
    let req = Request::new(Tag::GetSerial, [0, 0]);
    let mut data: MailBox = [0; 36];
    data[5] = 0x1234_5678;
    data[6] = 0x9ABC_DEF0;
    assert_eq!(req.get_result(data), Ok(0));
    data[5] = u32::MAX;
    data[6] = u32::MAX;
    assert_eq!(req.get_result(data), Ok(0));
}

#[test]
fn frame_buffer_request_layout_and_answer() {
    let f = font(16, 8);
    let req = FrameBufferRequest::new(1024, 768, f);
    let b = req.to_array();
    assert_eq!(b[0], 140);
    assert_eq!(b[1], 0);
    assert_eq!(&b[2..7], &[0x48003, 8, 8, 1024, 768]);
    assert_eq!(&b[7..12], &[0x48004, 8, 8, 1024, 768]);
    assert_eq!(&b[12..17], &[0x48009, 8, 8, 0, 0]);
    assert_eq!(&b[17..21], &[0x48005, 4, 4, 32]);
    assert_eq!(&b[21..25], &[0x48006, 4, 4, 1]);
    assert_eq!(&b[25..30], &[0x40001, 8, 8, 4096, 0]);
    assert_eq!(&b[30..34], &[0x40008, 4, 4, 0]);
    assert_eq!(&b[34..36], &[0, 0]);

    let mut data = b;
    data[1] = RESPONSE;
    data[5] = 1920;
    data[6] = 1080;
    data[24] = 0;
    data[28] = 0xFE40_0000;
    data[33] = 7680;
    let fb = req.get_result(data).unwrap();
    assert_eq!(fb.buffer, 0x3E40_0000);
    assert_eq!((fb.width, fb.height), (1024, 768));
    assert_eq!((fb.real_width, fb.real_height), (1920, 1080));
    assert_eq!(fb.pitch, 7680);
    assert_eq!(fb.is_rgb, 0);
    assert_eq!(fb.font, f);

    // Echoed back unchanged, the request is accepted.
    let echo = req.get_result(req.to_array()).unwrap();
    assert_eq!(echo.buffer, 4096);
    assert_eq!((echo.real_width, echo.real_height, echo.pitch, echo.is_rgb), (1024, 768, 0, 1));

    let mut shallow = data;
    shallow[20] = 16;
    assert!(req.get_result(shallow).is_err());
    let mut null = data;
    null[28] = 0;
    assert!(req.get_result(null).is_err());
}

/// The bytes a transmission writes to the UART data register, with room in
/// the transmit FIFO at every status read.
fn sent_bytes(mut w: kernel8::io::serial::WriteBytes) -> Vec<u8> {
    let mut out = Vec::new();
    loop {
        match w.next() {
            Step::Done(()) => return out,
            Step::Io(Access::Read { .. }) => w.feed(0),
            Step::Io(Access::Write { val, .. }) => {
                out.push(val as u8);
                w.feed(0);
            }
        }
    }
}

#[test]
fn answer_needs_a_response_code() {
    let req = FrameBufferRequest::new(640, 480, font(16, 8));
    let mut data = req.to_array();
    data[28] = 0x1000_0000;
    let (note, result) = answer(&req, data);
    assert!(result.is_err());
    assert!(sent_bytes(note).is_empty());
    data[1] = RESPONSE;
    let (note, result) = answer(&req, data);
    assert_eq!(result.unwrap().buffer, 0x1000_0000);
    assert_eq!(sent_bytes(note), b"Got Response: ".to_vec());
    data[1] = 0x8000_0001;
    let (note, result) = answer(&req, data);
    assert!(result.is_err());
    assert!(sent_bytes(note).is_empty());
}

#[test]
fn mailbox_call_waits_posts_and_matches_the_reply() {
    let req = Request::new(Tag::GetSerial, [0, 0]);
    let (buffer, mut call) = req.call(Channel::Prop, 0x0008_2000);
    assert_eq!(buffer, req.to_array());
    assert_eq!(call.word, 0x0008_2008);
    let mut accesses = Vec::new();
    // Status full once, then room; a foreign reply, then ours.
    let mut status = vec![FULL, 0, EMPTY, 0, 0];
    let mut replies = vec![0x0001_0001, 0x0008_2008];
    loop {
        match call.next() {
            Step::Done(()) => break,
            Step::Io(a) => {
                accesses.push(a);
                let v = match a {
                    Access::Read { reg } if reg == STATUS => status.remove(0),
                    Access::Read { reg } if reg == READ => replies.remove(0),
                    _ => 0,
                };
                call.feed(v);
            }
        }
    }
    assert_eq!(call.phase, CallPhase::Replied);
    assert_eq!(
        accesses,
        vec![
            Access::Read { reg: STATUS },
            Access::Read { reg: STATUS },
            Access::Write { reg: WRITE, val: 0x0008_2008 },
            Access::Read { reg: STATUS },
            Access::Read { reg: STATUS },
            Access::Read { reg: READ },
            Access::Read { reg: STATUS },
            Access::Read { reg: READ },
        ]
    );
}

#[test]
fn get_serial_asks_on_the_property_channel() {
    let (req, buffer, call) = get_serial(0x1000);
    assert_eq!(buffer, req.to_array());
    assert_eq!(buffer[2], 0x10004);
    assert_eq!(req.tag, Tag::GetSerial);
    assert_eq!(req.arg, [3424, 23423]);
    assert_eq!(call, MailboxCall { word: 0x1008, phase: CallPhase::AwaitRoom });
}

#[test]
fn empty_glyph_box_draws_nothing() {
    let fb = frame_buffer(font(0, 8));
    assert!(fb.char_at(5, 5, &[]).is_empty());
    assert!(fb.font.debug_glyph(&[]).is_empty());
    let thin = frame_buffer(font(2, 0));
    assert!(thin.char_at(5, 5, &[0xFF]).is_empty());
    assert_eq!(thin.font.debug_glyph(&[0xFF]), b"\n\n".to_vec());
}

#[test]
fn narrow_rows_are_not_read_for_an_empty_glyph() {
    // A glyph box of no rows draws nothing, whatever its width.
    let fb = frame_buffer(font(0, 16));
    assert!(fb.char_at(0, 0, &[]).is_empty());
    assert!(fb.font.debug_glyph(&[]).is_empty());
}
