//! The frame buffer: asking the GPU for one, and drawing pixels and glyphs
//! of a PSF font into it.

use vstd::prelude::*;
use crate::mailbox::{MailBox, Message, REQUEST};

verus! {

/// Bytes in a PSF header as the font file lays it out: eight little-endian
/// 32-bit words and one byte.
pub const PSF_HEADER_LEN: usize = 33;

/// The little-endian 32-bit word at `off` in `b`.
pub open spec fn le_word(b: Seq<u8>, off: int) -> u32 {
    (b[off] + b[off + 1] * 0x100 + b[off + 2] * 0x1_0000 + b[off + 3] * 0x100_0000) as u32
}

/// A word read from four bytes gives those bytes back, lowest first: byte
/// `off + k` is the word's `k`-th byte from the bottom.
pub proof fn lemma_le_word_bytes(b: Seq<u8>, off: int)
    requires
        0 <= off,
        off + 4 <= b.len(),
    ensures
        le_word(b, off) % 0x100 == b[off],
        (le_word(b, off) / 0x100) % 0x100 == b[off + 1],
        (le_word(b, off) / 0x1_0000) % 0x100 == b[off + 2],
        le_word(b, off) / 0x100_0000 == b[off + 3],
{
    let (b0, b1, b2, b3) = (b[off], b[off + 1], b[off + 2], b[off + 3]);
    let w: int = b0 + b1 * 0x100 + b2 * 0x1_0000 + b3 * 0x100_0000;
    assert(0 <= w < 0x1_0000_0000);
    assert(le_word(b, off) == w);
    assert(w % 0x100 == b0 && (w / 0x100) % 0x100 == b1 && (w / 0x1_0000) % 0x100 == b2 && w
        / 0x100_0000 == b3) by (nonlinear_arith)
        requires
            w == b0 + b1 * 0x100 + b2 * 0x1_0000 + b3 * 0x100_0000,
            0 <= b0 < 0x100,
            0 <= b1 < 0x100,
            0 <= b2 < 0x100,
            0 <= b3 < 0x100,
    ;
}

/// The little-endian 32-bit word at `off` in `bytes`.
fn read_le_u32(bytes: &[u8], off: usize) -> (w: u32)
    requires
        off + 4 <= bytes@.len(),
    ensures
        w == le_word(bytes@, off as int),
{
    let b0 = bytes[off];
    let b1 = bytes[off + 1];
    let b2 = bytes[off + 2];
    let b3 = bytes[off + 3];
    let w = (b0 as u32) | ((b1 as u32) << 8u32) | ((b2 as u32) << 16u32) | ((b3 as u32) << 24u32);
    proof {
        assert((b0 as u32) | ((b1 as u32) << 8u32) | ((b2 as u32) << 16u32) | ((b3 as u32) << 24u32)
            == b0 + b1 * 0x100 + b2 * 0x1_0000 + b3 * 0x100_0000) by (bit_vector);
    }
    w
}

/// The header of a PC Screen Font (version 2).
#[derive(Debug, Clone, Copy, PartialEq, Eq, Structural)]
pub struct PSFHeader {
    pub magic: u32,
    pub version: u32,
    pub header_size: u32,
    pub flags: u32,
    pub num_glyph: u32,
    pub bytes_per_glyph: u32,
    pub height: u32,
    pub width: u32,
    pub glyphs: u8,
}

impl PSFHeader {
    /// The header that the bytes `b` hold.
    pub open spec fn spec_from_bytes(b: Seq<u8>) -> PSFHeader {
        PSFHeader {
            magic: le_word(b, 0),
            version: le_word(b, 4),
            header_size: le_word(b, 8),
            flags: le_word(b, 12),
            num_glyph: le_word(b, 16),
            bytes_per_glyph: le_word(b, 20),
            height: le_word(b, 24),
            width: le_word(b, 28),
            glyphs: b[32],
        }
    }

    /// Reads a header from the first `PSF_HEADER_LEN` bytes of `bytes`.
    pub fn from_bytes(bytes: &[u8]) -> (h: PSFHeader)
        requires
            bytes@.len() >= PSF_HEADER_LEN,
        ensures
            h == PSFHeader::spec_from_bytes(bytes@),
    {
        PSFHeader {
            magic: read_le_u32(bytes, 0),
            version: read_le_u32(bytes, 4),
            header_size: read_le_u32(bytes, 8),
            flags: read_le_u32(bytes, 12),
            num_glyph: read_le_u32(bytes, 16),
            bytes_per_glyph: read_le_u32(bytes, 20),
            height: read_le_u32(bytes, 24),
            width: read_le_u32(bytes, 28),
            glyphs: bytes[32],
        }
    }
}

/// A font in memory: its header, and the address its glyphs start at.
#[derive(Debug, Clone, Copy, PartialEq, Eq, Structural)]
pub struct ScreenFont {
    pub header: PSFHeader,
    pub start: usize,
}

impl ScreenFont {
    /// The font at address `from`, whose first bytes are `header_bytes`: its
    /// glyphs start right after the header.
    pub fn new(from: usize, header_bytes: &[u8]) -> (f: ScreenFont)
        requires
            header_bytes@.len() >= PSF_HEADER_LEN,
            from + le_word(header_bytes@, 8) <= usize::MAX,
        ensures
            f.header == PSFHeader::spec_from_bytes(header_bytes@),
            f.start == from + f.header.header_size,
    {
        let header = PSFHeader::from_bytes(header_bytes);
        ScreenFont { header, start: from + header.header_size as usize }
    }

    /// The address of glyph `glyph`.
    pub fn glyph(&self, glyph: u8) -> (addr: usize)
        requires
            self.start + glyph * self.header.bytes_per_glyph <= usize::MAX,
        ensures
            addr == self.start + glyph * self.header.bytes_per_glyph,
    {
        self.start + (glyph as usize) * (self.header.bytes_per_glyph as usize)
    }
}

/// `num` brought into `low..=high`: `low` below it, `high` above it.
pub fn cap(num: u32, low: u32, high: u32) -> (r: u32)
    ensures
        r == (if num < low {
            low
        } else if num > high {
            high
        } else {
            num
        }),
        low <= high ==> low <= r <= high,
        low <= num <= high ==> r == num,
{
    if num < low {
        low
    } else if num > high {
        high
    } else {
        num
    }
}

/// A colour with red, green, blue and alpha bytes.
#[derive(Debug, Clone, Copy, PartialEq, Eq, Structural)]
pub struct Color {
    pub r: u8,
    pub g: u8,
    pub b: u8,
    pub a: u8,
}

/// The pixel word of a colour: red in the top byte, then green, blue and
/// alpha in the lowest byte.
pub open spec fn color_word(c: Color) -> u32 {
    (c.r * 0x100_0000 + c.g * 0x1_0000 + c.b * 0x100 + c.a) as u32
}

impl Color {
    pub fn new(r: u8, g: u8, b: u8, a: u8) -> (c: Color)
        ensures
            c == (Color { r, g, b, a }),
    {
        Color { r, g, b, a }
    }

    pub fn red() -> (c: Color)
        ensures
            c == (Color { r: 255, g: 0, b: 0, a: 255 }),
    {
        Color::new(255, 0, 0, 255)
    }

    /// The colour that glyphs are drawn in: zero colour bytes, full alpha.
    pub fn white() -> (c: Color)
        ensures
            c == (Color { r: 0, g: 0, b: 0, a: 255 }),
    {
        Color::new(0, 0, 0, 255)
    }

    pub fn black() -> (c: Color)
        ensures
            c == (Color { r: 0, g: 0, b: 0, a: 0 }),
    {
        Color::new(0, 0, 0, 0)
    }
}

impl From<Color> for u32 {
    fn from(c: Color) -> (w: u32) {
        let w = ((c.r as u32) << 24u32) | ((c.g as u32) << 16u32) | ((c.b as u32) << 8u32) | (
        c.a as u32);
        proof {
            let (r, g, b, a) = (c.r, c.g, c.b, c.a);
            assert(((r as u32) << 24u32) | ((g as u32) << 16u32) | ((b as u32) << 8u32) | (a as u32)
                == r * 0x100_0000 + g * 0x1_0000 + b * 0x100 + a) by (bit_vector);
        }
        w
    }
}

impl vstd::std_specs::convert::FromSpecImpl<Color> for u32 {
    open spec fn obeys_from_spec() -> bool {
        true
    }

    open spec fn from_spec(c: Color) -> u32 {
        color_word(c)
    }
}

/// A colour's pixel word, and the colour read back from its bytes.
pub fn color_to_word(c: Color) -> (w: u32)
    ensures
        w == color_word(c),
        w >> 24u32 == c.r,
        (w >> 16u32) & 0xFF == c.g,
        (w >> 8u32) & 0xFF == c.b,
        w & 0xFF == c.a,
{
    let w: u32 = u32::from(c);
    proof {
        let (r, g, b, a) = (c.r, c.g, c.b, c.a);
        assert(({
            let x: u32 = (r * 0x100_0000 + g * 0x1_0000 + b * 0x100 + a) as u32;
            &&& x >> 24u32 == r
            &&& (x >> 16u32) & 0xFF == g
            &&& (x >> 8u32) & 0xFF == b
            &&& x & 0xFF == a
        })) by (bit_vector);
    }
    w
}

/// A 32-bit store into the frame buffer.
#[derive(Debug, Clone, Copy, PartialEq, Eq, Structural)]
pub struct PixelWrite {
    pub addr: u64,
    pub value: u32,
}

/// A frame buffer the GPU handed out, and the font text is drawn in.
#[derive(Debug, Clone, Copy, PartialEq, Eq, Structural)]
pub struct FrameBuffer {
    /// The address of the first pixel.
    pub buffer: u64,
    pub width: u32,
    pub height: u32,
    pub real_width: u32,
    pub real_height: u32,
    pub pitch: u32,
    pub is_rgb: u32,
    pub font: ScreenFont,
}

impl FrameBuffer {
    /// The store that sets pixel (`x`, `y`): the word of `color`, at the
    /// buffer's address plus `y * width + x`.
    pub open spec fn pixel_write(self, x: int, y: int, color: Color) -> PixelWrite {
        PixelWrite { addr: (self.buffer + (y * self.width + x)) as u64, value: color_word(color) }
    }

    /// Whether pixel (`x`, `y`) can be addressed without overflow.
    pub open spec fn addressable(self, x: int, y: int) -> bool {
        &&& y * self.width + x <= u32::MAX
        &&& self.buffer + (y * self.width + x) <= u64::MAX
    }

    /// The store that sets pixel (`x`, `y`) to `color`.
    pub fn set_pixel(&self, x: u32, y: u32, color: Color) -> (w: PixelWrite)
        requires
            self.addressable(x as int, y as int),
        ensures
            w == self.pixel_write(x as int, y as int, color),
    {
        let offset = y * self.width + x;
        PixelWrite { addr: self.buffer + offset as u64, value: color_to_word(color) }
    }

    /// The store that draws column `j` of row `i` of a glyph at (`x`, `y`):
    /// `white` where the glyph's pixel is set, `black` elsewhere.
    pub open spec fn glyph_write(self, x: int, y: int, bitmap: Seq<u8>, i: int, j: int) -> PixelWrite {
        let on = pixel_on(row_byte(bitmap, self.font.header.width, i), j as u32);
        self.pixel_write(
            x + j,
            y + i,
            if on {
                Color { r: 0, g: 0, b: 0, a: 255 }
            } else {
                Color { r: 0, g: 0, b: 0, a: 0 }
            },
        )
    }

    /// The stores that draw, with its top-left corner at (`x`, `y`), the glyph
    /// whose bitmap starts with `bitmap` (the bytes at `font.glyph(c)` for the
    /// character `c`): row by row, each row from left to right, every pixel of
    /// the glyph's box in `white` or `black`.
    pub fn char_at(&self, x: u32, y: u32, bitmap: &[u8]) -> (writes: Vec<PixelWrite>)
        requires
            self.font.header.height > 0 ==> self.font.header.width <= 8,
            bitmap_covers(bitmap@.len(), self.font.header.height, self.font.header.width),
            self.font.header.height > 0 && self.font.header.width > 0 ==> {
                &&& x + self.font.header.width - 1 <= u32::MAX
                &&& y + self.font.header.height - 1 <= u32::MAX
                &&& self.addressable(
                    x + self.font.header.width - 1,
                    y + self.font.header.height - 1,
                )
            },
        ensures
            writes@.len() == self.font.header.height * self.font.header.width,
            forall|k: int|
                0 <= k < writes@.len() ==> #[trigger] writes@[k] == self.glyph_write(
                    x as int,
                    y as int,
                    bitmap@,
                    k / self.font.header.width as int,
                    k % self.font.header.width as int,
                ),
    {
        let header = self.font.header;
        let height = header.height;
        let width = header.width;
        let step = (width / 8) as usize;
        let mut writes: Vec<PixelWrite> = Vec::new();
        let mut i: u32 = 0;
        let mut offset: usize = 0;
        while i < height
            invariant
                header == self.font.header,
                width == header.width,
                height == header.height,
                height > 0 ==> width <= 8,
                step == width / 8,
                bitmap_covers(bitmap@.len(), height, width),
                height > 0 && width > 0 ==> {
                    &&& x + width - 1 <= u32::MAX
                    &&& y + height - 1 <= u32::MAX
                    &&& self.addressable(x + width - 1, y + height - 1)
                },
                i <= height,
                i < height ==> offset == i * step,
                writes@.len() == i * width,
                forall|k: int|
                    0 <= k < writes@.len() ==> #[trigger] writes@[k] == self.glyph_write(
                        x as int,
                        y as int,
                        bitmap@,
                        k / width as int,
                        k % width as int,
                    ),
            decreases height - i,
        {
            proof {
                lemma_row_in_bitmap(i as int, height, width, bitmap@.len());
            }
            let row = bitmap[offset];
            let mut j: u32 = 0;
            while j < width
                invariant
                    header == self.font.header,
                    width == header.width,
                    height == header.height,
                    height > 0 ==> width <= 8,
                    i < height,
                    height > 0 && width > 0 ==> {
                        &&& x + width - 1 <= u32::MAX
                        &&& y + height - 1 <= u32::MAX
                        &&& self.addressable(x + width - 1, y + height - 1)
                    },
                    row == row_byte(bitmap@, width, i as int),
                    j <= width,
                    writes@.len() == i * width + j,
                    forall|k: int|
                        0 <= k < writes@.len() ==> #[trigger] writes@[k] == self.glyph_write(
                            x as int,
                            y as int,
                            bitmap@,
                            k / width as int,
                            k % width as int,
                        ),
                decreases width - j,
            {
                proof {
                    vstd::arithmetic::mul::lemma_mul_inequality(
                        (y + i) as int,
                        (y + height - 1) as int,
                        self.width as int,
                    );
                }
                let color = if pixel_set(row, j) {
                    Color::white()
                } else {
                    Color::black()
                };
                let w = self.set_pixel(x + j, y + i, color);
                proof {
                    let k = i * width + j;
                    vstd::arithmetic::div_mod::lemma_fundamental_div_mod_converse(
                        k as int,
                        width as int,
                        i as int,
                        j as int,
                    );
                    assert(w == self.glyph_write(x as int, y as int, bitmap@, i as int, j as int));
                }
                writes.push(w);
                j = j + 1;
            }
            proof {
                vstd::arithmetic::mul::lemma_mul_is_distributive_add_other_way(
                    width as int,
                    i as int,
                    1,
                );
                vstd::arithmetic::mul::lemma_mul_is_distributive_add_other_way(
                    step as int,
                    i as int,
                    1,
                );
            }
            i = i + 1;
            if i < height {
                offset = offset + step;
            }
        }
        writes
    }
}

/// Whether column `j` (0 is the leftmost) of a glyph row is set: bit `7 - j`
/// of the row's byte.
pub open spec fn pixel_on(row: u8, j: u32) -> bool {
    (row >> ((7 - j) as u8)) & 1 == 1
}

/// Whether column `j` of the glyph row `row` is set, for `j` below 8.
fn pixel_set(row: u8, j: u32) -> (on: bool)
    requires
        j < 8,
    ensures
        on == pixel_on(row, j),
{
    let jj = j as u8;
    proof {
        assert(jj < 8 ==> ((row & (0x80u8 >> jj)) > 0) == (((row >> ((7 - jj) as u8)) & 1) == 1))
            by (bit_vector);
        assert((7 - j) as u8 == (7 - jj) as u8);
    }
    row & (0x80u8 >> jj) > 0
}

/// Whether a glyph bitmap of `len` bytes holds every row that is read: row
/// `i` of a glyph `width` pixels wide is read at byte `i * (width / 8)`.
pub open spec fn bitmap_covers(len: nat, height: u32, width: u32) -> bool {
    height == 0 || (height - 1) * (width / 8) < len
}

/// The byte that row `i` of a glyph `width` pixels wide is read from.
pub open spec fn row_byte(bitmap: Seq<u8>, width: u32, i: int) -> u8 {
    bitmap[i * (width / 8)]
}

/// The character that shows column `j` of a glyph row: '#' where set, a
/// space elsewhere.
pub open spec fn cell_char(row: u8, j: int) -> u8 {
    if pixel_on(row, j as u32) {
        35u8
    } else {
        32u8
    }
}

/// The first `n` characters of the line that shows a glyph row.
pub open spec fn row_cells(row: u8, n: nat) -> Seq<u8> {
    Seq::new(n, |j: int| cell_char(row, j))
}

/// The first `rows` lines of the text that shows a glyph: `width` characters
/// and a newline per row.
pub open spec fn glyph_text(bitmap: Seq<u8>, width: u32, rows: nat) -> Seq<u8>
    decreases rows,
{
    if rows == 0 {
        Seq::empty()
    } else {
        glyph_text(bitmap, width, (rows - 1) as nat) + row_cells(
            row_byte(bitmap, width, rows - 1),
            width as nat,
        ).push(10u8)
    }
}

proof fn lemma_row_in_bitmap(i: int, height: u32, width: u32, len: nat)
    requires
        0 <= i < height,
        bitmap_covers(len, height, width),
    ensures
        0 <= i * (width / 8) < len,
{
    vstd::arithmetic::mul::lemma_mul_inequality(i, height - 1, (width / 8) as int);
    vstd::arithmetic::mul::lemma_mul_nonnegative(i, (width / 8) as int);
}

/// The text of `rows` glyph rows has `width + 1` characters per row: the
/// row's cells, then a newline.
proof fn lemma_glyph_text_index(bitmap: Seq<u8>, width: u32, rows: nat, i: int, j: int)
    requires
        0 <= i < rows,
        0 <= j <= width,
    ensures
        glyph_text(bitmap, width, rows).len() == rows * (width + 1),
        glyph_text(bitmap, width, rows)[i * (width + 1) + j] == if j < width {
            cell_char(row_byte(bitmap, width, i), j)
        } else {
            10u8
        },
    decreases rows,
{
    let w1 = width + 1;
    let prev = (rows - 1) as nat;
    lemma_glyph_text_len(bitmap, width, prev);
    vstd::arithmetic::mul::lemma_mul_is_distributive_add_other_way(w1, prev as int, 1);
    if i < prev {
        lemma_glyph_text_index(bitmap, width, prev, i, j);
        vstd::arithmetic::mul::lemma_mul_is_distributive_add_other_way(w1, i, 1);
        vstd::arithmetic::mul::lemma_mul_inequality(i + 1, prev as int, w1);
    } else {
        assert(i == prev);
    }
}

proof fn lemma_glyph_text_len(bitmap: Seq<u8>, width: u32, rows: nat)
    ensures
        glyph_text(bitmap, width, rows).len() == rows * (width + 1),
    decreases rows,
{
    if rows > 0 {
        let prev = (rows - 1) as nat;
        lemma_glyph_text_len(bitmap, width, prev);
        let w1 = width + 1;
        assert(prev * w1 + w1 == rows * w1) by (nonlinear_arith)
            requires
                prev + 1 == rows,
        ;
        let line = row_cells(row_byte(bitmap, width, prev as int), width as nat);
        assert(line.len() == width);
        assert(glyph_text(bitmap, width, rows) == glyph_text(bitmap, width, prev) + line.push(10u8));
    } else {
        assert(rows * (width + 1) == 0) by (nonlinear_arith)
            requires
                rows == 0,
        ;
    }
}

impl ScreenFont {
    /// The text that shows a glyph whose bitmap starts with `bitmap` (the
    /// bytes at `glyph(c)` for the character `c`): one line per row, '#' for
    /// a set pixel, a space for a clear one.
    pub fn debug_glyph(&self, bitmap: &[u8]) -> (text: Vec<u8>)
        requires
            self.header.height > 0 ==> self.header.width <= 8,
            bitmap_covers(bitmap@.len(), self.header.height, self.header.width),
        ensures
            text@ == glyph_text(bitmap@, self.header.width, self.header.height as nat),
    {
        let height = self.header.height;
        let width = self.header.width;
        let step = (width / 8) as usize;
        let mut text: Vec<u8> = Vec::new();
        let mut i: u32 = 0;
        let mut offset: usize = 0;
        while i < height
            invariant
                width == self.header.width,
                height == self.header.height,
                height > 0 ==> width <= 8,
                step == width / 8,
                bitmap_covers(bitmap@.len(), height, width),
                i <= height,
                i < height ==> offset == i * step,
                text@ == glyph_text(bitmap@, width, i as nat),
            decreases height - i,
        {
            proof {
                lemma_row_in_bitmap(i as int, height, width, bitmap@.len());
            }
            let row = bitmap[offset];
            let mut j: u32 = 0;
            while j < width
                invariant
                    height > 0 ==> width <= 8,
                    i < height,
                    j <= width,
                    text@ == glyph_text(bitmap@, width, i as nat) + row_cells(row, j as nat),
                decreases width - j,
            {
                let c = if pixel_set(row, j) {
                    35u8
                } else {
                    32u8
                };
                text.push(c);
                proof {
                    assert(row_cells(row, (j + 1) as nat) == row_cells(row, j as nat).push(c));
                }
                j = j + 1;
            }
            text.push(10u8);
            proof {
                assert(row == row_byte(bitmap@, width, i as int));
                assert(text@ == glyph_text(bitmap@, width, (i + 1) as nat));
                vstd::arithmetic::mul::lemma_mul_is_distributive_add_other_way(
                    step as int,
                    i as int,
                    1,
                );
            }
            i = i + 1;
            if i < height {
                offset = offset + step;
            }
        }
        text
    }
}

/// A request for a frame buffer of `width` by `height` pixels, 32 bits deep,
/// in RGB order; text is to be drawn in `font`.
#[derive(Debug, Clone, Copy, PartialEq, Eq, Structural)]
pub struct FrameBufferRequest {
    pub width: u32,
    pub height: u32,
    pub font: ScreenFont,
}

impl FrameBufferRequest {
    pub fn new(width: u32, height: u32, font: ScreenFont) -> (r: FrameBufferRequest)
        ensures
            r == (FrameBufferRequest { width, height, font }),
    {
        FrameBufferRequest { width, height, font }
    }
}

impl Message for FrameBufferRequest {
    type Ret = FrameBuffer;

    open spec fn spec_to_array(&self) -> Seq<u32> {
        seq![
            140, REQUEST,
            0x48003, 8, 8, self.width, self.height,
            0x48004, 8, 8, self.width, self.height,
            0x48009, 8, 8, 0, 0,
            0x48005, 4, 4, 32,
            0x48006, 4, 4, 1,
            0x40001, 8, 8, 4096, 0,
            0x40008, 4, 4, 0,
            0, 0,
        ]
    }

    /// Accepted when the GPU granted a depth of 32 bits and a non-null buffer:
    /// the physical size is in words 5 and 6, the buffer's bus address in
    /// word 28 (its low 30 bits are the ARM address), the pitch in word 33 and
    /// the pixel order in word 24.
    open spec fn spec_get_result(&self, data: Seq<u32>) -> Result<FrameBuffer, ()> {
        if data[20] == 32 && data[28] != 0 {
            Ok(
                FrameBuffer {
                    buffer: (data[28] & 0x3FFFFFFFu32) as u64,
                    width: self.width,
                    height: self.height,
                    real_width: data[5],
                    real_height: data[6],
                    pitch: data[33],
                    is_rgb: data[24],
                    font: self.font,
                },
            )
        } else {
            Err(())
        }
    }

    fn to_array(&self) -> (b: MailBox) {
        [
            35 * 4, REQUEST,
            0x48003, 8, 8, self.width, self.height,
            0x48004, 8, 8, self.width, self.height,
            0x48009, 8, 8, 0, 0,
            0x48005, 4, 4, 32,
            0x48006, 4, 4, 1,
            0x40001, 8, 8, 4096, 0,
            0x40008, 4, 4, 0,
            0, 0,
        ]
    }

    fn get_result(&self, data: MailBox) -> (r: Result<FrameBuffer, ()>) {
        if data[20] == 32 && data[28] != 0 {
            Ok(
                FrameBuffer {
                    buffer: (data[28] & 0x3FFFFFFF) as u64,
                    width: self.width,
                    height: self.height,
                    real_width: data[5],
                    real_height: data[6],
                    pitch: data[33],
                    is_rgb: data[24],
                    font: self.font,
                },
            )
        } else {
            Err(())
        }
    }
}

/// What `char_at` draws agrees with what `debug_glyph` shows: the pixel in
/// row `i`, column `j` of the glyph gets a non-zero word exactly where the
/// glyph's text has a '#'.
pub proof fn lemma_drawn_pixels_match_text(
    fb: FrameBuffer,
    x: int,
    y: int,
    bitmap: Seq<u8>,
    i: int,
    j: int,
)
    requires
        0 <= i < fb.font.header.height,
        0 <= j < fb.font.header.width,
    ensures
        ({
            let text = glyph_text(bitmap, fb.font.header.width, fb.font.header.height as nat);
            let w = fb.font.header.width as int;
            &&& text.len() == fb.font.header.height * (w + 1)
            &&& (fb.glyph_write(x, y, bitmap, i, j).value != 0) == (text[i * (w + 1) + j] == 35u8)
        }),
{
    lemma_glyph_text_index(bitmap, fb.font.header.width, fb.font.header.height as nat, i, j);
}

/// The request asks for a virtual size equal to its physical size, both the
/// size requested (tags 0x48003 and 0x48004), a depth of 32 bits, RGB pixel
/// order and a buffer (tag 0x40001), and ends with the last tag.
pub proof fn lemma_frame_buffer_request_words(req: FrameBufferRequest)
    ensures
        ({
            let b = req.spec_to_array();
            &&& b.len() == 36
            &&& b[0] == 35 * 4 && b[1] == REQUEST
            &&& b[2] == 0x48003 && b[5] == req.width && b[6] == req.height
            &&& b[7] == 0x48004 && b[10] == req.width && b[11] == req.height
            &&& b[10] == b[5] && b[11] == b[6]
            &&& b[12] == 0x48009 && b[15] == 0 && b[16] == 0
            &&& b[17] == 0x48005 && b[20] == 32
            &&& b[21] == 0x48006 && b[24] == 1
            &&& b[25] == 0x40001 && b[28] == 4096
            &&& b[30] == 0x40008
            &&& b[34] == 0
        }),
{
}

/// Column `j` of a glyph row shows bit `7 - j` of the row's byte, and that
/// bit alone: a row with only bit `k` set shows exactly column `7 - k`.
pub proof fn lemma_pixel_columns(row: u8, j: u32, k: u32)
    requires
        j < 8,
        k < 8,
    ensures
        pixel_on(row, j) == (row & (0x80u8 >> (j as u8)) != 0),
        pixel_on(1u8 << (k as u8), j) == (j + k == 7),
{
    let jj = j as u8;
    let kk = k as u8;
    assert(jj < 8 ==> ((row >> ((7 - jj) as u8)) & 1 == 1) == (row & (0x80u8 >> jj) != 0))
        by (bit_vector);
    assert(jj < 8 && kk < 8 ==> ((((1u8 << kk) >> ((7 - jj) as u8)) & 1 == 1) == (jj + kk == 7)))
        by (bit_vector);
    assert((7 - j) as u8 == (7 - jj) as u8);
}

/// The text `debug_glyph` gives and the stores `char_at` makes, in terms of
/// the glyph's bytes: row `i`, column `j` shows '#' and is stored as `0xFF`
/// where bit `7 - j` of the row's byte is set, and shows a space and is
/// stored as 0 elsewhere; the store goes to the buffer's address plus
/// `(y + i) * width + (x + j)`.
pub proof fn lemma_glyph_pixels(fb: FrameBuffer, x: int, y: int, bitmap: Seq<u8>, i: int, j: int)
    requires
        0 <= i < fb.font.header.height,
        0 <= j < fb.font.header.width,
        fb.font.header.width <= 8,
    ensures
        ({
            let w = fb.font.header.width;
            let byte = bitmap[i * (w / 8)];
            let set = byte & (0x80u8 >> (j as u8)) != 0;
            &&& glyph_text(bitmap, w, fb.font.header.height as nat)[i * (w + 1) + j] == if set {
                35u8
            } else {
                32u8
            }
            &&& fb.glyph_write(x, y, bitmap, i, j).value == if set {
                0xFFu32
            } else {
                0u32
            }
            &&& fb.glyph_write(x, y, bitmap, i, j).addr == (fb.buffer + ((y + i) * fb.width + (x
                + j))) as u64
        }),
{
    let w = fb.font.header.width;
    lemma_glyph_text_index(bitmap, w, fb.font.header.height as nat, i, j);
    lemma_pixel_columns(bitmap[i * (w / 8)], j as u32, 0);
}

/// A request that comes back unchanged is accepted, with the size asked for
/// as the physical size and the requested buffer address 4096.
pub proof fn lemma_request_echo_accepted(req: FrameBufferRequest)
    ensures
        req.spec_get_result(req.spec_to_array()) == Ok::<FrameBuffer, ()>(
            FrameBuffer {
                buffer: 4096,
                width: req.width,
                height: req.height,
                real_width: req.width,
                real_height: req.height,
                pitch: 0,
                is_rgb: 1,
                font: req.font,
            },
        ),
{
    assert(4096u32 & 0x3FFFFFFFu32 == 4096u32) by (bit_vector);
}

} // verus!
