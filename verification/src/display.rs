//! A model of the character display driver's verifiable core.
//!
//! The display is driven over a two-wire bus by short transactions; each
//! transaction payload here is called a frame.  A frame starting with the
//! command control byte carries one command; a frame starting with the data
//! control byte carries pixel column bytes written at the current cursor.
//! The model tracks the cursor and computes, for every operation, exactly
//! the frames to put on the bus; the bus write itself stays outside the
//! library.

use vstd::prelude::*;

verus! {

/// Bus address of the display controller.
pub const DISPLAY_I2C_ADDR: u8 = 0x3C;

/// Control byte introducing a command frame.
pub const CONTROL_COMMAND: u8 = 0x00;

/// Control byte introducing a data frame.
pub const CONTROL_DATA: u8 = 0x40;

/// Width of the display in pixel columns.
pub const DISPLAY_WIDTH: u8 = 128;

/// Height of the display in pixel rows; eight rows make one page.
pub const DISPLAY_HEIGHT: u8 = 64;

/// Number of 8-pixel-tall pages.
pub const DISPLAY_PAGES: u8 = 8;

/// Set lower column start address for page addressing mode.
pub const CMD_SETLOWCOLUMN: u8 = 0x00;

/// Set higher column start address for page addressing mode.
pub const CMD_SETHIGHCOLUMN: u8 = 0x10;

/// Set memory addressing mode.
pub const CMD_MEMORYMODE: u8 = 0x20;

/// Set display RAM start line register.
pub const CMD_SETSTARTLINE: u8 = 0x40;

/// Set display contrast.
pub const CMD_SETCONTRAST: u8 = 0x81;

/// Enable or disable the charge pump; followed by an argument byte.
pub const CMD_CHARGEPUMP: u8 = 0x8D;

/// Set segment re-map between data column and segment driver.
pub const CMD_SEGREMAP: u8 = 0xA0;

/// Resume display from RAM content.
pub const CMD_DISPLAYALLON_RESUME: u8 = 0xA4;

/// Set normal (non-inverted) display.
pub const CMD_NORMALDISPLAY: u8 = 0xA6;

/// Set multiplex ratio.
pub const CMD_SETMULTIPLEX: u8 = 0xA8;

/// Set display off.
pub const CMD_DISPLAYOFF: u8 = 0xAE;

/// Set display on.
pub const CMD_DISPLAYON: u8 = 0xAF;

/// Set RAM page start address for page addressing mode.
pub const CMD_SETSTARTPAGE: u8 = 0xB0;

/// Set COM output scan direction reversed.
pub const CMD_COMSCANDEC: u8 = 0xC8;

/// Set display offset.
pub const CMD_SETDISPLAYOFFSET: u8 = 0xD3;

/// Set display clock divide ratio and oscillator frequency.
pub const CMD_SETDISPLAYCLOCKDIV: u8 = 0xD5;

/// Set pre-charge period.
pub const CMD_SETPRECHARGE: u8 = 0xD9;

/// Set COM pins hardware configuration.
pub const CMD_SETCOMPINS: u8 = 0xDA;

/// Adjust the VCOMH regulator output.
pub const CMD_SETVCOMDETECT: u8 = 0xDB;

/// The cursor state of the display driver: the page (`row`) and pixel
/// column (`col`) the next data frame lands at.
#[derive(Clone, Copy, PartialEq, Eq, Structural, Debug)]
pub struct SSD1306Display {
    /// Current pixel column.
    pub col: u8,
    /// Current page.
    pub row: u8,
}

/// One command transaction's payload: the command control byte, then the
/// command itself.
pub open spec fn command_frame_spec(cmd: u8) -> Seq<u8> {
    seq![CONTROL_COMMAND, cmd]
}

/// One data transaction's payload: the data control byte, then the pixel
/// column bytes.
pub open spec fn data_frame_spec(payload: Seq<u8>) -> Seq<u8> {
    seq![CONTROL_DATA] + payload
}

/// Addition on a cursor coordinate, saturating at the top of the 8-bit
/// range rather than wrapping.
pub open spec fn cursor_add_spec(a: u8, b: u8) -> u8 {
    if a + b <= 255 {
        (a + b) as u8
    } else {
        255u8
    }
}

/// Whether a character has a glyph in the font: the printable range
/// above the space character.
pub open spec fn printable_spec(ch: char) -> bool {
    0x20 < (ch as u32) && (ch as u32) < 0x80
}

/// The five pixel column bytes of a printable character's glyph.
pub open spec fn glyph_spec(ch: char) -> Seq<u8> {
    FONT_DATA[ch as int - 0x20]@
}

/// The cursor after writing one character: carriage return rewinds the
/// column, newline rewinds the column and advances one page, a space
/// advances two blank columns, a printable glyph advances five columns,
/// and anything else is ignored.
pub open spec fn write_cursor_spec(d: SSD1306Display, ch: char) -> SSD1306Display {
    if ch == '\r' {
        SSD1306Display { col: 0, ..d }
    } else if ch == '\n' {
        SSD1306Display { col: 0, row: cursor_add_spec(d.row, 1) }
    } else if ch == ' ' {
        SSD1306Display { col: cursor_add_spec(d.col, 2), ..d }
    } else if printable_spec(ch) {
        SSD1306Display { col: cursor_add_spec(d.col, 5), ..d }
    } else {
        d
    }
}

/// How many characters writing one character consumes: one for anything
/// handled, zero for an ignored character.
pub open spec fn write_count_spec(ch: char) -> nat {
    if ch == '\r' || ch == '\n' || ch == ' ' || printable_spec(ch) {
        1
    } else {
        0
    }
}

/// The frames writing one character puts on the bus: two blank columns
/// for a space, the five glyph columns for a printable character, nothing
/// otherwise.
pub open spec fn write_frames_spec(ch: char) -> Seq<Seq<u8>> {
    if ch == ' ' {
        seq![data_frame_spec(seq![0u8, 0u8])]
    } else if printable_spec(ch) {
        seq![data_frame_spec(glyph_spec(ch))]
    } else {
        Seq::empty()
    }
}

/// The cursor after writing the first `n` characters of `s`.
pub open spec fn str_cursor_spec(d: SSD1306Display, s: Seq<char>, n: int) -> SSD1306Display
    decreases n,
{
    if n <= 0 {
        d
    } else {
        write_cursor_spec(str_cursor_spec(d, s, n - 1), s[n - 1])
    }
}

/// How many characters of the first `n` of `s` are consumed.
pub open spec fn str_count_spec(s: Seq<char>, n: int) -> int
    decreases n,
{
    if n <= 0 {
        0
    } else {
        str_count_spec(s, n - 1) + write_count_spec(s[n - 1])
    }
}

/// The frames the first `n` characters of `s` put on the bus, in order.
pub open spec fn str_frames_spec(s: Seq<char>, n: int) -> Seq<Seq<u8>>
    decreases n,
{
    if n <= 0 {
        Seq::empty()
    } else {
        str_frames_spec(s, n - 1) + write_frames_spec(s[n - 1])
    }
}

/// The command frames that move the cursor: a page-start command when the
/// page is in range, then the split column-start commands when the column
/// is in range.
pub open spec fn set_cursor_frames_spec(col: u8, row: u8) -> Seq<Seq<u8>> {
    let row_frames: Seq<Seq<u8>> = if row < DISPLAY_PAGES {
        seq![command_frame_spec((CMD_SETSTARTPAGE + row) as u8)]
    } else {
        Seq::empty()
    };
    let col_frames: Seq<Seq<u8>> = if col < DISPLAY_WIDTH {
        seq![
            command_frame_spec((CMD_SETLOWCOLUMN + col % 16) as u8),
            command_frame_spec((CMD_SETHIGHCOLUMN + col / 16) as u8),
        ]
    } else {
        Seq::empty()
    };
    row_frames + col_frames
}

/// The data frames that carry a pixel buffer: the buffer split into
/// chunks of at most sixteen bytes from position `i` on, each chunk
/// framed as its own data transaction.
pub open spec fn data_chunks_from_spec(bytes: Seq<u8>, i: int) -> Seq<Seq<u8>>
    decreases bytes.len() - i,
{
    if i < 0 || i >= bytes.len() {
        Seq::empty()
    } else if bytes.len() - i <= 16 {
        seq![data_frame_spec(bytes.subrange(i, bytes.len() as int))]
    } else {
        seq![data_frame_spec(bytes.subrange(i, i + 16))] + data_chunks_from_spec(bytes, i + 16)
    }
}

/// The data frames that carry a whole pixel buffer.
pub open spec fn data_chunks_spec(bytes: Seq<u8>) -> Seq<Seq<u8>> {
    data_chunks_from_spec(bytes, 0)
}

/// One blank 16-column chunk of a page, as a data frame.
pub open spec fn zero_chunk_frame_spec() -> Seq<u8> {
    data_frame_spec(Seq::new(16, |i: int| 0u8))
}

/// `n` blank 16-column chunks, as data frames.
pub open spec fn zero_chunks_spec(n: int) -> Seq<Seq<u8>>
    decreases n,
{
    if n <= 0 {
        Seq::empty()
    } else {
        zero_chunks_spec(n - 1).push(zero_chunk_frame_spec())
    }
}

/// The frames that blank one page: move the cursor to its start, then
/// eight blank 16-column chunks.
pub open spec fn page_clear_frames_spec(page: u8) -> Seq<Seq<u8>> {
    set_cursor_frames_spec(0, page) + zero_chunks_spec(8)
}

/// The frames that blank the first `n` pages, in page order.
pub open spec fn pages_clear_frames_spec(n: int) -> Seq<Seq<u8>>
    decreases n,
{
    if n <= 0 {
        Seq::empty()
    } else {
        pages_clear_frames_spec(n - 1) + page_clear_frames_spec((n - 1) as u8)
    }
}

/// The frames that blank the whole display and return the cursor home.
pub open spec fn clear_frames_spec() -> Seq<Seq<u8>> {
    pages_clear_frames_spec(DISPLAY_PAGES as int) + set_cursor_frames_spec(0, 0)
}

/// The command bytes of the power-up sequence, in order.
pub open spec fn init_command_bytes_spec() -> Seq<u8> {
    seq![
        CMD_DISPLAYOFF,
        CMD_SETDISPLAYCLOCKDIV,
        0x80u8,
        CMD_SETMULTIPLEX,
        0x3Fu8,
        CMD_SETDISPLAYOFFSET,
        0x00u8,
        CMD_SETSTARTLINE,
        CMD_CHARGEPUMP,
        0x14u8,
        CMD_MEMORYMODE,
        0x02u8,
        (CMD_SEGREMAP + 1) as u8,
        CMD_COMSCANDEC,
        CMD_SETCOMPINS,
        0x12u8,
        CMD_SETCONTRAST,
        0x7Fu8,
        CMD_SETPRECHARGE,
        0xF1u8,
        CMD_SETVCOMDETECT,
        0x40u8,
        CMD_DISPLAYALLON_RESUME,
        CMD_NORMALDISPLAY,
        CMD_DISPLAYON,
    ]
}

/// The power-up sequence as command frames, one per command byte.
pub open spec fn init_frames_spec() -> Seq<Seq<u8>> {
    Seq::new(init_command_bytes_spec().len(), |i: int| command_frame_spec(init_command_bytes_spec()[i]))
}

/// Builds one command frame.
fn command_frame(cmd: u8) -> (f: Vec<u8>)
    ensures
        f@ == command_frame_spec(cmd),
{
    let mut f: Vec<u8> = Vec::new();
    f.push(CONTROL_COMMAND);
    f.push(cmd);
    assert(f@ =~= command_frame_spec(cmd));
    f
}

/// Splits a pixel buffer into bus transactions: chunks of at most sixteen
/// bytes, each behind its own data control byte, in buffer order.
pub fn data_frames(bytes: &Vec<u8>) -> (frames: Vec<Vec<u8>>)
    ensures
        frames.deep_view() == data_chunks_spec(bytes@),
{
    let mut frames: Vec<Vec<u8>> = Vec::new();
    let mut i: usize = 0;
    while i < bytes.len()
        invariant
            i <= bytes.len(),
            data_chunks_spec(bytes@) == frames.deep_view() + data_chunks_from_spec(
                bytes@,
                i as int,
            ),
        decreases bytes.len() - i,
    {
        let end: usize = if bytes.len() - i > 16 {
            i + 16
        } else {
            bytes.len()
        };
        let mut f: Vec<u8> = Vec::new();
        f.push(CONTROL_DATA);
        let mut j: usize = i;
        while j < end
            invariant
                i <= j <= end <= bytes.len(),
                f@.len() == j - i + 1,
                f@[0] == CONTROL_DATA,
                forall|m: int| 1 <= m <= j - i ==> #[trigger] f@[m] == bytes@[i + m - 1],
            decreases end - j,
        {
            f.push(bytes[j]);
            j = j + 1;
        }
        assert(f@ =~= data_frame_spec(bytes@.subrange(i as int, end as int)));
        let ghost pre = frames.deep_view();
        frames.push(f);
        assert(frames.deep_view() =~~= pre.push(
            data_frame_spec(bytes@.subrange(i as int, end as int)),
        ));
        proof {
            assert(pre.push(data_frame_spec(bytes@.subrange(i as int, end as int)))
                + data_chunks_from_spec(bytes@, end as int) =~= pre + data_chunks_from_spec(
                bytes@,
                i as int,
            ));
        }
        i = end;
    }
    assert(data_chunks_from_spec(bytes@, i as int) =~= Seq::<Seq<u8>>::empty());
    assert(frames.deep_view() =~= frames.deep_view() + Seq::<Seq<u8>>::empty());
    frames
}

impl SSD1306Display {
    /// A driver with its cursor at the home position; the device itself
    /// still needs the frames of `init_frames` put on the bus.
    pub fn new() -> (d: Self)
        ensures
            d == (SSD1306Display { col: 0, row: 0 }),
    {
        SSD1306Display { col: 0, row: 0 }
    }

    /// The power-up command sequence: clock, multiplexing, charge pump,
    /// page addressing, scan direction, contrast and power-on, each as
    /// its own command frame.
    pub fn init_frames() -> (frames: Vec<Vec<u8>>)
        ensures
            frames.deep_view() == init_frames_spec(),
    {
        let bytes: [u8; 25] = [
            CMD_DISPLAYOFF,
            CMD_SETDISPLAYCLOCKDIV,
            0x80,
            CMD_SETMULTIPLEX,
            0x3F,
            CMD_SETDISPLAYOFFSET,
            0x00,
            CMD_SETSTARTLINE,
            CMD_CHARGEPUMP,
            0x14,
            CMD_MEMORYMODE,
            0x02,
            CMD_SEGREMAP + 1,
            CMD_COMSCANDEC,
            CMD_SETCOMPINS,
            0x12,
            CMD_SETCONTRAST,
            0x7F,
            CMD_SETPRECHARGE,
            0xF1,
            CMD_SETVCOMDETECT,
            0x40,
            CMD_DISPLAYALLON_RESUME,
            CMD_NORMALDISPLAY,
            CMD_DISPLAYON,
        ];
        let mut frames: Vec<Vec<u8>> = Vec::new();
        let mut i: usize = 0;
        while i < 25
            invariant
                i <= 25,
                frames.deep_view().len() == i as int,
                forall|j: int|
                    0 <= j < i ==> frames.deep_view()[j] == command_frame_spec(
                        #[trigger] bytes@[j],
                    ),
            decreases 25 - i,
        {
            frames.push(command_frame(bytes[i]));
            i = i + 1;
        }
        proof {
            assert(bytes@ =~= init_command_bytes_spec());
            assert(frames.deep_view() =~~= init_frames_spec());
        }
        frames
    }

    /// Writes one character at the cursor: returns how many characters
    /// were consumed and the data frames to put on the bus, and moves the
    /// cursor as the character demands.
    pub fn write(&mut self, ch: char) -> (r: (usize, Vec<Vec<u8>>))
        ensures
            *final(self) == write_cursor_spec(*old(self), ch),
            r.0 == write_count_spec(ch),
            r.1.deep_view() == write_frames_spec(ch),
    {
        let code: u32 = ch as u32;
        if ch == '\r' {
            self.col = 0;
            let frames: Vec<Vec<u8>> = Vec::new();
            assert(frames.deep_view() =~~= write_frames_spec(ch));
            (1, frames)
        } else if ch == '\n' {
            self.col = 0;
            self.row = if self.row < 255 {
                self.row + 1
            } else {
                255
            };
            let frames: Vec<Vec<u8>> = Vec::new();
            assert(frames.deep_view() =~~= write_frames_spec(ch));
            (1, frames)
        } else if ch == ' ' {
            // Two blank columns stand in for the narrow non-font space.
            let mut payload: Vec<u8> = Vec::new();
            payload.push(0);
            payload.push(0);
            let frames: Vec<Vec<u8>> = data_frames(&payload);
            proof {
                assert(payload@ =~= seq![0u8, 0u8]);
                assert(payload@.subrange(0, 2) =~= payload@);
                assert(data_chunks_spec(payload@) =~= write_frames_spec(ch));
            }
            self.col = if self.col <= 253 {
                self.col + 2
            } else {
                255
            };
            (1, frames)
        } else if code > 0x20 && code < 0x80 {
            let glyph: [u8; 5] = FONT_DATA[(code - 0x20) as usize];
            let mut payload: Vec<u8> = Vec::new();
            payload.push(glyph[0]);
            payload.push(glyph[1]);
            payload.push(glyph[2]);
            payload.push(glyph[3]);
            payload.push(glyph[4]);
            let frames: Vec<Vec<u8>> = data_frames(&payload);
            proof {
                assert(payload@ =~= glyph_spec(ch));
                assert(payload@.subrange(0, 5) =~= payload@);
                assert(data_chunks_spec(payload@) =~= write_frames_spec(ch));
            }
            self.col = if self.col <= 250 {
                self.col + 5
            } else {
                255
            };
            (1, frames)
        } else {
            let frames: Vec<Vec<u8>> = Vec::new();
            assert(frames.deep_view() =~~= write_frames_spec(ch));
            (0, frames)
        }
    }

    /// Writes a string character by character: returns how many
    /// characters were consumed and all data frames in order, moving the
    /// cursor across the whole string.
    pub fn write_str(&mut self, s: &str) -> (r: (usize, Vec<Vec<u8>>))
        ensures
            *final(self) == str_cursor_spec(*old(self), s@, s@.len() as int),
            r.0 == str_count_spec(s@, s@.len() as int),
            r.1.deep_view() == str_frames_spec(s@, s@.len() as int),
    {
        let ghost start: SSD1306Display = *self;
        let n: usize = s.unicode_len();
        let mut count: usize = 0;
        let mut frames: Vec<Vec<u8>> = Vec::new();
        let mut i: usize = 0;
        while i < n
            invariant
                i <= n,
                n == s@.len(),
                count == str_count_spec(s@, i as int),
                count <= i,
                *self == str_cursor_spec(start, s@, i as int),
                frames.deep_view() == str_frames_spec(s@, i as int),
            decreases n - i,
        {
            let ch: char = s.get_char(i);
            let (consumed, mut new_frames) = self.write(ch);
            count = count + consumed;
            frames.append(&mut new_frames);
            i = i + 1;
            assert(frames.deep_view() =~~= str_frames_spec(s@, i as int));
        }
        (count, frames)
    }

    /// Moves the cursor: the page is taken when it is within the page
    /// count, the column when it is within the display width; each
    /// coordinate outside its range leaves that coordinate untouched.
    /// Returns the command frames that move the device's own cursor.
    pub fn set_cursor(&mut self, col: u8, row: u8) -> (frames: Vec<Vec<u8>>)
        ensures
            final(self).row == if row < DISPLAY_PAGES {
                row
            } else {
                old(self).row
            },
            final(self).col == if col < DISPLAY_WIDTH {
                col
            } else {
                old(self).col
            },
            frames.deep_view() == set_cursor_frames_spec(col, row),
    {
        let mut frames: Vec<Vec<u8>> = Vec::new();
        if row < DISPLAY_PAGES {
            self.row = row;
            frames.push(command_frame(CMD_SETSTARTPAGE + row));
        }
        if col < DISPLAY_WIDTH {
            self.col = col;
            frames.push(command_frame(CMD_SETLOWCOLUMN + col % 16));
            frames.push(command_frame(CMD_SETHIGHCOLUMN + col / 16));
        }
        assert(frames.deep_view() =~~= set_cursor_frames_spec(col, row));
        frames
    }

    /// Blanks the display page by page and returns the cursor to the home
    /// position, as one sequence of frames.
    pub fn clear(&mut self) -> (frames: Vec<Vec<u8>>)
        ensures
            final(self).col == 0,
            final(self).row == 0,
            frames.deep_view() == clear_frames_spec(),
    {
        let mut frames: Vec<Vec<u8>> = Vec::new();
        let mut page: u8 = 0;
        while page < DISPLAY_PAGES
            invariant
                page <= DISPLAY_PAGES,
                frames.deep_view() == pages_clear_frames_spec(page as int),
            decreases DISPLAY_PAGES - page,
        {
            let mut cursor_frames: Vec<Vec<u8>> = self.set_cursor(0, page);
            frames.append(&mut cursor_frames);
            assert(frames.deep_view() =~~= pages_clear_frames_spec(page as int)
                + set_cursor_frames_spec(0, page) + zero_chunks_spec(0));
            let mut chunk: usize = 0;
            while chunk < 8
                invariant
                    chunk <= 8,
                    frames.deep_view() == pages_clear_frames_spec(page as int)
                        + set_cursor_frames_spec(0, page) + zero_chunks_spec(chunk as int),
                decreases 8 - chunk,
            {
                let mut f: Vec<u8> = Vec::new();
                f.push(CONTROL_DATA);
                let mut b: usize = 0;
                while b < 16
                    invariant
                        b <= 16,
                        f@.len() == b + 1,
                        f@[0] == CONTROL_DATA,
                        forall|j: int| 1 <= j <= b ==> f@[j] == 0u8,
                    decreases 16 - b,
                {
                    f.push(0);
                    b = b + 1;
                }
                assert(f@ =~= zero_chunk_frame_spec());
                let ghost pre = frames.deep_view();
                frames.push(f);
                assert(frames.deep_view() =~~= pre.push(zero_chunk_frame_spec()));
                chunk = chunk + 1;
                assert(pre.push(zero_chunk_frame_spec()) =~= pages_clear_frames_spec(page as int)
                    + set_cursor_frames_spec(0, page) + zero_chunks_spec(chunk as int));
            }
            page = page + 1;
            assert(frames.deep_view() =~~= pages_clear_frames_spec(page as int));
        }
        let mut home_frames: Vec<Vec<u8>> = self.set_cursor(0, 0);
        frames.append(&mut home_frames);
        assert(frames.deep_view() =~~= clear_frames_spec());
        frames
    }
}


/// Five-column pixel glyphs for the printable characters, ordered from
/// the space character upward.
pub const FONT_DATA: [[u8; 5]; 96] = [
    [0x00, 0x00, 0x00, 0x00, 0x00], // (space)
    [0x00, 0x00, 0x5F, 0x00, 0x00], // !
    [0x00, 0x07, 0x00, 0x07, 0x00], // "
    [0x14, 0x7F, 0x14, 0x7F, 0x14], // #
    [0x24, 0x2A, 0x7F, 0x2A, 0x12], // $
    [0x23, 0x13, 0x08, 0x64, 0x62], // %
    [0x36, 0x49, 0x55, 0x22, 0x50], // &
    [0x00, 0x05, 0x03, 0x00, 0x00], // '
    [0x00, 0x1C, 0x22, 0x41, 0x00], // (
    [0x00, 0x41, 0x22, 0x1C, 0x00], // )
    [0x08, 0x2A, 0x1C, 0x2A, 0x08], // *
    [0x08, 0x08, 0x3E, 0x08, 0x08], // +
    [0x00, 0x50, 0x30, 0x00, 0x00], // ,
    [0x08, 0x08, 0x08, 0x08, 0x08], // -
    [0x00, 0x60, 0x60, 0x00, 0x00], // .
    [0x20, 0x10, 0x08, 0x04, 0x02], // /
    [0x3E, 0x51, 0x49, 0x45, 0x3E], // 0
    [0x00, 0x42, 0x7F, 0x40, 0x00], // 1
    [0x42, 0x61, 0x51, 0x49, 0x46], // 2
    [0x21, 0x41, 0x45, 0x4B, 0x31], // 3
    [0x18, 0x14, 0x12, 0x7F, 0x10], // 4
    [0x27, 0x45, 0x45, 0x45, 0x39], // 5
    [0x3C, 0x4A, 0x49, 0x49, 0x30], // 6
    [0x01, 0x71, 0x09, 0x05, 0x03], // 7
    [0x36, 0x49, 0x49, 0x49, 0x36], // 8
    [0x06, 0x49, 0x49, 0x29, 0x1E], // 9
    [0x00, 0x36, 0x36, 0x00, 0x00], // :
    [0x00, 0x56, 0x36, 0x00, 0x00], // ;
    [0x00, 0x08, 0x14, 0x22, 0x41], // <
    [0x14, 0x14, 0x14, 0x14, 0x14], // =
    [0x41, 0x22, 0x14, 0x08, 0x00], // >
    [0x02, 0x01, 0x51, 0x09, 0x06], // ?
    [0x32, 0x49, 0x79, 0x41, 0x3E], // @
    [0x7E, 0x11, 0x11, 0x11, 0x7E], // A
    [0x7F, 0x49, 0x49, 0x49, 0x36], // B
    [0x3E, 0x41, 0x41, 0x41, 0x22], // C
    [0x7F, 0x41, 0x41, 0x22, 0x1C], // D
    [0x7F, 0x49, 0x49, 0x49, 0x41], // E
    [0x7F, 0x09, 0x09, 0x01, 0x01], // F
    [0x3E, 0x41, 0x41, 0x51, 0x32], // G
    [0x7F, 0x08, 0x08, 0x08, 0x7F], // H
    [0x00, 0x41, 0x7F, 0x41, 0x00], // I
    [0x20, 0x40, 0x41, 0x3F, 0x01], // J
    [0x7F, 0x08, 0x14, 0x22, 0x41], // K
    [0x7F, 0x40, 0x40, 0x40, 0x40], // L
    [0x7F, 0x02, 0x04, 0x02, 0x7F], // M
    [0x7F, 0x04, 0x08, 0x10, 0x7F], // N
    [0x3E, 0x41, 0x41, 0x41, 0x3E], // O
    [0x7F, 0x09, 0x09, 0x09, 0x06], // P
    [0x3E, 0x41, 0x51, 0x21, 0x5E], // Q
    [0x7F, 0x09, 0x19, 0x29, 0x46], // R
    [0x46, 0x49, 0x49, 0x49, 0x31], // S
    [0x01, 0x01, 0x7F, 0x01, 0x01], // T
    [0x3F, 0x40, 0x40, 0x40, 0x3F], // U
    [0x1F, 0x20, 0x40, 0x20, 0x1F], // V
    [0x7F, 0x20, 0x18, 0x20, 0x7F], // W
    [0x63, 0x14, 0x08, 0x14, 0x63], // X
    [0x03, 0x04, 0x78, 0x04, 0x03], // Y
    [0x61, 0x51, 0x49, 0x45, 0x43], // Z
    [0x00, 0x00, 0x7F, 0x41, 0x41], // [
    [0x02, 0x04, 0x08, 0x10, 0x20], // "\"
    [0x41, 0x41, 0x7F, 0x00, 0x00], // ]
    [0x04, 0x02, 0x01, 0x02, 0x04], // ^
    [0x40, 0x40, 0x40, 0x40, 0x40], // _
    [0x00, 0x01, 0x02, 0x04, 0x00], // `
    [0x20, 0x54, 0x54, 0x54, 0x78], // a
    [0x7F, 0x48, 0x44, 0x44, 0x38], // b
    [0x38, 0x44, 0x44, 0x44, 0x20], // c
    [0x38, 0x44, 0x44, 0x48, 0x7F], // d
    [0x38, 0x54, 0x54, 0x54, 0x18], // e
    [0x08, 0x7E, 0x09, 0x01, 0x02], // f
    [0x08, 0x14, 0x54, 0x54, 0x3C], // g
    [0x7F, 0x08, 0x04, 0x04, 0x78], // h
    [0x00, 0x44, 0x7D, 0x40, 0x00], // i
    [0x20, 0x40, 0x44, 0x3D, 0x00], // j
    [0x00, 0x7F, 0x10, 0x28, 0x44], // k
    [0x00, 0x41, 0x7F, 0x40, 0x00], // l
    [0x7C, 0x04, 0x18, 0x04, 0x78], // m
    [0x7C, 0x08, 0x04, 0x04, 0x78], // n
    [0x38, 0x44, 0x44, 0x44, 0x38], // o
    [0x7C, 0x14, 0x14, 0x14, 0x08], // p
    [0x08, 0x14, 0x14, 0x18, 0x7C], // q
    [0x7C, 0x08, 0x04, 0x04, 0x08], // r
    [0x48, 0x54, 0x54, 0x54, 0x20], // s
    [0x04, 0x3F, 0x44, 0x40, 0x20], // t
    [0x3C, 0x40, 0x40, 0x20, 0x7C], // u
    [0x1C, 0x20, 0x40, 0x20, 0x1C], // v
    [0x3C, 0x40, 0x30, 0x40, 0x3C], // w
    [0x44, 0x28, 0x10, 0x28, 0x44], // x
    [0x0C, 0x50, 0x50, 0x50, 0x3C], // y
    [0x44, 0x64, 0x54, 0x4C, 0x44], // z
    [0x00, 0x08, 0x36, 0x41, 0x00], // {
    [0x00, 0x00, 0x7F, 0x00, 0x00], // |
    [0x00, 0x41, 0x36, 0x08, 0x00], // }
    [0x08, 0x08, 0x2A, 0x1C, 0x08], // ->
    [0x08, 0x1C, 0x2A, 0x08, 0x08], // <-
];

} // verus!
