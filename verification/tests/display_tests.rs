use tonegen::display::SSD1306Display;

#[test]
fn new_cursor_is_home() {
    let d = SSD1306Display::new();
    assert_eq!(d.col, 0);
    assert_eq!(d.row, 0);
}

#[test]
fn init_frames_shape() {
    let frames = SSD1306Display::init_frames();
    assert_eq!(frames.len(), 25);
    assert_eq!(frames[0], vec![0x00, 0xAE]); // display off first
    assert_eq!(frames[24], vec![0x00, 0xAF]); // display on last
    for f in &frames {
        assert_eq!(f.len(), 2);
        assert_eq!(f[0], 0x00);
    }
}

#[test]
fn write_printable_emits_glyph() {
    let mut d = SSD1306Display::new();
    let (count, frames) = d.write('A');
    assert_eq!(count, 1);
    assert_eq!(frames, vec![vec![0x40, 0x7E, 0x11, 0x11, 0x11, 0x7E]]);
    assert_eq!(d.col, 5);
    assert_eq!(d.row, 0);
}

#[test]
fn write_space_emits_two_blank_columns() {
    let mut d = SSD1306Display::new();
    let (count, frames) = d.write(' ');
    assert_eq!(count, 1);
    assert_eq!(frames, vec![vec![0x40, 0x00, 0x00]]);
    assert_eq!(d.col, 2);
}

#[test]
fn write_newline_advances_page() {
    let mut d = SSD1306Display::new();
    d.write('A');
    let (count, frames) = d.write('\n');
    assert_eq!(count, 1);
    assert!(frames.is_empty());
    assert_eq!(d.col, 0);
    assert_eq!(d.row, 1);
}

#[test]
fn write_carriage_return_rewinds_column() {
    let mut d = SSD1306Display::new();
    d.write('B');
    let (count, frames) = d.write('\r');
    assert_eq!(count, 1);
    assert!(frames.is_empty());
    assert_eq!(d.col, 0);
    assert_eq!(d.row, 0);
}

#[test]
fn write_unprintable_is_ignored() {
    let mut d = SSD1306Display::new();
    let (count, frames) = d.write('\u{1}');
    assert_eq!(count, 0);
    assert!(frames.is_empty());
    assert_eq!(d.col, 0);
    let (count2, frames2) = d.write('\u{e9}');
    assert_eq!(count2, 0);
    assert!(frames2.is_empty());
}

#[test]
fn write_str_walks_the_string() {
    let mut d = SSD1306Display::new();
    let (count, frames) = d.write_str("AB\nC");
    assert_eq!(count, 4);
    assert_eq!(frames.len(), 3); // three glyphs, the newline emits nothing
    assert_eq!(frames[0], vec![0x40, 0x7E, 0x11, 0x11, 0x11, 0x7E]); // 'A'
    assert_eq!(d.row, 1);
    assert_eq!(d.col, 5);
}

#[test]
fn column_saturates_instead_of_wrapping() {
    let mut d = SSD1306Display::new();
    for _ in 0..52 {
        d.write('A');
    }
    assert_eq!(d.col, 255);
    d.write('A');
    assert_eq!(d.col, 255);
}

#[test]
fn set_cursor_in_range_emits_commands() {
    let mut d = SSD1306Display::new();
    let frames = d.set_cursor(100, 3);
    assert_eq!(
        frames,
        vec![
            vec![0x00, 0xB3], // page start 3
            vec![0x00, 0x04], // lower column nibble
            vec![0x00, 0x16], // higher column nibble
        ]
    );
    assert_eq!(d.col, 100);
    assert_eq!(d.row, 3);
}

#[test]
fn set_cursor_out_of_range_is_ignored() {
    let mut d = SSD1306Display::new();
    d.set_cursor(10, 2);
    let frames = d.set_cursor(200, 9);
    assert!(frames.is_empty());
    assert_eq!(d.col, 10);
    assert_eq!(d.row, 2);
}

#[test]
fn clear_blanks_every_page_and_homes_cursor() {
    let mut d = SSD1306Display::new();
    d.set_cursor(42, 5);
    let frames = d.clear();
    // Eight pages of three cursor commands and eight blank chunks each,
    // then three commands homing the cursor.
    assert_eq!(frames.len(), 8 * 11 + 3);
    assert_eq!(frames[0], vec![0x00, 0xB0]);
    assert_eq!(frames[1], vec![0x00, 0x00]);
    assert_eq!(frames[2], vec![0x00, 0x10]);
    let mut zero_chunk = vec![0x40];
    zero_chunk.extend(std::iter::repeat(0x00).take(16));
    for page in 0..8usize {
        assert_eq!(frames[page * 11], vec![0x00, 0xB0 + page as u8]);
        for chunk in 0..8usize {
            assert_eq!(frames[page * 11 + 3 + chunk], zero_chunk);
        }
    }
    assert_eq!(frames[88], vec![0x00, 0xB0]);
    assert_eq!(frames[89], vec![0x00, 0x00]);
    assert_eq!(frames[90], vec![0x00, 0x10]);
    assert_eq!(d.col, 0);
    assert_eq!(d.row, 0);
}

#[test]
fn data_frames_empty_buffer() {
    let frames = tonegen::display::data_frames(&Vec::new());
    assert!(frames.is_empty());
}

#[test]
fn data_frames_single_chunk() {
    let frames = tonegen::display::data_frames(&vec![1, 2, 3, 4, 5]);
    assert_eq!(frames, vec![vec![0x40, 1, 2, 3, 4, 5]]);
}

#[test]
fn data_frames_chunks_at_sixteen_bytes() {
    let bytes: Vec<u8> = (0..40).collect();
    let frames = tonegen::display::data_frames(&bytes);
    assert_eq!(frames.len(), 3);
    assert_eq!(frames[0].len(), 17);
    assert_eq!(frames[1].len(), 17);
    assert_eq!(frames[2].len(), 9);
    let mut joined: Vec<u8> = Vec::new();
    for f in &frames {
        assert_eq!(f[0], 0x40);
        joined.extend_from_slice(&f[1..]);
    }
    assert_eq!(joined, bytes);
}
