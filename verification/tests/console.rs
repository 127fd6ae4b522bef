use goofy_ahh_os::font::{row_pixel, Font};
use goofy_ahh_os::framebuffer::FramebufferWriter;
use goofy_ahh_os::text::byte_of;
use goofy_ahh_os::textwriter::{_log, _print, _printerr, clear_screen, TextWriter};

const FG: u32 = 0x00AA_BBCC;
const BG: u32 = 0x0011_2233;

/// Row `r` of the glyph of `code` is `code ^ r`: every glyph differs from
/// every other, and the rows of one glyph differ from each other.
fn test_font() -> Font {
    let mut table: Vec<u8> = Vec::new();
    for code in 0..128u32 {
        for row in 0..16u32 {
            table.push((code ^ row) as u8);
        }
    }
    Font::new(table).unwrap()
}

fn surface(width: u64, height: u64) -> FramebufferWriter {
    FramebufferWriter::new(width, height, width * 4, 32).unwrap()
}

fn console(width: u64, height: u64) -> TextWriter {
    TextWriter::new(surface(width, height), test_font()).unwrap()
}

fn expected_pixel(code: u8, row: usize, col: usize) -> bool {
    (code ^ row as u8) & (0x80 >> col) != 0
}

fn assert_cell_shows(fb: &FramebufferWriter, x0: usize, y0: usize, code: u8, fg: u32, bg: u32) {
    for row in 0..16 {
        for col in 0..8 {
            let want = if expected_pixel(code, row, col) { fg } else { bg };
            assert_eq!(fb.read_pixel(x0 + col, y0 + row), want);
        }
    }
}

#[test]
fn font_needs_every_printable_glyph() {
    assert!(Font::new(vec![0u8; 2031]).is_none());
    assert!(Font::new(vec![0u8; 2032]).is_some());
    assert!(Font::new(Vec::new()).is_none());
    assert!(Font::new(vec![0u8; 4096]).is_some());
}

#[test]
fn printable_bytes_have_their_own_glyph() {
    let font = test_font();
    for c in 32..=126u8 {
        let rows = font.glyph(c);
        assert_eq!(rows.len(), 16);
        for r in 0..16 {
            assert_eq!(rows[r], c ^ r as u8);
            assert_eq!(font.glyph_row(c, r), c ^ r as u8);
        }
    }
}

#[test]
fn other_bytes_have_the_placeholder_glyph() {
    let font = test_font();
    let placeholder = font.glyph(b'?');
    for c in (0..32u8).chain(127..=255u8) {
        assert_eq!(font.glyph(c), placeholder);
    }
    assert_eq!(placeholder[0], 63);
    assert_eq!(placeholder[15], 63 ^ 15);
}

#[test]
fn row_pixel_reads_the_leftmost_bit_first() {
    assert!(row_pixel(0x80, 0));
    assert!(!row_pixel(0x80, 1));
    assert!(row_pixel(0x01, 7));
    assert!(!row_pixel(0x01, 0));
    assert!(row_pixel(0x10, 3));
}

#[test]
fn surface_rejects_unusable_geometry() {
    // not 32 bits per pixel
    assert!(FramebufferWriter::new(640, 480, 640 * 3, 24).is_none());
    assert!(FramebufferWriter::new(640, 480, 640 * 4, 16).is_none());
    // rows shorter than the width
    assert!(FramebufferWriter::new(640, 480, 640 * 4 - 4, 32).is_none());
    // rows that are no whole number of pixels
    assert!(FramebufferWriter::new(640, 480, 640 * 4 + 2, 32).is_none());
    // dimensions beyond 32 bits
    assert!(FramebufferWriter::new(1 << 32, 0, 1 << 34, 32).is_none());
    assert!(FramebufferWriter::new(0, 1 << 32, 0, 32).is_none());
    // a byte size beyond the address space
    assert!(FramebufferWriter::new(1 << 31, 1 << 31, 1 << 33, 32).is_none());
}

#[test]
fn surface_starts_black_with_its_geometry() {
    let fb = FramebufferWriter::new(10, 3, 48, 32).unwrap();
    assert_eq!(fb.width(), 10);
    assert_eq!(fb.height(), 3);
    assert_eq!(fb.pitch(), 48);
    assert_eq!(fb.pixels().len(), 36);
    assert!(fb.pixels().iter().all(|p| *p == 0));
    let empty = FramebufferWriter::new(0, 0, 0, 32).unwrap();
    assert_eq!(empty.pixels().len(), 0);
}

#[test]
fn pixel_offset_counts_rows_of_pitch_bytes() {
    let fb = FramebufferWriter::new(10, 3, 48, 32).unwrap();
    assert_eq!(fb.pixel_offset(0, 0), 0);
    assert_eq!(fb.pixel_offset(3, 0), 12);
    assert_eq!(fb.pixel_offset(0, 1), 48);
    assert_eq!(fb.pixel_offset(9, 2), 2 * 48 + 9 * 4);
}

#[test]
fn write_pixel_changes_one_pixel() {
    let mut fb = FramebufferWriter::new(10, 3, 48, 32).unwrap();
    fb.write_pixel(9, 1, 0xDEAD_BEEF);
    assert_eq!(fb.read_pixel(9, 1), 0xDEAD_BEEF);
    assert_eq!(fb.pixels()[12 + 9], 0xDEAD_BEEF);
    let changed = fb.pixels().iter().filter(|p| **p != 0).count();
    assert_eq!(changed, 1);
}

#[test]
fn clear_fills_the_visible_pixels_only() {
    let mut fb = FramebufferWriter::new(10, 3, 48, 32).unwrap();
    fb.clear(0x0000_00FF);
    for y in 0..3 {
        for x in 0..12 {
            let want = if x < 10 { 0x0000_00FF } else { 0 };
            assert_eq!(fb.pixels()[y * 12 + x], want);
        }
    }
}

#[test]
fn glyph_blit_paints_exactly_one_cell() {
    let mut fb = surface(32, 48);
    fb.clear(0x0055_5555);
    let font = test_font();
    fb.write_char(8, 16, FG, BG, b'A', &font);
    assert_cell_shows(&fb, 8, 16, b'A', FG, BG);
    for y in 0..48 {
        for x in 0..32 {
            let inside = (8..16).contains(&x) && (16..32).contains(&y);
            if !inside {
                assert_eq!(fb.read_pixel(x, y), 0x0055_5555);
            }
        }
    }
}

#[test]
fn glyph_blit_of_an_unprintable_byte_paints_the_placeholder() {
    let font = test_font();
    for c in [0u8, 10, 31, 127, 200, 255] {
        let mut fb = surface(8, 16);
        fb.write_char(0, 0, FG, BG, c, &font);
        assert_cell_shows(&fb, 0, 0, b'?', FG, BG);
    }
}

#[test]
fn console_needs_room_for_one_cell() {
    assert!(TextWriter::new(surface(7, 16), test_font()).is_none());
    assert!(TextWriter::new(surface(8, 15), test_font()).is_none());
    assert!(TextWriter::new(surface(0, 0), test_font()).is_none());
    assert!(TextWriter::new(surface(8, 16), test_font()).is_some());
}

#[test]
fn console_dimensions_count_whole_cells() {
    let w = console(87, 70);
    assert_eq!(w.screen_width(), 10);
    assert_eq!(w.screen_height(), 4);
    assert_eq!(w.cursor(), (0, 0));
    assert_eq!(w.colours(), (0xFFFFFF, 0x000000));
}

#[test]
fn write_char_paints_at_the_cursor_and_advances() {
    let mut w = console(80, 64);
    w.write_char(b'H');
    w.write_char(b'i');
    assert_eq!(w.cursor(), (2, 0));
    assert_cell_shows(w.framebuffer(), 0, 0, b'H', 0xFFFFFF, 0);
    assert_cell_shows(w.framebuffer(), 8, 0, b'i', 0xFFFFFF, 0);
    assert_eq!(w.framebuffer().read_pixel(16, 0), 0);
}

#[test]
fn write_char_of_an_unprintable_byte_paints_the_placeholder_and_advances() {
    let mut w = console(80, 64);
    w.write_char(0x07);
    w.write_char(200);
    assert_eq!(w.cursor(), (2, 0));
    assert_cell_shows(w.framebuffer(), 0, 0, b'?', 0xFFFFFF, 0);
    assert_cell_shows(w.framebuffer(), 8, 0, b'?', 0xFFFFFF, 0);
}

#[test]
fn newline_byte_moves_the_cursor_and_paints_nothing() {
    let mut w = console(80, 64);
    w.write_char(b'a');
    w.write_char(b'\n');
    assert_eq!(w.cursor(), (0, 1));
    assert_eq!(w.framebuffer().read_pixel(8, 0), 0);
    let painted = w.framebuffer().pixels().iter().filter(|p| **p != 0).count();
    let mut fresh = console(80, 64);
    fresh.write_char(b'a');
    let expected = fresh.framebuffer().pixels().iter().filter(|p| **p != 0).count();
    assert_eq!(painted, expected);
}

#[test]
fn cursor_wraps_after_a_full_line() {
    let mut w = console(80, 64);
    for _ in 0..10 {
        w.write_char(b'a');
    }
    assert_eq!(w.cursor(), (0, 1));
}

#[test]
fn cursor_stays_on_the_line_until_it_is_full() {
    let mut w = console(80, 64);
    for _ in 0..9 {
        w.write_char(b'a');
    }
    assert_eq!(w.cursor(), (9, 0));
}

#[test]
fn cursor_wraps_from_the_last_line_to_the_first() {
    let mut w = console(80, 64);
    for _ in 0..3 {
        w.newline();
    }
    assert_eq!(w.cursor(), (0, 3));
    for _ in 0..10 {
        w.write_char(b'a');
    }
    assert_eq!(w.cursor(), (0, 0));
    w.newline();
    assert_eq!(w.cursor(), (0, 1));
}

#[test]
fn newline_on_the_last_line_goes_to_the_first() {
    let mut w = console(80, 64);
    for _ in 0..4 {
        w.newline();
    }
    assert_eq!(w.cursor(), (0, 0));
}

#[test]
fn text_after_a_wrap_overwrites_the_top_of_the_screen() {
    let mut w = console(16, 32);
    w.write_string("abcd");
    assert_eq!(w.cursor(), (0, 0));
    assert_cell_shows(w.framebuffer(), 0, 0, b'a', 0xFFFFFF, 0);
    w.write_char(b'Z');
    assert_cell_shows(w.framebuffer(), 0, 0, b'Z', 0xFFFFFF, 0);
    assert_cell_shows(w.framebuffer(), 8, 0, b'b', 0xFFFFFF, 0);
    assert_cell_shows(w.framebuffer(), 0, 16, b'c', 0xFFFFFF, 0);
}

#[test]
fn cursor_after_plain_text_follows_the_formula() {
    for start_line in 0..4u32 {
        for n in [0usize, 1, 9, 10, 11, 25, 39, 40, 41, 100] {
            let mut w = console(80, 64);
            for _ in 0..start_line {
                w.newline();
            }
            for _ in 0..n {
                w.write_char(b'x');
            }
            let col = (n % 10) as u32;
            let line = ((start_line as usize + n / 10) % 4) as u32;
            assert_eq!(w.cursor(), (col, line));
        }
    }
}

#[test]
fn cursor_after_plain_text_from_a_middle_column() {
    let mut w = console(80, 64);
    w.write_string("abc");
    for _ in 0..18 {
        w.write_char(b'x');
    }
    // (3 + 18) mod 10, (0 + (3 + 18) / 10) mod 4
    assert_eq!(w.cursor(), (1, 2));
}

#[test]
fn next_char_moves_right_and_paints_nothing() {
    let mut w = console(80, 64);
    w.next_char();
    w.next_char();
    assert_eq!(w.cursor(), (2, 0));
    assert!(w.framebuffer().pixels().iter().all(|p| *p == 0));
}

#[test]
fn write_bytes_and_write_string_agree() {
    let mut a = console(80, 64);
    let mut b = console(80, 64);
    a.write_string("one\ntwo three");
    b.write_bytes(b"one\ntwo three");
    assert_eq!(a.cursor(), b.cursor());
    assert_eq!(a.cursor(), (9, 1));
    assert_eq!(a.framebuffer().pixels(), b.framebuffer().pixels());
}

#[test]
fn wide_characters_are_written_as_one_placeholder_each() {
    assert_eq!(byte_of('A'), 65);
    assert_eq!(byte_of('\n'), 10);
    assert_eq!(byte_of('\u{e9}'), 0xe9);
    assert_eq!(byte_of('\u{141}'), 0);
    assert_eq!(byte_of('\u{20ac}'), 0);
    let mut w = console(80, 64);
    w.write_string("\u{141}\u{e9}");
    assert_eq!(w.cursor(), (2, 0));
    assert_cell_shows(w.framebuffer(), 0, 0, b'?', 0xFFFFFF, 0);
    assert_cell_shows(w.framebuffer(), 8, 0, b'?', 0xFFFFFF, 0);
}

#[test]
fn colours_are_set_and_reset() {
    let mut w = console(80, 64);
    w.set_colour((FG, BG));
    assert_eq!(w.colours(), (FG, BG));
    w.write_char(b'q');
    assert_cell_shows(w.framebuffer(), 0, 0, b'q', FG, BG);
    w.reset_colour();
    assert_eq!(w.colours(), (0xFFFFFF, 0x000000));
    assert_cell_shows(w.framebuffer(), 0, 0, b'q', FG, BG);
}

#[test]
fn write_uses_its_colours_and_restores_the_defaults() {
    let mut w = console(80, 64);
    w.set_colour((1, 2));
    goofy_ahh_os::textwriter::write(&mut w, "ok", FG, BG);
    assert_eq!(w.colours(), (0xFFFFFF, 0x000000));
    assert_eq!(w.cursor(), (2, 0));
    assert_cell_shows(w.framebuffer(), 0, 0, b'o', FG, BG);
    assert_cell_shows(w.framebuffer(), 8, 0, b'k', FG, BG);
}

#[test]
fn print_variants_differ_in_foreground_only() {
    let mut w = console(80, 64);
    _print(&mut w, "p");
    _printerr(&mut w, "e");
    _log(&mut w, "l");
    assert_cell_shows(w.framebuffer(), 0, 0, b'p', 0xFFFFFF, 0);
    assert_cell_shows(w.framebuffer(), 8, 0, b'e', 0xFF8080, 0);
    assert_cell_shows(w.framebuffer(), 16, 0, b'l', 0xFFFF00, 0);
    assert_eq!(w.cursor(), (3, 0));
    assert_eq!(w.colours(), (0xFFFFFF, 0x000000));
}

#[test]
fn clear_screen_blackens_and_homes_the_cursor() {
    let mut w = console(80, 64);
    w.set_colour((FG, BG));
    w.write_string("hello\nworld");
    assert_eq!(w.cursor(), (5, 1));
    clear_screen(&mut w);
    assert_eq!(w.cursor(), (0, 0));
    assert!(w.framebuffer().pixels().iter().all(|p| *p == 0));
    assert_eq!(w.colours(), (FG, BG));
}

#[test]
fn many_lines_keep_the_cursor_on_the_screen() {
    let mut w = console(80, 64);
    for _ in 0..200 {
        w.write_string("test_println_many output\n");
    }
    let (col, line) = w.cursor();
    assert_eq!(col, 0);
    // each line is 24 characters and a newline: three cursor lines
    assert_eq!(line, (200 * 3 % 4) as u32);
}

#[test]
fn positioned_text_runs_left_to_right() {
    let font = test_font();
    let mut fb = surface(40, 48);
    fb.write_string(8, 16, FG, BG, "ab", &font);
    assert_cell_shows(&fb, 8, 16, b'a', FG, BG);
    assert_cell_shows(&fb, 16, 16, b'b', FG, BG);
    assert_eq!(fb.read_pixel(24, 16), 0);
    assert_eq!(fb.read_pixel(0, 16), 0);
}

#[test]
fn positioned_text_returns_to_its_left_edge() {
    let font = test_font();
    // newline
    let mut fb = surface(40, 48);
    fb.write_string(8, 0, FG, BG, "a\nb", &font);
    assert_cell_shows(&fb, 8, 0, b'a', FG, BG);
    assert_cell_shows(&fb, 8, 16, b'b', FG, BG);
    // a cell that does not fit the line: four cells fit from x = 8
    let mut fb = surface(40, 48);
    fb.write_string(8, 0, FG, BG, "abcde", &font);
    assert_cell_shows(&fb, 32, 0, b'd', FG, BG);
    assert_cell_shows(&fb, 8, 16, b'e', FG, BG);
    assert_eq!(fb.read_pixel(0, 16), 0);
}

#[test]
fn positioned_text_stops_at_the_bottom() {
    let font = test_font();
    let mut fb = surface(16, 32);
    fb.write_string(0, 0, FG, BG, "abcdefgh", &font);
    assert_cell_shows(&fb, 0, 0, b'a', FG, BG);
    assert_cell_shows(&fb, 8, 0, b'b', FG, BG);
    assert_cell_shows(&fb, 0, 16, b'c', FG, BG);
    assert_cell_shows(&fb, 8, 16, b'd', FG, BG);
    // a start below the last line that fits paints nothing
    let mut fb = surface(16, 32);
    fb.write_string(0, 17, FG, BG, "a", &font);
    assert!(fb.pixels().iter().all(|p| *p == 0));
    // newlines past the bottom paint nothing either
    let mut fb = surface(16, 32);
    fb.write_string(0, 0, FG, BG, "\n\n\n\n\nz", &font);
    assert!(fb.pixels().iter().all(|p| *p == 0));
}

#[test]
fn positioned_text_needs_room_for_one_cell() {
    let font = test_font();
    let mut fb = surface(16, 32);
    fb.write_string(9, 0, FG, BG, "abc", &font);
    assert!(fb.pixels().iter().all(|p| *p == 0));
    fb.write_string(u32::MAX, u32::MAX, FG, BG, "abc", &font);
    assert!(fb.pixels().iter().all(|p| *p == 0));
    fb.write_string(8, 16, FG, BG, "q", &font);
    assert_cell_shows(&fb, 8, 16, b'q', FG, BG);
}

#[test]
fn surface_functions_work_from_the_top_left_corner() {
    let font = test_font();
    let mut fb = goofy_ahh_os::framebuffer::init(16, 32, 64, 32).unwrap();
    assert!(fb.pixels().iter().all(|p| *p == 0));
    assert!(goofy_ahh_os::framebuffer::init(16, 32, 64, 24).is_none());
    goofy_ahh_os::framebuffer::clear_screen(&mut fb, 0x0000_1234);
    assert!(fb.pixels().iter().all(|p| *p == 0x0000_1234));
    goofy_ahh_os::framebuffer::write_string(&mut fb, "hi", FG, BG, &font);
    assert_cell_shows(&fb, 0, 0, b'h', FG, BG);
    assert_cell_shows(&fb, 8, 0, b'i', FG, BG);
    assert_eq!(fb.read_pixel(0, 16), 0x0000_1234);
}
