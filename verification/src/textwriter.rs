//! Text console: a cursor over a grid of 8x16 character cells.

use vstd::prelude::*;
use crate::font::{
    bit_set, glyph_code, glyph_pixel, Font, FIRST_PRINTABLE, FONT_HEIGHT, FONT_WIDTH,
    LAST_PRINTABLE, MIN_FONT_BYTES, PLACEHOLDER,
};
use crate::framebuffer::{FramebufferWriter, Surface};
use crate::text::{byte_of, text_bytes};

verus! {

/// Foreground colour outside a write call.
pub const DEFAULT_FG: u32 = 0xFFFFFF;

/// Background colour outside a write call.
pub const DEFAULT_BG: u32 = 0x000000;

/// Foreground colour of error output.
pub const ERROR_FG: u32 = 0xFF8080;

/// Foreground colour of log output.
pub const LOG_FG: u32 = 0xFFFF00;

/// The byte that ends a line.
pub const NEWLINE: u8 = 10;

/// A console as the contracts see it. Cursor and dimensions count character
/// cells, not pixels.
pub struct Console {
    pub width: nat,
    pub height: nat,
    pub line: nat,
    pub col: nat,
    pub fg: u32,
    pub bg: u32,
    pub surface: Surface,
    pub font: Seq<u8>,
}

impl Console {
    /// The grid is what fits the surface, it has at least one cell, and the
    /// cursor is on it.
    pub open spec fn wf(self) -> bool {
        &&& self.surface.wf()
        &&& self.font.len() >= MIN_FONT_BYTES
        &&& self.width == self.surface.width / 8
        &&& self.height == self.surface.height / 16
        &&& 0 < self.width
        &&& 0 < self.height
        &&& self.col < self.width
        &&& self.line < self.height
    }

    /// Cursor at the start of the next line; after the last line comes the
    /// first one again.
    pub open spec fn after_newline(self) -> Console {
        Console {
            col: 0,
            line: if self.line + 1 >= self.height {
                0
            } else {
                self.line + 1
            },
            ..self
        }
    }

    /// Cursor one cell to the right, or at the start of the next line when the
    /// cell written was the last of its line.
    pub open spec fn after_advance(self) -> Console {
        if self.col + 1 >= self.width {
            self.after_newline()
        } else {
            Console { col: self.col + 1, ..self }
        }
    }

    /// The console with the glyph drawn for `c` painted at the cursor, in the
    /// current colours; the cursor stays.
    pub open spec fn with_glyph_at_cursor(self, c: u8) -> Console {
        Console {
            surface: self.surface.with_glyph(
                self.font,
                self.col as int * 8,
                self.line as int * 16,
                self.fg,
                self.bg,
                c,
            ),
            ..self
        }
    }

    /// The console after one byte is written.
    pub open spec fn after_byte(self, c: u8) -> Console {
        if c == NEWLINE {
            self.after_newline()
        } else {
            self.with_glyph_at_cursor(c).after_advance()
        }
    }

    /// The console after a run of bytes is written, first byte first.
    pub open spec fn after_bytes(self, text: Seq<u8>) -> Console
        decreases text.len(),
    {
        if text.len() == 0 {
            self
        } else {
            self.after_bytes(text.drop_last()).after_byte(text.last())
        }
    }

    /// The console with other colours.
    pub open spec fn with_colours(self, fg: u32, bg: u32) -> Console {
        Console { fg, bg, ..self }
    }

    /// The console after one coloured write call: the text in the given
    /// colours, then the default colours again.
    pub open spec fn after_write(self, text: Seq<u8>, fg: u32, bg: u32) -> Console {
        self.with_colours(fg, bg).after_bytes(text).with_colours(DEFAULT_FG, DEFAULT_BG)
    }

    /// The console after the screen is cleared: black pixels, cursor home.
    pub open spec fn after_clear(self) -> Console {
        Console { col: 0, line: 0, surface: self.surface.cleared(DEFAULT_BG), ..self }
    }

    /// Writing a byte keeps a console well formed.
    pub proof fn lemma_after_byte_wf(self, c: u8)
        requires
            self.wf(),
        ensures
            self.after_byte(c).wf(),
            self.after_byte(c).width == self.width,
            self.after_byte(c).height == self.height,
            self.after_byte(c).fg == self.fg,
            self.after_byte(c).bg == self.bg,
            self.after_byte(c).font == self.font,
    {
        self.surface.lemma_glyph_pixels(
            self.font,
            self.col as int * 8,
            self.line as int * 16,
            self.fg,
            self.bg,
            c,
        );
    }

    /// Writing bytes keeps a console well formed.
    pub proof fn lemma_after_bytes_wf(self, text: Seq<u8>)
        requires
            self.wf(),
        ensures
            self.after_bytes(text).wf(),
            self.after_bytes(text).width == self.width,
            self.after_bytes(text).height == self.height,
            self.after_bytes(text).fg == self.fg,
            self.after_bytes(text).bg == self.bg,
            self.after_bytes(text).font == self.font,
        decreases text.len(),
    {
        if text.len() > 0 {
            self.lemma_after_bytes_wf(text.drop_last());
            self.after_bytes(text.drop_last()).lemma_after_byte_wf(text.last());
        }
    }
}

/// Owns the surface it draws on, the font it draws with, and the cursor.
pub struct TextWriter {
    screen_width: u32,
    screen_height: u32,
    text_line: u32,
    text_col: u32,
    fg_color: u32,
    bg_color: u32,
    framebuffer: FramebufferWriter,
    font: Font,
}

impl View for TextWriter {
    type V = Console;

    closed spec fn view(&self) -> Console {
        Console {
            width: self.screen_width as nat,
            height: self.screen_height as nat,
            line: self.text_line as nat,
            col: self.text_col as nat,
            fg: self.fg_color,
            bg: self.bg_color,
            surface: self.framebuffer@,
            font: self.font@,
        }
    }
}

impl TextWriter {
    /// Holds of every writer: the console is well formed.
    #[verifier::type_invariant]
    pub open spec fn wf(self) -> bool {
        self@.wf()
    }

    /// A console over `framebuffer`, cursor home, default colours. There is
    /// none when the surface has no room for a single character cell.
    pub fn new(framebuffer: FramebufferWriter, font: Font) -> (writer: Option<TextWriter>)
        ensures
            writer is Some <==> framebuffer@.width >= 8 && framebuffer@.height >= 16,
            writer matches Some(w) ==> {
                &&& w@.wf()
                &&& w@.surface == framebuffer@
                &&& w@.font == font@
                &&& w@.col == 0
                &&& w@.line == 0
                &&& w@.fg == DEFAULT_FG
                &&& w@.bg == DEFAULT_BG
            },
    {
        let screen_width: u32 = framebuffer.width() / 8;
        let screen_height: u32 = framebuffer.height() / 16;
        if screen_width == 0 || screen_height == 0 {
            return None;
        }
        proof {
            use_type_invariant(&font);
            use_type_invariant(&framebuffer);
        }
        Some(
            TextWriter {
                screen_width,
                screen_height,
                text_line: 0,
                text_col: 0,
                fg_color: DEFAULT_FG,
                bg_color: DEFAULT_BG,
                framebuffer,
                font,
            },
        )
    }

    /// Writes one byte at the cursor: a newline moves the cursor to the next
    /// line, any other byte paints its glyph and advances the cursor.
    pub fn write_char(&mut self, c: u8)
        ensures
            final(self)@ == old(self)@.after_byte(c),
    {
        proof {
            use_type_invariant(&*self);
        }
        if c == NEWLINE {
            self.newline();
            return ;
        }
        proof {
            use_type_invariant(&self.framebuffer);
        }
        let x: u32 = self.text_col * FONT_WIDTH;
        let y: u32 = self.text_line * FONT_HEIGHT;
        self.framebuffer.write_char(x, y, self.fg_color, self.bg_color, c, &self.font);
        proof {
            old(self)@.surface.lemma_glyph_pixels(
                self.font@,
                x as int,
                y as int,
                self.fg_color,
                self.bg_color,
                c,
            );
        }
        if self.text_col + 1 >= self.screen_width {
            self.newline();
        } else {
            self.text_col += 1;
        }
    }

    /// Moves the cursor one cell to the right within its line.
    pub fn next_char(&mut self)
        requires
            old(self)@.col + 1 < old(self)@.width,
        ensures
            final(self)@ == (Console { col: old(self)@.col + 1, ..old(self)@ }),
    {
        proof {
            use_type_invariant(&*self);
        }
        self.text_col += 1;
    }

    /// Moves the cursor to the start of the next line; after the last line
    /// comes the first one again.
    pub fn newline(&mut self)
        ensures
            final(self)@ == old(self)@.after_newline(),
    {
        proof {
            use_type_invariant(&*self);
        }
        self.text_col = 0;
        if self.text_line + 1 >= self.screen_height {
            self.text_line = 0;
        } else {
            self.text_line += 1;
        }
    }

    /// Writes a run of bytes, first byte first.
    pub fn write_bytes(&mut self, text: &[u8])
        ensures
            final(self)@ == old(self)@.after_bytes(text@),
    {
        let mut i: usize = 0;
        while i < text.len()
            invariant
                i <= text.len(),
                self@ == old(self)@.after_bytes(text@.subrange(0, i as int)),
            decreases text.len() - i,
        {
            assert(text@.subrange(0, i + 1).drop_last() == text@.subrange(0, i as int));
            self.write_char(text[i]);
            i += 1;
        }
        assert(text@.subrange(0, i as int) == text@);
    }

    /// Writes a text, one byte per character.
    pub fn write_string(&mut self, s: &str)
        ensures
            final(self)@ == old(self)@.after_bytes(text_bytes(s@)),
    {
        broadcast use vstd::string::group_string_axioms;

        let ghost before = self@;
        for c in it: s.chars()
            invariant
                it.seq() == s@,
                self@ == before.after_bytes(text_bytes(s@.subrange(0, it.index()))),
        {
            let b: u8 = byte_of(c);
            proof {
                let done = s@.subrange(0, it.index());
                let next = s@.subrange(0, it.index() + 1);
                assert(text_bytes(next).drop_last() == text_bytes(done));
                assert(text_bytes(next).last() == b);
            }
            self.write_char(b);
        }
        assert(s@.subrange(0, s@.len() as int) == s@);
    }

    /// Clears the surface to black and moves the cursor home.
    pub fn clear(&mut self)
        ensures
            final(self)@ == old(self)@.after_clear(),
    {
        proof {
            use_type_invariant(&*self);
            self@.surface.lemma_cleared_pixels(DEFAULT_BG);
        }
        self.text_line = 0;
        self.text_col = 0;
        self.framebuffer.clear(DEFAULT_BG);
    }

    /// Cursor position as (column, line), in character cells.
    pub fn cursor(&self) -> (at: (u32, u32))
        ensures
            at.0 == self@.col,
            at.1 == self@.line,
    {
        (self.text_col, self.text_line)
    }

    /// Screen width in character cells.
    pub fn screen_width(&self) -> (w: u32)
        ensures
            w == self@.width,
    {
        self.screen_width
    }

    /// Screen height in character cells.
    pub fn screen_height(&self) -> (h: u32)
        ensures
            h == self@.height,
    {
        self.screen_height
    }

    /// Current colours as (foreground, background).
    pub fn colours(&self) -> (c: (u32, u32))
        ensures
            c.0 == self@.fg,
            c.1 == self@.bg,
    {
        (self.fg_color, self.bg_color)
    }

    /// The surface drawn on.
    pub fn framebuffer(&self) -> (fb: &FramebufferWriter)
        ensures
            fb@ == self@.surface,
    {
        &self.framebuffer
    }

    /// Sets the colours as (foreground, background).
    pub fn set_colour(&mut self, col: (u32, u32))
        ensures
            final(self)@ == old(self)@.with_colours(col.0, col.1),
    {
        proof {
            use_type_invariant(&*self);
        }
        self.fg_color = col.0;
        self.bg_color = col.1;
    }

    /// Restores the default colours.
    pub fn reset_colour(&mut self)
        ensures
            final(self)@ == old(self)@.with_colours(DEFAULT_FG, DEFAULT_BG),
    {
        proof {
            use_type_invariant(&*self);
        }
        self.fg_color = DEFAULT_FG;
        self.bg_color = DEFAULT_BG;
    }
}

/// Writing a byte other than the newline paints the cell at the cursor with
/// the glyph of that byte where the byte is printable, and with the glyph of
/// the placeholder where it is not: set bits in the foreground colour, clear
/// bits in the background colour.
pub proof fn written_cell_shows_the_glyph(console: Console, c: u8, r: int, k: int)
    requires
        console.wf(),
        c != NEWLINE,
        0 <= r < 16,
        0 <= k < 8,
    ensures
        console.after_byte(c).surface.pixel_at(console.col * 8 + k, console.line * 16 + r) == if
            bit_set(console.font[glyph_code(c) * 16 + r], k as u8) {
            console.fg
        } else {
            console.bg
        },
        FIRST_PRINTABLE <= c <= LAST_PRINTABLE ==> glyph_code(c) == c,
        !(FIRST_PRINTABLE <= c <= LAST_PRINTABLE) ==> glyph_code(c) == PLACEHOLDER,
{
    let x0 = console.col as int * 8;
    let y0 = console.line as int * 16;
    console.surface.lemma_glyph_pixels(console.font, x0, y0, console.fg, console.bg, c);
    let painted = console.surface.with_glyph(console.font, x0, y0, console.fg, console.bg, c);
    assert(console.surface.stored(x0 + k, y0 + r));
    assert(painted.pixel_at(x0 + k, y0 + r) == if glyph_pixel(console.font, c, r, k) {
        console.fg
    } else {
        console.bg
    });
}

/// Writing a byte changes no pixel outside the cell at the cursor: what was
/// written before stays where it is, also when the cursor has come round to
/// the top of the screen again.
pub proof fn writing_touches_one_cell(console: Console, c: u8, x: int, y: int)
    requires
        console.wf(),
        console.surface.stored(x, y),
        !Surface::in_cell(console.col as int * 8, console.line as int * 16, x, y),
    ensures
        console.after_byte(c).surface.pixel_at(x, y) == console.surface.pixel_at(x, y),
{
    console.surface.lemma_glyph_pixels(
        console.font,
        console.col as int * 8,
        console.line as int * 16,
        console.fg,
        console.bg,
        c,
    );
}

/// Counting one further: the remainder grows by one, or falls back to zero
/// while the quotient grows by one.
pub proof fn lemma_successor_div_mod(k: int, d: int)
    requires
        0 <= k,
        0 < d,
    ensures
        k % d + 1 < d ==> (k + 1) % d == k % d + 1 && (k + 1) / d == k / d,
        k % d + 1 >= d ==> (k + 1) % d == 0 && (k + 1) / d == k / d + 1,
{
    vstd::arithmetic::div_mod::lemma_fundamental_div_mod(k, d);
    vstd::arithmetic::div_mod::lemma_mod_bound(k, d);
    let q = k / d;
    let r = k % d;
    if r + 1 < d {
        assert(k + 1 == q * d + (r + 1)) by (nonlinear_arith)
            requires
                k == d * q + r,
        ;
        vstd::arithmetic::div_mod::lemma_fundamental_div_mod_converse(k + 1, d, q, r + 1);
    } else {
        assert(k + 1 == (q + 1) * d + 0) by (nonlinear_arith)
            requires
                k == d * q + r,
                r + 1 == d,
        ;
        vstd::arithmetic::div_mod::lemma_fundamental_div_mod_converse(k + 1, d, q + 1, 0);
    }
}

/// Writing text without a newline moves the cursor as a counter does: after
/// `n` bytes the column is `(col + n) mod width`, and the line has advanced
/// by the number of line ends passed, `(col + n) / width`, modulo `height`.
/// Colours, font and dimensions stay.
pub proof fn plain_text_cursor(console: Console, text: Seq<u8>)
    requires
        console.wf(),
        forall|i: int| 0 <= i < text.len() ==> text[i] != NEWLINE,
    ensures
        console.after_bytes(text).col == (console.col + text.len()) % console.width,
        console.after_bytes(text).line == (console.line + (console.col + text.len())
            / console.width) % console.height,
    decreases text.len(),
{
    let w = console.width as int;
    let h = console.height as int;
    let c0 = console.col as int;
    let l0 = console.line as int;
    if text.len() == 0 {
        vstd::arithmetic::div_mod::lemma_small_mod(console.col, console.width);
        vstd::arithmetic::div_mod::lemma_basic_div(c0, w);
        vstd::arithmetic::div_mod::lemma_small_mod(console.line, console.height);
    } else {
        let front = text.drop_last();
        plain_text_cursor(console, front);
        console.lemma_after_bytes_wf(front);
        let before = console.after_bytes(front);
        let k = c0 + front.len() as int;
        assert(text.last() == text[text.len() - 1]);
        assert(before.after_byte(text.last()) == before.with_glyph_at_cursor(
            text.last(),
        ).after_advance());
        lemma_successor_div_mod(k, w);
        vstd::arithmetic::div_mod::lemma_div_pos_is_pos(k, w);
        lemma_successor_div_mod(l0 + k / w, h);
    }
}

/// Writing a full line of text without a newline, starting in the first
/// column, ends in the first column of the next line; from the last line the
/// next line is the first one.
pub proof fn full_line_wraps(console: Console, text: Seq<u8>)
    requires
        console.wf(),
        console.col == 0,
        text.len() == console.width,
        forall|i: int| 0 <= i < text.len() ==> text[i] != NEWLINE,
    ensures
        console.after_bytes(text).col == 0,
        console.line + 1 < console.height ==> console.after_bytes(text).line == console.line + 1,
        console.line + 1 == console.height ==> console.after_bytes(text).line == 0,
{
    let w = console.width as int;
    let h = console.height as int;
    plain_text_cursor(console, text);
    vstd::arithmetic::div_mod::lemma_mod_self_0(w);
    vstd::arithmetic::div_mod::lemma_div_by_self(w);
    if console.line + 1 < console.height {
        vstd::arithmetic::div_mod::lemma_small_mod((console.line + 1) as nat, console.height);
    } else {
        vstd::arithmetic::div_mod::lemma_mod_self_0(h);
    }
}

/// Writes `s` in the given colours and restores the default colours.
pub fn write(writer: &mut TextWriter, s: &str, fg_color: u32, bg_color: u32)
    ensures
        final(writer)@ == old(writer)@.after_write(text_bytes(s@), fg_color, bg_color),
{
    writer.set_colour((fg_color, bg_color));
    writer.write_string(s);
    writer.reset_colour();
}

/// Writes ordinary output: white on black.
pub fn _print(writer: &mut TextWriter, s: &str)
    ensures
        final(writer)@ == old(writer)@.after_write(text_bytes(s@), DEFAULT_FG, DEFAULT_BG),
{
    write(writer, s, DEFAULT_FG, DEFAULT_BG);
}

/// Writes error output: light red on black.
pub fn _printerr(writer: &mut TextWriter, s: &str)
    ensures
        final(writer)@ == old(writer)@.after_write(text_bytes(s@), ERROR_FG, DEFAULT_BG),
{
    write(writer, s, ERROR_FG, DEFAULT_BG);
}

/// Writes log output: yellow on black.
pub fn _log(writer: &mut TextWriter, s: &str)
    ensures
        final(writer)@ == old(writer)@.after_write(text_bytes(s@), LOG_FG, DEFAULT_BG),
{
    write(writer, s, LOG_FG, DEFAULT_BG);
}

/// Clears the screen to black and moves the cursor home.
pub fn clear_screen(writer: &mut TextWriter)
    ensures
        final(writer)@ == old(writer)@.after_clear(),
{
    writer.clear();
}

} // verus!
