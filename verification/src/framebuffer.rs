//! Pixel surface: 32-bit pixels laid out row by row, and the glyph blit.

use vstd::prelude::*;
use crate::font::{glyph_bitmap, glyph_pixel, row_pixel, Font};
use crate::text::{byte_of, text_bytes};

verus! {

/// Bits per pixel of the only pixel format the renderer draws.
pub const PIXEL_BITS: u16 = 32;

/// Bytes per pixel of that format.
pub const PIXEL_BYTES: u64 = 4;

/// A surface as the contracts see it: its geometry in pixels and every stored
/// pixel, row after row, `stride` pixels to a row.
pub struct Surface {
    pub width: nat,
    pub height: nat,
    pub stride: nat,
    pub pixels: Seq<u32>,
}

impl Surface {
    /// Rows are at least as long as the visible width, and storage holds
    /// exactly `height` rows.
    pub open spec fn wf(self) -> bool {
        &&& self.width <= self.stride
        &&& self.pixels.len() == self.stride * self.height
    }

    /// Position of pixel (x, y) in `pixels`.
    pub open spec fn index_of(self, x: int, y: int) -> int {
        y * self.stride + x
    }

    /// Whether (x, y) names a stored pixel, visible or padding.
    pub open spec fn stored(self, x: int, y: int) -> bool {
        0 <= x < self.stride && 0 <= y < self.height
    }

    /// Whether (x, y) names a visible pixel.
    pub open spec fn visible(self, x: int, y: int) -> bool {
        0 <= x < self.width && 0 <= y < self.height
    }

    /// The pixel stored at (x, y).
    pub open spec fn pixel_at(self, x: int, y: int) -> u32 {
        self.pixels[self.index_of(x, y)]
    }

    /// Whether `other` has the geometry of `self`.
    pub open spec fn same_shape(self, other: Surface) -> bool {
        &&& self.width == other.width
        &&& self.height == other.height
        &&& self.stride == other.stride
        &&& self.pixels.len() == other.pixels.len()
    }

    /// The surface with the pixel at (x, y) replaced.
    pub open spec fn with_pixel(self, x: int, y: int, color: u32) -> Surface {
        Surface { pixels: self.pixels.update(self.index_of(x, y), color), ..self }
    }

    /// Whether (x, y) lies in the 8x16 cell whose top left pixel is (x0, y0).
    pub open spec fn in_cell(x0: int, y0: int, x: int, y: int) -> bool {
        x0 <= x < x0 + 8 && y0 <= y < y0 + 16
    }

    /// Column of the pixel stored at position `i`.
    pub open spec fn column_of(self, i: int) -> int {
        i % (self.stride as int)
    }

    /// Row of the pixel stored at position `i`.
    pub open spec fn row_of(self, i: int) -> int {
        i / (self.stride as int)
    }

    /// The surface with every visible pixel set to `color`; padding keeps its
    /// contents.
    pub open spec fn cleared(self, color: u32) -> Surface {
        Surface {
            pixels: Seq::new(
                self.pixels.len(),
                |i: int|
                    if self.column_of(i) < self.width {
                        color
                    } else {
                        self.pixels[i]
                    },
            ),
            ..self
        }
    }

    /// The surface with the glyph drawn for `c` painted into the cell at
    /// (x0, y0): set bits in `fg`, clear bits in `bg`, nothing else touched.
    pub open spec fn with_glyph(
        self,
        table: Seq<u8>,
        x0: int,
        y0: int,
        fg: u32,
        bg: u32,
        c: u8,
    ) -> Surface {
        Surface {
            pixels: Seq::new(
                self.pixels.len(),
                |i: int|
                    if Self::in_cell(x0, y0, self.column_of(i), self.row_of(i)) {
                        if glyph_pixel(table, c, self.row_of(i) - y0, self.column_of(i) - x0) {
                            fg
                        } else {
                            bg
                        }
                    } else {
                        self.pixels[i]
                    },
            ),
            ..self
        }
    }

    /// The surface with a text painted from (x, y) on: see `Pen`. Where not
    /// even one cell fits to the right of `x`, nothing is painted.
    pub open spec fn with_text(
        self,
        table: Seq<u8>,
        x: int,
        y: int,
        fg: u32,
        bg: u32,
        text: Seq<u8>,
    ) -> Surface {
        if x + 8 > self.width {
            self
        } else {
            (Pen { x, y, stopped: false, surface: self }).after_bytes(table, x, fg, bg, text).surface
        }
    }

    /// Every stored pixel has a position inside `pixels`.
    pub proof fn lemma_index_bound(self, x: int, y: int)
        requires
            self.wf(),
            self.stored(x, y),
        ensures
            0 <= self.index_of(x, y) < self.pixels.len(),
    {
        assert(y * self.stride + self.stride <= self.height * self.stride) by (nonlinear_arith)
            requires
                0 <= y < self.height,
                0 <= self.stride,
        ;
        assert(0 <= y * self.stride) by (nonlinear_arith)
            requires
                0 <= y,
                0 <= self.stride,
        ;
        assert(self.height * self.stride == self.stride * self.height) by (nonlinear_arith);
    }

    /// Two stored pixels share a position only if they are the same pixel.
    pub proof fn lemma_index_injective(self, x1: int, y1: int, x2: int, y2: int)
        requires
            0 <= x1 < self.stride,
            0 <= x2 < self.stride,
            self.index_of(x1, y1) == self.index_of(x2, y2),
        ensures
            x1 == x2,
            y1 == y2,
    {
        let s = self.stride as int;
        assert(y1 == y2) by (nonlinear_arith)
            requires
                0 <= x1 < s,
                0 <= x2 < s,
                y1 * s + x1 == y2 * s + x2,
        ;
    }

    /// Replacing one pixel changes that pixel and no other.
    pub proof fn lemma_with_pixel(self, x: int, y: int, color: u32)
        requires
            self.wf(),
            self.stored(x, y),
        ensures
            self.with_pixel(x, y, color).same_shape(self),
            self.with_pixel(x, y, color).wf(),
            forall|x2: int, y2: int|
                self.stored(x2, y2) ==> #[trigger] self.with_pixel(x, y, color).pixel_at(x2, y2)
                    == if x2 == x && y2 == y {
                    color
                } else {
                    self.pixel_at(x2, y2)
                },
    {
        self.lemma_index_bound(x, y);
        let after = self.with_pixel(x, y, color);
        assert forall|x2: int, y2: int| self.stored(x2, y2) implies #[trigger] after.pixel_at(
            x2,
            y2,
        ) == if x2 == x && y2 == y {
            color
        } else {
            self.pixel_at(x2, y2)
        } by {
            self.lemma_index_bound(x2, y2);
            if self.index_of(x2, y2) == self.index_of(x, y) {
                self.lemma_index_injective(x2, y2, x, y);
            }
        }
    }

    /// Every position in `pixels` is the position of exactly one stored pixel.
    pub proof fn lemma_position(self, i: int)
        requires
            self.wf(),
            0 <= i < self.pixels.len(),
        ensures
            self.stored(self.column_of(i), self.row_of(i)),
            self.index_of(self.column_of(i), self.row_of(i)) == i,
    {
        let s = self.stride as int;
        let h = self.height as int;
        assert(s > 0) by (nonlinear_arith)
            requires
                0 <= i < s * h,
                0 <= s,
        ;
        vstd::arithmetic::div_mod::lemma_fundamental_div_mod(i, s);
        vstd::arithmetic::div_mod::lemma_mod_bound(i, s);
        let q = i / s;
        let r = i % s;
        assert(0 <= q < h) by (nonlinear_arith)
            requires
                i == s * q + r,
                0 <= r < s,
                0 <= i < s * h,
        ;
        assert(q * s + r == s * q + r) by (nonlinear_arith);
    }

    /// A stored pixel is found again from its position.
    pub proof fn lemma_coordinates(self, x: int, y: int)
        requires
            self.wf(),
            self.stored(x, y),
        ensures
            self.column_of(self.index_of(x, y)) == x,
            self.row_of(self.index_of(x, y)) == y,
    {
        let s = self.stride as int;
        vstd::arithmetic::div_mod::lemma_fundamental_div_mod_converse(y * s + x, s, y, x);
    }

    /// What clearing does, pixel by pixel.
    pub proof fn lemma_cleared_pixels(self, color: u32)
        requires
            self.wf(),
        ensures
            self.cleared(color).same_shape(self),
            self.cleared(color).wf(),
            forall|x: int, y: int|
                self.stored(x, y) ==> #[trigger] self.cleared(color).pixel_at(x, y) == if x
                    < self.width {
                    color
                } else {
                    self.pixel_at(x, y)
                },
    {
        assert forall|x: int, y: int| self.stored(x, y) implies #[trigger] self.cleared(
            color,
        ).pixel_at(x, y) == if x < self.width {
            color
        } else {
            self.pixel_at(x, y)
        } by {
            self.lemma_index_bound(x, y);
            self.lemma_coordinates(x, y);
        }
    }

    /// What painting a glyph does, pixel by pixel.
    pub proof fn lemma_glyph_pixels(
        self,
        table: Seq<u8>,
        x0: int,
        y0: int,
        fg: u32,
        bg: u32,
        c: u8,
    )
        requires
            self.wf(),
        ensures
            self.with_glyph(table, x0, y0, fg, bg, c).same_shape(self),
            self.with_glyph(table, x0, y0, fg, bg, c).wf(),
            forall|x: int, y: int|
                self.stored(x, y) ==> #[trigger] self.with_glyph(table, x0, y0, fg, bg, c).pixel_at(
                    x,
                    y,
                ) == if Self::in_cell(x0, y0, x, y) {
                    if glyph_pixel(table, c, y - y0, x - x0) {
                        fg
                    } else {
                        bg
                    }
                } else {
                    self.pixel_at(x, y)
                },
    {
        let after = self.with_glyph(table, x0, y0, fg, bg, c);
        assert forall|x: int, y: int| self.stored(x, y) implies #[trigger] after.pixel_at(x, y)
            == if Self::in_cell(x0, y0, x, y) {
            if glyph_pixel(table, c, y - y0, x - x0) {
                fg
            } else {
                bg
            }
        } else {
            self.pixel_at(x, y)
        } by {
            self.lemma_index_bound(x, y);
            self.lemma_coordinates(x, y);
        }
    }
}

/// A pen that paints text into a surface cell by cell, left to right and top
/// to bottom, as the contracts see it. `x` and `y` name the top left pixel of
/// the next cell.
pub struct Pen {
    pub x: int,
    pub y: int,
    /// Whether a character did not fit below the last line; nothing is
    /// painted after that.
    pub stopped: bool,
    pub surface: Surface,
}

impl Pen {
    /// Whether the pen can paint no more: it has stopped, or it stands where
    /// no line fits.
    pub open spec fn spent(self) -> bool {
        self.stopped || self.y + 16 > self.surface.height
    }

    /// The pen after one byte. A newline moves it to column `x0` of the next
    /// line. Any other byte is painted, after a move to column `x0` of the
    /// next line where the cell does not fit the current line; where it does
    /// not fit the surface either, the pen stops.
    pub open spec fn after_byte(self, table: Seq<u8>, x0: int, fg: u32, bg: u32, b: u8) -> Pen {
        if self.stopped {
            self
        } else if b == 10 {
            Pen { x: x0, y: self.y + 16, ..self }
        } else {
            let wraps = self.x + 8 > self.surface.width;
            let px = if wraps {
                x0
            } else {
                self.x
            };
            let py = if wraps {
                self.y + 16
            } else {
                self.y
            };
            if py + 16 > self.surface.height {
                Pen { x: px, y: py, stopped: true, ..self }
            } else {
                Pen {
                    x: px + 8,
                    y: py,
                    stopped: false,
                    surface: self.surface.with_glyph(table, px, py, fg, bg, b),
                }
            }
        }
    }

    /// The pen after a run of bytes, first byte first.
    pub open spec fn after_bytes(
        self,
        table: Seq<u8>,
        x0: int,
        fg: u32,
        bg: u32,
        text: Seq<u8>,
    ) -> Pen
        decreases text.len(),
    {
        if text.len() == 0 {
            self
        } else {
            self.after_bytes(table, x0, fg, bg, text.drop_last()).after_byte(
                table,
                x0,
                fg,
                bg,
                text.last(),
            )
        }
    }

    /// A spent pen stays spent and paints nothing.
    pub proof fn lemma_spent_pen_paints_nothing(
        self,
        table: Seq<u8>,
        x0: int,
        fg: u32,
        bg: u32,
        b: u8,
    )
        requires
            self.spent(),
        ensures
            self.after_byte(table, x0, fg, bg, b).spent(),
            self.after_byte(table, x0, fg, bg, b).surface == self.surface,
    {
    }
}

/// Whether a loader-supplied geometry can be drawn on: 32-bit pixels, rows a
/// whole number of pixels and at least `width` pixels long, dimensions that
/// fit the accessors, and a row length and a byte size that fit the address
/// space.
pub open spec fn usable_geometry(width: u64, height: u64, pitch: u64, bpp: u16) -> bool {
    &&& bpp == PIXEL_BITS
    &&& pitch % PIXEL_BYTES == 0
    &&& width * PIXEL_BYTES <= pitch
    &&& width <= u32::MAX
    &&& height <= u32::MAX
    &&& pitch <= usize::MAX
    &&& pitch * height <= usize::MAX
}

/// Owns the pixels of one surface.
pub struct FramebufferWriter {
    width: usize,
    height: usize,
    stride: usize,
    pixels: Vec<u32>,
}

impl View for FramebufferWriter {
    type V = Surface;

    closed spec fn view(&self) -> Surface {
        Surface {
            width: self.width as nat,
            height: self.height as nat,
            stride: self.stride as nat,
            pixels: self.pixels@,
        }
    }
}

impl FramebufferWriter {
    /// Holds of every writer: the surface is well formed, its dimensions fit
    /// the accessors, and its byte size fits the address space.
    #[verifier::type_invariant]
    pub open spec fn wf(self) -> bool {
        &&& self@.wf()
        &&& self@.width <= u32::MAX
        &&& self@.height <= u32::MAX
        &&& self@.stride * PIXEL_BYTES <= usize::MAX
        &&& self@.stride * self@.height * PIXEL_BYTES <= usize::MAX
    }

    /// Builds an all-black surface for a usable geometry, and nothing for any
    /// other. `pitch` is the length of a row in bytes.
    pub fn new(width: u64, height: u64, pitch: u64, bpp: u16) -> (writer: Option<FramebufferWriter>)
        ensures
            writer is Some <==> usable_geometry(width, height, pitch, bpp),
            writer matches Some(w) ==> {
                &&& w@.wf()
                &&& w@.width == width
                &&& w@.height == height
                &&& w@.stride * PIXEL_BYTES == pitch
                &&& forall|i: int| 0 <= i < w@.pixels.len() ==> w@.pixels[i] == 0
            },
    {
        if bpp != PIXEL_BITS || pitch % PIXEL_BYTES != 0 {
            return None;
        }
        if width > u32::MAX as u64 || height > u32::MAX as u64 {
            return None;
        }
        if width * PIXEL_BYTES > pitch {
            return None;
        }
        let bytes: u64 = match pitch.checked_mul(height) {
            Some(b) => b,
            None => {
                return None;
            },
        };
        if pitch > usize::MAX as u64 || bytes > usize::MAX as u64 {
            return None;
        }
        let stride: u64 = pitch / PIXEL_BYTES;
        assert(stride * height * 4 == pitch * height) by (nonlinear_arith)
            requires
                stride * 4 == pitch,
        ;
        assert(stride * height <= stride * height * 4) by (nonlinear_arith);
        let count: usize = (stride * height) as usize;
        let pixels: Vec<u32> = vec![0u32; count];
        Some(
            FramebufferWriter {
                width: width as usize,
                height: height as usize,
                stride: stride as usize,
                pixels,
            },
        )
    }

    /// Visible width in pixels.
    pub fn width(&self) -> (w: u32)
        ensures
            w == self@.width,
    {
        proof {
            use_type_invariant(self);
        }
        self.width as u32
    }

    /// Visible height in pixels.
    pub fn height(&self) -> (h: u32)
        ensures
            h == self@.height,
    {
        proof {
            use_type_invariant(self);
        }
        self.height as u32
    }

    /// Length of a row in bytes.
    pub fn pitch(&self) -> (p: usize)
        ensures
            p == self@.stride * PIXEL_BYTES,
    {
        proof {
            use_type_invariant(self);
        }
        self.stride * 4
    }

    /// Every stored pixel, row after row.
    pub fn pixels(&self) -> (p: &Vec<u32>)
        ensures
            p@ == self@.pixels,
    {
        &self.pixels
    }

    /// Byte offset of the visible pixel (x, y) from the start of the surface:
    /// `y` rows of `pitch` bytes, then `x` pixels of four bytes.
    pub fn pixel_offset(&self, x: usize, y: usize) -> (offset: usize)
        requires
            self@.visible(x as int, y as int),
        ensures
            offset == y * (self@.stride * PIXEL_BYTES) + x * PIXEL_BYTES,
            offset == self@.index_of(x as int, y as int) * PIXEL_BYTES,
            offset + PIXEL_BYTES <= self@.pixels.len() * PIXEL_BYTES,
    {
        proof {
            use_type_invariant(self);
            self@.lemma_index_bound(x as int, y as int);
            assert(y * (self.stride * 4) + x * 4 == (y * self.stride + x) * 4)
                by (nonlinear_arith);
            assert(self.stride * self.height * 4 == (self.stride * self.height) * 4)
                by (nonlinear_arith);
            assert(0 <= y * self.stride) by (nonlinear_arith);
        }
        (y * self.stride + x) * 4
    }

    /// The visible pixel at (x, y).
    pub fn read_pixel(&self, x: usize, y: usize) -> (color: u32)
        requires
            self@.visible(x as int, y as int),
        ensures
            color == self@.pixel_at(x as int, y as int),
    {
        proof {
            use_type_invariant(self);
            self@.lemma_index_bound(x as int, y as int);
            assert(0 <= y * self.stride) by (nonlinear_arith);
        }
        self.pixels[y * self.stride + x]
    }

    /// Stores `color` at the visible pixel (x, y) and changes nothing else.
    pub fn write_pixel(&mut self, x: usize, y: usize, color: u32)
        requires
            old(self)@.visible(x as int, y as int),
        ensures
            final(self)@ == old(self)@.with_pixel(x as int, y as int, color),
        no_unwind
    {
        proof {
            use_type_invariant(&*self);
            self@.lemma_index_bound(x as int, y as int);
            assert(0 <= y * self.stride) by (nonlinear_arith);
        }
        let index: usize = y * self.stride + x;
        self.pixels[index] = color;
    }

    /// Sets every visible pixel to `color`; padding keeps its contents.
    pub fn clear(&mut self, color: u32)
        ensures
            final(self)@ == old(self)@.cleared(color),
        no_unwind
    {
        proof {
            use_type_invariant(&*self);
        }
        let width: usize = self.width;
        let height: usize = self.height;
        let ghost before = self@;
        let mut y: usize = 0;
        while y < height
            invariant
                y <= height,
                before.wf(),
                width == before.width,
                height == before.height,
                self@.same_shape(before),
                forall|px: int, py: int|
                    before.stored(px, py) ==> #[trigger] self@.pixel_at(px, py) == if py < y && px
                        < width {
                        color
                    } else {
                        before.pixel_at(px, py)
                    },
            decreases height - y,
        {
            let mut x: usize = 0;
            while x < width
                invariant
                    x <= width,
                    y < height,
                    before.wf(),
                    width == before.width,
                    height == before.height,
                    self@.same_shape(before),
                    forall|px: int, py: int|
                        before.stored(px, py) ==> #[trigger] self@.pixel_at(px, py) == if (py < y
                            || (py == y && px < x)) && px < width {
                            color
                        } else {
                            before.pixel_at(px, py)
                        },
                decreases width - x,
            {
                let ghost prev = self@;
                self.write_pixel(x, y, color);
                proof {
                    prev.lemma_with_pixel(x as int, y as int, color);
                }
                x += 1;
            }
            y += 1;
        }
        proof {
            let expected = before.cleared(color);
            assert forall|i: int| 0 <= i < before.pixels.len() implies self@.pixels[i]
                == expected.pixels[i] by {
                before.lemma_position(i);
                assert(self@.pixel_at(before.column_of(i), before.row_of(i)) == self@.pixels[i]);
            }
            assert(self@.pixels =~= expected.pixels);
        }
    }

    /// Paints the glyph drawn for `c` into the 8x16 cell whose top left pixel
    /// is (x, y): its own glyph when `c` is printable, the placeholder's
    /// otherwise.
    pub fn write_char(&mut self, x: u32, y: u32, fg_color: u32, bg_color: u32, c: u8, font: &Font)
        requires
            x + 8 <= old(self)@.width,
            y + 16 <= old(self)@.height,
        ensures
            final(self)@ == old(self)@.with_glyph(
                font@,
                x as int,
                y as int,
                fg_color,
                bg_color,
                c,
            ),
        no_unwind
    {
        proof {
            use_type_invariant(&*self);
        }
        let ghost before = self@;
        let ghost x0 = x as int;
        let ghost y0 = y as int;
        let mut row: usize = 0;
        while row < 16
            invariant
                row <= 16,
                before.wf(),
                x0 == x,
                y0 == y,
                x0 + 8 <= before.width,
                y0 + 16 <= before.height,
                before.width <= u32::MAX,
                before.height <= u32::MAX,
                self@.same_shape(before),
                forall|px: int, py: int|
                    before.stored(px, py) ==> #[trigger] self@.pixel_at(px, py) == if
                        Surface::in_cell(x0, y0, px, py) && py < y0 + row {
                        if glyph_pixel(font@, c, py - y0, px - x0) {
                            fg_color
                        } else {
                            bg_color
                        }
                    } else {
                        before.pixel_at(px, py)
                    },
            decreases 16 - row,
        {
            let line: u8 = font.glyph_row(c, row);
            let mut col: u8 = 0;
            while col < 8
                invariant
                    col <= 8,
                    row < 16,
                    before.wf(),
                    x0 == x,
                    y0 == y,
                    x0 + 8 <= before.width,
                    y0 + 16 <= before.height,
                    before.width <= u32::MAX,
                    before.height <= u32::MAX,
                    self@.same_shape(before),
                    line == glyph_bitmap(font@, c)[row as int],
                    forall|px: int, py: int|
                        before.stored(px, py) ==> #[trigger] self@.pixel_at(px, py) == if
                            Surface::in_cell(x0, y0, px, py) && (py < y0 + row || (py == y0 + row
                            && px < x0 + col)) {
                            if glyph_pixel(font@, c, py - y0, px - x0) {
                                fg_color
                            } else {
                                bg_color
                            }
                        } else {
                            before.pixel_at(px, py)
                        },
                decreases 8 - col,
            {
                let pixel_x: usize = x as usize + col as usize;
                let pixel_y: usize = y as usize + row;
                let color: u32 = if row_pixel(line, col) {
                    fg_color
                } else {
                    bg_color
                };
                let ghost prev = self@;
                self.write_pixel(pixel_x, pixel_y, color);
                proof {
                    prev.lemma_with_pixel(pixel_x as int, pixel_y as int, color);
                }
                col += 1;
            }
            row += 1;
        }
        proof {
            let expected = before.with_glyph(font@, x0, y0, fg_color, bg_color, c);
            assert forall|i: int| 0 <= i < before.pixels.len() implies self@.pixels[i]
                == expected.pixels[i] by {
                before.lemma_position(i);
                assert(self@.pixel_at(before.column_of(i), before.row_of(i)) == self@.pixels[i]);
            }
            assert(self@.pixels =~= expected.pixels);
        }
    }

    /// Paints a text from (x, y) on, one cell per byte: a newline goes to
    /// column `x` of the next line, a cell that does not fit the line goes
    /// there too, and painting stops for good at the first cell that does not
    /// fit the surface.
    pub fn write_string(
        &mut self,
        x: u32,
        y: u32,
        fg_color: u32,
        bg_color: u32,
        s: &str,
        font: &Font,
    )
        ensures
            final(self)@ == old(self)@.with_text(
                font@,
                x as int,
                y as int,
                fg_color,
                bg_color,
                text_bytes(s@),
            ),
    {
        broadcast use vstd::string::group_string_axioms;

        proof {
            use_type_invariant(&*self);
        }
        if x as u64 + 8 > self.width as u64 {
            return ;
        }
        let width: u64 = self.width as u64;
        let height: u64 = self.height as u64;
        let ghost start = Pen { x: x as int, y: y as int, stopped: false, surface: self@ };
        let mut curr_x: u32 = x;
        let mut curr_y: u32 = y;
        let mut live: bool = y as u64 + 16 <= height;
        for c in it: s.chars()
            invariant
                it.seq() == s@,
                width == start.surface.width,
                height == start.surface.height,
                width <= u32::MAX,
                height <= u32::MAX,
                start.surface.wf(),
                self@.same_shape(start.surface),
                x + 8 <= width,
                ({
                    let pen = start.after_bytes(
                        font@,
                        x as int,
                        fg_color,
                        bg_color,
                        text_bytes(s@.subrange(0, it.index())),
                    );
                    &&& pen.surface == self@
                    &&& live ==> pen.x == curr_x && pen.y == curr_y && !pen.spent() && curr_x
                        <= width
                    &&& !live ==> pen.spent()
                }),
        {
            let b: u8 = byte_of(c);
            let ghost pen = start.after_bytes(
                font@,
                x as int,
                fg_color,
                bg_color,
                text_bytes(s@.subrange(0, it.index())),
            );
            proof {
                let done = s@.subrange(0, it.index());
                let next = s@.subrange(0, it.index() + 1);
                assert(text_bytes(next).drop_last() == text_bytes(done));
                assert(text_bytes(next).last() == b);
                pen.surface.lemma_glyph_pixels(
                    font@,
                    pen.x,
                    pen.y,
                    fg_color,
                    bg_color,
                    b,
                );
                pen.surface.lemma_glyph_pixels(
                    font@,
                    x as int,
                    pen.y + 16,
                    fg_color,
                    bg_color,
                    b,
                );
                if !live {
                    pen.lemma_spent_pen_paints_nothing(font@, x as int, fg_color, bg_color, b);
                }
            }
            if live {
                if b == 10 {
                    curr_x = x;
                    if curr_y as u64 + 32 > height {
                        live = false;
                    } else {
                        curr_y = curr_y + 16;
                    }
                } else {
                    let mut fits: bool = true;
                    if curr_x as u64 + 8 > width {
                        curr_x = x;
                        if curr_y as u64 + 32 > height {
                            fits = false;
                        } else {
                            curr_y = curr_y + 16;
                        }
                    }
                    if fits {
                        self.write_char(curr_x, curr_y, fg_color, bg_color, b, font);
                        curr_x = curr_x + 8;
                    } else {
                        live = false;
                    }
                }
            }
        }
        assert(s@.subrange(0, s@.len() as int) == s@);
    }
}

/// Builds the surface for a loader-supplied geometry and clears it to black.
pub fn init(width: u64, height: u64, pitch: u64, bpp: u16) -> (writer: Option<FramebufferWriter>)
    ensures
        writer is Some <==> usable_geometry(width, height, pitch, bpp),
        writer matches Some(w) ==> {
            &&& w@.wf()
            &&& w@.width == width
            &&& w@.height == height
            &&& w@.stride * PIXEL_BYTES == pitch
            &&& forall|i: int| 0 <= i < w@.pixels.len() ==> w@.pixels[i] == 0
        },
{
    match FramebufferWriter::new(width, height, pitch, bpp) {
        Some(mut w) => {
            proof {
                use_type_invariant(&w);
                let before = w@;
                before.lemma_cleared_pixels(0);
                assert forall|i: int| 0 <= i < before.pixels.len() implies before.cleared(
                    0,
                ).pixels[i] == 0 by {}
            }
            clear_screen(&mut w, 0x00000000);
            Some(w)
        },
        None => None,
    }
}

/// Sets every visible pixel of the surface to `color`.
pub fn clear_screen(writer: &mut FramebufferWriter, color: u32)
    ensures
        final(writer)@ == old(writer)@.cleared(color),
{
    writer.clear(color);
}

/// Paints a text from the top left corner of the surface on.
pub fn write_string(
    writer: &mut FramebufferWriter,
    s: &str,
    fg_color: u32,
    bg_color: u32,
    font: &Font,
)
    ensures
        final(writer)@ == old(writer)@.with_text(font@, 0, 0, fg_color, bg_color, text_bytes(s@)),
{
    writer.write_string(0, 0, fg_color, bg_color, s, font);
}

} // verus!
