//! Bitmap font: one 8x16 glyph per byte code, sixteen row bytes per glyph.

use vstd::prelude::*;

verus! {

/// Width of a glyph cell in pixels.
pub const FONT_WIDTH: u32 = 8;

/// Height of a glyph cell in pixels.
pub const FONT_HEIGHT: u32 = 16;

/// Number of bytes that one glyph occupies in the font table.
pub const GLYPH_BYTES: usize = 16;

/// First byte code that has a glyph of its own.
pub const FIRST_PRINTABLE: u8 = 32;

/// Last byte code that has a glyph of its own.
pub const LAST_PRINTABLE: u8 = 126;

/// Byte code whose glyph stands in for everything that is not printable.
pub const PLACEHOLDER: u8 = 63;

/// Smallest table that holds a glyph for every printable byte code.
pub const MIN_FONT_BYTES: usize = 2032;

/// The byte code whose glyph is drawn for `c`.
pub open spec fn glyph_code(c: u8) -> u8 {
    if FIRST_PRINTABLE <= c <= LAST_PRINTABLE {
        c
    } else {
        PLACEHOLDER
    }
}

/// The sixteen row bytes drawn for `c`, top row first.
pub open spec fn glyph_bitmap(table: Seq<u8>, c: u8) -> Seq<u8> {
    table.subrange(glyph_code(c) * 16, glyph_code(c) * 16 + 16)
}

/// Whether column `k` (0 is leftmost) of a row byte is foreground.
pub open spec fn bit_set(row: u8, k: u8) -> bool {
    row & (0x80u8 >> k) != 0
}

/// Whether the pixel in row `r`, column `k` of the glyph drawn for `c` is foreground.
pub open spec fn glyph_pixel(table: Seq<u8>, c: u8, r: int, k: int) -> bool {
    bit_set(glyph_bitmap(table, c)[r], k as u8)
}

/// A validated glyph table.
pub struct Font {
    table: Vec<u8>,
}

impl View for Font {
    type V = Seq<u8>;

    closed spec fn view(&self) -> Seq<u8> {
        self.table@
    }
}

impl Font {
    /// Holds of every font: the table has room for all printable glyphs.
    #[verifier::type_invariant]
    pub open spec fn wf(self) -> bool {
        self@.len() >= MIN_FONT_BYTES
    }

    /// Accepts a table exactly when it is long enough to hold the glyphs of
    /// all byte codes up to the last printable one.
    pub fn new(table: Vec<u8>) -> (font: Option<Font>)
        ensures
            font is Some <==> table@.len() >= MIN_FONT_BYTES,
            font matches Some(f) ==> f@ == table@,
    {
        if table.len() >= MIN_FONT_BYTES {
            Some(Font { table })
        } else {
            None
        }
    }

    /// Row `r` of the glyph drawn for `c`.
    pub fn glyph_row(&self, c: u8, r: usize) -> (row: u8)
        requires
            r < 16,
        ensures
            row == glyph_bitmap(self@, c)[r as int],
        no_unwind
    {
        proof {
            use_type_invariant(self);
        }
        let code: u8 = if c < FIRST_PRINTABLE || c > LAST_PRINTABLE {
            PLACEHOLDER
        } else {
            c
        };
        self.table[code as usize * GLYPH_BYTES + r]
    }

    /// The sixteen row bytes drawn for `c`: its own glyph when `c` is
    /// printable, the placeholder's otherwise.
    pub fn glyph(&self, c: u8) -> (rows: Vec<u8>)
        ensures
            rows@ == glyph_bitmap(self@, c),
    {
        proof {
            use_type_invariant(self);
        }
        let mut rows: Vec<u8> = Vec::new();
        let mut r: usize = 0;
        while r < 16
            invariant
                r <= 16,
                rows@ == glyph_bitmap(self@, c).subrange(0, r as int),
                self@.len() >= MIN_FONT_BYTES,
            decreases 16 - r,
        {
            let row: u8 = self.glyph_row(c, r);
            rows.push(row);
            r += 1;
        }
        rows
    }
}

/// Tests one pixel of a glyph row.
pub fn row_pixel(row: u8, k: u8) -> (on: bool)
    requires
        k < 8,
    ensures
        on == bit_set(row, k),
    no_unwind
{
    row & (0x80u8 >> k) != 0
}

/// A printable byte code is drawn with the glyph stored under its own code;
/// every other byte code is drawn with the glyph stored under the placeholder.
pub proof fn glyph_selection(table: Seq<u8>, c: u8)
    ensures
        FIRST_PRINTABLE <= c <= LAST_PRINTABLE ==> glyph_bitmap(table, c) == table.subrange(
            c * 16,
            c * 16 + 16,
        ),
        !(FIRST_PRINTABLE <= c <= LAST_PRINTABLE) ==> glyph_bitmap(table, c) == table.subrange(
            PLACEHOLDER * 16,
            PLACEHOLDER * 16 + 16,
        ),
{
}

} // verus!
