//! Text as bytes: one byte per character, as the console draws it.

use vstd::prelude::*;

verus! {

/// The byte written for a character: its code when that fits a byte, and a
/// byte outside the printable range otherwise.
pub open spec fn char_byte(c: char) -> u8 {
    if c as u32 <= 0xFF {
        c as u8
    } else {
        0u8
    }
}

/// Computes the byte written for a character.
pub fn byte_of(c: char) -> (b: u8)
    ensures
        b == char_byte(c),
{
    if c as u32 <= 0xFF {
        c as u8
    } else {
        0u8
    }
}

/// The bytes written for a text.
pub open spec fn text_bytes(text: Seq<char>) -> Seq<u8> {
    text.map_values(|c: char| char_byte(c))
}

} // verus!
