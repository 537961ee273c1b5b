//! The built-in hexadecimal font: sixteen glyphs of five rows each, one byte
//! per row, the left pixel in the high bit.

use vstd::prelude::*;

verus! {

/// Address of the first glyph in memory.
pub const FONT_BASE: u16 = 0x050;

/// Bytes per glyph.
pub const GLYPH_BYTES: u16 = 5;

/// Bytes in the whole font.
pub const FONT_BYTES: usize = 80;

/// The font, glyph `0` first.
pub open spec fn font() -> Seq<u8> {
    seq![
        0xF0u8, 0x90, 0x90, 0x90, 0xF0,
        0x20, 0x60, 0x20, 0x20, 0x70,
        0xF0, 0x10, 0xF0, 0x80, 0xF0,
        0xF0, 0x10, 0xF0, 0x10, 0xF0,
        0x90, 0x90, 0xF0, 0x10, 0x10,
        0xF0, 0x80, 0xF0, 0x10, 0xF0,
        0xF0, 0x80, 0xF0, 0x90, 0xF0,
        0xF0, 0x10, 0x20, 0x40, 0x40,
        0xF0, 0x90, 0xF0, 0x90, 0xF0,
        0xF0, 0x90, 0xF0, 0x10, 0xF0,
        0xF0, 0x90, 0xF0, 0x90, 0x90,
        0xE0, 0x90, 0xE0, 0x90, 0xE0,
        0xF0, 0x80, 0x80, 0x80, 0xF0,
        0xE0, 0x90, 0x90, 0x90, 0xE0,
        0xF0, 0x80, 0xF0, 0x80, 0xF0,
        0xF0, 0x80, 0xF0, 0x80, 0x80,
    ]
}

/// Address of the glyph for the hexadecimal digit held in the low nibble of
/// `value`.
pub open spec fn glyph_address_of(value: u8) -> int {
    FONT_BASE + GLYPH_BYTES * (value % 16)
}

/// The font as bytes.
pub fn font_table() -> (table: [u8; 80])
    ensures
        table@ == font(),
{
    let table: [u8; 80] = [
        0xF0, 0x90, 0x90, 0x90, 0xF0,
        0x20, 0x60, 0x20, 0x20, 0x70,
        0xF0, 0x10, 0xF0, 0x80, 0xF0,
        0xF0, 0x10, 0xF0, 0x10, 0xF0,
        0x90, 0x90, 0xF0, 0x10, 0x10,
        0xF0, 0x80, 0xF0, 0x10, 0xF0,
        0xF0, 0x80, 0xF0, 0x90, 0xF0,
        0xF0, 0x10, 0x20, 0x40, 0x40,
        0xF0, 0x90, 0xF0, 0x90, 0xF0,
        0xF0, 0x90, 0xF0, 0x10, 0xF0,
        0xF0, 0x90, 0xF0, 0x90, 0x90,
        0xE0, 0x90, 0xE0, 0x90, 0xE0,
        0xF0, 0x80, 0x80, 0x80, 0xF0,
        0xE0, 0x90, 0x90, 0x90, 0xE0,
        0xF0, 0x80, 0xF0, 0x80, 0xF0,
        0xF0, 0x80, 0xF0, 0x80, 0x80,
    ];
    table
}

/// Address of the glyph for the hexadecimal digit held in the low nibble of
/// `value`.
pub fn glyph_address(value: u8) -> (address: u16)
    ensures
        address == glyph_address_of(value),
        FONT_BASE <= address,
        address + GLYPH_BYTES <= FONT_BASE + FONT_BYTES,
{
    assert(value & 0x0F == value % 16) by (bit_vector);
    FONT_BASE + GLYPH_BYTES * ((value & 0x0F) as u16)
}

} // verus!
