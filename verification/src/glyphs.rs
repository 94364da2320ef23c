//! The digit font: a fixed 5-column by 7-row pixel mask per decimal digit.

use vstd::prelude::*;

verus! {

/// The pixel mask of the glyph for digit `d`, packed row-major into the
/// low 35 bits of a `u64`: bit 34 is row 0, column 0 (top left), bit 0
/// is row 6, column 4 (bottom right). Each group of five bits below is
/// one row, top row first, leftmost column as the highest bit of the
/// group, so the literals read like the glyphs themselves.
pub open spec fn glyph_bits(d: int) -> u64 {
    if d == 0 {
        0b01110_10001_10001_10001_10001_10001_01110u64
    } else if d == 1 {
        0b00100_01100_00100_00100_00100_00100_01110u64
    } else if d == 2 {
        0b01110_10001_00001_00110_01000_10000_11111u64
    } else if d == 3 {
        0b11110_00001_00010_00110_00001_10001_01110u64
    } else if d == 4 {
        0b00010_00110_01010_10010_11111_00010_00010u64
    } else if d == 5 {
        0b11111_10000_11110_00001_00001_10001_01110u64
    } else if d == 6 {
        0b00110_01000_10000_11110_10001_10001_01110u64
    } else if d == 7 {
        0b11111_00001_00010_00100_00100_00100_00100u64
    } else if d == 8 {
        0b01110_10001_10001_01110_10001_10001_01110u64
    } else {
        0b01110_10001_10001_01111_00001_00100_01100u64
    }
}

/// Whether the glyph for digit `d` has its pixel set at `row` (0 to 6,
/// top to bottom) and `col` (0 to 4, left to right).
pub open spec fn glyph_on(d: int, row: int, col: int) -> bool {
    ((glyph_bits(d) >> ((34 - (5 * row + col)) as u64)) & 1u64) == 1u64
}

/// The packed pixel mask of the glyph for digit `d`.
pub fn glyph_mask(d: u8) -> (bits: u64)
    requires
        d < 10,
    ensures
        bits == glyph_bits(d as int),
{
    if d == 0 {
        0b01110_10001_10001_10001_10001_10001_01110u64
    } else if d == 1 {
        0b00100_01100_00100_00100_00100_00100_01110u64
    } else if d == 2 {
        0b01110_10001_00001_00110_01000_10000_11111u64
    } else if d == 3 {
        0b11110_00001_00010_00110_00001_10001_01110u64
    } else if d == 4 {
        0b00010_00110_01010_10010_11111_00010_00010u64
    } else if d == 5 {
        0b11111_10000_11110_00001_00001_10001_01110u64
    } else if d == 6 {
        0b00110_01000_10000_11110_10001_10001_01110u64
    } else if d == 7 {
        0b11111_00001_00010_00100_00100_00100_00100u64
    } else if d == 8 {
        0b01110_10001_10001_01110_10001_10001_01110u64
    } else {
        0b01110_10001_10001_01111_00001_00100_01100u64
    }
}

/// Whether the glyph for digit `d` shows a pixel at `row`, `col`.
pub fn glyph_pixel(d: u8, row: u8, col: u8) -> (on: bool)
    requires
        d < 10,
        row < 7,
        col < 5,
    ensures
        on == glyph_on(d as int, row as int, col as int),
{
    let bits: u64 = glyph_mask(d);
    let shift: u64 = 34 - (5 * (row as u64) + (col as u64));
    ((bits >> shift) & 1) == 1
}

} // verus!
