//! The boot logo of a cartridge header as a matrix of dots.

use vstd::prelude::*;
use bit_range::BitRange;

verus! {

/// Bytes of the logo in a cartridge header.
pub const LOGO_SIZE: usize = 0x30;

/// Bit `index` of `byte`, counted from the most significant bit.
pub open spec fn bit_from_top(byte: u8, index: u32) -> bool {
    (byte >> ((7 - index) as u8)) & 1 == 1
}

/// Whether the dot in row `y` and column `x` of the logo is set.
///
/// The upper four rows come from the first 24 bytes, the lower four from the
/// last 24. Within a half, two bytes make a column of four dots by four dots:
/// the first byte its upper two rows, the second its lower two; in a byte the
/// high nibble is the upper row, and the most significant bit is leftmost.
pub open spec fn logo_dot(logo: Seq<u8>, y: int, x: int) -> bool {
    let byte = logo[24 * (y / 4) + 2 * (x / 4) + (y % 4) / 2];
    bit_from_top(byte, (x % 4 + 4 * (y % 2)) as u32)
}

/// Bit `index` of `byte`, counted from the most significant bit.
///
/// Calls `BitRange::get_bit` of the crate `bit_range` on the one-byte slice
/// `[byte]`. For an index below 8 it shifts the byte right by 7 less the
/// index and tests the lowest bit; for a larger index it panics.
#[verifier::external_body]
fn bit_of(byte: u8, index: u32) -> (r: bool)
    requires
        index < 8,
    ensures
        r == bit_from_top(byte, index),
{
    [byte].get_bit(index)
}

/// Fills four rows of the matrix, from row `top` on, from the 24 bytes of
/// the logo that start at `start`.
fn from_chunk(logo: &[u8], start: usize, matrix: &mut [[bool; 48]; 8], top: usize)
    requires
        logo@.len() >= LOGO_SIZE,
        (start == 0 && top == 0) || (start == 24 && top == 4),
    ensures
        forall|y: int, x: int|
            top <= y < top + 4 && 0 <= x < 48 ==> #[trigger] final(matrix)[y][x] == logo_dot(logo@, y, x),
        forall|y: int| 0 <= y < 8 && !(top <= y < top + 4) ==> #[trigger] final(matrix)[y] == old(matrix)[y],
{
    let mut row: usize = 0;
    while row < 2
        invariant
            row <= 2,
            logo@.len() >= LOGO_SIZE,
            (start == 0 && top == 0) || (start == 24 && top == 4),
            forall|y: int, x: int|
                top <= y < top + 2 * row && 0 <= x < 48 ==> #[trigger] matrix[y][x] == logo_dot(logo@, y, x),
            forall|y: int| 0 <= y < 8 && !(top <= y < top + 4) ==> #[trigger] matrix[y] == old(matrix)[y],
        decreases 2 - row,
    {
        let mut upper: [bool; 48] = [false; 48];
        let mut lower: [bool; 48] = [false; 48];
        let mut col: usize = 0;
        while col < 12
            invariant
                col <= 12,
                row < 2,
                logo@.len() >= LOGO_SIZE,
                (start == 0 && top == 0) || (start == 24 && top == 4),
                forall|x: int| 0 <= x < 4 * col ==> #[trigger] upper[x] == logo_dot(logo@, top + 2 * row, x),
                forall|x: int| 0 <= x < 4 * col ==> #[trigger] lower[x] == logo_dot(logo@, top + 2 * row + 1, x),
            decreases 12 - col,
        {
            let byte = logo[start + 2 * col + row];
            let mut bit_index: usize = 0;
            while bit_index < 4
                invariant
                    bit_index <= 4,
                    col < 12,
                    row < 2,
                    logo@.len() >= LOGO_SIZE,
                    (start == 0 && top == 0) || (start == 24 && top == 4),
                    byte == logo@[start + 2 * col + row],
                    forall|x: int|
                        0 <= x < 4 * col + bit_index ==> #[trigger] upper[x] == logo_dot(logo@, top + 2 * row, x),
                    forall|x: int|
                        0 <= x < 4 * col + bit_index ==> #[trigger] lower[x] == logo_dot(
                            logo@,
                            top + 2 * row + 1,
                            x,
                        ),
                decreases 4 - bit_index,
            {
                upper[4 * col + bit_index] = bit_of(byte, bit_index as u32);
                lower[4 * col + bit_index] = bit_of(byte, (bit_index + 4) as u32);
                bit_index += 1;
            }
            col += 1;
        }
        matrix[top + 2 * row] = upper;
        matrix[top + 2 * row + 1] = lower;
        row += 1;
    }
}

/// The logo as eight rows of 48 dots.
pub fn matrix_from_logo(logo: &[u8]) -> (matrix: [[bool; 48]; 8])
    requires
        logo@.len() >= LOGO_SIZE,
    ensures
        forall|y: int, x: int| 0 <= y < 8 && 0 <= x < 48 ==> #[trigger] matrix[y][x] == logo_dot(logo@, y, x),
{
    let mut matrix = [[false; 48]; 8];
    from_chunk(logo, 0, &mut matrix, 0);
    from_chunk(logo, 24, &mut matrix, 4);
    matrix
}

} // verus!
