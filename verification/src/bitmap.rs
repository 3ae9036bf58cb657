//! The per-key bitmap wire format.
//!
//! A full-keyboard upload is a 21-column by 6-row grid of cells, one cell
//! per key position, four bytes per cell in red, green, blue, alpha order,
//! each byte 0 to 255.  The wire payload is the grid flattened row-major
//! from the top-left key, so it is exactly `21 * 6 * 4` bytes long.  A cell
//! with alpha 0 tells the collaborator to leave that key unchanged.

use vstd::prelude::*;

verus! {

/// Columns of the key grid.
pub const BITMAP_WIDTH: i32 = 21;

/// Rows of the key grid.
pub const BITMAP_HEIGHT: i32 = 6;

/// Bytes per key cell: red, green, blue, alpha.
pub const BITMAP_BYTES_PER_KEY: i32 = 4;

/// Size of the flattened payload in bytes.
pub const BITMAP_SIZE: i32 = 21 * 6 * 4;

/// The flattened wire payload of a grid: row-major, four bytes per cell.
pub open spec fn flat_bitmap(grid: [[[u8; 4]; 21]; 6]) -> Seq<u8> {
    Seq::new(504, |i: int| grid@[i / 84]@[(i % 84) / 4]@[i % 4])
}

/// Flattens a 21-by-6 grid of four-byte cells into the wire payload.
///
/// The payload is exactly `21 * 6 * 4` bytes; byte `row * 84 + col * 4 + b`
/// of it is byte `b` of the cell at the given row and column.
pub fn flatten_bitmap(grid: &[[[u8; 4]; 21]; 6]) -> (payload: Vec<u8>)
    ensures
        payload@ == flat_bitmap(*grid),
        payload@.len() == 504,
{
    let mut payload: Vec<u8> = Vec::new();
    let mut row: usize = 0;
    while row < 6
        invariant
            row <= 6,
            payload@.len() == 84 * row,
            forall|i: int|
                0 <= i < payload@.len() ==> payload@[i] == flat_bitmap(*grid)[i],
        decreases 6 - row,
    {
        let mut col: usize = 0;
        while col < 21
            invariant
                row < 6,
                col <= 21,
                payload@.len() == 84 * row + 4 * col,
                forall|i: int|
                    0 <= i < payload@.len() ==> payload@[i] == flat_bitmap(*grid)[i],
            decreases 21 - col,
        {
            let mut b: usize = 0;
            while b < 4
                invariant
                    row < 6,
                    col < 21,
                    b <= 4,
                    payload@.len() == 84 * row + 4 * col + b,
                    forall|i: int|
                        0 <= i < payload@.len() ==> payload@[i] == flat_bitmap(*grid)[i],
                decreases 4 - b,
            {
                let byte = grid[row][col][b];
                assert(byte == flat_bitmap(*grid)[84 * row + 4 * col + b]);
                payload.push(byte);
                b = b + 1;
            }
            col = col + 1;
        }
        row = row + 1;
    }
    assert(payload@ =~= flat_bitmap(*grid));
    payload
}

/// A grid whose cells are all zero — in particular, every alpha is zero, so
/// no key is to be changed — flattens to a payload of exactly `21 * 6 * 4`
/// zero bytes.
pub proof fn lemma_zero_grid_zero_payload(grid: [[[u8; 4]; 21]; 6])
    requires
        forall|r: int, c: int, b: int|
            0 <= r < 6 && 0 <= c < 21 && 0 <= b < 4 ==> grid@[r]@[c]@[b] == 0,
    ensures
        flat_bitmap(grid).len() == 504,
        forall|i: int| 0 <= i < 504 ==> flat_bitmap(grid)[i] == 0,
{
}

} // verus!
