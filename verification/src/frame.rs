//! The 5x5 frame buffer that the display is drawn from.
use vstd::prelude::*;
use crate::mapper::{Pixel, SIDE};

verus! {

/// A 5x5 grid of pixels, each lit or unlit. `rows[r][c]` is the pixel in
/// row `r`, counted from the top, and column `c`, counted from the left;
/// it is lit where the value is not zero.
#[derive(Clone, Copy, Debug)]
pub struct FrameBuffer {
    pub rows: [[u8; 5]; 5],
}

/// Whether `(column, row)` names a cell of the matrix.
pub open spec fn in_grid(column: int, row: int) -> bool {
    0 <= column < SIDE && 0 <= row < SIDE
}

impl FrameBuffer {
    /// The value held for the pixel at `(column, row)`.
    pub open spec fn cell(&self, column: int, row: int) -> u8 {
        self.rows[row][column]
    }

    /// Whether the pixel at `(column, row)` is lit.
    pub open spec fn lit(&self, column: int, row: int) -> bool {
        self.cell(column, row) != 0
    }

    /// No pixel is lit.
    pub open spec fn blank(&self) -> bool {
        forall|c: int, r: int| in_grid(c, r) ==> #[trigger] self.cell(c, r) == 0
    }

    /// The pixel at `(column, row)` is lit and no other is.
    pub open spec fn shows_only(&self, column: int, row: int) -> bool {
        forall|c: int, r: int|
            in_grid(c, r) ==> (#[trigger] self.cell(c, r) != 0 <==> (c == column && r == row))
    }

    /// A frame buffer with no pixel lit.
    pub fn new() -> (fb: FrameBuffer)
        ensures
            fb.blank(),
    {
        FrameBuffer { rows: [[0u8; 5]; 5] }
    }

    /// Whether the pixel `px` is lit.
    pub fn is_lit(&self, px: Pixel) -> (on: bool)
        requires
            px.column < SIDE,
            px.row < SIDE,
        ensures
            on == self.lit(px.column as int, px.row as int),
    {
        self.rows[px.row][px.column] != 0
    }

    /// Light the pixel `px` and leave every other as it is.
    pub fn light(&mut self, px: Pixel)
        requires
            px.column < SIDE,
            px.row < SIDE,
        ensures
            final(self).cell(px.column as int, px.row as int) == 1,
            forall|c: int, r: int|
                in_grid(c, r) && !(c == px.column && r == px.row) ==> #[trigger] final(self).cell(
                    c,
                    r,
                ) == old(self).cell(c, r),
    {
        self.rows[px.row][px.column] = 1u8;
    }

    /// Put out the pixel `px` and leave every other as it is.
    pub fn clear(&mut self, px: Pixel)
        requires
            px.column < SIDE,
            px.row < SIDE,
        ensures
            final(self).cell(px.column as int, px.row as int) == 0,
            forall|c: int, r: int|
                in_grid(c, r) && !(c == px.column && r == px.row) ==> #[trigger] final(self).cell(
                    c,
                    r,
                ) == old(self).cell(c, r),
    {
        self.rows[px.row][px.column] = 0u8;
    }

    /// Whether no pixel is lit.
    pub fn is_blank(&self) -> (dark: bool)
        ensures
            dark == self.blank(),
    {
        let mut r: usize = 0;
        while r < SIDE
            invariant
                r <= SIDE,
                forall|c: int, k: int| 0 <= c < SIDE && 0 <= k < r ==> #[trigger] self.cell(c, k) == 0,
            decreases SIDE - r,
        {
            let mut c: usize = 0;
            while c < SIDE
                invariant
                    r < SIDE,
                    c <= SIDE,
                    forall|j: int| 0 <= j < c ==> #[trigger] self.cell(j, r as int) == 0,
                decreases SIDE - c,
            {
                if self.rows[r][c] != 0 {
                    assert(in_grid(c as int, r as int) && self.cell(c as int, r as int) != 0);
                    return false;
                }
                c += 1;
            }
            r += 1;
        }
        true
    }
}

} // verus!
