//! Frame-capture arithmetic.
//!
//! Reading a rendered frame back from the GPU goes through a staging
//! buffer whose rows must be aligned to a fixed boundary. This module pins
//! down the padded row size and the exact compaction that strips the
//! padding again; the application performs the copies and the readback
//! around it.

use vstd::prelude::*;
use vstd::arithmetic::div_mod::{lemma_fundamental_div_mod, lemma_mod_multiples_basic};

verus! {

/// Staging-buffer rows are aligned to this many bytes.
pub const ROW_ALIGN: u32 = 256;

/// Largest frame width whose aligned row size still fits in 32 bits.
pub const MAX_CAPTURE_WIDTH: u32 = 1073741760;

/// Bytes per staging-buffer row for a frame `width` pixels wide: four
/// bytes per pixel, rounded up to the row alignment.
pub open spec fn spec_padded_row_bytes(width: u32) -> int {
    4 * width + (256 - (4 * width) % 256) % 256
}

/// Position of byte `col` of row `row` in a buffer whose rows are
/// `stride` bytes apart.
pub open spec fn row_major(row: int, stride: int, col: int) -> int {
    row * stride + col
}

/// Captures rendered frames through an aligned staging buffer.
pub struct GaussianExporter;

impl GaussianExporter {
    /// The aligned row size: the smallest multiple of the row alignment
    /// that holds one row of pixels.
    pub fn padded_bytes_per_row(width: u32) -> (r: u32)
        requires
            width <= MAX_CAPTURE_WIDTH,
        ensures
            r == spec_padded_row_bytes(width),
            r % ROW_ALIGN == 0,
            4 * width <= r < 4 * width + ROW_ALIGN,
    {
        let unpadded = width * 4;
        let padding = (256 - unpadded % 256) % 256;
        let r = unpadded + padding;
        proof {
            lemma_fundamental_div_mod(unpadded as int, 256);
            if unpadded % 256 == 0 {
                lemma_mod_multiples_basic((unpadded as int) / 256, 256);
            } else {
                assert(r as int == ((unpadded as int) / 256 + 1) * 256);
                lemma_mod_multiples_basic((unpadded as int) / 256 + 1, 256);
            }
        }
        r
    }

    /// Drop the alignment padding from a captured frame: of every padded
    /// row, keep exactly the leading pixel bytes, in row order.
    #[verifier::loop_isolation(false)]
    pub fn strip_row_padding(padded: &Vec<u8>, width: u32, height: u32) -> (r: Vec<u8>)
        requires
            width <= MAX_CAPTURE_WIDTH,
            padded@.len() == spec_padded_row_bytes(width) * height,
        ensures
            r@.len() == 4 * width * height,
            forall|row: int, col: int|
                0 <= row < height && 0 <= col < 4 * width ==> #[trigger] r@[row_major(
                    row,
                    4 * width,
                    col,
                )] == padded@[row_major(row, spec_padded_row_bytes(width), col)],
    {
        let row_bytes = width * 4;
        let padded_bytes = Self::padded_bytes_per_row(width);
        let total = padded.len();
        let ghost s = spec_padded_row_bytes(width);
        let ghost w4 = 4 * width as int;
        proof {
            assert(s * height == height * s) by (nonlinear_arith);
            assert(4 * width * height == height * w4) by (nonlinear_arith)
                requires w4 == 4 * width;
        }
        let mut r: Vec<u8> = Vec::new();
        let mut row: u32 = 0;
        while row < height
            invariant
                row <= height,
                total == padded@.len(),
                r@.len() == row * w4,
                forall|r2: int, col: int|
                    0 <= r2 < row && 0 <= col < w4 ==> #[trigger] r@[row_major(r2, w4, col)]
                        == padded@[row_major(r2, s, col)],
            decreases height - row,
        {
            proof {
                assert((row + 1) * s <= height * s) by (nonlinear_arith)
                    requires row as int + 1 <= height && s >= 0;
                assert((row + 1) * s == row * s + s) by (nonlinear_arith);
                assert((row + 1) * w4 == row * w4 + w4) by (nonlinear_arith);
            }
            let base: usize = (row as usize) * (padded_bytes as usize);
            let mut col: u32 = 0;
            while col < row_bytes
                invariant
                    col <= row_bytes,
                    r@.len() == row * w4 + col,
                    forall|r2: int, c2: int|
                        0 <= r2 < row && 0 <= c2 < w4 ==> #[trigger] r@[row_major(r2, w4, c2)]
                            == padded@[row_major(r2, s, c2)],
                    forall|c2: int|
                        0 <= c2 < col ==> #[trigger] r@[row_major(row as int, w4, c2)]
                            == padded@[row_major(row as int, s, c2)],
                decreases row_bytes - col,
            {
                r.push(padded[base + col as usize]);
                proof {
                    assert forall|r2: int, c2: int|
                        0 <= r2 < row && 0 <= c2 < w4 implies #[trigger] r@[row_major(r2, w4, c2)]
                        == padded@[row_major(r2, s, c2)] by {
                        assert(r2 * w4 + c2 < row * w4) by (nonlinear_arith)
                            requires 0 <= r2 && r2 + 1 <= row && 0 <= c2 && c2 < w4;
                    };
                }
                col = col + 1;
            }
            row = row + 1;
        }
        proof {
            assert(r@.len() == height * w4);
        }
        r
    }
}

} // verus!
