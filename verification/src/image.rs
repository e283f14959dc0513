//! Pixel-buffer reshaping for decoded images.
//!
//! Decoding and resizing of image files happen outside this crate; what
//! arrives here is a row-major grayscale buffer, which the matrix wants in
//! column-major order (each column's 34 values contiguous, columns left to
//! right).

use vstd::prelude::*;

verus! {

/// The index of row `row`, column `col` in a column-major buffer of
/// 34-value columns.
pub open spec fn column_major_index(col: int, row: int) -> int {
    col * 34 + row
}

/// The index of row `row`, column `col` in a row-major buffer of rows of
/// `width` values.
pub open spec fn row_major_index(row: int, col: int, width: int) -> int {
    row * width + col
}

/// Reorders a row-major `width` x 34 grayscale buffer into the
/// column-major layout the matrix protocol stages: the value of row `row`,
/// column `col` ends up at index `col * 34 + row`.
#[verifier::loop_isolation(false)]
pub fn to_column_major(frame: Vec<u8>, width: usize, height: usize) -> (r: Vec<u8>)
    requires
        height == 34,
        frame@.len() == width * height,
    ensures
        r@.len() == width * 34,
        forall|col: int, row: int|
            0 <= col < width && 0 <= row < 34 ==> r@[#[trigger] column_major_index(col, row)]
                == frame@[row_major_index(row, col, width as int)],
{
    let mut r: Vec<u8> = Vec::new();
    let total: usize = frame.len();
    r.resize(total, 0);
    assert(r@.len() == width * 34);
    let mut index: usize = 0;
    while index < frame.len()
        invariant
            index <= frame@.len(),
            r@.len() == width * 34,
            forall|col: int, row: int|
                0 <= col < width && 0 <= row < 34 && row * width + col < index ==> r@[#[trigger] column_major_index(col, row)]
                    == frame@[row_major_index(row, col, width as int)],
        decreases frame@.len() - index,
    {
        let col: usize = index % width;
        let row: usize = index / width;
        proof {
            assert(0 <= col < width && 0 <= row < 34 && row * width + col == index) by (
            nonlinear_arith)
                requires
                    col == index as int % width as int,
                    row == index as int / width as int,
                    width > 0,
                    index < frame@.len(),
                    frame@.len() == width * 34,
            ;
            assert(col * 34 + row < width * 34) by (nonlinear_arith)
                requires
                    0 <= col < width,
                    0 <= row < 34,
            ;
        }
        let val: u8 = frame[index];
        let dest: usize = col * 34 + row;
        r[dest] = val;
        index = index + 1;
        proof {
            assert forall|c: int, rw: int|
                0 <= c < width && 0 <= rw < 34 && rw * width + c < index implies r@[#[trigger] column_major_index(c, rw)]
                == frame@[row_major_index(rw, c, width as int)] by {
                if rw * width + c == index - 1 {
                    assert(c == col && rw == row) by (nonlinear_arith)
                        requires
                            0 <= c < width,
                            0 <= rw < 34,
                            rw * width + c == index - 1,
                            0 <= col < width,
                            0 <= row < 34,
                            row * width + col == index - 1,
                    ;
                } else {
                    assert(c * 34 + rw != col * 34 + row) by (nonlinear_arith)
                        requires
                            0 <= c < width,
                            0 <= rw < 34,
                            0 <= col < width,
                            0 <= row < 34,
                            rw * width + c != row * width + col,
                    ;
                }
            }
        }
    }
    proof {
        assert forall|col: int, row: int|
            0 <= col < width && 0 <= row < 34 implies r@[#[trigger] column_major_index(col, row)]
            == frame@[row_major_index(row, col, width as int)] by {
            assert(row * width + col < width * 34) by (nonlinear_arith)
                requires
                    0 <= col < width,
                    0 <= row < 34,
            ;
        }
    }
    r
}

} // verus!
