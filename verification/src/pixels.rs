//! Pictures as rows of bytes.

use vstd::prelude::*;

verus! {

/// Bytes per pixel.
pub const BYTES_PER_PIXEL: usize = 4;

/// Where a byte of a row stands in a buffer whose rows are this far apart.
pub open spec fn at_row(row: int, stride: int, i: int) -> int {
    row * stride + i
}

/// The rows of a picture are in a buffer whose rows are `stride` bytes apart, and
/// what the buffer holds besides is as before.
pub open spec fn rows_in(
    pixels: Seq<u8>,
    width_bytes: int,
    rows: int,
    stride: int,
    before: Seq<u8>,
    after: Seq<u8>,
) -> bool {
    &&& after.len() == before.len()
    &&& forall|row: int, i: int|
        0 <= row < rows && 0 <= i < width_bytes ==> after[#[trigger] at_row(row, stride, i)]
            == pixels[at_row(row, width_bytes, i)]
    &&& forall|row: int, i: int|
        row >= 0 && 0 <= i < stride && at_row(row, stride, i) < after.len() && (row >= rows || i
            >= width_bytes) ==> after[#[trigger] at_row(row, stride, i)] == before[at_row(
            row,
            stride,
            i,
        )]
}

proof fn lemma_rows_apart(r1: int, i1: int, r2: int, i2: int, stride: int)
    requires
        0 <= i1 < stride,
        0 <= i2 < stride,
        at_row(r1, stride, i1) == at_row(r2, stride, i2),
    ensures
        r1 == r2,
        i1 == i2,
{
    assert(r1 == r2) by (nonlinear_arith)
        requires
            0 <= i1 < stride,
            0 <= i2 < stride,
            r1 * stride + i1 == r2 * stride + i2,
    ;
}

proof fn lemma_row_fits(row: int, rows: int, stride: int, i: int)
    requires
        0 <= row < rows,
        0 <= i < stride,
    ensures
        0 <= at_row(row, stride, i) < rows * stride,
        row * stride + stride <= rows * stride,
{
    assert(row * stride + stride <= rows * stride) by (nonlinear_arith)
        requires
            0 <= row < rows,
            0 <= stride,
    ;
    assert(0 <= row * stride) by (nonlinear_arith)
        requires
            0 <= row,
            0 <= stride,
    ;
}

/// Copy the rows of a picture into a buffer whose rows are `stride` bytes apart.
pub fn copy_rows(pixels: &Vec<u8>, width: usize, height: usize, stride: usize, data: &mut Vec<u8>)
    requires
        width * BYTES_PER_PIXEL <= stride,
        pixels@.len() >= width * BYTES_PER_PIXEL * height,
        old(data)@.len() >= stride * height,
    ensures
        rows_in(
            pixels@,
            width * BYTES_PER_PIXEL,
            height as int,
            stride as int,
            old(data)@,
            final(data)@,
        ),
{
    let ghost before = data@;
    if width == 0 {
        return;
    }
    let line: usize = width * BYTES_PER_PIXEL;
    let taken: usize = pixels.len();
    let room: usize = data.len();
    let mut row: usize = 0;
    let mut from: usize = 0;
    let mut to: usize = 0;
    assert(height * line == line * height) by (nonlinear_arith);
    assert(height * stride == stride * height) by (nonlinear_arith);
    while row < height
        invariant
            row <= height,
            line == width * BYTES_PER_PIXEL,
            0 < line <= stride,
            pixels@.len() == taken >= height * line,
            data@.len() == room >= height * stride,
            from == row * line,
            to == row * stride,
            rows_in(pixels@, line as int, row as int, stride as int, before, data@),
        decreases height - row,
    {
        proof {
            lemma_row_fits(row as int, height as int, line as int, 0);
            lemma_row_fits(row as int, height as int, stride as int, 0);
        }
        let mut i: usize = 0;
        while i < line
            invariant
                i <= line,
                row < height,
                0 < line <= stride,
                pixels@.len() == taken >= height * line,
                data@.len() == room >= height * stride,
                data@.len() == before.len(),
                from == row * line,
                to == row * stride,
                from + line <= pixels@.len(),
                to + stride <= data@.len(),
                forall|r: int, k: int|
                    0 <= r < row && 0 <= k < line ==> data@[#[trigger] at_row(
                        r,
                        stride as int,
                        k,
                    )] == pixels@[at_row(r, line as int, k)],
                forall|k: int|
                    0 <= k < i ==> data@[#[trigger] at_row(row as int, stride as int, k)]
                        == pixels@[at_row(row as int, line as int, k)],
                forall|r: int, k: int|
                    r >= 0 && 0 <= k < stride && at_row(r, stride as int, k) < data@.len() && (r
                        > row || (r == row && k >= i) || k >= line) ==> data@[#[trigger] at_row(
                        r,
                        stride as int,
                        k,
                    )] == before[at_row(r, stride as int, k)],
            decreases line - i,
        {
            let ghost was = data@;
            let ghost place = at_row(row as int, stride as int, i as int);
            assert(place == to + i);
            assert(at_row(row as int, line as int, i as int) == from + i);
            data.set(to + i, pixels[from + i]);
            proof {
                assert forall|r: int, k: int| 0 <= r < row && 0 <= k < line implies data@[
                #[trigger] at_row(r, stride as int, k)] == pixels@[at_row(r, line as int, k)] by {
                    lemma_row_fits(r, height as int, stride as int, k);
                    if at_row(r, stride as int, k) == place {
                        lemma_rows_apart(r, k, row as int, i as int, stride as int);
                    }
                }
                assert forall|k: int| 0 <= k < i + 1 implies data@[#[trigger] at_row(
                    row as int,
                    stride as int,
                    k,
                )] == pixels@[at_row(row as int, line as int, k)] by {
                    if k < i {
                        assert(at_row(row as int, stride as int, k) != place);
                    }
                }
                assert forall|r: int, k: int|
                    r >= 0 && 0 <= k < stride && at_row(r, stride as int, k) < data@.len() && (r
                        > row || (r == row && k >= i + 1) || k >= line) implies data@[
                #[trigger] at_row(r, stride as int, k)] == before[at_row(r, stride as int, k)] by {
                    if at_row(r, stride as int, k) == place {
                        lemma_rows_apart(r, k, row as int, i as int, stride as int);
                    }
                    assert(at_row(r, stride as int, k) >= 0) by (nonlinear_arith)
                        requires
                            r >= 0,
                            k >= 0,
                            stride >= 0,
                            at_row(r, stride as int, k) == r * stride + k,
                    ;
                }
            }
            i = i + 1;
        }
        proof {
            assert forall|r: int, k: int| 0 <= r < row + 1 && 0 <= k < line implies data@[
            #[trigger] at_row(r, stride as int, k)] == pixels@[at_row(r, line as int, k)] by {
                if r == row {
                    assert(data@[at_row(row as int, stride as int, k)] == pixels@[at_row(
                        row as int,
                        line as int,
                        k,
                    )]);
                }
            }
            assert((row + 1) * line == row * line + line) by (nonlinear_arith);
            assert((row + 1) * stride == row * stride + stride) by (nonlinear_arith);
        }
        from = from + line;
        to = to + stride;
        row = row + 1;
    }
}

/// Where the byte stands that takes a place when red and blue trade theirs.
pub open spec fn traded(i: int) -> int {
    if i % 4 == 0 {
        i + 2
    } else if i % 4 == 2 {
        i - 2
    } else {
        i
    }
}

/// Trading red and blue twice gives the picture back.
pub proof fn law_trading_twice_restores(i: int)
    ensures
        traded(traded(i)) == i,
{
}

/// The first bytes of a picture, so many of them, with red and blue traded.
fn trade_red_and_blue(rgba: &Vec<u8>, count: usize) -> (bgra: Vec<u8>)
    requires
        count % 4 == 0,
        count <= rgba@.len(),
    ensures
        bgra@.len() == count,
        forall|i: int| 0 <= i < bgra@.len() ==> #[trigger] bgra@[i] == rgba@[traded(i)],
{
    let mut bgra: Vec<u8> = Vec::new();
    let mut i: usize = 0;
    while i < count
        invariant
            i <= count <= rgba@.len(),
            i % 4 == 0,
            count % 4 == 0,
            bgra@.len() == i,
            forall|k: int| 0 <= k < i ==> #[trigger] bgra@[k] == rgba@[traded(k)],
        decreases count - i,
    {
        bgra.push(rgba[i + 2]);
        bgra.push(rgba[i + 1]);
        bgra.push(rgba[i]);
        bgra.push(rgba[i + 3]);
        i = i + 4;
    }
    bgra
}

/// The picture as a surface takes it: red and blue traded, each row followed by
/// zeros up to the stride.
pub fn to_surface(rgba: &Vec<u8>, width: usize, height: usize, stride: usize) -> (data: Vec<u8>)
    requires
        width * BYTES_PER_PIXEL <= stride,
        rgba@.len() >= width * BYTES_PER_PIXEL * height,
        stride * height <= usize::MAX,
    ensures
        data@.len() == stride * height,
        forall|row: int, i: int|
            0 <= row < height && 0 <= i < width * BYTES_PER_PIXEL ==> data@[#[trigger] at_row(
                row,
                stride as int,
                i,
            )] == rgba@[at_row(row, width * BYTES_PER_PIXEL, traded(i))],
        forall|row: int, i: int|
            0 <= row < height && width * BYTES_PER_PIXEL <= i < stride ==> data@[
            #[trigger] at_row(row, stride as int, i)] == 0,
{
    assert(width * 4 * height == 4 * (width * height)) by (nonlinear_arith);
    let given: usize = rgba.len();
    assert(width * BYTES_PER_PIXEL * height <= given);
    assert(0 <= width * BYTES_PER_PIXEL * height) by (nonlinear_arith);
    let line: usize = width * BYTES_PER_PIXEL;
    let count: usize = line * height;
    let bgra = trade_red_and_blue(rgba, count);
    let mut data: Vec<u8> = Vec::new();
    let total: usize = stride * height;
    while data.len() < total
        invariant
            data@.len() <= total,
            forall|k: int| 0 <= k < data@.len() ==> #[trigger] data@[k] == 0,
        decreases total - data@.len(),
    {
        data.push(0);
    }
    let ghost empty = data@;
    copy_rows(&bgra, width, height, stride, &mut data);
    proof {
        let line = width * BYTES_PER_PIXEL as int;
        assert forall|row: int, i: int| 0 <= row < height && 0 <= i < line implies data@[
        #[trigger] at_row(row, stride as int, i)] == rgba@[at_row(row, line, traded(i))] by {
            lemma_row_fits(row, height as int, line, i);
            assert(height * line == line * height) by (nonlinear_arith);
            let k = at_row(row, line, i);
            assert(bgra@[k] == rgba@[traded(k)]);
            assert(row * line == 4 * (row * width)) by (nonlinear_arith)
                requires
                    line == width * 4,
            ;
            assert(traded(k) == at_row(row, line, traded(i)));
        }
        assert forall|row: int, i: int| 0 <= row < height && line <= i < stride implies data@[
        #[trigger] at_row(row, stride as int, i)] == 0 by {
            lemma_row_fits(row, height as int, stride as int, i);
            assert(height * stride == stride * height) by (nonlinear_arith);
            assert(empty[at_row(row, stride as int, i)] == 0);
        }
    }
    data
}

/// Red and blue trade places within a pixel; green and the alpha stay, and so does the
/// pixel.
pub proof fn law_red_and_blue_trade_within_a_pixel(pixel: int)
    ensures
        traded(4 * pixel) == 4 * pixel + 2,
        traded(4 * pixel + 1) == 4 * pixel + 1,
        traded(4 * pixel + 2) == 4 * pixel,
        traded(4 * pixel + 3) == 4 * pixel + 3,
{
}

/// Rows that were copied are where they belong, byte for byte, and nothing else of the
/// buffer changes: neither what is between the rows nor what is behind them.
pub proof fn law_copied_rows_are_where_they_belong(
    pixels: Seq<u8>,
    width_bytes: int,
    rows: int,
    stride: int,
    before: Seq<u8>,
    after: Seq<u8>,
    row: int,
    i: int,
)
    requires
        rows_in(pixels, width_bytes, rows, stride, before, after),
        0 <= row,
        0 <= i < stride,
        row * stride + i < after.len(),
    ensures
        after.len() == before.len(),
        row < rows && i < width_bytes ==> after[row * stride + i] == pixels[row * width_bytes + i],
        row >= rows || i >= width_bytes ==> after[row * stride + i] == before[row * stride + i],
{
    assert(at_row(row, stride, i) == row * stride + i);
}

/// A row begins so many strides behind the first, and its bytes follow one another.
pub proof fn law_rows_are_a_stride_apart(row: int, stride: int, i: int)
    ensures
        at_row(row, stride, i + 1) == at_row(row, stride, i) + 1,
        at_row(row + 1, stride, i) == at_row(row, stride, i) + stride,
        at_row(0, stride, i) == i,
{
    assert((row + 1) * stride == row * stride + stride) by (nonlinear_arith);
    assert(0 * stride == 0) by (nonlinear_arith);
}

} // verus!
