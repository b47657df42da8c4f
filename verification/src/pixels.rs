use vstd::prelude::*;

verus! {

/// Whether `data` holds `height` rows of `row_pixels` four-byte pixels each,
/// of which the first `width` are kept when rows are cropped.
pub open spec fn crop_applies(data_len: int, row_pixels: int, height: int, width: int) -> bool {
    &&& 0 <= width <= row_pixels
    &&& 0 <= height
    &&& data_len == 4 * (row_pixels * height)
}

/// `r` holds, row after row, the first `4 * width` bytes of each of the
/// `height` rows of `data`, whose rows are `4 * row_pixels` bytes long.
pub open spec fn is_cropped(r: Seq<u8>, data: Seq<u8>, row_pixels: int, height: int, width: int) -> bool {
    &&& r.len() == 4 * (width * height)
    &&& forall|row: int, col: int|
        0 <= row < height && 0 <= col < 4 * width ==> #[trigger] r[row * (4 * width) + col] == data[row * (4
            * row_pixels) + col]
}

proof fn lemma_row_offsets(row: int, col: int, height: int, row_bytes: int, stride: int)
    requires
        0 <= row < height,
        0 <= col < row_bytes,
        row_bytes <= stride,
    ensures
        row * stride + col < height * stride,
        row * row_bytes + col < (row + 1) * row_bytes,
        (row + 1) * row_bytes == row * row_bytes + row_bytes,
        row * row_bytes >= 0,
        row * stride >= 0,
        height * row_bytes <= height * stride,
{
    assert(row * stride + col < height * stride) by (nonlinear_arith)
        requires
            0 <= row < height,
            0 <= col < row_bytes,
            row_bytes <= stride,
    ;
    assert((row + 1) * row_bytes == row * row_bytes + row_bytes) by (nonlinear_arith);
    assert(row * row_bytes >= 0) by (nonlinear_arith)
        requires
            0 <= row,
            0 <= col < row_bytes,
    ;
    assert(row * stride >= 0) by (nonlinear_arith)
        requires
            0 <= row,
            0 <= col < row_bytes <= stride,
    ;
    assert(height * row_bytes <= height * stride) by (nonlinear_arith)
        requires
            0 <= row < height,
            0 <= col < row_bytes <= stride,
    ;
}

/// Crops packed BGRA rows to the frame width: `data` holds `height` rows of
/// `cur_width` pixels, and each row is cut down to its first `width` pixels.
/// Data of any other shape (a length that is not `4 * cur_width * height`, a
/// negative size, or `width` above `cur_width`) is handed back unchanged.
pub fn get_cropped_data(data: Vec<u8>, cur_width: i32, height: i32, width: i32) -> (r: Vec<u8>)
    ensures
        if crop_applies(data@.len() as int, cur_width as int, height as int, width as int) {
            is_cropped(r@, data@, cur_width as int, height as int, width as int)
        } else {
            r@ == data@
        },
{
    if cur_width < 0 || height < 0 || width < 0 || width > cur_width {
        return data;
    }
    assert((cur_width as int) * (height as int) <= 0x7fff_ffff * 0x7fff_ffff) by (nonlinear_arith)
        requires
            0 <= cur_width <= 0x7fff_ffff,
            0 <= height <= 0x7fff_ffff,
    ;
    let expected: u128 = 4 * ((cur_width as u128) * (height as u128));
    if data.len() as u128 != expected {
        return data;
    }
    if height == 0 {
        proof {
            assert(4 * ((width as int) * (height as int)) == 0);
        }
        return Vec::new();
    }
    assert(4 * (cur_width as int) <= data@.len()) by (nonlinear_arith)
        requires
            data@.len() == 4 * ((cur_width as int) * (height as int)),
            height >= 1,
            cur_width >= 0,
    ;
    let stride: usize = 4 * (cur_width as usize);
    let row_bytes: usize = 4 * (width as usize);
    let rows: usize = height as usize;
    assert(data@.len() == stride * rows) by (nonlinear_arith)
        requires
            data@.len() == 4 * ((cur_width as int) * (height as int)),
            stride == 4 * (cur_width as int),
            rows == height,
    ;
    let total = data.len();
    let mut out: Vec<u8> = Vec::new();
    let mut row: usize = 0;
    while row < rows
        invariant
            row <= rows,
            row_bytes <= stride,
            data@.len() == stride * rows,
            total == data@.len(),
            out@.len() == row * row_bytes,
            forall|rr: int, cc: int|
                0 <= rr < row && 0 <= cc < row_bytes ==> #[trigger] out@[rr * row_bytes + cc] == data@[rr
                    * stride + cc],
        decreases rows - row,
    {
        let mut col: usize = 0;
        let ghost start = out@.len();
        proof {
            if row_bytes > 0 {
                lemma_row_offsets(row as int, 0, rows as int, row_bytes as int, stride as int);
            } else {
                assert(row * row_bytes == 0) by (nonlinear_arith)
                    requires
                        row_bytes == 0,
                ;
                assert(row * stride >= 0) by (nonlinear_arith)
                    requires
                        row >= 0,
                        stride >= 0,
                ;
            }
        }
        while col < row_bytes
            invariant
                row < rows,
                col <= row_bytes,
                row_bytes <= stride,
                data@.len() == stride * rows,
                total == data@.len(),
                start == row * row_bytes,
                out@.len() == start + col,
                forall|rr: int, cc: int|
                    0 <= rr < row && 0 <= cc < row_bytes ==> #[trigger] out@[rr * row_bytes + cc] == data@[rr
                        * stride + cc],
                forall|cc: int| 0 <= cc < col ==> #[trigger] out@[start + cc] == data@[row * stride + cc],
            decreases row_bytes - col,
        {
            proof {
                lemma_row_offsets(row as int, col as int, rows as int, row_bytes as int, stride as int);
            }
            let index = row * stride + col;
            let ghost before = out@;
            out.push(data[index]);
            assert forall|rr: int, cc: int|
                0 <= rr < row && 0 <= cc < row_bytes implies #[trigger] out@[rr * row_bytes + cc] == data@[rr
                * stride + cc] by {
                lemma_row_offsets(rr, cc, row as int, row_bytes as int, stride as int);
                assert(rr * row_bytes + cc < row * row_bytes) by (nonlinear_arith)
                    requires
                        rr + 1 <= row,
                        0 <= cc < row_bytes,
                        rr * row_bytes + cc < (rr + 1) * row_bytes,
                ;
                assert(out@[rr * row_bytes + cc] == before[rr * row_bytes + cc]);
            }
            col = col + 1;
        }
        assert forall|rr: int, cc: int|
            0 <= rr < row + 1 && 0 <= cc < row_bytes implies #[trigger] out@[rr * row_bytes + cc] == data@[rr
            * stride + cc] by {
            if rr == row {
                assert(out@[start + cc] == data@[row * stride + cc]);
            }
        }
        proof {
            lemma_row_offsets(row as int, 0, rows as int, row_bytes as int + 1, stride as int + 1);
            assert((row + 1) * row_bytes == row * row_bytes + row_bytes) by (nonlinear_arith);
        }
        row = row + 1;
    }
    assert(rows * row_bytes == 4 * ((width as int) * (height as int))) by (nonlinear_arith)
        requires
            rows == height,
            row_bytes == 4 * (width as int),
    ;
    out
}

/// `r` holds, pixel after pixel, three bytes of each whole four-byte pixel
/// of `data`: the bytes at positions `first`, 1 and `third` of the pixel.
pub open spec fn is_three_byte_pixels(r: Seq<u8>, data: Seq<u8>, first: int, third: int) -> bool {
    &&& r.len() == (data.len() / 4) * 3
    &&& forall|i: int|
        0 <= i < data.len() / 4 ==> {
            &&& #[trigger] r[3 * i] == data[4 * i + first]
            &&& r[3 * i + 1] == data[4 * i + 1]
            &&& r[3 * i + 2] == data[4 * i + third]
        }
}

fn three_byte_pixels(data: &Vec<u8>, first: usize, third: usize) -> (r: Vec<u8>)
    requires
        first < 4,
        third < 4,
    ensures
        is_three_byte_pixels(r@, data@, first as int, third as int),
{
    let pixels = data.len() / 4;
    let mut out: Vec<u8> = Vec::new();
    let mut i: usize = 0;
    while i < pixels
        invariant
            pixels == data@.len() / 4,
            data@.len() <= usize::MAX,
            first < 4,
            third < 4,
            i <= pixels,
            out@.len() == 3 * i,
            forall|j: int|
                0 <= j < i ==> {
                    &&& #[trigger] out@[3 * j] == data@[4 * j + first]
                    &&& out@[3 * j + 1] == data@[4 * j + 1]
                    &&& out@[3 * j + 2] == data@[4 * j + third]
                },
        decreases pixels - i,
    {
        assert(4 * i + 3 < data@.len());
        let ghost before = out@;
        out.push(data[4 * i + first]);
        out.push(data[4 * i + 1]);
        out.push(data[4 * i + third]);
        assert forall|j: int| 0 <= j < i + 1 implies {
            &&& #[trigger] out@[3 * j] == data@[4 * j + first]
            &&& out@[3 * j + 1] == data@[4 * j + 1]
            &&& out@[3 * j + 2] == data@[4 * j + third]
        } by {
            if j < i {
                assert(out@[3 * j] == before[3 * j]);
                assert(out@[3 * j + 1] == before[3 * j + 1]);
                assert(out@[3 * j + 2] == before[3 * j + 2]);
            }
        }
        i = i + 1;
    }
    out
}

/// BGRA pixels without their alpha byte: blue, green, red, three bytes a
/// pixel. Bytes after the last whole pixel are dropped.
pub fn remove_alpha_channel(frame_data: Vec<u8>) -> (r: Vec<u8>)
    ensures
        is_three_byte_pixels(r@, frame_data@, 0, 2),
{
    three_byte_pixels(&frame_data, 0, 2)
}

/// BGRA pixels as RGB: red, green, blue, three bytes a pixel. Bytes after the
/// last whole pixel are dropped.
pub fn convert_bgra_to_rgb(frame_data: Vec<u8>) -> (r: Vec<u8>)
    ensures
        is_three_byte_pixels(r@, frame_data@, 2, 0),
{
    three_byte_pixels(&frame_data, 2, 0)
}

} // verus!
