//! Geometry and pixels of a captured frame.

use vstd::prelude::*;

verus! {

/// Bytes of an RGBA8 frame.
pub open spec fn frame_bytes(width: nat, height: nat) -> nat {
    width * height * 4
}

/// The four bytes of one pixel, in memory order.
pub ghost struct Pixel {
    pub b0: u8,
    pub b1: u8,
    pub b2: u8,
    pub b3: u8,
}

/// The pixel in line `row` and column `col` of a picture whose lines start
/// `stride` bytes apart.
pub open spec fn pixel_at(bytes: Seq<u8>, stride: int, row: int, col: int) -> Pixel {
    let at = row * stride + col * 4;
    Pixel { b0: bytes[at], b1: bytes[at + 1], b2: bytes[at + 2], b3: bytes[at + 3] }
}

/// What becomes of the fourth byte of a pixel.
#[derive(Debug, Clone, Copy, PartialEq, Eq, Structural)]
pub enum Alpha {
    /// The source has no alpha: the result is fully opaque.
    Opaque,
    /// The source's alpha is kept.
    Keep,
}

/// A BGRA (or BGRx) pixel in RGBA order.
pub open spec fn to_rgba(pixel: Pixel, alpha: Alpha) -> Pixel {
    Pixel {
        b0: pixel.b2,
        b1: pixel.b1,
        b2: pixel.b0,
        b3: if alpha == Alpha::Opaque {
            255
        } else {
            pixel.b3
        },
    }
}

/// `dst` is, without padding, the RGBA form of the BGRA picture that `src`
/// holds in lines `src_stride` bytes apart.
pub open spec fn is_rgba_of(
    dst: Seq<u8>,
    src: Seq<u8>,
    src_stride: int,
    width: nat,
    height: nat,
    alpha: Alpha,
) -> bool {
    let dst_stride = width * 4;
    &&& dst.len() == frame_bytes(width, height)
    &&& forall|row: int, col: int|
        0 <= row < height && 0 <= col < width ==> #[trigger] pixel_at(dst, dst_stride as int, row, col)
            == to_rgba(pixel_at(src, src_stride, row, col), alpha)
}

/// `len` bytes hold `height` lines of `width` pixels that start `stride`
/// bytes apart; the last line needs no padding.
pub open spec fn holds_lines(len: nat, stride: nat, width: nat, height: nat) -> bool {
    width > 0 && height > 0 ==> (height - 1) * stride + width * 4 <= len
}

/// Bytes of an RGBA8 frame, or `None` where `usize` cannot hold them.
pub fn checked_frame_len(width: u32, height: u32) -> (len: Option<usize>)
    ensures
        len == (if frame_bytes(width as nat, height as nat) <= usize::MAX {
            Some(frame_bytes(width as nat, height as nat) as usize)
        } else {
            None
        }),
{
    assert(0 <= width * height) by (nonlinear_arith);
    match (width as usize).checked_mul(height as usize) {
        Some(pixels) => pixels.checked_mul(4),
        None => None,
    }
}

/// Bytes of an RGBA8 frame, or the largest `usize` where it cannot hold them.
pub fn saturating_frame_len(width: u32, height: u32) -> (len: usize)
    ensures
        len == (if frame_bytes(width as nat, height as nat) <= usize::MAX {
            frame_bytes(width as nat, height as nat)
        } else {
            usize::MAX as nat
        }),
{
    match checked_frame_len(width, height) {
        Some(len) => len,
        None => usize::MAX,
    }
}

/// The offset of a pixel of an unpadded picture, and that no two pixels share
/// a byte.
proof fn lemma_offsets(width: int, height: int, row: int, col: int)
    requires
        0 <= row < height,
        0 <= col < width,
    ensures
        0 <= row * (width * 4),
        row * (width * 4) + col * 4 + 4 <= width * height * 4,
        forall|r: int, c: int|
            #![trigger r * (width * 4), c * 4]
            0 <= r < height && 0 <= c < width && (r != row || c != col) ==> {
                ||| r * (width * 4) + c * 4 + 4 <= row * (width * 4) + col * 4
                ||| row * (width * 4) + col * 4 + 4 <= r * (width * 4) + c * 4
            },
{
    assert(0 <= row * (width * 4)) by (nonlinear_arith)
        requires
            0 <= row,
            0 < width,
    ;
    assert(row * (width * 4) + width * 4 <= width * height * 4) by (nonlinear_arith)
        requires
            0 <= row < height,
            0 < width,
    ;
    assert forall|r: int, c: int|
        #![trigger r * (width * 4), c * 4]
        0 <= r < height && 0 <= c < width && (r != row || c != col) implies {
            ||| r * (width * 4) + c * 4 + 4 <= row * (width * 4) + col * 4
            ||| row * (width * 4) + col * 4 + 4 <= r * (width * 4) + c * 4
        } by {
        if r < row {
            assert(r * (width * 4) + width * 4 <= row * (width * 4)) by (nonlinear_arith)
                requires
                    r + 1 <= row,
                    0 < width,
            ;
        } else if row < r {
            assert(row * (width * 4) + width * 4 <= r * (width * 4)) by (nonlinear_arith)
                requires
                    row + 1 <= r,
                    0 < width,
            ;
        }
    }
}

/// Converts a BGRA picture, line by line, to an unpadded RGBA one.
pub fn convert_rows(
    src: &[u8],
    src_stride: usize,
    dst: &mut [u8],
    width: usize,
    height: usize,
    alpha: Alpha,
)
    requires
        holds_lines(src@.len(), src_stride as nat, width as nat, height as nat),
        old(dst)@.len() == frame_bytes(width as nat, height as nat),
    ensures
        is_rgba_of(
            final(dst)@,
            src@,
            src_stride as int,
            width as nat,
            height as nat,
            alpha,
        ),
{
    let mut row: usize = 0;
    let mut src_row: usize = 0;
    let mut dst_at: usize = 0;
    if width == 0 {
        return;
    }
    while row < height
        invariant
            0 < width,
            row <= height,
            holds_lines(src@.len(), src_stride as nat, width as nat, height as nat),
            dst@.len() == frame_bytes(width as nat, height as nat),
            row < height ==> src_row == row * src_stride,
            dst_at == row * (width * 4),
            forall|r: int, c: int|
                0 <= r < row && 0 <= c < width ==> #[trigger] pixel_at(dst@, width * 4, r, c)
                    == to_rgba(pixel_at(src@, src_stride as int, r, c), alpha),
        decreases height - row,
    {
        proof {
            assert(row * src_stride + width * 4 <= src@.len()) by (nonlinear_arith)
                requires
                    row <= height - 1,
                    (height - 1) * src_stride + width * 4 <= src@.len(),
            ;
        }
        let mut col: usize = 0;
        let mut src_at: usize = src_row;
        while col < width
            invariant
                0 < width,
                col <= width,
                row < height,
                src_row == row * src_stride,
                src_row + width * 4 <= src@.len(),
                src_at == src_row + col * 4,
                dst@.len() == frame_bytes(width as nat, height as nat),
                dst_at == row * (width * 4) + col * 4,
                forall|r: int, c: int|
                    0 <= r < row && 0 <= c < width || r == row && 0 <= c < col
                        ==> #[trigger] pixel_at(dst@, width * 4, r, c) == to_rgba(
                        pixel_at(src@, src_stride as int, r, c),
                        alpha,
                    ),
            decreases width - col,
        {
            let ghost before = dst@;
            assert(src@.len() == src.len());
            proof {
                lemma_offsets(width as int, height as int, row as int, col as int);
            }
            dst[dst_at] = src[src_at + 2];
            dst[dst_at + 1] = src[src_at + 1];
            dst[dst_at + 2] = src[src_at];
            dst[dst_at + 3] = match alpha {
                Alpha::Opaque => 255,
                Alpha::Keep => src[src_at + 3],
            };
            assert forall|r: int, c: int|
                0 <= r < row && 0 <= c < width || r == row && 0 <= c < col
                    + 1 implies #[trigger] pixel_at(dst@, width * 4, r, c) == to_rgba(
                pixel_at(src@, src_stride as int, r, c),
                alpha,
            ) by {
                if r != row || c != col {
                    lemma_offsets(width as int, height as int, r, c);
                    let at = r * (width * 4) + c * 4;
                    assert(at + 4 <= dst_at || dst_at + 4 <= at);
                    assert(pixel_at(dst@, width * 4, r, c) == pixel_at(before, width * 4, r, c));
                }
            }
            col = col + 1;
            src_at = src_at + 4;
            dst_at = dst_at + 4;
        }
        row = row + 1;
        proof {
            assert((row - 1) * (width * 4) + width * 4 == row * (width * 4)) by (nonlinear_arith);
            assert((row - 1) * src_stride + src_stride == row * src_stride) by (nonlinear_arith);
        }
        if row < height {
            assert(src@.len() == src.len());
            proof {
                assert(row * src_stride <= (height - 1) * src_stride) by (nonlinear_arith)
                    requires
                        row <= height - 1,
                ;
            }
            src_row = src_row + src_stride;
        }
    }
}

/// Copies a frame into a buffer of the same size.
pub fn copy_frame(src: &[u8], dst: &mut [u8])
    requires
        old(dst)@.len() == src@.len(),
    ensures
        final(dst)@ == src@,
{
    let mut i: usize = 0;
    while i < src.len()
        invariant
            i <= src@.len(),
            dst@.len() == src@.len(),
            forall|j: int| 0 <= j < i ==> dst@[j] == src@[j],
        decreases src@.len() - i,
    {
        dst[i] = src[i];
        i = i + 1;
    }
    assert(dst@ =~= src@);
}

/// Every byte of an unpadded picture belongs to one of its pixels.
proof fn lemma_byte_has_pixel(width: int, height: int, i: int) -> (at: (int, int, int))
    requires
        0 <= i < width * height * 4,
        0 <= width,
        0 <= height,
    ensures
        0 <= at.0 < height,
        0 <= at.1 < width,
        0 <= at.2 < 4,
        i == at.0 * (width * 4) + at.1 * 4 + at.2,
{
    let line = width * 4;
    assert(0 < width) by (nonlinear_arith)
        requires
            0 <= i < width * height * 4,
            0 <= width,
    ;
    let row = i / line;
    let rest = i % line;
    assert(i == row * line + rest && 0 <= rest < line && 0 <= row) by (nonlinear_arith)
        requires
            0 <= i,
            0 < line,
            row == i / line,
            rest == i % line,
    ;
    assert(row < height) by (nonlinear_arith)
        requires
            row * line <= i,
            i < width * height * 4,
            line == width * 4,
            0 < width,
    ;
    (row, rest / 4, rest % 4)
}

/// A conversion fixes every byte of the frame: two frames converted from
/// pictures with the same pixels are the same, whatever the lines' padding
/// and wherever the lines start.
pub proof fn law_padding_does_not_matter(
    dst1: Seq<u8>,
    src1: Seq<u8>,
    stride1: int,
    dst2: Seq<u8>,
    src2: Seq<u8>,
    stride2: int,
    width: nat,
    height: nat,
    alpha: Alpha,
)
    requires
        is_rgba_of(dst1, src1, stride1, width, height, alpha),
        is_rgba_of(dst2, src2, stride2, width, height, alpha),
        forall|row: int, col: int|
            0 <= row < height && 0 <= col < width ==> #[trigger] pixel_at(src1, stride1, row, col)
                == pixel_at(src2, stride2, row, col),
    ensures
        dst1 == dst2,
{
    assert forall|i: int| 0 <= i < dst1.len() implies dst1[i] == dst2[i] by {
        let (row, col, k) = lemma_byte_has_pixel(width as int, height as int, i);
        let stride = (width * 4) as int;
        assert(pixel_at(src1, stride1, row, col) == pixel_at(src2, stride2, row, col));
        assert(pixel_at(dst1, stride, row, col) == pixel_at(dst2, stride, row, col));
    }
    assert(dst1 =~= dst2);
}

/// A frame converted as opaque has full alpha in every pixel.
pub proof fn law_opaque_frames_are_opaque(
    dst: Seq<u8>,
    src: Seq<u8>,
    src_stride: int,
    width: nat,
    height: nat,
)
    requires
        is_rgba_of(dst, src, src_stride, width, height, Alpha::Opaque),
    ensures
        forall|i: int| 0 <= i < dst.len() && i % 4 == 3 ==> #[trigger] dst[i] == 255,
{
    assert forall|i: int| 0 <= i < dst.len() && i % 4 == 3 implies #[trigger] dst[i] == 255 by {
        let (row, col, k) = lemma_byte_has_pixel(width as int, height as int, i);
        let stride = (width * 4) as int;
        assert((row * stride) % 4 == 0) by (nonlinear_arith)
            requires
                stride == width * 4,
        {
            assert(row * stride == (row * width) * 4);
        }
        assert(k == 3);
        assert(pixel_at(dst, stride, row, col) == to_rgba(
            pixel_at(src, src_stride, row, col),
            Alpha::Opaque,
        ));
    }
}

/// Where alpha is kept, converting a converted frame gives the picture back.
pub proof fn law_conversion_undoes_itself(
    once: Seq<u8>,
    twice: Seq<u8>,
    src: Seq<u8>,
    width: nat,
    height: nat,
)
    requires
        src.len() == frame_bytes(width, height),
        is_rgba_of(once, src, (width * 4) as int, width, height, Alpha::Keep),
        is_rgba_of(twice, once, (width * 4) as int, width, height, Alpha::Keep),
    ensures
        twice == src,
{
    assert forall|i: int| 0 <= i < src.len() implies twice[i] == src[i] by {
        let (row, col, k) = lemma_byte_has_pixel(width as int, height as int, i);
        let stride = (width * 4) as int;
        assert(pixel_at(once, stride, row, col) == to_rgba(
            pixel_at(src, stride, row, col),
            Alpha::Keep,
        ));
        assert(pixel_at(twice, stride, row, col) == pixel_at(src, stride, row, col));
    }
    assert(twice =~= src);
}

/// An empty frame has no bytes, and each line adds four bytes per pixel.
pub proof fn law_each_line_adds_four_bytes_per_pixel(width: nat, height: nat)
    ensures
        frame_bytes(width, 0) == 0,
        frame_bytes(width, height + 1) == frame_bytes(width, height) + 4 * width,
{
    assert(width * 0 == 0) by (nonlinear_arith);
    assert(width * (height + 1) * 4 == width * height * 4 + 4 * width) by (nonlinear_arith);
}

/// In every pixel of every picture, whatever its bytes, the first and the third
/// byte change places and the second stays; the fourth becomes 255 where the
/// frame is opaque, and else stays.
pub proof fn law_conversion_swaps_red_and_blue(
    dst: Seq<u8>,
    src: Seq<u8>,
    src_stride: int,
    width: nat,
    height: nat,
    alpha: Alpha,
    row: int,
    col: int,
)
    requires
        is_rgba_of(dst, src, src_stride, width, height, alpha),
        0 <= row < height,
        0 <= col < width,
    ensures
        dst.len() == width * height * 4,
        row * (width * 4) + col * 4 + 3 < dst.len(),
        dst[row * (width * 4) + col * 4] == src[row * src_stride + col * 4 + 2],
        dst[row * (width * 4) + col * 4 + 1] == src[row * src_stride + col * 4 + 1],
        dst[row * (width * 4) + col * 4 + 2] == src[row * src_stride + col * 4],
        alpha == Alpha::Opaque ==> dst[row * (width * 4) + col * 4 + 3] == 255,
        alpha == Alpha::Keep ==> dst[row * (width * 4) + col * 4 + 3] == src[row * src_stride
            + col * 4 + 3],
{
    lemma_offsets(width as int, height as int, row, col);
    let converted = pixel_at(dst, (width * 4) as int, row, col);
    assert(converted == to_rgba(pixel_at(src, src_stride, row, col), alpha));
}

/// Bytes hold the lines of a picture if and only if all four bytes of every
/// pixel lie within them.
pub proof fn law_lines_are_held_iff_every_pixel_is(
    len: nat,
    stride: nat,
    width: nat,
    height: nat,
)
    ensures
        holds_lines(len, stride, width, height) <==> forall|row: int, col: int|
            #![trigger row * stride, col * 4]
            0 <= row < height && 0 <= col < width ==> row * stride + col * 4 + 4 <= len,
{
    if holds_lines(len, stride, width, height) {
        assert forall|row: int, col: int|
            #![trigger row * stride, col * 4]
            0 <= row < height && 0 <= col < width implies row * stride + col * 4 + 4 <= len by {
            assert(row * stride <= (height - 1) * stride) by (nonlinear_arith)
                requires
                    row <= height - 1,
            ;
        }
    }
    if width > 0 && height > 0 && (forall|row: int, col: int|
        #![trigger row * stride, col * 4]
        0 <= row < height && 0 <= col < width ==> row * stride + col * 4 + 4 <= len) {
        let row = height - 1;
        let col = width - 1;
        assert(row * stride + col * 4 + 4 <= len);
    }
}

} // verus!
