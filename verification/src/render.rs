use vstd::prelude::*;

use crate::frame::{linesize_fits, linesize_fits_exec, spec_linesize, spec_new_data_len, zeroed_bytes, VideoFrame};
use crate::scene_item::{spec_saturating_trim, Crop};
use crate::types::{spec_frame_size, PixelFormat};

verus! {

/// Offset of byte `k` of row `y` in a plane that starts at `base` with rows `stride` bytes apart.
pub open spec fn at(base: int, y: int, stride: int, k: int) -> int {
    base + y * stride + k
}

/// A rectangle of bytes copied from a source buffer into a destination buffer.
/// The destination rows are packed (`width` bytes apart), the source rows are
/// `src_stride` bytes apart.
pub struct CopyBlock {
    pub dst_base: int,
    pub src_base: int,
    pub src_stride: int,
    pub rows: int,
    pub width: int,
}

/// Every byte of the block holds the source byte it was copied from.
pub open spec fn block_copied(dst: Seq<u8>, src: Seq<u8>, b: CopyBlock) -> bool {
    forall|y: int, k: int|
        0 <= y < b.rows && 0 <= k < b.width ==> #[trigger] dst[at(b.dst_base, y, b.width, k)]
            == src[at(b.src_base, y, b.src_stride, k)]
}

/// Whether destination offset `p` lies in the block.
pub open spec fn in_block(p: int, b: CopyBlock) -> bool {
    b.dst_base <= p < b.dst_base + b.rows * b.width
}

/// The block lies within both buffers (a block of no rows touches neither).
pub open spec fn block_fits(b: CopyBlock, dst_len: int, src_len: int) -> bool {
    &&& 0 <= b.dst_base
    &&& 0 <= b.src_base
    &&& 0 <= b.src_stride
    &&& 0 <= b.rows
    &&& 0 <= b.width
    &&& b.rows > 0 ==> {
        &&& b.dst_base + b.rows * b.width <= dst_len
        &&& b.src_base + (b.rows - 1) * b.src_stride + b.width <= src_len
    }
}

/// Width and height that remain of `frame` after `crop`.
pub open spec fn cropped_dims(frame: &VideoFrame, crop: Crop) -> (u32, u32) {
    (
        spec_saturating_trim(frame.width, crop.left, crop.right),
        spec_saturating_trim(frame.height, crop.top, crop.bottom),
    )
}

/// The blocks that cropping copies out of `frame`, one per plane: packed
/// formats have one plane; NV12 a luma plane and an interleaved chroma plane
/// (two bytes per chroma sample); I420 a luma plane and two chroma planes at
/// half resolution. In the result the planes follow one another.
pub open spec fn crop_blocks(frame: &VideoFrame, crop: Crop) -> Seq<CopyBlock> {
    let w = frame.width as int;
    let h = frame.height as int;
    let cw = cropped_dims(frame, crop).0 as int;
    let ch = cropped_dims(frame, crop).1 as int;
    let left = crop.left as int;
    let top = crop.top as int;
    let luma = CopyBlock { dst_base: 0, src_base: top * w + left, src_stride: w, rows: ch, width: cw };
    match frame.format {
        PixelFormat::RGBA | PixelFormat::BGRA => seq![
            CopyBlock { dst_base: 0, src_base: top * (w * 4) + left * 4, src_stride: w * 4, rows: ch, width: cw * 4 },
        ],
        PixelFormat::Rgb24 | PixelFormat::Bgr24 => seq![
            CopyBlock { dst_base: 0, src_base: top * (w * 3) + left * 3, src_stride: w * 3, rows: ch, width: cw * 3 },
        ],
        PixelFormat::YUY2 | PixelFormat::UYVY => seq![
            CopyBlock { dst_base: 0, src_base: top * (w * 2) + left * 2, src_stride: w * 2, rows: ch, width: cw * 2 },
        ],
        PixelFormat::NV12 => seq![
            luma,
            CopyBlock {
                dst_base: cw * ch,
                src_base: w * h + (top / 2) * w + (left / 2) * 2,
                src_stride: w,
                rows: ch / 2,
                width: (cw / 2) * 2,
            },
        ],
        PixelFormat::I420 => seq![
            luma,
            CopyBlock {
                dst_base: cw * ch,
                src_base: w * h + (top / 2) * (w / 2) + left / 2,
                src_stride: w / 2,
                rows: ch / 2,
                width: cw / 2,
            },
            CopyBlock {
                dst_base: cw * ch + (cw / 2) * (ch / 2),
                src_base: w * h + (w / 2) * (h / 2) + (top / 2) * (w / 2) + left / 2,
                src_stride: w / 2,
                rows: ch / 2,
                width: cw / 2,
            },
        ],
        _ => seq![],
    }
}

/// Size of the whole buffer of a frame of this geometry and format.
pub open spec fn frame_len(width: u32, height: u32, format: PixelFormat) -> int {
    spec_frame_size(width, height, format)
}

/// Size of the buffer of a cropped or scaled frame: the whole frame, and
/// never less than what `VideoFrame::new` allocates for its width (one row of
/// each plane).
pub open spec fn result_len(width: u32, height: u32, format: PixelFormat) -> int {
    let whole = frame_len(width, height, format);
    let rows = spec_new_data_len(width, format);
    if whole >= rows {
        whole
    } else {
        rows
    }
}

/// The inputs on which cropping stays within every buffer it touches: the
/// result is a whole frame of the cropped size, and the source must hold
/// every row of the cropped rectangle.
pub open spec fn crop_fits(frame: &VideoFrame, crop: Crop) -> bool {
    let w = frame.width as int;
    let h = frame.height as int;
    let cw = cropped_dims(frame, crop).0;
    let ch = cropped_dims(frame, crop).1;
    let blocks = crop_blocks(frame, crop);
    let dst_len = result_len(cw, ch, frame.format);
    cw == 0 || ch == 0 || {
        &&& linesize_fits(cw, frame.format)
        &&& dst_len <= usize::MAX
        &&& match frame.format {
            PixelFormat::RGBA | PixelFormat::BGRA => w * 4 <= usize::MAX,
            PixelFormat::Rgb24 | PixelFormat::Bgr24 => w * 3 <= usize::MAX,
            PixelFormat::YUY2 | PixelFormat::UYVY => w * 2 <= usize::MAX,
            PixelFormat::NV12 | PixelFormat::I420 => w * h <= usize::MAX,
            _ => true,
        }
        &&& forall|i: int|
            0 <= i < blocks.len() ==> block_fits(#[trigger] blocks[i], dst_len, frame.data@.len() as int)
        &&& blocks.len() == 0 ==> frame.data@.len() == dst_len
    }
}

proof fn lemma_row_in_block(y: int, rows: int, width: int, k: int)
    requires
        0 <= y < rows,
        0 <= k <= width,
    ensures
        0 <= y * width,
        y * width + k <= rows * width,
        k < width ==> y * width + k < rows * width,
        y * width + width <= rows * width,
{
    assert(0 <= y * width) by (nonlinear_arith)
        requires
            0 <= y,
            0 <= width,
    ;
    assert(y * width + width <= rows * width) by (nonlinear_arith)
        requires
            y + 1 <= rows,
            0 <= width,
    ;
}

proof fn lemma_src_row_bound(y: int, rows: int, stride: int)
    requires
        0 <= y < rows,
        0 <= stride,
    ensures
        0 <= y * stride <= (rows - 1) * stride,
{
    assert(0 <= y * stride <= (rows - 1) * stride) by (nonlinear_arith)
        requires
            0 <= y <= rows - 1,
            0 <= stride,
    ;
}

proof fn lemma_mul_mono(a: int, b: int, c: int, d: int)
    requires
        0 <= a <= c,
        0 <= b <= d,
    ensures
        a * b <= c * d,
{
    assert(a * b <= c * d) by (nonlinear_arith)
        requires
            0 <= a <= c,
            0 <= b <= d,
    ;
}

/// A copied block stays copied when later writes stay out of its region.
proof fn lemma_block_kept(before: Seq<u8>, after: Seq<u8>, src: Seq<u8>, b: CopyBlock, lo: int, hi: int)
    requires
        block_copied(before, src, b),
        before.len() == after.len(),
        forall|p: int| 0 <= p < after.len() && !(lo <= p < hi) ==> after[p] == before[p],
        0 <= b.rows,
        0 <= b.width,
        b.rows > 0 ==> b.dst_base + b.rows * b.width <= lo || hi <= b.dst_base,
        b.rows > 0 ==> 0 <= b.dst_base && b.dst_base + b.rows * b.width <= before.len(),
    ensures
        block_copied(after, src, b),
{
    assert forall|y: int, k: int| 0 <= y < b.rows && 0 <= k < b.width implies #[trigger] after[at(
        b.dst_base,
        y,
        b.width,
        k,
    )] == src[at(b.src_base, y, b.src_stride, k)] by {
        lemma_row_in_block(y, b.rows, b.width, k);
        assert(before[at(b.dst_base, y, b.width, k)] == src[at(b.src_base, y, b.src_stride, k)]);
    }
}

/// What remains of the frame is no larger than the frame.
proof fn lemma_cropped_le(frame: &VideoFrame, crop: Crop)
    ensures
        cropped_dims(frame, crop).0 <= frame.width,
        cropped_dims(frame, crop).1 <= frame.height,
        cropped_dims(frame, crop).0 as int * cropped_dims(frame, crop).1 as int <= frame.width as int
            * frame.height as int,
        (cropped_dims(frame, crop).0 / 2) as int * (cropped_dims(frame, crop).1 / 2) as int <= (
        frame.width as int / 2) * (frame.height as int / 2),
        (frame.width as int / 2) * (frame.height as int / 2) <= frame.width as int
            * frame.height as int,
        cropped_dims(frame, crop).1 as int * cropped_dims(frame, crop).0 as int <= frame.width as int
            * frame.height as int,
        (cropped_dims(frame, crop).1 / 2) as int * (cropped_dims(frame, crop).0 / 2) as int <= (
        frame.width as int / 2) * (frame.height as int / 2),
{
    let (cw, ch) = cropped_dims(frame, crop);
    lemma_mul_mono(cw as int, ch as int, frame.width as int, frame.height as int);
    assert(ch as int * cw as int == cw as int * ch as int) by (nonlinear_arith);
    assert((ch / 2) as int * (cw / 2) as int == (cw / 2) as int * (ch / 2) as int) by (nonlinear_arith);
    lemma_mul_mono(
        cw as int / 2,
        ch as int / 2,
        frame.width as int / 2,
        frame.height as int / 2,
    );
    lemma_mul_mono(
        frame.width as int / 2,
        frame.height as int / 2,
        frame.width as int,
        frame.height as int,
    );
}

/// A copy of a byte buffer.
pub fn copy_bytes(v: &Vec<u8>) -> (r: Vec<u8>)
    ensures
        r@ == v@,
{
    let mut r: Vec<u8> = Vec::with_capacity(v.len());
    let mut i: usize = 0;
    while i < v.len()
        invariant
            i <= v.len(),
            r@ == v@.subrange(0, i as int),
        decreases v.len() - i,
    {
        r.push(v[i]);
        i = i + 1;
        assert(r@ =~= v@.subrange(0, i as int));
    }
    assert(r@ =~= v@);
    r
}

/// Copies `rows` rows of `width` bytes out of `src` into `dst`, row by row.
fn copy_rows(
    dst: &mut Vec<u8>,
    dst_base: usize,
    src: &Vec<u8>,
    src_base: usize,
    src_stride: usize,
    rows: usize,
    width: usize,
)
    requires
        block_fits(
            CopyBlock {
                dst_base: dst_base as int,
                src_base: src_base as int,
                src_stride: src_stride as int,
                rows: rows as int,
                width: width as int,
            },
            old(dst)@.len() as int,
            src@.len() as int,
        ),
    ensures
        final(dst)@.len() == old(dst)@.len(),
        block_copied(
            final(dst)@,
            src@,
            CopyBlock {
                dst_base: dst_base as int,
                src_base: src_base as int,
                src_stride: src_stride as int,
                rows: rows as int,
                width: width as int,
            },
        ),
        forall|p: int|
            0 <= p < final(dst)@.len() && !(dst_base <= p < dst_base + rows * width)
                ==> final(dst)@[p] == old(dst)@[p],
{
    let ghost b = CopyBlock {
        dst_base: dst_base as int,
        src_base: src_base as int,
        src_stride: src_stride as int,
        rows: rows as int,
        width: width as int,
    };
    let ghost orig = dst@;
    let dst_len = dst.len();
    let src_len = src.len();
    let mut y: usize = 0;
    while y < rows
        invariant
            y <= rows,
            dst_len == orig.len(),
            src_len == src@.len(),
            block_fits(b, orig.len() as int, src@.len() as int),
            b.dst_base == dst_base,
            b.src_base == src_base,
            b.src_stride == src_stride,
            b.rows == rows,
            b.width == width,
            dst@.len() == orig.len(),
            forall|yy: int, k: int|
                0 <= yy < y && 0 <= k < width ==> #[trigger] dst@[at(dst_base as int, yy, width as int, k)]
                    == src@[at(src_base as int, yy, src_stride as int, k)],
            forall|p: int|
                0 <= p < dst@.len() && !(dst_base <= p < dst_base + y * width) ==> dst@[p]
                    == orig[p],
        decreases rows - y,
    {
        proof {
            lemma_row_in_block(y as int, rows as int, width as int, 0);
            lemma_src_row_bound(y as int, rows as int, src_stride as int);
            assert(b.rows > 0);
            assert(b.dst_base + b.rows * b.width <= orig.len());
            assert(dst_base + rows * width <= orig.len());
            assert(src_base + (rows - 1) * src_stride + width <= src@.len());
        }
        let row_dst = dst_base + y * width;
        let row_src = src_base + y * src_stride;
        let mut k: usize = 0;
        while k < width
            invariant
                y < rows,
                k <= width,
                dst_len == orig.len(),
                src_len == src@.len(),
                row_dst == dst_base + y * width,
                row_src == src_base + y * src_stride,
                row_dst + width <= orig.len(),
                row_src + width <= src@.len(),
                dst_base + y * width + width <= dst_base + rows * width,
                dst@.len() == orig.len(),
                forall|yy: int, kk: int|
                    0 <= yy < y && 0 <= kk < width ==> #[trigger] dst@[at(dst_base as int, yy, width as int, kk)]
                        == src@[at(src_base as int, yy, src_stride as int, kk)],
                forall|kk: int|
                    0 <= kk < k ==> #[trigger] dst@[at(dst_base as int, y as int, width as int, kk)]
                        == src@[at(src_base as int, y as int, src_stride as int, kk)],
                forall|p: int|
                    0 <= p < dst@.len() && !(dst_base <= p < dst_base + y * width) && !(row_dst
                        <= p < row_dst + k) ==> dst@[p] == orig[p],
            decreases width - k,
        {
            let ghost before = dst@;
            dst.set(row_dst + k, src[row_src + k]);
            assert(at(dst_base as int, y as int, width as int, k as int) == row_dst + k);
            assert(at(src_base as int, y as int, src_stride as int, k as int) == row_src + k);
            assert forall|kk: int| 0 <= kk < k + 1 implies #[trigger] dst@[at(
                dst_base as int,
                y as int,
                width as int,
                kk,
            )] == src@[at(src_base as int, y as int, src_stride as int, kk)] by {
                if kk < k {
                    assert(before[at(dst_base as int, y as int, width as int, kk)] == src@[at(
                        src_base as int,
                        y as int,
                        src_stride as int,
                        kk,
                    )]);
                }
            }
            assert forall|yy: int, kk: int|
                0 <= yy < y && 0 <= kk < width implies #[trigger] dst@[at(
                    dst_base as int,
                    yy,
                    width as int,
                    kk,
                )] == src@[at(src_base as int, yy, src_stride as int, kk)] by {
                lemma_row_in_block(yy, y as int, width as int, kk);
                assert(before[at(dst_base as int, yy, width as int, kk)] == src@[at(
                    src_base as int,
                    yy,
                    src_stride as int,
                    kk,
                )]);
            }
            k = k + 1;
        }
        proof {
            assert((y + 1) * width == y * width + width) by (nonlinear_arith);
        }
        y = y + 1;
    }
}

/// `r` is what cropping `frame` by `crop` gives: a 1x1 blank frame when
/// nothing remains; otherwise a whole frame of the cropped size whose planes
/// hold the copied blocks and zero elsewhere (or the source bytes, for the
/// formats without a cropping rule).
pub open spec fn cropped(r: VideoFrame, frame: &VideoFrame, crop: Crop) -> bool {
    &&& r.format == frame.format
    &&& {
        let (cw, ch) = cropped_dims(frame, crop);
        if cw == 0 || ch == 0 {
            &&& r.width == 1
            &&& r.height == 1
            &&& r.pts == 0
            &&& r.duration == 0
            &&& r.linesize@ == spec_linesize(1, frame.format)
            &&& r.data@.len() == spec_new_data_len(1, frame.format)
            &&& forall|i: int| 0 <= i < r.data@.len() ==> r.data@[i] == 0
        } else {
            let blocks = crop_blocks(frame, crop);
            &&& r.width == cw
            &&& r.height == ch
            &&& r.pts == frame.pts
            &&& r.duration == frame.duration
            &&& r.linesize@ == spec_linesize(cw, frame.format)
            &&& r.data@.len() == result_len(cw, ch, frame.format)
            &&& forall|i: int|
                0 <= i < blocks.len() ==> block_copied(r.data@, frame.data@, #[trigger] blocks[i])
            &&& blocks.len() > 0 ==> forall|p: int|
                0 <= p < r.data@.len() && (forall|i: int|
                    0 <= i < blocks.len() ==> !in_block(p, #[trigger] blocks[i])) ==> r.data@[p]
                    == 0
            &&& blocks.len() == 0 ==> r.data@ == frame.data@
        }
    }
}

/// A block copied to the same offsets, its rows back to back in both
/// buffers, holds at every offset it covers the source byte at that offset.
proof fn lemma_block_identity(dst: Seq<u8>, src: Seq<u8>, b: CopyBlock)
    requires
        block_copied(dst, src, b),
        b.dst_base == b.src_base,
        b.src_stride == b.width,
        b.width > 0,
    ensures
        forall|p: int| b.dst_base <= p < b.dst_base + b.rows * b.width ==> dst[p] == src[p],
{
    assert forall|p: int| b.dst_base <= p < b.dst_base + b.rows * b.width implies dst[p] == src[p] by {
        let q = p - b.dst_base;
        vstd::arithmetic::div_mod::lemma_fundamental_div_mod(q, b.width);
        vstd::arithmetic::div_mod::lemma_mod_bound(q, b.width);
        let y = q / b.width;
        let k = q % b.width;
        assert(0 <= y < b.rows && y * b.width == b.width * y) by (nonlinear_arith)
            requires
                q == b.width * y + k,
                0 <= k < b.width,
                0 <= q < b.rows * b.width,
                b.width > 0,
        ;
        assert(at(b.dst_base, y, b.width, k) == p);
        assert(dst[at(b.dst_base, y, b.width, k)] == src[at(b.src_base, y, b.src_stride, k)]);
    }
}

/// Cropping nothing from a whole frame gives the frame back: its size,
/// format, timing and every byte (NV12 and I420 frames of even size).
pub proof fn lemma_crop_nothing_keeps_frame(frame: &VideoFrame, r: VideoFrame)
    requires
        cropped(r, frame, Crop { left: 0, top: 0, right: 0, bottom: 0 }),
        frame.width > 0,
        frame.height > 0,
        frame.data@.len() == frame_len(frame.width, frame.height, frame.format),
        frame.format == PixelFormat::NV12 || frame.format == PixelFormat::I420 ==> frame.width % 2 == 0
            && frame.height % 2 == 0,
    ensures
        r.width == frame.width,
        r.height == frame.height,
        r.format == frame.format,
        r.pts == frame.pts,
        r.duration == frame.duration,
        r.data@ == frame.data@,
{
    let crop = Crop { left: 0, top: 0, right: 0, bottom: 0 };
    let blocks = crop_blocks(frame, crop);
    let w = frame.width as int;
    let h = frame.height as int;
    assert(cropped_dims(frame, crop) == (frame.width, frame.height));
    let n = frame.data@.len() as int;
    assert(w * h == h * w) by (nonlinear_arith);
    assert(w * h * 4 >= w * 4 && w * h * 3 >= w * 3 && w * h * 2 >= w * 2 && w * h >= w) by (nonlinear_arith)
        requires
            w > 0,
            h > 0,
    ;
    if frame.format == PixelFormat::NV12 || frame.format == PixelFormat::I420 {
        assert(w * h * 3 / 2 >= w * 2) by (nonlinear_arith)
            requires
                w > 0,
                h >= 2,
        ;
    }
    assert(result_len(frame.width, frame.height, frame.format) == frame_len(frame.width, frame.height, frame.format));
    match frame.format {
        PixelFormat::RGBA | PixelFormat::BGRA | PixelFormat::Rgb24 | PixelFormat::Bgr24 | PixelFormat::YUY2
        | PixelFormat::UYVY => {
            let b0 = blocks[0];
            assert(b0.width == w * 4 || b0.width == w * 3 || b0.width == w * 2);
            assert(h * (w * 4) == w * h * 4 && h * (w * 3) == w * h * 3 && h * (w * 2) == w * h * 2)
                by (nonlinear_arith);
            assert(0 * (w * 4) == 0 && 0 * (w * 3) == 0 && 0 * (w * 2) == 0);
            lemma_block_identity(r.data@, frame.data@, b0);
        },
        PixelFormat::NV12 => {
            let b0 = blocks[0];
            let b1 = blocks[1];
            assert(0 * w == 0);
            assert(b1.dst_base == w * h && b1.src_base == w * h);
            assert((w / 2) * 2 == w);
            assert(w * h * 3 / 2 == w * h + (h / 2) * w) by (nonlinear_arith)
                requires
                    h % 2 == 0,
            ;
            lemma_block_identity(r.data@, frame.data@, b0);
            lemma_block_identity(r.data@, frame.data@, b1);
        },
        PixelFormat::I420 => {
            let b0 = blocks[0];
            let b1 = blocks[1];
            let b2 = blocks[2];
            assert(0 * w == 0 && 0 * (w / 2) == 0);
            assert(w / 2 > 0);
            assert(w * h * 3 / 2 == w * h + 2 * ((h / 2) * (w / 2)) && (w / 2) * (h / 2) == (h / 2) * (w
                / 2)) by (nonlinear_arith)
                requires
                    h % 2 == 0,
                    w % 2 == 0,
            ;
            lemma_block_identity(r.data@, frame.data@, b0);
            lemma_block_identity(r.data@, frame.data@, b1);
            lemma_block_identity(r.data@, frame.data@, b2);
        },
        _ => {},
    }
    assert(r.data@ =~= frame.data@);
}

/// Crops `frame`: the result has the cropped width and height, the frame's
/// format and timing, a whole buffer of that size, and in it, plane by plane,
/// every row of the cropped rectangle (chroma planes at half resolution);
/// every other byte is zero. Formats without a cropping rule (I422, I444) keep
/// the source bytes. When nothing remains of the frame the result is a 1x1
/// frame.
pub fn crop_frame(frame: &VideoFrame, crop: &Crop) -> (r: VideoFrame)
    requires
        crop_fits(frame, *crop),
    ensures
        cropped(r, frame, *crop),
{
    let cropped_width = crop.cropped_width(frame.width);
    let cropped_height = crop.cropped_height(frame.height);

    if cropped_width == 0 || cropped_height == 0 {
        return VideoFrame::new(1, 1, frame.format);
    }
    let ghost blocks = crop_blocks(frame, *crop);
    let mut result = VideoFrame::new(cropped_width, cropped_height, frame.format);
    result.pts = frame.pts;
    result.duration = frame.duration;
    let total = result_len_exec(cropped_width, cropped_height, frame.format);
    result.data = zeroed_bytes(total as usize);
    let ghost zero = result.data@;
    let data_len = frame.data.len();
    let ch = cropped_height as usize;
    let cw = cropped_width as usize;
    let top = crop.top as usize;
    let left = crop.left as usize;
    proof {
        lemma_cropped_le(frame, *crop);
    }
    match frame.format {
        PixelFormat::RGBA | PixelFormat::BGRA => {
            let src_stride = frame.width as usize * 4;
            let dst_stride = cw * 4;
            proof {
                assert(block_fits(blocks[0], zero.len() as int, frame.data@.len() as int));
                lemma_src_row_bound(0, ch as int, src_stride as int);
                assert(top * src_stride + left * 4 <= frame.data@.len());
            }
            copy_rows(&mut result.data, 0, &frame.data, top * src_stride + left * 4, src_stride, ch, dst_stride);
            proof {
                assert(blocks[0] == CopyBlock {
                    dst_base: 0,
                    src_base: (top * src_stride + left * 4) as int,
                    src_stride: src_stride as int,
                    rows: ch as int,
                    width: dst_stride as int,
                });
            }
        },
        PixelFormat::Rgb24 | PixelFormat::Bgr24 => {
            let src_stride = frame.width as usize * 3;
            let dst_stride = cw * 3;
            proof {
                assert(block_fits(blocks[0], zero.len() as int, frame.data@.len() as int));
                lemma_src_row_bound(0, ch as int, src_stride as int);
                assert(top * src_stride + left * 3 <= frame.data@.len());
            }
            copy_rows(&mut result.data, 0, &frame.data, top * src_stride + left * 3, src_stride, ch, dst_stride);
            proof {
                assert(blocks[0] == CopyBlock {
                    dst_base: 0,
                    src_base: (top * src_stride + left * 3) as int,
                    src_stride: src_stride as int,
                    rows: ch as int,
                    width: dst_stride as int,
                });
            }
        },
        PixelFormat::YUY2 | PixelFormat::UYVY => {
            let src_stride = frame.width as usize * 2;
            let dst_stride = cw * 2;
            proof {
                assert(block_fits(blocks[0], zero.len() as int, frame.data@.len() as int));
                lemma_src_row_bound(0, ch as int, src_stride as int);
                assert(top * src_stride + left * 2 <= frame.data@.len());
            }
            copy_rows(&mut result.data, 0, &frame.data, top * src_stride + left * 2, src_stride, ch, dst_stride);
            proof {
                assert(blocks[0] == CopyBlock {
                    dst_base: 0,
                    src_base: (top * src_stride + left * 2) as int,
                    src_stride: src_stride as int,
                    rows: ch as int,
                    width: dst_stride as int,
                });
            }
        },
        PixelFormat::NV12 => {
            let y_stride = frame.width as usize;
            let uv_stride = frame.width as usize;
            let y_plane_size = y_stride * frame.height as usize;
            proof {
                assert(block_fits(blocks[0], zero.len() as int, frame.data@.len() as int));
                assert(block_fits(blocks[1], zero.len() as int, frame.data@.len() as int));
                assert(ch * cw == cw * ch) by (nonlinear_arith);
            }
            proof {
                lemma_src_row_bound(0, ch as int, y_stride as int);
                assert(top * y_stride + left <= frame.data@.len());
            }
            copy_rows(&mut result.data, 0, &frame.data, top * y_stride + left, y_stride, ch, cw);
            let ghost after_luma = result.data@;
            let uv_crop_left = (crop.left / 2) as usize;
            let uv_crop_top = (crop.top / 2) as usize;
            let cropped_uv_width = (cw / 2) * 2;
            let cropped_uv_height = ch / 2;
            let dst_uv_base = cw * ch;
            if cropped_uv_height > 0 {
                copy_rows(
                    &mut result.data,
                    dst_uv_base,
                    &frame.data,
                    y_plane_size + uv_crop_top * uv_stride + uv_crop_left * 2,
                    uv_stride,
                    cropped_uv_height,
                    cropped_uv_width,
                );
            }
            proof {
                assert(blocks[0] == CopyBlock {
                    dst_base: 0,
                    src_base: (top * y_stride + left) as int,
                    src_stride: y_stride as int,
                    rows: ch as int,
                    width: cw as int,
                });
                let b1 = blocks[1];
                if cropped_uv_height > 0 {
                    assert(b1 == CopyBlock {
                        dst_base: dst_uv_base as int,
                        src_base: (y_plane_size + uv_crop_top * uv_stride + uv_crop_left * 2) as int,
                        src_stride: uv_stride as int,
                        rows: cropped_uv_height as int,
                        width: cropped_uv_width as int,
                    });
                    lemma_block_kept(after_luma, result.data@, frame.data@, blocks[0], b1.dst_base, b1.dst_base + b1.rows * b1.width);
                } else {
                    assert(result.data@ == after_luma);
                }
            }
        },
        PixelFormat::I420 => {
            let y_stride = frame.width as usize;
            let uv_stride = frame.width as usize / 2;
            let y_plane_size = y_stride * frame.height as usize;
            let uv_plane_size = uv_stride * (frame.height as usize / 2);
            proof {
                assert(block_fits(blocks[0], zero.len() as int, frame.data@.len() as int));
                assert(block_fits(blocks[1], zero.len() as int, frame.data@.len() as int));
                assert(block_fits(blocks[2], zero.len() as int, frame.data@.len() as int));
                assert(ch * cw == cw * ch) by (nonlinear_arith);
                assert(ch / 2 == 0 ==> (cw / 2) * (ch / 2) == 0) by (nonlinear_arith);
                assert((ch / 2) * (cw / 2) == (cw / 2) * (ch / 2)) by (nonlinear_arith);
            }
            proof {
                lemma_src_row_bound(0, ch as int, y_stride as int);
                assert(top * y_stride + left <= frame.data@.len());
            }
            copy_rows(&mut result.data, 0, &frame.data, top * y_stride + left, y_stride, ch, cw);
            let ghost after_luma = result.data@;
            let uv_crop_left = (crop.left / 2) as usize;
            let uv_crop_top = (crop.top / 2) as usize;
            let cropped_uv_width = cw / 2;
            let cropped_uv_height = ch / 2;
            let dst_u_base = cw * ch;
            let dst_v_base = cw * ch + cropped_uv_width * cropped_uv_height;
            if cropped_uv_height > 0 {
                copy_rows(
                    &mut result.data,
                    dst_u_base,
                    &frame.data,
                    y_plane_size + uv_crop_top * uv_stride + uv_crop_left,
                    uv_stride,
                    cropped_uv_height,
                    cropped_uv_width,
                );
            }
            let ghost after_u = result.data@;
            if cropped_uv_height > 0 {
                copy_rows(
                    &mut result.data,
                    dst_v_base,
                    &frame.data,
                    y_plane_size + uv_plane_size + uv_crop_top * uv_stride + uv_crop_left,
                    uv_stride,
                    cropped_uv_height,
                    cropped_uv_width,
                );
            }
            proof {
                assert(blocks[0] == CopyBlock {
                    dst_base: 0,
                    src_base: (top * y_stride + left) as int,
                    src_stride: y_stride as int,
                    rows: ch as int,
                    width: cw as int,
                });
                let b1 = blocks[1];
                let b2 = blocks[2];
                if cropped_uv_height > 0 {
                    assert(b1 == CopyBlock {
                        dst_base: dst_u_base as int,
                        src_base: (y_plane_size + uv_crop_top * uv_stride + uv_crop_left) as int,
                        src_stride: uv_stride as int,
                        rows: cropped_uv_height as int,
                        width: cropped_uv_width as int,
                    });
                    assert(b2 == CopyBlock {
                        dst_base: dst_v_base as int,
                        src_base: (y_plane_size + uv_plane_size + uv_crop_top * uv_stride + uv_crop_left) as int,
                        src_stride: uv_stride as int,
                        rows: cropped_uv_height as int,
                        width: cropped_uv_width as int,
                    });
                    lemma_block_kept(after_luma, after_u, frame.data@, blocks[0], b1.dst_base, b1.dst_base + b1.rows * b1.width);
                    lemma_block_kept(after_u, result.data@, frame.data@, blocks[0], b2.dst_base, b2.dst_base + b2.rows * b2.width);
                    lemma_block_kept(after_u, result.data@, frame.data@, b1, b2.dst_base, b2.dst_base + b2.rows * b2.width);
                } else {
                    assert(result.data@ == after_luma);
                }
            }
        },
        _ => {
            result.data = copy_bytes(&frame.data);
        },
    }
    result
}

/// The size of the whole buffer of a frame of this geometry and format.
/// The size of the buffer of a cropped or scaled frame (see `result_len`).
pub(crate) fn result_len_exec(width: u32, height: u32, format: PixelFormat) -> (r: u128)
    ensures
        r == result_len(width, height, format),
{
    let whole = frame_len_exec(width, height, format);
    let w = width as u128;
    let rows: u128 = match format {
        PixelFormat::RGBA | PixelFormat::BGRA => w * 4,
        PixelFormat::Rgb24 | PixelFormat::Bgr24 => w * 3,
        PixelFormat::YUY2 | PixelFormat::UYVY => w * 2,
        PixelFormat::NV12 => w * 2,
        PixelFormat::I420 => w + 2 * (w / 2),
        _ => w,
    };
    if whole >= rows {
        whole
    } else {
        rows
    }
}

pub(crate) fn frame_len_exec(width: u32, height: u32, format: PixelFormat) -> (r: u128)
    ensures
        r == frame_len(width, height, format),
{
    proof {
        assert(width * height <= 0xffff_ffff * 0xffff_ffff) by (nonlinear_arith)
            requires
                width <= 0xffff_ffff,
                height <= 0xffff_ffff,
        ;
    }
    let a = width as u128 * height as u128;
    match format {
        PixelFormat::NV12 | PixelFormat::I420 => a * 3 / 2,
        PixelFormat::I422 | PixelFormat::YUY2 | PixelFormat::UYVY => a * 2,
        PixelFormat::I444 | PixelFormat::Rgb24 | PixelFormat::Bgr24 => a * 3,
        PixelFormat::RGBA | PixelFormat::BGRA => a * 4,
    }
}

fn block_fits_exec(
    dst_base: u128,
    src_base: u128,
    src_stride: u128,
    rows: u128,
    width: u128,
    dst_len: u128,
    src_len: u128,
) -> (r: bool)
    requires
        dst_base < 0x1_0000_0000_0000_0000_0000,
        src_base < 0x1_0000_0000_0000_0000_0000,
        src_stride < 0x100_0000_0000,
        rows < 0x100_0000_0000,
        width < 0x100_0000_0000,
    ensures
        r == block_fits(
            CopyBlock {
                dst_base: dst_base as int,
                src_base: src_base as int,
                src_stride: src_stride as int,
                rows: rows as int,
                width: width as int,
            },
            dst_len as int,
            src_len as int,
        ),
{
    if rows == 0 {
        return true;
    }
    assert(rows * width < 0x1_0000_0000_0000_0000_0000) by (nonlinear_arith)
        requires
            rows < 0x100_0000_0000,
            width < 0x100_0000_0000,
    ;
    assert((rows - 1) * src_stride < 0x1_0000_0000_0000_0000_0000) by (nonlinear_arith)
        requires
            rows < 0x100_0000_0000,
            src_stride < 0x100_0000_0000,
            rows >= 1,
    ;
    dst_base + rows * width <= dst_len && src_base + (rows - 1) * src_stride + width <= src_len
}

/// Whether `crop_frame(frame, crop)` stays within every buffer it touches
/// (where it does not, cropping fails).
pub fn crop_fits_exec(frame: &VideoFrame, crop: &Crop) -> (r: bool)
    ensures
        r == crop_fits(frame, *crop),
{
    let cw32 = crop.cropped_width(frame.width);
    let ch32 = crop.cropped_height(frame.height);
    if cw32 == 0 || ch32 == 0 {
        return true;
    }
    if !linesize_fits_exec(cw32, frame.format) {
        return false;
    }
    let w = frame.width as u128;
    let h = frame.height as u128;
    let cw = cw32 as u128;
    let ch = ch32 as u128;
    let left = crop.left as u128;
    let top = crop.top as u128;
    let src_len = frame.data.len() as u128;
    let umax = usize::MAX as u128;
    proof {
        lemma_cropped_le(frame, *crop);
        assert(w * h <= 0xf_ffff_ffff_ffff_ffff) by (nonlinear_arith)
            requires
                w <= 0xffff_ffff,
                h <= 0xffff_ffff,
        ;
        assert(top * (w * 4) <= 0xf_ffff_ffff_ffff_ffff) by (nonlinear_arith)
            requires
                w <= 0xffff_ffff,
                top <= 0xffff_ffff,
        ;
        assert(top * (w * 3) <= 0xf_ffff_ffff_ffff_ffff) by (nonlinear_arith)
            requires
                w <= 0xffff_ffff,
                top <= 0xffff_ffff,
        ;
        assert(top * (w * 2) <= 0xf_ffff_ffff_ffff_ffff) by (nonlinear_arith)
            requires
                w <= 0xffff_ffff,
                top <= 0xffff_ffff,
        ;
        assert(top * w <= 0xf_ffff_ffff_ffff_ffff) by (nonlinear_arith)
            requires
                w <= 0xffff_ffff,
                top <= 0xffff_ffff,
        ;
        assert((top / 2) * w <= 0xf_ffff_ffff_ffff_ffff) by (nonlinear_arith)
            requires
                w <= 0xffff_ffff,
                top <= 0xffff_ffff,
        ;
        assert((top / 2) * (w / 2) <= 0xf_ffff_ffff_ffff_ffff) by (nonlinear_arith)
            requires
                w <= 0xffff_ffff,
                top <= 0xffff_ffff,
        ;
        assert((w / 2) * (h / 2) <= 0xf_ffff_ffff_ffff_ffff) by (nonlinear_arith)
            requires
                w <= 0xffff_ffff,
                h <= 0xffff_ffff,
        ;
    }
    let dst_len = result_len_exec(cw32, ch32, frame.format);
    let dcw = cw * ch;
    proof {
        assert(cw * ch <= w * h);
    }
    let fits = dst_len <= umax && match frame.format {
        PixelFormat::RGBA | PixelFormat::BGRA => {
            w * 4 <= umax && block_fits_exec(0, top * (w * 4) + left * 4, w * 4, ch, cw * 4, dst_len, src_len)
        },
        PixelFormat::Rgb24 | PixelFormat::Bgr24 => {
            w * 3 <= umax && block_fits_exec(0, top * (w * 3) + left * 3, w * 3, ch, cw * 3, dst_len, src_len)
        },
        PixelFormat::YUY2 | PixelFormat::UYVY => {
            w * 2 <= umax && block_fits_exec(0, top * (w * 2) + left * 2, w * 2, ch, cw * 2, dst_len, src_len)
        },
        PixelFormat::NV12 => {
            w * h <= umax && block_fits_exec(0, top * w + left, w, ch, cw, dst_len, src_len)
                && block_fits_exec(dcw, w * h + (top / 2) * w + (left / 2) * 2, w, ch / 2, (cw / 2) * 2, dst_len, src_len)
        },
        PixelFormat::I420 => {
            let base_v = w * h + (w / 2) * (h / 2);
            let dst_v = dcw + (cw / 2) * (ch / 2);
            w * h <= umax && block_fits_exec(0, top * w + left, w, ch, cw, dst_len, src_len)
                && block_fits_exec(dcw, w * h + (top / 2) * (w / 2) + left / 2, w / 2, ch / 2, cw / 2, dst_len, src_len)
                && block_fits_exec(dst_v, base_v + (top / 2) * (w / 2) + left / 2, w / 2, ch / 2, cw / 2, dst_len, src_len)
        },
        _ => src_len == dst_len,
    };
    proof {
        let bl = crop_blocks(frame, *crop);
        let dl = result_len(cw32, ch32, frame.format);
        let sl = frame.data@.len() as int;
        let (b0, b1, b2) = (bl[0], bl[1], bl[2]);
        if fits {
            assert forall|i: int| 0 <= i < bl.len() implies block_fits(#[trigger] bl[i], dl, sl) by {
                if i == 0 {
                } else if i == 1 {
                } else {
                }
            }
        }
    }
    fits
}

/// Clears `output` to the scene background: packed RGBA/BGRA frames get the
/// colour in every pixel, other formats are zeroed. (This is the first step of
/// rendering a scene.)
pub fn fill_background(output: &mut VideoFrame, bg: [u8; 4])
    requires
        (old(output).format == PixelFormat::RGBA || old(output).format == PixelFormat::BGRA)
            ==> old(output).data@.len() % 4 == 0,
    ensures
        final(output).width == old(output).width,
        final(output).height == old(output).height,
        final(output).format == old(output).format,
        final(output).pts == old(output).pts,
        final(output).duration == old(output).duration,
        final(output).linesize@ == old(output).linesize@,
        final(output).data@.len() == old(output).data@.len(),
        forall|i: int|
            0 <= i < final(output).data@.len() ==> final(output).data@[i] == if old(output).format
                == PixelFormat::RGBA || old(output).format == PixelFormat::BGRA {
                bg@[i % 4]
            } else {
                0u8
            },
{
    let packed_rgba = match output.format {
        PixelFormat::RGBA | PixelFormat::BGRA => true,
        _ => false,
    };
    let n = output.data.len();
    let mut i: usize = 0;
    while i < n
        invariant
            i <= n,
            n == output.data@.len(),
            output.width == old(output).width,
            output.height == old(output).height,
            output.format == old(output).format,
            output.pts == old(output).pts,
            output.duration == old(output).duration,
            output.linesize@ == old(output).linesize@,
            packed_rgba == (output.format == PixelFormat::RGBA || output.format == PixelFormat::BGRA),
            forall|j: int|
                0 <= j < i ==> output.data@[j] == if packed_rgba {
                    bg@[j % 4]
                } else {
                    0u8
                },
        decreases n - i,
    {
        let v = if packed_rgba {
            bg[i % 4]
        } else {
            0u8
        };
        output.data.set(i, v);
        i = i + 1;
    }
}

} // verus!
