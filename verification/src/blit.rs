use vstd::prelude::*;

use crate::frame::VideoFrame;
use crate::types::PixelFormat;

verus! {

/// Byte offset of pixel (`col`, `row`) in a packed 4-byte-per-pixel frame `width` pixels wide.
pub open spec fn px_at(width: int, col: int, row: int) -> int {
    row * (width * 4) + col * 4
}

/// The four bytes of the pixel that starts at `i`.
pub open spec fn px(data: Seq<u8>, i: int) -> Seq<u8> {
    data.subrange(i, i + 4)
}

/// Compositing applies to a pair of frames that share a packed RGBA or BGRA format.
pub open spec fn blends_formats(output: &VideoFrame, scaled: &VideoFrame) -> bool {
    output.format == scaled.format && (output.format == PixelFormat::RGBA || output.format
        == PixelFormat::BGRA)
}

/// Pixel (`sx`, `sy`) of `scaled`, placed with its top-left corner at (`x`, `y`),
/// lands inside `output`.
pub open spec fn on_output(output: &VideoFrame, scaled: &VideoFrame, x: int, y: int, sx: int, sy: int) -> bool {
    &&& 0 <= sx < scaled.width
    &&& 0 <= sy < scaled.height
    &&& 0 <= x + sx < output.width
    &&& 0 <= y + sy < output.height
}

/// Pixel (`sx`, `sy`) lands inside `output` and is not fully transparent, so it is blended.
pub open spec fn drawn(output: &VideoFrame, scaled: &VideoFrame, x: int, y: int, sx: int, sy: int) -> bool {
    &&& on_output(output, scaled, x, y, sx, sy)
    &&& scaled.data@[px_at(scaled.width as int, sx, sy) + 3] != 0
}

/// `r` is a result that `blend` may give for the output pixel `bottom` under the source pixel `top`.
pub open spec fn blended_by<F: Fn([u8; 4], [u8; 4]) -> [u8; 4]>(
    blend: F,
    bottom: Seq<u8>,
    top: Seq<u8>,
    r: Seq<u8>,
) -> bool {
    exists|b: [u8; 4], t: [u8; 4], o: [u8; 4]|
        b@ == bottom && t@ == top && o@ == r && call_ensures(blend, (b, t), o)
}

/// The inputs on which compositing `scaled` at (`x`, `y`) stays within both
/// buffers and its coordinate arithmetic stays within `i32` and `usize`.
pub open spec fn blit_fits(output: &VideoFrame, scaled: &VideoFrame, x: i32, y: i32) -> bool {
    blends_formats(output, scaled) ==> {
        &&& output.width <= i32::MAX
        &&& output.height <= i32::MAX
        &&& scaled.width <= i32::MAX
        &&& scaled.height <= i32::MAX
        &&& x + scaled.width <= 0x8000_0000
        &&& y + scaled.height <= 0x8000_0000
        &&& scaled.width * 4 <= usize::MAX
        &&& output.width * 4 <= usize::MAX
        &&& forall|sx: int, sy: int|
            #![trigger px_at(scaled.width as int, sx, sy)]
            on_output(output, scaled, x as int, y as int, sx, sy) ==> {
                &&& px_at(scaled.width as int, sx, sy) + 4 <= scaled.data@.len()
                &&& px_at(output.width as int, x + sx, y + sy) <= usize::MAX
                &&& scaled.data@[px_at(scaled.width as int, sx, sy) + 3] != 0 ==> px_at(
                    output.width as int,
                    x + sx,
                    y + sy,
                ) + 4 <= output.data@.len()
            }
    }
}

/// Two distinct pixels of one row-major frame occupy disjoint bytes.
proof fn lemma_px_disjoint(width: int, c1: int, r1: int, c2: int, r2: int)
    requires
        0 <= c1 < width,
        0 <= c2 < width,
        0 <= r1,
        0 <= r2,
        c1 != c2 || r1 != r2,
    ensures
        px_at(width, c1, r1) + 4 <= px_at(width, c2, r2) || px_at(width, c2, r2) + 4 <= px_at(
            width,
            c1,
            r1,
        ),
{
    if r1 == r2 {
    } else if r1 < r2 {
        assert(r1 * (width * 4) + width * 4 <= r2 * (width * 4)) by (nonlinear_arith)
            requires
                r1 + 1 <= r2,
                0 <= width,
        ;
    } else {
        assert(r2 * (width * 4) + width * 4 <= r1 * (width * 4)) by (nonlinear_arith)
            requires
                r2 + 1 <= r1,
                0 <= width,
        ;
    }
}

proof fn lemma_px_nonneg(width: int, col: int, row: int)
    requires
        0 <= width,
        0 <= col,
        0 <= row,
    ensures
        0 <= px_at(width, col, row),
{
    assert(0 <= row * (width * 4)) by (nonlinear_arith)
        requires
            0 <= row,
            0 <= width,
    ;
}

/// Pixel (`sx`, `sy`) comes before (`cx`, `cy`) in row-major order.
pub open spec fn before(sx: int, sy: int, cx: int, cy: int) -> bool {
    sy < cy || (sy == cy && sx < cx)
}

/// Composites `scaled` onto `output` with its top-left corner at (`dst_x`, `dst_y`):
/// when both frames are packed RGBA (or both BGRA), every source pixel that
/// lands inside `output` and is not fully transparent replaces the output pixel
/// under it with what `blend` gives for (output pixel, source pixel); every other
/// byte keeps its value. Frames of other formats are left as they are.
pub fn blit_scaled<F: Fn([u8; 4], [u8; 4]) -> [u8; 4]>(
    output: &mut VideoFrame,
    scaled: &VideoFrame,
    dst_x: i32,
    dst_y: i32,
    blend: F,
)
    requires
        blit_fits(old(output), scaled, dst_x, dst_y),
        forall|b: [u8; 4], t: [u8; 4]| call_requires(blend, (b, t)),
    ensures
        final(output).width == old(output).width,
        final(output).height == old(output).height,
        final(output).format == old(output).format,
        final(output).pts == old(output).pts,
        final(output).duration == old(output).duration,
        final(output).linesize@ == old(output).linesize@,
        final(output).data@.len() == old(output).data@.len(),
        blends_formats(old(output), scaled) ==> forall|sx: int, sy: int|
            #![trigger px_at(scaled.width as int, sx, sy)]
            drawn(old(output), scaled, dst_x as int, dst_y as int, sx, sy) ==> blended_by(
                blend,
                px(old(output).data@, px_at(old(output).width as int, dst_x + sx, dst_y + sy)),
                px(scaled.data@, px_at(scaled.width as int, sx, sy)),
                px(final(output).data@, px_at(old(output).width as int, dst_x + sx, dst_y + sy)),
            ),
        forall|p: int|
            0 <= p < old(output).data@.len() && !(blends_formats(old(output), scaled) && exists|
                sx: int,
                sy: int,
            |
                #![trigger px_at(scaled.width as int, sx, sy)]
                drawn(old(output), scaled, dst_x as int, dst_y as int, sx, sy) && px_at(
                    old(output).width as int,
                    dst_x + sx,
                    dst_y + sy,
                ) <= p < px_at(old(output).width as int, dst_x + sx, dst_y + sy) + 4)
                ==> final(output).data@[p] == old(output).data@[p],
{
    let same_packed = match (output.format, scaled.format) {
        (PixelFormat::RGBA, PixelFormat::RGBA) | (PixelFormat::BGRA, PixelFormat::BGRA) => true,
        _ => false,
    };
    if !same_packed {
        return;
    }
    let ghost orig = output.data@;
    let ghost x = dst_x as int;
    let ghost y = dst_y as int;
    let ghost ow = output.width as int;
    let ghost sw = scaled.width as int;
    let src_stride = scaled.width as usize * 4;
    let dst_stride = output.width as usize * 4;
    let out_w = output.width as i64;
    let out_h = output.height as i64;
    let sh = scaled.height;
    let swu = scaled.width;
    let src_len = scaled.data.len();
    let dst_len = output.data.len();
    let mut sy: u32 = 0;
    while sy < sh
        invariant
            blit_fits(old(output), scaled, dst_x, dst_y),
            blends_formats(old(output), scaled),
            forall|b: [u8; 4], t: [u8; 4]| call_requires(blend, (b, t)),
            sy <= sh,
            sh == scaled.height,
            swu == scaled.width,
            sw == scaled.width,
            ow == old(output).width,
            x == dst_x,
            y == dst_y,
            src_stride == sw * 4,
            dst_stride == ow * 4,
            out_w == old(output).width,
            out_h == old(output).height,
            orig == old(output).data@,
            src_len == scaled.data@.len(),
            dst_len == orig.len(),
            output.width == old(output).width,
            output.height == old(output).height,
            output.format == old(output).format,
            output.pts == old(output).pts,
            output.duration == old(output).duration,
            output.linesize@ == old(output).linesize@,
            output.data@.len() == orig.len(),
            forall|qx: int, qy: int|
                #![trigger px_at(sw, qx, qy)]
                drawn(old(output), scaled, x, y, qx, qy) && before(qx, qy, 0, sy as int) ==> blended_by(
                    blend,
                    px(orig, px_at(ow, x + qx, y + qy)),
                    px(scaled.data@, px_at(sw, qx, qy)),
                    px(output.data@, px_at(ow, x + qx, y + qy)),
                ),
            forall|p: int|
                0 <= p < orig.len() && !(exists|qx: int, qy: int|
                    #![trigger px_at(sw, qx, qy)]
                    drawn(old(output), scaled, x, y, qx, qy) && before(qx, qy, 0, sy as int) && px_at(
                        ow,
                        x + qx,
                        y + qy,
                    ) <= p < px_at(ow, x + qx, y + qy) + 4) ==> output.data@[p] == orig[p],
        decreases sh - sy,
    {
        let dy = dst_y as i64 + sy as i64;
        if dy < 0 || dy >= out_h {
            sy = sy + 1;
            continue;
        }
        let mut sx: u32 = 0;
        while sx < swu
            invariant
                blit_fits(old(output), scaled, dst_x, dst_y),
                blends_formats(old(output), scaled),
                forall|b: [u8; 4], t: [u8; 4]| call_requires(blend, (b, t)),
                sy < sh,
                sx <= swu,
                sh == scaled.height,
                swu == scaled.width,
                sw == scaled.width,
                ow == old(output).width,
                x == dst_x,
                y == dst_y,
                dy == y + sy,
                0 <= dy < old(output).height,
                src_stride == sw * 4,
                dst_stride == ow * 4,
                out_w == old(output).width,
                out_h == old(output).height,
                orig == old(output).data@,
                src_len == scaled.data@.len(),
                dst_len == orig.len(),
            src_len == scaled.data@.len(),
            dst_len == orig.len(),
                output.width == old(output).width,
                output.height == old(output).height,
                output.format == old(output).format,
                output.pts == old(output).pts,
                output.duration == old(output).duration,
                output.linesize@ == old(output).linesize@,
                output.data@.len() == orig.len(),
                forall|qx: int, qy: int|
                    #![trigger px_at(sw, qx, qy)]
                    drawn(old(output), scaled, x, y, qx, qy) && before(qx, qy, sx as int, sy as int)
                        ==> blended_by(
                        blend,
                        px(orig, px_at(ow, x + qx, y + qy)),
                        px(scaled.data@, px_at(sw, qx, qy)),
                        px(output.data@, px_at(ow, x + qx, y + qy)),
                    ),
                forall|p: int|
                    0 <= p < orig.len() && !(exists|qx: int, qy: int|
                        #![trigger px_at(sw, qx, qy)]
                        drawn(old(output), scaled, x, y, qx, qy) && before(qx, qy, sx as int, sy as int)
                            && px_at(ow, x + qx, y + qy) <= p < px_at(ow, x + qx, y + qy) + 4)
                        ==> output.data@[p] == orig[p],
            decreases swu - sx,
        {
            let dx = dst_x as i64 + sx as i64;
            if dx < 0 || dx >= out_w {
                sx = sx + 1;
                continue;
            }
            proof {
                assert(on_output(old(output), scaled, x, y, sx as int, sy as int));
                assert(px_at(sw, sx as int, sy as int) + 4 <= scaled.data@.len());
                assert(sy * (sw * 4) + sx * 4 + 4 <= scaled.data@.len());
                lemma_px_nonneg(sw, sx as int, sy as int);
                lemma_px_nonneg(ow, dx as int, dy as int);
                assert(sy * (sw * 4) <= px_at(sw, sx as int, sy as int));
                assert(dy * (ow * 4) <= px_at(ow, dx as int, dy as int));
            }
            let src_idx = sy as usize * src_stride + sx as usize * 4;
            let dst_idx = dy as usize * dst_stride + dx as usize * 4;
            let src_pixel: [u8; 4] = [
                scaled.data[src_idx],
                scaled.data[src_idx + 1],
                scaled.data[src_idx + 2],
                scaled.data[src_idx + 3],
            ];
            if src_pixel[3] == 0 {
                sx = sx + 1;
                continue;
            }
            let ghost prev = output.data@;
            let dst_pixel: [u8; 4] = [
                output.data[dst_idx],
                output.data[dst_idx + 1],
                output.data[dst_idx + 2],
                output.data[dst_idx + 3],
            ];
            let blended = blend(dst_pixel, src_pixel);
            output.data.set(dst_idx, blended[0]);
            output.data.set(dst_idx + 1, blended[1]);
            output.data.set(dst_idx + 2, blended[2]);
            output.data.set(dst_idx + 3, blended[3]);
            proof {
                let d = dst_idx as int;
                assert(drawn(old(output), scaled, x, y, sx as int, sy as int));
                // The window of this pixel still held the bytes it had at the start.
                assert forall|p: int| d <= p < d + 4 implies prev[p] == orig[p] by {
                    if exists|qx: int, qy: int|
                        #![trigger px_at(sw, qx, qy)]
                        drawn(old(output), scaled, x, y, qx, qy) && before(qx, qy, sx as int, sy as int)
                            && px_at(ow, x + qx, y + qy) <= p < px_at(ow, x + qx, y + qy) + 4 {
                        let (qx, qy) = choose|qx: int, qy: int|
                            #![trigger px_at(sw, qx, qy)]
                            drawn(old(output), scaled, x, y, qx, qy) && before(qx, qy, sx as int, sy as int)
                                && px_at(ow, x + qx, y + qy) <= p < px_at(ow, x + qx, y + qy) + 4;
                        lemma_px_disjoint(ow, x + qx, y + qy, dx as int, dy as int);
                    }
                }
                assert(dst_pixel@ =~= px(orig, d));
                assert(src_pixel@ =~= px(scaled.data@, px_at(sw, sx as int, sy as int)));
                assert(blended@ =~= px(output.data@, d));
                assert(blended_by(blend, px(orig, d), px(scaled.data@, px_at(sw, sx as int, sy as int)), px(output.data@, d)));
                assert forall|qx: int, qy: int|
                    #![trigger px_at(sw, qx, qy)]
                    drawn(old(output), scaled, x, y, qx, qy) && before(qx, qy, sx + 1, sy as int)
                        implies blended_by(
                        blend,
                        px(orig, px_at(ow, x + qx, y + qy)),
                        px(scaled.data@, px_at(sw, qx, qy)),
                        px(output.data@, px_at(ow, x + qx, y + qy)),
                    ) by {
                    if qx != sx || qy != sy {
                        lemma_px_disjoint(ow, x + qx, y + qy, dx as int, dy as int);
                        let e = px_at(ow, x + qx, y + qy);
                        lemma_px_nonneg(ow, x + qx, y + qy);
                        assert(px(output.data@, e) =~= px(prev, e));
                    }
                }
                assert forall|p: int|
                    0 <= p < orig.len() && !(exists|qx: int, qy: int|
                        #![trigger px_at(sw, qx, qy)]
                        drawn(old(output), scaled, x, y, qx, qy) && before(qx, qy, sx + 1, sy as int)
                            && px_at(ow, x + qx, y + qy) <= p < px_at(ow, x + qx, y + qy) + 4)
                    implies output.data@[p] == orig[p] by {
                    assert(!(px_at(ow, x + sx, y + sy) <= p < px_at(ow, x + sx, y + sy) + 4));
                }
            }
            sx = sx + 1;
        }
        sy = sy + 1;
    }
}

/// What `blit_fits` asks of pixel (`sx`, `sy`) once it lands inside `output`.
pub open spec fn pixel_fits(output: &VideoFrame, scaled: &VideoFrame, x: int, y: int, sx: int, sy: int) -> bool {
    &&& px_at(scaled.width as int, sx, sy) + 4 <= scaled.data@.len()
    &&& px_at(output.width as int, x + sx, y + sy) <= usize::MAX
    &&& scaled.data@[px_at(scaled.width as int, sx, sy) + 3] != 0 ==> px_at(
        output.width as int,
        x + sx,
        y + sy,
    ) + 4 <= output.data@.len()
}

/// Whether `blit_scaled(output, scaled, dst_x, dst_y, ..)` may be called
/// (where it may not, compositing fails).
pub fn blit_fits_exec(output: &VideoFrame, scaled: &VideoFrame, dst_x: i32, dst_y: i32) -> (r: bool)
    ensures
        r == blit_fits(output, scaled, dst_x, dst_y),
{
    let same_packed = match (output.format, scaled.format) {
        (PixelFormat::RGBA, PixelFormat::RGBA) | (PixelFormat::BGRA, PixelFormat::BGRA) => true,
        _ => false,
    };
    if !same_packed {
        return true;
    }
    let imax: u32 = 0x7fff_ffff;
    if output.width > imax || output.height > imax || scaled.width > imax || scaled.height > imax {
        return false;
    }
    if dst_x as i64 + scaled.width as i64 > 0x8000_0000i64 || dst_y as i64 + scaled.height as i64
        > 0x8000_0000i64 {
        return false;
    }
    let umax = usize::MAX as u128;
    if scaled.width as u128 * 4 > umax || output.width as u128 * 4 > umax {
        return false;
    }
    let ghost sw = scaled.width as int;
    let ghost ow = output.width as int;
    let ghost x = dst_x as int;
    let ghost y = dst_y as int;
    let sw4 = scaled.width as u128 * 4;
    let ow4 = output.width as u128 * 4;
    let out_w = output.width as i64;
    let out_h = output.height as i64;
    let src_len = scaled.data.len() as u128;
    let dst_len = output.data.len() as u128;
    let sh = scaled.height;
    let swu = scaled.width;
    let mut sy: u32 = 0;
    while sy < sh
        invariant
            sy <= sh,
            sh == scaled.height,
            swu == scaled.width,
            sw == scaled.width,
            ow == output.width,
            x == dst_x,
            y == dst_y,
            sw4 == sw * 4,
            ow4 == ow * 4,
            out_w == output.width,
            out_h == output.height,
            src_len == scaled.data@.len(),
            dst_len == output.data@.len(),
            umax == usize::MAX,
            src_len <= umax,
            dst_len <= umax,
            blends_formats(output, scaled),
            dst_x + scaled.width <= 0x8000_0000,
            dst_y + scaled.height <= 0x8000_0000,
            scaled.width * 4 <= usize::MAX,
            output.width * 4 <= usize::MAX,
            output.width <= 0x7fff_ffff,
            output.height <= 0x7fff_ffff,
            scaled.width <= 0x7fff_ffff,
            scaled.height <= 0x7fff_ffff,
            forall|qx: int, qy: int|
                #![trigger px_at(sw, qx, qy)]
                on_output(output, scaled, x, y, qx, qy) && before(qx, qy, 0, sy as int) ==> pixel_fits(
                    output,
                    scaled,
                    x,
                    y,
                    qx,
                    qy,
                ),
        decreases sh - sy,
    {
        let dy = dst_y as i64 + sy as i64;
        if dy >= 0 && dy < out_h {
            let mut sx: u32 = 0;
            while sx < swu
                invariant
                    sy < sh,
                    sx <= swu,
                    sh == scaled.height,
                    swu == scaled.width,
                    sw == scaled.width,
                    ow == output.width,
                    x == dst_x,
                    y == dst_y,
                    dy == y + sy,
                    0 <= dy < output.height,
                    sw4 == sw * 4,
                    ow4 == ow * 4,
                    out_w == output.width,
                    out_h == output.height,
                    src_len == scaled.data@.len(),
                    dst_len == output.data@.len(),
                    umax == usize::MAX,
                    src_len <= umax,
                    dst_len <= umax,
                    blends_formats(output, scaled),
                    dst_x + scaled.width <= 0x8000_0000,
                    dst_y + scaled.height <= 0x8000_0000,
                    scaled.width * 4 <= usize::MAX,
                    output.width * 4 <= usize::MAX,
                    output.width <= 0x7fff_ffff,
                    output.height <= 0x7fff_ffff,
                    scaled.width <= 0x7fff_ffff,
                    scaled.height <= 0x7fff_ffff,
                    forall|qx: int, qy: int|
                        #![trigger px_at(sw, qx, qy)]
                        on_output(output, scaled, x, y, qx, qy) && before(qx, qy, sx as int, sy as int)
                            ==> pixel_fits(output, scaled, x, y, qx, qy),
                decreases swu - sx,
            {
                let dx = dst_x as i64 + sx as i64;
                if dx >= 0 && dx < out_w {
                    proof {
                        assert(sy * (sw * 4) <= 0x7fff_ffff * 0x2_0000_0000) by (nonlinear_arith)
                            requires
                                0 <= sy <= 0x7fff_ffff,
                                0 <= sw <= 0x7fff_ffff,
                        ;
                        assert(dy * (ow * 4) <= 0x7fff_ffff * 0x2_0000_0000) by (nonlinear_arith)
                            requires
                                0 <= dy <= 0x7fff_ffff,
                                0 <= ow <= 0x7fff_ffff,
                        ;
                    }
                    let src = sy as u128 * sw4 + sx as u128 * 4;
                    let dst = dy as u128 * ow4 + dx as u128 * 4;
                    assert(src == px_at(sw, sx as int, sy as int));
                    assert(dst == px_at(ow, x + sx, y + sy));
                    if src + 4 > src_len || dst > umax {
                        assert(!pixel_fits(output, scaled, x, y, sx as int, sy as int));
                        return false;
                    }
                    let alpha = scaled.data[src as usize + 3];
                    if alpha != 0 && dst + 4 > dst_len {
                        assert(!pixel_fits(output, scaled, x, y, sx as int, sy as int));
                        return false;
                    }
                    assert(pixel_fits(output, scaled, x, y, sx as int, sy as int));
                }
                proof {
                    assert forall|qx: int, qy: int|
                        #![trigger px_at(sw, qx, qy)]
                        on_output(output, scaled, x, y, qx, qy) && before(qx, qy, sx + 1, sy as int)
                            implies pixel_fits(output, scaled, x, y, qx, qy) by {
                        if !(qx == sx && qy == sy) {
                            assert(before(qx, qy, sx as int, sy as int));
                        }
                    }
                }
                sx = sx + 1;
            }
        }
        sy = sy + 1;
    }
    proof {
        assert forall|qx: int, qy: int|
            #![trigger px_at(scaled.width as int, qx, qy)]
            on_output(output, scaled, dst_x as int, dst_y as int, qx, qy) implies {
                &&& px_at(scaled.width as int, qx, qy) + 4 <= scaled.data@.len()
                &&& px_at(output.width as int, dst_x + qx, dst_y + qy) <= usize::MAX
                &&& scaled.data@[px_at(scaled.width as int, qx, qy) + 3] != 0 ==> px_at(
                    output.width as int,
                    dst_x + qx,
                    dst_y + qy,
                ) + 4 <= output.data@.len()
            } by {
            assert(before(qx, qy, 0, sy as int));
            assert(pixel_fits(output, scaled, x, y, qx, qy));
        }
        assert(blit_fits(output, scaled, dst_x, dst_y));
    }
    true
}


/// Byte `i` of a buffer of `len` bytes once red and blue are exchanged in
/// every whole 4-byte pixel (BGRA to RGBA and back); bytes of a trailing
/// partial pixel stay.
pub open spec fn red_blue_swapped(old_data: Seq<u8>, i: int) -> u8 {
    if i < (old_data.len() / 4) * 4 {
        if i % 4 == 0 {
            old_data[i + 2]
        } else if i % 4 == 2 {
            old_data[i - 2]
        } else {
            old_data[i]
        }
    } else {
        old_data[i]
    }
}

/// Exchanges the first and third byte of every whole 4-byte pixel.
pub fn swap_red_blue(data: &mut Vec<u8>)
    ensures
        final(data)@.len() == old(data)@.len(),
        forall|i: int|
            0 <= i < final(data)@.len() ==> final(data)@[i] == red_blue_swapped(old(data)@, i),
        final(data)@ == red_blue_swapped_all(old(data)@),
{
    let ghost orig = data@;
    let n = data.len();
    let whole = n / 4;
    let mut k: usize = 0;
    while k < whole
        invariant
            n == orig.len(),
            whole == n / 4,
            k <= whole,
            data@.len() == n,
            forall|i: int| 0 <= i < k * 4 ==> data@[i] == red_blue_swapped(orig, i),
            forall|i: int| k * 4 <= i < n ==> data@[i] == orig[i],
        decreases whole - k,
    {
        let b = k * 4;
        let first = data[b];
        let third = data[b + 2];
        data.set(b, third);
        data.set(b + 2, first);
        proof {
            assert forall|i: int| 0 <= i < (k + 1) * 4 implies data@[i] == red_blue_swapped(orig, i) by {
                if i >= b {
                    assert(i < (n / 4) * 4);
                    assert(i % 4 == i - b);
                }
            }
        }
        k = k + 1;
    }
    assert(data@ =~= red_blue_swapped_all(orig));
}


/// The bytes of a buffer after `swap_red_blue`.
pub open spec fn red_blue_swapped_all(s: Seq<u8>) -> Seq<u8> {
    Seq::new(s.len(), |i: int| red_blue_swapped(s, i))
}

/// Exchanging red and blue twice gives the buffer back: converting BGRA to
/// RGBA and back again changes nothing.
pub proof fn lemma_swap_red_blue_involution(s: Seq<u8>)
    ensures
        red_blue_swapped_all(red_blue_swapped_all(s)) == s,
{
    let t = red_blue_swapped_all(s);
    assert forall|i: int| 0 <= i < s.len() implies #[trigger] red_blue_swapped(t, i) == s[i] by {
        if i < (s.len() / 4) * 4 {
            if i % 4 == 0 {
                assert(i + 2 < (s.len() / 4) * 4);
                assert((i + 2) % 4 == 2);
            } else if i % 4 == 2 {
                assert((i - 2) % 4 == 0);
            }
        }
    }
    assert(red_blue_swapped_all(t) =~= s);
}

} // verus!
