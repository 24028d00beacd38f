use vstd::prelude::*;

use crate::frame::{blank_frame, linesize_fits, linesize_fits_exec, spec_linesize, VideoFrame};
use crate::render::{frame_len, result_len, result_len_exec};
use crate::scene_item::Scale;
use crate::types::PixelFormat;

verus! {

/// One plane of a scaled frame. The source plane starts at `src_base`, its
/// rows `src_stride` bytes apart, and holds `sw` x `sh` samples of `unit`
/// bytes; the output plane starts at `dst_base` and holds `tw` x `th`
/// samples, row after row.
pub struct Plane {
    pub src_base: int,
    pub src_stride: int,
    pub unit: int,
    pub sw: int,
    pub sh: int,
    pub dst_base: int,
    pub tw: int,
    pub th: int,
}

/// Byte `c` of source sample (`x`, `y`).
pub open spec fn src_byte(src: Seq<u8>, p: Plane, x: int, y: int, c: int) -> int {
    src[p.src_base + y * p.src_stride + x * p.unit + c] as int
}

/// Offset of byte `c` of output sample (`dx`, `dy`).
pub open spec fn plane_at(p: Plane, dx: int, dy: int, c: int) -> int {
    p.dst_base + dy * (p.tw * p.unit) + dx * p.unit + c
}

/// Bytes in the output plane.
pub open spec fn plane_size(p: Plane) -> int {
    p.tw * p.th * p.unit
}

/// The next index after `i`, kept below `n`.
pub open spec fn next_below(i: int, n: int) -> int {
    if i + 1 < n {
        i + 1
    } else {
        n - 1
    }
}

/// Byte `c` of output sample (`dx`, `dy`) by bilinear interpolation: the
/// output sample sits at source position (`dx * sw / tw`, `dy * sh / th`);
/// the four source samples around it are weighted by how near it lies to
/// each (in whole fractions of `tw` and `th`), and the weighted sum is
/// divided by `tw * th`, rounding down.
pub open spec fn bilinear(src: Seq<u8>, p: Plane, dx: int, dy: int, c: int) -> int {
    let x0 = dx * p.sw / p.tw;
    let rx = dx * p.sw % p.tw;
    let x1 = next_below(x0, p.sw);
    let y0 = dy * p.sh / p.th;
    let ry = dy * p.sh % p.th;
    let y1 = next_below(y0, p.sh);
    ((p.tw - rx) * (p.th - ry) * src_byte(src, p, x0, y0, c) + rx * (p.th - ry) * src_byte(src, p, x1, y0, c)
        + (p.tw - rx) * ry * src_byte(src, p, x0, y1, c) + rx * ry * src_byte(src, p, x1, y1, c)) / (p.tw
        * p.th)
}

/// The output plane has samples.
pub open spec fn plane_nonempty(p: Plane) -> bool {
    p.tw > 0 && p.th > 0
}

/// The source plane has samples, every source byte it reads lies in `src`,
/// and its figures fit the machine.
pub open spec fn plane_fits(p: Plane, src_len: int) -> bool {
    &&& 0 <= p.src_base <= usize::MAX
    &&& 0 <= p.src_stride <= usize::MAX
    &&& 1 <= p.unit <= 4
    &&& 1 <= p.sw <= u32::MAX
    &&& 1 <= p.sh <= u32::MAX
    &&& 1 <= p.tw <= u32::MAX
    &&& 1 <= p.th <= u32::MAX
    &&& p.src_base + (p.sh - 1) * p.src_stride + (p.sw - 1) * p.unit + p.unit <= src_len
}

/// Every byte of the output plane holds its interpolated value.
pub open spec fn plane_interpolated(out: Seq<u8>, src: Seq<u8>, p: Plane) -> bool {
    forall|dx: int, dy: int, c: int|
        0 <= dx < p.tw && 0 <= dy < p.th && 0 <= c < p.unit ==> #[trigger] out[plane_at(p, dx, dy, c)]
            == bilinear(src, p, dx, dy, c)
}

proof fn lemma_sample_index(p: Plane, qx: int, qy: int, k: int, dx: int, dy: int, c: int)
    requires
        0 <= qx < p.tw,
        0 <= k < p.unit,
        0 <= qy,
        0 <= dx <= p.tw,
        0 <= c,
        qy < dy || (qy == dy && qx < dx) || (qy == dy && qx == dx && k < c),
    ensures
        0 <= plane_at(p, qx, qy, k) - p.dst_base,
        plane_at(p, qx, qy, k) < p.dst_base + dy * (p.tw * p.unit) + dx * p.unit + c,
{
    assert(0 <= qy * (p.tw * p.unit)) by (nonlinear_arith)
        requires
            0 <= qy,
            0 <= p.tw,
            0 <= p.unit,
    ;
    assert(0 <= qx * p.unit) by (nonlinear_arith)
        requires
            0 <= qx,
            0 <= p.unit,
    ;
    assert(0 <= dx * p.unit) by (nonlinear_arith)
        requires
            0 <= dx,
            0 <= p.unit,
    ;
    if qy < dy {
        assert(qx * p.unit + k < p.tw * p.unit) by (nonlinear_arith)
            requires
                0 <= qx,
                qx + 1 <= p.tw,
                0 <= k < p.unit,
        ;
        assert((qy + 1) * (p.tw * p.unit) <= dy * (p.tw * p.unit)) by (nonlinear_arith)
            requires
                qy + 1 <= dy,
                0 <= p.tw * p.unit,
        ;
        assert((qy + 1) * (p.tw * p.unit) == qy * (p.tw * p.unit) + p.tw * p.unit) by (nonlinear_arith);
    } else if qx < dx {
        assert(qx * p.unit + k < dx * p.unit) by (nonlinear_arith)
            requires
                0 <= qx,
                qx + 1 <= dx,
                0 <= k < p.unit,
        ;
    }
}

/// The source position of an output sample lies inside the source.
proof fn lemma_position(d: int, s: int, t: int)
    requires
        0 <= d < t,
        1 <= s,
    ensures
        0 <= d * s / t < s,
        0 <= d * s % t < t,
        d * s == t * (d * s / t) + d * s % t,
{
    vstd::arithmetic::div_mod::lemma_fundamental_div_mod(d * s, t);
    vstd::arithmetic::div_mod::lemma_mod_bound(d * s, t);
    let q = d * s / t;
    let r = d * s % t;
    assert(0 <= d * s) by (nonlinear_arith)
        requires
            0 <= d,
            1 <= s,
    ;
    assert(0 <= q < s) by (nonlinear_arith)
        requires
            d * s == t * q + r,
            0 <= r < t,
            0 <= d < t,
            1 <= s,
            0 <= d * s,
    ;
}

/// The weighted sum of four bytes lies within 255 times the sum of the
/// weights, which is `tw * th`.
proof fn lemma_weights(tw: int, th: int, rx: int, ry: int, a: int, b: int, c: int, d: int)
    requires
        0 <= rx < tw,
        0 <= ry < th,
        0 <= a <= 255,
        0 <= b <= 255,
        0 <= c <= 255,
        0 <= d <= 255,
        tw <= 0xffff_ffff,
        th <= 0xffff_ffff,
    ensures
        0 <= (tw - rx) * (th - ry) <= 0xffff_ffff_ffff_ffff,
        0 <= rx * (th - ry) <= 0xffff_ffff_ffff_ffff,
        0 <= (tw - rx) * ry <= 0xffff_ffff_ffff_ffff,
        0 <= rx * ry <= 0xffff_ffff_ffff_ffff,
        0 <= tw * th <= 0xffff_ffff_ffff_ffff,
        0 <= (tw - rx) * (th - ry) * a + rx * (th - ry) * b + (tw - rx) * ry * c + rx * ry * d <= 255 * (tw
            * th),
        ((tw - rx) * (th - ry) * a + rx * (th - ry) * b + (tw - rx) * ry * c + rx * ry * d) / (tw * th) <= 255,
{
    assert(0 <= (tw - rx) * (th - ry) <= 0xffff_ffff_ffff_ffff) by (nonlinear_arith)
        requires
            0 <= tw - rx <= 0xffff_ffff,
            0 <= th - ry <= 0xffff_ffff,
    ;
    assert(0 <= rx * (th - ry) <= 0xffff_ffff_ffff_ffff) by (nonlinear_arith)
        requires
            0 <= rx <= 0xffff_ffff,
            0 <= th - ry <= 0xffff_ffff,
    ;
    assert(0 <= (tw - rx) * ry <= 0xffff_ffff_ffff_ffff) by (nonlinear_arith)
        requires
            0 <= tw - rx <= 0xffff_ffff,
            0 <= ry <= 0xffff_ffff,
    ;
    assert(0 <= rx * ry <= 0xffff_ffff_ffff_ffff) by (nonlinear_arith)
        requires
            0 <= rx <= 0xffff_ffff,
            0 <= ry <= 0xffff_ffff,
    ;
    assert(0 <= tw * th <= 0xffff_ffff_ffff_ffff) by (nonlinear_arith)
        requires
            0 <= tw <= 0xffff_ffff,
            0 <= th <= 0xffff_ffff,
    ;
    let w00 = (tw - rx) * (th - ry);
    let w10 = rx * (th - ry);
    let w01 = (tw - rx) * ry;
    let w11 = rx * ry;
    assert(w00 + w10 + w01 + w11 == tw * th) by (nonlinear_arith)
        requires
            w00 == (tw - rx) * (th - ry),
            w10 == rx * (th - ry),
            w01 == (tw - rx) * ry,
            w11 == rx * ry,
    ;
    assert(0 <= w00 * a <= w00 * 255) by (nonlinear_arith)
        requires
            0 <= w00,
            0 <= a <= 255,
    ;
    assert(0 <= w10 * b <= w10 * 255) by (nonlinear_arith)
        requires
            0 <= w10,
            0 <= b <= 255,
    ;
    assert(0 <= w01 * c <= w01 * 255) by (nonlinear_arith)
        requires
            0 <= w01,
            0 <= c <= 255,
    ;
    assert(0 <= w11 * d <= w11 * 255) by (nonlinear_arith)
        requires
            0 <= w11,
            0 <= d <= 255,
    ;
    let sum = w00 * a + w10 * b + w01 * c + w11 * d;
    assert(sum <= 255 * (tw * th)) by (nonlinear_arith)
        requires
            sum == w00 * a + w10 * b + w01 * c + w11 * d,
            w00 * a <= w00 * 255,
            w10 * b <= w10 * 255,
            w01 * c <= w01 * 255,
            w11 * d <= w11 * 255,
            w00 + w10 + w01 + w11 == tw * th,
    ;
    let t = tw * th;
    assert(t > 0) by (nonlinear_arith)
        requires
            t == tw * th,
            tw > 0,
            th > 0,
    ;
    vstd::arithmetic::div_mod::lemma_fundamental_div_mod(sum, t);
    vstd::arithmetic::div_mod::lemma_mod_bound(sum, t);
    assert(sum / t <= 255) by (nonlinear_arith)
        requires
            sum == t * (sum / t) + sum % t,
            0 <= sum % t,
            sum <= 255 * t,
            t > 0,
    ;
}

/// Where a source byte lies, for positions inside the source.
proof fn lemma_src_offset(p: Plane, x: int, y: int, c: int)
    requires
        0 <= x < p.sw,
        0 <= y < p.sh,
        0 <= c < p.unit,
        0 <= p.src_stride,
        0 <= p.unit,
    ensures
        0 <= y * p.src_stride <= (p.sh - 1) * p.src_stride,
        0 <= x * p.unit <= (p.sw - 1) * p.unit,
{
    assert(0 <= y * p.src_stride <= (p.sh - 1) * p.src_stride) by (nonlinear_arith)
        requires
            0 <= y <= p.sh - 1,
            0 <= p.src_stride,
    ;
    assert(0 <= x * p.unit <= (p.sw - 1) * p.unit) by (nonlinear_arith)
        requires
            0 <= x <= p.sw - 1,
            0 <= p.unit,
    ;
}

/// One byte of the interpolated plane.
fn interpolated_byte(
    src: &Vec<u8>,
    src_base: usize,
    src_stride: usize,
    unit: usize,
    sw: u32,
    sh: u32,
    tw: u32,
    th: u32,
    dx: u32,
    dy: u32,
    c: usize,
) -> (r: u8)
    requires
        plane_fits(
            Plane {
                src_base: src_base as int,
                src_stride: src_stride as int,
                unit: unit as int,
                sw: sw as int,
                sh: sh as int,
                dst_base: 0,
                tw: tw as int,
                th: th as int,
            },
            src@.len() as int,
        ),
        dx < tw,
        dy < th,
        c < unit,
    ensures
        r == bilinear(
            src@,
            Plane {
                src_base: src_base as int,
                src_stride: src_stride as int,
                unit: unit as int,
                sw: sw as int,
                sh: sh as int,
                dst_base: 0,
                tw: tw as int,
                th: th as int,
            },
            dx as int,
            dy as int,
            c as int,
        ),
{
    let ghost p = Plane {
        src_base: src_base as int,
        src_stride: src_stride as int,
        unit: unit as int,
        sw: sw as int,
        sh: sh as int,
        dst_base: 0,
        tw: tw as int,
        th: th as int,
    };
    let _src_len = src.len();
    proof {
        lemma_position(dx as int, sw as int, tw as int);
        lemma_position(dy as int, sh as int, th as int);
        assert(dx * sw <= 0xffff_ffff * 0xffff_ffff) by (nonlinear_arith)
            requires
                dx <= 0xffff_ffff,
                sw <= 0xffff_ffff,
        ;
        assert(dy * sh <= 0xffff_ffff * 0xffff_ffff) by (nonlinear_arith)
            requires
                dy <= 0xffff_ffff,
                sh <= 0xffff_ffff,
        ;
    }
    let nx = dx as u64 * sw as u64;
    let ny = dy as u64 * sh as u64;
    let x0 = nx / tw as u64;
    let rx = nx % tw as u64;
    let y0 = ny / th as u64;
    let ry = ny % th as u64;
    let x1 = if x0 + 1 < sw as u64 {
        x0 + 1
    } else {
        sw as u64 - 1
    };
    let y1 = if y0 + 1 < sh as u64 {
        y0 + 1
    } else {
        sh as u64 - 1
    };
    proof {
        lemma_src_offset(p, x0 as int, y0 as int, c as int);
        lemma_src_offset(p, x1 as int, y0 as int, c as int);
        lemma_src_offset(p, x0 as int, y1 as int, c as int);
        lemma_src_offset(p, x1 as int, y1 as int, c as int);
    }
    let r0 = src_base + y0 as usize * src_stride;
    let r1 = src_base + y1 as usize * src_stride;
    let c0 = x0 as usize * unit + c;
    let c1 = x1 as usize * unit + c;
    let a = src[r0 + c0] as u128;
    let b = src[r0 + c1] as u128;
    let cc = src[r1 + c0] as u128;
    let d = src[r1 + c1] as u128;
    let wx0 = (tw as u64 - rx) as u128;
    let wx1 = rx as u128;
    let wy0 = (th as u64 - ry) as u128;
    let wy1 = ry as u128;
    proof {
        lemma_weights(tw as int, th as int, rx as int, ry as int, a as int, b as int, cc as int, d as int);
        assert(wx0 * wy0 * a <= 0xffff_ffff_ffff_ffff * 255) by (nonlinear_arith)
            requires
                wx0 * wy0 <= 0xffff_ffff_ffff_ffff,
                0 <= wx0 * wy0,
                a <= 255,
        ;
        assert(wx1 * wy0 * b <= 0xffff_ffff_ffff_ffff * 255) by (nonlinear_arith)
            requires
                wx1 * wy0 <= 0xffff_ffff_ffff_ffff,
                0 <= wx1 * wy0,
                b <= 255,
        ;
        assert(wx0 * wy1 * cc <= 0xffff_ffff_ffff_ffff * 255) by (nonlinear_arith)
            requires
                wx0 * wy1 <= 0xffff_ffff_ffff_ffff,
                0 <= wx0 * wy1,
                cc <= 255,
        ;
        assert(wx1 * wy1 * d <= 0xffff_ffff_ffff_ffff * 255) by (nonlinear_arith)
            requires
                wx1 * wy1 <= 0xffff_ffff_ffff_ffff,
                0 <= wx1 * wy1,
                d <= 255,
        ;
    }
    let sum = wx0 * wy0 * a + wx1 * wy0 * b + wx0 * wy1 * cc + wx1 * wy1 * d;
    let total = tw as u128 * th as u128;
    assert(total > 0) by (nonlinear_arith)
        requires
            total == tw * th,
            tw > 0,
            th > 0,
    ;
    let v = sum / total;
    assert(a == src_byte(src@, p, x0 as int, y0 as int, c as int));
    assert(b == src_byte(src@, p, x1 as int, y0 as int, c as int));
    assert(cc == src_byte(src@, p, x0 as int, y1 as int, c as int));
    assert(d == src_byte(src@, p, x1 as int, y1 as int, c as int));
    v as u8
}

/// Appends the interpolated plane `p` (its `dst_base` is where `out` ends)
/// to `out`, row after row.
fn interpolate_plane(
    out: &mut Vec<u8>,
    src: &Vec<u8>,
    src_base: usize,
    src_stride: usize,
    unit: usize,
    sw: u32,
    sh: u32,
    tw: u32,
    th: u32,
)
    requires
        tw > 0 && th > 0 ==> plane_fits(
            Plane {
                src_base: src_base as int,
                src_stride: src_stride as int,
                unit: unit as int,
                sw: sw as int,
                sh: sh as int,
                dst_base: 0,
                tw: tw as int,
                th: th as int,
            },
            src@.len() as int,
        ),
        old(out)@.len() + tw * th * unit <= usize::MAX,
    ensures
        final(out)@.len() == old(out)@.len() + tw * th * unit,
        forall|i: int| 0 <= i < old(out)@.len() ==> final(out)@[i] == old(out)@[i],
        plane_interpolated(
            final(out)@,
            src@,
            Plane {
                src_base: src_base as int,
                src_stride: src_stride as int,
                unit: unit as int,
                sw: sw as int,
                sh: sh as int,
                dst_base: old(out)@.len() as int,
                tw: tw as int,
                th: th as int,
            },
        ),
{
    let ghost base = out@.len() as int;
    let ghost orig = out@;
    let ghost p = Plane {
        src_base: src_base as int,
        src_stride: src_stride as int,
        unit: unit as int,
        sw: sw as int,
        sh: sh as int,
        dst_base: base,
        tw: tw as int,
        th: th as int,
    };
    let ghost p0 = Plane { dst_base: 0, ..p };
    if tw == 0 || th == 0 {
        assert(tw * th * unit == 0) by (nonlinear_arith)
            requires
                tw == 0 || th == 0,
        ;
        return;
    }
    let ghost row = tw * unit;
    proof {
        assert(tw * th * unit == th * (tw * unit)) by (nonlinear_arith);
    }
    let mut dy: u32 = 0;
    while dy < th
        invariant
            tw > 0,
            th > 0,
            dy <= th,
            plane_fits(p0, src@.len() as int),
            p0 == (Plane { dst_base: 0, ..p }),
            0 <= base,
            p.dst_base == base,
            p.tw == tw,
            p.th == th,
            p.unit == unit,
            p.src_base == src_base,
            p.src_stride == src_stride,
            p.sw == sw,
            p.sh == sh,
            row == tw * unit,
            base + th * row <= usize::MAX,
            out@.len() == base + dy * row,
            forall|i: int| 0 <= i < base ==> out@[i] == orig[i],
            forall|qx: int, qy: int, k: int|
                0 <= qx < tw && 0 <= qy < dy && 0 <= k < unit ==> #[trigger] out@[plane_at(p, qx, qy, k)]
                    == bilinear(src@, p0, qx, qy, k),
        decreases th - dy,
    {
        let mut dx: u32 = 0;
        while dx < tw
            invariant
                tw > 0,
                th > 0,
                dy < th,
                dx <= tw,
                plane_fits(p0, src@.len() as int),
                p0 == (Plane { dst_base: 0, ..p }),
                0 <= base,
                p.dst_base == base,
                p.tw == tw,
                p.th == th,
                p.unit == unit,
                p.src_base == src_base,
                p.src_stride == src_stride,
                p.sw == sw,
                p.sh == sh,
                row == tw * unit,
                base + th * row <= usize::MAX,
                out@.len() == base + dy * row + dx * unit,
                forall|i: int| 0 <= i < base ==> out@[i] == orig[i],
                forall|qx: int, qy: int, k: int|
                    0 <= qx < tw && 0 <= qy < th && 0 <= k < unit && (qy < dy || (qy == dy && qx < dx))
                        ==> #[trigger] out@[plane_at(p, qx, qy, k)] == bilinear(src@, p0, qx, qy, k),
            decreases tw - dx,
        {
            let mut c: usize = 0;
            while c < unit
                invariant
                    tw > 0,
                    th > 0,
                    dy < th,
                    dx < tw,
                    c <= unit,
                    plane_fits(p0, src@.len() as int),
                    p0 == (Plane { dst_base: 0, ..p }),
                    0 <= base,
                    p.dst_base == base,
                    p.tw == tw,
                    p.th == th,
                    p.unit == unit,
                    p.src_base == src_base,
                    p.src_stride == src_stride,
                    p.sw == sw,
                    p.sh == sh,
                    row == tw * unit,
                    base + th * row <= usize::MAX,
                    out@.len() == base + dy * row + dx * unit + c,
                    forall|i: int| 0 <= i < base ==> out@[i] == orig[i],
                    forall|qx: int, qy: int, k: int|
                        0 <= qx < tw && 0 <= qy < th && 0 <= k < unit && (qy < dy || (qy == dy && qx < dx) || (
                        qy == dy && qx == dx && k < c)) ==> #[trigger] out@[plane_at(p, qx, qy, k)] == bilinear(
                            src@,
                            p0,
                            qx,
                            qy,
                            k,
                        ),
                decreases unit - c,
            {
                proof {
                    lemma_sample_index(p, dx as int, dy as int, c as int, tw as int, th as int - 1, 0);
                    assert((th - 1) * row + row == th * row) by (nonlinear_arith);
                    assert(plane_at(p, dx as int, dy as int, c as int) == base + dy * row + dx * unit + c);
                    assert(dy * row <= (th - 1) * row) by (nonlinear_arith)
                        requires
                            dy <= th - 1,
                            0 <= row,
                    ;
                }
                let v = interpolated_byte(src, src_base, src_stride, unit, sw, sh, tw, th, dx, dy, c);
                let ghost before = out@;
                out.push(v);
                proof {
                    assert forall|qx: int, qy: int, k: int|
                        0 <= qx < tw && 0 <= qy < th && 0 <= k < unit && (qy < dy || (qy == dy && qx < dx) || (
                        qy == dy && qx == dx && k < c + 1)) implies #[trigger] out@[plane_at(p, qx, qy, k)]
                        == bilinear(src@, p0, qx, qy, k) by {
                        if qy == dy && qx == dx && k == c {
                        } else {
                            lemma_sample_index(p, qx, qy, k, dx as int, dy as int, c as int);
                            assert(p.dst_base + dy * (p.tw * p.unit) + dx * p.unit + c == before.len());
                            assert(plane_at(p, qx, qy, k) < before.len());
                            assert(0 <= plane_at(p, qx, qy, k));
                            assert(out@[plane_at(p, qx, qy, k)] == before[plane_at(p, qx, qy, k)]);
                        }
                    }
                }
                c = c + 1;
            }
            proof {
                assert(base + dy * row + dx * unit + unit == base + dy * row + (dx + 1) * unit) by (nonlinear_arith);
            }
            dx = dx + 1;
        }
        proof {
            assert(base + dy * row + tw * unit == base + (dy + 1) * row) by (nonlinear_arith)
                requires
                    row == tw * unit,
            ;
        }
        dy = dy + 1;
    }
}

/// The planes of `frame` scaled to `tw` x `th`, in the order they follow one
/// another in both buffers: one for an interleaved format; luma and
/// interleaved chroma at half resolution for NV12; luma and two chroma
/// planes for I420 (half width and height), I422 (half width) and I444.
pub open spec fn scale_planes(frame: VideoFrame, tw: u32, th: u32) -> Seq<Plane> {
    let sw = frame.width as int;
    let sh = frame.height as int;
    let w = tw as int;
    let h = th as int;
    let luma = Plane { src_base: 0, src_stride: sw, unit: 1, sw: sw, sh: sh, dst_base: 0, tw: w, th: h };
    match frame.format {
        PixelFormat::RGBA | PixelFormat::BGRA => seq![
            Plane { src_base: 0, src_stride: sw * 4, unit: 4, sw: sw, sh: sh, dst_base: 0, tw: w, th: h },
        ],
        PixelFormat::Rgb24 | PixelFormat::Bgr24 => seq![
            Plane { src_base: 0, src_stride: sw * 3, unit: 3, sw: sw, sh: sh, dst_base: 0, tw: w, th: h },
        ],
        PixelFormat::YUY2 | PixelFormat::UYVY => seq![
            Plane { src_base: 0, src_stride: sw * 2, unit: 2, sw: sw, sh: sh, dst_base: 0, tw: w, th: h },
        ],
        PixelFormat::NV12 => seq![
            luma,
            Plane {
                src_base: sw * sh,
                src_stride: sw,
                unit: 2,
                sw: sw / 2,
                sh: sh / 2,
                dst_base: w * h,
                tw: w / 2,
                th: h / 2,
            },
        ],
        PixelFormat::I420 => seq![
            luma,
            Plane {
                src_base: sw * sh,
                src_stride: sw / 2,
                unit: 1,
                sw: sw / 2,
                sh: sh / 2,
                dst_base: w * h,
                tw: w / 2,
                th: h / 2,
            },
            Plane {
                src_base: sw * sh + (sw / 2) * (sh / 2),
                src_stride: sw / 2,
                unit: 1,
                sw: sw / 2,
                sh: sh / 2,
                dst_base: w * h + (w / 2) * (h / 2),
                tw: w / 2,
                th: h / 2,
            },
        ],
        PixelFormat::I422 => seq![
            luma,
            Plane {
                src_base: sw * sh,
                src_stride: sw / 2,
                unit: 1,
                sw: sw / 2,
                sh: sh,
                dst_base: w * h,
                tw: w / 2,
                th: h,
            },
            Plane {
                src_base: sw * sh + (sw / 2) * sh,
                src_stride: sw / 2,
                unit: 1,
                sw: sw / 2,
                sh: sh,
                dst_base: w * h + (w / 2) * h,
                tw: w / 2,
                th: h,
            },
        ],
        PixelFormat::I444 => seq![
            luma,
            Plane { src_base: sw * sh, src_stride: sw, unit: 1, sw: sw, sh: sh, dst_base: w * h, tw: w, th: h },
            Plane {
                src_base: 2 * (sw * sh),
                src_stride: sw,
                unit: 1,
                sw: sw,
                sh: sh,
                dst_base: 2 * (w * h),
                tw: w,
                th: h,
            },
        ],
    }
}

/// Where the last plane ends in the output buffer.
pub open spec fn planes_end(planes: Seq<Plane>) -> int {
    let last = planes[planes.len() - 1];
    last.dst_base + plane_size(last)
}

/// `scale_frame` can scale `frame` to `tw` x `th`: every non-empty output
/// plane reads a non-empty source plane that lies in the frame's buffer, and
/// the sizes fit the machine.
pub open spec fn scale_fits(frame: VideoFrame, tw: u32, th: u32) -> bool {
    let planes = scale_planes(frame, tw, th);
    tw == 0 || th == 0 || {
        &&& linesize_fits(tw, frame.format)
        &&& result_len(tw, th, frame.format) <= usize::MAX
        &&& forall|i: int|
            0 <= i < planes.len() && plane_nonempty(#[trigger] planes[i]) ==> plane_fits(
                planes[i],
                frame.data@.len() as int,
            )
    }
}

/// The buffer of `frame` scaled to `tw` x `th`: every plane interpolated,
/// and every byte after the last plane zero.
pub open spec fn scaled(data: Seq<u8>, frame: VideoFrame, tw: u32, th: u32) -> bool {
    let planes = scale_planes(frame, tw, th);
    &&& forall|i: int| 0 <= i < planes.len() ==> plane_interpolated(data, frame.data@, #[trigger] planes[i])
    &&& forall|q: int| planes_end(planes) <= q < data.len() ==> data[q] == 0
}

/// The planes follow one another from offset 0 and end within the whole
/// frame buffer.
proof fn lemma_plane_sizes(frame: VideoFrame, tw: u32, th: u32)
    requires
        tw >= 1,
        th >= 1,
    ensures
        scale_planes(frame, tw, th).len() >= 1,
        scale_planes(frame, tw, th)[0].dst_base == 0,
        forall|i: int|
            1 <= i < scale_planes(frame, tw, th).len() ==> (#[trigger] scale_planes(frame, tw, th)[i]).dst_base
                == scale_planes(frame, tw, th)[i - 1].dst_base + plane_size(scale_planes(frame, tw, th)[i - 1]),
        forall|i: int|
            0 <= i < scale_planes(frame, tw, th).len() ==> 0 <= plane_size(#[trigger] scale_planes(frame, tw, th)[i]),
        planes_end(scale_planes(frame, tw, th)) <= frame_len(tw, th, frame.format),
        forall|i: int|
            0 <= i < scale_planes(frame, tw, th).len() ==> 0 <= (#[trigger] scale_planes(frame, tw, th)[i]).dst_base
                && 0 <= scale_planes(frame, tw, th)[i].unit && scale_planes(frame, tw, th)[i].dst_base + plane_size(
                scale_planes(frame, tw, th)[i],
            ) <= planes_end(scale_planes(frame, tw, th)),
{
    let planes = scale_planes(frame, tw, th);
    let w = tw as int;
    let h = th as int;
    let m = w * h;
    let a = w / 2;
    let b = h / 2;
    assert(0 <= m) by (nonlinear_arith)
        requires
            w >= 1,
            h >= 1,
            m == w * h,
    ;
    assert(0 <= a * b && 4 * (a * b) <= m) by (nonlinear_arith)
        requires
            0 <= 2 * a <= w,
            0 <= 2 * b <= h,
            m == w * h,
    ;
    assert(0 <= a * h && 2 * (a * h) <= m) by (nonlinear_arith)
        requires
            0 <= 2 * a <= w,
            h >= 1,
            m == w * h,
    ;
    assert(w * h * 1 == m && w * h * 2 == 2 * m && w * h * 3 == 3 * m && w * h * 4 == 4 * m) by (nonlinear_arith)
        requires
            m == w * h,
    ;
    assert(a * b * 2 == 2 * (a * b) && a * b * 1 == a * b && a * h * 1 == a * h) by (nonlinear_arith);
    assert(tw * th == m);
}

/// A plane stays interpolated when the bytes before its end keep their
/// values.
proof fn lemma_plane_kept(before: Seq<u8>, after: Seq<u8>, src: Seq<u8>, p: Plane)
    requires
        plane_interpolated(before, src, p),
        before.len() <= after.len(),
        forall|i: int| 0 <= i < before.len() ==> after[i] == before[i],
        0 <= p.dst_base,
        0 <= p.unit,
        plane_nonempty(p) ==> p.dst_base + plane_size(p) <= before.len(),
    ensures
        plane_interpolated(after, src, p),
{
    assert forall|dx: int, dy: int, c: int|
        0 <= dx < p.tw && 0 <= dy < p.th && 0 <= c < p.unit implies #[trigger] after[plane_at(p, dx, dy, c)]
        == bilinear(src, p, dx, dy, c) by {
        lemma_sample_index(p, dx, dy, c, 0, p.th, 0);
        assert(p.tw * p.th * p.unit == p.th * (p.tw * p.unit)) by (nonlinear_arith);
        assert(before[plane_at(p, dx, dy, c)] == bilinear(src, p, dx, dy, c));
    }
}

/// An offset that fits the machine, as `usize`.
fn to_offset(v: u128) -> (r: usize)
    ensures
        v <= usize::MAX ==> r == v,
{
    v as usize
}

/// Scales `frame` to `target_width` x `target_height` by bilinear
/// interpolation, plane by plane. The item's `scale` enters only through the
/// target size. A zero target size gives a blank 1 x 1 frame.
/// The planes of `frame` scaled to `tw` x `th` lie in `out` one after the
/// other, each interpolated.
pub open spec fn planes_filled(out: Seq<u8>, frame: VideoFrame, tw: u32, th: u32) -> bool {
    let planes = scale_planes(frame, tw, th);
    &&& out.len() == planes_end(planes)
    &&& forall|i: int| 0 <= i < planes.len() ==> plane_interpolated(out, frame.data@, #[trigger] planes[i])
}

/// Bytes per sample of the interleaved formats (0 for the planar ones).
pub open spec fn interleaved_unit(f: PixelFormat) -> int {
    match f {
        PixelFormat::RGBA | PixelFormat::BGRA => 4,
        PixelFormat::Rgb24 | PixelFormat::Bgr24 => 3,
        PixelFormat::YUY2 | PixelFormat::UYVY => 2,
        _ => 0,
    }
}

proof fn lemma_source_products(sw: u32, sh: u32)
    ensures
        sw * sh <= 0xffff_ffff * 0xffff_ffff,
        (sw / 2) * (sh / 2) <= 0xffff_ffff * 0xffff_ffff,
        (sw / 2) * sh <= 0xffff_ffff * 0xffff_ffff,
{
    assert(sw * sh <= 0xffff_ffff * 0xffff_ffff) by (nonlinear_arith)
        requires
            sw <= 0xffff_ffff,
            sh <= 0xffff_ffff,
    ;
    assert((sw / 2) * (sh / 2) <= 0xffff_ffff * 0xffff_ffff) by (nonlinear_arith)
        requires
            sw / 2 <= 0xffff_ffff,
            sh / 2 <= 0xffff_ffff,
            0 <= sw / 2,
            0 <= sh / 2,
    ;
    assert((sw / 2) * sh <= 0xffff_ffff * 0xffff_ffff) by (nonlinear_arith)
        requires
            sw / 2 <= 0xffff_ffff,
            sh <= 0xffff_ffff,
            0 <= sw / 2,
    ;
}

/// The single plane of an interleaved frame.
fn fill_interleaved(frame: &VideoFrame, tw: u32, th: u32, unit: usize) -> (out: Vec<u8>)
    requires
        tw >= 1,
        th >= 1,
        scale_fits(*frame, tw, th),
        interleaved_unit(frame.format) == unit,
        unit > 0,
    ensures
        planes_filled(out@, *frame, tw, th),
{
    let ghost planes = scale_planes(*frame, tw, th);
    proof {
        lemma_plane_sizes(*frame, tw, th);
        assert(plane_fits(planes[0], frame.data@.len() as int));
    }
    let mut out: Vec<u8> = Vec::new();
    let sw = frame.width;
    interpolate_plane(&mut out, &frame.data, 0, sw as usize * unit, unit, sw, frame.height, tw, th);
    out
}

/// The luma and interleaved chroma planes of an NV12 frame.
fn fill_nv12(frame: &VideoFrame, tw: u32, th: u32) -> (out: Vec<u8>)
    requires
        tw >= 1,
        th >= 1,
        scale_fits(*frame, tw, th),
        frame.format == PixelFormat::NV12,
    ensures
        planes_filled(out@, *frame, tw, th),
{
    let ghost planes = scale_planes(*frame, tw, th);
    let ghost src = frame.data@;
    let sw = frame.width;
    let sh = frame.height;
    proof {
        lemma_plane_sizes(*frame, tw, th);
        lemma_source_products(sw, sh);
        assert(plane_fits(planes[0], src.len() as int));
        if plane_nonempty(planes[1]) {
            assert(plane_fits(planes[1], src.len() as int));
        }
    }
    let mut out: Vec<u8> = Vec::new();
    interpolate_plane(&mut out, &frame.data, 0, sw as usize, 1, sw, sh, tw, th);
    let ghost after_luma = out@;
    let plane = to_offset(sw as u128 * sh as u128);
    interpolate_plane(&mut out, &frame.data, plane, sw as usize, 2, sw / 2, sh / 2, tw / 2, th / 2);
    proof {
        lemma_plane_kept(after_luma, out@, src, planes[0]);
        assert forall|i: int| 0 <= i < planes.len() implies plane_interpolated(out@, src, #[trigger] planes[i]) by {
        }
    }
    out
}

/// The luma and two chroma planes of an I420, I422 or I444 frame; the
/// chroma planes hold `csw` x `csh` source samples and `ctw` x `cth` output
/// samples.
#[verifier::rlimit(60)]
fn fill_three_planes(frame: &VideoFrame, tw: u32, th: u32, csw: u32, csh: u32, ctw: u32, cth: u32) -> (out: Vec<u8>)
    requires
        tw >= 1,
        th >= 1,
        scale_fits(*frame, tw, th),
        frame.format == PixelFormat::I420 ==> csw == frame.width / 2 && csh == frame.height / 2 && ctw == tw / 2
            && cth == th / 2,
        frame.format == PixelFormat::I422 ==> csw == frame.width / 2 && csh == frame.height && ctw == tw / 2
            && cth == th,
        frame.format == PixelFormat::I444 ==> csw == frame.width && csh == frame.height && ctw == tw && cth
            == th,
        frame.format == PixelFormat::I420 || frame.format == PixelFormat::I422 || frame.format
            == PixelFormat::I444,
    ensures
        planes_filled(out@, *frame, tw, th),
{
    let ghost planes = scale_planes(*frame, tw, th);
    let ghost src = frame.data@;
    let sw = frame.width;
    let sh = frame.height;
    proof {
        lemma_plane_sizes(*frame, tw, th);
        lemma_source_products(sw, sh);
        assert(sw * sh <= 0xffff_ffff * 0xffff_ffff) by (nonlinear_arith)
            requires
                sw <= 0xffff_ffff,
                sh <= 0xffff_ffff,
        ;
        assert(csw * csh <= 0xffff_ffff * 0xffff_ffff) by (nonlinear_arith)
            requires
                csw <= 0xffff_ffff,
                csh <= 0xffff_ffff,
        ;
        assert(plane_fits(planes[0], src.len() as int));
        if plane_nonempty(planes[1]) {
            assert(plane_fits(planes[1], src.len() as int));
            assert(plane_fits(planes[2], src.len() as int));
        }
    }
    let mut out: Vec<u8> = Vec::new();
    interpolate_plane(&mut out, &frame.data, 0, sw as usize, 1, sw, sh, tw, th);
    let ghost after_luma = out@;
    let u_base = to_offset(sw as u128 * sh as u128);
    interpolate_plane(&mut out, &frame.data, u_base, csw as usize, 1, csw, csh, ctw, cth);
    let ghost after_u = out@;
    let v_base = to_offset(sw as u128 * sh as u128 + csw as u128 * csh as u128);
    interpolate_plane(&mut out, &frame.data, v_base, csw as usize, 1, csw, csh, ctw, cth);
    proof {
        lemma_plane_kept(after_luma, after_u, src, planes[0]);
        lemma_plane_kept(after_u, out@, src, planes[0]);
        lemma_plane_kept(after_u, out@, src, planes[1]);
        assert forall|i: int| 0 <= i < planes.len() implies plane_interpolated(out@, src, #[trigger] planes[i]) by {
        }
    }
    out
}

pub fn scale_frame(frame: &VideoFrame, _scale: Scale, target_width: u32, target_height: u32) -> (r: VideoFrame)
    requires
        scale_fits(*frame, target_width, target_height),
    ensures
        target_width == 0 || target_height == 0 ==> blank_frame(r, 1, 1, frame.format),
        target_width > 0 && target_height > 0 ==> {
            &&& r.width == target_width
            &&& r.height == target_height
            &&& r.format == frame.format
            &&& r.pts == frame.pts
            &&& r.duration == frame.duration
            &&& r.linesize@ == spec_linesize(target_width, frame.format)
            &&& r.data@.len() == result_len(target_width, target_height, frame.format)
            &&& scaled(r.data@, *frame, target_width, target_height)
        },
{
    if target_width == 0 || target_height == 0 {
        return VideoFrame::new(1, 1, frame.format);
    }
    let mut result = VideoFrame::new(target_width, target_height, frame.format);
    result.pts = frame.pts;
    result.duration = frame.duration;
    let ghost planes = scale_planes(*frame, target_width, target_height);
    let ghost src = frame.data@;
    let sw = frame.width;
    let sh = frame.height;
    let tw = target_width;
    let th = target_height;
    let total = result_len_exec(tw, th, frame.format) as usize;
    proof {
        lemma_plane_sizes(*frame, tw, th);
    }
    let mut out = fill_planes(frame, tw, th);
    let ghost filled = out@;
    let end = out.len();
    while out.len() < total
        invariant
            total == result_len(tw, th, frame.format),
            end == filled.len(),
            filled.len() <= out@.len() <= total,
            forall|i: int| 0 <= i < filled.len() ==> out@[i] == filled[i],
            forall|q: int| filled.len() <= q < out@.len() ==> out@[q] == 0,
        decreases total - out.len(),
    {
        out.push(0);
    }
    proof {
        lemma_padded(filled, out@, *frame, tw, th);
    }
    result.data = out;
    result
}

/// The planes of `frame` scaled to `tw` x `th`, one after the other.
fn fill_planes(frame: &VideoFrame, tw: u32, th: u32) -> (out: Vec<u8>)
    requires
        tw >= 1,
        th >= 1,
        scale_fits(*frame, tw, th),
    ensures
        planes_filled(out@, *frame, tw, th),
{
    let sw = frame.width;
    let sh = frame.height;
    match frame.format {
        PixelFormat::RGBA | PixelFormat::BGRA => fill_interleaved(frame, tw, th, 4),
        PixelFormat::Rgb24 | PixelFormat::Bgr24 => fill_interleaved(frame, tw, th, 3),
        PixelFormat::YUY2 | PixelFormat::UYVY => fill_interleaved(frame, tw, th, 2),
        PixelFormat::NV12 => fill_nv12(frame, tw, th),
        PixelFormat::I420 => fill_three_planes(frame, tw, th, sw / 2, sh / 2, tw / 2, th / 2),
        PixelFormat::I422 => fill_three_planes(frame, tw, th, sw / 2, sh, tw / 2, th),
        PixelFormat::I444 => fill_three_planes(frame, tw, th, sw, sh, tw, th),
    }
}

/// Filled planes followed by zeros give the scaled buffer.
proof fn lemma_padded(filled: Seq<u8>, out: Seq<u8>, frame: VideoFrame, tw: u32, th: u32)
    requires
        tw >= 1,
        th >= 1,
        planes_filled(filled, frame, tw, th),
        filled.len() <= out.len(),
        forall|i: int| 0 <= i < filled.len() ==> out[i] == filled[i],
        forall|q: int| filled.len() <= q < out.len() ==> out[q] == 0,
    ensures
        scaled(out, frame, tw, th),
{
    let planes = scale_planes(frame, tw, th);
    lemma_plane_sizes(frame, tw, th);
    assert forall|i: int| 0 <= i < planes.len() implies plane_interpolated(out, frame.data@, #[trigger] planes[i]) by {
        let p = planes[i];
        assert(plane_interpolated(filled, frame.data@, p));
        assert(0 <= p.dst_base && 0 <= p.unit && p.dst_base + plane_size(p) <= filled.len());
        lemma_plane_kept(filled, out, frame.data@, p);
    }
}

/// Whether a plane with these figures reads only bytes of a source buffer of
/// `src_len` bytes (see `plane_fits`).
fn plane_fits_exec(
    src_base: u128,
    src_stride: u128,
    unit: u128,
    sw: u32,
    sh: u32,
    tw: u32,
    th: u32,
    src_len: usize,
) -> (r: bool)
    ensures
        r == plane_fits(
            Plane {
                src_base: src_base as int,
                src_stride: src_stride as int,
                unit: unit as int,
                sw: sw as int,
                sh: sh as int,
                dst_base: 0,
                tw: tw as int,
                th: th as int,
            },
            src_len as int,
        ),
{
    let umax = usize::MAX as u128;
    if src_base > umax || src_stride > umax || unit < 1 || unit > 4 || sw < 1 || sh < 1 || tw < 1 || th < 1 {
        return false;
    }
    proof {
        assert((sh - 1) * src_stride <= 0xffff_ffff * 0xffff_ffff_ffff_ffff) by (nonlinear_arith)
            requires
                0 <= sh - 1 <= 0xffff_ffff,
                0 <= src_stride <= 0xffff_ffff_ffff_ffff,
        ;
        assert((sw - 1) * unit <= 0xffff_ffff * 4) by (nonlinear_arith)
            requires
                0 <= sw - 1 <= 0xffff_ffff,
                0 <= unit <= 4,
        ;
    }
    src_base + (sh as u128 - 1) * src_stride + (sw as u128 - 1) * unit + unit <= src_len as u128
}

/// Whether `scale_frame` can scale `frame` to `target_width` x
/// `target_height` (where it cannot, scaling fails).
pub fn scale_fits_exec(frame: &VideoFrame, target_width: u32, target_height: u32) -> (r: bool)
    ensures
        r == scale_fits(*frame, target_width, target_height),
{
    let tw = target_width;
    let th = target_height;
    if tw == 0 || th == 0 {
        return true;
    }
    if !linesize_fits_exec(tw, frame.format) {
        return false;
    }
    if result_len_exec(tw, th, frame.format) > usize::MAX as u128 {
        return false;
    }
    let ghost planes = scale_planes(*frame, tw, th);
    let n = frame.data.len();
    let sw = frame.width;
    let sh = frame.height;
    proof {
        assert(sw * sh <= 0xffff_ffff * 0xffff_ffff) by (nonlinear_arith)
            requires
                sw <= 0xffff_ffff,
                sh <= 0xffff_ffff,
        ;
    }
    let wh = sw as u128 * sh as u128;
    let hw = (sw / 2) as u128;
    let hh = (sh / 2) as u128;
    proof {
        assert(hw * hh <= 0xffff_ffff * 0xffff_ffff) by (nonlinear_arith)
            requires
                hw <= 0xffff_ffff,
                hh <= 0xffff_ffff,
        ;
        assert(hw * sh <= 0xffff_ffff * 0xffff_ffff) by (nonlinear_arith)
            requires
                hw <= 0xffff_ffff,
                sh <= 0xffff_ffff,
        ;
    }
    let r = match frame.format {
        PixelFormat::RGBA | PixelFormat::BGRA => plane_fits_exec(0, sw as u128 * 4, 4, sw, sh, tw, th, n),
        PixelFormat::Rgb24 | PixelFormat::Bgr24 => plane_fits_exec(0, sw as u128 * 3, 3, sw, sh, tw, th, n),
        PixelFormat::YUY2 | PixelFormat::UYVY => plane_fits_exec(0, sw as u128 * 2, 2, sw, sh, tw, th, n),
        PixelFormat::NV12 => {
            plane_fits_exec(0, sw as u128, 1, sw, sh, tw, th, n) && (tw / 2 == 0 || th / 2 == 0
                || plane_fits_exec(wh, sw as u128, 2, sw / 2, sh / 2, tw / 2, th / 2, n))
        },
        PixelFormat::I420 => {
            plane_fits_exec(0, sw as u128, 1, sw, sh, tw, th, n) && (tw / 2 == 0 || th / 2 == 0 || (
            plane_fits_exec(wh, hw, 1, sw / 2, sh / 2, tw / 2, th / 2, n) && plane_fits_exec(
                wh + hw * hh,
                hw,
                1,
                sw / 2,
                sh / 2,
                tw / 2,
                th / 2,
                n,
            )))
        },
        PixelFormat::I422 => {
            plane_fits_exec(0, sw as u128, 1, sw, sh, tw, th, n) && (tw / 2 == 0 || (plane_fits_exec(
                wh,
                hw,
                1,
                sw / 2,
                sh,
                tw / 2,
                th,
                n,
            ) && plane_fits_exec(wh + hw * sh as u128, hw, 1, sw / 2, sh, tw / 2, th, n)))
        },
        PixelFormat::I444 => {
            plane_fits_exec(0, sw as u128, 1, sw, sh, tw, th, n) && plane_fits_exec(wh, sw as u128, 1, sw, sh, tw, th, n)
                && plane_fits_exec(2 * wh, sw as u128, 1, sw, sh, tw, th, n)
        },
    };
    proof {
        let sl = frame.data@.len() as int;
        if r {
            assert forall|i: int|
                0 <= i < planes.len() && plane_nonempty(#[trigger] planes[i]) implies plane_fits(planes[i], sl) by {
                if i == 0 {
                } else if i == 1 {
                } else {
                }
            }
        } else {
            if !plane_fits(planes[0], sl) {
                assert(plane_nonempty(planes[0]));
            } else if planes.len() > 1 && plane_nonempty(planes[1]) && !plane_fits(planes[1], sl) {
            } else {
                assert(planes.len() > 2 && plane_nonempty(planes[2]) && !plane_fits(planes[2], sl));
            }
        }
    }
    r
}

} // verus!
