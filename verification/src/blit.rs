//! Rectangle clamping, solid fills and the nearest-neighbour blitter with
//! source / destination colour keys (the pixel work behind `Blt`/`BltFast`).

use vstd::prelude::*;
use crate::grid::{pix, in_rect_bytes, lemma_pix_bound, lemma_pix_decode, lemma_pix_in_rect, lemma_pix_injective, lemma_index_decode};
use crate::pixel::{blit_bytes_pp, packed_value, read_width, key_for_bpp, expand_channels, converted_bytes, read_pixel, convert_to_bytes};


verus! {

/// A rectangle as the game passes it (`RECT`).
#[derive(Clone, Copy, PartialEq, Eq, Debug)]
pub struct Rect {
    pub left: i32,
    pub top: i32,
    pub right: i32,
    pub bottom: i32,
}

/// Edges of a clamped rectangle `(x0, y0, x1, y1)`, `x0 <= x1`, `y0 <= y1`.
pub type Span = (usize, usize, usize, usize);

/// What `rect_clamp` gives for an optional rectangle on a `w` x `h` surface.
pub open spec fn clamp_spec(r: Option<Rect>, w: usize, h: usize) -> Span {
    match r {
        None => (0, 0, w, h),
        Some(rc) => {
            let x0: int = if rc.left < 0 { 0 } else { rc.left as int };
            let y0: int = if rc.top < 0 { 0 } else { rc.top as int };
            let x1: int = if rc.right < 0 { 0 } else if rc.right >= w { w as int } else { rc.right as int };
            let y1: int = if rc.bottom < 0 { 0 } else if rc.bottom >= h { h as int } else { rc.bottom as int };
            (
                x0 as usize,
                y0 as usize,
                (if x1 < x0 { x0 } else { x1 }) as usize,
                (if y1 < y0 { y0 } else { y1 }) as usize,
            )
        },
    }
}

/// Clamps a rectangle to a `w` x `h` surface; no rectangle means the whole
/// surface. Each edge is clamped into `0..=w` (or `0..=h`); an inverted
/// rectangle collapses onto its left/top edge, so a rectangle wholly outside
/// the surface covers nothing.
pub fn rect_clamp(r: Option<Rect>, w: usize, h: usize) -> (res: Span)
    requires
        w <= i32::MAX,
        h <= i32::MAX,
    ensures
        res == clamp_spec(r, w, h),
        res.0 <= res.2,
        res.1 <= res.3,
        res.0 < res.2 ==> res.2 <= w,
        res.1 < res.3 ==> res.3 <= h,
{
    match r {
        None => (0, 0, w, h),
        Some(rc) => {
            let x0: usize = if rc.left < 0 { 0 } else { rc.left as usize };
            let y0: usize = if rc.top < 0 { 0 } else { rc.top as usize };
            let x1: usize = if rc.right < 0 { 0 } else if rc.right as usize >= w { w } else { rc.right as usize };
            let y1: usize = if rc.bottom < 0 { 0 } else if rc.bottom as usize >= h { h } else { rc.bottom as usize };
            (x0, y0, if x1 < x0 { x0 } else { x1 }, if y1 < y0 { y0 } else { y1 })
        },
    }
}

/// The overlap of two spans, if it has any area.
pub open spec fn intersect_spec(a: Span, b: Span) -> Option<Span> {
    let x0 = if a.0 >= b.0 { a.0 } else { b.0 };
    let y0 = if a.1 >= b.1 { a.1 } else { b.1 };
    let x1 = if a.2 <= b.2 { a.2 } else { b.2 };
    let y1 = if a.3 <= b.3 { a.3 } else { b.3 };
    if x1 > x0 && y1 > y0 {
        Some((x0, y0, x1, y1))
    } else {
        None
    }
}

/// Intersects two clamped rectangles; `None` when they do not overlap.
pub fn intersect_rect(a: Span, b: Span) -> (res: Option<Span>)
    ensures
        res == intersect_spec(a, b),
{
    let x0 = if a.0 >= b.0 { a.0 } else { b.0 };
    let y0 = if a.1 >= b.1 { a.1 } else { b.1 };
    let x1 = if a.2 <= b.2 { a.2 } else { b.2 };
    let y1 = if a.3 <= b.3 { a.3 } else { b.3 };
    if x1 > x0 && y1 > y0 {
        Some((x0, y0, x1, y1))
    } else {
        None
    }
}

/// Writes `bytes` at `off`, leaving every other byte alone.
fn write_bytes_at(dst: &mut Vec<u8>, off: usize, bytes: &Vec<u8>)
    requires
        off + bytes@.len() <= old(dst)@.len(),
    ensures
        final(dst)@.len() == old(dst)@.len(),
        forall|k: int| 0 <= k < bytes@.len() ==> final(dst)@[off + k] == bytes@[k],
        forall|i: int|
            0 <= i < old(dst)@.len() && !(off <= i < off + bytes@.len()) ==> final(dst)@[i] == old(
                dst,
            )@[i],
{
    let total = dst.len();
    let mut j: usize = 0;
    while j < bytes.len()
        invariant
            total == old(dst)@.len(),
            j <= bytes@.len(),
            off + bytes@.len() <= old(dst)@.len(),
            dst@.len() == old(dst)@.len(),
            forall|k: int| 0 <= k < j ==> dst@[off + k] == bytes@[k],
            forall|i: int|
                0 <= i < old(dst)@.len() && !(off <= i < off + j) ==> dst@[i] == old(dst)@[i],
        decreases bytes@.len() - j,
    {
        dst.set(off + j, bytes[j]);
        j = j + 1;
    }
}

/// Byte `k` of pixel `(x, y)` after a solid fill of `[x0, x1) x [y0, y1)`.
pub open spec fn fill_byte(
    old: Seq<u8>,
    pitch: int,
    bytes: Seq<u8>,
    x0: int,
    x1: int,
    y0: int,
    y1: int,
    x: int,
    y: int,
    k: int,
) -> u8 {
    if x0 <= x < x1 && y0 <= y < y1 {
        bytes[k]
    } else {
        old[pix(pitch, bytes.len() as int, x, y, k)]
    }
}

/// The buffer after a solid fill of the span `s` with one pixel's `bytes`.
pub open spec fn fill_result(old: Seq<u8>, pitch: int, bytes: Seq<u8>, s: Span) -> Seq<u8> {
    Seq::new(
        old.len(),
        |i: int|
            if s.0 < s.2 && s.1 < s.3 && bytes.len() > 0 && in_rect_bytes(
                i,
                pitch,
                bytes.len() as int,
                s.0 as int,
                s.2 as int,
                s.1 as int,
                s.3 as int,
            ) {
                bytes[(i % pitch) % (bytes.len() as int)]
            } else {
                old[i]
            },
    )
}

/// Solid-fills the pixels of `[x0, x1) x [y0, y1)` with `bytes` (one pixel's
/// worth). Nothing happens for an empty rectangle or empty pixel.
pub fn fill_region(dst: &mut Vec<u8>, pitch: usize, x0: usize, y0: usize, x1: usize, y1: usize, bytes: &Vec<u8>)
    requires
        x0 < x1 && y0 < y1 && bytes@.len() > 0 ==> {
            &&& x1 * bytes@.len() <= pitch
            &&& y1 * pitch <= old(dst)@.len()
        },
    ensures
        final(dst)@.len() == old(dst)@.len(),
        final(dst)@ == fill_result(old(dst)@, pitch as int, bytes@, (x0, y0, x1, y1)),
        x0 < x1 && y0 < y1 && bytes@.len() > 0 ==> forall|x: int, y: int, k: int|
            x0 <= x < x1 && y0 <= y < y1 && 0 <= k < bytes@.len() ==> #[trigger] final(dst)@[pix(
                pitch as int,
                bytes@.len() as int,
                x,
                y,
                k,
            )] == bytes@[k],
        forall|i: int|
            0 <= i < old(dst)@.len() && !in_rect_bytes(
                i,
                pitch as int,
                bytes@.len() as int,
                x0 as int,
                x1 as int,
                y0 as int,
                y1 as int,
            ) ==> final(dst)@[i] == old(dst)@[i],
{
    if x1 <= x0 || y1 <= y0 || bytes.len() == 0 {
        assert(dst@ =~= fill_result(old(dst)@, pitch as int, bytes@, (x0, y0, x1, y1)));
        return ;
    }
    let n = bytes.len();
    let total = dst.len();
    let ghost p = pitch as int;
    let ghost nn = n as int;
    assert(p > 0) by (nonlinear_arith)
        requires
            x1 * nn <= p,
            x1 > 0,
            nn > 0,
    ;
    let mut y = y0;
    while y < y1
        invariant
            y0 <= y <= y1,
            x0 < x1,
            p == pitch,
            nn == n,
            n == bytes@.len(),
            n > 0,
            p > 0,
            x1 * nn <= p,
            y1 * p <= old(dst)@.len(),
            total == old(dst)@.len(),
            dst@.len() == old(dst)@.len(),
            forall|xx: int, yy: int, k: int|
                x0 <= xx < x1 && y0 <= yy < y && 0 <= k < nn ==> #[trigger] dst@[pix(p, nn, xx, yy, k)]
                    == bytes@[k],
            forall|i: int|
                0 <= i < old(dst)@.len() && !in_rect_bytes(i, p, nn, x0 as int, x1 as int, y0 as int, y as int)
                    ==> dst@[i] == old(dst)@[i],
        decreases y1 - y,
    {
        let mut x = x0;
        while x < x1
            invariant
                y0 <= y < y1,
                x0 <= x <= x1,
                p == pitch,
                nn == n,
                n == bytes@.len(),
                n > 0,
                p > 0,
                x1 * nn <= p,
                y1 * p <= old(dst)@.len(),
                total == old(dst)@.len(),
                dst@.len() == old(dst)@.len(),
                forall|xx: int, yy: int, k: int|
                    x0 <= xx < x1 && y0 <= yy < y && 0 <= k < nn ==> #[trigger] dst@[pix(p, nn, xx, yy, k)]
                        == bytes@[k],
                forall|xx: int, k: int|
                    x0 <= xx < x && 0 <= k < nn ==> #[trigger] dst@[pix(p, nn, xx, y as int, k)] == bytes@[k],
                forall|i: int|
                    0 <= i < old(dst)@.len() && !in_rect_bytes(i, p, nn, x0 as int, x1 as int, y0 as int, y as int)
                        && !in_rect_bytes(i, p, nn, x0 as int, x as int, y as int, y as int + 1) ==> dst@[i]
                        == old(dst)@[i],
            decreases x1 - x,
        {
            proof {
                assert((x + 1) * nn <= x1 * nn) by (nonlinear_arith)
                    requires
                        x < x1,
                        nn > 0,
                ;
                assert(x * nn + (nn - 1) < p) by (nonlinear_arith)
                    requires
                        (x + 1) * nn <= p,
                ;
                lemma_pix_bound(p, nn, x as int, y as int, nn - 1, y1 as int);
                assert(y1 * p <= old(dst)@.len());
            }
            let off = y * pitch + x * n;
            let ghost before = dst@;
            write_bytes_at(dst, off, bytes);
            proof {
                assert forall|k: int| 0 <= k < nn implies #[trigger] dst@[pix(p, nn, x as int, y as int, k)]
                    == bytes@[k] by {
                    assert(pix(p, nn, x as int, y as int, k) == off + k);
                }
                assert forall|i: int|
                    0 <= i < old(dst)@.len() && off <= i < off + nn implies #[trigger] in_rect_bytes(
                    i,
                    p,
                    nn,
                    x0 as int,
                    x as int + 1,
                    y as int,
                    y as int + 1,
                ) by {
                    let k = i - off;
                    assert(x * nn + k < p) by (nonlinear_arith)
                        requires
                            (x + 1) * nn <= p,
                            k < nn,
                    ;
                    lemma_pix_in_rect(p, nn, x as int, y as int, k, x0 as int, x as int + 1, y as int, y as int + 1);
                    assert(pix(p, nn, x as int, y as int, k) == i);
                }
                assert forall|xx: int, yy: int, k: int|
                    x0 <= xx < x1 && y0 <= yy < y && 0 <= k < nn implies #[trigger] dst@[pix(p, nn, xx, yy, k)]
                    == bytes@[k] by {
                    assert(xx * nn + k < p) by (nonlinear_arith)
                        requires
                            xx < x1,
                            x1 * nn <= p,
                            0 <= k < nn,
                    ;
                    lemma_pix_bound(p, nn, xx, yy, k, y1 as int);
                    let q = pix(p, nn, xx, yy, k);
                    if off <= q < off + nn {
                        let k2 = q - off;
                        assert(x * nn + k2 < p) by (nonlinear_arith)
                            requires
                                (x + 1) * nn <= p,
                                k2 < nn,
                        ;
                        lemma_pix_injective(p, nn, xx, yy, k, x as int, y as int, k2);
                    }
                    assert(dst@[q] == before[q]);
                }
                assert forall|xx: int, k: int|
                    x0 <= xx < x + 1 && 0 <= k < nn implies #[trigger] dst@[pix(p, nn, xx, y as int, k)]
                    == bytes@[k] by {
                    if xx < x {
                        assert(xx * nn + k < p) by (nonlinear_arith)
                            requires
                                xx < x1,
                                x1 * nn <= p,
                                0 <= k < nn,
                        ;
                        lemma_pix_bound(p, nn, xx, y as int, k, y1 as int);
                        let q = pix(p, nn, xx, y as int, k);
                        if off <= q < off + nn {
                            let k2 = q - off;
                            assert(x * nn + k2 < p) by (nonlinear_arith)
                                requires
                                    (x + 1) * nn <= p,
                                    k2 < nn,
                            ;
                            lemma_pix_injective(p, nn, xx, y as int, k, x as int, y as int, k2);
                        }
                        assert(dst@[q] == before[q]);
                    } else {
                        assert(pix(p, nn, xx, y as int, k) == off + k);
                    }
                }
                assert forall|i: int|
                    0 <= i < old(dst)@.len() && !in_rect_bytes(i, p, nn, x0 as int, x1 as int, y0 as int, y as int)
                        && !in_rect_bytes(i, p, nn, x0 as int, x as int + 1, y as int, y as int + 1) implies dst@[i]
                    == old(dst)@[i] by {
                    assert(x * nn <= (x + 1) * nn) by (nonlinear_arith)
                        requires
                            nn > 0,
                    ;
                    assert(!in_rect_bytes(i, p, nn, x0 as int, x as int, y as int, y as int + 1));
                }
            }
            x = x + 1;
        }
        proof {
            assert forall|i: int|
                0 <= i < old(dst)@.len() && !in_rect_bytes(i, p, nn, x0 as int, x1 as int, y0 as int, y as int + 1)
                    implies dst@[i] == old(dst)@[i] by {
                assert(!in_rect_bytes(i, p, nn, x0 as int, x1 as int, y0 as int, y as int));
                assert(!in_rect_bytes(i, p, nn, x0 as int, x1 as int, y as int, y as int + 1));
            }
        }
        y = y + 1;
    }
    proof {
        assert forall|i: int| 0 <= i < dst@.len() implies dst@[i] == fill_result(
            old(dst)@,
            p,
            bytes@,
            (x0, y0, x1, y1),
        )[i] by {
            if in_rect_bytes(i, p, nn, x0 as int, x1 as int, y0 as int, y1 as int) {
                lemma_index_decode(i, p, nn);
                let xx = (i % p) / nn;
                let yy = i / p;
                let k = (i % p) % nn;
                assert(dst@[pix(p, nn, xx, yy, k)] == bytes@[k]);
            }
        }
        assert(dst@ =~= fill_result(old(dst)@, p, bytes@, (x0, y0, x1, y1)));
    }
}

/// Destination rectangle, source rectangle and the part of the destination
/// rectangle actually written (a clip rectangle inside it), all as clamped
/// spans. The source rectangle is stretched onto the destination rectangle.
#[derive(Clone, Copy, PartialEq, Eq, Debug)]
pub struct BlitRects {
    pub dx0: usize,
    pub dy0: usize,
    pub dx1: usize,
    pub dy1: usize,
    pub sx0: usize,
    pub sy0: usize,
    pub sx1: usize,
    pub sy1: usize,
    pub subx0: usize,
    pub suby0: usize,
    pub subx1: usize,
    pub suby1: usize,
}

/// Everything a blit needs besides the two pixel buffers.
#[derive(Clone, Copy)]
pub struct BlitJob {
    pub dst_pitch: usize,
    pub dst_bpp: i32,
    pub src_pitch: usize,
    pub src_bpp: i32,
    pub rects: BlitRects,
    pub src_key: Option<u32>,
    pub dest_key: Option<u32>,
    pub rgb555: bool,
    pub palette: Option<[[u8; 4]; 256]>,
}

/// `b - a`, or 0 when `b < a`.
pub open spec fn span_len(a: usize, b: usize) -> int {
    if b >= a { b - a } else { 0 }
}

/// Source column of destination column `x` (nearest neighbour).
pub open spec fn map_x(r: BlitRects, x: int) -> int {
    r.sx0 + ((x - r.dx0) * span_len(r.sx0, r.sx1)) / span_len(r.dx0, r.dx1)
}

/// Source row of destination row `y` (nearest neighbour).
pub open spec fn map_y(r: BlitRects, y: int) -> int {
    r.sy0 + ((y - r.dy0) * span_len(r.sy0, r.sy1)) / span_len(r.dy0, r.dy1)
}

/// Whether the blit is a plain 1:1 copy: same size, same pixel width, no
/// colour keys, and the whole destination rectangle is written.
pub open spec fn is_plain_copy(j: BlitJob) -> bool {
    let r = j.rects;
    &&& span_len(r.sx0, r.sx1) == span_len(r.dx0, r.dx1)
    &&& span_len(r.sy0, r.sy1) == span_len(r.dy0, r.dy1)
    &&& blit_bytes_pp(j.src_bpp) == blit_bytes_pp(j.dst_bpp)
    &&& j.src_key is None
    &&& j.dest_key is None
    &&& r.subx0 == r.dx0
    &&& r.suby0 == r.dy0
    &&& r.subx1 == r.dx1
    &&& r.suby1 == r.dy1
}

/// Offset in the source of the pixel that lands on destination `(x, y)`.
pub open spec fn src_offset(j: BlitJob, x: int, y: int) -> int {
    pix(j.src_pitch as int, blit_bytes_pp(j.src_bpp), map_x(j.rects, x), map_y(j.rects, y), 0)
}

/// Whether destination pixel `(x, y)` is skipped because of a colour key:
/// the source pixel equals the source key, or the destination pixel equals
/// the destination key.
pub open spec fn keyed_out(old: Seq<u8>, src: Seq<u8>, j: BlitJob, x: int, y: int) -> bool {
    let p = packed_value(src, src_offset(j, x, y), j.src_bpp);
    let doff = pix(j.dst_pitch as int, blit_bytes_pp(j.dst_bpp), x, y, 0);
    ||| (match j.src_key {
        Some(k) => p == key_for_bpp(k, j.src_bpp),
        None => false,
    })
    ||| (match j.dest_key {
        Some(k) => packed_value(old, doff, j.dst_bpp) == key_for_bpp(k, j.dst_bpp),
        None => false,
    })
}

/// Byte `k` of destination pixel `(x, y)` after the blit.
pub open spec fn blit_byte(old: Seq<u8>, src: Seq<u8>, j: BlitJob, x: int, y: int, k: int) -> u8 {
    let soff = src_offset(j, x, y);
    let doff = pix(j.dst_pitch as int, blit_bytes_pp(j.dst_bpp), x, y, 0);
    if is_plain_copy(j) {
        src[soff + k]
    } else if keyed_out(old, src, j, x, y) {
        old[doff + k]
    } else {
        let out = converted_bytes(
            packed_value(src, soff, j.src_bpp),
            expand_channels(src, soff, j.src_bpp, j.rgb555, j.palette),
            j.dst_bpp,
            j.rgb555,
        );
        if k < out.len() {
            out[k]
        } else {
            old[doff + k]
        }
    }
}

/// The destination buffer after a blit.
pub open spec fn blit_result(old: Seq<u8>, src: Seq<u8>, j: BlitJob) -> Seq<u8> {
    let p = j.dst_pitch as int;
    let n = blit_bytes_pp(j.dst_bpp);
    let r = j.rects;
    Seq::new(
        old.len(),
        |i: int|
            if has_area(r) && in_rect_bytes(
                i,
                p,
                n,
                r.subx0 as int,
                r.subx1 as int,
                r.suby0 as int,
                r.suby1 as int,
            ) {
                blit_byte(old, src, j, (i % p) / n, i / p, (i % p) % n)
            } else {
                old[i]
            },
    )
}

/// The written rectangle is non-empty.
pub open spec fn has_area(r: BlitRects) -> bool {
    r.subx0 < r.subx1 && r.suby0 < r.suby1
}

/// What a blit needs to stay inside both buffers: the written rectangle lies
/// in the destination rectangle and in whole destination rows, and every
/// source pixel it maps to lies in whole source rows.
pub open spec fn blit_ready(j: BlitJob, src_len: int, dst_len: int) -> bool {
    let r = j.rects;
    let dn = blit_bytes_pp(j.dst_bpp);
    let sn = blit_bytes_pp(j.src_bpp);
    let sw = span_len(r.sx0, r.sx1);
    let sh = span_len(r.sy0, r.sy1);
    has_area(r) ==> {
        &&& r.dx0 <= r.subx0 && r.subx1 <= r.dx1
        &&& r.dy0 <= r.suby0 && r.suby1 <= r.dy1
        &&& r.subx1 * dn <= j.dst_pitch
        &&& r.suby1 * j.dst_pitch <= dst_len
        &&& (if sw > 0 { r.sx1 as int } else { r.sx0 + 1 }) * sn <= j.src_pitch
        &&& (if sh > 0 { r.sy1 as int } else { r.sy0 + 1 }) * j.src_pitch <= src_len
        &&& span_len(r.dx0, r.dx1) * sw <= usize::MAX
        &&& span_len(r.dy0, r.dy1) * sh <= usize::MAX
    }
}

proof fn lemma_map_in(a: int, s: int, d: int)
    requires
        0 <= a < d,
        0 <= s,
    ensures
        0 <= a * s <= d * s,
        s > 0 ==> (a * s) / d < s,
        s == 0 ==> (a * s) / d == 0,
        (a * s) / d >= 0,
{
    assert(0 <= a * s <= d * s) by (nonlinear_arith)
        requires
            0 <= a < d,
            0 <= s,
    ;
    if s > 0 {
        assert((a * s) / d < s) by (nonlinear_arith)
            requires
                0 <= a < d,
                s > 0,
        ;
    }
    assert((a * s) / d >= 0) by (nonlinear_arith)
        requires
            0 <= a * s,
            d > 0,
    ;
}

/// Copies `len` bytes from `src[soff..]` to `dst[doff..]`.
fn copy_bytes(dst: &mut Vec<u8>, doff: usize, src: &[u8], soff: usize, len: usize)
    requires
        doff + len <= old(dst)@.len(),
        soff + len <= src@.len(),
    ensures
        final(dst)@.len() == old(dst)@.len(),
        forall|i: int| doff <= i < doff + len ==> #[trigger] final(dst)@[i] == src@[soff + (i - doff)],
        forall|i: int|
            0 <= i < old(dst)@.len() && !(doff <= i < doff + len) ==> final(dst)@[i] == old(dst)@[i],
{
    let dl = dst.len();
    let sl = src.len();
    let mut j: usize = 0;
    while j < len
        invariant
            dl == old(dst)@.len(),
            sl == src@.len(),
            j <= len,
            doff + len <= old(dst)@.len(),
            soff + len <= src@.len(),
            dst@.len() == old(dst)@.len(),
            forall|i: int| doff <= i < doff + j ==> #[trigger] dst@[i] == src@[soff + (i - doff)],
            forall|i: int|
                0 <= i < old(dst)@.len() && !(doff <= i < doff + j) ==> dst@[i] == old(dst)@[i],
        decreases len - j,
    {
        dst.set(doff + j, src[soff + j]);
        j = j + 1;
    }
}

/// Converts one source pixel onto destination pixel `(x, y)`.
fn blit_pixel(dst: &mut Vec<u8>, src: &[u8], j: &BlitJob, plain: bool, x: usize, y: usize, sx: usize, sy: usize)
    requires
        plain == is_plain_copy(*j),
        sx == map_x(j.rects, x as int),
        sy == map_y(j.rects, y as int),
        (x + 1) * blit_bytes_pp(j.dst_bpp) <= j.dst_pitch,
        (y + 1) * j.dst_pitch <= old(dst)@.len(),
        (sx + 1) * blit_bytes_pp(j.src_bpp) <= j.src_pitch,
        (sy + 1) * j.src_pitch <= src@.len(),
    ensures
        final(dst)@.len() == old(dst)@.len(),
        forall|k: int|
            0 <= k < blit_bytes_pp(j.dst_bpp) ==> #[trigger] final(dst)@[pix(
                j.dst_pitch as int,
                blit_bytes_pp(j.dst_bpp),
                x as int,
                y as int,
                k,
            )] == blit_byte(old(dst)@, src@, *j, x as int, y as int, k),
        forall|i: int|
            0 <= i < old(dst)@.len() && !(pix(
                j.dst_pitch as int,
                blit_bytes_pp(j.dst_bpp),
                x as int,
                y as int,
                0,
            ) <= i < pix(j.dst_pitch as int, blit_bytes_pp(j.dst_bpp), x as int, y as int, blit_bytes_pp(j.dst_bpp)))
                ==> final(dst)@[i] == old(dst)@[i],
{
    let dlen = dst.len();
    let slen = src.len();
    let dn: usize = if j.dst_bpp < 8 { 1 } else { (j.dst_bpp / 8) as usize };
    let sn: usize = if j.src_bpp < 8 { 1 } else { (j.src_bpp / 8) as usize };
    let ghost dpitch = j.dst_pitch as int;
    let ghost spitch = j.src_pitch as int;
    proof {
        assert(dn > 0 && sn > 0);
        assert(dpitch > 0) by (nonlinear_arith)
            requires
                (x + 1) * dn <= dpitch,
                dn > 0,
        ;
        assert(spitch > 0) by (nonlinear_arith)
            requires
                (sx + 1) * sn <= spitch,
                sn > 0,
        ;
        assert(x * dn + (dn - 1) < dpitch) by (nonlinear_arith)
            requires
                (x + 1) * dn <= dpitch,
        ;
        assert(sx * sn + (sn - 1) < spitch) by (nonlinear_arith)
            requires
                (sx + 1) * sn <= spitch,
        ;
        lemma_pix_bound(dpitch, dn as int, x as int, y as int, dn - 1, y + 1);
        lemma_pix_bound(spitch, sn as int, sx as int, sy as int, sn - 1, sy + 1);
        assert((y + 1) * dpitch <= old(dst)@.len());
        assert((sy + 1) * spitch <= src@.len());
    }
    let doff = y * j.dst_pitch + x * dn;
    let soff = sy * j.src_pitch + sx * sn;
    assert(read_width(j.src_bpp) <= sn);
    assert(read_width(j.dst_bpp) <= dn);
    if plain {
        copy_bytes(dst, doff, src, soff, dn);
        return ;
    }
    let pal: Option<&[[u8; 4]; 256]> = match &j.palette {
        Some(p) => Some(p),
        None => None,
    };
    let (packed, bgr) = read_pixel(src, soff, j.src_bpp, j.rgb555, pal);
    let skip_src = match j.src_key {
        Some(k) => {
            let kk: u32 = if j.src_bpp == 8 {
                k % 256
            } else if j.src_bpp == 16 {
                k % 65536
            } else {
                k
            };
            packed == kk
        },
        None => false,
    };
    if skip_src {
        return ;
    }
    let skip_dst = match j.dest_key {
        Some(k) => {
            let (dp, _) = read_pixel(dst.as_slice(), doff, j.dst_bpp, j.rgb555, None);
            let kk: u32 = if j.dst_bpp == 8 {
                k % 256
            } else if j.dst_bpp == 16 {
                k % 65536
            } else {
                k
            };
            dp == kk
        },
        None => false,
    };
    if skip_dst {
        return ;
    }
    let out = convert_to_bytes(packed, bgr, j.dst_bpp, j.rgb555);
    assert(out@.len() <= dn);
    write_bytes_at(dst, doff, &out);
}


/// The bytes of pixel `(x, y)` are all `blit_byte` reads of the destination.
proof fn lemma_blit_byte_local(a: Seq<u8>, b: Seq<u8>, src: Seq<u8>, j: BlitJob, x: int, y: int, k: int)
    requires
        forall|kk: int|
            0 <= kk < blit_bytes_pp(j.dst_bpp) ==> #[trigger] a[pix(
                j.dst_pitch as int,
                blit_bytes_pp(j.dst_bpp),
                x,
                y,
                kk,
            )] == b[pix(j.dst_pitch as int, blit_bytes_pp(j.dst_bpp), x, y, kk)],
        0 <= k < blit_bytes_pp(j.dst_bpp),
    ensures
        blit_byte(a, src, j, x, y, k) == blit_byte(b, src, j, x, y, k),
{
    let dn = blit_bytes_pp(j.dst_bpp);
    let p = j.dst_pitch as int;
    let doff = pix(p, dn, x, y, 0);
    assert(a[pix(p, dn, x, y, 0)] == b[pix(p, dn, x, y, 0)]);
    assert(a[pix(p, dn, x, y, k)] == b[pix(p, dn, x, y, k)]);
    assert(pix(p, dn, x, y, k) == doff + k);
    if dn >= 2 {
        assert(a[pix(p, dn, x, y, 1)] == b[pix(p, dn, x, y, 1)]);
        assert(pix(p, dn, x, y, 1) == doff + 1);
    }
    if dn >= 4 {
        assert(a[pix(p, dn, x, y, 2)] == b[pix(p, dn, x, y, 2)]);
        assert(a[pix(p, dn, x, y, 3)] == b[pix(p, dn, x, y, 3)]);
        assert(pix(p, dn, x, y, 2) == doff + 2);
        assert(pix(p, dn, x, y, 3) == doff + 3);
    }
    assert(packed_value(a, doff, j.dst_bpp) == packed_value(b, doff, j.dst_bpp));
}

/// Blits the source pixels onto the written rectangle `subx0..subx1` x
/// `suby0..suby1` of the destination, stretching the source rectangle over
/// the destination rectangle by nearest neighbour.
///
/// A plain copy (same size and pixel width, no keys, whole rectangle)
/// copies the source bytes. Otherwise each pixel is skipped when its source
/// value equals the source key or its destination value equals the
/// destination key, and else converted through blue/green/red channels
/// (8-bit sources through the palette) into the destination format.
pub fn blit_region(dst: &mut Vec<u8>, src: &[u8], j: &BlitJob)
    requires
        blit_ready(*j, src@.len() as int, old(dst)@.len() as int),
    ensures
        final(dst)@.len() == old(dst)@.len(),
        final(dst)@ == blit_result(old(dst)@, src@, *j),
        has_area(j.rects) ==> forall|x: int, y: int, k: int|
            j.rects.subx0 <= x < j.rects.subx1 && j.rects.suby0 <= y < j.rects.suby1 && 0 <= k
                < blit_bytes_pp(j.dst_bpp) ==> #[trigger] final(dst)@[pix(
                j.dst_pitch as int,
                blit_bytes_pp(j.dst_bpp),
                x,
                y,
                k,
            )] == blit_byte(old(dst)@, src@, *j, x, y, k),
        forall|i: int|
            0 <= i < old(dst)@.len() && !in_rect_bytes(
                i,
                j.dst_pitch as int,
                blit_bytes_pp(j.dst_bpp),
                j.rects.subx0 as int,
                j.rects.subx1 as int,
                j.rects.suby0 as int,
                j.rects.suby1 as int,
            ) ==> final(dst)@[i] == old(dst)@[i],
{
    let r = j.rects;
    if r.subx1 <= r.subx0 || r.suby1 <= r.suby0 {
        assert(dst@ =~= blit_result(old(dst)@, src@, *j));
        return ;
    }
    let dw: usize = if r.dx1 >= r.dx0 { r.dx1 - r.dx0 } else { 0 };
    let dh: usize = if r.dy1 >= r.dy0 { r.dy1 - r.dy0 } else { 0 };
    let sw: usize = if r.sx1 >= r.sx0 { r.sx1 - r.sx0 } else { 0 };
    let sh: usize = if r.sy1 >= r.sy0 { r.sy1 - r.sy0 } else { 0 };
    let dn: usize = if j.dst_bpp < 8 { 1 } else { (j.dst_bpp / 8) as usize };
    let sn: usize = if j.src_bpp < 8 { 1 } else { (j.src_bpp / 8) as usize };
    let plain = sw == dw && sh == dh && sn == dn && j.src_key.is_none() && j.dest_key.is_none()
        && r.subx0 == r.dx0 && r.suby0 == r.dy0 && r.subx1 == r.dx1 && r.suby1 == r.dy1;
    let dlen = dst.len();
    let slen = src.len();
    let ghost p = j.dst_pitch as int;
    let ghost nn = dn as int;
    let ghost orig = old(dst)@;
    proof {
        assert(nn > 0);
        assert(p > 0) by (nonlinear_arith)
            requires
                r.subx1 * nn <= p,
                r.subx1 > 0,
                nn > 0,
        ;
    }
    let mut y = r.suby0;
    while y < r.suby1
        invariant
            r == j.rects,
            has_area(r),
            blit_ready(*j, src@.len() as int, orig.len() as int),
            r.suby0 <= y <= r.suby1,
            p == j.dst_pitch,
            p > 0,
            nn == dn,
            dn == blit_bytes_pp(j.dst_bpp),
            sn == blit_bytes_pp(j.src_bpp),
            dw == span_len(r.dx0, r.dx1),
            dh == span_len(r.dy0, r.dy1),
            sw == span_len(r.sx0, r.sx1),
            sh == span_len(r.sy0, r.sy1),
            plain == is_plain_copy(*j),
            dlen == orig.len(),
            slen == src@.len(),
            orig == old(dst)@,
            dst@.len() == orig.len(),
            forall|xx: int, yy: int, k: int|
                r.subx0 <= xx < r.subx1 && r.suby0 <= yy < y && 0 <= k < nn ==> #[trigger] dst@[pix(
                    p,
                    nn,
                    xx,
                    yy,
                    k,
                )] == blit_byte(orig, src@, *j, xx, yy, k),
            forall|i: int|
                0 <= i < orig.len() && !in_rect_bytes(i, p, nn, r.subx0 as int, r.subx1 as int, r.suby0 as int, y as int)
                    ==> dst@[i] == orig[i],
        decreases r.suby1 - y,
    {
        proof {
            lemma_map_in(y - r.dy0, sh as int, dh as int);
        }
        let sy: usize = r.sy0 + ((y - r.dy0) * sh) / dh;
        assert(sy + 1 <= (if sh > 0 { r.sy1 as int } else { r.sy0 + 1 }));
        let mut x = r.subx0;
        while x < r.subx1
            invariant
                r == j.rects,
                has_area(r),
                blit_ready(*j, src@.len() as int, orig.len() as int),
                r.suby0 <= y < r.suby1,
                r.subx0 <= x <= r.subx1,
                sy == map_y(r, y as int),
                sy + 1 <= (if sh > 0 { r.sy1 as int } else { r.sy0 + 1 }),
                p == j.dst_pitch,
                p > 0,
                nn == dn,
                dn == blit_bytes_pp(j.dst_bpp),
                sn == blit_bytes_pp(j.src_bpp),
                dw == span_len(r.dx0, r.dx1),
                dh == span_len(r.dy0, r.dy1),
                sw == span_len(r.sx0, r.sx1),
                sh == span_len(r.sy0, r.sy1),
                plain == is_plain_copy(*j),
                dlen == orig.len(),
                slen == src@.len(),
                dst@.len() == orig.len(),
                forall|xx: int, yy: int, k: int|
                    r.subx0 <= xx < r.subx1 && r.suby0 <= yy < y && 0 <= k < nn ==> #[trigger] dst@[pix(
                        p,
                        nn,
                        xx,
                        yy,
                        k,
                    )] == blit_byte(orig, src@, *j, xx, yy, k),
                forall|xx: int, k: int|
                    r.subx0 <= xx < x && 0 <= k < nn ==> #[trigger] dst@[pix(p, nn, xx, y as int, k)]
                        == blit_byte(orig, src@, *j, xx, y as int, k),
                forall|i: int|
                    0 <= i < orig.len() && !in_rect_bytes(
                        i,
                        p,
                        nn,
                        r.subx0 as int,
                        r.subx1 as int,
                        r.suby0 as int,
                        y as int,
                    ) && !in_rect_bytes(i, p, nn, r.subx0 as int, x as int, y as int, y as int + 1) ==> dst@[i]
                        == orig[i],
            decreases r.subx1 - x,
        {
            proof {
                lemma_map_in(x - r.dx0, sw as int, dw as int);
            }
            let sx: usize = r.sx0 + ((x - r.dx0) * sw) / dw;
            let ghost before = dst@;
            proof {
                assert((x + 1) * nn <= p) by (nonlinear_arith)
                    requires
                        x < r.subx1,
                        r.subx1 * nn <= p,
                        nn > 0,
                ;
                assert((y + 1) * p <= orig.len()) by (nonlinear_arith)
                    requires
                        y < r.suby1,
                        r.suby1 * p <= orig.len(),
                        p > 0,
                ;
                let sxe: int = if sw > 0 { r.sx1 as int } else { r.sx0 + 1 };
                let sye: int = if sh > 0 { r.sy1 as int } else { r.sy0 + 1 };
                assert(sx + 1 <= sxe);
                assert(sy + 1 <= sye);
                assert((sx + 1) * sn <= j.src_pitch) by (nonlinear_arith)
                    requires
                        sx + 1 <= sxe,
                        sxe * sn <= j.src_pitch,
                        sn > 0,
                ;
                assert((sy + 1) * j.src_pitch <= src@.len()) by (nonlinear_arith)
                    requires
                        sy + 1 <= sye,
                        sye * j.src_pitch <= src@.len(),
                ;
                assert forall|k: int| 0 <= k < nn implies #[trigger] before[pix(p, nn, x as int, y as int, k)]
                    == orig[pix(p, nn, x as int, y as int, k)] by {
                    assert(x * nn + k < p) by (nonlinear_arith)
                        requires
                            (x + 1) * nn <= p,
                            k < nn,
                    ;
                    lemma_pix_in_rect(p, nn, x as int, y as int, k, r.subx0 as int, r.subx1 as int, r.suby0 as int, y as int);
                    lemma_pix_in_rect(p, nn, x as int, y as int, k, r.subx0 as int, x as int, y as int, y as int + 1);
                    lemma_pix_bound(p, nn, x as int, y as int, k, y + 1);
                }
            }
            blit_pixel(dst, src, j, plain, x, y, sx, sy);
            proof {
                let doff = pix(p, nn, x as int, y as int, 0);
                assert forall|k: int| 0 <= k < nn implies #[trigger] dst@[pix(p, nn, x as int, y as int, k)]
                    == blit_byte(orig, src@, *j, x as int, y as int, k) by {
                    lemma_blit_byte_local(before, orig, src@, *j, x as int, y as int, k);
                }
                assert forall|i: int|
                    0 <= i < orig.len() && doff <= i < doff + nn implies #[trigger] in_rect_bytes(
                    i,
                    p,
                    nn,
                    r.subx0 as int,
                    x as int + 1,
                    y as int,
                    y as int + 1,
                ) by {
                    let k = i - doff;
                    assert(x * nn + k < p) by (nonlinear_arith)
                        requires
                            (x + 1) * nn <= p,
                            k < nn,
                    ;
                    lemma_pix_in_rect(p, nn, x as int, y as int, k, r.subx0 as int, x as int + 1, y as int, y as int + 1);
                    assert(pix(p, nn, x as int, y as int, k) == i);
                }
                assert(pix(p, nn, x as int, y as int, nn) == doff + nn);
                assert forall|xx: int, yy: int, k: int|
                    r.subx0 <= xx < r.subx1 && r.suby0 <= yy < y && 0 <= k < nn implies #[trigger] dst@[pix(
                    p,
                    nn,
                    xx,
                    yy,
                    k,
                )] == blit_byte(orig, src@, *j, xx, yy, k) by {
                    assert(xx * nn + k < p) by (nonlinear_arith)
                        requires
                            xx < r.subx1,
                            r.subx1 * nn <= p,
                            0 <= k < nn,
                    ;
                    lemma_pix_bound(p, nn, xx, yy, k, r.suby1 as int);
                    let q = pix(p, nn, xx, yy, k);
                    if doff <= q < doff + nn {
                        let k2 = q - doff;
                        assert(x * nn + k2 < p) by (nonlinear_arith)
                            requires
                                (x + 1) * nn <= p,
                                k2 < nn,
                        ;
                        assert(pix(p, nn, x as int, y as int, k2) == q);
                        lemma_pix_injective(p, nn, xx, yy, k, x as int, y as int, k2);
                    }
                    assert(dst@[q] == before[q]);
                }
                assert forall|xx: int, k: int|
                    r.subx0 <= xx < x + 1 && 0 <= k < nn implies #[trigger] dst@[pix(p, nn, xx, y as int, k)]
                    == blit_byte(orig, src@, *j, xx, y as int, k) by {
                    if xx < x {
                        assert(xx * nn + k < p) by (nonlinear_arith)
                            requires
                                xx < r.subx1,
                                r.subx1 * nn <= p,
                                0 <= k < nn,
                        ;
                        lemma_pix_bound(p, nn, xx, y as int, k, r.suby1 as int);
                        let q = pix(p, nn, xx, y as int, k);
                        if doff <= q < doff + nn {
                            let k2 = q - doff;
                            assert(x * nn + k2 < p) by (nonlinear_arith)
                                requires
                                    (x + 1) * nn <= p,
                                    k2 < nn,
                            ;
                            assert(pix(p, nn, x as int, y as int, k2) == q);
                            lemma_pix_injective(p, nn, xx, y as int, k, x as int, y as int, k2);
                        }
                        assert(dst@[q] == before[q]);
                    }
                }
                assert forall|i: int|
                    0 <= i < orig.len() && !in_rect_bytes(
                        i,
                        p,
                        nn,
                        r.subx0 as int,
                        r.subx1 as int,
                        r.suby0 as int,
                        y as int,
                    ) && !in_rect_bytes(i, p, nn, r.subx0 as int, x as int + 1, y as int, y as int + 1) implies dst@[i]
                    == orig[i] by {
                    assert(x * nn <= (x + 1) * nn) by (nonlinear_arith)
                        requires
                            nn > 0,
                    ;
                    assert(!in_rect_bytes(i, p, nn, r.subx0 as int, x as int, y as int, y as int + 1));
                }
            }
            x = x + 1;
        }
        proof {
            assert forall|i: int|
                0 <= i < orig.len() && !in_rect_bytes(
                    i,
                    p,
                    nn,
                    r.subx0 as int,
                    r.subx1 as int,
                    r.suby0 as int,
                    y as int + 1,
                ) implies dst@[i] == orig[i] by {
                assert(!in_rect_bytes(i, p, nn, r.subx0 as int, r.subx1 as int, r.suby0 as int, y as int));
                assert(!in_rect_bytes(i, p, nn, r.subx0 as int, r.subx1 as int, y as int, y as int + 1));
            }
        }
        y = y + 1;
    }
    proof {
        assert forall|i: int| 0 <= i < dst@.len() implies dst@[i] == blit_result(orig, src@, *j)[i] by {
            if in_rect_bytes(i, p, nn, r.subx0 as int, r.subx1 as int, r.suby0 as int, r.suby1 as int) {
                lemma_index_decode(i, p, nn);
                let xx = (i % p) / nn;
                let yy = i / p;
                let k = (i % p) % nn;
                assert(dst@[pix(p, nn, xx, yy, k)] == blit_byte(orig, src@, *j, xx, yy, k));
            }
        }
        assert(dst@ =~= blit_result(orig, src@, *j));
    }
}

/// Where byte `k` of destination pixel `(x, y)` lies.
proof fn lemma_written_byte(old: Seq<u8>, src: Seq<u8>, j: BlitJob, x: int, y: int, k: int)
    requires
        has_area(j.rects),
        j.rects.subx0 <= x < j.rects.subx1,
        j.rects.suby0 <= y < j.rects.suby1,
        j.rects.subx1 * blit_bytes_pp(j.dst_bpp) <= j.dst_pitch,
        0 <= k < blit_bytes_pp(j.dst_bpp),
        pix(j.dst_pitch as int, blit_bytes_pp(j.dst_bpp), x, y, k) < old.len(),
    ensures
        blit_result(old, src, j)[pix(j.dst_pitch as int, blit_bytes_pp(j.dst_bpp), x, y, k)] == blit_byte(
            old,
            src,
            j,
            x,
            y,
            k,
        ),
{
    let p = j.dst_pitch as int;
    let n = blit_bytes_pp(j.dst_bpp);
    assert(x * n + k < p) by (nonlinear_arith)
        requires
            x < j.rects.subx1,
            j.rects.subx1 * n <= p,
            0 <= k < n,
    ;
    lemma_pix_decode(p, n, x, y, k);
    lemma_pix_in_rect(
        p,
        n,
        x,
        y,
        k,
        j.rects.subx0 as int,
        j.rects.subx1 as int,
        j.rects.suby0 as int,
        j.rects.suby1 as int,
    );
}

/// A 32-bit to 32-bit blit keeps each colour channel in place: every
/// destination pixel it writes (and no colour key skips) holds the blue,
/// green and red bytes of the source pixel it maps to, in that order, and
/// an opaque fourth byte unless the blit is a plain copy.
pub proof fn lemma_blit_32_keeps_channels(old: Seq<u8>, src: Seq<u8>, j: BlitJob, x: int, y: int, k: int)
    requires
        j.src_bpp == 32,
        j.dst_bpp == 32,
        has_area(j.rects),
        j.rects.subx0 <= x < j.rects.subx1,
        j.rects.suby0 <= y < j.rects.suby1,
        j.rects.subx1 * 4 <= j.dst_pitch,
        0 <= k < 4,
        y * j.dst_pitch + x * 4 + k < old.len(),
        !keyed_out(old, src, j, x, y),
    ensures
        k < 3 ==> blit_result(old, src, j)[y * j.dst_pitch + x * 4 + k] == src[src_offset(j, x, y) + k],
        k == 3 && !is_plain_copy(j) ==> blit_result(old, src, j)[y * j.dst_pitch + x * 4 + k] == 0xFFu8,
{
    lemma_written_byte(old, src, j, x, y, k);
}

/// A 16-bit (5/6/5) to 32-bit blit puts the top five bits of a source
/// pixel into the red byte (byte 2), the middle six into green (byte 1) and
/// the low five into blue (byte 0), each shifted up to eight bits, with an
/// opaque fourth byte.
pub proof fn lemma_blit_565_to_32_channels(old: Seq<u8>, src: Seq<u8>, j: BlitJob, x: int, y: int)
    requires
        j.src_bpp == 16,
        j.dst_bpp == 32,
        !j.rgb555,
        has_area(j.rects),
        j.rects.subx0 <= x < j.rects.subx1,
        j.rects.suby0 <= y < j.rects.suby1,
        j.rects.subx1 * 4 <= j.dst_pitch,
        y * j.dst_pitch + x * 4 + 3 < old.len(),
        !keyed_out(old, src, j, x, y),
    ensures
        ({
            let o = src_offset(j, x, y);
            let v = src[o] + 256 * src[o + 1];
            let d = y * j.dst_pitch + x * 4;
            let res = blit_result(old, src, j);
            &&& res[d] == ((v % 32) * 8) as u8
            &&& res[d + 1] == (((v / 32) % 64) * 4) as u8
            &&& res[d + 2] == (((v / 2048) % 32) * 8) as u8
            &&& res[d + 3] == 0xFFu8
        }),
{
    assert(y * j.dst_pitch + x * 4 >= 0) by (nonlinear_arith)
        requires
            y >= 0,
            x >= 0,
            j.dst_pitch >= 0,
    ;
    lemma_written_byte(old, src, j, x, y, 0);
    lemma_written_byte(old, src, j, x, y, 1);
    lemma_written_byte(old, src, j, x, y, 2);
    lemma_written_byte(old, src, j, x, y, 3);
    let o = src_offset(j, x, y);
    let v = src[o] + 256 * src[o + 1];
    assert(packed_value(src, o, 16) == v);
    assert(!is_plain_copy(j));
}

/// A converting 5/6/5 to 5/6/5 blit (a colour-keyed 16-bit copy) writes
/// each pixel's value unchanged: both bytes equal those of the source pixel
/// it maps to.
pub proof fn lemma_blit_565_keeps_value(old: Seq<u8>, src: Seq<u8>, j: BlitJob, x: int, y: int)
    requires
        j.src_bpp == 16,
        j.dst_bpp == 16,
        !j.rgb555,
        has_area(j.rects),
        j.rects.subx0 <= x < j.rects.subx1,
        j.rects.suby0 <= y < j.rects.suby1,
        j.rects.subx1 * 2 <= j.dst_pitch,
        y * j.dst_pitch + x * 2 + 1 < old.len(),
        !keyed_out(old, src, j, x, y),
    ensures
        blit_result(old, src, j)[y * j.dst_pitch + x * 2] == src[src_offset(j, x, y)],
        blit_result(old, src, j)[y * j.dst_pitch + x * 2 + 1] == src[src_offset(j, x, y) + 1],
{
    assert(y * j.dst_pitch + x * 2 >= 0) by (nonlinear_arith)
        requires
            y >= 0,
            x >= 0,
            j.dst_pitch >= 0,
    ;
    lemma_written_byte(old, src, j, x, y, 0);
    lemma_written_byte(old, src, j, x, y, 1);
    let o = src_offset(j, x, y);
    let lo = src[o] as int;
    let hi = src[o + 1] as int;
    let v = lo + 256 * hi;
    assert(packed_value(src, o, 16) == v);
    let b = ((v % 32) * 8) as u8;
    let g = (((v / 32) % 64) * 4) as u8;
    let r = (((v / 2048) % 32) * 8) as u8;
    assert((r / 8) * 2048 + (g / 4) * 32 + b / 8 == v && v % 256 == lo && v / 256 == hi) by (nonlinear_arith)
        requires
            0 <= lo < 256,
            0 <= hi < 256,
            v == lo + 256 * hi,
            b == ((v % 32) * 8) as u8,
            g == (((v / 32) % 64) * 4) as u8,
            r == (((v / 2048) % 32) * 8) as u8,
    ;
}

} // verus!
