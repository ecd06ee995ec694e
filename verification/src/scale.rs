//! Software conversion of the primary surface to 32-bit `0x00RRGGBB`
//! pixels, with nearest-neighbour scaling (filter 0). Filtered resampling
//! works on the expanded source that `convert_scale` hands back.

use vstd::prelude::*;

verus! {

/// `v` clamped to `[lo, hi]`.
pub open spec fn clamp_spec(v: i32, lo: i32, hi: i32) -> i32 {
    if v < lo {
        lo
    } else if v > hi {
        hi
    } else {
        v
    }
}

/// Clamps `v` to `[lo, hi]` (`lo` wins when the bounds cross).
pub fn clamp_i32(v: i32, lo: i32, hi: i32) -> (r: i32)
    ensures
        r == clamp_spec(v, lo, hi),
{
    if v < lo {
        lo
    } else if v > hi {
        hi
    } else {
        v
    }
}

/// Bytes one source pixel of `bpp` bits occupies (0 for unsupported depths).
pub open spec fn source_bytes(bpp: i32) -> int {
    if bpp == 8 {
        1
    } else if bpp == 16 {
        2
    } else if bpp == 32 {
        4
    } else {
        0
    }
}

/// Blue in the low byte, then green, then red.
pub open spec fn bgr_word(b: int, g: int, r: int) -> u32 {
    (b + 256 * g + 65536 * r) as u32
}

/// A 16-bit pixel value expanded to 8 bits per channel (`c * 255 / max`).
pub open spec fn expand16(v: int, rgb555: bool) -> u32 {
    let (r5, g5, b5) = if rgb555 {
        ((v / 1024) % 32, (v / 32) % 32, v % 32)
    } else {
        ((v / 2048) % 32, (v / 32) % 64, v % 32)
    };
    let r8 = r5 * 255 / 31;
    let g8 = if rgb555 { g5 * 255 / 31 } else { g5 * 255 / 63 };
    let b8 = b5 * 255 / 31;
    bgr_word(b8, g8, r8)
}

/// The colour of source pixel `(x, y)`: black left or right of the surface,
/// the row clamped into `[0, sh - 1]`; 8-bit pixels through the palette (grey
/// without one), 16-bit ones expanded, 32-bit ones without their fourth byte.
pub open spec fn src_pixel_spec(
    src: Seq<u8>,
    pitch: int,
    bpp: i32,
    rgb555: bool,
    x: i32,
    y: i32,
    palette: Option<[[u8; 4]; 256]>,
    sw: i32,
    sh: i32,
) -> u32 {
    if x < 0 || x >= sw {
        0
    } else {
        let row = clamp_spec(y, 0, (sh - 1) as i32) * pitch;
        if bpp == 8 {
            let idx = src[row + x] as int;
            match palette {
                Some(p) => bgr_word(p@[idx]@[0] as int, p@[idx]@[1] as int, p@[idx]@[2] as int),
                None => bgr_word(idx, idx, idx),
            }
        } else if bpp == 16 {
            expand16(src[row + 2 * x] + 256 * src[row + 2 * x + 1], rgb555)
        } else if bpp == 32 {
            bgr_word(src[row + 4 * x] as int, src[row + 4 * x + 1] as int, src[row + 4 * x + 2] as int)
        } else {
            0
        }
    }
}

/// A source of `sw` x `sh` pixels with rows of `pitch` bytes fits in `len`
/// bytes.
pub open spec fn source_fits(len: int, pitch: int, bpp: i32, sw: i32, sh: i32) -> bool {
    &&& sw >= 0
    &&& sh >= 0
    &&& sw * source_bytes(bpp) <= pitch
    &&& sh * pitch <= len
}

/// Reads one source pixel as `0x00RRGGBB` (blue in the low byte).
pub fn src_pixel(
    src: &[u8],
    pitch: usize,
    bpp: i32,
    rgb555: bool,
    x: i32,
    y: i32,
    palette: Option<&[[u8; 4]; 256]>,
    sw: i32,
    sh: i32,
) -> (c: u32)
    requires
        source_fits(src@.len() as int, pitch as int, bpp, sw, sh),
        0 <= x < sw ==> sh >= 1,
    ensures
        c == src_pixel_spec(src@, pitch as int, bpp, rgb555, x, y, match palette {
            Some(p) => Some(*p),
            None => None,
        }, sw, sh),
{
    if x < 0 || x >= sw {
        return 0;
    }
    let slen = src.len();
    let yc = clamp_i32(y, 0, sh - 1);
    let ghost n = source_bytes(bpp);
    proof {
        assert(yc * pitch + pitch <= sh * pitch) by (nonlinear_arith)
            requires
                0 <= yc < sh,
                pitch >= 0,
        ;
        assert((x + 1) * n <= pitch) by (nonlinear_arith)
            requires
                x < sw,
                sw * n <= pitch,
                n >= 0,
        ;
        assert(x * n + n == (x + 1) * n) by (nonlinear_arith);
        assert(yc * pitch + (x + 1) * n <= slen);
    }
    let row: usize = yc as usize * pitch;
    if bpp == 8 {
        let idx: usize = src[row + x as usize] as usize;
        match palette {
            Some(p) => {
                let e = p[idx];
                e[0] as u32 + 256 * (e[1] as u32) + 65536 * (e[2] as u32)
            },
            None => {
                let v = idx as u32;
                v + 256 * v + 65536 * v
            },
        }
    } else if bpp == 16 {
        let o = row + 2 * (x as usize);
        let v: u32 = src[o] as u32 + 256 * (src[o + 1] as u32);
        let (r5, g5, b5) = if rgb555 {
            ((v / 1024) % 32, (v / 32) % 32, v % 32)
        } else {
            ((v / 2048) % 32, (v / 32) % 64, v % 32)
        };
        let r8 = r5 * 255 / 31;
        let g8 = if rgb555 { g5 * 255 / 31 } else { g5 * 255 / 63 };
        let b8 = b5 * 255 / 31;
        b8 + 256 * g8 + 65536 * r8
    } else if bpp == 32 {
        let o = row + 4 * (x as usize);
        src[o] as u32 + 256 * (src[o + 1] as u32) + 65536 * (src[o + 2] as u32)
    } else {
        0
    }
}


/// The converted colour of output pixel `(x, y)` for filter 0: the source
/// pixel at `(x, y)` clamped into the source.
pub open spec fn nearest_pixel(
    src: Seq<u8>,
    pitch: int,
    bpp: i32,
    rgb555: bool,
    palette: Option<[[u8; 4]; 256]>,
    sw: i32,
    sh: i32,
    x: int,
    y: int,
) -> u32 {
    src_pixel_spec(
        src,
        pitch,
        bpp,
        rgb555,
        clamp_spec(x as i32, 0, (sw - 1) as i32),
        clamp_spec(y as i32, 0, (sh - 1) as i32),
        palette,
        sw,
        sh,
    )
}

/// What `convert_scale` did.
pub enum ScaleOutcome {
    /// The output buffer is smaller than `dw * dh`; nothing was written.
    TooSmall,
    /// Filter 0: the output holds the converted (nearest-neighbour) pixels.
    Converted,
    /// Any other filter: the expanded `sw * sh` source, row by row, for the
    /// resampling filter to read; the output is untouched.
    Resample(Vec<u32>),
}

/// Converts the source surface into `dw * dh` pixels of `dst`.
///
/// Filter 0 copies pixel by pixel when the sizes match and otherwise picks
/// the source pixel at the same coordinates clamped into the source (no
/// stretching). Other filters first expand the whole source to 32-bit
/// pixels, which are handed back for the resampler.
pub fn convert_scale(
    src: &[u8],
    src_pitch: usize,
    sw: i32,
    sh: i32,
    s_bpp: i32,
    rgb555: bool,
    palette: Option<&[[u8; 4]; 256]>,
    filter: i32,
    dst: &mut Vec<u32>,
    dw: i32,
    dh: i32,
) -> (out: ScaleOutcome)
    requires
        source_fits(src@.len() as int, src_pitch as int, s_bpp, sw, sh),
        dw >= 0,
        dh >= 0,
        dw * dh <= usize::MAX,
        sw * sh <= usize::MAX,
        filter == 0 && dw > 0 && dh > 0 ==> sw >= 1 && sh >= 1,
    ensures
        dw * dh > old(dst)@.len() ==> out is TooSmall && final(dst)@ == old(dst)@,
        dw * dh <= old(dst)@.len() && filter == 0 ==> {
            &&& out is Converted
            &&& final(dst)@.len() == old(dst)@.len()
            &&& forall|x: int, y: int|
                0 <= x < dw && 0 <= y < dh ==> #[trigger] final(dst)@[y * dw + x] == nearest_pixel(
                    src@,
                    src_pitch as int,
                    s_bpp,
                    rgb555,
                    match palette {
                        Some(p) => Some(*p),
                        None => None,
                    },
                    sw,
                    sh,
                    x,
                    y,
                )
            &&& forall|i: int| dw * dh <= i < old(dst)@.len() ==> final(dst)@[i] == old(dst)@[i]
        },
        dw * dh <= old(dst)@.len() && filter != 0 ==> {
            &&& final(dst)@ == old(dst)@
            &&& out matches ScaleOutcome::Resample(v) && v@.len() == sw * sh && forall|x: int, y: int|
                0 <= x < sw && 0 <= y < sh ==> #[trigger] v@[y * sw + x] == src_pixel_spec(
                    src@,
                    src_pitch as int,
                    s_bpp,
                    rgb555,
                    x as i32,
                    y as i32,
                    match palette {
                        Some(p) => Some(*p),
                        None => None,
                    },
                    sw,
                    sh,
                )
        },
{
    let ghost pal = match palette {
        Some(p) => Some(*p),
        None => None,
    };
    let total: usize = (dw as usize) * (dh as usize);
    if dst.len() < total {
        return ScaleOutcome::TooSmall;
    }
    if filter == 0 {
        let dwu = dw as usize;
        let mut i: usize = 0;
        while i < total
            invariant
                total == dw * dh,
                total <= old(dst)@.len(),
                dwu == dw,
                dw >= 0,
                dh >= 0,
                0 <= i <= total,
                dw > 0 || total == 0,
                dw > 0 && dh > 0 ==> sw >= 1 && sh >= 1,
                source_fits(src@.len() as int, src_pitch as int, s_bpp, sw, sh),
                pal == (match palette {
                    Some(p) => Some(*p),
                    None => None,
                }),
                dst@.len() == old(dst)@.len(),
                forall|k: int|
                    0 <= k < i ==> #[trigger] dst@[k] == nearest_pixel(
                        src@,
                        src_pitch as int,
                        s_bpp,
                        rgb555,
                        pal,
                        sw,
                        sh,
                        k % (dw as int),
                        k / (dw as int),
                    ),
                forall|k: int| i <= k < old(dst)@.len() ==> dst@[k] == old(dst)@[k],
            decreases total - i,
        {
            proof {
                assert(dw > 0 && dh > 0) by (nonlinear_arith)
                    requires
                        0 <= i < total,
                        total == dw * dh,
                        dw >= 0,
                        dh >= 0,
                ;
                assert(i / dwu < dh) by (nonlinear_arith)
                    requires
                        0 <= i < dw * dh,
                        dw > 0,
                        dwu == dw,
                ;
                vstd::arithmetic::div_mod::lemma_mod_pos_bound(i as int, dw as int);
            }
            let x: i32 = (i % dwu) as i32;
            let y: i32 = (i / dwu) as i32;
            let sx = clamp_i32(x, 0, sw - 1);
            let sy = clamp_i32(y, 0, sh - 1);
            let c = src_pixel(src, src_pitch, s_bpp, rgb555, sx, sy, palette, sw, sh);
            dst.set(i, c);
            i = i + 1;
        }
        proof {
            assert forall|x: int, y: int| 0 <= x < dw && 0 <= y < dh implies #[trigger] dst@[y * dw + x]
                == nearest_pixel(src@, src_pitch as int, s_bpp, rgb555, pal, sw, sh, x, y) by {
                assert(y * dw + x < dw * dh) by (nonlinear_arith)
                    requires
                        0 <= x < dw,
                        0 <= y < dh,
                ;
                assert(0 <= y * dw) by (nonlinear_arith)
                    requires
                        0 <= y,
                        0 <= dw,
                ;
                vstd::arithmetic::div_mod::lemma_fundamental_div_mod_converse(y * dw + x, dw as int, y, x);
                let k = y * dw + x;
                assert(dst@[k] == nearest_pixel(src@, src_pitch as int, s_bpp, rgb555, pal, sw, sh, k % (dw as int), k / (dw as int)));
            }
        }
        return ScaleOutcome::Converted;
    }
    let n: usize = (sw as usize) * (sh as usize);
    let swu = sw as usize;
    let mut v: Vec<u32> = Vec::new();
    let mut i: usize = 0;
    while i < n
        invariant
            n == sw * sh,
            swu == sw,
            0 <= i <= n,
            sw >= 0,
            sh >= 0,
            source_fits(src@.len() as int, src_pitch as int, s_bpp, sw, sh),
            pal == (match palette {
                Some(p) => Some(*p),
                None => None,
            }),
            v@.len() == i,
            forall|k: int|
                0 <= k < i ==> #[trigger] v@[k] == src_pixel_spec(
                    src@,
                    src_pitch as int,
                    s_bpp,
                    rgb555,
                    (k % (sw as int)) as i32,
                    (k / (sw as int)) as i32,
                    pal,
                    sw,
                    sh,
                ),
        decreases n - i,
    {
        proof {
            assert(sw > 0 && sh > 0) by (nonlinear_arith)
                requires
                    0 <= i < n,
                    n == sw * sh,
                    sw >= 0,
                    sh >= 0,
            ;
            assert(i / swu < sh) by (nonlinear_arith)
                requires
                    0 <= i < sw * sh,
                    sw > 0,
                    swu == sw,
            ;
            vstd::arithmetic::div_mod::lemma_mod_pos_bound(i as int, sw as int);
        }
        let x: i32 = (i % swu) as i32;
        let y: i32 = (i / swu) as i32;
        let c = src_pixel(src, src_pitch, s_bpp, rgb555, x, y, palette, sw, sh);
        v.push(c);
        i = i + 1;
    }
    proof {
        assert forall|x: int, y: int| 0 <= x < sw && 0 <= y < sh implies #[trigger] v@[y * sw + x]
            == src_pixel_spec(src@, src_pitch as int, s_bpp, rgb555, x as i32, y as i32, pal, sw, sh) by {
            assert(y * sw + x < sw * sh) by (nonlinear_arith)
                requires
                    0 <= x < sw,
                    0 <= y < sh,
            ;
            assert(0 <= y * sw) by (nonlinear_arith)
                requires
                    0 <= y,
                    0 <= sw,
            ;
            vstd::arithmetic::div_mod::lemma_fundamental_div_mod_converse(y * sw + x, sw as int, y, x);
            let k = y * sw + x;
            assert(v@[k] == src_pixel_spec(src@, src_pitch as int, s_bpp, rgb555, (k % (sw as int)) as i32, (k / (sw as int)) as i32, pal, sw, sh));
        }
    }
    ScaleOutcome::Resample(v)
}

/// The scaled output frame kept between presents.
pub struct Scaler {
    pub buf: Vec<u32>,
    pub w: i32,
    pub h: i32,
}

impl Scaler {
    /// An empty scaler (no buffer, size 0 x 0).
    pub fn new() -> (s: Self)
        ensures
            s.buf@.len() == 0,
            s.w == 0,
            s.h == 0,
    {
        Scaler { buf: Vec::new(), w: 0, h: 0 }
    }

    /// Grows the buffer (with zeros) to hold `out_w * out_h` pixels, converts
    /// the source into it and records the output size.
    pub fn resize(
        &mut self,
        src: &[u8],
        src_pitch: usize,
        sw: i32,
        sh: i32,
        s_bpp: i32,
        rgb555: bool,
        palette: Option<&[[u8; 4]; 256]>,
        filter: i32,
        out_w: i32,
        out_h: i32,
    ) -> (out: ScaleOutcome)
        requires
            source_fits(src@.len() as int, src_pitch as int, s_bpp, sw, sh),
            out_w >= 0,
            out_h >= 0,
            out_w * out_h <= usize::MAX,
            sw * sh <= usize::MAX,
            filter == 0 && out_w > 0 && out_h > 0 ==> sw >= 1 && sh >= 1,
        ensures
            final(self).w == out_w,
            final(self).h == out_h,
            final(self).buf@.len() == (if old(self).buf@.len() < out_w * out_h {
                out_w * out_h
            } else {
                old(self).buf@.len() as int
            }),
            !(out is TooSmall),
            filter == 0 ==> out is Converted && forall|x: int, y: int|
                0 <= x < out_w && 0 <= y < out_h ==> #[trigger] final(self).buf@[y * out_w + x]
                    == nearest_pixel(
                    src@,
                    src_pitch as int,
                    s_bpp,
                    rgb555,
                    match palette {
                        Some(p) => Some(*p),
                        None => None,
                    },
                    sw,
                    sh,
                    x,
                    y,
                ),
    {
        let n: usize = (out_w as usize) * (out_h as usize);
        while self.buf.len() < n
            invariant
                self.buf@.len() <= n || self.buf@.len() == old(self).buf@.len(),
                old(self).buf@.len() >= n ==> self.buf@.len() == old(self).buf@.len(),
                old(self).buf@.len() < n ==> self.buf@.len() <= n,
            decreases n - self.buf@.len(),
        {
            self.buf.push(0u32);
        }
        let out = convert_scale(src, src_pitch, sw, sh, s_bpp, rgb555, palette, filter, &mut self.buf, out_w, out_h);
        self.w = out_w;
        self.h = out_h;
        out
    }
}

/// The byte fields of a `0x00RRGGBB` word built from channels below 256.
proof fn lemma_word_fields(b: int, g: int, r: int)
    requires
        0 <= b < 256,
        0 <= g < 256,
        0 <= r < 256,
    ensures
        bgr_word(b, g, r) % 256 == b,
        (bgr_word(b, g, r) / 256) % 256 == g,
        bgr_word(b, g, r) / 65536 == r,
{
    assert(0 <= b + 256 * g + 65536 * r < 0x1000000) by (nonlinear_arith)
        requires
            0 <= b < 256,
            0 <= g < 256,
            0 <= r < 256,
    ;
    let w = b + 256 * g + 65536 * r;
    assert(w % 256 == b && (w / 256) % 256 == g && w / 65536 == r) by (nonlinear_arith)
        requires
            0 <= b < 256,
            0 <= g < 256,
            0 <= r < 256,
            w == b + 256 * g + 65536 * r,
    ;
}

/// A converted 16-bit pixel is `0x00RRGGBB` with the red field (bits 11-15
/// in 5/6/5, bits 10-14 in 5/5/5) scaled to 0..=255 in bits 16-23, the
/// green field in bits 8-15 and the blue field (bits 0-4) in bits 0-7.
pub proof fn lemma_convert_16_channels(
    src: Seq<u8>,
    pitch: int,
    rgb555: bool,
    x: i32,
    y: i32,
    palette: Option<[[u8; 4]; 256]>,
    sw: i32,
    sh: i32,
)
    requires
        0 <= x < sw,
    ensures
        ({
            let o = clamp_spec(y, 0, (sh - 1) as i32) * pitch + 2 * x;
            let v = src[o] + 256 * src[o + 1];
            let c = src_pixel_spec(src, pitch, 16, rgb555, x, y, palette, sw, sh);
            &&& c % 256 == (v % 32) * 255 / 31
            &&& (c / 256) % 256 == (if rgb555 { ((v / 32) % 32) * 255 / 31 } else { ((v / 32) % 64) * 255 / 63 })
            &&& c / 65536 == (if rgb555 { ((v / 1024) % 32) * 255 / 31 } else { ((v / 2048) % 32) * 255 / 31 })
        }),
{
    let o = clamp_spec(y, 0, (sh - 1) as i32) * pitch + 2 * x;
    let v = src[o] + 256 * src[o + 1];
    let (r5, g5, b5) = if rgb555 {
        ((v / 1024) % 32, (v / 32) % 32, v % 32)
    } else {
        ((v / 2048) % 32, (v / 32) % 64, v % 32)
    };
    let r8 = r5 * 255 / 31;
    let g8 = if rgb555 { g5 * 255 / 31 } else { g5 * 255 / 63 };
    let b8 = b5 * 255 / 31;
    assert(0 <= r8 < 256 && 0 <= g8 < 256 && 0 <= b8 < 256) by (nonlinear_arith)
        requires
            0 <= r5 < 32,
            0 <= b5 < 32,
            0 <= g5 < 64,
            rgb555 ==> g5 < 32,
            r8 == r5 * 255 / 31,
            b8 == b5 * 255 / 31,
            g8 == (if rgb555 { g5 * 255 / 31 } else { g5 * 255 / 63 }),
    ;
    lemma_word_fields(b8, g8, r8);
}

/// A converted 32-bit pixel keeps its blue, green and red bytes in place
/// (bytes 0, 1, 2 of the source pixel become bits 0-7, 8-15, 16-23).
pub proof fn lemma_convert_32_channels(
    src: Seq<u8>,
    pitch: int,
    rgb555: bool,
    x: i32,
    y: i32,
    palette: Option<[[u8; 4]; 256]>,
    sw: i32,
    sh: i32,
)
    requires
        0 <= x < sw,
    ensures
        ({
            let o = clamp_spec(y, 0, (sh - 1) as i32) * pitch + 4 * x;
            let c = src_pixel_spec(src, pitch, 32, rgb555, x, y, palette, sw, sh);
            &&& c % 256 == src[o]
            &&& (c / 256) % 256 == src[o + 1]
            &&& c / 65536 == src[o + 2]
        }),
{
    let o = clamp_spec(y, 0, (sh - 1) as i32) * pitch + 4 * x;
    lemma_word_fields(src[o] as int, src[o + 1] as int, src[o + 2] as int);
}

/// A converted 8-bit pixel takes its colour from the palette entry it
/// indexes, stored blue, green, red: blue in bits 0-7, red in bits 16-23.
pub proof fn lemma_convert_8_channels(
    src: Seq<u8>,
    pitch: int,
    rgb555: bool,
    x: i32,
    y: i32,
    p: [[u8; 4]; 256],
    sw: i32,
    sh: i32,
)
    requires
        0 <= x < sw,
    ensures
        ({
            let i = src[clamp_spec(y, 0, (sh - 1) as i32) * pitch + x] as int;
            let c = src_pixel_spec(src, pitch, 8, rgb555, x, y, Some(p), sw, sh);
            &&& c % 256 == p@[i]@[0]
            &&& (c / 256) % 256 == p@[i]@[1]
            &&& c / 65536 == p@[i]@[2]
        }),
{
    let i = src[clamp_spec(y, 0, (sh - 1) as i32) * pitch + x] as int;
    lemma_word_fields(p@[i]@[0] as int, p@[i]@[1] as int, p@[i]@[2] as int);
}

} // verus!
