//! DirectDraw surfaces as plain pixel buffers: creation, pixel format
//! description, colour keys, `Lock` windows, `Flip` and the full `Blt`
//! (colour fill, stretching blit, colour keys and clip lists).

use vstd::prelude::*;
use crate::blit::{
    Rect, Span, BlitRects, BlitJob, rect_clamp, clamp_spec, intersect_rect, intersect_spec, fill_region,
    fill_result, blit_region, blit_result, blit_ready, span_len,
};
use crate::pixel::{blit_bytes_pp, DDPF_RGB, DDPF_PALETTEINDEXED8};
use crate::state::{given_back, taken_by, FrameFlags, LockStep, ReentrantLock};
use crate::ddraw::DDrawError;

verus! {

/// Extra rows allocated below every surface so games that write past the
/// bottom of the frame buffer stay inside it.
pub const GUARD_LINES: usize = 200;

/// `DDBLT_COLORFILL`.
pub const DDBLT_COLORFILL: u32 = 0x400;

/// `DDBLT_KEYDEST`.
pub const DDBLT_KEYDEST: u32 = 0x2000;

/// `DDBLT_KEYSRC`.
pub const DDBLT_KEYSRC: u32 = 0x8000;

/// `DDBLTFAST_SRCCOLORKEY`.
pub const DDBLTFAST_SRCCOLORKEY: u32 = 1;

/// `DDBLTFAST_DESTCOLORKEY`.
pub const DDBLTFAST_DESTCOLORKEY: u32 = 2;

/// `DDCKEY_DESTBLT`.
pub const DDCKEY_DESTBLT: u32 = 2;

/// `DDCKEY_SRCBLT`.
pub const DDCKEY_SRCBLT: u32 = 8;

/// `DDSCAPS_BACKBUFFER`.
pub const DDSCAPS_BACKBUFFER: u32 = 4;

/// `DDSCAPS_FLIP`.
pub const DDSCAPS_FLIP: u32 = 0x10;

/// `DDSCAPS_OFFSCREENPLAIN`.
pub const DDSCAPS_OFFSCREENPLAIN: u32 = 0x40;

/// `DDSCAPS_PRIMARYSURFACE`.
pub const DDSCAPS_PRIMARYSURFACE: u32 = 0x200;

/// `DDSCAPS_SYSTEMMEMORY`.
pub const DDSCAPS_SYSTEMMEMORY: u32 = 0x800;

/// `DDSCAPS_VIDEOMEMORY`.
pub const DDSCAPS_VIDEOMEMORY: u32 = 0x4000;

/// Bytes per pixel of a surface of `bpp` bits (`max(bpp / 8, 1)`).
pub open spec fn surface_bytes_pp(bpp: i32) -> int {
    if bpp / 8 < 1 { 1 } else { bpp / 8 }
}

/// A surface's pixels: `height` rows of `pitch` bytes (plus guard rows).
pub struct SurfaceData {
    pub pixels: Vec<u8>,
    pub width: usize,
    pub height: usize,
    pub pitch: usize,
    pub bpp: i32,
}

/// The row stride of a device-independent bitmap `width` pixels wide at
/// `bpp` bits: the row's bits rounded up to a whole number of 4-byte words.
pub open spec fn dib_pitch(width: int, bpp: int) -> int {
    ((width * bpp + 31) / 32) * 4
}

impl SurfaceData {
    /// A surface whose rows hold at least `width` pixels and whose buffer
    /// holds all of its rows.
    pub open spec fn wf(&self) -> bool {
        &&& self.width <= i32::MAX
        &&& self.height <= i32::MAX
        &&& 8 <= self.bpp <= 32
        &&& self.width * surface_bytes_pp(self.bpp) <= self.pitch
        &&& self.height * self.pitch <= self.pixels@.len()
    }

    /// Allocates a zeroed surface of `width` x `height` pixels of `bpp` bits,
    /// with `GUARD_LINES` extra rows below it. Rows have the bitmap stride
    /// (`dib_pitch`), so the buffer can back the DIB the renderer reads.
    pub fn new(width: usize, height: usize, bpp: i32) -> (s: Self)
        requires
            width <= i32::MAX,
            height <= i32::MAX,
            8 <= bpp <= 32,
            (height + GUARD_LINES) * dib_pitch(width as int, bpp as int) <= usize::MAX,
        ensures
            s.wf(),
            s.width == width,
            s.height == height,
            s.bpp == bpp,
            s.pitch == dib_pitch(width as int, bpp as int),
            s.pixels@ == Seq::new(((height + GUARD_LINES) * s.pitch) as nat, |i: int| 0u8),
    {
        let b: usize = bpp as usize;
        assert(width * b <= 0x7fff_ffff * 32) by (nonlinear_arith)
            requires
                width <= 0x7fff_ffff,
                b <= 32,
        ;
        let bits: u64 = (width as u64) * (b as u64) + 31;
        let words: u64 = bits / 32;
        proof {
            let q = (width * bpp + 31) / 32;
            assert(q * 4 <= (width * bpp + 31) / 8) by (nonlinear_arith)
                requires
                    q == (width * bpp + 31) / 32,
                    width * bpp >= 0,
            ;
            assert(dib_pitch(width as int, bpp as int) <= (height + GUARD_LINES) * dib_pitch(width as int, bpp as int))
                by (nonlinear_arith)
                requires
                    dib_pitch(width as int, bpp as int) >= 0,
                    height + GUARD_LINES >= 1,
            ;
            assert(width * surface_bytes_pp(bpp) <= q * 4) by (nonlinear_arith)
                requires
                    q == (width * bpp + 31) / 32,
                    8 <= bpp <= 32,
                    surface_bytes_pp(bpp) == bpp / 8,
                    width >= 0,
            {
                assert(q * 32 >= width * bpp);
                assert(bpp / 8 * 8 <= bpp);
                assert(width * (bpp / 8) * 8 <= width * bpp);
            }
        }
        let pitch: usize = (words * 4) as usize;
        let total = (height + GUARD_LINES) * pitch;
        let mut pixels: Vec<u8> = Vec::new();
        let mut i: usize = 0;
        while i < total
            invariant
                i <= total,
                pixels@ == Seq::new(i as nat, |k: int| 0u8),
            decreases total - i,
        {
            pixels.push(0u8);
            i = i + 1;
        }
        proof {
            assert(height * pitch <= (height + GUARD_LINES) * pitch) by (nonlinear_arith);
        }
        SurfaceData { pixels, width, height, pitch, bpp }
    }
}

/// Capabilities of a new surface: a primary surface lives in video memory,
/// any other surface is an off-screen plain surface in system memory.
pub fn surface_caps(is_primary: bool) -> (caps: u32)
    ensures
        caps == (if is_primary {
            DDSCAPS_PRIMARYSURFACE | DDSCAPS_VIDEOMEMORY
        } else {
            DDSCAPS_OFFSCREENPLAIN | DDSCAPS_SYSTEMMEMORY
        }),
{
    if is_primary {
        DDSCAPS_PRIMARYSURFACE | DDSCAPS_VIDEOMEMORY
    } else {
        DDSCAPS_OFFSCREENPLAIN | DDSCAPS_SYSTEMMEMORY
    }
}

/// Pixel format flags reported for a surface: palette-indexed RGB for 8 bits,
/// plain RGB otherwise.
pub fn pixel_type(bpp: i32) -> (flags: u32)
    ensures
        flags == (if bpp == 8 { DDPF_PALETTEINDEXED8 | DDPF_RGB } else { DDPF_RGB }),
{
    if bpp == 8 {
        DDPF_PALETTEINDEXED8 | DDPF_RGB
    } else {
        DDPF_RGB
    }
}

/// The pixel format a surface reports: flags, bit count and the red, green
/// and blue masks (masks are set for 16-bit surfaces only, 5/5/5 or 5/6/5).
pub struct PixelFormat {
    pub flags: u32,
    pub bit_count: u32,
    pub masks: Option<(u32, u32, u32)>,
}

/// Fills in a surface's pixel format.
pub fn surface_pixel_format(bpp: i32, rgb555: bool) -> (pf: PixelFormat)
    requires
        bpp >= 0,
    ensures
        pf.flags == (if bpp == 8 { DDPF_PALETTEINDEXED8 | DDPF_RGB } else { DDPF_RGB }),
        pf.bit_count == bpp,
        pf.masks == (if bpp != 16 {
            None
        } else if rgb555 {
            Some((0x7C00u32, 0x03E0u32, 0x001Fu32))
        } else {
            Some((0xF800u32, 0x07E0u32, 0x001Fu32))
        }),
{
    let masks = if bpp != 16 {
        None
    } else if rgb555 {
        Some((0x7C00u32, 0x03E0u32, 0x001Fu32))
    } else {
        Some((0xF800u32, 0x07E0u32, 0x001Fu32))
    };
    PixelFormat { flags: pixel_type(bpp), bit_count: bpp as u32, masks }
}

/// A surface's source and destination colour keys.
#[derive(Clone, Copy, PartialEq, Eq, Debug)]
pub struct ColorKeys {
    pub src: Option<u32>,
    pub dest: Option<u32>,
}

impl ColorKeys {
    /// `SetColorKey`: the destination key when `DDCKEY_DESTBLT` is set and
    /// `DDCKEY_SRCBLT` is not, the source key otherwise.
    pub fn set(&mut self, flags: u32, low: u32)
        ensures
            (flags & DDCKEY_SRCBLT) == 0 && (flags & DDCKEY_DESTBLT) != 0 ==> final(self).dest == Some(low)
                && final(self).src == old(self).src,
            !((flags & DDCKEY_SRCBLT) == 0 && (flags & DDCKEY_DESTBLT) != 0) ==> final(self).src == Some(
                low,
            ) && final(self).dest == old(self).dest,
    {
        if (flags & DDCKEY_SRCBLT) != 0 {
            self.src = Some(low);
        } else if (flags & DDCKEY_DESTBLT) != 0 {
            self.dest = Some(low);
        } else {
            self.src = Some(low);
        }
    }

    /// `GetColorKey`: the destination key when `DDCKEY_DESTBLT` is set, the
    /// source key otherwise (`None` when that key was never set).
    pub fn get(&self, flags: u32) -> (k: Option<u32>)
        ensures
            k == (if (flags & DDCKEY_DESTBLT) != 0 { self.dest } else { self.src }),
    {
        if (flags & DDCKEY_DESTBLT) != 0 {
            self.dest
        } else {
            self.src
        }
    }
}

/// `BltFast` transparency flags as `Blt` flags: the source key wins over the
/// destination key.
pub fn blt_fast_flags(trans: u32) -> (flags: u32)
    ensures
        flags == (if (trans & DDBLTFAST_SRCCOLORKEY) != 0 {
            DDBLT_KEYSRC
        } else if (trans & DDBLTFAST_DESTCOLORKEY) != 0 {
            DDBLT_KEYDEST
        } else {
            0
        }),
{
    if (trans & DDBLTFAST_SRCCOLORKEY) != 0 {
        DDBLT_KEYSRC
    } else if (trans & DDBLTFAST_DESTCOLORKEY) != 0 {
        DDBLT_KEYDEST
    } else {
        0
    }
}

/// The destination rectangle of a `BltFast` to `(x, y)` of a source of
/// `w` x `h` pixels.
pub fn blt_fast_rect(x: u32, y: u32, w: i32, h: i32) -> (r: Rect)
    requires
        x <= i32::MAX,
        y <= i32::MAX,
        i32::MIN <= x + w <= i32::MAX,
        i32::MIN <= y + h <= i32::MAX,
    ensures
        r == (Rect { left: x as i32, top: y as i32, right: (x + w) as i32, bottom: (y + h) as i32 }),
{
    Rect { left: x as i32, top: y as i32, right: x as i32 + w, bottom: y as i32 + h }
}

/// The colour keys a `Blt` applies.
///
/// The source key starts as this surface's own source key; with
/// `DDBLT_KEYSRC` and a source surface it becomes the source surface's
/// source key, or 0 when that surface has none. The destination key is this
/// surface's destination key, used only with `DDBLT_KEYDEST`.
pub fn blt_keys(flags: u32, own: ColorKeys, source: Option<Option<u32>>) -> (keys: (Option<u32>, Option<u32>))
    ensures
        keys.0 == (match source {
            Some(k) if (flags & DDBLT_KEYSRC) != 0 => Some(
                match k {
                    Some(v) => v,
                    None => 0u32,
                },
            ),
            _ => own.src,
        }),
        keys.1 == (if (flags & DDBLT_KEYDEST) != 0 { own.dest } else { None }),
{
    let mut src_key = own.src;
    if (flags & DDBLT_KEYSRC) != 0 {
        match source {
            Some(k) => {
                src_key = Some(
                    match k {
                        Some(v) => v,
                        None => 0u32,
                    },
                );
            },
            None => {},
        }
    }
    let dest_key = if (flags & DDBLT_KEYDEST) != 0 { own.dest } else { None };
    (src_key, dest_key)
}

/// A clip rectangle as a span: empty ones are dropped; one with a negative
/// left or top edge (which cannot overlap any destination) becomes the empty
/// span at the origin.
pub open spec fn clip_span(r: Rect) -> Option<Span> {
    if r.left < r.right && r.top < r.bottom {
        if r.left < 0 || r.top < 0 {
            Some((0usize, 0usize, 0usize, 0usize))
        } else {
            Some((r.left as usize, r.top as usize, r.right as usize, r.bottom as usize))
        }
    } else {
        None
    }
}

/// The spans of a clip list, in order.
pub open spec fn clip_list(clips: Seq<Rect>) -> Seq<Span>
    decreases clips.len(),
{
    if clips.len() == 0 {
        Seq::empty()
    } else {
        let prev = clip_list(clips.drop_last());
        match clip_span(clips.last()) {
            Some(s) => prev.push(s),
            None => prev,
        }
    }
}

/// Converts a clip list into spans.
pub fn clip_spans(clips: &Vec<Rect>) -> (spans: Vec<Span>)
    ensures
        spans@ == clip_list(clips@),
{
    let mut spans: Vec<Span> = Vec::new();
    let mut i: usize = 0;
    while i < clips.len()
        invariant
            i <= clips@.len(),
            spans@ == clip_list(clips@.subrange(0, i as int)),
        decreases clips@.len() - i,
    {
        let r = clips[i];
        proof {
            assert(clips@.subrange(0, i + 1).drop_last() =~= clips@.subrange(0, i as int));
            assert(clips@.subrange(0, i + 1).last() == r);
        }
        if r.left < r.right && r.top < r.bottom {
            if r.left < 0 || r.top < 0 {
                spans.push((0, 0, 0, 0));
            } else {
                spans.push((r.left as usize, r.top as usize, r.right as usize, r.bottom as usize));
            }
        }
        i = i + 1;
    }
    assert(clips@.subrange(0, clips@.len() as int) =~= clips@);
    spans
}

/// The colour fill of a `Blt` over the destination span `d`, restricted to
/// each clip span in turn.
pub open spec fn fill_over(old: Seq<u8>, pitch: int, bytes: Seq<u8>, d: Span, clips: Seq<Span>) -> Seq<u8>
    decreases clips.len(),
{
    if clips.len() == 0 {
        old
    } else {
        let prev = fill_over(old, pitch, bytes, d, clips.drop_last());
        match intersect_spec(d, clips.last()) {
            Some(s) => fill_result(prev, pitch, bytes, s),
            None => prev,
        }
    }
}

/// The colour fill stage: the whole destination span without a clip list,
/// else each clipped part.
pub open spec fn fill_stage(old: Seq<u8>, pitch: int, bytes: Seq<u8>, d: Span, clips: Seq<Span>) -> Seq<u8> {
    if clips.len() == 0 {
        fill_result(old, pitch, bytes, d)
    } else {
        fill_over(old, pitch, bytes, d, clips)
    }
}

/// A blit job over destination span `d` from source span `s`, writing `sub`.
pub open spec fn job_for(
    dst_pitch: usize,
    dst_bpp: i32,
    src_pitch: usize,
    src_bpp: i32,
    d: Span,
    s: Span,
    sub: Span,
    keys: (Option<u32>, Option<u32>),
    rgb555: bool,
    palette: Option<[[u8; 4]; 256]>,
) -> BlitJob {
    BlitJob {
        dst_pitch,
        dst_bpp,
        src_pitch,
        src_bpp,
        rects: BlitRects {
            dx0: d.0,
            dy0: d.1,
            dx1: d.2,
            dy1: d.3,
            sx0: s.0,
            sy0: s.1,
            sx1: s.2,
            sy1: s.3,
            subx0: sub.0,
            suby0: sub.1,
            subx1: sub.2,
            suby1: sub.3,
        },
        src_key: keys.0,
        dest_key: keys.1,
        rgb555,
        palette,
    }
}

/// One blit of the stage: done when its pixels lie inside both buffers,
/// skipped otherwise.
pub open spec fn blit_step(old: Seq<u8>, src: Seq<u8>, j: BlitJob) -> Seq<u8> {
    if blit_ready(j, src.len() as int, old.len() as int) {
        blit_result(old, src, j)
    } else {
        old
    }
}

/// The blit stage restricted to each clip span in turn.
pub open spec fn blit_over(
    old: Seq<u8>,
    src: Seq<u8>,
    dst_pitch: usize,
    dst_bpp: i32,
    src_pitch: usize,
    src_bpp: i32,
    d: Span,
    s: Span,
    keys: (Option<u32>, Option<u32>),
    rgb555: bool,
    palette: Option<[[u8; 4]; 256]>,
    clips: Seq<Span>,
) -> Seq<u8>
    decreases clips.len(),
{
    if clips.len() == 0 {
        old
    } else {
        let prev = blit_over(
            old,
            src,
            dst_pitch,
            dst_bpp,
            src_pitch,
            src_bpp,
            d,
            s,
            keys,
            rgb555,
            palette,
            clips.drop_last(),
        );
        match intersect_spec(d, clips.last()) {
            Some(sub) => blit_step(prev, src, job_for(dst_pitch, dst_bpp, src_pitch, src_bpp, d, s, sub, keys, rgb555, palette)),
            None => prev,
        }
    }
}

/// The pixels a `Blt` reads from its source: the snapshot of the locked
/// source rectangle, `height` rows of `pitch` bytes.
pub struct SourceCopy {
    pub data: Vec<u8>,
    pub width: usize,
    pub height: usize,
    pub pitch: usize,
    pub bpp: i32,
}

/// The colour a `Blt` fills with: the low `bytes_pp` bytes of `color`.
pub open spec fn fill_bytes_spec(color: u32, bpp: i32) -> Seq<u8> {
    let all = seq![
        (color % 256) as u8,
        ((color / 256) % 256) as u8,
        ((color / 65536) % 256) as u8,
        (color / 16777216) as u8,
    ];
    all.subrange(0, surface_bytes_pp(bpp))
}

/// The little-endian bytes of a fill colour, one pixel wide.
pub fn fill_bytes(color: u32, bpp: i32) -> (bytes: Vec<u8>)
    requires
        8 <= bpp <= 39,
    ensures
        bytes@ == fill_bytes_spec(color, bpp),
{
    let n: usize = (bpp / 8) as usize;
    let all: [u8; 4] = [
        (color % 256) as u8,
        ((color / 256) % 256) as u8,
        ((color / 65536) % 256) as u8,
        (color / 16777216) as u8,
    ];
    let mut bytes: Vec<u8> = Vec::new();
    let mut i: usize = 0;
    while i < n
        invariant
            n == surface_bytes_pp(bpp),
            n <= 4,
            i <= n,
            all@ == seq![
                (color % 256) as u8,
                ((color / 256) % 256) as u8,
                ((color / 65536) % 256) as u8,
                (color / 16777216) as u8,
            ],
            bytes@ == all@.subrange(0, i as int),
        decreases n - i,
    {
        bytes.push(all[i]);
        proof {
            assert(all@.subrange(0, i + 1) =~= all@.subrange(0, i as int).push(all@[i as int]));
        }
        i = i + 1;
    }
    bytes
}


/// Checks at run time what `blit_ready` states.
fn blit_fits(j: &BlitJob, src_len: usize, dst_len: usize) -> (ok: bool)
    ensures
        ok == blit_ready(*j, src_len as int, dst_len as int),
{
    let r = j.rects;
    if !(r.subx0 < r.subx1 && r.suby0 < r.suby1) {
        return true;
    }
    let dn: u128 = if j.dst_bpp < 8 { 1 } else { (j.dst_bpp / 8) as u128 };
    let sn: u128 = if j.src_bpp < 8 { 1 } else { (j.src_bpp / 8) as u128 };
    let dw: u128 = if r.dx1 >= r.dx0 { (r.dx1 - r.dx0) as u128 } else { 0 };
    let dh: u128 = if r.dy1 >= r.dy0 { (r.dy1 - r.dy0) as u128 } else { 0 };
    let sw: u128 = if r.sx1 >= r.sx0 { (r.sx1 - r.sx0) as u128 } else { 0 };
    let sh: u128 = if r.sy1 >= r.sy0 { (r.sy1 - r.sy0) as u128 } else { 0 };
    let sxe: u128 = if sw > 0 { r.sx1 as u128 } else { r.sx0 as u128 + 1 };
    let sye: u128 = if sh > 0 { r.sy1 as u128 } else { r.sy0 as u128 + 1 };
    proof {
        assert(r.subx1 * dn <= u128::MAX) by (nonlinear_arith)
            requires
                r.subx1 <= usize::MAX,
                dn <= i32::MAX,
        ;
        assert(r.suby1 * j.dst_pitch <= u128::MAX) by (nonlinear_arith)
            requires
                r.suby1 <= usize::MAX,
                j.dst_pitch <= usize::MAX,
        ;
        assert(sxe * sn <= u128::MAX) by (nonlinear_arith)
            requires
                sxe <= usize::MAX + 1,
                sn <= i32::MAX,
        ;
        assert(sye * j.src_pitch <= u128::MAX) by (nonlinear_arith)
            requires
                sye <= usize::MAX + 1,
                j.src_pitch <= usize::MAX,
        ;
        assert(dw * sw <= u128::MAX) by (nonlinear_arith)
            requires
                dw <= usize::MAX,
                sw <= usize::MAX,
        ;
        assert(dh * sh <= u128::MAX) by (nonlinear_arith)
            requires
                dh <= usize::MAX,
                sh <= usize::MAX,
        ;
    }
    r.dx0 <= r.subx0 && r.subx1 <= r.dx1 && r.dy0 <= r.suby0 && r.suby1 <= r.dy1 && (r.subx1 as u128)
        * dn <= j.dst_pitch as u128 && (r.suby1 as u128) * (j.dst_pitch as u128) <= dst_len as u128 && sxe
        * sn <= j.src_pitch as u128 && sye * (j.src_pitch as u128) <= src_len as u128 && dw * sw
        <= usize::MAX as u128 && dh * sh <= usize::MAX as u128
}

/// The destination pixels after a `Blt`.
///
/// The destination rectangle is clamped to the surface. With
/// `DDBLT_COLORFILL` and a fill colour the rectangle (or each part of it
/// inside a clip rectangle) is filled first. Then, with a source, the clamped
/// source rectangle is stretched onto the destination rectangle (or each
/// clipped part of it), honouring the colour keys; a blit whose source pixels
/// would lie outside the source snapshot is skipped.
pub open spec fn blt_pixels(
    dst: &SurfaceData,
    src: Option<&SourceCopy>,
    dest_rect: Option<Rect>,
    src_rect: Option<Rect>,
    flags: u32,
    fill_color: Option<u32>,
    keys: (Option<u32>, Option<u32>),
    clips: Seq<Rect>,
    rgb555: bool,
    palette: Option<[[u8; 4]; 256]>,
) -> Seq<u8> {
    let d = clamp_spec(dest_rect, dst.width, dst.height);
    let cl = clip_list(clips);
    let filled = match fill_color {
        Some(c) if (flags & DDBLT_COLORFILL) != 0 => fill_stage(
            dst.pixels@,
            dst.pitch as int,
            fill_bytes_spec(c, dst.bpp),
            d,
            cl,
        ),
        _ => dst.pixels@,
    };
    match src {
        None => filled,
        Some(s) => {
            let sr = clamp_spec(src_rect, s.width, s.height);
            if cl.len() == 0 {
                blit_step(filled, s.data@, job_for(dst.pitch, dst.bpp, s.pitch, s.bpp, d, sr, d, keys, rgb555, palette))
            } else {
                blit_over(filled, s.data@, dst.pitch, dst.bpp, s.pitch, s.bpp, d, sr, keys, rgb555, palette, cl)
            }
        },
    }
}

/// `Blt` on plain buffers: colour fill, then the (clipped, stretched,
/// colour-keyed) copy from the source snapshot. `keys` are the source and
/// destination colour keys from `blt_keys`.
pub fn blt(
    dst: &mut SurfaceData,
    src: Option<&SourceCopy>,
    dest_rect: Option<Rect>,
    src_rect: Option<Rect>,
    flags: u32,
    fill_color: Option<u32>,
    keys: (Option<u32>, Option<u32>),
    clips: &Vec<Rect>,
    rgb555: bool,
    palette: Option<[[u8; 4]; 256]>,
    is_primary: bool,
    frame: &mut FrameFlags,
)
    requires
        old(dst).wf(),
        match src {
            Some(s) => s.width <= i32::MAX && s.height <= i32::MAX,
            None => true,
        },
    ensures
        *final(frame) == (if is_primary { old(frame).marked() } else { *old(frame) }),
        final(dst).wf(),
        final(dst).width == old(dst).width,
        final(dst).height == old(dst).height,
        final(dst).pitch == old(dst).pitch,
        final(dst).bpp == old(dst).bpp,
        final(dst).pixels@ == blt_pixels(
            &*old(dst),
            src,
            dest_rect,
            src_rect,
            flags,
            fill_color,
            keys,
            clips@,
            rgb555,
            palette,
        ),
{
    let d = rect_clamp(dest_rect, dst.width, dst.height);
    let spans = clip_spans(clips);
    let ghost orig = dst.pixels@;
    let ghost n = surface_bytes_pp(dst.bpp);
    proof {
        if d.0 < d.2 && d.1 < d.3 {
            assert(d.2 * n <= dst.pitch) by (nonlinear_arith)
                requires
                    d.2 <= dst.width,
                    dst.width * n <= dst.pitch,
                    n >= 1,
            ;
            assert(d.3 * dst.pitch <= dst.pixels@.len()) by (nonlinear_arith)
                requires
                    d.3 <= dst.height,
                    dst.height * dst.pitch <= dst.pixels@.len(),
            ;
        }
    }
    if (flags & DDBLT_COLORFILL) != 0 {
        match fill_color {
            Some(c) => {
                let bytes = fill_bytes(c, dst.bpp);
                if spans.len() == 0 {
                    fill_region(&mut dst.pixels, dst.pitch, d.0, d.1, d.2, d.3, &bytes);
                } else {
                    let mut i: usize = 0;
                    while i < spans.len()
                        invariant
                            i <= spans@.len(),
                            spans@ == clip_list(clips@),
                            bytes@ == fill_bytes_spec(c, dst.bpp),
                            bytes@.len() == n,
                            n >= 1,
                            d == clamp_spec(dest_rect, dst.width, dst.height),
                            d.0 < d.2 && d.1 < d.3 ==> d.2 * n <= dst.pitch,
                            d.0 < d.2 && d.1 < d.3 ==> d.3 * dst.pitch <= orig.len(),
                            d.0 <= d.2,
                            d.1 <= d.3,
                            dst.pixels@.len() == orig.len(),
                            dst.width == old(dst).width,
                            dst.height == old(dst).height,
                            dst.pitch == old(dst).pitch,
                            dst.bpp == old(dst).bpp,
                            orig == old(dst).pixels@,
                            dst.pixels@ == fill_over(orig, dst.pitch as int, bytes@, d, spans@.subrange(0, i as int)),
                        decreases spans@.len() - i,
                    {
                        proof {
                            assert(spans@.subrange(0, i + 1).drop_last() =~= spans@.subrange(0, i as int));
                            assert(spans@.subrange(0, i + 1).last() == spans@[i as int]);
                        }
                        match intersect_rect(d, spans[i]) {
                            Some(sub) => {
                                proof {
                                    assert(sub.2 * n <= dst.pitch) by (nonlinear_arith)
                                        requires
                                            sub.2 <= d.2,
                                            d.2 * n <= dst.pitch,
                                            n >= 1,
                                    ;
                                    assert(sub.3 * dst.pitch <= orig.len()) by (nonlinear_arith)
                                        requires
                                            sub.3 <= d.3,
                                            d.3 * dst.pitch <= orig.len(),
                                    ;
                                }
                                fill_region(&mut dst.pixels, dst.pitch, sub.0, sub.1, sub.2, sub.3, &bytes);
                            },
                            None => {},
                        }
                        i = i + 1;
                    }
                    assert(spans@.subrange(0, spans@.len() as int) =~= spans@);
                }
            },
            None => {},
        }
    }
    let ghost filled = dst.pixels@;
    match src {
        None => {},
        Some(s) => {
            let sr = rect_clamp(src_rect, s.width, s.height);
            if spans.len() == 0 {
                let j = BlitJob {
                    dst_pitch: dst.pitch,
                    dst_bpp: dst.bpp,
                    src_pitch: s.pitch,
                    src_bpp: s.bpp,
                    rects: BlitRects {
                        dx0: d.0,
                        dy0: d.1,
                        dx1: d.2,
                        dy1: d.3,
                        sx0: sr.0,
                        sy0: sr.1,
                        sx1: sr.2,
                        sy1: sr.3,
                        subx0: d.0,
                        suby0: d.1,
                        subx1: d.2,
                        suby1: d.3,
                    },
                    src_key: keys.0,
                    dest_key: keys.1,
                    rgb555,
                    palette,
                };
                if blit_fits(&j, s.data.len(), dst.pixels.len()) {
                    blit_region(&mut dst.pixels, s.data.as_slice(), &j);
                }
            } else {
                let mut i: usize = 0;
                while i < spans.len()
                    invariant
                        i <= spans@.len(),
                        spans@ == clip_list(clips@),
                        d == clamp_spec(dest_rect, dst.width, dst.height),
                        sr == clamp_spec(src_rect, s.width, s.height),
                        dst.pixels@.len() == orig.len(),
                        dst.width == old(dst).width,
                        dst.height == old(dst).height,
                        dst.pitch == old(dst).pitch,
                        dst.bpp == old(dst).bpp,
                        orig == old(dst).pixels@,
                        dst.pixels@ == blit_over(
                            filled,
                            s.data@,
                            dst.pitch,
                            dst.bpp,
                            s.pitch,
                            s.bpp,
                            d,
                            sr,
                            keys,
                            rgb555,
                            palette,
                            spans@.subrange(0, i as int),
                        ),
                    decreases spans@.len() - i,
                {
                    proof {
                        assert(spans@.subrange(0, i + 1).drop_last() =~= spans@.subrange(0, i as int));
                        assert(spans@.subrange(0, i + 1).last() == spans@[i as int]);
                    }
                    match intersect_rect(d, spans[i]) {
                        Some(sub) => {
                            let j = BlitJob {
                                dst_pitch: dst.pitch,
                                dst_bpp: dst.bpp,
                                src_pitch: s.pitch,
                                src_bpp: s.bpp,
                                rects: BlitRects {
                                    dx0: d.0,
                                    dy0: d.1,
                                    dx1: d.2,
                                    dy1: d.3,
                                    sx0: sr.0,
                                    sy0: sr.1,
                                    sx1: sr.2,
                                    sy1: sr.3,
                                    subx0: sub.0,
                                    suby0: sub.1,
                                    subx1: sub.2,
                                    suby1: sub.3,
                                },
                                src_key: keys.0,
                                dest_key: keys.1,
                                rgb555,
                                palette,
                            };
                            if blit_fits(&j, s.data.len(), dst.pixels.len()) {
                                blit_region(&mut dst.pixels, s.data.as_slice(), &j);
                            }
                        },
                        None => {},
                    }
                    i = i + 1;
                }
                assert(spans@.subrange(0, spans@.len() as int) =~= spans@);
            }
        },
    }
    if is_primary {
        frame.present_dirty = true;
    }
}


/// Sets the first `len` bytes of `buf` to zero.
pub fn clear_prefix(buf: &mut Vec<u8>, len: usize)
    requires
        len <= old(buf)@.len(),
    ensures
        final(buf)@.len() == old(buf)@.len(),
        forall|i: int| 0 <= i < len ==> final(buf)@[i] == 0u8,
        forall|i: int| len <= i < old(buf)@.len() ==> final(buf)@[i] == old(buf)@[i],
{
    let mut i: usize = 0;
    while i < len
        invariant
            i <= len,
            len <= old(buf)@.len(),
            buf@.len() == old(buf)@.len(),
            forall|k: int| 0 <= k < i ==> buf@[k] == 0u8,
            forall|k: int| i <= k < old(buf)@.len() ==> buf@[k] == old(buf)@[k],
        decreases len - i,
    {
        buf.set(i, 0u8);
        i = i + 1;
    }
}

/// `flipclear`: when enabled, blanks the visible frame (`pitch * height`
/// bytes) of `target` so regions the game does not repaint show black.
pub fn flip_clear(target: &mut SurfaceData, pitch: usize, height: usize, flipclear: bool)
    requires
        flipclear ==> pitch * height <= old(target).pixels@.len(),
    ensures
        final(target).width == old(target).width,
        final(target).height == old(target).height,
        final(target).pitch == old(target).pitch,
        final(target).bpp == old(target).bpp,
        final(target).pixels@.len() == old(target).pixels@.len(),
        !flipclear ==> final(target).pixels@ == old(target).pixels@,
        flipclear ==> forall|i: int| 0 <= i < pitch * height ==> final(target).pixels@[i] == 0u8,
        flipclear ==> forall|i: int|
            pitch * height <= i < old(target).pixels@.len() ==> final(target).pixels@[i] == old(
                target,
            ).pixels@[i],
{
    if flipclear {
        let _total = target.pixels.len();
        clear_prefix(&mut target.pixels, pitch * height);
    }
}

/// `Flip` with a back buffer: the back buffer's frame (`pitch * height`
/// bytes) becomes the front buffer's, then the back buffer is cleared when
/// `flipclear` is on.
pub fn flip(
    front: &mut SurfaceData,
    back: &mut SurfaceData,
    flipclear: bool,
    is_primary: bool,
    frame: &mut FrameFlags,
)
    requires
        old(front).pitch * old(front).height <= old(front).pixels@.len(),
        old(front).pitch * old(front).height <= old(back).pixels@.len(),
    ensures
        *final(frame) == (if is_primary {
            FrameFlags { present_dirty: true, frame_ready: true, uses_vblank: true, ..*old(frame) }
        } else {
            *old(frame)
        }),
        final(front).pixels@.len() == old(front).pixels@.len(),
        final(front).width == old(front).width && final(front).height == old(front).height,
        final(front).pitch == old(front).pitch && final(front).bpp == old(front).bpp,
        final(back).width == old(back).width && final(back).height == old(back).height,
        final(back).pitch == old(back).pitch && final(back).bpp == old(back).bpp,
        final(back).pixels@.len() == old(back).pixels@.len(),
        forall|i: int|
            0 <= i < old(front).pitch * old(front).height ==> final(front).pixels@[i] == old(back).pixels@[i],
        forall|i: int|
            old(front).pitch * old(front).height <= i < old(front).pixels@.len() ==> final(front).pixels@[i]
                == old(front).pixels@[i],
        !flipclear ==> final(back).pixels@ == old(back).pixels@,
        flipclear ==> forall|i: int|
            0 <= i < old(front).pitch * old(front).height ==> final(back).pixels@[i] == 0u8,
        flipclear ==> forall|i: int|
            old(front).pitch * old(front).height <= i < old(back).pixels@.len() ==> final(back).pixels@[i]
                == old(back).pixels@[i],
{
    let _total = front.pixels.len();
    let len = front.pitch * front.height;
    let mut i: usize = 0;
    while i < len
        invariant
            i <= len,
            len == old(front).pitch * old(front).height,
            len <= old(front).pixels@.len(),
            len <= back.pixels@.len(),
            back.pixels@ == old(back).pixels@,
            front.pixels@.len() == old(front).pixels@.len(),
            front.width == old(front).width && front.height == old(front).height,
            front.pitch == old(front).pitch && front.bpp == old(front).bpp,
            forall|k: int| 0 <= k < i ==> front.pixels@[k] == old(back).pixels@[k],
            forall|k: int| i <= k < old(front).pixels@.len() ==> front.pixels@[k] == old(front).pixels@[k],
        decreases len - i,
    {
        let v = back.pixels[i];
        front.pixels.set(i, v);
        i = i + 1;
    }
    let pitch = front.pitch;
    let height = front.height;
    flip_clear(back, pitch, height, flipclear);
    if is_primary {
        frame.present_dirty = true;
        frame.uses_vblank = true;
        frame.frame_ready = true;
    }
}

/// The part of a surface a `Lock` with a rectangle hands out: the byte
/// offset of the rectangle's top-left pixel and its width and height.
pub fn lock_window(pitch: i32, bpp: i32, r: Rect) -> (w: (i64, i32, i32))
    requires
        i32::MIN <= r.right - r.left <= i32::MAX,
        i32::MIN <= r.bottom - r.top <= i32::MAX,
    ensures
        w.0 == r.top * pitch + r.left * surface_bytes_pp(bpp),
        w.1 == r.right - r.left,
        w.2 == r.bottom - r.top,
{
    let bytes_pp: i64 = if bpp / 8 < 1 { 1 } else { (bpp / 8) as i64 };
    proof {
        assert(-2147483648 * 2147483647 <= r.top * pitch <= 2147483648 * 2147483648) by (nonlinear_arith)
            requires
                i32::MIN <= r.top <= i32::MAX,
                i32::MIN <= pitch <= i32::MAX,
        ;
        assert(-2147483648 * 268435455 <= r.left * bytes_pp <= 2147483647 * 268435455) by (nonlinear_arith)
            requires
                i32::MIN <= r.left <= i32::MAX,
                1 <= bytes_pp <= 268435455,
        ;
    }
    (r.top as i64 * pitch as i64 + r.left as i64 * bytes_pp, r.right - r.left, r.bottom - r.top)
}

/// `DDSD_CAPS | DDSD_WIDTH | DDSD_HEIGHT | DDSD_PITCH | DDSD_PIXELFORMAT |
/// DDSD_LPSURFACE`: the fields a surface description fills in.
pub const SURFACE_DESC_FLAGS: u32 = 0x1 | 0x4 | 0x2 | 0x8 | 0x1000 | 0x800;

/// The description `GetSurfaceDesc` and `Lock` hand out, the pixel pointer
/// as a byte offset into the surface.
#[derive(Clone, Copy, PartialEq, Eq, Debug)]
pub struct SurfaceDesc {
    pub flags: u32,
    pub width: u32,
    pub height: u32,
    pub pitch: i32,
    pub offset: i64,
    pub caps: u32,
    pub bit_count: u32,
}

/// The description of a whole surface.
pub fn surface_desc(width: i32, height: i32, pitch: i32, bpp: i32, caps: u32) -> (d: SurfaceDesc)
    ensures
        d == (SurfaceDesc {
            flags: SURFACE_DESC_FLAGS,
            width: width as u32,
            height: height as u32,
            pitch,
            offset: 0,
            caps,
            bit_count: bpp as u32,
        }),
{
    SurfaceDesc { flags: SURFACE_DESC_FLAGS, width: width as u32, height: height as u32, pitch, offset: 0, caps, bit_count: bpp as u32 }
}

/// The description `Lock` hands out: the whole surface, or with a
/// rectangle its top-left pixel and size.
pub fn lock_desc(width: i32, height: i32, pitch: i32, bpp: i32, caps: u32, rect: Option<Rect>) -> (d: SurfaceDesc)
    requires
        rect matches Some(r) ==> i32::MIN <= r.right - r.left <= i32::MAX && i32::MIN <= r.bottom - r.top <= i32::MAX,
    ensures
        rect is None ==> d == surface_desc_spec(width, height, pitch, bpp, caps),
        rect matches Some(r) ==> d == (SurfaceDesc {
            offset: (r.top * pitch + r.left * surface_bytes_pp(bpp)) as i64,
            width: (r.right - r.left) as u32,
            height: (r.bottom - r.top) as u32,
            ..surface_desc_spec(width, height, pitch, bpp, caps)
        }),
{
    let d = surface_desc(width, height, pitch, bpp, caps);
    match rect {
        None => d,
        Some(r) => {
            let (off, w, h) = lock_window(pitch, bpp, r);
            SurfaceDesc { offset: off, width: w as u32, height: h as u32, ..d }
        },
    }
}

/// The description of a whole surface.
pub open spec fn surface_desc_spec(width: i32, height: i32, pitch: i32, bpp: i32, caps: u32) -> SurfaceDesc {
    SurfaceDesc {
        flags: SURFACE_DESC_FLAGS,
        width: width as u32,
        height: height as u32,
        pitch,
        offset: 0,
        caps,
        bit_count: bpp as u32,
    }
}

/// The description `lock_desc` gives.
pub open spec fn locked_desc(width: i32, height: i32, pitch: i32, bpp: i32, caps: u32, rect: Option<Rect>) -> SurfaceDesc {
    match rect {
        None => surface_desc_spec(width, height, pitch, bpp, caps),
        Some(r) => SurfaceDesc {
            offset: (r.top * pitch + r.left * surface_bytes_pp(bpp)) as i64,
            width: (r.right - r.left) as u32,
            height: (r.bottom - r.top) as u32,
            ..surface_desc_spec(width, height, pitch, bpp, caps)
        },
    }
}

/// What a `Lock` call comes to.
#[derive(Clone, Copy, PartialEq, Eq, Debug)]
pub enum LockOutcome {
    /// Refused: the game passed no description to fill.
    Refused(DDrawError),
    /// Another thread holds the surface; wait and try again.
    Wait,
    /// The surface is locked for the calling thread, described so.
    Locked(SurfaceDesc),
}

/// `Lock`: refuses a missing description; otherwise takes a level of the
/// surface lock for thread `tid` (held until `unlock_surface`, so the
/// renderer never reads a half-written frame) and describes the locked
/// memory, or says to wait while another thread holds it.
pub fn lock_surface(
    lk: &mut ReentrantLock,
    tid: u64,
    has_desc: bool,
    width: i32,
    height: i32,
    pitch: i32,
    bpp: i32,
    caps: u32,
    rect: Option<Rect>,
) -> (r: LockOutcome)
    requires
        tid != 0,
        old(lk)@.1 < u32::MAX,
        rect matches Some(r) ==> i32::MIN <= r.right - r.left <= i32::MAX && i32::MIN <= r.bottom - r.top <= i32::MAX,
    ensures
        !has_desc ==> r == LockOutcome::Refused(DDrawError::InvalidArg) && final(lk)@ == old(lk)@,
        has_desc && old(lk)@.0 != 0 && old(lk)@.0 != tid ==> r == LockOutcome::Wait && final(lk)@ == old(lk)@,
        has_desc && (old(lk)@.0 == 0 || old(lk)@.0 == tid) ==> r == LockOutcome::Locked(
            locked_desc(width, height, pitch, bpp, caps, rect),
        ) && final(lk)@ == taken_by(old(lk)@, tid),
{
    if !has_desc {
        return LockOutcome::Refused(DDrawError::InvalidArg);
    }
    match lk.acquire(tid) {
        LockStep::MustWait => LockOutcome::Wait,
        _ => LockOutcome::Locked(lock_desc(width, height, pitch, bpp, caps, rect)),
    }
}

/// `Unlock`: gives back the level of the surface lock that `Lock` took for
/// `tid`, and marks a changed primary for presenting. True when the lock is
/// free again.
pub fn unlock_surface(lk: &mut ReentrantLock, tid: u64, is_primary: bool, frame: &mut FrameFlags) -> (freed: bool)
    requires
        old(lk)@.0 == tid,
        tid != 0,
    ensures
        freed == (old(lk)@.1 == 1),
        final(lk)@ == given_back(old(lk)@),
        *final(frame) == (if is_primary { old(frame).marked() } else { *old(frame) }),
{
    let freed = lk.release(tid);
    if is_primary {
        frame.present_dirty = true;
    }
    freed
}

/// The game reads and writes the surface memory directly: a system-memory
/// surface, or `tshack` on.
pub fn tshack_active(caps: u32, tshack: bool) -> (r: bool)
    ensures
        r == ((caps & DDSCAPS_SYSTEMMEMORY) != 0 || tshack),
{
    (caps & DDSCAPS_SYSTEMMEMORY) != 0 || tshack
}

/// The four little-endian bytes of `v`.
pub open spec fn le32(v: u32) -> Seq<u8> {
    seq![(v % 256) as u8, ((v / 256) % 256) as u8, ((v / 65536) % 256) as u8, (v / 16777216) as u8]
}

/// The first `n` entries of the identity grey colour table, four bytes each.
pub open spec fn grey_table(n: int) -> Seq<u8> {
    Seq::new((4 * n) as nat, |k: int| if k % 4 == 3 { 0u8 } else { (k / 4) as u8 })
}

/// The colour table of an 8-bit surface's bitmap (identity grey, entry `i`
/// is `[i, i, i, 0]`) or the three channel masks of a deeper one.
pub open spec fn dib_colors(bpp: i32, rgb555: bool) -> Seq<u8> {
    if bpp == 8 {
        grey_table(256)
    } else if bpp == 32 {
        le32(0x00FF0000) + le32(0x0000FF00) + le32(0x000000FF)
    } else if rgb555 {
        le32(0x7C00) + le32(0x03E0) + le32(0x001F)
    } else {
        le32(0xF800) + le32(0x07E0) + le32(0x001F)
    }
}

/// The `BITMAPINFO` a surface's DIB section is created from: a top-down
/// `width` x (`height` + guard rows) bitmap of `bpp` bits, palette-indexed
/// with 256 colours at 8 bits and with bit fields otherwise, followed by
/// `dib_colors`.
pub open spec fn dib_header_spec(width: i32, height: i32, bpp: i32, rgb555: bool) -> Seq<u8> {
    le32(40) + le32(width as u32) + le32((-(height + GUARD_LINES)) as i32 as u32) + seq![1u8, 0u8]
        + seq![(bpp as u16 % 256) as u8, (bpp as u16 / 256) as u8] + le32(if bpp == 8 { 0u32 } else { 3u32 })
        + le32(0) + le32(0) + le32(0) + le32(if bpp == 8 { 256u32 } else { 0u32 }) + le32(0) + dib_colors(bpp, rgb555)
}

fn push_le32(out: &mut Vec<u8>, v: u32)
    ensures
        final(out)@ == old(out)@ + le32(v),
{
    out.push((v % 256) as u8);
    out.push(((v / 256) % 256) as u8);
    out.push(((v / 65536) % 256) as u8);
    out.push((v / 16777216) as u8);
    assert(final(out)@ =~= old(out)@ + le32(v));
}

/// The bitmap header (and colour table or masks) of a surface's pixel
/// buffer.
pub fn dib_header(width: i32, height: i32, bpp: i32, rgb555: bool) -> (h: Vec<u8>)
    requires
        height + 200 <= i32::MAX,
    ensures
        h@ == dib_header_spec(width, height, bpp, rgb555),
{
    let mut out: Vec<u8> = Vec::new();
    push_le32(&mut out, 40);
    push_le32(&mut out, width as u32);
    let neg: i32 = -(height + 200);
    push_le32(&mut out, neg as u32);
    out.push(1);
    out.push(0);
    let bc = bpp as u16;
    out.push((bc % 256) as u8);
    out.push((bc / 256) as u8);
    push_le32(&mut out, if bpp == 8 { 0 } else { 3 });
    push_le32(&mut out, 0);
    push_le32(&mut out, 0);
    push_le32(&mut out, 0);
    push_le32(&mut out, if bpp == 8 { 256 } else { 0 });
    push_le32(&mut out, 0);
    let ghost head = out@;
    if bpp == 8 {
        let mut i: u32 = 0;
        while i < 256
            invariant
                i <= 256,
                out@ =~= head + grey_table(i as int),
            decreases 256 - i,
        {
            let b = i as u8;
            out.push(b);
            out.push(b);
            out.push(b);
            out.push(0);
            proof {
                assert(grey_table(i + 1) =~= grey_table(i as int) + seq![b, b, b, 0u8]);
            }
            i = i + 1;
        }
        assert(grey_table(256) =~= dib_colors(bpp, rgb555));
        assert(out@ =~= head + dib_colors(bpp, rgb555));
    } else if bpp == 32 {
        push_le32(&mut out, 0x00FF0000);
        push_le32(&mut out, 0x0000FF00);
        push_le32(&mut out, 0x000000FF);
    } else if rgb555 {
        push_le32(&mut out, 0x7C00);
        push_le32(&mut out, 0x03E0);
        push_le32(&mut out, 0x001F);
    } else {
        push_le32(&mut out, 0xF800);
        push_le32(&mut out, 0x07E0);
        push_le32(&mut out, 0x001F);
    }
    assert(out@ =~= dib_header_spec(width, height, bpp, rgb555));
    out
}

} // verus!
