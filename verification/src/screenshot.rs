//! Screenshots of the primary surface: 8-, 16- and 32-bit surface rows
//! turned into RGBA bytes (palette colours at 8 bits, 5/6-bit channels
//! expanded at 16 bits), encoded as PNG with the `png` crate, and the name the file gets. Finding the directory,
//! reading the clock and writing the file are left to the caller.

use vstd::prelude::*;
use vstd::string::StringExecFns;
use vstd::string::StrSliceExecFns;

verus! {

/// `png::EncodingError`.
#[verifier::external_type_specification]
#[verifier::external_body]
pub struct ExEncodingError(png::EncodingError);

/// The PNG file the `png` crate writes for an 8-bit RGBA image of
/// `width` x `height` pixels with rows `data` (default compression and
/// filtering, no extra chunks).
pub uninterp spec fn png_rgba8(width: u32, height: u32, data: Seq<u8>) -> Seq<u8>;

/// `png::Encoder` (RGBA, 8 bits per channel) then `Writer::write_image_data`
/// into a byte buffer. The crate computes the row size `width * 4` and the
/// image size `width * 4 * height` in `usize` without overflow checks, so
/// the call is only made where that product fits. It refuses a zero width
/// or height in `write_header`, and image data of another length in
/// `write_image_data`. With the default (zlib) compression and a `Vec` to
/// write into nothing else can fail, so with both sides nonzero and the
/// length right it succeeds; what it writes is named by `png_rgba8`.
#[verifier::external_body]
fn encode_rgba_png(width: u32, height: u32, data: &[u8]) -> (r: Result<Vec<u8>, png::EncodingError>)
    requires
        width as int * 4 * height as int <= usize::MAX,
    ensures
        width == 0 || height == 0 ==> r is Err,
        data@.len() != width as int * 4 * height as int ==> r is Err,
        width > 0 && height > 0 && data@.len() == width as int * 4 * height as int ==> r is Ok,
        r matches Ok(b) ==> b@ == png_rgba8(width, height, data@),
{
    let mut out = Vec::new();
    {
        let mut encoder = png::Encoder::new(&mut out, width, height);
        encoder.set_color(png::ColorType::Rgba);
        encoder.set_depth(png::BitDepth::Eight);
        let mut writer = encoder.write_header()?;
        writer.write_image_data(data)?;
    }
    Ok(out)
}

/// Why a screenshot could not be encoded.
#[derive(Clone, Copy, PartialEq, Eq, Debug)]
pub enum ShotError {
    /// The PNG encoder refused the image.
    Encode,
}

/// Bytes read per surface pixel: 1, 2, 4, or at least 3 for other depths.
pub open spec fn src_bytes(bpp: int) -> int {
    if bpp == 8 {
        1
    } else if bpp == 16 {
        2
    } else if bpp == 32 {
        4
    } else if bpp / 8 > 3 {
        bpp / 8
    } else {
        3
    }
}

/// The row pitch used: the surface pitch, or the packed row size when that
/// is larger.
pub open spec fn row_pitch(width: int, bpp: int, pitch: int) -> int {
    let packed = width * (bpp / 8);
    if pitch > packed { pitch } else { packed }
}

/// The output bytes of the pixel at byte offset `o`: palette colour for
/// 8 bits (`[r, g, b, 255]` from a `[b, g, r, flags]` entry, black without a
/// palette), the 5/6-bit channels of a 16-bit pixel (5/5/5 with `rgb555`,
/// else 5/6/5) shifted up to 8 bits with alpha 255, and `[r, g, b, 255]`
/// from the `b, g, r` bytes otherwise.
pub open spec fn shot_pixel(p: Seq<u8>, o: int, bpp: int, pal: Option<[[u8; 4]; 256]>, rgb555: bool) -> Seq<u8> {
    if bpp == 8 {
        match pal {
            Some(t) => seq![t@[p[o] as int]@[2], t@[p[o] as int]@[1], t@[p[o] as int]@[0], 255u8],
            None => seq![0u8, 0u8, 0u8, 255u8],
        }
    } else if bpp == 16 {
        let px = p[o] as u32 | ((p[o + 1] as u32) << 8u32);
        if rgb555 {
            seq![
                (((px >> 10u32) & 0x1f) * 8) as u8,
                (((px >> 5u32) & 0x1f) * 8) as u8,
                ((px & 0x1f) * 8) as u8,
                255u8,
            ]
        } else {
            seq![
                (((px >> 11u32) & 0x1f) * 8) as u8,
                (((px >> 5u32) & 0x3f) * 4) as u8,
                ((px & 0x1f) * 8) as u8,
                255u8,
            ]
        }
    } else {
        seq![p[o + 2], p[o + 1], p[o], 255u8]
    }
}

/// The output bytes of the first `n` pixels of the row at `base`.
pub open spec fn shot_row(p: Seq<u8>, base: int, n: int, bpp: int, pal: Option<[[u8; 4]; 256]>, rgb555: bool) -> Seq<u8>
    decreases n,
{
    if n <= 0 {
        Seq::empty()
    } else {
        shot_row(p, base, n - 1, bpp, pal, rgb555) + shot_pixel(p, base + (n - 1) * src_bytes(bpp), bpp, pal, rgb555)
    }
}

/// The output bytes of the first `h` rows.
pub open spec fn shot_rows(p: Seq<u8>, h: int, width: int, pitch: int, bpp: int, pal: Option<[[u8; 4]; 256]>, rgb555: bool) -> Seq<u8>
    decreases h,
{
    if h <= 0 {
        Seq::empty()
    } else {
        shot_rows(p, h - 1, width, pitch, bpp, pal, rgb555) + shot_row(p, (h - 1) * pitch, width, bpp, pal, rgb555)
    }
}

/// The surface holds every byte the rows read, and the packed row size
/// `width * (bpp / 8)` fits in an `i32`.
pub open spec fn shot_fits(len: int, width: int, height: int, bpp: int, pitch: int) -> bool {
    &&& 0 < width
    &&& 0 < height
    &&& 0 <= bpp <= 256
    &&& width * (bpp / 8) <= i32::MAX
    &&& (height - 1) * row_pitch(width, bpp, pitch) + width * src_bytes(bpp) <= len
}

/// Whether a surface of `len` bytes holds every byte the screenshot rows
/// read (see `shot_fits`).
pub fn shot_fits_exec(len: usize, width: i32, height: i32, bpp: i32, pitch: i32) -> (r: bool)
    ensures
        r == shot_fits(len as int, width as int, height as int, bpp as int, pitch as int),
{
    if !(0 < width && 0 < height && 0 <= bpp && bpp <= 256) {
        return false;
    }
    assert(0 <= width * (bpp / 8) <= i32::MAX * 32) by (nonlinear_arith)
        requires
            0 < width <= i32::MAX,
            0 <= bpp <= 256,
    ;
    let packed: i64 = width as i64 * (bpp / 8) as i64;
    if packed > i32::MAX as i64 {
        return false;
    }
    let rp: i64 = if pitch as i64 > packed { pitch as i64 } else { packed };
    let sb: i64 = if bpp == 8 {
        1
    } else if bpp == 16 {
        2
    } else if bpp == 32 {
        4
    } else if bpp / 8 > 3 {
        (bpp / 8) as i64
    } else {
        3
    };
    assert(0 <= (height as i64 - 1) * rp <= i32::MAX * i32::MAX) by (nonlinear_arith)
        requires
            0 <= rp <= i32::MAX,
            0 < height <= i32::MAX,
    ;
    assert(0 <= width as i64 * sb <= i32::MAX * 32) by (nonlinear_arith)
        requires
            0 < width <= i32::MAX,
            0 <= sb <= 32,
    ;
    let need: i64 = (height as i64 - 1) * rp + width as i64 * sb;
    (need as u64) <= (len as u64)
}

fn shot_pixel_exec(p: &[u8], o: usize, bpp: i32, pal: &Option<[[u8; 4]; 256]>, rgb555: bool, out: &mut Vec<u8>)
    requires
        o + src_bytes(bpp as int) <= p@.len(),
    ensures
        final(out)@ == old(out)@ + shot_pixel(p@, o as int, bpp as int, *pal, rgb555),
{
    if bpp == 8 {
        match pal {
            Some(t) => {
                let e = t[p[o] as usize];
                out.push(e[2]);
                out.push(e[1]);
                out.push(e[0]);
                out.push(255);
            },
            None => {
                out.push(0);
                out.push(0);
                out.push(0);
                out.push(255);
            },
        }
    } else if bpp == 16 {
        let px: u32 = p[o] as u32 | ((p[o + 1] as u32) << 8u32);
        let (r, g, b) = if rgb555 {
            (((px >> 10u32) & 0x1f), ((px >> 5u32) & 0x1f), (px & 0x1f))
        } else {
            (((px >> 11u32) & 0x1f), ((px >> 5u32) & 0x3f), (px & 0x1f))
        };
        assert(r <= 0x1f && b <= 0x1f && (if rgb555 { g <= 0x1f } else { g <= 0x3f })) by (bit_vector)
            requires
                r == (if rgb555 { (px >> 10u32) & 0x1f } else { (px >> 11u32) & 0x1f }),
                g == (if rgb555 { (px >> 5u32) & 0x1f } else { (px >> 5u32) & 0x3f }),
                b == px & 0x1f,
        ;
        out.push((r * 8) as u8);
        out.push((if rgb555 { g * 8 } else { g * 4 }) as u8);
        out.push((b * 8) as u8);
        out.push(255);
    } else {
        let b = p[o];
        let g = p[o + 1];
        let r = p[o + 2];
        out.push(r);
        out.push(g);
        out.push(b);
        out.push(255);
    }
}

proof fn lemma_row_offsets(width: int, height: int, bpp: int, pitch: int, row: int, x: int)
    requires
        0 < width,
        0 <= row < height,
        0 <= x < width,
        0 <= bpp <= 256,
    ensures
        row * row_pitch(width, bpp, pitch) + x * src_bytes(bpp) + src_bytes(bpp) <= (height - 1) * row_pitch(
            width,
            bpp,
            pitch,
        ) + width * src_bytes(bpp),
        0 <= row * row_pitch(width, bpp, pitch),
        0 <= x * src_bytes(bpp),
{
    let rp = row_pitch(width, bpp, pitch);
    let sb = src_bytes(bpp);
    assert(rp >= 0) by (nonlinear_arith)
        requires
            rp == row_pitch(width, bpp, pitch),
            0 < width,
            0 <= bpp,
    ;
    assert(row * rp <= (height - 1) * rp) by (nonlinear_arith)
        requires
            0 <= row <= height - 1,
            rp >= 0,
    ;
    assert(x * sb + sb <= width * sb) by (nonlinear_arith)
        requires
            0 <= x < width,
            sb >= 0,
    ;
    assert(0 <= row * rp) by (nonlinear_arith)
        requires
            0 <= row,
            rp >= 0,
    ;
    assert(0 <= x * sb) by (nonlinear_arith)
        requires
            0 <= x,
            sb >= 0,
    ;
}

/// The image rows of a screenshot: each surface row converted pixel by
/// pixel (see `shot_pixel`).
pub fn screenshot_rows(
    pixels: &[u8],
    width: i32,
    height: i32,
    bpp: i32,
    pitch: i32,
    palette: &Option<[[u8; 4]; 256]>,
    rgb555: bool,
) -> (rows: Vec<u8>)
    requires
        shot_fits(pixels@.len() as int, width as int, height as int, bpp as int, pitch as int),
    ensures
        rows@ == shot_rows(
            pixels@,
            height as int,
            width as int,
            row_pitch(width as int, bpp as int, pitch as int),
            bpp as int,
            *palette,
            rgb555,
        ),
{
    assert(0 <= width * (bpp / 8)) by (nonlinear_arith)
        requires
            0 < width,
            0 <= bpp / 8,
    ;
    let packed = width * (bpp / 8);
    let rp: i32 = if pitch > packed { pitch } else { packed };
    let sb: usize = if bpp == 8 {
        1
    } else if bpp == 16 {
        2
    } else if bpp == 32 {
        4
    } else if bpp / 8 > 3 {
        (bpp / 8) as usize
    } else {
        3
    };
    let mut rows: Vec<u8> = Vec::new();
    let mut row: i32 = 0;
    while row < height
        invariant
            shot_fits(pixels@.len() as int, width as int, height as int, bpp as int, pitch as int),
            pixels@.len() == pixels.len(),
            rp == row_pitch(width as int, bpp as int, pitch as int),
            sb == src_bytes(bpp as int),
            0 <= row <= height,
            rows@ == shot_rows(pixels@, row as int, width as int, rp as int, bpp as int, *palette, rgb555),
        decreases height - row,
    {
        proof {
            lemma_row_offsets(width as int, height as int, bpp as int, pitch as int, row as int, 0);
        }
        let base: usize = (row as usize) * (rp as usize);
        let ghost start = rows@;
        let mut x: usize = 0;
        while x < width as usize
            invariant
                shot_fits(pixels@.len() as int, width as int, height as int, bpp as int, pitch as int),
                pixels@.len() == pixels.len(),
                rp == row_pitch(width as int, bpp as int, pitch as int),
                sb == src_bytes(bpp as int),
                0 <= row < height,
                base == row * rp,
                x <= width,
                start == shot_rows(pixels@, row as int, width as int, rp as int, bpp as int, *palette, rgb555),
                rows@ == start + shot_row(pixels@, base as int, x as int, bpp as int, *palette, rgb555),
            decreases width - x,
        {
            proof {
                lemma_row_offsets(width as int, height as int, bpp as int, pitch as int, row as int, x as int);
            }
            let o = base + x * sb;
            shot_pixel_exec(pixels, o, bpp, palette, rgb555, &mut rows);
            x = x + 1;
        }
        row = row + 1;
    }
    rows
}

/// A screenshot of the surface as a PNG file, or `None` when the surface
/// has no area. The RGBA rows come from `screenshot_rows`.
pub fn screenshot_png(
    pixels: &[u8],
    width: i32,
    height: i32,
    bpp: i32,
    pitch: i32,
    palette: &Option<[[u8; 4]; 256]>,
    rgb555: bool,
) -> (r: Result<Option<Vec<u8>>, ShotError>)
    requires
        width > 0 && height > 0 ==> shot_fits(pixels@.len() as int, width as int, height as int, bpp as int, pitch as int),
    ensures
        width <= 0 || height <= 0 ==> r == Ok::<Option<Vec<u8>>, ShotError>(None),
        width > 0 && height > 0 ==> r is Ok && r->Ok_0 is Some,
        width > 0 && height > 0 ==> match r {
            Ok(Some(png)) => png@ == png_rgba8(
                width as u32,
                height as u32,
                shot_rows(
                    pixels@,
                    height as int,
                    width as int,
                    row_pitch(width as int, bpp as int, pitch as int),
                    bpp as int,
                    *palette,
                    rgb555,
                ),
            ),
            Ok(None) => false,
            Err(e) => e == ShotError::Encode,
        },
{
    if width <= 0 || height <= 0 {
        return Ok(None);
    }
    let rows = screenshot_rows(pixels, width, height, bpp, pitch, palette, rgb555);
    proof {
        lemma_rows_len(pixels@, height as int, width as int, row_pitch(width as int, bpp as int, pitch as int), bpp as int, *palette, rgb555);
        assert(rows@.len() == width as int * 4 * height as int) by (nonlinear_arith)
            requires
                rows@.len() == height * width * 4,
        ;
    }
    let n = rows.len();
    assert(width as u32 as int * 4 * height as u32 as int == n);
    match encode_rgba_png(width as u32, height as u32, rows.as_slice()) {
        Ok(png) => Ok(Some(png)),
        Err(_) => Err(ShotError::Encode),
    }
}

proof fn lemma_rows_len(p: Seq<u8>, h: int, w: int, pitch: int, bpp: int, pal: Option<[[u8; 4]; 256]>, rgb555: bool)
    requires
        h >= 0,
        w >= 0,
    ensures
        shot_rows(p, h, w, pitch, bpp, pal, rgb555).len() == h * w * 4,
    decreases h,
{
    if h > 0 {
        lemma_rows_len(p, h - 1, w, pitch, bpp, pal, rgb555);
        lemma_row_len(p, (h - 1) * pitch, w, bpp, pal, rgb555);
        assert((h - 1) * w * 4 + w * 4 == h * w * 4) by (nonlinear_arith);
    } else {
        assert(h * w * 4 == 0) by (nonlinear_arith)
            requires
                h == 0,
        ;
    }
}

proof fn lemma_row_len(p: Seq<u8>, base: int, n: int, bpp: int, pal: Option<[[u8; 4]; 256]>, rgb555: bool)
    requires
        n >= 0,
    ensures
        shot_row(p, base, n, bpp, pal, rgb555).len() == n * 4,
    decreases n,
{
    if n > 0 {
        lemma_row_len(p, base, n - 1, bpp, pal, rgb555);
    }
}

/// `char::to_lowercase`: the full Unicode lower-case mapping of a character
/// (one to three characters).
pub uninterp spec fn unicode_lower(c: char) -> Seq<char>;

/// `char::to_lowercase`, collected into a string. The contract names the
/// mapping and states it for ASCII: capital letters move down by 32, every
/// other ASCII character is kept.
#[verifier::external_body]
fn lower_char(c: char) -> (r: String)
    ensures
        r@ == unicode_lower(c),
        'A' <= c <= 'Z' ==> r@ == seq![((c as u32) + 32) as char],
        (c as u32) < 128 && !('A' <= c <= 'Z') ==> r@ == seq![c],
{
    c.to_lowercase().to_string()
}

/// The file-name form of a character: `_` for a space, else its lower case.
pub open spec fn normalized_char(c: char) -> Seq<char> {
    if c == ' ' { seq!['_'] } else { unicode_lower(c) }
}

/// The file-name form of a name.
pub open spec fn normalized(s: Seq<char>) -> Seq<char>
    decreases s.len(),
{
    if s.len() == 0 {
        Seq::empty()
    } else {
        normalized(s.drop_last()) + normalized_char(s.last())
    }
}

/// The game name as it appears in screenshot file names: spaces become `_`
/// and letters are lowered.
pub fn normalize(s: &str) -> (r: String)
    ensures
        r@ == normalized(s@),
{
    let n = s.unicode_len();
    let mut out = String::new();
    let mut i: usize = 0;
    while i < n
        invariant
            n == s@.len(),
            i <= n,
            out@ == normalized(s@.take(i as int)),
        decreases n - i,
    {
        let c = s.get_char(i);
        if c == ' ' {
            proof {
                reveal_strlit("_");
            }
            out.append("_");
        } else {
            let l = lower_char(c);
            out.append(l.as_str());
        }
        assert(s@.take(i + 1).drop_last() == s@.take(i as int));
        i = i + 1;
    }
    assert(s@.take(n as int) == s@);
    out
}

/// Only one screenshot at a time: marks one in progress and says whether
/// this caller may take it.
pub fn begin_screenshot(in_progress: &mut bool) -> (go: bool)
    ensures
        go == !*old(in_progress),
        *final(in_progress),
{
    if *in_progress {
        return false;
    }
    *in_progress = true;
    true
}

} // verus!
