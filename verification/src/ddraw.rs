//! The `IDirectDraw` decisions: surface creation requests, the display
//! modes offered, the cooperative level and display mode a game sets, the
//! capabilities reported, and the palette and clipper objects. The COM
//! plumbing and the window calls are left to the caller.

use vstd::prelude::*;
use crate::blit::Rect;
use crate::pixel::{DDPF_PALETTEINDEXED8, DDPF_RGB};
use crate::state::{DDrawState, RENDERER_OPENGL};
use crate::surface::{DDSCAPS_BACKBUFFER, DDSCAPS_FLIP, DDSCAPS_OFFSCREENPLAIN, DDSCAPS_PRIMARYSURFACE, DDSCAPS_VIDEOMEMORY};

verus! {

/// `DDSD_HEIGHT`.
pub const DDSD_HEIGHT: u32 = 2;

/// `DDSD_WIDTH`.
pub const DDSD_WIDTH: u32 = 4;

/// `DDSD_BACKBUFFERCOUNT`.
pub const DDSD_BACKBUFFERCOUNT: u32 = 0x20;

/// `DDSD_PIXELFORMAT`.
pub const DDSD_PIXELFORMAT: u32 = 0x1000;

/// `DDSD_REFRESHRATE`.
pub const DDSD_REFRESHRATE: u32 = 0x40000;

/// `DDSCL_FULLSCREEN`.
pub const DDSCL_FULLSCREEN: u32 = 1;

/// `DDSCL_EXCLUSIVE`.
pub const DDSCL_EXCLUSIVE: u32 = 0x10;

/// `PFD_DOUBLEBUFFER`.
pub const PFD_DOUBLEBUFFER: u32 = 1;

/// `PFD_DRAW_TO_WINDOW`.
pub const PFD_DRAW_TO_WINDOW: u32 = 4;

/// `PFD_SUPPORT_OPENGL`.
pub const PFD_SUPPORT_OPENGL: u32 = 0x20;

/// `PFD_SWAP_EXCHANGE`.
pub const PFD_SWAP_EXCHANGE: u32 = 0x200;

/// Errors the DirectDraw object reports.
#[derive(Clone, Copy, PartialEq, Eq, Debug)]
pub enum DDrawError {
    /// `E_INVALIDARG`.
    InvalidArg,
    /// `DDERR_INVALIDMODE`.
    InvalidMode,
    /// `DDERR_GENERIC`.
    Generic,
}

/// A pixel format description.
#[derive(Clone, Copy, PartialEq, Eq, Debug)]
pub struct PixelFormatDesc {
    pub flags: u32,
    pub bit_count: u32,
    /// Red, green and blue masks (zero when not set).
    pub masks: (u32, u32, u32),
}

/// The pixel format DirectDraw reports for a depth: palette-indexed RGB for
/// 8 bits, RGB565 for 16, 8:8:8 for 24 and 32, plain RGB otherwise.
pub open spec fn pixel_format_spec(bpp: i32) -> PixelFormatDesc {
    PixelFormatDesc {
        flags: if bpp == 8 { DDPF_PALETTEINDEXED8 | DDPF_RGB } else { DDPF_RGB },
        bit_count: bpp as u32,
        masks: if bpp == 16 {
            (0xF800u32, 0x07E0u32, 0x001Fu32)
        } else if bpp == 24 || bpp == 32 {
            (0xFF0000u32, 0x00FF00u32, 0x0000FFu32)
        } else {
            (0u32, 0u32, 0u32)
        },
    }
}

/// Fills in a pixel format for a depth.
pub fn fill_pixel_format(bpp: i32) -> (pf: PixelFormatDesc)
    ensures
        pf == pixel_format_spec(bpp),
{
    let masks = if bpp == 16 {
        (0xF800u32, 0x07E0u32, 0x001Fu32)
    } else if bpp == 24 || bpp == 32 {
        (0xFF0000u32, 0x00FF00u32, 0x0000FFu32)
    } else {
        (0u32, 0u32, 0u32)
    };
    PixelFormatDesc {
        flags: if bpp == 8 { DDPF_PALETTEINDEXED8 | DDPF_RGB } else { DDPF_RGB },
        bit_count: bpp as u32,
        masks,
    }
}

/// The hardware capabilities reported.
#[derive(Clone, Copy, PartialEq, Eq, Debug)]
pub struct Caps {
    pub caps: u32,
    pub caps2: u32,
    pub pal_caps: u32,
    pub vid_mem_total: u32,
    pub vid_mem_free: u32,
    pub surface_caps: u32,
}

/// The driver capabilities: blits (stretched, colour-filled, clipped,
/// colour-keyed), palettes, 16 MiB of video memory, and the usual surface
/// kinds.
pub fn fill_caps() -> (c: Caps)
    ensures
        c == (Caps {
            caps: 0x40u32 | 0x8000u32 | 0x04000000u32 | 0x200u32 | 0x20000000u32 | 0x40000000u32 | 0x400000u32,
            caps2: 2048u32,
            pal_caps: 4u32 | 16u32,
            vid_mem_total: 0x1000000u32,
            vid_mem_free: 0x1000000u32,
            surface_caps: DDSCAPS_BACKBUFFER | 8u32 | DDSCAPS_FLIP | 32u32 | DDSCAPS_OFFSCREENPLAIN
                | DDSCAPS_PRIMARYSURFACE | DDSCAPS_VIDEOMEMORY | 0x40000u32 | 0x10000000u32,
        }),
{
    Caps {
        caps: 0x40 | 0x8000 | 0x04000000 | 0x200 | 0x20000000 | 0x40000000 | 0x400000,
        caps2: 2048,
        pal_caps: 4 | 16,
        vid_mem_total: 16 * 1024 * 1024,
        vid_mem_free: 16 * 1024 * 1024,
        surface_caps: DDSCAPS_BACKBUFFER | 8 | DDSCAPS_FLIP | 32 | DDSCAPS_OFFSCREENPLAIN | DDSCAPS_PRIMARYSURFACE
            | DDSCAPS_VIDEOMEMORY | 0x40000 | 0x10000000,
    }
}

/// The surface `CreateSurface` builds.
#[derive(Clone, Copy, PartialEq, Eq, Debug)]
pub struct SurfaceRequest {
    pub width: i32,
    pub height: i32,
    pub bpp: i32,
    pub is_primary: bool,
    pub has_flip: bool,
    pub backbuffer_count: u32,
    /// A back buffer is attached (primary, flipping, with back buffers).
    pub with_backbuffer: bool,
}

/// The surface a description asks for: the primary takes the display mode;
/// another surface its width rounded up to even (or the display width), its
/// height (or the display height), and its pixel format depth (16 without
/// one).
pub open spec fn surface_request_spec(
    st: DDrawState,
    flags: u32,
    caps: u32,
    width: u32,
    height: u32,
    bit_count: u32,
    backbuffer_count: u32,
) -> SurfaceRequest {
    let is_primary = caps & DDSCAPS_PRIMARYSURFACE != 0;
    let has_flip = caps & DDSCAPS_FLIP != 0;
    let bbc = if flags & DDSD_BACKBUFFERCOUNT != 0 { backbuffer_count } else { 0 };
    SurfaceRequest {
        width: if is_primary {
            st.width
        } else if width > 0 {
            ((width as int + 1) / 2 * 2) as i32
        } else {
            st.width
        },
        height: if is_primary {
            st.height
        } else if height > 0 {
            height as i32
        } else {
            st.height
        },
        bpp: if is_primary {
            st.bpp
        } else if flags & DDSD_PIXELFORMAT != 0 {
            bit_count as i32
        } else {
            16
        },
        is_primary,
        has_flip,
        backbuffer_count: bbc,
        with_backbuffer: is_primary && has_flip && bbc > 0,
    }
}

/// The surface `CreateSurface` builds for a description's flags, caps,
/// size, pixel depth and back-buffer count.
pub fn create_surface_request(
    st: &DDrawState,
    flags: u32,
    caps: u32,
    width: u32,
    height: u32,
    bit_count: u32,
    backbuffer_count: u32,
) -> (r: SurfaceRequest)
    requires
        width < u32::MAX,
    ensures
        r == surface_request_spec(*st, flags, caps, width, height, bit_count, backbuffer_count),
{
    let is_primary = caps & DDSCAPS_PRIMARYSURFACE != 0;
    let has_flip = caps & DDSCAPS_FLIP != 0;
    let bbc = if flags & DDSD_BACKBUFFERCOUNT != 0 { backbuffer_count } else { 0 };
    let (w, h, bpp) = if is_primary {
        (st.width, st.height, st.bpp)
    } else {
        let w = if width > 0 { ((width / 2 + width % 2) * 2) as i32 } else { st.width };
        let h = if height > 0 { height as i32 } else { st.height };
        let bpp = if flags & DDSD_PIXELFORMAT != 0 { bit_count as i32 } else { 16 };
        (w, h, bpp)
    };
    SurfaceRequest {
        width: w,
        height: h,
        bpp,
        is_primary,
        has_flip,
        backbuffer_count: bbc,
        with_backbuffer: is_primary && has_flip && bbc > 0,
    }
}

/// A display mode offered to the game.
#[derive(Clone, Copy, PartialEq, Eq, Debug)]
pub struct ModeDesc {
    pub flags: u32,
    pub width: u32,
    pub height: u32,
    pub refresh_rate: u32,
    pub pitch: i32,
    pub format: PixelFormatDesc,
}

/// The mode description for a system mode at a depth: 60 Hz, packed pitch.
pub open spec fn mode_desc_spec(w: u32, h: u32, bpp: u32) -> ModeDesc {
    ModeDesc {
        flags: DDSD_WIDTH | DDSD_HEIGHT | DDSD_PIXELFORMAT | DDSD_REFRESHRATE,
        width: w,
        height: h,
        refresh_rate: 60,
        pitch: (w * (bpp / 8)) as i32,
        format: pixel_format_spec(bpp as i32),
    }
}

/// The size filter of an enumeration request: both a width and a height set.
pub fn mode_filter(flags: u32, width: u32, height: u32) -> (r: Option<(u32, u32)>)
    ensures
        r == (if flags & (DDSD_WIDTH | DDSD_HEIGHT) == (DDSD_WIDTH | DDSD_HEIGHT) {
            Some((width, height))
        } else {
            None
        }),
{
    if flags & (DDSD_WIDTH | DDSD_HEIGHT) == (DDSD_WIDTH | DDSD_HEIGHT) {
        Some((width, height))
    } else {
        None
    }
}

/// The system modes that pass the size filter, described at one depth.
pub open spec fn modes_at(modes: Seq<(u32, u32)>, filter: Option<(u32, u32)>, bpp: u32) -> Seq<ModeDesc>
    decreases modes.len(),
{
    if modes.len() == 0 {
        Seq::empty()
    } else {
        let m = modes.last();
        let rest = modes_at(modes.drop_last(), filter, bpp);
        match filter {
            Some(f) => if m == f { rest.push(mode_desc_spec(m.0, m.1, bpp)) } else { rest },
            None => rest.push(mode_desc_spec(m.0, m.1, bpp)),
        }
    }
}

fn push_modes_at(modes: &Vec<(u32, u32)>, filter: Option<(u32, u32)>, bpp: u32, out: &mut Vec<ModeDesc>)
    requires
        bpp == 8 || bpp == 16 || bpp == 32,
        forall|i: int| 0 <= i < modes@.len() ==> #[trigger] modes@[i].0 <= u32::MAX / 4,
    ensures
        final(out)@ == old(out)@ + modes_at(modes@, filter, bpp),
{
    let mut i: usize = 0;
    let ghost start = out@;
    while i < modes.len()
        invariant
            bpp == 8 || bpp == 16 || bpp == 32,
            forall|k: int| 0 <= k < modes@.len() ==> #[trigger] modes@[k].0 <= u32::MAX / 4,
            i <= modes@.len(),
            out@ == start + modes_at(modes@.take(i as int), filter, bpp),
        decreases modes@.len() - i,
    {
        let (w, h) = modes[i];
        assert(modes@.take(i + 1).drop_last() == modes@.take(i as int));
        assert(modes@.take(i + 1).last() == (w, h));
        let pass = match filter {
            Some(f) => w == f.0 && h == f.1,
            None => true,
        };
        if pass {
            assert(w * (bpp / 8) <= u32::MAX) by (nonlinear_arith)
                requires
                    w <= u32::MAX / 4,
                    bpp / 8 <= 4,
            ;
            out.push(
                ModeDesc {
                    flags: DDSD_WIDTH | DDSD_HEIGHT | DDSD_PIXELFORMAT | DDSD_REFRESHRATE,
                    width: w,
                    height: h,
                    refresh_rate: 60,
                    pitch: (w * (bpp / 8)) as i32,
                    format: fill_pixel_format(bpp as i32),
                },
            );
        }
        i = i + 1;
    }
    assert(modes@.take(modes@.len() as int) == modes@);
}

/// The modes `EnumDisplayModes` reports, in order: every system mode that
/// passes the size filter at 8, then 16, then 32 bits. The caller hands
/// them to the game's callback until it asks to stop.
pub fn enum_display_modes(modes: &Vec<(u32, u32)>, filter: Option<(u32, u32)>) -> (r: Vec<ModeDesc>)
    requires
        forall|i: int| 0 <= i < modes@.len() ==> #[trigger] modes@[i].0 <= u32::MAX / 4,
    ensures
        r@ == modes_at(modes@, filter, 8) + modes_at(modes@, filter, 16) + modes_at(modes@, filter, 32),
{
    let mut out: Vec<ModeDesc> = Vec::new();
    push_modes_at(modes, filter, 8, &mut out);
    push_modes_at(modes, filter, 16, &mut out);
    push_modes_at(modes, filter, 32, &mut out);
    out
}

/// `DDENUMRET_CANCEL`: the game's callback asks to stop the enumeration.
pub const DDENUMRET_CANCEL: i32 = 0;

/// The enumeration after the callback answered `answer` for mode `i` of
/// `count`: the next mode to report, or `None` when the callback cancelled
/// or every mode was reported.
pub fn enum_next(i: usize, count: usize, answer: i32) -> (r: Option<usize>)
    requires
        i < count,
    ensures
        r == (if answer == DDENUMRET_CANCEL || i + 1 >= count { None } else { Some((i + 1) as usize) }),
{
    if answer == DDENUMRET_CANCEL || i + 1 >= count {
        None
    } else {
        Some(i + 1)
    }
}

/// The number of modes the callback sees when it gives `answers` in turn:
/// up to and including the first cancel, else all of them.
pub open spec fn modes_seen(answers: Seq<i32>) -> int
    decreases answers.len(),
{
    if answers.len() == 0 {
        0
    } else if answers[0] == DDENUMRET_CANCEL {
        1
    } else {
        1 + modes_seen(answers.drop_first())
    }
}

/// Driving `enum_next` from the first mode reports exactly the modes up to
/// the first cancel: from mode `i`, `modes_seen` of the remaining answers
/// more modes are reported, and the callback is never called after a
/// cancel.
pub proof fn lemma_enum_stops_at_cancel(answers: Seq<i32>, i: int)
    requires
        0 <= i < answers.len(),
    ensures
        answers[i] == DDENUMRET_CANCEL ==> modes_seen(answers.subrange(i, answers.len() as int)) == 1,
        answers[i] != DDENUMRET_CANCEL ==> modes_seen(answers.subrange(i, answers.len() as int)) == 1
            + modes_seen(answers.subrange(i + 1, answers.len() as int)),
{
    assert(answers.subrange(i, answers.len() as int).drop_first() =~= answers.subrange(i + 1, answers.len() as int));
}

/// The display mode `GetDisplayMode` reports for the state.
pub fn get_display_mode(st: &DDrawState) -> (m: ModeDesc)
    requires
        st.width >= 0,
        i32::MIN <= st.width * (if st.bpp / 8 < 1 { 1 } else { st.bpp / 8 }) <= i32::MAX,
    ensures
        m == (ModeDesc {
            flags: DDSD_WIDTH | DDSD_HEIGHT | DDSD_PIXELFORMAT,
            width: st.width as u32,
            height: st.height as u32,
            refresh_rate: 0,
            pitch: (st.width * (if st.bpp / 8 < 1 { 1 } else { st.bpp / 8 })) as i32,
            format: pixel_format_spec(st.bpp),
        }),
{
    let bytes_pp = if st.bpp / 8 < 1 { 1 } else { st.bpp / 8 };
    ModeDesc {
        flags: DDSD_WIDTH | DDSD_HEIGHT | DDSD_PIXELFORMAT,
        width: st.width as u32,
        height: st.height as u32,
        refresh_rate: 0,
        pitch: st.width * bytes_pp,
        format: fill_pixel_format(st.bpp),
    }
}

/// What `SetDisplayMode` does after recording the mode.
#[derive(Clone, Copy, PartialEq, Eq, Debug)]
pub struct ModeChange {
    pub width: i32,
    pub height: i32,
    /// Also switch the monitor into the mode (not under `nonexclusive`).
    pub change_display: bool,
}

/// Records a display mode: depths other than 8, 16, 32 are refused; a zero
/// width or height means 640 x 480 (a size past `i32::MAX` wraps as a
/// signed value). The caller resizes the window.
pub fn set_display_mode(st: &mut DDrawState, w: u32, h: u32, bpp: u32) -> (r: Result<ModeChange, DDrawError>)
    ensures
        !(bpp == 8 || bpp == 16 || bpp == 32) ==> r == Err::<ModeChange, DDrawError>(DDrawError::InvalidMode)
            && *final(st) == *old(st),
        (bpp == 8 || bpp == 16 || bpp == 32) ==> {
            let gw: i32 = if w > 0 { w as i32 } else { 640 };
            let gh: i32 = if h > 0 { h as i32 } else { 480 };
            &&& r == Ok::<ModeChange, DDrawError>(ModeChange { width: gw, height: gh, change_display: !old(st).compat.nonexclusive })
            &&& *final(st) == (DDrawState { width: gw, height: gh, bpp: bpp as i32, ..*old(st) })
        },
{
    if bpp != 8 && bpp != 16 && bpp != 32 {
        return Err(DDrawError::InvalidMode);
    }
    let gw: i32 = if w > 0 { #[verifier::truncate] (w as i32) } else { 640 };
    let gh: i32 = if h > 0 { #[verifier::truncate] (h as i32) } else { 480 };
    st.width = gw;
    st.height = gh;
    st.bpp = bpp as i32;
    Ok(ModeChange { width: gw, height: gh, change_display: !st.compat.nonexclusive })
}

/// What `SetCooperativeLevel` asks of the caller.
#[derive(Clone, Copy, PartialEq, Eq, Debug)]
pub struct CoopPlan {
    /// The flags in force (exclusive / fullscreen stripped under
    /// `nonexclusive`).
    pub flags: u32,
    /// Set the window's pixel format with these `PIXELFORMATDESCRIPTOR`
    /// flags and colour depth, the first time only.
    pub pixel_format: Option<(u32, u8)>,
    /// Where to place the window (client rectangle, centred), when windowed.
    pub window: Option<Rect>,
}

/// The flags in force: `nonexclusive` strips exclusive and fullscreen.
pub open spec fn effective_flags(nonexclusive: bool, flags: u32) -> u32 {
    if nonexclusive && flags & (DDSCL_EXCLUSIVE | DDSCL_FULLSCREEN) != 0 {
        flags & !(DDSCL_EXCLUSIVE | DDSCL_FULLSCREEN)
    } else {
        flags
    }
}

/// Rust's truncating division of a possibly negative value by 2.
pub open spec fn half(n: int) -> int {
    if n >= 0 { n / 2 } else { -((-n) / 2) }
}

/// `SetCooperativeLevel`: refuses a missing window; otherwise records the
/// flags in force, the window and a 16-bit depth, learns the screen size
/// (`metrics` when not known yet, then `desktop`, the current desktop mode
/// when it has not been captured before), and says whether to set the pixel
/// format (once, not on Windows XP) and where to place a windowed game.
pub fn set_cooperative_level(
    st: &mut DDrawState,
    hwnd_valid: bool,
    flags: u32,
    is_windows_xp: bool,
    metrics: (i32, i32),
    desktop: Option<(i32, i32)>,
) -> (r: Result<CoopPlan, DDrawError>)
    ensures
        !hwnd_valid ==> r == Err::<CoopPlan, DDrawError>(DDrawError::InvalidArg) && *final(st) == *old(st),
        hwnd_valid ==> {
            let eff = effective_flags(old(st).compat.nonexclusive, flags);
            let s0 = if old(st).screen_width == 0 { metrics } else { (old(st).screen_width, old(st).screen_height) };
            let screen = match desktop {
                Some(d) => d,
                None => s0,
            };
            let set_pf = !old(st).pixel_format_set && !is_windows_xp;
            &&& final(st).bpp == 16
            &&& final(st).dw_flags == eff
            &&& final(st).hwnd_valid
            &&& final(st).pixel_format_set == (old(st).pixel_format_set || set_pf)
            &&& (final(st).screen_width, final(st).screen_height) == screen
            &&& *final(st) == (DDrawState {
                bpp: 16,
                dw_flags: eff,
                hwnd_valid: true,
                pixel_format_set: final(st).pixel_format_set,
                screen_width: final(st).screen_width,
                screen_height: final(st).screen_height,
                ..*old(st)
            })
            &&& r matches Ok(p) && p.flags == eff && p.pixel_format == (if set_pf {
                Some((
                    if old(st).gfx.renderer == RENDERER_OPENGL {
                        PFD_DRAW_TO_WINDOW | PFD_SUPPORT_OPENGL | PFD_DOUBLEBUFFER | PFD_SWAP_EXCHANGE
                    } else {
                        PFD_DRAW_TO_WINDOW | PFD_DOUBLEBUFFER
                    },
                    16u8,
                ))
            } else {
                None
            }) && p.window == (if eff & DDSCL_FULLSCREEN == 0 {
                Some(centred_rect_div(*old(st), screen.0, screen.1))
            } else {
                None
            })
        },
{
    if !hwnd_valid {
        return Err(DDrawError::InvalidArg);
    }
    let eff = if st.compat.nonexclusive && flags & (DDSCL_EXCLUSIVE | DDSCL_FULLSCREEN) != 0 {
        flags & !(DDSCL_EXCLUSIVE | DDSCL_FULLSCREEN)
    } else {
        flags
    };
    st.bpp = 16;
    st.dw_flags = eff;
    st.hwnd_valid = true;
    let pixel_format = if !st.pixel_format_set && !is_windows_xp {
        st.pixel_format_set = true;
        let pfd = if st.gfx.renderer == RENDERER_OPENGL {
            PFD_DRAW_TO_WINDOW | PFD_SUPPORT_OPENGL | PFD_DOUBLEBUFFER | PFD_SWAP_EXCHANGE
        } else {
            PFD_DRAW_TO_WINDOW | PFD_DOUBLEBUFFER
        };
        Some((pfd, 16u8))
    } else {
        None
    };
    if st.screen_width == 0 {
        st.screen_width = metrics.0;
        st.screen_height = metrics.1;
    }
    match desktop {
        Some(d) => {
            st.screen_width = d.0;
            st.screen_height = d.1;
        },
        None => {},
    }
    let window = if eff & DDSCL_FULLSCREEN == 0 {
        let rw = if st.win_rect.right != 0 { st.win_rect.right } else { st.width };
        let rh = if st.win_rect.bottom != 0 { st.win_rect.bottom } else { st.height };
        let x = st.screen_width / 2 - rw / 2;
        let y = st.screen_height / 2 - rh / 2;
        Some(Rect { left: x, top: y, right: rw.wrapping_add(x), bottom: rh.wrapping_add(y) })
    } else {
        None
    };
    Ok(CoopPlan { flags: eff, pixel_format, window })
}

/// The centred client rectangle, with Rust's truncating halves; the right
/// and bottom edges wrap as 32-bit values.
pub open spec fn centred_rect_div(st: DDrawState, sw: i32, sh: i32) -> Rect {
    let rw: i32 = if st.win_rect.right != 0 { st.win_rect.right } else { st.width };
    let rh: i32 = if st.win_rect.bottom != 0 { st.win_rect.bottom } else { st.height };
    let x = (half(sw as int) - half(rw as int)) as i32;
    let y = (half(sh as int) - half(rh as int)) as i32;
    Rect { left: x, top: y, right: rw.wrapping_add(x), bottom: rh.wrapping_add(y) }
}

/// A DirectDraw palette: its creation flags and 256 entries stored as
/// `[b, g, r, flags]`.
pub struct Palette {
    pub flags: u32,
    pub entries: [[u8; 4]; 256],
}

/// A `PALETTEENTRY` (`[r, g, b, flags]`) stored as `[b, g, r, flags]`.
pub open spec fn stored(e: [u8; 4]) -> [u8; 4] {
    [e@[2], e@[1], e@[0], e@[3]]
}

/// Creates a palette from the game's entries (`[r, g, b, flags]`), or all
/// black without them.
pub fn create_palette(flags: u32, colors: Option<&[[u8; 4]; 256]>) -> (p: Palette)
    ensures
        p.flags == flags,
        forall|i: int| 0 <= i < 256 ==> #[trigger] p.entries@[i] == (match colors {
            Some(c) => stored(c@[i]),
            None => [0u8, 0u8, 0u8, 0u8],
        }),
{
    let mut entries = [[0u8; 4]; 256];
    match colors {
        Some(c) => {
            let mut i: usize = 0;
            while i < 256
                invariant
                    i <= 256,
                    entries@.len() == 256,
                    forall|k: int| 0 <= k < i ==> #[trigger] entries@[k] == stored(c@[k]),
                decreases 256 - i,
            {
                let pe = c[i];
                entries[i] = [pe[2], pe[1], pe[0], pe[3]];
                assert(entries@[i as int] == stored(c@[i as int]));
                i = i + 1;
            }
        },
        None => {
            assert(forall|k: int| 0 <= k < 256 ==> #[trigger] entries@[k] == [0u8, 0u8, 0u8, 0u8]);
        },
    }
    Palette { flags, entries }
}

/// A stored entry handed back as a `PALETTEENTRY` (`[r, g, b, flags]`).
pub open spec fn handed_out(e: [u8; 4]) -> [u8; 4] {
    [e@[2], e@[1], e@[0], e@[3]]
}

impl Palette {
    /// `GetCaps`: the creation flags.
    pub fn get_caps(&self) -> (f: u32)
        ensures
            f == self.flags,
    {
        self.flags
    }

    /// `GetEntries`: `count` entries from `start` as `[r, g, b, flags]`;
    /// refused when they run past entry 255.
    pub fn get_entries(&self, start: u32, count: u32) -> (r: Result<Vec<[u8; 4]>, DDrawError>)
        ensures
            start as int + count as int > 256 ==> r == Err::<Vec<[u8; 4]>, DDrawError>(DDrawError::InvalidArg),
            start as int + count as int <= 256 ==> (r matches Ok(v) && v@.len() == count && forall|i: int|
                0 <= i < count ==> #[trigger] v@[i] == handed_out(self.entries@[start + i])),
    {
        if start > 256 || count > 256 - start {
            return Err(DDrawError::InvalidArg);
        }
        let mut out: Vec<[u8; 4]> = Vec::new();
        let mut i: u32 = 0;
        while i < count
            invariant
                start + count <= 256,
                i <= count,
                out@.len() == i,
                forall|k: int| 0 <= k < i ==> #[trigger] out@[k] == handed_out(self.entries@[start + k]),
            decreases count - i,
        {
            let e = self.entries[(start + i) as usize];
            out.push([e[2], e[1], e[0], e[3]]);
            i = i + 1;
        }
        Ok(out)
    }

    /// `SetEntries`: stores `entries` (`[r, g, b, flags]`) from `start`;
    /// refused when they run past entry 255. Other entries keep their
    /// colours.
    pub fn set_entries(&mut self, start: u32, entries: &[[u8; 4]]) -> (r: Result<(), DDrawError>)
        requires
            entries@.len() <= u32::MAX,
        ensures
            start as int + entries@.len() > 256 ==> r == Err::<(), DDrawError>(DDrawError::InvalidArg)
                && final(self).entries == old(self).entries,
            start as int + entries@.len() <= 256 ==> r == Ok::<(), DDrawError>(()) && forall|i: int|
                0 <= i < 256 ==> #[trigger] final(self).entries@[i] == (if start <= i < start + entries@.len() {
                    stored(entries@[i - start])
                } else {
                    old(self).entries@[i]
                }),
            final(self).flags == old(self).flags,
    {
        let count = entries.len();
        if start > 256 || count > 256 - (start as usize) {
            return Err(DDrawError::InvalidArg);
        }
        let mut i: usize = 0;
        while i < count
            invariant
                count == entries@.len(),
                start + count <= 256,
                i <= count,
                self.flags == old(self).flags,
                self.entries@.len() == 256,
                forall|k: int| 0 <= k < 256 ==> #[trigger] self.entries@[k] == (if start <= k < start + i {
                    stored(entries@[k - start])
                } else {
                    old(self).entries@[k]
                }),
            decreases count - i,
        {
            let pe = entries[i];
            self.entries[start as usize + i] = [pe[2], pe[1], pe[0], pe[3]];
            i = i + 1;
        }
        Ok(())
    }
}

/// Entries read back after they were set are what was set: a `SetEntries`
/// of a range followed by a `GetEntries` of the same range hands back the
/// game's own values.
pub proof fn lemma_palette_round_trip(e: [u8; 4])
    ensures
        handed_out(stored(e)) == e,
{
    assert(handed_out(stored(e))@ =~= e@);
}

/// A clipper: the window it follows and its explicit clip list.
pub struct Clipper {
    pub hwnd: usize,
    pub clip: Vec<Rect>,
    pub changed: bool,
}

/// The smallest rectangle holding the first `n` rectangles (all zero for
/// none).
pub open spec fn bbox_of(r: Seq<Rect>, n: int) -> Rect
    decreases n,
{
    if n <= 0 {
        Rect { left: 0, top: 0, right: 0, bottom: 0 }
    } else if n == 1 {
        r[0]
    } else {
        let b = bbox_of(r, n - 1);
        let x = r[n - 1];
        Rect {
            left: if x.left < b.left { x.left } else { b.left },
            top: if x.top < b.top { x.top } else { b.top },
            right: if x.right > b.right { x.right } else { b.right },
            bottom: if x.bottom > b.bottom { x.bottom } else { b.bottom },
        }
    }
}

/// The bounding box of a rectangle list (all zero when it is empty).
pub fn bbox(rects: &Vec<Rect>) -> (b: Rect)
    ensures
        b == bbox_of(rects@, rects@.len() as int),
{
    if rects.len() == 0 {
        return Rect { left: 0, top: 0, right: 0, bottom: 0 };
    }
    let mut b = rects[0];
    let mut i: usize = 1;
    while i < rects.len()
        invariant
            1 <= i <= rects@.len(),
            b == bbox_of(rects@, i as int),
        decreases rects@.len() - i,
    {
        let x = rects[i];
        b = Rect {
            left: if x.left < b.left { x.left } else { b.left },
            top: if x.top < b.top { x.top } else { b.top },
            right: if x.right > b.right { x.right } else { b.right },
            bottom: if x.bottom > b.bottom { x.bottom } else { b.bottom },
        };
        i = i + 1;
    }
    b
}

/// Bytes of a region header.
pub const RGNDATAHEADER_SIZE: usize = 32;

/// Bytes of one rectangle.
pub const RECT_SIZE: usize = 16;

/// What `GetClipList` reports.
pub struct ClipList {
    /// Bytes the region needs.
    pub needed: u32,
    /// Bounding box of the rectangles.
    pub bounds: Rect,
    /// The rectangles, when the caller supplied a buffer.
    pub rects: Option<Vec<Rect>>,
}

/// The rectangles a clipper clips to: its list, else the window's client
/// rectangle when it follows a window, else none.
pub open spec fn clip_rects(c: Seq<Rect>, hwnd: usize, client: Rect) -> Seq<Rect> {
    if c.len() > 0 {
        c
    } else if hwnd != 0 {
        seq![client]
    } else {
        Seq::empty()
    }
}

impl Clipper {
    /// `GetClipList`: the clip rectangles, their bounding box and the size
    /// of the region. With no buffer (`avail` is `None`) only the size and
    /// box are reported; a buffer smaller than the region is refused. The
    /// size is reported as a 32-bit value.
    pub fn get_clip_list(&self, client: Rect, avail: Option<u32>) -> (r: Result<ClipList, DDrawError>)
        requires
            32 + 16 * self.clip@.len() <= usize::MAX,
        ensures
            ({
                let rects = clip_rects(self.clip@, self.hwnd, client);
                let needed = 32 + 16 * rects.len();
                match avail {
                    None => r matches Ok(l) && l.needed == needed as u32 && l.bounds == bbox_of(rects, rects.len() as int)
                        && l.rects is None,
                    Some(a) => if a < needed {
                        r == Err::<ClipList, DDrawError>(DDrawError::Generic)
                    } else {
                        r matches Ok(l) && l.needed == needed as u32 && l.bounds == bbox_of(rects, rects.len() as int)
                            && (l.rects matches Some(v) && v@ == rects)
                    },
                }
            }),
    {
        let rects: Vec<Rect> = if self.clip.len() > 0 {
            self.clip.clone()
        } else if self.hwnd != 0 {
            vec![client]
        } else {
            Vec::new()
        };
        proof {
            assert(rects@ == clip_rects(self.clip@, self.hwnd, client));
        }
        let bb = bbox(&rects);
        let size: usize = RGNDATAHEADER_SIZE + RECT_SIZE * rects.len();
        let needed: u32 = #[verifier::truncate] (size as u32);
        match avail {
            None => Ok(ClipList { needed, bounds: bb, rects: None }),
            Some(a) => {
                if (a as usize) < size {
                    Err(DDrawError::Generic)
                } else {
                    Ok(ClipList { needed, bounds: bb, rects: Some(rects) })
                }
            },
        }
    }

    /// `SetClipList`: replaces the clip list (clears it with none) and marks
    /// it changed.
    pub fn set_clip_list(&mut self, rects: Option<Vec<Rect>>)
        ensures
            final(self).clip@ == (match rects {
                Some(v) => v@,
                None => Seq::<Rect>::empty(),
            }),
            final(self).changed,
            final(self).hwnd == old(self).hwnd,
    {
        self.clip = match rects {
            Some(v) => v,
            None => Vec::new(),
        };
        self.changed = true;
    }

    /// `IsClipListChanged`: whether the list changed since the last query;
    /// the query clears the mark.
    pub fn is_clip_list_changed(&mut self) -> (c: bool)
        ensures
            c == old(self).changed,
            !final(self).changed,
            final(self).clip@ == old(self).clip@,
            final(self).hwnd == old(self).hwnd,
    {
        let c = self.changed;
        self.changed = false;
        c
    }

    /// `SetHWnd`: the window the clipper follows.
    pub fn set_hwnd(&mut self, hwnd: usize)
        ensures
            final(self).hwnd == hwnd,
            final(self).clip@ == old(self).clip@,
            final(self).changed == old(self).changed,
    {
        self.hwnd = hwnd;
    }
}

} // verus!
