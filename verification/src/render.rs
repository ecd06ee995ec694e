//! The renderer thread's decisions: which backends it tries in which order,
//! which one it keeps, when a frame is uploaded, and the names it logs.

use vstd::prelude::*;
use crate::state::{DDrawState, Viewport, RENDERER_D3D9, RENDERER_GDI, RENDERER_OPENGL};

verus! {

/// The render log's name of a renderer id (the OpenGL core renderer shows
/// as unknown here).
pub open spec fn renderer_name_spec(r: i32) -> Seq<char> {
    if r == RENDERER_D3D9 {
        "d3d9"@
    } else if r == RENDERER_OPENGL {
        "opengl"@
    } else if r == RENDERER_GDI {
        "gdi"@
    } else {
        "unknown"@
    }
}

/// Human-readable name of a renderer id, as the render log writes it.
pub fn renderer_name(r: i32) -> (n: &'static str)
    ensures
        n@ == renderer_name_spec(r),
{
    if r == RENDERER_D3D9 {
        "d3d9"
    } else if r == RENDERER_OPENGL {
        "opengl"
    } else if r == RENDERER_GDI {
        "gdi"
    } else {
        "unknown"
    }
}

/// The backends tried, in order: automatic mode tries Direct3D 9, then
/// OpenGL, then GDI; an explicit choice falls back to GDI.
pub fn backend_order(renderer: i32, auto: bool) -> (o: [i32; 4])
    ensures
        o@ == (if auto {
            seq![RENDERER_D3D9, RENDERER_OPENGL, RENDERER_GDI, RENDERER_GDI]
        } else {
            seq![renderer, RENDERER_GDI, RENDERER_GDI, RENDERER_GDI]
        }),
{
    let o = if auto {
        [RENDERER_D3D9, RENDERER_OPENGL, RENDERER_GDI, RENDERER_GDI]
    } else {
        [renderer, RENDERER_GDI, RENDERER_GDI, RENDERER_GDI]
    };
    assert(o@ =~= (if auto {
        seq![RENDERER_D3D9, RENDERER_OPENGL, RENDERER_GDI, RENDERER_GDI]
    } else {
        seq![renderer, RENDERER_GDI, RENDERER_GDI, RENDERER_GDI]
    }));
    o
}

/// The backend kept: the first in `order` whose start-up succeeded
/// (`started`), or GDI when none did.
pub open spec fn chosen_spec(order: Seq<i32>, started: Seq<bool>) -> i32 {
    if started[0] {
        order[0]
    } else if started[1] {
        order[1]
    } else if started[2] {
        order[2]
    } else if started[3] {
        order[3]
    } else {
        RENDERER_GDI
    }
}

/// Picks the backend to keep from the start-up results of the backends in
/// `order`.
pub fn chosen_backend(order: [i32; 4], started: [bool; 4]) -> (r: i32)
    ensures
        r == chosen_spec(order@, started@),
{
    let mut i: usize = 0;
    while i < 4
        invariant
            i <= 4,
            forall|j: int| 0 <= j < i ==> !started@[j],
        decreases 4 - i,
    {
        if started[i] {
            return order[i];
        }
        i = i + 1;
    }
    RENDERER_GDI
}

/// Whether the renderer uploads the primary this tick: the primary changed
/// since the last tick, or its size differs from the last one seen (`last`,
/// which then follows it). The change flag is consumed.
pub fn frame_upload(st: &mut DDrawState, primary: Option<(i32, i32)>, last: &mut (i32, i32)) -> (upload: bool)
    ensures
        upload == (old(st).frame.present_dirty || (primary matches Some(s) && s != *old(last))),
        *final(st) == (DDrawState { frame: old(st).frame.cleared(), ..*old(st) }),
        *final(last) == (match primary {
            Some(s) => s,
            None => *old(last),
        }),
{
    let dirty = crate::state::take_dirty(st);
    match primary {
        Some(s) => {
            let changed = s.0 != last.0 || s.1 != last.1;
            *last = s;
            dirty || changed
        },
        None => dirty,
    }
}

/// The OpenGL viewport `(x, y, width, height)` the picture is drawn into:
/// the render viewport when it has an area (else the client area, else the
/// game size), with its top edge turned into OpenGL's bottom-up `y` inside
/// a render area `render_h` high (the client height or the game height in
/// the fallbacks). Values wrap as 32-bit integers.
pub open spec fn gl_viewport_spec(vp: Viewport, render_h: i32, client: (i32, i32), game: (i32, i32)) -> (i32, i32, i32, i32) {
    let (vl, vt, vr, vb, rh) = if vp.right > vp.left && vp.bottom > vp.top {
        (vp.left as int, vp.top as int, vp.right as int, vp.bottom as int, render_h as int)
    } else if client.0 > 0 && client.1 > 0 {
        (0, 0, client.0 as int, client.1 as int, client.1 as int)
    } else {
        (0, 0, game.0 as int, game.1 as int, game.1 as int)
    };
    if vr > vl && vb > vt {
        (vl as i32, (rh - vt - (vb - vt)) as i32, (vr - vl) as i32, (vb - vt) as i32)
    } else {
        (0, 0, game.0, game.1)
    }
}

/// Chooses the OpenGL viewport for presenting (see `gl_viewport_spec`).
pub fn gl_viewport(vp: Viewport, render_h: i32, client: (i32, i32), game: (i32, i32)) -> (r: (i32, i32, i32, i32))
    ensures
        r == gl_viewport_spec(vp, render_h, client, game),
{
    let (vl, vt, vr, vb, rh): (i64, i64, i64, i64, i64) = if vp.right > vp.left && vp.bottom > vp.top {
        (vp.left as i64, vp.top as i64, vp.right as i64, vp.bottom as i64, render_h as i64)
    } else if client.0 > 0 && client.1 > 0 {
        (0, 0, client.0 as i64, client.1 as i64, client.1 as i64)
    } else {
        (0, 0, game.0 as i64, game.1 as i64, game.1 as i64)
    };
    if vr > vl && vb > vt {
        let y: i64 = rh - vt - (vb - vt);
        let w: i64 = vr - vl;
        let h: i64 = vb - vt;
        (#[verifier::truncate] (vl as i32), #[verifier::truncate] (y as i32), #[verifier::truncate] (w as i32),
        #[verifier::truncate] (h as i32))
    } else {
        (0, 0, game.0, game.1)
    }
}

} // verus!
