//! Mouse scaling and cursor confinement decisions. The caller measures the
//! window, performs the clip / cursor moves, and keeps the floating-point
//! scale factors the ratios below describe.

use vstd::prelude::*;
use crate::blit::Rect;
use crate::state::DDrawState;

verus! {

/// Whether the mouse is currently locked into the game window.
pub fn is_locked(st: &DDrawState) -> (r: bool)
    ensures
        r == (st.mouse_is_locked != 0),
{
    st.mouse_is_locked != 0
}

/// Whether the window counts as active: focus was reported, or there is a
/// game window at all.
pub fn window_active(st: &DDrawState) -> (r: bool)
    ensures
        r == (st.focus_gained != 0 || st.hwnd_valid),
{
    st.focus_gained != 0 || st.hwnd_valid
}

/// `n.max(1)`.
pub open spec fn at_least_one(n: int) -> int {
    if n < 1 { 1 } else { n }
}

/// The mouse scale as two ratios: window pixels per game pixel
/// horizontally (`.0 / .1`) and vertically (`.2 / .3`). With `adjmouse` off
/// both are 1:1; otherwise the viewport size over the game resolution, each
/// taken as at least 1.
pub open spec fn scale_spec(st: DDrawState) -> (int, int, int, int) {
    if st.input.adjmouse {
        (
            at_least_one(st.render.viewport.right - st.render.viewport.left),
            at_least_one(st.width as int),
            at_least_one(st.render.viewport.bottom - st.render.viewport.top),
            at_least_one(st.height as int),
        )
    } else {
        (1, 1, 1, 1)
    }
}

/// Recomputes the mouse scale ratios (see `scale_spec`); the inverse scale is
/// the same ratios turned over.
pub fn update_scale(st: &DDrawState) -> (r: (i32, i32, i32, i32))
    requires
        i32::MIN <= st.render.viewport.right - st.render.viewport.left <= i32::MAX,
        i32::MIN <= st.render.viewport.bottom - st.render.viewport.top <= i32::MAX,
    ensures
        (r.0 as int, r.1 as int, r.2 as int, r.3 as int) == scale_spec(*st),
        r.0 >= 1 && r.1 >= 1 && r.2 >= 1 && r.3 >= 1,
{
    if !st.input.adjmouse {
        return (1, 1, 1, 1);
    }
    let vw = st.render.viewport.width();
    let vh = st.render.viewport.height();
    let vw = if vw < 1 { 1 } else { vw };
    let vh = if vh < 1 { 1 } else { vh };
    let gw = if st.width < 1 { 1 } else { st.width };
    let gh = if st.height < 1 { 1 } else { st.height };
    (vw, gw, vh, gh)
}

/// The rectangle the cursor is confined to: an 8x8 box at the top-left of
/// the client area with `lock_mouse_top_left`, else the whole client area.
/// `origin` is where the client area's top-left corner lies on screen
/// (`ClientToScreen` of `(0, 0)`), `client` the client rectangle.
pub open spec fn clip_spec(st: DDrawState, client: Rect, origin: (i32, i32)) -> Rect {
    let (left, top) = (origin.0 as int, origin.1 as int);
    if st.input.lock_mouse_top_left {
        Rect { left: left as i32, top: top as i32, right: (left + 8) as i32, bottom: (top + 8) as i32 }
    } else {
        Rect {
            left: left as i32,
            top: top as i32,
            right: (left + (client.right - client.left)) as i32,
            bottom: (top + (client.bottom - client.top)) as i32,
        }
    }
}

/// Whether the cursor gets confined: `adjmouse` is on, there is a window,
/// the cursor is not locked already, the window is active, and the settings
/// overlay is closed.
pub open spec fn may_lock(st: DDrawState, overlay_open: bool) -> bool {
    &&& !overlay_open
    &&& st.input.adjmouse
    &&& st.hwnd_valid
    &&& st.mouse_is_locked == 0
    &&& (st.focus_gained != 0 || st.hwnd_valid)
}

/// Confines the cursor to the render area: returns the clip rectangle (in
/// screen coordinates) and marks the mouse locked, or `None` (nothing
/// changes) when it must stay free. `client` is the game window's client
/// rectangle and `origin` its top-left corner on screen.
pub fn lock_cursor(st: &mut DDrawState, overlay_open: bool, client: Rect, origin: (i32, i32)) -> (r: Option<Rect>)
    requires
        origin.0 <= i32::MAX - 8,
        origin.1 <= i32::MAX - 8,
        i32::MIN <= client.right - client.left <= i32::MAX,
        i32::MIN <= client.bottom - client.top <= i32::MAX,
        i32::MIN <= origin.0 + (client.right - client.left) <= i32::MAX,
        i32::MIN <= origin.1 + (client.bottom - client.top) <= i32::MAX,
    ensures
        may_lock(*old(st), overlay_open) ==> r == Some(clip_spec(*old(st), client, origin))
            && *final(st) == (DDrawState { mouse_is_locked: 1, ..*old(st) }),
        !may_lock(*old(st), overlay_open) ==> r is None && *final(st) == *old(st),
        *final(st) == cursor_step(*old(st), CursorOp::Lock(overlay_open)),
{
    if overlay_open {
        return None;
    }
    if !st.input.adjmouse || !st.hwnd_valid || st.mouse_is_locked != 0 || !window_active(st) {
        return None;
    }
    let (left, top) = origin;
    let clip = if st.input.lock_mouse_top_left {
        Rect { left, top, right: left + 8, bottom: top + 8 }
    } else {
        Rect { left, top, right: left + (client.right - client.left), bottom: top + (client.bottom - client.top) }
    };
    st.mouse_is_locked = 1;
    Some(clip)
}

/// What releasing the cursor does.
#[derive(Clone, Copy, PartialEq, Eq, Debug)]
pub enum Release {
    /// Nothing to do: `adjmouse` is off, there is no window, or the cursor
    /// was not locked.
    Unchanged,
    /// Lift the clip, and move the cursor to the point when there is one.
    Free(Option<(i32, i32)>),
}

/// The centre of the client area on screen, the client area's top-left
/// corner lying at `origin`.
pub open spec fn client_centre(client: Rect, origin: (i32, i32)) -> (i32, i32) {
    (
        (origin.0 + (client.right - client.left) / 2) as i32,
        (origin.1 + (client.bottom - client.top) / 2) as i32,
    )
}

/// Releases the cursor confinement: marks the mouse unlocked and says
/// whether the clip must be lifted and where the cursor goes
/// (`center_cursor_fix` moves it to the client centre on screen).
pub fn unlock_cursor(st: &mut DDrawState, client: Rect, origin: (i32, i32)) -> (r: Release)
    requires
        0 <= client.right - client.left <= i32::MAX,
        0 <= client.bottom - client.top <= i32::MAX,
        origin.0 + (client.right - client.left) / 2 <= i32::MAX,
        origin.1 + (client.bottom - client.top) / 2 <= i32::MAX,
    ensures
        !old(st).input.adjmouse || !old(st).hwnd_valid ==> r == Release::Unchanged && *final(st) == *old(st),
        old(st).input.adjmouse && old(st).hwnd_valid ==> *final(st) == (DDrawState { mouse_is_locked: 0, ..*old(st) }),
        old(st).input.adjmouse && old(st).hwnd_valid && old(st).mouse_is_locked == 0 ==> r == Release::Unchanged,
        old(st).input.adjmouse && old(st).hwnd_valid && old(st).mouse_is_locked != 0 ==> r == Release::Free(
            if old(st).input.center_cursor_fix { Some(client_centre(client, origin)) } else { None },
        ),
        *final(st) == cursor_step(*old(st), CursorOp::Unlock),
{
    if !st.input.adjmouse || !st.hwnd_valid {
        return Release::Unchanged;
    }
    let was_locked = st.mouse_is_locked != 0;
    st.mouse_is_locked = 0;
    if !was_locked {
        return Release::Unchanged;
    }
    if st.input.center_cursor_fix {
        let x = origin.0 + (client.right - client.left) / 2;
        let y = origin.1 + (client.bottom - client.top) / 2;
        Release::Free(Some((x, y)))
    } else {
        Release::Free(None)
    }
}

/// The cursor position relative to the client area, before scaling; `None`
/// when `adjmouse` is off or there is no window (the real position is
/// used then). `origin` is the client area's top-left corner on screen.
pub fn hook_get_cursor_pos(st: &DDrawState, pt: (i32, i32), origin: (i32, i32)) -> (r: Option<(i32, i32)>)
    requires
        i32::MIN <= pt.0 - origin.0 <= i32::MAX,
        i32::MIN <= pt.1 - origin.1 <= i32::MAX,
    ensures
        !st.input.adjmouse || !st.hwnd_valid ==> r is None,
        st.input.adjmouse && st.hwnd_valid ==> r == Some(((pt.0 - origin.0) as i32, (pt.1 - origin.1) as i32)),
{
    if !st.input.adjmouse || !st.hwnd_valid {
        return None;
    }
    Some((pt.0 - origin.0, pt.1 - origin.1))
}

/// A call that confines (`Lock`, with whether the overlay is open) or
/// releases the cursor.
#[derive(Clone, Copy, PartialEq, Eq, Debug)]
pub enum CursorOp {
    Lock(bool),
    Unlock,
}

/// The state after one `lock_cursor` / `unlock_cursor` call.
pub open spec fn cursor_step(st: DDrawState, op: CursorOp) -> DDrawState {
    match op {
        CursorOp::Lock(o) => if may_lock(st, o) { DDrawState { mouse_is_locked: 1, ..st } } else { st },
        CursorOp::Unlock => if st.input.adjmouse && st.hwnd_valid {
            DDrawState { mouse_is_locked: 0, ..st }
        } else {
            st
        },
    }
}

/// The state after a sequence of calls.
pub open spec fn cursor_run(st: DDrawState, ops: Seq<CursorOp>) -> DDrawState
    decreases ops.len(),
{
    if ops.len() == 0 {
        st
    } else {
        cursor_run(cursor_step(st, ops[0]), ops.drop_first())
    }
}

/// Whether the cursor is confined after `ops`, starting from `locked`: the
/// last lock with the overlay closed or release decides; a lock while the
/// overlay is open changes nothing.
pub open spec fn locked_after(locked: bool, ops: Seq<CursorOp>) -> bool
    decreases ops.len(),
{
    if ops.len() == 0 {
        locked
    } else {
        locked_after(
            match ops[0] {
                CursorOp::Lock(o) => locked || !o,
                CursorOp::Unlock => false,
            },
            ops.drop_first(),
        )
    }
}

/// With `adjmouse` on and a window, any sequence of cursor locks and
/// releases leaves the cursor confined exactly when the last lock with the
/// overlay closed came after the last release, and changes nothing but the
/// lock flag.
pub proof fn lemma_cursor_sequence(st: DDrawState, ops: Seq<CursorOp>)
    requires
        st.input.adjmouse,
        st.hwnd_valid,
    ensures
        (cursor_run(st, ops).mouse_is_locked != 0) == locked_after(st.mouse_is_locked != 0, ops),
        cursor_run(st, ops) == (DDrawState { mouse_is_locked: cursor_run(st, ops).mouse_is_locked, ..st }),
    decreases ops.len(),
{
    if ops.len() > 0 {
        lemma_cursor_sequence(cursor_step(st, ops[0]), ops.drop_first());
    }
}

/// Locking then releasing the cursor leaves it unlocked, and a second lock
/// is possible again: the two undo each other.
pub proof fn lemma_lock_unlock(st: DDrawState, overlay_open: bool)
    requires
        may_lock(st, overlay_open),
    ensures
        may_lock(DDrawState { mouse_is_locked: 0, ..DDrawState { mouse_is_locked: 1, ..st } }, overlay_open),
        !may_lock(DDrawState { mouse_is_locked: 1, ..st }, overlay_open),
{
}

} // verus!
