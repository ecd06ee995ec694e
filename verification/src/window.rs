//! Window decisions: the window procedure's answer to each message, the
//! hotkeys, fullscreen and maximise toggles, and the render viewport inside
//! the window. Styling and moving the window is left
//! to the caller.

use vstd::prelude::*;
use crate::blit::Rect;
use crate::ddraw::DDSCL_FULLSCREEN;
use crate::state::FrameFlags;
use crate::state::{DDrawState, GraphicsConfig, RenderInfo, ScalingConfig, Viewport, RENDERER_D3D9, RENDERER_GDI, RENDERER_OPENGL};

verus! {

/// `End`.
pub const VK_END: i32 = 0x23;

/// `Page Up`.
pub const VK_PRIOR: i32 = 0x21;

/// `Page Down`.
pub const VK_NEXT: i32 = 0x22;

/// The `R` key.
pub const VK_R: i32 = 0x52;

/// Modifier keys held while a key went down.
#[derive(Clone, Copy, PartialEq, Eq, Debug)]
pub struct Modifiers {
    pub ctrl: bool,
    pub alt: bool,
    pub rmenu: bool,
    pub rctrl: bool,
}

/// What a hotkey asks of the caller, besides the state changes
/// `handle_hotkeys` makes itself.
#[derive(Clone, Copy, PartialEq, Eq, Debug)]
pub struct HotkeyPlan {
    pub toggle_overlay: bool,
    pub screenshot: bool,
    /// Lock or release the cursor (the caller asks `is_locked`).
    pub toggle_mouse_lock: bool,
    pub toggle_fullscreen: bool,
    /// Toggle the borderless-maximised window; `.1` saves the border.
    pub toggle_maximize: Option<bool>,
}

/// The renderer after `Ctrl+End`: GDI, then OpenGL, then Direct3D 9, then
/// GDI again.
pub open spec fn next_renderer(r: i32) -> i32 {
    if r == RENDERER_GDI {
        RENDERER_OPENGL
    } else if r == RENDERER_OPENGL {
        RENDERER_D3D9
    } else {
        RENDERER_GDI
    }
}

/// A configured key matches (0 disables it).
pub open spec fn is_key(k: i32, key: i32) -> bool {
    k != 0 && key == k
}

/// The actions a key press asks for.
pub open spec fn hotkey_plan(st: DDrawState, key: i32, repeat: bool, m: Modifiers) -> HotkeyPlan {
    let k = st.keys;
    if is_key(k.keyconfig, key) && !repeat && m.ctrl && m.alt {
        HotkeyPlan {
            toggle_overlay: true,
            screenshot: false,
            toggle_mouse_lock: false,
            toggle_fullscreen: false,
            toggle_maximize: None,
        }
    } else {
        let unlock = (is_key(k.keyunlockcursor1, key) && m.ctrl) || (is_key(k.keyunlockcursor2, key) && m.rctrl);
        HotkeyPlan {
            toggle_overlay: false,
            screenshot: is_key(k.keyscreenshot, key) && !repeat,
            toggle_mouse_lock: (unlock && st.input.adjmouse) || (!m.ctrl && m.rmenu && m.rctrl
                && st.input.adjmouse),
            toggle_fullscreen: !repeat && ((is_key(k.keytogglefullscreen, key) && m.alt) || is_key(
                k.keytogglefullscreen2,
                key,
            )),
            toggle_maximize: if !repeat && ((is_key(k.keytogglemaximize, key) && m.alt) || is_key(
                k.keytogglemaximize2,
                key,
            )) {
                Some(st.compat.savesettings != 0)
            } else {
                None
            },
        }
    }
}

/// The state after a key: `Ctrl+End` cycles the renderer in automatic mode
/// and asks for a new viewport, `Ctrl+PageUp` / `Ctrl+PageDown` move the
/// frame-rate target by 5 within 1..=1000, right `Ctrl+R` toggles the frame
/// counter; the overlay key and every other key change nothing.
pub open spec fn hotkey_state(st: DDrawState, key: i32, repeat: bool, m: Modifiers) -> DDrawState {
    let k = st.keys;
    if is_key(k.keyconfig, key) && !repeat && m.ctrl && m.alt {
        st
    } else if m.ctrl {
        if key == VK_END && st.gfx.auto_renderer {
            DDrawState {
                gfx: GraphicsConfig { renderer: next_renderer(st.gfx.renderer), ..st.gfx },
                render: RenderInfo { invalidate: true, ..st.render },
                ..st
            }
        } else if key == VK_PRIOR {
            DDrawState {
                gfx: GraphicsConfig {
                    target_fps: if st.gfx.target_fps + 5 > 1000 { 1000 } else { (st.gfx.target_fps + 5) as i32 },
                    ..st.gfx
                },
                ..st
            }
        } else if key == VK_NEXT {
            DDrawState {
                gfx: GraphicsConfig {
                    target_fps: if st.gfx.target_fps - 5 < 1 { 1 } else { (st.gfx.target_fps - 5) as i32 },
                    ..st.gfx
                },
                ..st
            }
        } else {
            st
        }
    } else if m.rmenu && m.rctrl {
        st
    } else if m.rctrl && key == VK_R {
        DDrawState { scaling: ScalingConfig { draw_fps: !st.scaling.draw_fps, ..st.scaling }, ..st }
    } else {
        st
    }
}

fn plan_for_key(st: &DDrawState, key: i32, repeat: bool, m: Modifiers) -> (p: HotkeyPlan)
    ensures
        p == hotkey_plan(*st, key, repeat, m),
{
    let k = st.keys;
    if k.keyconfig != 0 && key == k.keyconfig && !repeat && m.ctrl && m.alt {
        return HotkeyPlan {
            toggle_overlay: true,
            screenshot: false,
            toggle_mouse_lock: false,
            toggle_fullscreen: false,
            toggle_maximize: None,
        };
    }
    let screenshot = k.keyscreenshot != 0 && key == k.keyscreenshot && !repeat;
    let unlock = (k.keyunlockcursor1 != 0 && key == k.keyunlockcursor1 && m.ctrl) || (k.keyunlockcursor2 != 0
        && key == k.keyunlockcursor2 && m.rctrl);
    let toggle_mouse_lock = (unlock && st.input.adjmouse) || (!m.ctrl && m.rmenu && m.rctrl && st.input.adjmouse);
    let toggle_fullscreen = !repeat && ((k.keytogglefullscreen != 0 && key == k.keytogglefullscreen && m.alt) || (
    k.keytogglefullscreen2 != 0 && key == k.keytogglefullscreen2));
    let toggle_maximize = if !repeat && ((k.keytogglemaximize != 0 && key == k.keytogglemaximize && m.alt) || (
    k.keytogglemaximize2 != 0 && key == k.keytogglemaximize2)) {
        Some(st.compat.savesettings != 0)
    } else {
        None
    };
    HotkeyPlan { toggle_overlay: false, screenshot, toggle_mouse_lock, toggle_fullscreen, toggle_maximize }
}

fn apply_hotkey(st: &mut DDrawState, key: i32, repeat: bool, m: Modifiers)
    ensures
        *final(st) == hotkey_state(*old(st), key, repeat, m),
{
    let k = st.keys;
    if k.keyconfig != 0 && key == k.keyconfig && !repeat && m.ctrl && m.alt {
        return;
    }
    if m.ctrl {
        if key == VK_END && st.gfx.auto_renderer {
            let r = st.gfx.renderer;
            st.gfx.renderer = if r == RENDERER_GDI {
                RENDERER_OPENGL
            } else if r == RENDERER_OPENGL {
                RENDERER_D3D9
            } else {
                RENDERER_GDI
            };
            st.render.invalidate = true;
        } else if key == VK_PRIOR {
            let t = st.gfx.target_fps;
            st.gfx.target_fps = if t > 995 { 1000 } else { t + 5 };
        } else if key == VK_NEXT {
            let t = st.gfx.target_fps;
            st.gfx.target_fps = if t < 6 { 1 } else { t - 5 };
        }
    } else if !(m.rmenu && m.rctrl) && m.rctrl && key == VK_R {
        st.scaling.draw_fps = !st.scaling.draw_fps;
    }
}

/// Handles a key that reached the game window: says which actions to run
/// (`hotkey_plan`) and makes the state changes of the debug keys
/// (`hotkey_state`).
pub fn handle_hotkeys(st: &mut DDrawState, key: i32, repeat: bool, m: Modifiers) -> (p: HotkeyPlan)
    ensures
        p == hotkey_plan(*old(st), key, repeat, m),
        *final(st) == hotkey_state(*old(st), key, repeat, m),
{
    let p = plan_for_key(st, key, repeat, m);
    apply_hotkey(st, key, repeat, m);
    p
}

/// `WM_NULL`, the not-responding probe.
pub const WM_NULL: u32 = 0;
/// `WM_MOVE`.
pub const WM_MOVE: u32 = 0x3;
/// `WM_SIZE`.
pub const WM_SIZE: u32 = 0x5;
/// `WM_ACTIVATE`.
pub const WM_ACTIVATE: u32 = 0x6;
/// `WM_PAINT`.
pub const WM_PAINT: u32 = 0xF;
/// `WM_CLOSE`.
pub const WM_CLOSE: u32 = 0x10;
/// `WM_ERASEBKGND`.
pub const WM_ERASEBKGND: u32 = 0x14;
/// `WM_ACTIVATEAPP`.
pub const WM_ACTIVATEAPP: u32 = 0x1C;
/// `WM_DISPLAYCHANGE`.
pub const WM_DISPLAYCHANGE: u32 = 0x7E;
/// `WM_KEYDOWN`.
pub const WM_KEYDOWN: u32 = 0x100;
/// `WM_SYSKEYDOWN`.
pub const WM_SYSKEYDOWN: u32 = 0x104;
/// `WM_SYSCOMMAND`.
pub const WM_SYSCOMMAND: u32 = 0x112;
/// `WM_TIMER`.
pub const WM_TIMER: u32 = 0x113;
/// `WM_LBUTTONDOWN`.
pub const WM_LBUTTONDOWN: u32 = 0x201;
/// `WM_RBUTTONDOWN`.
pub const WM_RBUTTONDOWN: u32 = 0x204;
/// `WM_MBUTTONDOWN`.
pub const WM_MBUTTONDOWN: u32 = 0x207;
/// `WM_PARENTNOTIFY`.
pub const WM_PARENTNOTIFY: u32 = 0x210;
/// `WM_MOUSELEAVE`.
pub const WM_MOUSELEAVE: u32 = 0x2A3;
/// `SC_CLOSE`.
pub const SC_CLOSE: u64 = 0xF060;
/// `F4`.
pub const VK_F4: i32 = 0x73;
/// The timer that restores the window size.
pub const TIMER_FIX_WINDOWPOS: u64 = 78;

/// What the window procedure asks of its caller after a message.
#[derive(Clone, Copy, PartialEq, Eq, Debug)]
pub struct MessagePlan {
    /// `Some(v)`: return `v` at once; `None`: pass the message on to the
    /// game's own window procedure after the actions.
    pub result: Option<i64>,
    /// Release a stuck Alt key.
    pub reset_alt_key: bool,
    /// Confine the cursor (`mouse::lock_cursor`).
    pub lock_mouse: bool,
    /// Release the cursor (`mouse::unlock_cursor`).
    pub unlock_mouse: bool,
    /// Re-apply the window style.
    pub apply_style: bool,
    /// Minimise the window.
    pub minimize: bool,
    /// Centre the window again.
    pub recenter: bool,
    /// Lay child windows out over the game again.
    pub fix_childs: bool,
    /// Move the settings overlay over the window again.
    pub sync_overlay: bool,
    /// Invalidate the client area.
    pub invalidate_rect: bool,
    /// Validate the client area without painting.
    pub validate_rect: bool,
    /// Restore the window size to the game's.
    pub restore_size: bool,
    /// Dispatch the pending not-responding probes.
    pub drain_probes: bool,
    /// End the process.
    pub exit: bool,
    /// The hotkey actions of a key press.
    pub hotkey: Option<HotkeyPlan>,
}

/// The plan that does nothing and passes the message on.
pub open spec fn pass_on() -> MessagePlan {
    MessagePlan {
        result: None,
        reset_alt_key: false,
        lock_mouse: false,
        unlock_mouse: false,
        apply_style: false,
        minimize: false,
        recenter: false,
        fix_childs: false,
        sync_overlay: false,
        invalidate_rect: false,
        validate_rect: false,
        restore_size: false,
        drain_probes: false,
        exit: false,
        hotkey: None,
    }
}

/// `st` with the primary marked as changed, so the renderer repaints.
pub open spec fn dirty(st: DDrawState) -> DDrawState {
    DDrawState { frame: FrameFlags { present_dirty: true, ..st.frame }, ..st }
}

/// The new state and the plan for one window message. `win_rect` is the
/// window rectangle now, `overlay_took_key` says that the open settings
/// overlay consumed a key message, `m` the modifier keys held.
///
/// The not-responding probe is answered at once; size and move record the
/// window rectangle (a size change also asks for a new viewport) and keep
/// children, centring and the overlay in place; activation records the
/// focus, repaints and confines the cursor, while deactivation releases it
/// and minimises a fullscreen window (`noactivateapp` ignores both
/// activation messages); a mouse button confines the cursor and leaving the
/// window releases it; closing ends the process with `terminate_process`;
/// background erasing is claimed done; painting repaints from the primary
/// and validates; key presses go to the overlay first, then to the hotkeys
/// (`Alt+F4` is left alone); the timer restores the size or drains the
/// probes.
pub open spec fn message_spec(
    st: DDrawState,
    msg: u32,
    wparam: u64,
    lparam: i64,
    overlay_took_key: bool,
    win_rect: Rect,
    m: Modifiers,
) -> (DDrawState, MessagePlan) {
    let none = pass_on();
    if msg == WM_NULL {
        (st, MessagePlan { result: Some(0), ..none })
    } else if msg == WM_SIZE {
        (
            DDrawState { win_rect, render: RenderInfo { invalidate: true, ..st.render }, ..st },
            MessagePlan {
                fix_childs: st.compat.fixchilds > 0,
                recenter: st.window.center_window == 2,
                sync_overlay: true,
                ..none
            },
        )
    } else if msg == WM_MOVE {
        (DDrawState { win_rect, ..st }, MessagePlan { recenter: st.window.center_window == 2, sync_overlay: true, ..none })
    } else if msg == WM_DISPLAYCHANGE {
        (st, MessagePlan { recenter: st.window.center_window == 2, ..none })
    } else if msg == WM_ACTIVATEAPP {
        if st.compat.noactivateapp {
            (st, MessagePlan { result: Some(0), ..none })
        } else if wparam != 0 {
            (dirty(DDrawState { focus_gained: 1, ..st }), MessagePlan { reset_alt_key: st.compat.fix_alt_key_stuck, ..none })
        } else {
            (DDrawState { focus_gained: 0, ..st }, none)
        }
    } else if msg == WM_ACTIVATE {
        if st.compat.noactivateapp {
            (st, MessagePlan { result: Some(0), ..none })
        } else if (wparam & 0xffff) != 0 {
            (dirty(DDrawState { focus_gained: 1, ..st }), MessagePlan { apply_style: true, lock_mouse: true, ..none })
        } else {
            (
                DDrawState { focus_gained: 0, ..st },
                MessagePlan {
                    reset_alt_key: st.compat.fix_alt_key_stuck,
                    apply_style: true,
                    minimize: (st.dw_flags & DDSCL_FULLSCREEN) != 0,
                    unlock_mouse: true,
                    ..none
                },
            )
        }
    } else if msg == WM_LBUTTONDOWN || msg == WM_RBUTTONDOWN || msg == WM_MBUTTONDOWN {
        (st, MessagePlan { lock_mouse: true, ..none })
    } else if msg == WM_MOUSELEAVE {
        (st, MessagePlan { unlock_mouse: true, ..none })
    } else if msg == WM_CLOSE {
        if st.compat.terminate_process {
            (st, MessagePlan { exit: true, ..none })
        } else {
            (st, MessagePlan { unlock_mouse: true, ..none })
        }
    } else if msg == WM_PARENTNOTIFY {
        (st, MessagePlan { invalidate_rect: true, ..none })
    } else if msg == WM_SYSCOMMAND {
        (st, MessagePlan { exit: (wparam & 0xfff0) == SC_CLOSE && st.compat.terminate_process, ..none })
    } else if msg == WM_ERASEBKGND {
        (st, MessagePlan { result: Some(1), ..none })
    } else if msg == WM_PAINT {
        (if st.has_primary { dirty(st) } else { st }, MessagePlan { result: Some(0), validate_rect: true, ..none })
    } else if msg == WM_KEYDOWN || msg == WM_SYSKEYDOWN {
        let key = wparam as i32;
        let repeat = (lparam & 0x4000_0000) != 0;
        if overlay_took_key {
            (st, MessagePlan { result: Some(0), ..none })
        } else if msg == WM_SYSKEYDOWN && key == VK_F4 {
            (st, none)
        } else {
            (hotkey_state(st, key, repeat, m), MessagePlan { hotkey: Some(hotkey_plan(st, key, repeat, m)), ..none })
        }
    } else if msg == WM_TIMER {
        if wparam == TIMER_FIX_WINDOWPOS {
            (st, MessagePlan { restore_size: true, ..none })
        } else {
            (st, MessagePlan { drain_probes: st.compat.fix_not_responding, ..none })
        }
    } else {
        (st, none)
    }
}

fn pass_on_plan() -> (p: MessagePlan)
    ensures
        p == pass_on(),
{
    MessagePlan {
        result: None,
        reset_alt_key: false,
        lock_mouse: false,
        unlock_mouse: false,
        apply_style: false,
        minimize: false,
        recenter: false,
        fix_childs: false,
        sync_overlay: false,
        invalidate_rect: false,
        validate_rect: false,
        restore_size: false,
        drain_probes: false,
        exit: false,
        hotkey: None,
    }
}

/// Whether a message changes the state.
pub open spec fn changes_state(msg: u32) -> bool {
    msg == WM_SIZE || msg == WM_MOVE || msg == WM_ACTIVATEAPP || msg == WM_ACTIVATE || msg == WM_PAINT || msg
        == WM_KEYDOWN || msg == WM_SYSKEYDOWN
}

fn message_without_state(st: &DDrawState, msg: u32, wparam: u64) -> (p: MessagePlan)
    requires
        !changes_state(msg),
    ensures
        forall|lparam: i64, o: bool, r: Rect, m: Modifiers| #[trigger] message_spec(*st, msg, wparam, lparam, o, r, m) == (*st, p),
{
    let none = pass_on_plan();
    if msg == WM_NULL {
        MessagePlan { result: Some(0), ..none }
    } else if msg == WM_DISPLAYCHANGE {
        MessagePlan { recenter: st.window.center_window == 2, ..none }
    } else if msg == WM_LBUTTONDOWN || msg == WM_RBUTTONDOWN || msg == WM_MBUTTONDOWN {
        MessagePlan { lock_mouse: true, ..none }
    } else if msg == WM_MOUSELEAVE {
        MessagePlan { unlock_mouse: true, ..none }
    } else if msg == WM_CLOSE {
        if st.compat.terminate_process {
            MessagePlan { exit: true, ..none }
        } else {
            MessagePlan { unlock_mouse: true, ..none }
        }
    } else if msg == WM_PARENTNOTIFY {
        MessagePlan { invalidate_rect: true, ..none }
    } else if msg == WM_SYSCOMMAND {
        MessagePlan { exit: (wparam & 0xfff0) == SC_CLOSE && st.compat.terminate_process, ..none }
    } else if msg == WM_ERASEBKGND {
        MessagePlan { result: Some(1), ..none }
    } else if msg == WM_TIMER {
        if wparam == TIMER_FIX_WINDOWPOS {
            MessagePlan { restore_size: true, ..none }
        } else {
            MessagePlan { drain_probes: st.compat.fix_not_responding, ..none }
        }
    } else {
        none
    }
}

fn message_geometry(
    st: &mut DDrawState,
    msg: u32,
    wparam: u64,
    lparam: i64,
    overlay_took_key: bool,
    win_rect: Rect,
    m: Modifiers,
)
    -> (p: MessagePlan)
    requires
        msg == WM_SIZE || msg == WM_MOVE,
    ensures
        (*final(st), p) == message_spec(*old(st), msg, wparam, lparam, overlay_took_key, win_rect, m),
{
    let none = pass_on_plan();
    st.win_rect = win_rect;
    if msg == WM_SIZE {
        st.render.invalidate = true;
        MessagePlan {
            fix_childs: st.compat.fixchilds > 0,
            recenter: st.window.center_window == 2,
            sync_overlay: true,
            ..none
        }
    } else {
        MessagePlan { recenter: st.window.center_window == 2, sync_overlay: true, ..none }
    }
}

fn message_activation(
    st: &mut DDrawState,
    msg: u32,
    wparam: u64,
    lparam: i64,
    overlay_took_key: bool,
    win_rect: Rect,
    m: Modifiers,
)
    -> (p: MessagePlan)
    requires
        msg == WM_ACTIVATEAPP || msg == WM_ACTIVATE,
    ensures
        (*final(st), p) == message_spec(*old(st), msg, wparam, lparam, overlay_took_key, win_rect, m),
{
    let none = pass_on_plan();
    if st.compat.noactivateapp {
        return MessagePlan { result: Some(0), ..none };
    }
    let active = if msg == WM_ACTIVATEAPP { wparam != 0 } else { (wparam & 0xffff) != 0 };
    if active {
        st.focus_gained = 1;
        st.frame.present_dirty = true;
        if msg == WM_ACTIVATEAPP {
            MessagePlan { reset_alt_key: st.compat.fix_alt_key_stuck, ..none }
        } else {
            MessagePlan { apply_style: true, lock_mouse: true, ..none }
        }
    } else {
        st.focus_gained = 0;
        if msg == WM_ACTIVATEAPP {
            none
        } else {
            MessagePlan {
                reset_alt_key: st.compat.fix_alt_key_stuck,
                apply_style: true,
                minimize: (st.dw_flags & DDSCL_FULLSCREEN) != 0,
                unlock_mouse: true,
                ..none
            }
        }
    }
}

fn message_key(
    st: &mut DDrawState,
    msg: u32,
    wparam: u64,
    lparam: i64,
    overlay_took_key: bool,
    win_rect: Rect,
    m: Modifiers,
)
    -> (p: MessagePlan)
    requires
        msg == WM_KEYDOWN || msg == WM_SYSKEYDOWN,
    ensures
        (*final(st), p) == message_spec(*old(st), msg, wparam, lparam, overlay_took_key, win_rect, m),
{
    let none = pass_on_plan();
    let key = wparam as i32;
    let repeat = (lparam & 0x4000_0000) != 0;
    if overlay_took_key {
        MessagePlan { result: Some(0), ..none }
    } else if msg == WM_SYSKEYDOWN && key == VK_F4 {
        none
    } else {
        let h = handle_hotkeys(st, key, repeat, m);
        MessagePlan { hotkey: Some(h), ..none }
    }
}

/// The window procedure's decisions: updates the state for one message and
/// says what the caller does and returns (`message_spec`).
pub fn window_message(
    st: &mut DDrawState,
    msg: u32,
    wparam: u64,
    lparam: i64,
    overlay_took_key: bool,
    win_rect: Rect,
    m: Modifiers,
)
    -> (p: MessagePlan)
    ensures
        (*final(st), p) == message_spec(*old(st), msg, wparam, lparam, overlay_took_key, win_rect, m),
{
    if msg == WM_SIZE || msg == WM_MOVE {
        message_geometry(st, msg, wparam, lparam, overlay_took_key, win_rect, m)
    } else if msg == WM_ACTIVATEAPP || msg == WM_ACTIVATE {
        message_activation(st, msg, wparam, lparam, overlay_took_key, win_rect, m)
    } else if msg == WM_KEYDOWN || msg == WM_SYSKEYDOWN {
        message_key(st, msg, wparam, lparam, overlay_took_key, win_rect, m)
    } else if msg == WM_PAINT {
        if st.has_primary {
            st.frame.present_dirty = true;
        }
        let none = pass_on_plan();
        MessagePlan { result: Some(0), validate_rect: true, ..none }
    } else {
        let p = message_without_state(st, msg, wparam);
        assert(message_spec(*st, msg, wparam, lparam, overlay_took_key, win_rect, m) == (*st, p));
        p
    }
}

/// Switches between fullscreen and windowed: flips the fullscreen
/// cooperative flag when there is a window. True when it flipped; the caller
/// then releases the mouse and resizes.
pub fn toggle_fullscreen(st: &mut DDrawState) -> (flipped: bool)
    ensures
        flipped == old(st).hwnd_valid,
        flipped ==> *final(st) == (DDrawState { dw_flags: old(st).dw_flags ^ DDSCL_FULLSCREEN, ..*old(st) }),
        !flipped ==> *final(st) == *old(st),
{
    if !st.hwnd_valid {
        return false;
    }
    st.dw_flags = st.dw_flags ^ DDSCL_FULLSCREEN;
    true
}

/// Flipping fullscreen twice gives the flags back.
pub proof fn lemma_fullscreen_twice(flags: u32)
    ensures
        (flags ^ DDSCL_FULLSCREEN) ^ DDSCL_FULLSCREEN == flags,
{
    assert((flags ^ 1u32) ^ 1u32 == flags) by (bit_vector);
}

/// What the maximise toggle does.
#[derive(Clone, Copy, PartialEq, Eq, Debug)]
pub enum MaximizeStep {
    /// Nothing: no window, not resizable, or fullscreen.
    Unchanged,
    /// Restore the bordered window at the game size.
    Restore,
    /// Maximise without a border.
    Maximize,
}

/// Toggles the borderless-maximised window: a maximised (`zoomed`) window
/// gets its border back and is restored, any other is maximised without a
/// border. Only for a resizable, windowed game.
pub fn toggle_maximize(st: &mut DDrawState, zoomed: bool) -> (s: MaximizeStep)
    ensures
        !old(st).hwnd_valid || !old(st).window.resizable || old(st).dw_flags & DDSCL_FULLSCREEN != 0 ==> s
            == MaximizeStep::Unchanged && *final(st) == *old(st),
        old(st).hwnd_valid && old(st).window.resizable && old(st).dw_flags & DDSCL_FULLSCREEN == 0 ==> s == (if zoomed {
            MaximizeStep::Restore
        } else {
            MaximizeStep::Maximize
        }) && *final(st) == (DDrawState {
            window: crate::state::WindowConfig { border: zoomed, ..old(st).window },
            ..*old(st)
        }),
{
    if !st.hwnd_valid || !st.window.resizable || st.dw_flags & DDSCL_FULLSCREEN != 0 {
        return MaximizeStep::Unchanged;
    }
    st.window.border = zoomed;
    if zoomed {
        MaximizeStep::Restore
    } else {
        MaximizeStep::Maximize
    }
}

/// The render area: the stretch size (the screen with
/// `StretchToFullscreen`), at least the game size.
pub open spec fn render_size(st: DDrawState, gw: int, gh: int) -> (int, int) {
    let w0 = if st.scaling.stretch_to_fullscreen { st.screen_width as int } else { st.scaling.stretch_to_width as int };
    let h0 = if st.scaling.stretch_to_fullscreen { st.screen_height as int } else { st.scaling.stretch_to_height as int };
    (if w0 < gw { gw } else { w0 }, if h0 < gh { gh } else { h0 })
}

/// The render area for a game resolution: with `StretchToFullscreen` it is
/// the screen, whatever stretch size is configured; otherwise the
/// configured stretch size; in both cases never smaller than the game
/// (each game side taken as at least 1).
pub proof fn lemma_render_size(st: DDrawState, game_w: i32, game_h: i32)
    ensures
        ({
            let gw: int = if game_w < 1 { 1 } else { game_w as int };
            let gh: int = if game_h < 1 { 1 } else { game_h as int };
            let r = render_size(st, gw, gh);
            &&& r.0 >= gw && r.1 >= gh
            &&& st.scaling.stretch_to_fullscreen ==> r == (
                if st.screen_width >= gw { st.screen_width as int } else { gw },
                if st.screen_height >= gh { st.screen_height as int } else { gh },
            )
            &&& !st.scaling.stretch_to_fullscreen ==> r == (
                if st.scaling.stretch_to_width >= gw { st.scaling.stretch_to_width as int } else { gw },
                if st.scaling.stretch_to_height >= gh { st.scaling.stretch_to_height as int } else { gh },
            )
        }),
{
}

/// The largest factor from 20 down to 2 at which the game fits the render
/// area, or 1.
pub open spec fn box_factor(gw: int, gh: int, rw: int, rh: int, i: int) -> int
    decreases i,
{
    if i < 2 {
        1
    } else if gw * i <= rw && gh * i <= rh {
        i
    } else {
        box_factor(gw, gh, rw, rh, i - 1)
    }
}

proof fn lemma_box_factor_range(gw: int, gh: int, rw: int, rh: int, i: int)
    ensures
        1 <= box_factor(gw, gh, rw, rh, i),
        box_factor(gw, gh, rw, rh, i) <= if i < 1 { 1 } else { i },
        box_factor(gw, gh, rw, rh, i) == 1 || (gw * box_factor(gw, gh, rw, rh, i) <= rw && gh * box_factor(
            gw,
            gh,
            rw,
            rh,
            i,
        ) <= rh),
    decreases i,
{
    if i >= 2 && !(gw * i <= rw && gh * i <= rh) {
        lemma_box_factor_range(gw, gh, rw, rh, i - 1);
    }
}

/// `n / 2` rounded toward zero.
pub open spec fn half(n: int) -> int {
    if n >= 0 { n / 2 } else { -((-n) / 2) }
}

/// A viewport of `w` x `h` centred in the render area.
pub open spec fn centred(rw: int, rh: int, w: int, h: int) -> Viewport {
    let top = half(rh) - half(h);
    let left = half(rw) - half(w);
    Viewport { left: left as i32, top: top as i32, right: (left + w) as i32, bottom: (top + h) as i32 }
}

/// The render size for a game resolution (each side at least 1).
pub fn compute_render_size(st: &DDrawState, game_w: i32, game_h: i32) -> (r: (i32, i32))
    ensures
        (r.0 as int, r.1 as int) == render_size(
            *st,
            if game_w < 1 { 1 } else { game_w as int },
            if game_h < 1 { 1 } else { game_h as int },
        ),
{
    let gw = if game_w < 1 { 1 } else { game_w };
    let gh = if game_h < 1 { 1 } else { game_h };
    let mut rw = st.scaling.stretch_to_width;
    let mut rh = st.scaling.stretch_to_height;
    if st.scaling.stretch_to_fullscreen {
        rw = st.screen_width;
        rh = st.screen_height;
    }
    if rw < gw {
        rw = gw;
    }
    if rh < gh {
        rh = gh;
    }
    (rw, rh)
}

fn fits_at(gw: i32, gh: i32, rw: i32, rh: i32, i: i32) -> (r: bool)
    requires
        1 <= gw,
        1 <= gh,
        1 <= i <= 20,
    ensures
        r == (gw * i <= rw && gh * i <= rh),
{
    assert(gw * i <= i32::MAX * 20 && gh * i <= i32::MAX * 20) by (nonlinear_arith)
        requires
            1 <= gw <= i32::MAX,
            1 <= gh <= i32::MAX,
            1 <= i <= 20,
    ;
    (gw as i64) * (i as i64) <= rw as i64 && (gh as i64) * (i as i64) <= rh as i64
}

/// The windowboxed viewport: the game size times the largest whole factor
/// (20 down to 2) that fits the render area, centred.
pub fn windowbox_viewport(gw: i32, gh: i32, rw: i32, rh: i32) -> (v: Viewport)
    requires
        1 <= gw <= rw,
        1 <= gh <= rh,
    ensures
        v == centred(
            rw as int,
            rh as int,
            gw * box_factor(gw as int, gh as int, rw as int, rh as int, 20),
            gh * box_factor(gw as int, gh as int, rw as int, rh as int, 20),
        ),
{
    let mut i: i32 = 20;
    while i >= 2 && !fits_at(gw, gh, rw, rh, i)
        invariant
            1 <= gw,
            1 <= gh,
            1 <= i <= 20,
            box_factor(gw as int, gh as int, rw as int, rh as int, 20) == box_factor(
                gw as int,
                gh as int,
                rw as int,
                rh as int,
                i as int,
            ),
        decreases i,
    {
        i = i - 1;
    }
    let f: i32 = if i >= 2 { i } else { 1 };
    proof {
        lemma_box_factor_range(gw as int, gh as int, rw as int, rh as int, 20);
    }
    assert(f == box_factor(gw as int, gh as int, rw as int, rh as int, 20));
    assert(gw * f <= rw && gh * f <= rh) by (nonlinear_arith)
        requires
            f == 1 || (gw * f <= rw && gh * f <= rh),
            gw <= rw,
            gh <= rh,
    ;
    let vw = gw * f;
    let vh = gh * f;
    let top = rh / 2 - vh / 2;
    let left = rw / 2 - vw / 2;
    Viewport { left, top, right: left + vw, bottom: top + vh }
}

/// Records the render size and viewport for a game resolution: the picture
/// counts as stretched unless the viewport is the game size at the origin;
/// the renderer rebuilds its output.
pub fn set_viewport(st: &mut DDrawState, gw: i32, gh: i32, rw: i32, rh: i32, vp: Viewport)
    ensures
        *final(st) == (DDrawState {
            render: RenderInfo {
                invalidate: true,
                stretched: vp.right - vp.left != gw || vp.bottom - vp.top != gh || vp.left != 0 || vp.top != 0,
                width: rw,
                height: rh,
                viewport: vp,
            },
            ..*old(st)
        }),
{
    let stretched = (vp.right as i64 - vp.left as i64) != gw as i64 || (vp.bottom as i64 - vp.top as i64) != gh as i64
        || vp.left != 0 || vp.top != 0;
    st.render = RenderInfo { invalidate: true, stretched, width: rw, height: rh, viewport: vp };
}

} // verus!
