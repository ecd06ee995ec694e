use rs_ddraw::ddraw::DDSCL_FULLSCREEN;
use rs_ddraw::state::{DDrawState, Viewport, RENDERER_D3D9, RENDERER_GDI, RENDERER_OPENGL};
use rs_ddraw::window::{
    compute_render_size, handle_hotkeys, set_viewport, toggle_fullscreen, toggle_maximize, windowbox_viewport,
    MaximizeStep, Modifiers, VK_END, VK_NEXT, VK_PRIOR, VK_R,
};
use rs_ddraw::blit::Rect;
use rs_ddraw::window::{
    window_message, WM_ACTIVATE, WM_ACTIVATEAPP, WM_CLOSE, WM_ERASEBKGND, WM_KEYDOWN, WM_NULL, WM_PAINT, WM_SIZE,
    WM_SYSKEYDOWN, WM_TIMER, VK_F4,
};

fn mods(ctrl: bool, alt: bool) -> Modifiers {
    Modifiers { ctrl, alt, rmenu: false, rctrl: false }
}

#[test]
fn hotkeys() {
    let mut st = DDrawState::new();
    let p = handle_hotkeys(&mut st, 0x7A, false, mods(true, true));
    assert!(p.toggle_overlay);
    let p = handle_hotkeys(&mut st, 0x7B, false, mods(false, false));
    assert!(p.screenshot);
    assert!(!handle_hotkeys(&mut st, 0x7B, true, mods(false, false)).screenshot);
    assert!(handle_hotkeys(&mut st, 0x0D, false, mods(false, true)).toggle_fullscreen);
    assert!(!handle_hotkeys(&mut st, 0x0D, false, mods(false, false)).toggle_fullscreen);
    assert_eq!(handle_hotkeys(&mut st, 0x22, false, mods(false, true)).toggle_maximize, Some(true));
    assert!(handle_hotkeys(&mut st, 0x09, false, mods(true, false)).toggle_mouse_lock);
}

#[test]
fn debug_keys() {
    let mut st = DDrawState::new();
    handle_hotkeys(&mut st, VK_PRIOR, false, mods(true, false));
    assert_eq!(st.gfx.target_fps, 65);
    st.gfx.target_fps = 3;
    handle_hotkeys(&mut st, VK_NEXT, false, mods(true, false));
    assert_eq!(st.gfx.target_fps, 1);
    st.gfx.renderer = RENDERER_GDI;
    handle_hotkeys(&mut st, VK_END, false, mods(true, false));
    assert_eq!(st.gfx.renderer, RENDERER_OPENGL);
    handle_hotkeys(&mut st, VK_END, false, mods(true, false));
    assert_eq!(st.gfx.renderer, RENDERER_D3D9);
    assert!(st.render.invalidate);
    let r = Modifiers { ctrl: false, alt: false, rmenu: false, rctrl: true };
    handle_hotkeys(&mut st, VK_R, false, r);
    assert!(st.scaling.draw_fps);
}

#[test]
fn fullscreen_and_maximize() {
    let mut st = DDrawState::new();
    assert!(!toggle_fullscreen(&mut st));
    st.hwnd_valid = true;
    assert!(toggle_fullscreen(&mut st));
    assert_eq!(st.dw_flags & DDSCL_FULLSCREEN, DDSCL_FULLSCREEN);
    assert!(toggle_fullscreen(&mut st));
    assert_eq!(st.dw_flags, 0);
    assert_eq!(toggle_maximize(&mut st, false), MaximizeStep::Unchanged);
    st.window.resizable = true;
    assert_eq!(toggle_maximize(&mut st, false), MaximizeStep::Maximize);
    assert!(!st.window.border);
    assert_eq!(toggle_maximize(&mut st, true), MaximizeStep::Restore);
    assert!(st.window.border);
}

#[test]
fn viewports() {
    let mut st = DDrawState::new();
    st.scaling.stretch_to_width = 1280;
    st.scaling.stretch_to_height = 960;
    assert_eq!(compute_render_size(&st, 320, 240), (1280, 960));
    assert_eq!(compute_render_size(&st, 2000, 0), (2000, 960));
    let v = windowbox_viewport(320, 240, 1280, 1000);
    assert_eq!(v, Viewport { left: 0, top: 20, right: 1280, bottom: 980 });
    let v1 = windowbox_viewport(320, 240, 500, 300);
    assert_eq!(v1, Viewport { left: 90, top: 30, right: 410, bottom: 270 });
    set_viewport(&mut st, 320, 240, 1280, 1000, v);
    assert!(st.render.stretched && st.render.invalidate);
    set_viewport(&mut st, 320, 240, 320, 240, Viewport { left: 0, top: 0, right: 320, bottom: 240 });
    assert!(!st.render.stretched);
}

#[test]
fn window_messages() {
    let mut st = DDrawState::new();
    let r = Rect { left: 10, top: 20, right: 650, bottom: 500 };
    let none = mods(false, false);
    assert_eq!(window_message(&mut st, WM_NULL, 0, 0, false, r, none).result, Some(0));
    assert_eq!(window_message(&mut st, WM_ERASEBKGND, 0, 0, false, r, none).result, Some(1));

    let p = window_message(&mut st, WM_SIZE, 0, 0, false, r, none);
    assert_eq!(st.win_rect, r);
    assert!(st.render.invalidate && p.sync_overlay && p.fix_childs && p.result.is_none());

    // Activation repaints and confines the cursor.
    let p = window_message(&mut st, WM_ACTIVATE, 1, 0, false, r, none);
    assert_eq!(st.focus_gained, 1);
    assert!(st.frame.present_dirty && p.lock_mouse && p.apply_style && !p.minimize);
    st.frame.present_dirty = false;
    // Deactivation of a fullscreen window minimises it and frees the cursor.
    st.dw_flags = DDSCL_FULLSCREEN;
    st.compat.fix_alt_key_stuck = true;
    let p = window_message(&mut st, WM_ACTIVATE, 0, 0, false, r, none);
    assert_eq!(st.focus_gained, 0);
    assert!(p.minimize && p.unlock_mouse && p.reset_alt_key && !st.frame.present_dirty);
    let p = window_message(&mut st, WM_ACTIVATEAPP, 1, 0, false, r, none);
    assert!(st.frame.present_dirty && p.reset_alt_key);
    st.compat.noactivateapp = true;
    st.frame.present_dirty = false;
    assert_eq!(window_message(&mut st, WM_ACTIVATE, 1, 0, false, r, none).result, Some(0));
    assert!(!st.frame.present_dirty);

    // Painting repaints only with a primary.
    let p = window_message(&mut st, WM_PAINT, 0, 0, false, r, none);
    assert!(p.validate_rect && p.result == Some(0) && !st.frame.present_dirty);
    st.has_primary = true;
    window_message(&mut st, WM_PAINT, 0, 0, false, r, none);
    assert!(st.frame.present_dirty);

    // Keys: the overlay first, Alt+F4 left alone, then the hotkeys.
    assert_eq!(window_message(&mut st, WM_KEYDOWN, 0x7B, 0, true, r, none).result, Some(0));
    assert_eq!(window_message(&mut st, WM_SYSKEYDOWN, VK_F4 as u64, 0, false, r, none).hotkey, None);
    assert!(window_message(&mut st, WM_KEYDOWN, 0x7B, 0, false, r, none).hotkey.unwrap().screenshot);
    assert!(!window_message(&mut st, WM_KEYDOWN, 0x7B, 0x4000_0000, false, r, none).hotkey.unwrap().screenshot);

    assert!(!window_message(&mut st, WM_CLOSE, 0, 0, false, r, none).exit);
    st.compat.terminate_process = true;
    assert!(window_message(&mut st, WM_CLOSE, 0, 0, false, r, none).exit);
    assert!(window_message(&mut st, WM_TIMER, 78, 0, false, r, none).restore_size);
}
