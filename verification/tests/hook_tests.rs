use rs_ddraw::hook::{begin_install, child_layout, hook_count, hook_entry, ChildLayout, WS_CHILD, WS_EX_TRANSPARENT};
use rs_ddraw::blit::Rect;
use rs_ddraw::hook::{
    adjust_font, client_rect, device_caps, display_settings, fake_disk_free_bytes, fake_disk_free_space,
    fake_resolution, fake_version_dword, forward_set_cursor_pos, ignore_set_window_long, suppress_message_box,
    system_metric, version_report, window_rect, BITSPIXEL, ENUM_CURRENT_SETTINGS, GWL_STYLE, HORZRES, NUMCOLORS,
};
use rs_ddraw::state::DDrawState;

#[test]
fn fake_versions() {
    let mut st = DDrawState::new();
    assert_eq!(fake_version_dword(&st), None);
    assert!(version_report(&st).is_none());
    st.window.fake_version = (5, 1);
    assert_eq!(fake_version_dword(&st), Some(0x0105));
    let v = fake_version_dword(&st).unwrap();
    assert_eq!((v & 0xFF, (v >> 8) & 0xFF, v & 0x8000_0000), (5, 1, 0));
    let r = version_report(&st).unwrap();
    assert_eq!((r.major, r.minor, r.build, r.platform), (5, 1, 0, 2));
}

#[test]
fn fake_sizes() {
    let mut st = DDrawState::new();
    assert_eq!(fake_resolution(&st), (0, 0));
    assert_eq!(system_metric(&st, 0), None);
    st.window.fake_size = (800, -5);
    assert_eq!(fake_resolution(&st), (800, 0));
    assert_eq!(system_metric(&st, 78), Some(800));
    assert_eq!(system_metric(&st, 1), Some(-5));
    st.modes.res_width = 1024;
    st.modes.res_height = 768;
    assert_eq!(fake_resolution(&st), (1024, 768));
    assert_eq!(display_settings(&st, true, ENUM_CURRENT_SETTINGS), Some((1024, 768, 60)));
    assert_eq!(display_settings(&st, true, 0), None);
    let w = window_rect(&st, true, Rect { left: 10, top: 20, right: 99, bottom: 99 }).unwrap();
    assert_eq!(w, Rect { left: 10, top: 20, right: 810, bottom: 15 });
    assert_eq!(client_rect(&st, false), None);
    assert_eq!(client_rect(&st, true), Some(Rect { left: 0, top: 0, right: 800, bottom: -5 }));
}

#[test]
fn device_capabilities() {
    let mut st = DDrawState::new();
    st.bpp = 8;
    st.modes.res_width = 320;
    st.modes.res_height = 200;
    assert_eq!(device_caps(&st, true, BITSPIXEL), Some(8));
    assert_eq!(device_caps(&st, true, HORZRES), Some(320));
    assert_eq!(device_caps(&st, true, NUMCOLORS), Some(256));
    assert_eq!(device_caps(&st, false, BITSPIXEL), None);
    st.bpp = 16;
    assert_eq!(device_caps(&st, true, NUMCOLORS), None);
}

#[test]
fn fonts() {
    let mut st = DDrawState::new();
    st.compat.min_font_size = 12;
    assert_eq!(adjust_font(&st, -8), (-12, true));
    assert_eq!(adjust_font(&st, 20), (20, false));
    assert_eq!(adjust_font(&st, 5), (12, true));
    st.compat.anti_aliased_fonts_min_size = 0;
    assert_eq!(adjust_font(&st, 5), (12, false));
}

#[test]
fn forwarding_rules() {
    let mut st = DDrawState::new();
    assert!(!forward_set_cursor_pos(&st));
    st.mouse_is_locked = 1;
    assert!(forward_set_cursor_pos(&st));
    assert!(ignore_set_window_long(true, GWL_STYLE));
    assert!(!ignore_set_window_long(false, GWL_STYLE));
    assert!(suppress_message_box(&st));
    st.compat.devmode = true;
    assert!(!suppress_message_box(&st));
    assert_eq!(fake_disk_free_space(), (0x40, 0x200, 0xFFF6, 0xFFF6));
    assert_eq!(fake_disk_free_bytes(), u64::MAX >> 4);
}

#[test]
fn hook_table() {
    assert_eq!(hook_count(false), 75);
    assert_eq!(hook_count(true), 71);
    assert_eq!(hook_entry(0), ("user32.dll", "SetWindowPos"));
    assert_eq!(hook_entry(2), ("user32.dll", "GetCursorPos"));
    assert_eq!(hook_entry(74), ("dinput8.dll", "DirectInput8Create"));
    assert_eq!(hook_entry(71).0, "dinput.dll");
}

#[test]
fn child_windows_cover_the_game() {
    let mut st = DDrawState::new();
    st.hwnd_valid = true;
    st.width = 640;
    st.height = 480;
    assert_eq!(st.compat.fixchilds, 2);
    assert_eq!(
        child_layout(&st, true, true, WS_CHILD, 0),
        Some(ChildLayout { ex_style: None, width: 640, height: 480 })
    );
    assert_eq!(child_layout(&st, true, true, 0, 0), None);
    assert_eq!(child_layout(&st, true, false, WS_CHILD, 0), None);
    st.compat.fixchilds = 3;
    assert_eq!(
        child_layout(&st, true, true, WS_CHILD, 0x100),
        Some(ChildLayout { ex_style: Some(0x100 | WS_EX_TRANSPARENT), width: 640, height: 480 })
    );
    assert_eq!(child_layout(&st, true, true, WS_CHILD, WS_EX_TRANSPARENT).unwrap().ex_style, None);
    st.compat.fixchilds = 0;
    assert_eq!(child_layout(&st, true, true, WS_CHILD, 0), None);
    st.compat.fixchilds = 2;
    st.width = 0;
    assert_eq!(child_layout(&st, true, true, WS_CHILD, 0), None);
}

#[test]
fn hooks_install_once() {
    let mut installed = false;
    assert!(begin_install(&mut installed));
    assert!(!begin_install(&mut installed));
    assert!(installed);
}
