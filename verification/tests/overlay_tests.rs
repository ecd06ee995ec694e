use rs_ddraw::overlay::{close_menu, item_rows, run_action, show_step, value_right, visible_rows, MenuAction, ShowStep};
use rs_ddraw::overlay::{
    adjust, apply_setting, bool_toggle, choice_adj, int_adj, int_switch, on_key, persist_key, persist_setting,
    persist_value, pick, read, write_item, Choices, Effect, KeyAction, Menu, Mode, VK_DOWN, VK_ESCAPE, VK_LEFT, VK_RETURN,
    VK_RIGHT, VK_UP,
};
use rs_ddraw::state::{DDrawState, RENDERER_D3D9, RENDERER_GDI};
use rs_ddraw::text::{decimal_text, trim_str};

#[test]
fn page_navigation_wraps() {
    let mut m = Menu::opened();
    assert_eq!(on_key(&mut m, VK_UP, 0x7A, false, false), KeyAction::Redraw);
    assert_eq!(m.page, 5);
    assert_eq!(on_key(&mut m, VK_DOWN, 0x7A, false, false), KeyAction::Redraw);
    assert_eq!(m.page, 0);
    assert_eq!(on_key(&mut m, 0x99, 0x7A, false, false), KeyAction::Ignored);
}

#[test]
fn items_adjust_and_run() {
    let mut m = Menu::opened();
    on_key(&mut m, VK_DOWN, 0, false, false);
    assert_eq!(on_key(&mut m, VK_RETURN, 0, false, false), KeyAction::Redraw);
    assert_eq!(m.mode, Mode::Items);
    assert_eq!(m.item, 0);
    assert_eq!(on_key(&mut m, VK_RIGHT, 0, false, false), KeyAction::Adjust(1, 0, 1));
    assert_eq!(on_key(&mut m, VK_LEFT, 0, false, false), KeyAction::Adjust(1, 0, -1));
    for _ in 0..3 {
        on_key(&mut m, VK_DOWN, 0, false, false);
    }
    assert_eq!(m.item, 3);
    assert_eq!(on_key(&mut m, VK_RETURN, 0, false, false), KeyAction::Run(1, 3));
    assert_eq!(on_key(&mut m, VK_UP, 0, true, false), KeyAction::Redraw);
    assert_eq!((m.page, m.mode), (0, Mode::Pages));
}

#[test]
fn escape_and_hotkey_close() {
    let mut m = Menu::opened();
    on_key(&mut m, VK_DOWN, 0, false, false);
    assert_eq!(on_key(&mut m, VK_ESCAPE, 0, false, false), KeyAction::Close);
    assert!(!m.open);
    assert_eq!(m.page, 0);
    let mut m2 = Menu::opened();
    assert_eq!(on_key(&mut m2, 0x7A, 0x7A, true, false), KeyAction::Ignored);
    assert_eq!(on_key(&mut m2, 0x7A, 0x7A, true, true), KeyAction::Close);
    let mut closed = m2;
    assert_eq!(on_key(&mut closed, VK_DOWN, 0, false, false), KeyAction::Ignored);
}

#[test]
fn value_adjusters() {
    let mut b = false;
    assert!(bool_toggle(&mut b));
    assert!(b);
    let mut v = 5;
    assert!(int_switch(&mut v));
    assert_eq!(v, 0);
    let mut n = 998;
    assert!(int_adj(&mut n, 0, 1000, 5, 1));
    assert_eq!(n, 1000);
    assert!(!int_adj(&mut n, 0, 1000, 5, 1));
    let mut c = 4;
    assert!(choice_adj(&mut c, 0, 4, 1));
    assert_eq!(c, 0);
    assert!(choice_adj(&mut c, 0, 4, -1));
    assert_eq!(c, 4);
    let mut out = 9;
    assert!(!choice_adj(&mut out, 0, 0, 1));
    assert_eq!(out, 9);
}

#[test]
fn write_and_read_items() {
    let mut st = DDrawState::new();
    assert!(write_item(&mut st, 1, 1, 1));
    assert!(st.window.border);
    assert_eq!(read(&st, 1, 1), "开启");
    assert!(write_item(&mut st, 0, 0, 1));
    assert!(!st.gfx.auto_renderer);
    assert_eq!(st.gfx.renderer, RENDERER_D3D9);
    assert_eq!(read(&st, 0, 0), "D3D9");
    assert!(write_item(&mut st, 0, 0, -1));
    assert!(write_item(&mut st, 0, 0, -1));
    assert_eq!(st.gfx.renderer, RENDERER_GDI);
    assert_eq!(read(&st, 0, 5), "0");
    assert!(write_item(&mut st, 0, 2, 1));
    assert_eq!(st.shaders.shader, "lanczos");
    assert!(write_item(&mut st, 4, 10, 1));
    assert_eq!(st.window.fake_version, (5, 1));
    assert_eq!(read(&st, 4, 10), "Windows XP");
    assert!(!write_item(&mut st, 1, 3, 1));
    assert_eq!(read(&st, 1, 7), "-32000");
    assert_eq!(read(&st, 9, 9), "");
}

#[test]
fn maxfps_becomes_target() {
    let mut st = DDrawState::new();
    assert!(adjust(&mut st, 0, 4, 1));
    assert_eq!(st.limiter.maxfps, 5);
    assert_eq!(st.gfx.target_fps, 5);
    assert!(adjust(&mut st, 0, 4, -1));
    assert_eq!(st.limiter.maxfps, 0);
    assert_eq!(st.gfx.target_fps, 5);
}

#[test]
fn persisted_values() {
    let mut st = DDrawState::new();
    assert_eq!(persist_value(&st, 1, 1), "0");
    assert_eq!(persist_value(&st, 0, 0), "auto");
    assert_eq!(persist_value(&st, 0, 1), "nearest");
    assert_eq!(persist_value(&st, 0, 7), "auto");
    assert_eq!(persist_value(&st, 4, 10), "");
    assert_eq!(persist_value(&st, 0, 4), "0");
    assert_eq!(persist_key(1, 1), Some("Border"));
    assert_eq!(persist_key(1, 3), None);
    assert_eq!(persist_setting(&st, 1, 7), Some(("posx", "-32000".to_string())));
    st.compat.savesettings = 0;
    assert_eq!(persist_setting(&st, 1, 7), None);
}

#[test]
fn follow_up_effects() {
    let mut st = DDrawState::new();
    assert_eq!(apply_setting(&mut st, 0, 1), Effect::Nothing);
    assert!(st.render.invalidate);
    assert_eq!(apply_setting(&mut st, 1, 1), Effect::WindowStyle);
    assert_eq!(apply_setting(&mut st, 1, 5), Effect::WindowStyle);
    st.modes.res_width = 800;
    st.modes.res_height = 600;
    assert_eq!(apply_setting(&mut st, 1, 6), Effect::WindowSize(800, 600));
    assert_eq!(apply_setting(&mut st, 3, 0), Effect::MouseScale);
    match apply_setting(&mut st, 0, 6) {
        Effect::Limiter(l) => assert_eq!(l.tick_hz, 60),
        other => panic!("unexpected {:?}", other),
    }
}

#[test]
fn labels_and_numbers() {
    assert_eq!(pick(Choices::Center, 7), "总是居中");
    assert_eq!(pick(Choices::Filter, -1), "最近邻");
    assert_eq!(decimal_text(-42), "-42");
    assert_eq!(decimal_text(0), "0");
    assert_eq!(decimal_text(i32::MIN), "-2147483648");
    assert_eq!(decimal_text(1000), "1000");
}

#[test]
fn panel_layout_and_actions() {
    assert_eq!(visible_rows(200), 3);
    assert_eq!(visible_rows(10), 1);
    assert_eq!(value_right(800), 784);
    assert_eq!(value_right(100), 250);
    let mut m = Menu::opened();
    on_key(&mut m, VK_DOWN, 0, false, false);
    on_key(&mut m, VK_RETURN, 0, false, false);
    on_key(&mut m, VK_DOWN, 0, false, false);
    let rows = item_rows(&m, 200);
    assert_eq!(rows.len(), 3);
    assert_eq!((rows[1].index, rows[1].y, rows[1].selected), (1, 82, true));
    assert!(!rows[0].selected);
    assert_eq!(run_action(3, 1, true), MenuAction::UnlockCursor);
    assert_eq!(run_action(3, 1, false), MenuAction::LockCursor);
    assert_eq!(run_action(5, 4, false), MenuAction::Screenshot);
    assert_eq!(run_action(0, 0, false), MenuAction::Nothing);
    close_menu(&mut m);
    assert!(!m.open && m.page == 0 && m.mode == Mode::Pages);
}

#[test]
fn trimming_matches_str_trim() {
    for s in ["", "   ", " a b ", "\t\nx\r\n", "\u{3000}wide\u{2003}", "\u{85}x\u{a0}", "plain"] {
        assert_eq!(trim_str(s), s.trim());
    }
}

#[test]
fn overlay_shows_once_over_a_game() {
    let mut m = Menu::opened();
    assert_eq!(show_step(&m, false), ShowStep::NoGame);
    assert_eq!(show_step(&m, true), ShowStep::AlreadyOpen);
    close_menu(&mut m);
    assert_eq!(show_step(&m, true), ShowStep::Create);
}
