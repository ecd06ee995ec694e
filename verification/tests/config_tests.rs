use rs_ddraw::config::{
    get_bool, get_fixed_output, get_int, get_renderer, get_string, log_file_name, parse_filter, parse_limiter_type,
    parse_version, read_override, read_section, IniEntry, IniSection,
};
use rs_ddraw::state::{DDrawState, DMDFO_CENTER, DMDFO_DEFAULT, DMDFO_STRETCH, RENDERER_D3D9, RENDERER_GDI, RENDERER_OPENGL, RENDERER_OPENGL_CORE};

fn text(key: &str, value: &str) -> IniEntry {
    IniEntry { key: key.to_string(), text: Some(value.to_string()), number: None }
}

fn num(key: &str, n: i32) -> IniEntry {
    IniEntry { key: key.to_string(), text: Some(n.to_string()), number: Some(n) }
}

#[test]
fn switches_read_yes_true_one() {
    let ini = IniSection {
        entries: vec![text("a", " Yes "), text("b", "TRUE"), text("c", "1"), text("d", "no"), text("e", "on")],
    };
    assert!(get_bool(&ini, "a", false));
    assert!(get_bool(&ini, "b", false));
    assert!(get_bool(&ini, "c", false));
    assert!(!get_bool(&ini, "d", true));
    assert!(!get_bool(&ini, "e", true));
    assert!(get_bool(&ini, "missing", true));
    assert!(!get_bool(&ini, "missing", false));
}

#[test]
fn ints_and_strings_fall_back() {
    let ini = IniSection { entries: vec![num("maxfps", 144), text("Log", "  game.log ")] };
    assert_eq!(get_int(&ini, "maxfps", 0), 144);
    assert_eq!(get_int(&ini, "minfps", 7), 7);
    assert_eq!(get_string(&ini, "shader", "x"), "x");
    assert_eq!(log_file_name(&ini), "game.log");
    let empty = IniSection { entries: vec![text("Log", "   ")] };
    assert_eq!(log_file_name(&empty), "rs-ddraw.log");
    assert_eq!(log_file_name(&IniSection { entries: vec![] }), "rs-ddraw.log");
}

#[test]
fn filters_by_number_and_name() {
    assert_eq!(parse_filter(" Lanczos "), 3);
    assert_eq!(parse_filter("catmull-rom"), 2);
    assert_eq!(parse_filter("7"), 4);
    assert_eq!(parse_filter("-3"), 0);
    assert_eq!(parse_filter("xbr"), 4);
    assert_eq!(parse_filter("foo"), 0);
}

#[test]
fn versions_read_two_numbers() {
    assert_eq!(parse_version("6.1"), (6, 1));
    assert_eq!(parse_version(" 10.0.19041 "), (10, 0));
    assert_eq!(parse_version("6"), (0, 0));
    assert_eq!(parse_version("a.b"), (0, 0));
    assert_eq!(parse_version(""), (0, 0));
}

#[test]
fn limiter_types() {
    assert_eq!(parse_limiter_type("BltFast", 0), 2);
    assert_eq!(parse_limiter_type(" 3 ", 0), 3);
    assert_eq!(parse_limiter_type("auto", 4), 0);
    assert_eq!(parse_limiter_type("", 5), 5);
    assert_eq!(parse_limiter_type("nope", 1), 1);
    assert_eq!(parse_limiter_type("0", 3), 0);
    assert_eq!(parse_limiter_type(" AUTO ", 2), 0);
    assert_eq!(parse_limiter_type("4", 0), 4);
}

#[test]
fn renderers_and_outputs() {
    let ini = IniSection {
        entries: vec![text("r1", "OpenGL"), text("r2", "opengl3"), text("r3", "auto"), text("r4", "vulkan"), text("f", "Center")],
    };
    assert_eq!(get_renderer(&ini, "r1", "auto"), (RENDERER_OPENGL, false));
    assert_eq!(get_renderer(&ini, "r2", "auto"), (RENDERER_OPENGL_CORE, false));
    assert_eq!(get_renderer(&ini, "r3", "auto"), (RENDERER_D3D9, true));
    assert_eq!(get_renderer(&ini, "r3", "opengl"), (RENDERER_OPENGL, true));
    assert_eq!(get_renderer(&ini, "r4", "auto"), (RENDERER_D3D9, false));
    assert_eq!(get_fixed_output(&ini, "f", "stretch"), DMDFO_CENTER);
    assert_eq!(get_fixed_output(&ini, "none", "stretch"), DMDFO_STRETCH);
    assert_eq!(get_fixed_output(&ini, "r1", "stretch"), DMDFO_DEFAULT);
}

#[test]
fn section_sets_the_state() {
    let ini = IniSection {
        entries: vec![
            text("Border", "yes"),
            num("center_window", 5),
            num("maxfps", 144),
            num("TargetFPS", 30),
            text("Filter", "bilinear"),
            num("fixchilds", 9),
            num("width", -5),
            text("inject_resolution", " 800x600 "),
            text("WinVersion", "5.1"),
            num("FakeWidth", 800),
            num("FakeHeight", 600),
        ],
    };
    let mut st = DDrawState::new();
    read_section(&mut st, &ini);
    assert!(st.window.border);
    assert_eq!(st.window.center_window, 2);
    assert_eq!(st.limiter.maxfps, 144);
    assert_eq!(st.gfx.target_fps, 144);
    assert_eq!(st.gfx.filter, 1);
    assert_eq!(st.compat.fixchilds, 4);
    assert_eq!(st.modes.res_width, 0);
    assert_eq!(st.modes.inject_resolution, "800x600");
    assert_eq!(st.window.fake_version, (5, 1));
    assert_eq!(st.window.fake_size, (800, 600));
    assert!(st.gfx.single_proc_affinity);
    assert_eq!(st.gfx.renderer, RENDERER_D3D9);
    assert!(st.gfx.auto_renderer);
    assert!(st.gamma_ramp.is_none());
}

#[test]
fn override_file_wins() {
    let main = IniSection { entries: vec![text("Border", "yes"), num("posx", 10), num("TargetFPS", 30)] };
    let over = IniSection { entries: vec![text("Border", "no")] };
    let mut st = DDrawState::new();
    read_section(&mut st, &main);
    assert!(st.window.border);
    assert_eq!(st.gfx.target_fps, 30);
    read_override(&mut st, &over);
    assert!(!st.window.border);
    assert_eq!(st.compat.pos_x, 10);
    assert_eq!(st.gfx.target_fps, 30);
}

#[test]
fn override_keeps_what_it_lacks() {
    let main = IniSection {
        entries: vec![
            text("Renderer", "gdi"),
            text("Border", "No"),
            text("VSync", "yes"),
            text("Filter", "bilinear"),
            text("WinVersion", "5.1"),
            text("shader", "x.glsl"),
        ],
    };
    let over = IniSection { entries: vec![text("Border", "Yes")] };
    let mut st = DDrawState::new();
    read_section(&mut st, &main);
    assert_eq!(st.gfx.renderer, RENDERER_GDI);
    read_override(&mut st, &over);
    assert!(st.window.border);
    assert_eq!(st.gfx.renderer, RENDERER_GDI);
    assert!(!st.gfx.auto_renderer);
    assert_eq!(st.gfx.swap_interval, 1);
    assert_eq!(st.gfx.filter, 1);
    assert_eq!(st.window.fake_version, (5, 1));
    assert_eq!(st.shaders.shader, "x.glsl");
    let over = IniSection { entries: vec![text("Renderer", "opengl")] };
    read_override(&mut st, &over);
    assert_eq!(st.gfx.renderer, RENDERER_OPENGL);
}
