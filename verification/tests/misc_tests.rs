use rs_ddraw::blit::Rect;
use rs_ddraw::debug::{log_file_path, log_needs_rotation, renderer_name, rotated_log_name};
use rs_ddraw::config::{IniEntry, IniSection};
use rs_ddraw::fps_limiter::{configured_limiter_type, init, limiter_applies, maxgameticks, minfps, LIMIT_BLTFAST, LIMIT_UNLOCK};
use rs_ddraw::gamma::{get_gamma_ramp, get_ramp_identity_filled, identity_ramp, set_gamma_ramp, set_ramp};
use rs_ddraw::mouse::{hook_get_cursor_pos, is_locked, lock_cursor, unlock_cursor, update_scale, window_active, Release};
use rs_ddraw::render;
use rs_ddraw::ddraw::DDrawError;
use rs_ddraw::render::{backend_order, chosen_backend, frame_upload, gl_viewport};
use rs_ddraw::state::{RENDERER_D3D9, RENDERER_GDI, RENDERER_OPENGL};
use rs_ddraw::state::{DDrawState, Viewport};

#[test]
fn limiter_configuration() {
    let l = init(-2, 9, 30, 0);
    assert_eq!(configured_limiter_type(&l), 4);
    assert_eq!(maxgameticks(&l), -2);
    assert_eq!(minfps(&l), 30);
    assert_eq!(l.tick_hz, 60);
    assert_eq!(init(-2, 0, 0, 75).tick_hz, 75);
    assert_eq!(init(25, 0, 0, 75).tick_hz, 25);
    let auto = init(0, 0, 0, 0);
    assert!(limiter_applies(&auto, LIMIT_BLTFAST));
    assert!(!limiter_applies(&auto, LIMIT_UNLOCK));
    assert!(!limiter_applies(&init(-1, 0, 0, 0), LIMIT_BLTFAST));
    assert!(limiter_applies(&init(0, 3, 0, 0), LIMIT_UNLOCK));
}

#[test]
fn gamma_ramps() {
    let id = identity_ramp();
    assert_eq!(id[0], 0);
    assert_eq!(id[3 * 255 + 2], 0xFFFF);
    assert_eq!(id[3 * 16 + 1], 0x1010);
    let mut st = DDrawState::new();
    assert_eq!(get_ramp_identity_filled(&st), id);
    let mut r = [7u16; 768];
    r[5] = 9;
    set_ramp(&mut st, &r);
    assert_eq!(get_ramp_identity_filled(&st), r);
}

#[test]
fn mouse_scaling_and_locking() {
    let mut st = DDrawState::new();
    st.render.viewport = Viewport { left: 0, top: 0, right: 1280, bottom: 960 };
    assert_eq!(update_scale(&st), (1280, 640, 960, 480));
    st.input.adjmouse = false;
    assert_eq!(update_scale(&st), (1, 1, 1, 1));
    st.input.adjmouse = true;
    let client = Rect { left: 0, top: 0, right: 640, bottom: 480 };
    // A window at (100, 50) with an 8-pixel border and a 30-pixel caption.
    let origin = (108, 80);
    assert!(!window_active(&st));
    assert_eq!(lock_cursor(&mut st, false, client, origin), None);
    st.hwnd_valid = true;
    assert_eq!(lock_cursor(&mut st, true, client, origin), None);
    assert_eq!(lock_cursor(&mut st, false, client, origin), Some(Rect { left: 108, top: 80, right: 748, bottom: 560 }));
    assert!(is_locked(&st));
    assert_eq!(lock_cursor(&mut st, false, client, origin), None);
    st.input.center_cursor_fix = true;
    assert_eq!(unlock_cursor(&mut st, client, origin), Release::Free(Some((428, 320))));
    assert!(!is_locked(&st));
    assert_eq!(unlock_cursor(&mut st, client, origin), Release::Unchanged);
    st.input.lock_mouse_top_left = true;
    assert_eq!(lock_cursor(&mut st, false, client, origin), Some(Rect { left: 108, top: 80, right: 116, bottom: 88 }));
    assert_eq!(hook_get_cursor_pos(&st, (150, 90), origin), Some((42, 10)));
}

#[test]
fn names_and_paths() {
    assert_eq!(renderer_name(3), "openglcore");
    assert_eq!(renderer_name(9), "unknown");
    assert_eq!(render::renderer_name(3), "unknown");
    assert_eq!(render::renderer_name(2), "d3d9");
    let ini = IniSection { entries: vec![IniEntry { key: "Log".to_string(), text: Some("x.log".to_string()), number: None }] };
    assert_eq!(log_file_path(Some("C:\\games\\ddraw.dll"), &ini), "C:\\games\\x.log");
    assert_eq!(log_file_path(Some("ddraw.dll"), &ini), "x.log");
    assert_eq!(log_file_path(None, &ini), "rs-ddraw.log");
}

#[test]
fn log_rotation() {
    assert!(!log_needs_rotation(100 * 1024 * 1024));
    assert!(log_needs_rotation(100 * 1024 * 1024 + 1));
    assert!(!log_needs_rotation(0));
    assert_eq!(rotated_log_name("rs-ddraw.log"), "rs-ddraw.log.old");
}

#[test]
fn render_backends_and_uploads() {
    assert_eq!(backend_order(RENDERER_OPENGL, true), [RENDERER_D3D9, RENDERER_OPENGL, RENDERER_GDI, RENDERER_GDI]);
    assert_eq!(backend_order(RENDERER_OPENGL, false), [RENDERER_OPENGL, RENDERER_GDI, RENDERER_GDI, RENDERER_GDI]);
    let order = backend_order(0, true);
    assert_eq!(chosen_backend(order, [false, true, true, true]), RENDERER_OPENGL);
    assert_eq!(chosen_backend(order, [false, false, false, false]), RENDERER_GDI);

    let mut st = DDrawState::new();
    let mut last = (-1, -1);
    assert!(frame_upload(&mut st, Some((640, 480)), &mut last));
    assert_eq!(last, (640, 480));
    assert!(!frame_upload(&mut st, Some((640, 480)), &mut last));
    st.frame.present_dirty = true;
    assert!(frame_upload(&mut st, None, &mut last));
    assert!(!st.frame.present_dirty);
    assert!(frame_upload(&mut st, Some((800, 600)), &mut last));
}

#[test]
fn opengl_viewport_is_bottom_up() {
    let vp = Viewport { left: 80, top: 20, right: 720, bottom: 500 };
    assert_eq!(gl_viewport(vp, 600, (800, 600), (640, 480)), (80, 100, 640, 480));
    let empty = Viewport { left: 0, top: 0, right: 0, bottom: 0 };
    assert_eq!(gl_viewport(empty, 600, (800, 600), (640, 480)), (0, 0, 800, 600));
    assert_eq!(gl_viewport(empty, 600, (0, 0), (640, 480)), (0, 0, 640, 480));
}

#[test]
fn gamma_control_calls() {
    let mut st = DDrawState::new();
    assert_eq!(get_gamma_ramp(&st, false), Err(DDrawError::InvalidArg));
    assert_eq!(get_gamma_ramp(&st, true).unwrap()[3], 0x0101);
    assert_eq!(set_gamma_ramp(&mut st, None), Err(DDrawError::InvalidArg));
    assert!(st.gamma_ramp.is_none());
    let mut ramp = [0u16; 768];
    ramp[5] = 42;
    assert_eq!(set_gamma_ramp(&mut st, Some(&ramp)), Ok(()));
    assert_eq!(get_gamma_ramp(&st, true).unwrap()[5], 42);
}
