use rs_ddraw::state::{
    focused, mark_dirty, mark_frame_ready, renderer, set_renderer, take_dirty, DDrawState, LockStep, ReentrantLock,
    Viewport, RENDERER_GDI, RENDERER_OPENGL,
};

#[test]
fn lock_is_reentrant_and_exclusive() {
    let mut l = ReentrantLock::new();
    assert_eq!(l.owner(), 0);
    let g1 = l.lock(7).expect("free lock");
    assert_eq!(l.owner(), 7);
    let g2 = l.lock(7).expect("reentrant");
    assert_eq!(l.depth(), 2);
    assert!(l.lock(9).is_none());
    assert_eq!(l.acquire(9), LockStep::MustWait);
    assert!(!l.unlock(g2));
    assert!(l.unlock(g1));
    assert_eq!(l.owner(), 0);
    assert_eq!(l.acquire(9), LockStep::Acquired);
    assert_eq!(l.acquire(9), LockStep::Reentered);
    assert!(!l.release(9));
    assert!(l.release(9));
}

#[test]
fn viewport_size() {
    let v = Viewport { left: 10, top: 20, right: 650, bottom: 500 };
    assert_eq!(v.width(), 640);
    assert_eq!(v.height(), 480);
}

#[test]
fn fresh_state_defaults() {
    let st = DDrawState::new();
    assert_eq!((st.width, st.height, st.bpp), (640, 480, 16));
    assert_eq!(renderer(&st), RENDERER_OPENGL);
    assert!(!focused(&st));
    assert_eq!(st.gfx.target_fps, 60);
    assert_eq!(st.shaders.shader, "catmull-rom-bilinear.glsl");
    assert_eq!(st.compat.pos_x, -32000);
    assert_eq!(st.keys.keyconfig, 0x7A);
}

#[test]
fn dirty_flag_is_taken_once() {
    let mut st = DDrawState::new();
    assert!(!take_dirty(&mut st));
    mark_dirty(&mut st);
    assert!(take_dirty(&mut st));
    assert!(!take_dirty(&mut st));
}

#[test]
fn frame_ready_and_renderer_switch() {
    let mut st = DDrawState::new();
    mark_frame_ready(&mut st);
    assert!(st.frame.frame_ready && st.frame.uses_vblank);
    set_renderer(&mut st, RENDERER_GDI);
    assert_eq!(renderer(&st), RENDERER_GDI);
    st.focus_gained = 1;
    assert!(focused(&st));
}
