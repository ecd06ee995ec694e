use rs_ddraw::surface::{dib_header, lock_desc, surface_desc, tshack_active, DDSCAPS_SYSTEMMEMORY, SURFACE_DESC_FLAGS};
use rs_ddraw::blit::{intersect_rect, rect_clamp, Rect};
use rs_ddraw::state::{FrameFlags, ReentrantLock};
use rs_ddraw::surface::{lock_surface, unlock_surface, LockOutcome};
use rs_ddraw::ddraw::DDrawError;
use rs_ddraw::scale::{clamp_i32, convert_scale, ScaleOutcome, Scaler};
use rs_ddraw::surface::{
    blt, blt_fast_flags, blt_fast_rect, blt_keys, fill_bytes, flip, lock_window, surface_caps, surface_pixel_format,
    ColorKeys, SourceCopy, SurfaceData, DDBLTFAST_SRCCOLORKEY, DDBLT_COLORFILL, DDBLT_KEYSRC, GUARD_LINES,
};

#[test]
fn new_surface_has_guard_rows() {
    let s = SurfaceData::new(4, 3, 16);
    assert_eq!(s.pitch, 8);
    assert_eq!(s.pixels.len(), 8 * (3 + GUARD_LINES));
    assert!(s.pixels.iter().all(|&b| b == 0));
    let s = SurfaceData::new(6, 2, 8);
    assert_eq!(s.pitch, 8);
    assert_eq!(SurfaceData::new(3, 1, 16).pitch, 8);
    assert_eq!(SurfaceData::new(5, 1, 32).pitch, 20);
}

#[test]
fn clamping_and_intersection() {
    assert_eq!(rect_clamp(None, 10, 5), (0, 0, 10, 5));
    assert_eq!(rect_clamp(Some(Rect { left: -3, top: 2, right: 40, bottom: -1 }), 10, 5), (0, 2, 10, 2));
    assert_eq!(rect_clamp(Some(Rect { left: -9, top: 0, right: -5, bottom: 5 }), 10, 5), (0, 0, 0, 5));
    assert_eq!(rect_clamp(Some(Rect { left: 6, top: 2, right: 4, bottom: 3 }), 10, 5), (6, 2, 6, 3));
    assert_eq!(intersect_rect((0, 0, 5, 5), (3, 3, 8, 8)), Some((3, 3, 5, 5)));
    assert_eq!(intersect_rect((0, 0, 3, 3), (3, 0, 5, 5)), None);
}

#[test]
fn colour_fill() {
    let mut d = SurfaceData::new(4, 2, 32);
    blt(&mut d, None, Some(Rect { left: 1, top: 0, right: 3, bottom: 1 }), None, DDBLT_COLORFILL, Some(0x00112233), (None, None), &vec![], false, None, false, &mut FrameFlags { running: false, present_dirty: false, frame_ready: false, uses_vblank: false });
    assert_eq!(&d.pixels[0..16], &[0, 0, 0, 0, 0x33, 0x22, 0x11, 0, 0x33, 0x22, 0x11, 0, 0, 0, 0, 0]);
    assert!(d.pixels[16..].iter().all(|&b| b == 0));
    assert_eq!(fill_bytes(0xABCD, 16), vec![0xCD, 0xAB]);
}

#[test]
fn keyed_copy() {
    let mut d = SurfaceData::new(2, 1, 32);
    let src = SourceCopy { data: vec![1, 1, 1, 0, 9, 9, 9, 0], width: 2, height: 1, pitch: 8, bpp: 32 };
    let keys = blt_keys(DDBLT_KEYSRC, ColorKeys { src: None, dest: None }, Some(Some(0x00090909)));
    assert_eq!(keys, (Some(0x00090909), None));
    let mut frame = FrameFlags { running: false, present_dirty: false, frame_ready: false, uses_vblank: false };
    blt(&mut d, Some(&src), None, None, DDBLT_KEYSRC, None, keys, &vec![], false, None, true, &mut frame);
    assert!(frame.present_dirty && !frame.frame_ready);
    assert_eq!(&d.pixels[0..8], &[1, 1, 1, 255, 0, 0, 0, 0]);
}

#[test]
fn fast_blt_and_lock_helpers() {
    assert_eq!(blt_fast_flags(DDBLTFAST_SRCCOLORKEY), DDBLT_KEYSRC);
    assert_eq!(blt_fast_flags(0), 0);
    assert_eq!(blt_fast_rect(5, 6, 10, 20), Rect { left: 5, top: 6, right: 15, bottom: 26 });
    assert_eq!(lock_window(640, 16, Rect { left: 2, top: 3, right: 10, bottom: 8 }), (3 * 640 + 4, 8, 5));
    assert_eq!(surface_pixel_format(16, true).masks, Some((0x7C00, 0x03E0, 0x001F)));
    assert!(surface_caps(true) != surface_caps(false));
}

#[test]
fn flipping_moves_the_back_buffer() {
    let mut front = SurfaceData::new(2, 1, 8);
    let mut back = SurfaceData::new(2, 1, 8);
    back.pixels[0] = 7;
    back.pixels[1] = 8;
    let mut frame = FrameFlags { running: false, present_dirty: false, frame_ready: false, uses_vblank: false };
    flip(&mut front, &mut back, true, true, &mut frame);
    assert!(frame.present_dirty && frame.frame_ready && frame.uses_vblank);
    assert_eq!(&front.pixels[0..2], &[7, 8]);
    assert_eq!(&back.pixels[0..2], &[0, 0]);
}

#[test]
fn nearest_scaling() {
    let src = vec![1u8, 2, 3, 4];
    let mut out = vec![0u32; 16];
    let r = convert_scale(&src, 2, 2, 2, 8, false, None, 0, &mut out, 4, 4);
    assert!(matches!(r, ScaleOutcome::Converted));
    assert_eq!(out[0], 0x00010101);
    assert_eq!(out[3], 0x00020202);
    assert_eq!(out[15], 0x00040404);
    let mut small = vec![0u32; 3];
    assert!(matches!(convert_scale(&src, 2, 2, 2, 8, false, None, 0, &mut small, 4, 4), ScaleOutcome::TooSmall));
    assert_eq!(clamp_i32(9, 0, 4), 4);
    let s = Scaler::new();
    assert_eq!((s.w, s.h, s.buf.len()), (0, 0, 0));
}

#[test]
fn surface_descriptions() {
    let d = surface_desc(640, 480, 1280, 16, 0x200);
    assert_eq!((d.flags, d.width, d.height, d.pitch, d.offset, d.bit_count), (SURFACE_DESC_FLAGS, 640, 480, 1280, 0, 16));
    let l = lock_desc(640, 480, 1280, 16, 0x200, Some(Rect { left: 10, top: 2, right: 30, bottom: 12 }));
    assert_eq!((l.offset, l.width, l.height), (2 * 1280 + 20, 20, 10));
    assert!(tshack_active(DDSCAPS_SYSTEMMEMORY, false));
    assert!(tshack_active(0, true));
    assert!(!tshack_active(0, false));
}

#[test]
fn bitmap_headers() {
    let h = dib_header(640, 480, 8, false);
    assert_eq!(h.len(), 40 + 1024);
    assert_eq!(&h[0..4], &[40, 0, 0, 0]);
    assert_eq!(&h[4..8], &640i32.to_le_bytes());
    assert_eq!(&h[8..12], &(-680i32).to_le_bytes());
    assert_eq!(&h[12..16], &[1, 0, 8, 0]);
    assert_eq!(&h[16..20], &[0, 0, 0, 0]);
    assert_eq!(&h[32..36], &[0, 1, 0, 0]);
    assert_eq!(&h[40 + 4 * 77..40 + 4 * 78], &[77, 77, 77, 0]);

    let h = dib_header(320, 200, 16, true);
    assert_eq!(h.len(), 52);
    assert_eq!(&h[12..20], &[1, 0, 16, 0, 3, 0, 0, 0]);
    assert_eq!(&h[40..52], &[0x00, 0x7C, 0, 0, 0xE0, 0x03, 0, 0, 0x1F, 0, 0, 0]);
    let h = dib_header(320, 200, 16, false);
    assert_eq!(&h[40..44], &[0x00, 0xF8, 0, 0]);
    let h = dib_header(320, 200, 32, false);
    assert_eq!(&h[40..52], &[0, 0, 0xFF, 0, 0, 0xFF, 0, 0, 0xFF, 0, 0, 0]);
}

#[test]
fn fill_outside_the_surface_touches_nothing() {
    let mut d = SurfaceData::new(4, 2, 8);
    let mut frame = FrameFlags { running: false, present_dirty: false, frame_ready: false, uses_vblank: false };
    let r = Some(Rect { left: -9, top: 0, right: -5, bottom: 2 });
    blt(&mut d, None, r, None, DDBLT_COLORFILL, Some(0x7F), (None, None), &vec![], false, None, false, &mut frame);
    assert!(d.pixels.iter().all(|&b| b == 0));
    assert_eq!(frame, FrameFlags { running: false, present_dirty: false, frame_ready: false, uses_vblank: false });
}

#[test]
fn lock_is_held_until_unlock() {
    let mut lk = ReentrantLock::new();
    let mut frame = FrameFlags { running: false, present_dirty: false, frame_ready: false, uses_vblank: false };
    assert_eq!(lock_surface(&mut lk, 7, false, 640, 480, 1280, 16, 0, None), LockOutcome::Refused(DDrawError::InvalidArg));
    assert_eq!(lk.owner(), 0);
    match lock_surface(&mut lk, 7, true, 640, 480, 1280, 16, 0, None) {
        LockOutcome::Locked(d) => assert_eq!((d.width, d.height, d.pitch), (640, 480, 1280)),
        other => panic!("{:?}", other),
    }
    assert_eq!((lk.owner(), lk.depth()), (7, 1));
    // Another thread (the renderer) must wait while the game holds it.
    assert_eq!(lock_surface(&mut lk, 9, true, 640, 480, 1280, 16, 0, None), LockOutcome::Wait);
    assert!(unlock_surface(&mut lk, 7, true, &mut frame));
    assert!(frame.present_dirty);
    assert_eq!((lk.owner(), lk.depth()), (0, 0));
    assert!(matches!(lock_surface(&mut lk, 9, true, 640, 480, 1280, 16, 0, None), LockOutcome::Locked(_)));
}
