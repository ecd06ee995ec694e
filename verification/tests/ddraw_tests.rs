use rs_ddraw::blit::Rect;
use rs_ddraw::ddraw::{
    bbox, create_palette, create_surface_request, enum_display_modes, fill_caps, fill_pixel_format, get_display_mode,
    mode_filter, set_cooperative_level, set_display_mode, Clipper, DDrawError, DDSCL_EXCLUSIVE, DDSCL_FULLSCREEN,
    DDSD_BACKBUFFERCOUNT, DDSD_HEIGHT, DDSD_PIXELFORMAT, DDSD_WIDTH,
};
use rs_ddraw::ddraw::{enum_next, DDENUMRET_CANCEL};
use rs_ddraw::state::DDrawState;
use rs_ddraw::surface::{DDSCAPS_FLIP, DDSCAPS_PRIMARYSURFACE};

#[test]
fn pixel_formats() {
    let p8 = fill_pixel_format(8);
    assert_eq!(p8.flags, 0x60);
    assert_eq!(p8.masks, (0, 0, 0));
    assert_eq!(fill_pixel_format(16).masks, (0xF800, 0x07E0, 0x001F));
    assert_eq!(fill_pixel_format(32).masks, (0xFF0000, 0xFF00, 0xFF));
    assert_eq!(fill_pixel_format(32).bit_count, 32);
    assert_eq!(fill_caps().vid_mem_total, 16 * 1024 * 1024);
    assert_eq!(fill_caps().caps2, 2048);
}

#[test]
fn surface_requests() {
    let st = DDrawState::new();
    let r = create_surface_request(&st, DDSD_WIDTH | DDSD_HEIGHT, 0, 33, 20, 0, 0);
    assert_eq!((r.width, r.height, r.bpp), (34, 20, 16));
    let r = create_surface_request(&st, DDSD_PIXELFORMAT, 0, 0, 0, 8, 0);
    assert_eq!((r.width, r.height, r.bpp), (640, 480, 8));
    let p = create_surface_request(&st, DDSD_BACKBUFFERCOUNT, DDSCAPS_PRIMARYSURFACE | DDSCAPS_FLIP, 10, 10, 32, 1);
    assert!(p.is_primary && p.with_backbuffer);
    assert_eq!((p.width, p.height, p.bpp), (640, 480, 16));
}

#[test]
fn display_modes_in_depth_order() {
    let modes = vec![(640u32, 480u32), (800, 600)];
    let all = enum_display_modes(&modes, None);
    assert_eq!(all.len(), 6);
    assert_eq!((all[0].width, all[0].format.bit_count), (640, 8));
    assert_eq!((all[3].width, all[3].pitch), (800, 1600));
    assert_eq!(all[5].pitch, 3200);
    let only = enum_display_modes(&modes, mode_filter(DDSD_WIDTH | DDSD_HEIGHT, 800, 600));
    assert_eq!(only.len(), 3);
    assert_eq!(mode_filter(DDSD_WIDTH, 800, 600), None);
}

#[test]
fn display_mode_changes() {
    let mut st = DDrawState::new();
    assert_eq!(set_display_mode(&mut st, 800, 600, 24), Err(DDrawError::InvalidMode));
    let c = set_display_mode(&mut st, 0, 0, 8).unwrap();
    assert_eq!((c.width, c.height, c.change_display), (640, 480, false));
    assert_eq!(st.bpp, 8);
    let m = get_display_mode(&st);
    assert_eq!((m.width, m.pitch), (640, 640));
}

#[test]
fn cooperative_level() {
    let mut st = DDrawState::new();
    assert_eq!(set_cooperative_level(&mut st, false, 0, false, (1920, 1080), None), Err(DDrawError::InvalidArg));
    let p = set_cooperative_level(&mut st, true, DDSCL_EXCLUSIVE | DDSCL_FULLSCREEN, false, (1920, 1080), None).unwrap();
    assert_eq!(p.flags, 0);
    assert!(p.pixel_format.is_some());
    assert_eq!(p.window, Some(Rect { left: 640, top: 300, right: 1280, bottom: 780 }));
    let again = set_cooperative_level(&mut st, true, 8, false, (1, 1), Some((1280, 1024))).unwrap();
    assert!(again.pixel_format.is_none());
    assert_eq!((st.screen_width, st.screen_height), (1280, 1024));
}

#[test]
fn palette_round_trip() {
    let mut colors = [[0u8; 4]; 256];
    colors[3] = [10, 20, 30, 0];
    let mut p = create_palette(4, Some(&colors));
    assert_eq!(p.entries[3], [30, 20, 10, 0]);
    assert_eq!(p.get_entries(3, 1).unwrap(), vec![[10, 20, 30, 0]]);
    assert!(p.set_entries(255, &[[1, 2, 3, 4]]).is_ok());
    assert_eq!(p.get_entries(255, 1).unwrap(), vec![[1, 2, 3, 4]]);
    assert_eq!(p.set_entries(255, &[[1, 2, 3, 4], [5, 6, 7, 8]]), Err(DDrawError::InvalidArg));
    assert_eq!(p.get_entries(200, 57), Err(DDrawError::InvalidArg));
    assert_eq!(p.get_caps(), 4);
    let black = create_palette(0, None);
    assert_eq!(black.entries[17], [0, 0, 0, 0]);
}

#[test]
fn clip_lists() {
    let mut c = Clipper { hwnd: 0, clip: Vec::new(), changed: false };
    let client = Rect { left: 0, top: 0, right: 640, bottom: 480 };
    let l = c.get_clip_list(client, None).unwrap();
    assert_eq!(l.needed, 32);
    c.set_hwnd(5);
    let l = c.get_clip_list(client, Some(48)).unwrap();
    assert_eq!(l.rects.unwrap(), vec![client]);
    c.set_clip_list(Some(vec![Rect { left: 5, top: 6, right: 7, bottom: 8 }, Rect { left: -1, top: 9, right: 3, bottom: 20 }]));
    assert!(c.is_clip_list_changed());
    assert!(!c.is_clip_list_changed());
    assert!(c.get_clip_list(client, Some(40)).is_err());
    let l = c.get_clip_list(client, Some(64)).unwrap();
    assert_eq!(l.needed, 64);
    assert_eq!(l.bounds, Rect { left: -1, top: 6, right: 7, bottom: 20 });
    assert_eq!(bbox(&vec![]), Rect { left: 0, top: 0, right: 0, bottom: 0 });
}

#[test]
fn enumeration_stops_on_cancel() {
    assert_eq!(enum_next(0, 3, 1), Some(1));
    assert_eq!(enum_next(0, 3, DDENUMRET_CANCEL), None);
    assert_eq!(enum_next(2, 3, 1), None);
}

#[test]
fn large_and_invalid_windows() {
    let mut st = DDrawState::new();
    // A mode wider than i32::MAX wraps, as a signed 32-bit cast does.
    let c = set_display_mode(&mut st, 0x8000_0000, 600, 16).unwrap();
    assert_eq!((c.width, c.height), (i32::MIN, 600));
    st.width = 100_000_000;
    assert_eq!(set_cooperative_level(&mut st, false, 0, false, (1920, 1080), None), Err(DDrawError::InvalidArg));
    assert_eq!(st.width, 100_000_000);
}
