use rs_ddraw::media::{
    codec_entry, codec_value_matches, init, is_codec_dll, is_media_clsid, sz_bytes, wants_codec_dll, wants_library,
    wide, MediaState, CLSID_FILTER_GRAPH,
};
use rs_ddraw::dinput::wanted;

#[test]
fn codec_names() {
    assert!(is_codec_dll("IR50_32.DLL"));
    assert!(is_codec_dll("ir41_32.ax"));
    assert!(!is_codec_dll("winmm.dll"));
    assert!(wants_codec_dll("Ir32_32.dll"));
    assert!(!wants_library("ir32_32.dl"));
    assert!(wanted("DINPUT8.dll"));
    assert!(!wanted("dinput9.dll"));
}

#[test]
fn clsids() {
    assert!(is_media_clsid(CLSID_FILTER_GRAPH));
    assert!(is_media_clsid(0xE436EBB5_524F_11CE_9F53_0020AF0BA770));
    assert!(!is_media_clsid(0));
}

#[test]
fn utf16_text() {
    assert_eq!(wide("ab"), vec![97u16, 98, 0]);
    assert_eq!(wide("é😀"), vec![0xE9u16, 0xD83D, 0xDE00, 0]);
    assert_eq!(sz_bytes("a"), vec![97u8, 0, 0, 0]);
    assert_eq!(codec_entry(3), ("vidc.iv50", "ir50_32.dll"));
}

#[test]
fn registry_values() {
    let v = sz_bytes("IR41_32.AX");
    assert!(codec_value_matches(&v));
    let other = sz_bytes("xvid.dll");
    assert!(!codec_value_matches(&other));
    assert!(!codec_value_matches(&[]));
}

#[test]
fn registration_runs_once() {
    let mut m = MediaState { initialized: false };
    assert!(init(&mut m));
    assert!(!init(&mut m));
}
