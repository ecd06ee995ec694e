use rs_ddraw::pe::{hook_iat, ieq, import_slots};

fn put16(img: &mut [u8], at: usize, v: u16) {
    img[at..at + 2].copy_from_slice(&v.to_le_bytes());
}

fn put32(img: &mut [u8], at: usize, v: u32) {
    img[at..at + 4].copy_from_slice(&v.to_le_bytes());
}

fn image() -> Vec<u8> {
    let mut img = vec![0u8; 0x200];
    put16(&mut img, 0, 0x5A4D);
    put32(&mut img, 0x3C, 0x40);
    put32(&mut img, 0x40, 0x4550);
    put16(&mut img, 0x58, 0x10B);
    put32(&mut img, 0x58 + 0x60 + 8, 0x100);
    put32(&mut img, 0x100, 0x140);
    put32(&mut img, 0x10C, 0x180);
    put32(&mut img, 0x110, 0x160);
    put32(&mut img, 0x140, 0x1A0);
    put32(&mut img, 0x144, 0x190);
    put32(&mut img, 0x160, 0x1111_1111);
    put32(&mut img, 0x164, 0x2222_2222);
    img[0x180..0x18B].copy_from_slice(b"USER32.dll\0");
    img[0x192..0x19F].copy_from_slice(b"GetCursorPos\0");
    img[0x1A2..0x1AD].copy_from_slice(b"ClipCursor\0");
    img
}

#[test]
fn finds_import_slots() {
    let img = image();
    assert_eq!(import_slots(&img, b"user32.dll", b"GetCursorPos", 4), vec![0x164]);
    assert_eq!(import_slots(&img, b"USER32.DLL\0", b"clipcursor", 4), vec![0x160]);
    assert!(import_slots(&img, b"kernel32.dll", b"GetCursorPos", 4).is_empty());
    assert!(import_slots(&img, b"user32.dll", b"SetCursorPos", 4).is_empty());
}

#[test]
fn rejects_non_images() {
    let mut img = image();
    img[0] = 0;
    assert!(import_slots(&img, b"user32.dll", b"GetCursorPos", 4).is_empty());
    assert!(import_slots(&[], b"user32.dll", b"GetCursorPos", 4).is_empty());
}

#[test]
fn names_compare_without_case() {
    let img = image();
    assert!(ieq(&img, 0x180, b"user32.DLL"));
    assert!(!ieq(&img, 0x180, b"user32"));
    assert!(!ieq(&img, 0x1FF, b"x"));
}

#[test]
fn hooking_writes_the_slot() {
    let mut img = image();
    let before = img.clone();
    assert!(hook_iat(&mut img, b"user32.dll", b"GetCursorPos", 0, 4).is_empty());
    assert_eq!(img, before);
    assert_eq!(hook_iat(&mut img, b"user32.dll", b"GetCursorPos", 0xCAFE_BABE, 4), vec![0x164]);
    assert_eq!(&img[0x164..0x168], &0xCAFE_BABEu32.to_le_bytes());
    assert_eq!(&img[0x160..0x164], &before[0x160..0x164]);
    assert_eq!(&img[0x168..], &before[0x168..]);
    assert_eq!(&img[..0x164], &before[..0x164]);
}
