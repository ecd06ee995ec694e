use rs_ddraw::screenshot::{begin_screenshot, normalize, screenshot_png, screenshot_rows};

#[test]
fn rows_of_32_bit_surface() {
    let px = vec![1u8, 2, 3, 0, 4, 5, 6, 0];
    assert_eq!(screenshot_rows(&px, 2, 1, 32, 8, &None, false), vec![3, 2, 1, 255, 6, 5, 4, 255]);
}

#[test]
fn rows_of_8_bit_surface_use_palette() {
    let mut pal = [[0u8; 4]; 256];
    pal[1] = [10, 20, 30, 0];
    let px = vec![1u8, 0, 9, 1];
    assert_eq!(screenshot_rows(&px, 1, 2, 8, 2, &Some(pal), false), vec![30, 20, 10, 255, 0, 0, 0, 255]);
    assert_eq!(screenshot_rows(&px, 1, 1, 8, 1, &None, false), vec![0, 0, 0, 255]);
}

#[test]
fn rows_of_16_bit_surface() {
    let px = vec![0xFFu8, 0xFF];
    assert_eq!(screenshot_rows(&px, 1, 1, 16, 2, &None, false), vec![248, 252, 248, 255]);
    assert_eq!(screenshot_rows(&px, 1, 1, 16, 2, &None, true), vec![248, 248, 248, 255]);
    // Pure red in 5/6/5 and in 5/5/5.
    assert_eq!(screenshot_rows(&[0x00, 0xF8], 1, 1, 16, 2, &None, false), vec![248, 0, 0, 255]);
    assert_eq!(screenshot_rows(&[0x00, 0x7C], 1, 1, 16, 2, &None, true), vec![248, 0, 0, 255]);
}

#[test]
fn png_output() {
    let px = vec![1u8, 2, 3, 0, 4, 5, 6, 0];
    let png = screenshot_png(&px, 2, 1, 32, 8, &None, false).unwrap().unwrap();
    assert_eq!(&png[0..8], &[137, 80, 78, 71, 13, 10, 26, 10]);
    assert_eq!(screenshot_png(&px, 0, 1, 32, 8, &None, false), Ok(None));
    let px16 = vec![0u8; 4];
    let png16 = screenshot_png(&px16, 2, 1, 16, 4, &None, false).unwrap().unwrap();
    assert_eq!(&png16[0..8], &[137, 80, 78, 71, 13, 10, 26, 10]);
    assert!(png16 != png);
}

#[test]
fn file_names() {
    assert_eq!(normalize("My Game"), "my_game");
    assert_eq!(normalize("ÄÖ x"), "äö_x");
    let mut busy = false;
    assert!(begin_screenshot(&mut busy));
    assert!(!begin_screenshot(&mut busy));
}
