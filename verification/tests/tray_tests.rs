use murmur::tray::{tray_icon_rgba, TRAY_ICON_SIZE};

fn pixel(buf: &[u8], x: usize, y: usize) -> [u8; 4] {
    let idx = (y * TRAY_ICON_SIZE + x) * 4;
    [buf[idx], buf[idx + 1], buf[idx + 2], buf[idx + 3]]
}

#[test]
fn icon_buffer_has_exact_size() {
    let buf = tray_icon_rgba([0, 0, 0, 255]);
    assert_eq!(buf.len(), TRAY_ICON_SIZE * TRAY_ICON_SIZE * 4);
}

#[test]
fn glyph_pixels_carry_the_color() {
    let color = [255, 210, 48, 255];
    let buf = tray_icon_rgba(color);
    // Inside the microphone capsule.
    assert_eq!(pixel(&buf, 8, 5), color);
    // On the base bar.
    assert_eq!(pixel(&buf, 6, 13), color);
    // On the stand.
    assert_eq!(pixel(&buf, 8, 15), color);
}

#[test]
fn background_pixels_are_transparent() {
    let buf = tray_icon_rgba([1, 2, 3, 4]);
    assert_eq!(pixel(&buf, 0, 0), [0, 0, 0, 0]);
    assert_eq!(pixel(&buf, 17, 17), [0, 0, 0, 0]);
    assert_eq!(pixel(&buf, 4, 13), [0, 0, 0, 0]);
}

#[test]
fn listening_and_default_colors_differ_only_in_color() {
    let a = tray_icon_rgba([0, 0, 0, 255]);
    let b = tray_icon_rgba([255, 210, 48, 255]);
    assert_eq!(a.len(), b.len());
    for y in 0..TRAY_ICON_SIZE {
        for x in 0..TRAY_ICON_SIZE {
            let pa = pixel(&a, x, y);
            let pb = pixel(&b, x, y);
            assert_eq!(pa == [0, 0, 0, 255], pb == [255, 210, 48, 255]);
            assert_eq!(pa == [0u8, 0, 0, 0], pb == [0u8, 0, 0, 0]);
        }
    }
}
