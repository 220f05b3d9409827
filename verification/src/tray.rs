use vstd::prelude::*;

verus! {

/// The tray icon's side length, in pixels.
pub const TRAY_ICON_SIZE: usize = 18;

/// Whether pixel `(x, y)` belongs to the microphone glyph the tray icon
/// shows: a rounded capsule with a stand and a base.
pub open spec fn glyph_pixel(x: int, y: int) -> bool {
    ||| (7 <= x < 11 && 3 <= y < 10)
    ||| (8 <= x < 10 && 2 <= y < 4)
    ||| (8 <= x < 10 && 10 <= y < 13)
    ||| (5 <= x < 13 && y == 13)
    ||| ((x == 8 || x == 9) && 14 <= y < 16)
    ||| (6 <= x < 12 && y == 16)
}

fn glyph_pixel_at(x: usize, y: usize) -> (r: bool)
    ensures
        r == glyph_pixel(x as int, y as int),
{
    (7 <= x && x < 11 && 3 <= y && y < 10) || (8 <= x && x < 10 && 2 <= y && y < 4) || (8 <= x && x
        < 10 && 10 <= y && y < 13) || (5 <= x && x < 13 && y == 13) || ((x == 8 || x == 9) && 14
        <= y && y < 16) || (6 <= x && x < 12 && y == 16)
}

/// The RGBA byte at channel `ch` of pixel `(x, y)`: the given color on the
/// glyph, transparent elsewhere.
pub open spec fn icon_byte(color: [u8; 4], x: int, y: int, ch: int) -> u8 {
    if glyph_pixel(x, y) {
        color[ch]
    } else {
        0
    }
}

/// Paints the tray icon's microphone glyph in the given color: an
/// 18-by-18 RGBA pixel buffer, row by row, transparent outside the glyph.
pub fn tray_icon_rgba(color: [u8; 4]) -> (r: Vec<u8>)
    ensures
        r@.len() == TRAY_ICON_SIZE * TRAY_ICON_SIZE * 4,
        forall|x: int, y: int, ch: int|
            0 <= x < TRAY_ICON_SIZE && 0 <= y < TRAY_ICON_SIZE && 0 <= ch < 4 ==> r@[(y
                * TRAY_ICON_SIZE + x) * 4 + ch] == icon_byte(color, x, y, ch),
{
    let mut r: Vec<u8> = Vec::new();
    let mut y: usize = 0;
    while y < TRAY_ICON_SIZE
        invariant
            0 <= y <= TRAY_ICON_SIZE,
            r@.len() == y * TRAY_ICON_SIZE * 4,
            forall|xx: int, yy: int, ch: int|
                0 <= xx < TRAY_ICON_SIZE && 0 <= yy < y && 0 <= ch < 4 ==> r@[(yy * TRAY_ICON_SIZE
                    + xx) * 4 + ch] == icon_byte(color, xx, yy, ch),
        decreases TRAY_ICON_SIZE - y,
    {
        let mut x: usize = 0;
        while x < TRAY_ICON_SIZE
            invariant
                0 <= y < TRAY_ICON_SIZE,
                0 <= x <= TRAY_ICON_SIZE,
                r@.len() == (y * TRAY_ICON_SIZE + x) * 4,
                forall|xx: int, yy: int, ch: int|
                    0 <= xx < TRAY_ICON_SIZE && 0 <= yy < y && 0 <= ch < 4 ==> r@[(yy
                        * TRAY_ICON_SIZE + xx) * 4 + ch] == icon_byte(color, xx, yy, ch),
                forall|xx: int, ch: int|
                    0 <= xx < x && 0 <= ch < 4 ==> r@[(y * TRAY_ICON_SIZE + xx) * 4 + ch]
                        == icon_byte(color, xx, y as int, ch),
            decreases TRAY_ICON_SIZE - x,
        {
            if glyph_pixel_at(x, y) {
                r.push(color[0]);
                r.push(color[1]);
                r.push(color[2]);
                r.push(color[3]);
            } else {
                r.push(0);
                r.push(0);
                r.push(0);
                r.push(0);
            }
            x = x + 1;
        }
        y = y + 1;
    }
    r
}

} // verus!
