//! The default tray icon: a 32 by 32 RGBA image of a bright ring around a
//! dark disc, on a transparent background.

use vstd::prelude::*;

verus! {

/// Width and height of the icon, in pixels.
pub const ICON_SIZE: u32 = 32;

/// Squared distance, in pixels, of pixel `(x, y)` from the icon's center `(16, 16)`.
pub open spec fn center_distance2(x: int, y: int) -> int {
    (x - 16) * (x - 16) + (y - 16) * (y - 16)
}

/// The colour of pixel `(x, y)`. With `r2` the squared distance from the
/// center divided by 14 squared: the ring where `0.65 <= r2 <= 1`, the disc
/// inside it, transparent outside. Since distances are whole, `r2 >= 0.65`
/// holds exactly from 128 on (0.65 * 196 = 127.4) and `r2 <= 1` up to 196.
pub open spec fn icon_pixel(x: int, y: int) -> Seq<u8> {
    let d = center_distance2(x, y);
    if 128 <= d <= 196 {
        seq![0u8, 210u8, 255u8, 255u8]
    } else if d < 128 {
        seq![15u8, 23u8, 42u8, 240u8]
    } else {
        seq![0u8, 0u8, 0u8, 0u8]
    }
}

/// Byte `i` of the icon: pixels row by row, four channels each.
pub open spec fn icon_byte(i: int) -> u8 {
    let p = i / 4;
    icon_pixel(p % 32, p / 32)[i % 4]
}

/// The RGBA bytes of the default tray icon.
pub fn default_icon_rgba() -> (rgba: Vec<u8>)
    ensures
        rgba@.len() == 4096,
        forall|i: int| 0 <= i < 4096 ==> rgba@[i] == #[trigger] icon_byte(i),
{
    let mut rgba: Vec<u8> = Vec::with_capacity(4096);
    let mut p: u32 = 0;
    while p < 1024
        invariant
            0 <= p <= 1024,
            rgba@.len() == 4 * p,
            forall|i: int| 0 <= i < 4 * p ==> rgba@[i] == #[trigger] icon_byte(i),
        decreases 1024 - p,
    {
        let x: i32 = (p % 32) as i32;
        let y: i32 = (p / 32) as i32;
        let dx = x - 16;
        let dy = y - 16;
        assert(dx * dx <= 256 && dy * dy <= 256 && dx * dx >= 0 && dy * dy >= 0) by (nonlinear_arith)
            requires
                -16 <= dx <= 15,
                -16 <= dy <= 15,
        ;
        let d = dx * dx + dy * dy;
        let (r, g, b, a): (u8, u8, u8, u8) = if 128 <= d && d <= 196 {
            (0, 210, 255, 255)
        } else if d < 128 {
            (15, 23, 42, 240)
        } else {
            (0, 0, 0, 0)
        };
        let ghost before = rgba@;
        rgba.push(r);
        rgba.push(g);
        rgba.push(b);
        rgba.push(a);
        proof {
            assert forall|i: int| 0 <= i < 4 * (p + 1) implies rgba@[i] == #[trigger] icon_byte(i) by {
                if i >= 4 * p {
                    assert(i / 4 == p as int);
                    assert(d == center_distance2(p as int % 32, p as int / 32));
                    assert(seq![r, g, b, a] == icon_pixel(p as int % 32, p as int / 32));
                    assert(rgba@[i] == seq![r, g, b, a][i - 4 * p]);
                    assert(i % 4 == i - 4 * p);
                } else {
                    assert(rgba@[i] == before[i]);
                }
            }
        }
        p = p + 1;
    }
    rgba
}

} // verus!
