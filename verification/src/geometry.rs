//! Anchor positions of a window on the primary display.

use vstd::prelude::*;

verus! {

/// Width of the display that is assumed when the primary display is unknown.
pub const FALLBACK_SCREEN_WIDTH: u32 = 1920;

/// Height of the display that is assumed when the primary display is unknown.
pub const FALLBACK_SCREEN_HEIGHT: u32 = 1080;

/// Half of `d`, rounded toward zero.
pub open spec fn half_toward_zero(d: int) -> int {
    if d >= 0 {
        d / 2
    } else {
        -((-d) / 2)
    }
}

/// The position that centres a window on a screen.
pub open spec fn center_spec(screen_w: int, screen_h: int, win_w: int, win_h: int) -> (int, int) {
    (half_toward_zero(screen_w - win_w), half_toward_zero(screen_h - win_h))
}

/// The position that centres a window horizontally and keeps its lower edge
/// `margin_bottom` above the lower edge of the screen.
pub open spec fn bottom_center_spec(
    screen_w: int,
    screen_h: int,
    win_w: int,
    win_h: int,
    margin_bottom: int,
) -> (int, int) {
    (half_toward_zero(screen_w - win_w), screen_h - win_h - margin_bottom)
}

/// The screen size to lay windows out on: the primary display's where it is
/// known, the fallback resolution otherwise.
pub open spec fn resolve_screen_spec(primary: Option<(u32, u32)>) -> (u32, u32) {
    match primary {
        Some(size) => size,
        None => (FALLBACK_SCREEN_WIDTH, FALLBACK_SCREEN_HEIGHT),
    }
}

fn half(d: i64) -> (h: i64)
    requires
        -0x1_0000_0000 < d < 0x1_0000_0000,
    ensures
        h == half_toward_zero(d as int),
{
    if d >= 0 {
        d / 2
    } else {
        -((-d) / 2)
    }
}

/// Centres a window of `win_w` by `win_h` on a screen of `screen_w` by
/// `screen_h`. A window larger than the screen gets a negative coordinate.
pub fn center(screen_w: u32, screen_h: u32, win_w: u32, win_h: u32) -> (pos: (i64, i64))
    ensures
        pos.0 == center_spec(screen_w as int, screen_h as int, win_w as int, win_h as int).0,
        pos.1 == center_spec(screen_w as int, screen_h as int, win_w as int, win_h as int).1,
{
    let dx: i64 = screen_w as i64 - win_w as i64;
    let dy: i64 = screen_h as i64 - win_h as i64;
    (half(dx), half(dy))
}

/// Places a window at the bottom centre of the screen, `margin_bottom` above
/// the lower edge.
pub fn bottom_center(screen_w: u32, screen_h: u32, win_w: u32, win_h: u32, margin_bottom: u32) -> (pos:
    (i64, i64))
    ensures
        pos.0 == bottom_center_spec(
            screen_w as int,
            screen_h as int,
            win_w as int,
            win_h as int,
            margin_bottom as int,
        ).0,
        pos.1 == bottom_center_spec(
            screen_w as int,
            screen_h as int,
            win_w as int,
            win_h as int,
            margin_bottom as int,
        ).1,
{
    let dx: i64 = screen_w as i64 - win_w as i64;
    let y: i64 = screen_h as i64 - win_h as i64 - margin_bottom as i64;
    (half(dx), y)
}

/// Substitutes the fallback resolution where the primary display is unknown.
pub fn resolve_screen(primary: Option<(u32, u32)>) -> (size: (u32, u32))
    ensures
        size == resolve_screen_spec(primary),
{
    match primary {
        Some(size) => size,
        None => (FALLBACK_SCREEN_WIDTH, FALLBACK_SCREEN_HEIGHT),
    }
}

/// The coordinate `v` as the platform takes it: in 32 bits, the nearest
/// bound where `v` lies beyond one.
pub open spec fn physical_spec(v: int) -> int {
    if v < i32::MIN {
        i32::MIN as int
    } else if v > i32::MAX {
        i32::MAX as int
    } else {
        v
    }
}

/// Brings a coordinate into the 32 bits that the platform takes; a value
/// beyond a bound becomes that bound.
pub fn to_physical(v: i64) -> (p: i32)
    ensures
        p == physical_spec(v as int),
{
    if v < -2147483648 {
        -2147483648
    } else if v > 2147483647 {
        2147483647
    } else {
        v as i32
    }
}

} // verus!