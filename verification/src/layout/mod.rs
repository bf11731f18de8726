//! Where a layout puts its windows.
//!
//! Everything here is whole pixels. What a layout takes from a fraction, the
//! extent of the master area or the share of one window in its line, is handed
//! in as the pixels it came to: the caller multiplies, the layout places.
pub mod cards;
pub mod columns;
pub mod grid;
pub mod laws;
pub mod preview;
pub mod spread;
pub mod strip;

use crate::geometry::{Rect, clamped, larger, saturated, smaller};
use vstd::prelude::*;

verus! {

/// One window to be placed.
#[derive(Debug, Clone, Copy)]
pub struct LayoutClient<K> {
    pub key: K,
    /// Width of the border that is drawn around it.
    pub border_w: i32,
}

/// What a layout has to work with.
#[derive(Debug, Clone, Copy)]
pub struct LayoutParams {
    pub screen_area: Rect,
    pub n_master: u32,
    pub gap: i32,
}

/// Where one window goes.
#[derive(Debug, Clone, Copy)]
pub struct LayoutResult<K> {
    pub key: K,
    pub rect: Rect,
}

/// The shorter side of a screen, never below zero.
pub open spec fn shortest_side(screen: Rect) -> int {
    smaller(larger(screen.w as int, 0), larger(screen.h as int, 0))
}

/// The gap as it is used: never negative, never above half the shorter side.
pub open spec fn gap_in(screen: Rect, gap: int) -> int {
    clamped(gap, 0, shortest_side(screen) / 2)
}

/// The screen without its outer margin.
pub open spec fn area_in(screen: Rect, gap: int) -> Rect {
    let g = gap_in(screen, gap);
    Rect {
        x: saturated(screen.x + g) as i32,
        y: saturated(screen.y + g) as i32,
        w: larger(screen.w - 2 * g, 1) as i32,
        h: larger(screen.h - 2 * g, 1) as i32,
    }
}

/// The rectangle of a window whose border takes room on both sides: at least
/// one pixel is left, and every number stays in range.
pub open spec fn framed(x: int, y: int, w: int, h: int, border_w: int) -> Rect {
    let border = 2 * larger(border_w, 0);
    Rect {
        x: saturated(x) as i32,
        y: saturated(y) as i32,
        w: saturated(larger(w - border, 1)) as i32,
        h: saturated(larger(h - border, 1)) as i32,
    }
}

/// Division that drops the fraction, whichever way zero lies.
pub open spec fn quotient(a: int, b: int) -> int {
    if a >= 0 {
        a / b
    } else {
        -((-a) / b)
    }
}

/// `results` holds the windows of `clients`, in that order.
pub open spec fn in_order<K>(results: Seq<LayoutResult<K>>, clients: Seq<LayoutClient<K>>) -> bool {
    &&& results.len() == clients.len()
    &&& forall|i: int| 0 <= i < clients.len() ==> (#[trigger] results[i]).key == clients[i].key
}

/// Every rectangle has a width and a height.
pub open spec fn all_visible<K>(results: Seq<LayoutResult<K>>) -> bool {
    forall|i: int|
        0 <= i < results.len() ==> (#[trigger] results[i]).rect.w >= 1 && results[i].rect.h >= 1
}

/// A number brought into the range of a coordinate.
pub(crate) fn narrow(v: i64) -> (r: i32)
    ensures
        r == saturated(v as int),
{
    if v > 2147483647 {
        i32::MAX
    } else if v < -2147483648 {
        i32::MIN
    } else {
        v as i32
    }
}

/// `a` by `b`, without the fraction.
pub(crate) fn divide(a: i64, b: i64) -> (r: i64)
    requires
        a > i64::MIN,
        b > 0,
    ensures
        r == quotient(a as int, b as int),
        a >= 0 ==> 0 <= r <= a,
        a < 0 ==> a <= r <= 0,
{
    if a >= 0 {
        proof {
            vstd::arithmetic::div_mod::lemma_div_is_ordered_by_denominator(a as int, 1, b as int);
            vstd::arithmetic::div_mod::lemma_div_basics_2(a as int);
            vstd::arithmetic::div_mod::lemma_div_pos_is_pos(a as int, b as int);
        }
        a / b
    } else {
        let m: i64 = -a;
        proof {
            vstd::arithmetic::div_mod::lemma_div_is_ordered_by_denominator(m as int, 1, b as int);
            vstd::arithmetic::div_mod::lemma_div_basics_2(m as int);
            vstd::arithmetic::div_mod::lemma_div_pos_is_pos(m as int, b as int);
        }
        -(m / b)
    }
}

/// The gap that is used on this screen.
pub fn bounded_gap(screen_area: Rect, gap: i32) -> (r: i32)
    ensures
        r == gap_in(screen_area, gap as int),
        0 <= r <= 1073741823,
{
    let w: i32 = if screen_area.w >= 0 { screen_area.w } else { 0 };
    let h: i32 = if screen_area.h >= 0 { screen_area.h } else { 0 };
    let limit: i32 = if w <= h { w / 2 } else { h / 2 };
    if gap < 0 {
        0
    } else if gap > limit {
        limit
    } else {
        gap
    }
}

/// What is left of the screen inside the outer margin.
pub fn usable_area(screen_area: Rect, gap: i32) -> (r: Rect)
    ensures
        r == area_in(screen_area, gap as int),
        r.w >= 1,
        r.h >= 1,
{
    let g: i32 = bounded_gap(screen_area, gap);
    let w: i64 = screen_area.w as i64 - 2 * (g as i64);
    let h: i64 = screen_area.h as i64 - 2 * (g as i64);
    Rect {
        x: narrow(screen_area.x as i64 + g as i64),
        y: narrow(screen_area.y as i64 + g as i64),
        w: if w >= 1 { w as i32 } else { 1 },
        h: if h >= 1 { h as i32 } else { 1 },
    }
}

/// The rectangle of one window of this size and border.
pub(crate) fn client_rect(x: i64, y: i64, w: i64, h: i64, border_w: i32) -> (r: Rect)
    requires
        -9000000000000000000 <= w <= 9000000000000000000,
        -9000000000000000000 <= h <= 9000000000000000000,
    ensures
        r == framed(x as int, y as int, w as int, h as int, border_w as int),
        r.w >= 1,
        r.h >= 1,
{
    let border: i64 = if border_w > 0 { 2 * (border_w as i64) } else { 0 };
    let inner_w: i64 = w - border;
    let inner_h: i64 = h - border;
    Rect {
        x: narrow(x),
        y: narrow(y),
        w: narrow(if inner_w >= 1 { inner_w } else { 1 }),
        h: narrow(if inner_h >= 1 { inner_h } else { 1 }),
    }
}

/// However wide the gap, the usable area lies on the screen and has at least a
/// pixel.
pub proof fn the_usable_area_is_on_screen(screen: Rect, gap: int)
    requires
        screen.w >= 1,
        screen.h >= 1,
        screen.x + screen.w <= i32::MAX,
        screen.y + screen.h <= i32::MAX,
    ensures
        ({
            let area = area_in(screen, gap);
            &&& screen.x <= area.x
            &&& area.x + area.w <= screen.x + screen.w
            &&& screen.y <= area.y
            &&& area.y + area.h <= screen.y + screen.h
            &&& area.w >= 1
            &&& area.h >= 1
        }),
{
}

/// A quotient is what is left of the real one without its fraction, on either
/// side of zero.
pub proof fn quotients_drop_the_fraction(a: int, b: int)
    requires
        b > 0,
    ensures
        a >= 0 ==> b * quotient(a, b) <= a < b * quotient(a, b) + b,
        a <= 0 ==> b * quotient(a, b) - b < a <= b * quotient(a, b),
        quotient(-a, b) == -quotient(a, b),
{
    let m = if a >= 0 {
        a
    } else {
        -a
    };
    vstd::arithmetic::div_mod::lemma_fundamental_div_mod(m, b);
    vstd::arithmetic::div_mod::lemma_fundamental_div_mod(0, b);
    assert(b * (-(m / b)) == -(b * (m / b))) by (nonlinear_arith);
    vstd::arithmetic::div_mod::lemma_div_basics(b);
}

/// A gap is used as it is asked for while the screen has room for it on both
/// sides of its shorter side, and the margins are that wide.
pub proof fn margins_are_one_gap(screen: Rect, gap: i32)
    ensures
        gap <= 0 ==> gap_in(screen, gap as int) == 0,
        0 <= gap && 2 * gap <= screen.w && 2 * gap <= screen.h ==> gap_in(screen, gap as int)
            == gap,
        screen.w >= 0 && screen.h >= 0 ==> 2 * gap_in(screen, gap as int) <= screen.w && 2
            * gap_in(screen, gap as int) <= screen.h,
        0 <= gap && 2 * gap < screen.w && 2 * gap < screen.h && screen.x + gap <= i32::MAX
            && screen.y + gap <= i32::MAX ==> {
            let area = area_in(screen, gap as int);
            &&& area.x == screen.x + gap
            &&& area.y == screen.y + gap
            &&& area.x + area.w + gap == screen.x + screen.w
            &&& area.y + area.h + gap == screen.y + screen.h
        },
{
}

} // verus!
