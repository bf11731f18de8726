//! Layouts whose windows lie over each other: monocle, fullscreen and the
//! v-stack.
use super::{
    LayoutClient, LayoutParams, LayoutResult, all_visible, area_in, bounded_gap, client_rect,
    divide, framed, gap_in, in_order, narrow, quotient, usable_area,
};
use crate::geometry::{Rect, larger, saturated, smaller};
use vstd::prelude::*;

verus! {

/// The monocle layout: every window fills the work area, without gaps.
pub open spec fn monocle<K>(
    params: LayoutParams,
    clients: Seq<LayoutClient<K>>,
) -> Seq<LayoutResult<K>> {
    let area = params.screen_area;
    Seq::new(
        clients.len(),
        |i: int|
            LayoutResult {
                key: clients[i].key,
                rect: framed(
                    area.x as int,
                    area.y as int,
                    area.w as int,
                    area.h as int,
                    clients[i].border_w as int,
                ),
            },
    )
}

/// Places the windows in the monocle layout.
pub fn calculate_monocle<K: Copy>(
    params: &LayoutParams,
    clients: &[LayoutClient<K>],
) -> (results: Vec<LayoutResult<K>>)
    ensures
        results@ == monocle(*params, clients@),
        in_order(results@, clients@),
        all_visible(results@),
{
    let area = params.screen_area;
    let mut results: Vec<LayoutResult<K>> = Vec::new();
    let mut i: usize = 0;
    while i < clients.len()
        invariant
            i <= clients@.len(),
            area == params.screen_area,
            results@ == monocle(*params, clients@).take(i as int),
        decreases clients@.len() - i,
    {
        let c = clients[i];
        let rect = client_rect(
            area.x as i64,
            area.y as i64,
            area.w as i64,
            area.h as i64,
            c.border_w,
        );
        results.push(LayoutResult { key: c.key, rect });
        proof {
            let whole = monocle(*params, clients@);
            assert(whole.take(i + 1) =~= whole.take(i as int).push(whole[i as int]));
        }
        i = i + 1;
    }
    assert(monocle(*params, clients@).take(i as int) =~= monocle(*params, clients@));
    results
}

/// The fullscreen layout: every window is the screen, border and all.
pub open spec fn fullscreen<K>(
    params: LayoutParams,
    clients: Seq<LayoutClient<K>>,
) -> Seq<LayoutResult<K>> {
    Seq::new(
        clients.len(),
        |i: int| LayoutResult { key: clients[i].key, rect: params.screen_area },
    )
}

/// Places the windows in the fullscreen layout.
pub fn calculate_fullscreen<K: Copy>(
    params: &LayoutParams,
    clients: &[LayoutClient<K>],
) -> (results: Vec<LayoutResult<K>>)
    ensures
        results@ == fullscreen(*params, clients@),
        in_order(results@, clients@),
{
    let mut results: Vec<LayoutResult<K>> = Vec::new();
    let mut i: usize = 0;
    while i < clients.len()
        invariant
            i <= clients@.len(),
            results@ == fullscreen(*params, clients@).take(i as int),
        decreases clients@.len() - i,
    {
        results.push(LayoutResult { key: clients[i].key, rect: params.screen_area });
        proof {
            let whole = fullscreen(*params, clients@);
            assert(whole.take(i + 1) =~= whole.take(i as int).push(whole[i as int]));
        }
        i = i + 1;
    }
    assert(fullscreen(*params, clients@).take(i as int) =~= fullscreen(*params, clients@));
    results
}

/// The measures of a v-stack that come from fractions.
#[derive(Debug, Clone, Copy)]
pub struct Fan {
    /// Size of a window, border included.
    pub card_w: i32,
    pub card_h: i32,
    /// The widest step sideways that still keeps the topmost window on screen.
    pub steep: i32,
    /// How far up one step goes.
    pub rise: i32,
}

/// How far out the outermost window stands.
pub open spec fn depth_of(n: int) -> int {
    if n <= 1 {
        1
    } else {
        n / 2
    }
}

/// How far sideways one step goes: as far as both arms stay on the screen, but
/// at least a gap.
pub open spec fn step_of(params: LayoutParams, n: int, card_w: int, steep: int) -> int {
    let area = area_in(params.screen_area, params.gap as int);
    larger(
        smaller(quotient(area.w - card_w, 2 * depth_of(n)), steep),
        gap_in(params.screen_area, params.gap as int),
    )
}

/// How many steps up the V the outermost window of `n` stands.
pub fn fan_depth(n: usize) -> (r: usize)
    ensures
        r == depth_of(n as int),
        1 <= r <= n || r == 1,
{
    if n <= 1 { 1 } else { n / 2 }
}

/// How far sideways one step of the V goes.
pub fn fan_step(params: &LayoutParams, n: usize, card_w: i32, steep: i32) -> (r: i32)
    requires
        n <= i32::MAX,
    ensures
        r == step_of(*params, n as int, card_w as int, steep as int),
        0 <= r,
{
    let area = usable_area(params.screen_area, params.gap);
    let gap: i32 = bounded_gap(params.screen_area, params.gap);
    let room: i64 = area.w as i64 - card_w as i64;
    let wide: i64 = divide(room, 2 * (fan_depth(n) as i64));
    let low: i64 = if wide <= steep as i64 { wide } else { steep as i64 };
    if low >= gap as i64 { low as i32 } else { gap }
}

/// Corner of window `i` in the V: the first at the bottom in the middle, the
/// others up to the right and to the left by turns.
pub open spec fn corner(params: LayoutParams, n: int, fan: Fan, i: int) -> (int, int) {
    let area = area_in(params.screen_area, params.gap as int);
    let x = area.x + quotient(area.w - fan.card_w, 2);
    let y = area.y + area.h - fan.card_h;
    let depth = (i + 1) / 2;
    let dx = depth * step_of(params, n, fan.card_w as int, fan.steep as int);
    if i % 2 == 1 {
        (x + dx, y - depth * fan.rise)
    } else {
        (x - dx, y - depth * fan.rise)
    }
}

/// The v-stack layout.
pub open spec fn vstack<K>(
    params: LayoutParams,
    clients: Seq<LayoutClient<K>>,
    fan: Fan,
) -> Seq<LayoutResult<K>> {
    Seq::new(
        clients.len(),
        |i: int|
            {
                let (x, y) = corner(params, clients.len() as int, fan, i);
                let border = 2 * clients[i].border_w;
                LayoutResult {
                    key: clients[i].key,
                    rect: Rect {
                        x: saturated(x) as i32,
                        y: saturated(y) as i32,
                        w: saturated(larger(fan.card_w - border, 1)) as i32,
                        h: saturated(larger(fan.card_h - border, 1)) as i32,
                    },
                }
            },
    )
}

/// Places the windows in the v-stack layout.
pub fn calculate_vstack<K: Copy>(
    params: &LayoutParams,
    clients: &[LayoutClient<K>],
    fan: &Fan,
) -> (results: Vec<LayoutResult<K>>)
    requires
        clients@.len() <= i32::MAX,
    ensures
        results@ == vstack(*params, clients@, *fan),
        in_order(results@, clients@),
        all_visible(results@),
{
    let mut results: Vec<LayoutResult<K>> = Vec::new();
    let area = usable_area(params.screen_area, params.gap);
    let n: usize = clients.len();
    let (card_w, card_h): (i64, i64) = (fan.card_w as i64, fan.card_h as i64);
    let x0: i64 = area.x as i64 + divide(area.w as i64 - card_w, 2);
    let y0: i64 = area.y as i64 + area.h as i64 - card_h;
    let step: i64 = fan_step(params, n, fan.card_w, fan.steep) as i64;
    let rise: i64 = fan.rise as i64;
    let ghost whole = vstack(*params, clients@, *fan);
    let mut i: usize = 0;
    while i < n
        invariant
            i <= n == clients@.len() <= i32::MAX,
            area == area_in(params.screen_area, params.gap as int),
            card_w == fan.card_w,
            card_h == fan.card_h,
            x0 == area.x + quotient(area.w - fan.card_w, 2),
            -10000000000 <= x0 <= 10000000000,
            y0 == area.y + area.h - fan.card_h,
            -10000000000 <= y0 <= 10000000000,
            step == step_of(*params, n as int, fan.card_w as int, fan.steep as int),
            0 <= step <= i32::MAX,
            rise == fan.rise,
            whole == vstack(*params, clients@, *fan),
            results@ == whole.take(i as int),
        decreases n - i,
    {
        let c = clients[i];
        let depth: i64 = ((i + 1) / 2) as i64;
        assert(0 <= depth * step <= 2305843009213693952) by (nonlinear_arith)
            requires
                0 <= depth <= 1073741824,
                0 <= step <= 2147483648,
        ;
        assert(-2305843009213693952 <= depth * rise <= 2305843009213693952) by (nonlinear_arith)
            requires
                0 <= depth <= 1073741824,
                -2147483648 <= rise <= 2147483648,
        ;
        let dx: i64 = depth * step;
        let dy: i64 = depth * rise;
        let border: i64 = 2 * (c.border_w as i64);
        let inner_w: i64 = card_w - border;
        let inner_h: i64 = card_h - border;
        let rect = Rect {
            x: narrow(if i % 2 == 1 { x0 + dx } else { x0 - dx }),
            y: narrow(y0 - dy),
            w: narrow(if inner_w >= 1 { inner_w } else { 1 }),
            h: narrow(if inner_h >= 1 { inner_h } else { 1 }),
        };
        results.push(LayoutResult { key: c.key, rect });
        proof {
            assert(whole[i as int].rect == rect);
            assert(whole.take(i + 1) =~= whole.take(i as int).push(whole[i as int]));
        }
        i = i + 1;
    }
    assert(whole.take(i as int) =~= whole);
    results
}

/// While a step of a gap fits and the V does not rise beyond the top, every
/// window of the v-stack stays in the usable area, border and all.
pub proof fn cards_stay_inside<K>(
    params: LayoutParams,
    clients: Seq<LayoutClient<K>>,
    fan: Fan,
    i: int,
)
    requires
        0 <= i < clients.len(),
        ({
            let area = area_in(params.screen_area, params.gap as int);
            &&& area.x + area.w <= i32::MAX
            &&& area.y + area.h <= i32::MAX
            &&& fan.card_w <= area.w
            &&& fan.card_h <= area.h
            &&& gap_in(params.screen_area, params.gap as int) <= quotient(
                area.w - fan.card_w,
                2 * depth_of(clients.len() as int),
            )
            &&& 0 <= fan.rise
            &&& depth_of(clients.len() as int) * fan.rise <= area.h - fan.card_h
        }),
        0 <= clients[i].border_w,
        2 * clients[i].border_w < fan.card_w,
        2 * clients[i].border_w < fan.card_h,
    ensures
        ({
            let area = area_in(params.screen_area, params.gap as int);
            let r = vstack(params, clients, fan)[i].rect;
            let border = 2 * clients[i].border_w;
            &&& area.x <= r.x
            &&& r.x + r.w + border <= area.x + area.w
            &&& area.y <= r.y
            &&& r.y + r.h + border <= area.y + area.h
        }),
{
    let n = clients.len() as int;
    let area = area_in(params.screen_area, params.gap as int);
    let room = area.w - fan.card_w;
    let deepest = depth_of(n);
    let step = step_of(params, n, fan.card_w as int, fan.steep as int);
    let depth = (i + 1) / 2;
    assert(0 <= depth <= deepest);
    let widest = quotient(room, 2 * deepest);
    assert(0 <= step <= widest);
    assert(widest == room / (2 * deepest));
    vstd::arithmetic::div_mod::lemma_fundamental_div_mod(room, 2 * deepest);
    vstd::arithmetic::div_mod::lemma_mod_bound(room, 2 * deepest);
    assert(0 <= 2 * (depth * step) <= room) by (nonlinear_arith)
        requires
            0 <= depth <= deepest,
            0 <= step <= widest,
            room == (2 * deepest) * widest + room % (2 * deepest),
            0 <= room % (2 * deepest),
    ;
    assert(0 <= depth * fan.rise <= deepest * fan.rise) by (nonlinear_arith)
        requires
            0 <= depth <= deepest,
            0 <= fan.rise,
    ;
}

} // verus!
