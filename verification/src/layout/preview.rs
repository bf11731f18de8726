//! Thumbnails of layouts: the windows of a layout on a virtual monitor, as far
//! as they can be seen.
use super::cards::{
    Fan, calculate_fullscreen, calculate_monocle, calculate_vstack, fullscreen, monocle, vstack,
};
use super::columns::{
    bstack, calculate_bstack, calculate_centered_master, calculate_deck, calculate_fibonacci,
    calculate_three_col, calculate_tile, centered, deck, fibonacci, tile,
};
use super::grid::{calculate_grid, calculate_tatami, grid, tatami};
use super::laws::{
    bottom_stacks_stand, decks_stand, in_column, in_pile, in_row, in_spiral, seen, spirals_stand,
    tiles_stand,
};
use super::strip::{ScrollingParams, calculate_scrolling, inner, scrolling};
use super::{LayoutClient, LayoutParams, LayoutResult, narrow};
use crate::catalog::LayoutEnum;
use crate::geometry::{Rect, larger, saturated, smaller};
use vstd::prelude::*;

verus! {

/// The virtual monitor that thumbnails are computed on.
pub const PREVIEW_W: i32 = 1600;

pub const PREVIEW_H: i32 = 1000;

pub const PREVIEW_GAP: i32 = 28;

/// How many windows the thumbnail of a layout shows: six where the pattern
/// needs them, four elsewhere.
pub fn preview_window_count(layout: &LayoutEnum) -> (r: usize)
    ensures
        r == if *layout == LayoutEnum::TATAMI {
            6int
        } else {
            4
        },
{
    match layout {
        LayoutEnum::TATAMI => 6,
        _ => 4,
    }
}

/// Windows that nothing places: each a step further down and to the right.
pub open spec fn cascade_of(count: int) -> Seq<LayoutResult<usize>> {
    Seq::new(
        count as nat,
        |i: int|
            LayoutResult {
                key: i as usize,
                rect: Rect {
                    x: saturated(28 + i * 125) as i32,
                    y: saturated(28 + i * 125) as i32,
                    w: 800,
                    h: 555,
                },
            },
    )
}

/// The windows of the thumbnail of floating windows.
pub fn cascade(count: usize) -> (r: Vec<LayoutResult<usize>>)
    requires
        count <= i32::MAX,
    ensures
        r@ == cascade_of(count as int),
{
    let mut r: Vec<LayoutResult<usize>> = Vec::new();
    let mut i: usize = 0;
    while i < count
        invariant
            i <= count <= i32::MAX,
            r@ == cascade_of(count as int).take(i as int),
        decreases count - i,
    {
        let at: i32 = narrow(28 + (i as i64) * 125);
        r.push(LayoutResult { key: i, rect: Rect { x: at, y: at, w: 800, h: 555 } });
        proof {
            let whole = cascade_of(count as int);
            assert(whole.take(i + 1) =~= whole.take(i as int).push(whole[i as int]));
        }
        i = i + 1;
    }
    assert(cascade_of(count as int).take(i as int) =~= cascade_of(count as int));
    r
}

/// What shows of a rectangle on the virtual monitor: nothing of one without a
/// size, and nothing of a sliver under a fortieth of the monitor.
pub open spec fn shown(r: Rect) -> Option<Rect> {
    let x0 = larger(r.x as int, 0);
    let y0 = larger(r.y as int, 0);
    let x1 = smaller(r.x + r.w, 1600);
    let y1 = smaller(r.y + r.h, 1000);
    if r.w <= 0 || r.h <= 0 || x1 - x0 < 40 || y1 - y0 < 25 {
        None
    } else {
        Some(Rect { x: x0 as i32, y: y0 as i32, w: (x1 - x0) as i32, h: (y1 - y0) as i32 })
    }
}

fn show(r: Rect) -> (s: Option<Rect>)
    ensures
        s == shown(r),
{
    let x0: i64 = if r.x >= 0 { r.x as i64 } else { 0 };
    let y0: i64 = if r.y >= 0 { r.y as i64 } else { 0 };
    let right: i64 = r.x as i64 + r.w as i64;
    let bottom: i64 = r.y as i64 + r.h as i64;
    let x1: i64 = if right <= 1600 { right } else { 1600 };
    let y1: i64 = if bottom <= 1000 { bottom } else { 1000 };
    if r.w <= 0 || r.h <= 0 || x1 - x0 < 40 || y1 - y0 < 25 {
        None
    } else {
        Some(Rect { x: x0 as i32, y: y0 as i32, w: (x1 - x0) as i32, h: (y1 - y0) as i32 })
    }
}

/// What shows of windows in turn: one in the same place as the window before
/// it is not drawn again.
pub open spec fn frames_of<K>(results: Seq<LayoutResult<K>>) -> Seq<Rect>
    decreases results.len(),
{
    if results.len() == 0 {
        Seq::empty()
    } else {
        let before = results.drop_last();
        let frames = frames_of(before);
        if before.len() > 0 && before.last().rect == results.last().rect {
            frames
        } else {
            match shown(results.last().rect) {
                Some(r) => frames.push(r),
                None => frames,
            }
        }
    }
}

/// The frames of a thumbnail, in pixels of the virtual monitor.
pub fn visible_frames<K>(results: &Vec<LayoutResult<K>>) -> (frames: Vec<Rect>)
    ensures
        frames@ == frames_of(results@),
{
    let mut frames: Vec<Rect> = Vec::new();
    let mut i: usize = 0;
    while i < results.len()
        invariant
            i <= results@.len(),
            frames@ == frames_of(results@.take(i as int)),
        decreases results@.len() - i,
    {
        proof {
            assert(results@.take(i + 1).drop_last() =~= results@.take(i as int));
        }
        if i == 0 || results[i - 1].rect != results[i].rect {
            if let Some(r) = show(results[i].rect) {
                frames.push(r);
            }
        }
        i = i + 1;
    }
    assert(results@.take(i as int) =~= results@);
    frames
}

/// A rectangle on the virtual monitor, and no sliver.
pub open spec fn on_the_monitor(r: Rect) -> bool {
    0 <= r.x && 0 <= r.y && r.w >= 40 && r.h >= 25 && r.x + r.w <= 1600 && r.y + r.h <= 1000
}

/// Every frame of a thumbnail lies on the virtual monitor.
pub proof fn frames_stay_on_the_monitor<K>(results: Seq<LayoutResult<K>>)
    ensures
        forall|i: int|
            0 <= i < frames_of(results).len() ==> on_the_monitor(
                #[trigger] frames_of(results)[i],
            ),
    decreases results.len(),
{
    if results.len() > 0 {
        let earlier = frames_of(results.drop_last());
        frames_stay_on_the_monitor(results.drop_last());
        assert forall|i: int| 0 <= i < frames_of(results).len() implies on_the_monitor(
            #[trigger] frames_of(results)[i],
        ) by {
            if i < earlier.len() {
                assert(frames_of(results)[i] == earlier[i]);
            }
        }
    }
}

/// The measures of a thumbnail that come from fractions; each layout reads its
/// own.
#[derive(Debug)]
pub struct PreviewMeasures {
    /// What the master area takes.
    pub split: i32,
    /// The share of each window in its line.
    pub shares: Vec<Option<i32>>,
    /// The columns of a grid.
    pub cols: i32,
    pub fan: Fan,
    /// Where the columns of a strip stand, how wide they are, and how their
    /// windows share the height.
    pub strip_xs: Vec<i32>,
    pub strip_widths: Vec<i32>,
    pub strip_shares: Vec<Vec<Option<i32>>>,
}

/// The virtual monitor, one master on it.
pub open spec fn preview_params_of() -> LayoutParams {
    LayoutParams { screen_area: Rect { x: 0, y: 0, w: 1600, h: 1000 }, n_master: 1, gap: 28 }
}

/// The virtual monitor, one master on it.
pub fn preview_params() -> (r: LayoutParams)
    ensures
        r == preview_params_of(),
{
    LayoutParams {
        screen_area: Rect { x: 0, y: 0, w: PREVIEW_W, h: PREVIEW_H },
        n_master: 1,
        gap: PREVIEW_GAP,
    }
}

/// The windows of a thumbnail, without borders.
pub open spec fn preview_clients_of(count: int) -> Seq<LayoutClient<usize>> {
    Seq::new(count as nat, |i: int| LayoutClient { key: i as usize, border_w: 0 })
}

/// The windows of a thumbnail, without borders.
pub fn preview_clients(count: usize) -> (r: Vec<LayoutClient<usize>>)
    ensures
        r@ == preview_clients_of(count as int),
{
    let mut r: Vec<LayoutClient<usize>> = Vec::new();
    let mut i: usize = 0;
    while i < count
        invariant
            i <= count,
            r@ == preview_clients_of(i as int),
        decreases count - i,
    {
        r.push(LayoutClient { key: i, border_w: 0 });
        assert(r@ =~= preview_clients_of(i + 1));
        i = i + 1;
    }
    r
}

/// One column for each window.
pub open spec fn preview_columns_of(count: int) -> Seq<Seq<LayoutClient<usize>>> {
    Seq::new(
        count as nat,
        |i: int| Seq::empty().push(LayoutClient { key: i as usize, border_w: 0 }),
    )
}

/// One column for each window.
pub fn preview_columns(count: usize) -> (r: Vec<Vec<LayoutClient<usize>>>)
    ensures
        inner(r@) == preview_columns_of(count as int),
        r@.len() == count,
{
    let mut r: Vec<Vec<LayoutClient<usize>>> = Vec::new();
    let mut i: usize = 0;
    assert(inner(r@) =~= preview_columns_of(0));
    while i < count
        invariant
            i <= count,
            inner(r@) == preview_columns_of(i as int),
        decreases count - i,
    {
        let mut column: Vec<LayoutClient<usize>> = Vec::new();
        column.push(LayoutClient { key: i, border_w: 0 });
        let ghost before = r@;
        r.push(column);
        assert(inner(r@) =~= inner(before).push(column@));
        assert(preview_columns_of(i + 1) =~= preview_columns_of(i as int).push(column@));
        i = i + 1;
    }
    assert(inner(r@).len() == r@.len());
    r
}

/// How many windows a thumbnail asked for has: one at least.
pub open spec fn preview_count(count: int) -> int {
    larger(count, 1)
}

/// Whether the measures are those of a thumbnail of `n` windows.
pub open spec fn measures_fit(layout: LayoutEnum, n: int, m: PreviewMeasures) -> bool {
    &&& layout == LayoutEnum::GRID || (layout == LayoutEnum::TATAMI && n > 10) ==> 1 <= m.cols <= n
    &&& layout == LayoutEnum::SCROLLING ==> m.strip_xs@.len() == n && m.strip_widths@.len() == n
        && m.strip_shares@.len() == n
}

/// The windows of a thumbnail where the layout puts them; a layout that places
/// nothing shows a cascade.
pub open spec fn preview_of(
    layout: LayoutEnum,
    n: int,
    m: PreviewMeasures,
) -> Seq<LayoutResult<usize>> {
    let params = preview_params_of();
    let clients = preview_clients_of(n);
    match layout {
        LayoutEnum::TILE => tile(params, clients, m.split as int, m.shares@),
        LayoutEnum::FIBONACCI => fibonacci(params, clients, m.split as int, m.shares@),
        LayoutEnum::CENTERED_MASTER | LayoutEnum::THREE_COL => centered(
            params,
            clients,
            m.split as int,
            m.shares@,
            m.cols as int,
        ),
        LayoutEnum::BSTACK => bstack(params, clients, m.split as int, m.shares@, m.cols as int),
        LayoutEnum::GRID => grid(params, clients, m.cols as int),
        LayoutEnum::DECK => deck(params, clients, m.split as int, m.shares@),
        LayoutEnum::TATAMI => tatami(params, clients, m.cols as int),
        LayoutEnum::MONOCLE => monocle(params, clients),
        LayoutEnum::FULLSCREEN => fullscreen(params, clients),
        LayoutEnum::VSTACK => vstack(params, clients, m.fan),
        LayoutEnum::SCROLLING => scrolling(
            ScrollingParams { screen_area: params.screen_area, gap: params.gap },
            preview_columns_of(n),
            m.strip_xs@,
            m.strip_widths@,
            inner(m.strip_shares@),
        ),
        _ => cascade_of(n),
    }
}

/// The frames of the thumbnail of a layout, in pixels of the virtual monitor,
/// produced by the layout itself.
pub fn preview_frames(layout: &LayoutEnum, count: usize, m: &PreviewMeasures) -> (frames: Vec<Rect>)
    requires
        count <= i32::MAX,
        measures_fit(*layout, preview_count(count as int), *m),
    ensures
        frames@ == frames_of(preview_of(*layout, preview_count(count as int), *m)),
{
    let n: usize = if count >= 1 { count } else { 1 };
    let params = preview_params();
    let clients = preview_clients(n);
    let shares = m.shares.as_slice();
    let columns = preview_columns(n);
    let results = match layout {
        LayoutEnum::TILE => calculate_tile(&params, clients.as_slice(), m.split, shares),
        LayoutEnum::FIBONACCI => calculate_fibonacci(&params, clients.as_slice(), m.split, shares),
        LayoutEnum::CENTERED_MASTER => calculate_centered_master(
            &params,
            clients.as_slice(),
            m.split,
            shares,
            m.cols,
        ),
        LayoutEnum::THREE_COL => calculate_three_col(
            &params,
            clients.as_slice(),
            m.split,
            shares,
            m.cols,
        ),
        LayoutEnum::BSTACK => calculate_bstack(
            &params,
            clients.as_slice(),
            m.split,
            shares,
            m.cols,
        ),
        LayoutEnum::GRID => calculate_grid(&params, clients.as_slice(), m.cols),
        LayoutEnum::DECK => calculate_deck(&params, clients.as_slice(), m.split, shares),
        LayoutEnum::TATAMI => calculate_tatami(&params, clients.as_slice(), m.cols),
        LayoutEnum::MONOCLE => calculate_monocle(&params, clients.as_slice()),
        LayoutEnum::FULLSCREEN => calculate_fullscreen(&params, clients.as_slice()),
        LayoutEnum::VSTACK => calculate_vstack(&params, clients.as_slice(), &m.fan),
        LayoutEnum::SCROLLING => calculate_scrolling(
            &ScrollingParams { screen_area: params.screen_area, gap: params.gap },
            columns.as_slice(),
            m.strip_xs.as_slice(),
            m.strip_widths.as_slice(),
            m.strip_shares.as_slice(),
        ),
        _ => cascade(n),
    };
    proof {
        assert(results@ == preview_of(*layout, n as int, *m));
    }
    visible_frames(&results)
}

/// Floating windows of a thumbnail stand one step further down and to the right
/// each, all of one size.
pub proof fn a_cascade_goes_down_and_right(count: int, i: int)
    requires
        0 <= i,
        i + 1 < count <= 0x100_0000,
    ensures
        ({
            let all = cascade_of(count);
            let (a, b) = (all[i].rect, all[i + 1].rect);
            &&& all.len() == count
            &&& all[i].key == i
            &&& b.x == a.x + 125 && b.y == a.y + 125
            &&& b.w == a.w && b.h == a.h
            &&& all[0].rect.x == 28 && all[0].rect.y == 28
            &&& all[0].rect.w == 800 && all[0].rect.h == 555
        }),
{
}

/// A frame is the part of a window on the virtual monitor: all of a window that
/// lies on it, and nothing of one that lies beside it or shows a sliver only.
pub proof fn frames_are_the_visible_parts(r: Rect)
    ensures
        on_the_monitor(r) ==> shown(r) == Some(r),
        shown(r) is Some ==> {
            let s = shown(r)->0;
            &&& on_the_monitor(s)
            &&& r.x <= s.x && r.y <= s.y
            &&& s.x + s.w <= r.x + r.w && s.y + s.h <= r.y + r.h
            &&& s.x == r.x || s.x == 0
            &&& s.y == r.y || s.y == 0
            &&& s.x + s.w == r.x + r.w || s.x + s.w == 1600
            &&& s.y + s.h == r.y + r.h || s.y + s.h == 1000
        },
        r.x + r.w <= 0 || r.x >= 1600 || r.y + r.h <= 0 || r.y >= 1000 ==> shown(r) is None,
{
}

/// Windows that all lie on the virtual monitor, none where the one before it is,
/// have one frame each, in order.
pub proof fn every_window_has_its_frame<K>(results: Seq<LayoutResult<K>>)
    requires
        forall|i: int| 0 <= i < results.len() ==> on_the_monitor((#[trigger] results[i]).rect),
        forall|i: int|
            1 <= i < results.len() ==> (#[trigger] results[i]).rect != results[i - 1].rect,
    ensures
        frames_of(results).len() == results.len(),
        forall|i: int|
            0 <= i < results.len() ==> #[trigger] frames_of(results)[i] == results[i].rect,
    decreases results.len(),
{
    if results.len() > 0 {
        let before = results.drop_last();
        assert(forall|i: int| 0 <= i < before.len() ==> #[trigger] before[i] == results[i]);
        every_window_has_its_frame(before);
        let last = results[results.len() - 1];
        assert(last == results.last());
        frames_are_the_visible_parts(last.rect);
    }
}

/// The thumbnails of the layouts for one window at a time show it on all of
/// the virtual monitor.
pub proof fn single_thumbnails_fill_the_monitor(n: int, m: PreviewMeasures, i: int)
    requires
        0 <= i < n <= i32::MAX,
    ensures
        preview_of(LayoutEnum::FULLSCREEN, n, m)[i].rect == (Rect { x: 0, y: 0, w: 1600, h: 1000 }),
        preview_of(LayoutEnum::MONOCLE, n, m)[i].rect == (Rect { x: 0, y: 0, w: 1600, h: 1000 }),
{
}

/// Whether a window and the one before it are whole in a thumbnail.
pub open spec fn seen_in(layout: LayoutEnum, n: int, m: PreviewMeasures, i: int) -> bool {
    let results = preview_of(layout, n, m);
    let clients = preview_clients_of(n);
    let screen = preview_params_of().screen_area;
    seen(results, clients, screen, i) && (i > 0 ==> seen(results, clients, screen, i - 1))
}

/// The thumbnail of the tile layout has its master at the left and the others in
/// a column beside it.
pub proof fn tile_thumbnails_have_two_columns(n: int, m: PreviewMeasures, i: int)
    requires
        0 <= i < n <= i32::MAX,
        2 <= n,
        0 <= m.split <= 1600,
        seen_in(LayoutEnum::TILE, n, m, i),
    ensures
        ({
            let results = preview_of(LayoutEnum::TILE, n, m);
            let clients = preview_clients_of(n);
            if i == 0 {
                in_column(results, clients, i, true, 28, 28, m.split as int, 28)
            } else {
                in_column(results, clients, i, i == 1, 56 + m.split, 28, 1516 - m.split, 28)
            }
        }),
{
    tiles_stand(preview_params_of(), preview_clients_of(n), m.split, m.shares@, i);
}

/// The thumbnail of the bottom stack has its master at the top and the others in
/// a row below it.
pub proof fn bottom_stack_thumbnails_have_two_rows(n: int, m: PreviewMeasures, i: int)
    requires
        0 <= i < n,
        2 <= n <= 5,
        0 <= m.split < 916,
        seen_in(LayoutEnum::BSTACK, n, m, i),
    ensures
        ({
            let results = preview_of(LayoutEnum::BSTACK, n, m);
            let clients = preview_clients_of(n);
            if i == 0 {
                in_row(results, clients, i, true, 28, 28, m.split as int, 28)
            } else {
                in_row(results, clients, i, i == 1, 28, 56 + m.split, 916 - m.split, 28)
            }
        }),
{
    bottom_stacks_stand(
        preview_params_of(),
        preview_clients_of(n),
        m.split,
        m.shares@,
        m.cols as int,
        i,
    );
}

/// The thumbnails of the deck and of the fibonacci layout have their master at
/// the left; beside it the one shows a pile, the other a spiral of halves.
pub proof fn piles_and_spirals_differ(n: int, m: PreviewMeasures, i: int)
    requires
        1 <= i < n <= i32::MAX,
        0 <= m.split <= 1600,
    ensures
        seen_in(LayoutEnum::DECK, n, m, i) ==> in_pile(
            preview_of(LayoutEnum::DECK, n, m),
            preview_clients_of(n),
            i,
            i - 1,
            56 + m.split,
            28,
            1572,
            972,
            28,
        ),
        seen_in(LayoutEnum::FIBONACCI, n, m, i) ==> in_spiral(
            preview_of(LayoutEnum::FIBONACCI, n, m),
            preview_clients_of(n),
            i,
            i - 1,
            56 + m.split,
            28,
            1572,
            972,
            28,
        ),
{
    let params = preview_params_of();
    let clients = preview_clients_of(n);
    if seen_in(LayoutEnum::DECK, n, m, i) {
        decks_stand(params, clients, m.split, m.shares@, i);
    }
    if seen_in(LayoutEnum::FIBONACCI, n, m, i) {
        spirals_stand(params, clients, m.split, m.shares@, i);
    }
}

} // verus!
