//! The scrolling layout: columns side by side in a strip that is wider than
//! the screen.
use super::{
    LayoutClient, LayoutResult, all_visible, bounded_gap, client_rect, divide, framed, gap_in,
    narrow,
};
use crate::geometry::{Rect, larger, saturated, smaller};
use crate::ieee::F32;
use vstd::prelude::*;

verus! {

/// What the strip has to work with.
#[derive(Debug, Clone, Copy)]
pub struct ScrollingParams {
    pub screen_area: Rect,
    pub gap: i32,
}

/// How wide a column is for what a standard one is: a quarter at least, and
/// two and a half times at most.
pub fn width_factor(factor: F32) -> (r: F32)
    ensures
        r == factor.clamped(F32 { bits: 0x3E80_0000 }, F32 { bits: 0x4020_0000 }),
{
    factor.clamp(F32 { bits: 0x3E80_0000 }, F32 { bits: 0x4020_0000 })
}

/// A column is at least one pixel wide.
pub fn column_width(width: i32) -> (r: i32)
    ensures
        r == larger(width as int, 1),
{
    if width >= 1 { width } else { 1 }
}

/// Where column `i` begins in the strip: after the columns before it, and a
/// gap after each.
pub open spec fn begins_at(widths: Seq<i32>, gap: int, i: int) -> int
    decreases i,
{
    if i <= 0 {
        0
    } else {
        saturated(
            saturated(begins_at(widths, gap, i - 1) + larger(widths[i - 1] as int, 1)) + gap,
        )
    }
}

/// Where each column of the strip begins.
pub fn column_positions(params: &ScrollingParams, widths: &[i32]) -> (r: Vec<i32>)
    ensures
        r@.len() == widths@.len(),
        forall|i: int|
            0 <= i < widths@.len() ==> #[trigger] r@[i] == begins_at(
                widths@,
                gap_in(params.screen_area, params.gap as int),
                i,
            ),
{
    let gap: i32 = bounded_gap(params.screen_area, params.gap);
    let mut r: Vec<i32> = Vec::new();
    let mut cursor: i32 = 0;
    let mut i: usize = 0;
    while i < widths.len()
        invariant
            i <= widths@.len(),
            gap == gap_in(params.screen_area, params.gap as int),
            r@.len() == i,
            cursor == begins_at(widths@, gap as int, i as int),
            forall|j: int| 0 <= j < i ==> #[trigger] r@[j] == begins_at(widths@, gap as int, j),
        decreases widths@.len() - i,
    {
        r.push(cursor);
        cursor = narrow(cursor as i64 + column_width(widths[i]) as i64);
        cursor = narrow(cursor as i64 + gap as i64);
        i = i + 1;
    }
    r
}

/// The column that has the focus, where there are `count`.
pub fn focused_column(focus: usize, count: usize) -> (r: usize)
    requires
        count > 0,
    ensures
        r == smaller(focus as int, count - 1),
{
    if focus < count { focus } else { count - 1 }
}

/// The height that the windows of a column share.
pub open spec fn column_height(params: ScrollingParams, count: int) -> int {
    let gap = gap_in(params.screen_area, params.gap as int);
    let inner = saturated(smaller(larger(count - 1, 0), i32::MAX as int) * gap);
    larger(larger(params.screen_area.h - 2 * gap, 0) - inner, 0)
}

/// The height of window `j` of `count`, where `used` is taken: its share, or
/// an even part of what is left.
pub open spec fn window_height(height: int, used: int, j: int, count: int, share: Option<i32>) -> int {
    match share {
        Some(h) => h as int,
        None => larger(height - used, 0) / smaller(count - j, i32::MAX as int),
    }
}

/// The share of window `j`; one that is not listed has none.
pub open spec fn listed(shares: Seq<Option<i32>>, j: int) -> Option<i32> {
    if 0 <= j < shares.len() {
        shares[j]
    } else {
        None
    }
}

/// What the first `j` windows of a column take.
pub open spec fn taken(height: int, count: int, shares: Seq<Option<i32>>, j: int) -> int
    decreases j,
{
    if j <= 0 {
        0
    } else {
        let before = taken(height, count, shares, j - 1);
        saturated(
            before + window_height(height, before, j - 1, count, listed(shares, j - 1)),
        )
    }
}

/// The windows of one column, `w` wide at `x`.
pub open spec fn column<K>(
    params: ScrollingParams,
    clients: Seq<LayoutClient<K>>,
    x: int,
    w: int,
    shares: Seq<Option<i32>>,
) -> Seq<LayoutResult<K>> {
    let gap = gap_in(params.screen_area, params.gap as int);
    let count = clients.len() as int;
    let height = column_height(params, count);
    Seq::new(
        clients.len(),
        |j: int|
            {
                let used = taken(height, count, shares, j);
                let offset = saturated(smaller(j, i32::MAX as int) * gap);
                let y = saturated(saturated(saturated(params.screen_area.y + gap) + used) + offset);
                LayoutResult {
                    key: clients[j].key,
                    rect: framed(
                        x,
                        y,
                        larger(w, 1),
                        window_height(height, used, j, count, listed(shares, j)),
                        clients[j].border_w as int,
                    ),
                }
            },
    )
}

/// What lists hold.
pub open spec fn inner<T>(lists: Seq<Vec<T>>) -> Seq<Seq<T>> {
    Seq::new(lists.len(), |i: int| lists[i]@)
}

/// The columns of the strip one after the other: column `i` at `xs[i]`,
/// `widths[i]` wide, its windows sharing the height by `shares[i]`.
pub open spec fn scrolling<K>(
    params: ScrollingParams,
    columns: Seq<Seq<LayoutClient<K>>>,
    xs: Seq<i32>,
    widths: Seq<i32>,
    shares: Seq<Seq<Option<i32>>>,
) -> Seq<LayoutResult<K>>
    decreases columns.len(),
{
    if columns.len() == 0 {
        Seq::empty()
    } else {
        let i = columns.len() - 1;
        scrolling(params, columns.drop_last(), xs, widths, shares) + column(
            params,
            columns[i],
            xs[i] as int,
            widths[i] as int,
            shares[i],
        )
    }
}

/// `k` gaps, brought into the range of a coordinate.
fn times(k: usize, gap: i32) -> (r: i64)
    requires
        0 <= gap,
    ensures
        r == saturated(smaller(k as int, i32::MAX as int) * gap),
        0 <= r <= i32::MAX,
{
    let few: i64 = if k <= 2147483647 { k as i64 } else { 2147483647 };
    assert(0 <= few * gap <= 4611686014132420609) by (nonlinear_arith)
        requires
            0 <= few <= 2147483647,
            0 <= gap <= 2147483647,
    ;
    narrow(few * (gap as i64)) as i64
}

/// What the windows of a column share: the height of the screen without the
/// outer margin and the gaps between them.
pub fn shared_height(params: &ScrollingParams, count: usize) -> (r: i32)
    ensures
        r == column_height(*params, count as int),
        r >= 0,
{
    let gap: i32 = bounded_gap(params.screen_area, params.gap);
    let between: i64 = if count >= 1 { times(count - 1, gap) } else { 0 };
    let open: i64 = params.screen_area.h as i64 - 2 * (gap as i64);
    let outer: i64 = if open >= 0 { open } else { 0 };
    let inner: i64 = outer - between;
    proof {
        if count == 0 {
            assert(0 * gap == 0) by (nonlinear_arith);
        }
    }
    if inner >= 0 { inner as i32 } else { 0 }
}

/// What is left of the shared height once `used` is taken.
pub fn height_left(height: i32, used: i32) -> (r: i32)
    requires
        height >= 0,
    ensures
        r == saturated(larger(height - used, 0)),
{
    let left: i64 = height as i64 - used as i64;
    narrow(if left >= 0 { left } else { 0 })
}

/// The height of window `j` of `count`, where `used` is taken.
pub fn height_of_window(height: i32, used: i32, j: usize, count: usize, share: Option<i32>) -> (r: i64)
    requires
        height >= 0,
        j < count,
    ensures
        r == window_height(height as int, used as int, j as int, count as int, share),
        -4294967296 <= r <= 4294967296,
{
    match share {
        Some(h) => h as i64,
        None => {
            let left: i64 = height as i64 - used as i64;
            let open: i64 = if left >= 0 { left } else { 0 };
            let others: i64 = if count - j <= 2147483647 {
                (count - j) as i64
            } else {
                2147483647
            };
            divide(open, others)
        },
    }
}

/// What is taken once a window of height `h` follows `used`.
pub fn height_taken(used: i32, h: i64) -> (r: i32)
    requires
        -4294967296 <= h <= 4294967296,
    ensures
        r == saturated(used + h),
{
    narrow(used as i64 + h)
}

fn place_column<K: Copy>(
    params: &ScrollingParams,
    clients: &Vec<LayoutClient<K>>,
    x: i32,
    width: i32,
    shares: &Vec<Option<i32>>,
    results: &mut Vec<LayoutResult<K>>,
)
    ensures
        final(results)@ == old(results)@ + column(
            *params,
            clients@,
            x as int,
            width as int,
            shares@,
        ),
{
    let gap: i32 = bounded_gap(params.screen_area, params.gap);
    let screen = params.screen_area;
    let count: usize = clients.len();
    let height: i32 = shared_height(params, count);
    let ghost before = results@;
    let ghost whole = column(*params, clients@, x as int, width as int, shares@);
    let mut used: i32 = 0;
    let mut j: usize = 0;
    while j < count
        invariant
            j <= count == clients@.len(),
            screen == params.screen_area,
            0 <= gap <= 1073741823,
            gap == gap_in(params.screen_area, params.gap as int),
            0 <= height <= i32::MAX,
            height == column_height(*params, count as int),
            used == taken(height as int, count as int, shares@, j as int),
            whole == column(*params, clients@, x as int, width as int, shares@),
            results@ == before + whole.take(j as int),
        decreases count - j,
    {
        let c = clients[j];
        let share: Option<i32> = if j < shares.len() { shares[j] } else { None };
        let h: i64 = height_of_window(height, used, j, count, share);
        let offset: i64 = times(j, gap);
        let top: i32 = narrow(screen.y as i64 + gap as i64);
        let below: i32 = narrow(top as i64 + used as i64);
        let y: i32 = narrow(below as i64 + offset);
        let rect = client_rect(x as i64, y as i64, column_width(width) as i64, h, c.border_w);
        results.push(LayoutResult { key: c.key, rect });
        used = height_taken(used, h);
        proof {
            assert(whole[j as int].rect == rect);
            assert(before + whole.take(j + 1) =~= (before + whole.take(j as int)).push(
                whole[j as int],
            ));
        }
        j = j + 1;
    }
    assert(whole.take(j as int) =~= whole);
}

/// Places the windows of the strip.
pub fn calculate_scrolling<K: Copy>(
    params: &ScrollingParams,
    columns: &[Vec<LayoutClient<K>>],
    xs: &[i32],
    widths: &[i32],
    shares: &[Vec<Option<i32>>],
) -> (results: Vec<LayoutResult<K>>)
    requires
        xs@.len() == columns@.len(),
        widths@.len() == columns@.len(),
        shares@.len() == columns@.len(),
    ensures
        results@ == scrolling(*params, inner(columns@), xs@, widths@, inner(shares@)),
        all_visible(results@),
{
    let mut results: Vec<LayoutResult<K>> = Vec::new();
    let mut i: usize = 0;
    while i < columns.len()
        invariant
            i <= columns@.len(),
            xs@.len() == columns@.len(),
            widths@.len() == columns@.len(),
            shares@.len() == columns@.len(),
            results@ == scrolling(
                *params,
                inner(columns@).take(i as int),
                xs@,
                widths@,
                inner(shares@),
            ),
            all_visible(results@),
        decreases columns@.len() - i,
    {
        place_column(params, &columns[i], xs[i], widths[i], &shares[i], &mut results);
        proof {
            assert(inner(columns@).take(i + 1).drop_last() =~= inner(columns@).take(i as int));
        }
        i = i + 1;
    }
    assert(inner(columns@).take(i as int) =~= inner(columns@));
    results
}

} // verus!
