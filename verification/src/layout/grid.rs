//! The grid and the woven tatami pattern.
use super::{
    LayoutClient, LayoutParams, LayoutResult, all_visible, area_in, bounded_gap, client_rect,
    divide, framed, gap_in, in_order, quotient, usable_area,
};
use crate::geometry::{Rect, larger, smaller};
use crate::ieee::F32;
use vstd::prelude::*;

verus! {

/// The rows that `n` windows fill in `cols` columns.
pub open spec fn rows_of(n: int, cols: int) -> int {
    (n + cols - 1) / cols
}

/// The best of the first `k` candidates: the first whose score is below every
/// earlier one. `None` while no score has been below the greatest number.
pub open spec fn best_of(scores: Seq<F32>, k: int) -> Option<int>
    decreases k,
{
    if k <= 0 {
        None
    } else {
        let best = best_of(scores, k - 1);
        let bar = match best {
            Some(b) => scores[b],
            None => F32 { bits: GREATEST_FINITE },
        };
        if scores[k - 1].below(bar) {
            Some(k - 1)
        } else {
            best
        }
    }
}

/// The bits of the greatest finite single-precision number.
pub const GREATEST_FINITE: u32 = 0x7F7F_FFFF;

/// Columns and rows of the grid for `n` windows, where `scores[c]` is the
/// score of `c + 1` columns, lower being better.
pub fn choose_grid_dimensions(n: usize, scores: &[F32]) -> (r: (i32, i32))
    requires
        n <= i32::MAX,
        scores@.len() == n,
    ensures
        n <= 1 ==> r == (1i32, 1i32),
        n > 1 ==> r.0 == (match best_of(scores@, n as int) {
            Some(c) => c + 1,
            None => n as int,
        }) && r.1 == rows_of(n as int, r.0 as int),
        1 <= r.0,
        n >= 1 ==> r.0 <= n,
{
    if n <= 1 {
        return (1, 1);
    }
    let mut cols: usize = n;
    let mut bar = F32 { bits: GREATEST_FINITE };
    let mut k: usize = 0;
    while k < n
        invariant
            k <= n <= i32::MAX,
            scores@.len() == n,
            1 <= cols <= n,
            cols == (match best_of(scores@, k as int) {
                Some(c) => c + 1,
                None => n as int,
            }),
            bar == (match best_of(scores@, k as int) {
                Some(c) => scores@[c],
                None => F32 { bits: GREATEST_FINITE },
            }),
        decreases n - k,
    {
        if scores[k].lt(bar) {
            cols = k + 1;
            bar = scores[k];
        }
        k = k + 1;
    }
    let rows: i64 = divide(n as i64 + cols as i64 - 1, cols as i64);
    proof {
        assert(rows <= n) by (nonlinear_arith)
            requires
                rows == (n + cols - 1) / (cols as int),
                1 <= cols <= n,
        ;
    }
    (cols as i32, rows as i32)
}

/// The rectangle of window `i` of `n` in a grid of `cols` columns: equal
/// cells, the last row widened to the full width, and the last cell of a row
/// and the last row taking what the division left over.
pub open spec fn cell(area: Rect, gap: int, n: int, cols: int, i: int, border_w: int) -> Rect {
    let rows = rows_of(n, cols);
    let row = i / cols;
    let col = i - row * cols;
    let row_cols = if row == rows - 1 {
        n - row * cols
    } else {
        cols
    };
    let cell_w = quotient(area.w - (row_cols - 1) * gap, row_cols);
    let cell_h = quotient(area.h - (rows - 1) * gap, rows);
    let dx = col * (cell_w + gap);
    let dy = row * (cell_h + gap);
    framed(
        area.x + dx,
        area.y + dy,
        if col == row_cols - 1 {
            area.w - dx
        } else {
            cell_w
        },
        if row == rows - 1 {
            area.h - dy
        } else {
            cell_h
        },
        border_w,
    )
}

/// The grid layout with `cols` columns.
pub open spec fn grid<K>(
    params: LayoutParams,
    clients: Seq<LayoutClient<K>>,
    cols: int,
) -> Seq<LayoutResult<K>> {
    Seq::new(
        clients.len(),
        |i: int|
            LayoutResult {
                key: clients[i].key,
                rect: cell(
                    area_in(params.screen_area, params.gap as int),
                    gap_in(params.screen_area, params.gap as int),
                    clients.len() as int,
                    cols,
                    i,
                    clients[i].border_w as int,
                ),
            },
    )
}

/// A window of a grid stands in a row of the grid, and in a cell of its row.
proof fn cell_exists(n: int, cols: int, i: int)
    requires
        0 <= i < n,
        1 <= cols <= n,
    ensures
        1 <= rows_of(n, cols) <= n,
        0 <= i / cols < rows_of(n, cols),
        0 <= i - (i / cols) * cols < cols,
        (i / cols) * cols <= i,
        i / cols == rows_of(n, cols) - 1 ==> i - (i / cols) * cols < n - (i / cols) * cols <= cols,
{
    let rows = rows_of(n, cols);
    let row = i / cols;
    vstd::arithmetic::div_mod::lemma_fundamental_div_mod(i, cols);
    vstd::arithmetic::div_mod::lemma_fundamental_div_mod(n + cols - 1, cols);
    vstd::arithmetic::div_mod::lemma_mod_bound(i, cols);
    vstd::arithmetic::div_mod::lemma_mod_bound(n + cols - 1, cols);
    assert(row * cols == cols * row) by (nonlinear_arith);
    assert(1 <= rows <= n && 0 <= row < rows) by (nonlinear_arith)
        requires
            n + cols - 1 == cols * rows + (n + cols - 1) % cols,
            0 <= (n + cols - 1) % cols < cols,
            i == cols * row + i % cols,
            0 <= i % cols < cols,
            0 <= i < n,
            1 <= cols <= n,
    ;
    if row == rows - 1 {
        assert(cols * row == cols * rows - cols) by (nonlinear_arith)
            requires
                row == rows - 1,
        ;
    }
}

/// Places the windows in the grid layout.
pub fn calculate_grid<K: Copy>(
    params: &LayoutParams,
    clients: &[LayoutClient<K>],
    cols: i32,
) -> (results: Vec<LayoutResult<K>>)
    requires
        clients@.len() <= i32::MAX,
        clients@.len() > 0 ==> 1 <= cols <= clients@.len(),
    ensures
        results@ == grid(*params, clients@, cols as int),
        in_order(results@, clients@),
        all_visible(results@),
{
    let mut results: Vec<LayoutResult<K>> = Vec::new();
    let n: i64 = clients.len() as i64;
    if n == 0 {
        return results;
    }
    let gap: i64 = bounded_gap(params.screen_area, params.gap) as i64;
    let area = usable_area(params.screen_area, params.gap);
    let (w, h): (i64, i64) = (area.w as i64, area.h as i64);
    let wide: i64 = cols as i64;
    proof {
        cell_exists(n as int, cols as int, 0);
    }
    let rows: i64 = divide(n + wide - 1, wide);
    proof {
        small_product(rows - 1, gap as int);
    }
    let cell_h: i64 = divide(h - (rows - 1) * gap, rows);
    proof {
        cell_bound(h as int, gap as int, rows as int);
    }
    let mut k: usize = 0;
    while k < clients.len()
        invariant
            k <= clients@.len() == n <= i32::MAX,
            1 <= cols <= n,
            wide == cols,
            0 <= gap <= 1073741823,
            gap == gap_in(params.screen_area, params.gap as int),
            area == area_in(params.screen_area, params.gap as int),
            w == area.w,
            h == area.h,
            w >= 1,
            h >= 1,
            rows == rows_of(n as int, cols as int),
            1 <= rows <= n,
            cell_h == quotient(h - (rows - 1) * gap, rows as int),
            0 <= cell_h + gap <= 3221225472,
            results@ == grid(*params, clients@, cols as int).take(k as int),
        decreases clients@.len() - k,
    {
        let i: i64 = k as i64;
        let c = clients[k];
        proof {
            cell_exists(n as int, cols as int, k as int);
        }
        let row: i64 = divide(i, wide);
        let col: i64 = i - row * wide;
        let row_cols: i64 = if row == rows - 1 { n - row * wide } else { wide };
        proof {
            small_product(row_cols - 1, gap as int);
        }
        let cell_w: i64 = divide(w - (row_cols - 1) * gap, row_cols);
        proof {
            cell_bound(w as int, gap as int, row_cols as int);
            step_bound(col as int, cell_w + gap);
            step_bound(row as int, cell_h + gap);
        }
        let dx: i64 = col * (cell_w + gap);
        let dy: i64 = row * (cell_h + gap);
        let rect = client_rect(
            area.x as i64 + dx,
            area.y as i64 + dy,
            if col == row_cols - 1 { w - dx } else { cell_w },
            if row == rows - 1 { h - dy } else { cell_h },
            c.border_w,
        );
        results.push(LayoutResult { key: c.key, rect });
        proof {
            let whole = grid(*params, clients@, cols as int);
            assert(whole[k as int].rect == rect);
            assert(whole.take(k + 1) =~= whole.take(k as int).push(whole[k as int]));
        }
        k = k + 1;
    }
    proof {
        let whole = grid(*params, clients@, cols as int);
        assert(whole.take(k as int) =~= whole);
    }
    results
}

proof fn small_product(k: int, gap: int)
    requires
        0 <= k <= i32::MAX,
        0 <= gap <= 1073741823,
    ensures
        0 <= k * gap <= 2305843007066210301,
{
    assert(0 <= k * gap <= 2305843007066210301) by (nonlinear_arith)
        requires
            0 <= k <= 2147483647,
            0 <= gap <= 1073741823,
    ;
}

proof fn step_bound(k: int, step: int)
    requires
        0 <= k <= i32::MAX,
        0 <= step <= 3221225472,
    ensures
        0 <= k * step <= 6917529024420544512,
{
    assert(0 <= k * step <= 6917529024420544512) by (nonlinear_arith)
        requires
            0 <= k <= 2147483647,
            0 <= step <= 3221225472,
    ;
}

/// Cells and gaps never run backwards.
proof fn cell_bound(side: int, gap: int, k: int)
    requires
        1 <= side <= i32::MAX,
        0 <= gap <= 1073741823,
        1 <= k <= i32::MAX,
    ensures
        0 <= quotient(side - (k - 1) * gap, k) + gap <= 3221225472,
        side >= (k - 1) * gap ==> k * (quotient(side - (k - 1) * gap, k) + gap) <= side + gap,
{
    let room = side - (k - 1) * gap;
    small_product(k - 1, gap);
    assert((k - 1) * gap == k * gap - gap) by (nonlinear_arith);
    if room >= 0 {
        vstd::arithmetic::div_mod::lemma_fundamental_div_mod(room, k);
        vstd::arithmetic::div_mod::lemma_mod_bound(room, k);
        let q = room / k;
        assert(0 <= q <= room && k * (q + gap) <= side + gap) by (nonlinear_arith)
            requires
                room == k * q + room % k,
                0 <= room % k < k,
                k >= 1,
                room == side + gap - k * gap,
                room >= 0,
        ;
    } else {
        vstd::arithmetic::div_mod::lemma_fundamental_div_mod(-room, k);
        vstd::arithmetic::div_mod::lemma_mod_bound(-room, k);
        let q = (-room) / k;
        assert(0 <= q <= gap) by (nonlinear_arith)
            requires
                -room == k * q + (-room) % k,
                0 <= (-room) % k < k,
                k >= 1,
                room == side + gap - k * gap,
                room < 0,
                side >= 1,
                gap >= 0,
        ;
    }
}

/// The windows in the row of window `i`.
pub open spec fn in_row(n: int, cols: int, i: int) -> int {
    let row = i / cols;
    if row == rows_of(n, cols) - 1 {
        n - row * cols
    } else {
        cols
    }
}

/// Each cell of the grid gets at least one pixel, and the area ends inside the
/// range of coordinates.
pub open spec fn roomy(area: Rect, gap: int, n: int, cols: int) -> bool {
    &&& 0 <= gap <= 1073741823
    &&& 1 <= cols <= n <= i32::MAX
    &&& area.w >= cols + (cols - 1) * gap
    &&& area.h >= rows_of(n, cols) + (rows_of(n, cols) - 1) * gap
    &&& area.x + area.w <= i32::MAX
    &&& area.y + area.h <= i32::MAX
}

/// Along one side: `k` cells, the cell at `at` begins inside and ends inside,
/// the last one exactly at the end, and the next begins a gap after it.
proof fn along(side: int, gap: int, k: int, at: int)
    requires
        0 <= gap <= 1073741823,
        0 <= at < k <= i32::MAX,
        k + (k - 1) * gap <= side <= i32::MAX,
    ensures
        ({
            let q = quotient(side - (k - 1) * gap, k);
            &&& q >= 1
            &&& 0 <= at * (q + gap)
            &&& at * (q + gap) + q <= side
            &&& (at + 1) * (q + gap) == at * (q + gap) + q + gap
        }),
{
    let room = side - (k - 1) * gap;
    small_product(k - 1, gap);
    cell_bound(side, gap, k);
    let q = quotient(room, k);
    vstd::arithmetic::div_mod::lemma_fundamental_div_mod(room, k);
    vstd::arithmetic::div_mod::lemma_mod_bound(room, k);
    assert(q >= 1) by (nonlinear_arith)
        requires
            room == k * q + room % k,
            room % k < k,
            room >= k,
            k >= 1,
    ;
    assert(0 <= at * (q + gap) && at * (q + gap) + q <= side) by (nonlinear_arith)
        requires
            0 <= at <= k - 1,
            k * (q + gap) <= side + gap,
            q >= 1,
            gap >= 0,
    ;
    assert((at + 1) * (q + gap) == at * (q + gap) + q + gap) by (nonlinear_arith);
}

/// Every cell lies inside the area; the last of each row ends at the right
/// edge, and those of the last row at the lower edge.
pub proof fn cells_fill_the_area(area: Rect, gap: int, n: int, cols: int, i: int)
    requires
        roomy(area, gap, n, cols),
        0 <= i < n,
    ensures
        ({
            let r = cell(area, gap, n, cols, i, 0);
            &&& area.x <= r.x && r.x + r.w <= area.x + area.w
            &&& area.y <= r.y && r.y + r.h <= area.y + area.h
            &&& i - (i / cols) * cols == in_row(n, cols, i) - 1 ==> r.x + r.w == area.x + area.w
            &&& i / cols == rows_of(n, cols) - 1 ==> r.y + r.h == area.y + area.h
        }),
{
    cell_exists(n, cols, i);
    let rows = rows_of(n, cols);
    let row = i / cols;
    let k = in_row(n, cols, i);
    narrower(area.w as int, gap, k, cols);
    along(area.w as int, gap, k, i - row * cols);
    along(area.h as int, gap, rows, row);
}

/// Where the wider row fits, the narrower does.
proof fn narrower(side: int, gap: int, k: int, cols: int)
    requires
        0 <= gap,
        1 <= k <= cols,
        side >= cols + (cols - 1) * gap,
    ensures
        side >= k + (k - 1) * gap,
{
    assert((k - 1) * gap <= (cols - 1) * gap) by (nonlinear_arith)
        requires
            k <= cols,
            0 <= gap,
    ;
}

/// Two cells of a grid never overlap: the later one stands at least a gap to
/// the right of the earlier in its row, or a gap below it.
pub proof fn cells_stay_apart(area: Rect, gap: int, n: int, cols: int, i: int, j: int)
    requires
        roomy(area, gap, n, cols),
        0 <= i < j < n,
    ensures
        ({
            let a = cell(area, gap, n, cols, i, 0);
            let b = cell(area, gap, n, cols, j, 0);
            a.x + a.w + gap <= b.x || a.y + a.h + gap <= b.y
        }),
{
    cell_exists(n, cols, i);
    cell_exists(n, cols, j);
    cells_fill_the_area(area, gap, n, cols, i);
    cells_fill_the_area(area, gap, n, cols, j);
    let rows = rows_of(n, cols);
    let k = in_row(n, cols, i);
    let (ri, rj) = (i / cols, j / cols);
    let (ci, cj) = (i - ri * cols, j - rj * cols);
    narrower(area.w as int, gap, k, cols);
    narrower(area.w as int, gap, in_row(n, cols, j), cols);
    along(area.w as int, gap, k, ci);
    along(area.w as int, gap, in_row(n, cols, j), cj);
    along(area.h as int, gap, rows, ri);
    along(area.h as int, gap, rows, rj);
    vstd::arithmetic::div_mod::lemma_div_is_ordered(i, j, cols);
    if ri == rj {
        let step = quotient(area.w - (k - 1) * gap, k) + gap;
        assert((ci + 1) * step <= cj * step) by (nonlinear_arith)
            requires
                ci + 1 <= cj,
                step >= 0,
        ;
    } else {
        let step = quotient(area.h - (rows - 1) * gap, rows) + gap;
        assert((ri + 1) * step <= rj * step) by (nonlinear_arith)
            requires
                ri + 1 <= rj,
                step >= 0,
        ;
    }
}

/// Where part `j` of `k` equal parts of a side begins, and how long it is; the
/// last part takes what the division left over.
pub open spec fn part(side: int, gap: int, k: int, j: int) -> (int, int) {
    let q = quotient(side - (k - 1) * gap, k);
    (
        j * (q + gap),
        if j == k - 1 {
            side - (k - 1) * (q + gap)
        } else {
            q
        },
    )
}

/// The rectangle of window `j` of the `count` windows of group `g` in a row of
/// the pattern: five windows are woven three over two, or two over three in
/// every other row; fewer stand side by side.
pub open spec fn woven(
    x: int,
    y: int,
    w: int,
    h: int,
    gap: int,
    g: int,
    count: int,
    j: int,
) -> (int, int, int, int) {
    if count < 5 {
        let (dx, pw) = part(w, gap, count, j);
        (x + dx, y, pw, h)
    } else {
        let above = if g % 2 == 0 {
            3int
        } else {
            2
        };
        if j < above {
            let (dx, pw) = part(w, gap, above, j);
            let (dy, ph) = part(h, gap, 2, 0);
            (x + dx, y + dy, pw, ph)
        } else {
            let (dx, pw) = part(w, gap, 5 - above, j - above);
            let (dy, ph) = part(h, gap, 2, 1);
            (x + dx, y + dy, pw, ph)
        }
    }
}

/// Corner and size of window `i` of at most ten in the tatami pattern.
pub open spec fn mat(area: Rect, gap: int, n: int, i: int) -> (int, int, int, int) {
    let (x, y, w, h) = (area.x as int, area.y as int, area.w as int, area.h as int);
    if n <= 1 {
        (x, y, w, h)
    } else if n == 2 {
        let q = quotient(w - gap, 2);
        (x + i * (q + gap), y, q, h)
    } else if n == 3 {
        let (dx, pw) = part(w, gap, 2, smaller(i, 1));
        let (dy, ph) = if i == 0 {
            (0, h)
        } else {
            part(h, gap, 2, i - 1)
        };
        (x + dx, y + dy, pw, ph)
    } else if n == 4 {
        let (q, p) = (quotient(w - gap, 2), quotient(h - gap, 2));
        (x + (i % 2) * (q + gap), y + (i / 2) * (p + gap), q, p)
    } else {
        let groups = (n + 4) / 5;
        let g = i / 5;
        let (dy, ph) = part(h, gap, groups, g);
        woven(
            x,
            y + dy,
            w,
            if g == groups - 1 {
                larger(ph, 1)
            } else {
                ph
            },
            gap,
            g,
            smaller(n - 5 * g, 5),
            i % 5,
        )
    }
}

/// The tatami layout; more than ten windows form a grid of `cols` columns.
pub open spec fn tatami<K>(
    params: LayoutParams,
    clients: Seq<LayoutClient<K>>,
    cols: int,
) -> Seq<LayoutResult<K>> {
    if clients.len() > 10 {
        grid(params, clients, cols)
    } else {
        Seq::new(
            clients.len(),
            |i: int|
                {
                    let (x, y, w, h) = mat(
                        area_in(params.screen_area, params.gap as int),
                        gap_in(params.screen_area, params.gap as int),
                        clients.len() as int,
                        i,
                    );
                    LayoutResult {
                        key: clients[i].key,
                        rect: framed(x, y, w, h, clients[i].border_w as int),
                    }
                },
        )
    }
}

/// The part of a side that stays a moderate number.
proof fn part_bound(side: int, gap: int, k: int, j: int)
    requires
        -8589934592 <= side <= 8589934592,
        0 <= gap <= 1073741823,
        1 <= k <= 5,
        0 <= j < k,
    ensures
        -17179869184 <= quotient(side - (k - 1) * gap, k) <= 17179869184,
        -17179869184 <= side - (k - 1) * gap <= 17179869184,
        -91268055040 <= part(side, gap, k, j).0 <= 91268055040,
        -91268055040 <= part(side, gap, k, j).1 <= 91268055040,
        -91268055040 <= (k - 1) * (quotient(side - (k - 1) * gap, k) + gap) <= 91268055040,
{
    let room = side - (k - 1) * gap;
    assert(0 <= (k - 1) * gap <= 4294967292) by (nonlinear_arith)
        requires
            1 <= k <= 5,
            0 <= gap <= 1073741823,
    ;
    let a = if room >= 0 {
        room
    } else {
        -room
    };
    vstd::arithmetic::div_mod::lemma_fundamental_div_mod(a, k);
    vstd::arithmetic::div_mod::lemma_mod_bound(a, k);
    assert(0 <= a / k <= a) by (nonlinear_arith)
        requires
            a == k * (a / k) + a % k,
            0 <= a % k,
            a >= 0,
            1 <= k,
            a % k < k,
    ;
    let q = quotient(room, k);
    let step = q + gap;
    assert(-73014444032 <= j * step <= 73014444032) by (nonlinear_arith)
        requires
            0 <= j <= 4,
            -18253611008 <= step <= 18253611008,
    ;
    assert(-73014444032 <= (k - 1) * step <= 73014444032) by (nonlinear_arith)
        requires
            0 <= k - 1 <= 4,
            -18253611008 <= step <= 18253611008,
    ;
}

fn part_at(side: i64, gap: i64, k: i64, j: i64) -> (r: (i64, i64))
    requires
        -8589934592 <= side <= 8589934592,
        0 <= gap <= 1073741823,
        1 <= k <= 5,
        0 <= j < k,
    ensures
        (r.0 as int, r.1 as int) == part(side as int, gap as int, k as int, j as int),
        -91268055040 <= r.0 <= 91268055040,
        -91268055040 <= r.1 <= 91268055040,
{
    proof {
        part_bound(side as int, gap as int, k as int, j as int);
    }
    let between: i64 = (k - 1) * gap;
    let q: i64 = divide(side - between, k);
    let step: i64 = q + gap;
    (j * step, if j == k - 1 { side - (k - 1) * step } else { q })
}

fn woven_at(
    x: i64,
    y: i64,
    w: i64,
    h: i64,
    gap: i64,
    g: usize,
    count: usize,
    j: usize,
) -> (r: (i64, i64, i64, i64))
    requires
        i32::MIN <= x <= i32::MAX,
        -91268055040 <= y <= 100000000000,
        1 <= w <= i32::MAX,
        -8589934592 <= h <= 8589934592,
        0 <= gap <= 1073741823,
        1 <= count <= 5,
        j < count,
    ensures
        (r.0 as int, r.1 as int, r.2 as int, r.3 as int) == woven(
            x as int,
            y as int,
            w as int,
            h as int,
            gap as int,
            g as int,
            count as int,
            j as int,
        ),
        -91268055040 <= r.2 <= 91268055040,
        -91268055040 <= r.3 <= 91268055040,
{
    if count < 5 {
        let (dx, pw) = part_at(w, gap, count as i64, j as i64);
        (x + dx, y, pw, h)
    } else {
        let above: usize = if g % 2 == 0 { 3 } else { 2 };
        if j < above {
            let (dx, pw) = part_at(w, gap, above as i64, j as i64);
            let (dy, ph) = part_at(h, gap, 2, 0);
            (x + dx, y + dy, pw, ph)
        } else {
            let (dx, pw) = part_at(w, gap, (5 - above) as i64, (j - above) as i64);
            let (dy, ph) = part_at(h, gap, 2, 1);
            (x + dx, y + dy, pw, ph)
        }
    }
}

/// Once or not at all.
proof fn at_most_once(b: int, v: int)
    requires
        0 <= b <= 1,
    ensures
        b * v == if b == 0 { 0 } else { v },
{
    assert(b * v == if b == 0 { 0 } else { v }) by (nonlinear_arith)
        requires
            0 <= b <= 1,
    ;
}

fn mat_at(area: Rect, gap: i64, n: usize, i: usize) -> (r: (i64, i64, i64, i64))
    requires
        area.w >= 1,
        area.h >= 1,
        0 <= gap <= 1073741823,
        i < n <= 10,
    ensures
        (r.0 as int, r.1 as int, r.2 as int, r.3 as int) == mat(
            area,
            gap as int,
            n as int,
            i as int,
        ),
        -91268055040 <= r.2 <= 91268055040,
        -91268055040 <= r.3 <= 91268055040,
{
    let (x, y, w, h): (i64, i64, i64, i64) = (
        area.x as i64,
        area.y as i64,
        area.w as i64,
        area.h as i64,
    );
    if n <= 1 {
        (x, y, w, h)
    } else if n == 2 {
        let q: i64 = divide(w - gap, 2);
        proof {
            at_most_once(i as int, q + gap);
        }
        (if i == 0 { x } else { x + (q + gap) }, y, q, h)
    } else if n == 3 {
        let (dx, pw) = part_at(w, gap, 2, if i == 0 { 0 } else { 1 });
        if i == 0 {
            (x + dx, y, pw, h)
        } else {
            let (dy, ph) = part_at(h, gap, 2, i as i64 - 1);
            (x + dx, y + dy, pw, ph)
        }
    } else if n == 4 {
        let q: i64 = divide(w - gap, 2);
        let p: i64 = divide(h - gap, 2);
        proof {
            at_most_once((i % 2) as int, q + gap);
            at_most_once((i / 2) as int, p + gap);
        }
        (
            if i % 2 == 0 { x } else { x + (q + gap) },
            if i / 2 == 0 { y } else { y + (p + gap) },
            q,
            p,
        )
    } else {
        let groups: usize = (n + 4) / 5;
        let g: usize = i / 5;
        let (dy, ph) = part_at(h, gap, groups as i64, g as i64);
        proof {
            let q = quotient(h - (groups - 1) * gap, groups as int);
            if groups == 2 {
                assert((groups - 1) * (q + gap) == q + gap) by (nonlinear_arith)
                    requires
                        groups == 2,
                ;
                assert((groups - 1) * gap == gap) by (nonlinear_arith)
                    requires
                        groups == 2,
                ;
            } else {
                assert((groups - 1) * (q + gap) == 0) by (nonlinear_arith)
                    requires
                        groups == 1,
                ;
                assert((groups - 1) * gap == 0) by (nonlinear_arith)
                    requires
                        groups == 1,
                ;
            }
        }
        let row_h: i64 = if g == groups - 1 && ph < 1 { 1 } else { ph };
        let count: usize = if n - 5 * g < 5 { n - 5 * g } else { 5 };
        woven_at(x, y + dy, w, row_h, gap, g, count, i % 5)
    }
}

/// Places the windows in the tatami layout.
pub fn calculate_tatami<K: Copy>(
    params: &LayoutParams,
    clients: &[LayoutClient<K>],
    cols: i32,
) -> (results: Vec<LayoutResult<K>>)
    requires
        clients@.len() <= i32::MAX,
        clients@.len() > 10 ==> 1 <= cols <= clients@.len(),
    ensures
        results@ == tatami(*params, clients@, cols as int),
        in_order(results@, clients@),
        all_visible(results@),
{
    if clients.len() > 10 {
        return calculate_grid(params, clients, cols);
    }
    let mut results: Vec<LayoutResult<K>> = Vec::new();
    let gap: i64 = bounded_gap(params.screen_area, params.gap) as i64;
    let area = usable_area(params.screen_area, params.gap);
    let ghost whole = tatami(*params, clients@, cols as int);
    let mut i: usize = 0;
    while i < clients.len()
        invariant
            i <= clients@.len() <= 10,
            0 <= gap <= 1073741823,
            gap == gap_in(params.screen_area, params.gap as int),
            area == area_in(params.screen_area, params.gap as int),
            area.w >= 1,
            area.h >= 1,
            whole == tatami(*params, clients@, cols as int),
            results@ == whole.take(i as int),
        decreases clients@.len() - i,
    {
        let c = clients[i];
        let (x, y, w, h) = mat_at(area, gap, clients.len(), i);
        let rect = client_rect(x, y, w, h, c.border_w);
        results.push(LayoutResult { key: c.key, rect });
        proof {
            assert(whole[i as int].rect == rect);
            assert(whole.take(i + 1) =~= whole.take(i as int).push(whole[i as int]));
        }
        i = i + 1;
    }
    assert(whole.take(i as int) =~= whole);
    results
}

/// The last part ends where the side ends.
proof fn last_part_ends_flush(side: int, gap: int, k: int)
    ensures
        part(side, gap, k, k - 1).0 + part(side, gap, k, k - 1).1 == side,
{
}

/// From five windows on, the last one ends in the lower right corner of the
/// area, however the divisions came out.
pub proof fn the_last_mat_ends_flush(area: Rect, gap: int, n: int)
    requires
        5 <= n <= 10,
        part(area.h as int, gap, (n + 4) / 5, (n + 4) / 5 - 1).1 >= 1,
    ensures
        ({
            let (x, y, w, h) = mat(area, gap, n, n - 1);
            x + w == area.x + area.w && y + h == area.y + area.h
        }),
{
    let groups = (n + 4) / 5;
    let count = smaller(n - 5 * (groups - 1), 5);
    let h = part(area.h as int, gap, groups, groups - 1).1;
    assert((n - 1) / 5 == groups - 1 && (n - 1) % 5 == count - 1);
    last_part_ends_flush(area.h as int, gap, groups);
    last_part_ends_flush(area.w as int, gap, count);
    last_part_ends_flush(area.w as int, gap, 2);
    last_part_ends_flush(area.w as int, gap, 3);
    last_part_ends_flush(h, gap, 2);
}

/// The best candidate has the lowest score, and of several with that score it is
/// the first; there is none just where no score is below the greatest number.
pub proof fn the_lowest_score_is_best(scores: Seq<F32>, k: int)
    requires
        0 <= k <= scores.len(),
    ensures
        match best_of(scores, k) {
            Some(b) => {
                &&& 0 <= b < k
                &&& scores[b].below(F32 { bits: 0x7F7F_FFFF })
                &&& forall|i: int| 0 <= i < k ==> !(#[trigger] scores[i]).below(scores[b])
                &&& forall|i: int| 0 <= i < b ==> !(#[trigger] scores[i]).at_most(scores[b])
            },
            None => forall|i: int|
                0 <= i < k ==> !(#[trigger] scores[i]).below(F32 { bits: 0x7F7F_FFFF }),
        },
    decreases k,
{
    if k > 0 {
        the_lowest_score_is_best(scores, k - 1);
    }
}

/// As many rows as windows fill: all but the last one are full, and the last
/// holds a window.
pub proof fn rows_are_filled(n: int, cols: int)
    requires
        n >= 1,
        cols >= 1,
    ensures
        (rows_of(n, cols) - 1) * cols < n <= rows_of(n, cols) * cols,
{
    let r = rows_of(n, cols);
    vstd::arithmetic::div_mod::lemma_fundamental_div_mod(n + cols - 1, cols);
    vstd::arithmetic::div_mod::lemma_mod_bound(n + cols - 1, cols);
    assert((r - 1) * cols == cols * r - cols && r * cols == cols * r) by (nonlinear_arith);
}

} // verus!
