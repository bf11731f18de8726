//! How the windows of the grid, the mats, the fan and the strip stand to each
//! other.
use super::cards::{Fan, vstack};
use super::grid::{grid, tatami};
use super::laws::{
    below, framed_whole, in_row, leaves_room, outer_h, outer_w, right_of, seen, shown_whole,
};
use super::strip::{ScrollingParams, column, scrolling};
use super::{LayoutClient, LayoutParams, LayoutResult};
use crate::geometry::Rect;
use vstd::prelude::*;

verus! {

/// A gap below nothing is none, and one above half the shorter side is half
/// that side.
pub proof fn gaps_are_moderate(screen: Rect, gap: int)
    requires
        screen.w >= 0,
        screen.h >= 0,
    ensures
        gap <= 0 ==> super::gap_in(screen, gap) == 0,
        0 <= gap && 2 * gap <= screen.w && 2 * gap <= screen.h ==> super::gap_in(screen, gap) == gap,
        2 * gap > screen.w || 2 * gap > screen.h ==> {
            let used = super::gap_in(screen, gap);
            &&& 2 * used <= screen.w
            &&& 2 * used <= screen.h
            &&& 2 * used >= screen.w - 1 || 2 * used >= screen.h - 1
        } || gap <= 0,
{
}

/// Whether window `i` stands in its cell of a grid of `cols` columns: the first
/// of a row at the left edge, the others to the right of the one before them,
/// as high; each row below the one before it. All cells of a row but the last
/// are as wide, all rows but the last as high, and the last ones reach the edge.
pub open spec fn in_cell<K>(
    results: Seq<LayoutResult<K>>,
    clients: Seq<LayoutClient<K>>,
    i: int,
    cols: int,
    x: int,
    y: int,
    right: int,
    low: int,
    gap: int,
) -> bool {
    let n = clients.len() as int;
    let r = results[i];
    let ends_row = (i + 1) % cols == 0 || i == n - 1;
    let in_last_row = (i / cols + 1) * cols >= n;
    &&& r.key == clients[i].key
    &&& i % cols == 0 ==> r.rect.x == x
    &&& i % cols != 0 ==> {
        let before = results[i - 1];
        &&& r.rect.y == before.rect.y
        &&& outer_h(r, clients[i]) == outer_h(before, clients[i - 1])
        &&& right_of(before, clients[i - 1], r, gap)
        &&& !ends_row ==> outer_w(r, clients[i]) == outer_w(before, clients[i - 1])
        &&& outer_w(r, clients[i]) >= outer_w(before, clients[i - 1])
    }
    &&& i < cols ==> r.rect.y == y
    &&& i >= cols ==> {
        let above = results[i - cols];
        &&& below(above, clients[i - cols], r, gap)
        &&& !in_last_row ==> outer_h(r, clients[i]) == outer_h(above, clients[i - cols])
        &&& outer_h(r, clients[i]) >= outer_h(above, clients[i - cols])
    }
    &&& ends_row ==> r.rect.x + outer_w(r, clients[i]) == right
    &&& in_last_row ==> r.rect.y + outer_h(r, clients[i]) == low
}

/// Row and column of a window.
proof fn row_and_column(i: int, cols: int)
    requires
        0 <= i,
        1 <= cols,
    ensures
        i == (i / cols) * cols + i % cols,
        0 <= i / cols,
        0 <= i % cols < cols,
        i % cols > 0 ==> (i - 1) / cols == i / cols,
        i >= cols ==> (i - cols) / cols == i / cols - 1 && i / cols >= 1,
        i < cols ==> i / cols == 0,
        (i + 1) % cols == 0 <==> i % cols == cols - 1,
{
    let (q, r) = (i / cols, i % cols);
    vstd::arithmetic::div_mod::lemma_fundamental_div_mod(i, cols);
    vstd::arithmetic::div_mod::lemma_mod_bound(i, cols);
    vstd::arithmetic::div_mod::lemma_div_pos_is_pos(i, cols);
    assert(q * cols == cols * q) by (nonlinear_arith);
    if r > 0 {
        vstd::arithmetic::div_mod::lemma_fundamental_div_mod_converse(i - 1, cols, q, r - 1);
    }
    if i >= cols {
        assert((q - 1) * cols == q * cols - cols) by (nonlinear_arith);
        vstd::arithmetic::div_mod::lemma_fundamental_div_mod_converse(i - cols, cols, q - 1, r);
        vstd::arithmetic::div_mod::lemma_div_pos_is_pos(i - cols, cols);
    } else {
        vstd::arithmetic::div_mod::lemma_fundamental_div_mod_converse(i, cols, 0, i);
    }
    if r == cols - 1 {
        assert((q + 1) * cols == q * cols + cols) by (nonlinear_arith);
        vstd::arithmetic::div_mod::lemma_fundamental_div_mod_converse(i + 1, cols, q + 1, 0);
    } else {
        vstd::arithmetic::div_mod::lemma_fundamental_div_mod_converse(i + 1, cols, q, r + 1);
    }
}

/// The rows that are filled.
proof fn last_row(n: int, cols: int, i: int)
    requires
        0 <= i < n,
        1 <= cols <= n,
    ensures
        i / cols == super::grid::rows_of(n, cols) - 1 <==> (i / cols + 1) * cols >= n,
        0 <= i / cols < super::grid::rows_of(n, cols),
        i / cols == super::grid::rows_of(n, cols) - 1 && i % cols == n - (i / cols) * cols - 1
            <==> i == n - 1,
        i / cols < super::grid::rows_of(n, cols) - 1 ==> (i / cols) * cols + cols <= n - 1,
{
    let rows = super::grid::rows_of(n, cols);
    let row = i / cols;
    row_and_column(i, cols);
    vstd::arithmetic::div_mod::lemma_fundamental_div_mod(n + cols - 1, cols);
    vstd::arithmetic::div_mod::lemma_mod_bound(n + cols - 1, cols);
    assert((row + 1) * cols == row * cols + cols) by (nonlinear_arith);
    assert(cols * rows == rows * cols) by (nonlinear_arith);
    // n <= rows * cols < n + cols
    if row >= rows {
        assert(row * cols >= rows * cols) by (nonlinear_arith)
            requires
                row >= rows,
                cols >= 1,
        ;
    } else if row == rows - 1 {
        assert(rows * cols == row * cols + cols) by (nonlinear_arith)
            requires
                row == rows - 1,
        ;
    } else {
        assert(rows * cols >= row * cols + 2 * cols) by (nonlinear_arith)
            requires
                row <= rows - 2,
                cols >= 1,
        ;
    }
}

proof fn cells_stand<K>(
    results: Seq<LayoutResult<K>>,
    clients: Seq<LayoutClient<K>>,
    area: Rect,
    gap: int,
    cols: int,
    i: int,
)
    requires
        0 <= gap <= 1073741823,
        1 <= cols <= clients.len() <= i32::MAX,
        0 <= i < clients.len(),
        super::grid::roomy(area, gap, clients.len() as int, cols),
        results.len() == clients.len(),
        forall|k: int|
            0 <= k < clients.len() ==> #[trigger] results[k] == (LayoutResult {
                key: clients[k].key,
                rect: super::grid::cell(
                    area,
                    gap,
                    clients.len() as int,
                    cols,
                    k,
                    clients[k].border_w as int,
                ),
            }),
        0 <= clients[i].border_w,
        shown_whole(results[i].rect),
        i > 0 ==> 0 <= clients[i - 1].border_w && shown_whole(results[i - 1].rect),
        i >= cols ==> 0 <= clients[i - cols].border_w && shown_whole(results[i - cols].rect),
    ensures
        in_cell(
            results,
            clients,
            i,
            cols,
            area.x as int,
            area.y as int,
            area.x + area.w,
            area.y + area.h,
            gap,
        ),
{
    let n = clients.len() as int;
    row_and_column(i, cols);
    last_row(n, cols, i);
    cell_shape(results, clients, area, gap, cols, i);
    if i % cols != 0 {
        row_and_column(i - 1, cols);
        last_row(n, cols, i - 1);
        cell_shape(results, clients, area, gap, cols, i - 1);
        let k = super::grid::in_row(n, cols, i);
        let q = super::quotient(area.w - (k - 1) * gap, k);
        let c = i % cols;
        assert(c * (q + gap) == (c - 1) * (q + gap) + q + gap) by (nonlinear_arith);
        super::grid::cells_fill_the_area(area, gap, n, cols, i - 1);
        last_is_widest(area.w as int, gap, k);
        assert((k - 1) * (q + gap) == c * (q + gap) || c < k - 1);
    }
    if i >= cols {
        row_and_column(i - cols, cols);
        last_row(n, cols, i - cols);
        cell_shape(results, clients, area, gap, cols, i - cols);
        let rows = super::grid::rows_of(n, cols);
        let q = super::quotient(area.h - (rows - 1) * gap, rows);
        let row = i / cols;
        assert(row * (q + gap) == (row - 1) * (q + gap) + q + gap) by (nonlinear_arith);
        last_is_widest(area.h as int, gap, rows);
    }
    if i / cols == 0 {
        assert(0 * (super::quotient(
            area.h - (super::grid::rows_of(n, cols) - 1) * gap,
            super::grid::rows_of(n, cols),
        ) + gap) == 0) by (nonlinear_arith);
    }
    if i % cols == 0 {
        let k = super::grid::in_row(n, cols, i);
        assert(0 * (super::quotient(area.w - (k - 1) * gap, k) + gap) == 0) by (nonlinear_arith);
    }
    let r = results[i];
    let ends_row = (i + 1) % cols == 0 || i == n - 1;
    let in_last_row = (i / cols + 1) * cols >= n;
    assert((i / cols + 1) * cols == (i / cols) * cols + cols) by (nonlinear_arith);
    assert(i % cols == 0 ==> r.rect.x == area.x);
    assert(ends_row <==> i % cols == super::grid::in_row(n, cols, i) - 1);
    assert(ends_row ==> r.rect.x + outer_w(r, clients[i]) == area.x + area.w);
    assert(in_last_row ==> r.rect.y + outer_h(r, clients[i]) == area.y + area.h);
    assert(i < cols ==> r.rect.y == area.y);
    assert(i >= cols ==> below(results[i - cols], clients[i - cols], r, gap));
    assert(i >= cols && !in_last_row ==> outer_h(r, clients[i]) == outer_h(
        results[i - cols],
        clients[i - cols],
    ));
    assert(i >= cols ==> outer_h(r, clients[i]) >= outer_h(results[i - cols], clients[i - cols]));
    assert(i % cols != 0 ==> right_of(results[i - 1], clients[i - 1], r, gap));
    assert(i % cols != 0 ==> outer_h(r, clients[i]) == outer_h(results[i - 1], clients[i - 1]));
    assert(i % cols != 0 && !ends_row ==> outer_w(r, clients[i]) == outer_w(
        results[i - 1],
        clients[i - 1],
    ));
    assert(i % cols != 0 ==> outer_w(r, clients[i]) >= outer_w(results[i - 1], clients[i - 1]));
}

/// The last part of a side is no shorter than the others.
proof fn last_is_widest(side: int, gap: int, k: int)
    requires
        0 <= gap,
        1 <= k,
        side >= (k - 1) * gap,
    ensures
        ({
            let q = super::quotient(side - (k - 1) * gap, k);
            side - (k - 1) * (q + gap) >= q
        }),
{
    let room = side - (k - 1) * gap;
    let q = room / k;
    vstd::arithmetic::div_mod::lemma_fundamental_div_mod(room, k);
    vstd::arithmetic::div_mod::lemma_mod_bound(room, k);
    assert((k - 1) * (q + gap) == k * q - q + (k - 1) * gap) by (nonlinear_arith);
}

proof fn cell_shape<K>(
    results: Seq<LayoutResult<K>>,
    clients: Seq<LayoutClient<K>>,
    area: Rect,
    gap: int,
    cols: int,
    i: int,
)
    requires
        1 <= cols <= clients.len(),
        0 <= i < clients.len(),
        results[i] == (LayoutResult {
            key: clients[i].key,
            rect: super::grid::cell(
                area,
                gap,
                clients.len() as int,
                cols,
                i,
                clients[i].border_w as int,
            ),
        }),
        0 <= clients[i].border_w,
        shown_whole(results[i].rect),
    ensures
        ({
            let n = clients.len() as int;
            let rows = super::grid::rows_of(n, cols);
            let row = i / cols;
            let col = i % cols;
            let k = super::grid::in_row(n, cols, i);
            let cell_w = super::quotient(area.w - (k - 1) * gap, k);
            let cell_h = super::quotient(area.h - (rows - 1) * gap, rows);
            let r = results[i];
            &&& r.rect.x == area.x + col * (cell_w + gap)
            &&& r.rect.y == area.y + row * (cell_h + gap)
            &&& outer_w(r, clients[i]) == if col == k - 1 {
                area.w - col * (cell_w + gap)
            } else {
                cell_w
            }
            &&& outer_h(r, clients[i]) == if row == rows - 1 {
                area.h - row * (cell_h + gap)
            } else {
                cell_h
            }
        }),
{
    let n = clients.len() as int;
    let rows = super::grid::rows_of(n, cols);
    let row = i / cols;
    row_and_column(i, cols);
    let col = i - row * cols;
    let k = super::grid::in_row(n, cols, i);
    let cell_w = super::quotient(area.w - (k - 1) * gap, k);
    let cell_h = super::quotient(area.h - (rows - 1) * gap, rows);
    let dx = col * (cell_w + gap);
    let dy = row * (cell_h + gap);
    framed_whole(
        area.x + dx,
        area.y + dy,
        if col == k - 1 {
            area.w - dx
        } else {
            cell_w
        },
        if row == rows - 1 {
            area.h - dy
        } else {
            cell_h
        },
        clients[i].border_w as int,
    );
}

/// The grid: rows of `cols` windows from the left to the right and from the top
/// down, a gap apart, over all of the area.
pub proof fn grids_stand<K>(
    params: LayoutParams,
    clients: Seq<LayoutClient<K>>,
    cols: int,
    i: int,
)
    requires
        leaves_room(params.screen_area, params.gap),
        1 <= cols <= clients.len() <= i32::MAX,
        0 <= i < clients.len(),
        params.screen_area.w - 2 * params.gap >= cols + (cols - 1) * params.gap,
        ({
            let rows = (clients.len() + cols - 1) / cols;
            params.screen_area.h - 2 * params.gap >= rows + (rows - 1) * params.gap
        }),
        seen(grid(params, clients, cols), clients, params.screen_area, i),
        i > 0 ==> seen(grid(params, clients, cols), clients, params.screen_area, i - 1),
        i >= cols ==> seen(grid(params, clients, cols), clients, params.screen_area, i - cols),
    ensures
        ({
            let screen = params.screen_area;
            let gap = params.gap as int;
            in_cell(
                grid(params, clients, cols),
                clients,
                i,
                cols,
                screen.x + gap,
                screen.y + gap,
                screen.x + screen.w - gap,
                screen.y + screen.h - gap,
                gap,
            )
        }),
{
    let area = super::area_in(params.screen_area, params.gap as int);
    let gap = params.gap as int;
    cells_stand(grid(params, clients, cols), clients, area, gap, cols, i);
}

/// Whether window `i` of five to ten begins a new row of mats. Mats come in
/// groups of five, of which the first is three over two and the second two over
/// three; an incomplete group is one row.
pub open spec fn begins_row(n: int, i: int) -> bool {
    ||| i == 0
    ||| i == 3
    ||| i == 5
    ||| n == 10 && i == 7
}

/// Whether window `i` of five to ten lies where its mat does: the rows one
/// below the other, the mats of a row beside each other and as high, each row
/// over the whole width and the last one down to the end.
pub open spec fn in_mat<K>(
    results: Seq<LayoutResult<K>>,
    clients: Seq<LayoutClient<K>>,
    i: int,
    x: int,
    y: int,
    right: int,
    low: int,
    gap: int,
) -> bool {
    let n = clients.len() as int;
    let r = results[i];
    let ends_row = i == n - 1 || begins_row(n, i + 1);
    &&& r.key == clients[i].key
    &&& i == 0 ==> r.rect.y == y
    &&& begins_row(n, i) ==> r.rect.x == x
    &&& begins_row(n, i) && i > 0 ==> below(results[i - 1], clients[i - 1], r, gap)
    &&& !begins_row(n, i) ==> {
        let before = results[i - 1];
        &&& r.rect.y == before.rect.y
        &&& outer_h(r, clients[i]) == outer_h(before, clients[i - 1])
        &&& right_of(before, clients[i - 1], r, gap)
        &&& !ends_row ==> outer_w(r, clients[i]) == outer_w(before, clients[i - 1])
        &&& 0 <= outer_w(r, clients[i]) - outer_w(before, clients[i - 1]) <= 4
    }
    &&& i == 3 || (n == 10 && i == 7) ==> 0 <= outer_h(r, clients[i]) - outer_h(
        results[i - 1],
        clients[i - 1],
    ) <= 1
    &&& ends_row ==> r.rect.x + outer_w(r, clients[i]) == right
    &&& i == n - 1 ==> r.rect.y + outer_h(r, clients[i]) == low
    &&& i == 4 && n > 5 ==> 0 <= low - gap - 2 * (r.rect.y + outer_h(r, clients[i])) + y <= 1
}

/// The parts of a side, written out.
proof fn parts_of(side: int, gap: int, k: int)
    requires
        0 <= gap,
        1 <= k <= 4,
        side >= k + (k - 1) * gap,
    ensures
        ({
            let q = (side - (k - 1) * gap) / k;
            &&& q >= 1
            &&& k == 1 ==> super::grid::part(side, gap, 1, 0) == (0int, side)
            &&& k == 2 ==> {
                &&& q == (side - gap) / 2
                &&& super::grid::part(side, gap, 2, 0) == (0int, q)
                &&& super::grid::part(side, gap, 2, 1) == (q + gap, side - q - gap)
                &&& q <= side - q - gap <= q + 1
            }
            &&& k == 3 ==> {
                &&& q == (side - 2 * gap) / 3
                &&& super::grid::part(side, gap, 3, 0) == (0int, q)
                &&& super::grid::part(side, gap, 3, 1) == (q + gap, q)
                &&& super::grid::part(side, gap, 3, 2) == (2 * q + 2 * gap, side - 2 * q - 2 * gap)
                &&& q <= side - 2 * q - 2 * gap <= q + 2
            }
            &&& k == 4 ==> {
                &&& q == (side - 3 * gap) / 4
                &&& super::grid::part(side, gap, 4, 0) == (0int, q)
                &&& super::grid::part(side, gap, 4, 1) == (q + gap, q)
                &&& super::grid::part(side, gap, 4, 2) == (2 * q + 2 * gap, q)
                &&& super::grid::part(side, gap, 4, 3) == (3 * q + 3 * gap, side - 3 * q - 3 * gap)
                &&& q <= side - 3 * q - 3 * gap <= q + 3
            }
        }),
{
    let room = side - (k - 1) * gap;
    let q = room / k;
    assert((k - 1) * gap == if k == 1 {
        0
    } else if k == 2 {
        gap
    } else if k == 3 {
        2 * gap
    } else {
        3 * gap
    }) by (nonlinear_arith)
        requires
            1 <= k <= 4,
    ;
    let step = q + gap;
    assert(0 * step == 0 && 1 * step == step && 2 * step == step + step && 3 * step == step + step
        + step) by (nonlinear_arith);
    vstd::arithmetic::div_mod::lemma_fundamental_div_mod(room, k);
    vstd::arithmetic::div_mod::lemma_mod_bound(room, k);
    assert(k * q == if k == 1 {
        q
    } else if k == 2 {
        q + q
    } else if k == 3 {
        q + q + q
    } else {
        q + q + q + q
    }) by (nonlinear_arith)
        requires
            1 <= k <= 4,
    ;
}

proof fn mat_shape<K>(
    results: Seq<LayoutResult<K>>,
    clients: Seq<LayoutClient<K>>,
    area: Rect,
    gap: int,
    i: int,
)
    requires
        0 <= i < clients.len(),
        results[i] == ({
            let (x, y, w, h) = super::grid::mat(area, gap, clients.len() as int, i);
            LayoutResult {
                key: clients[i].key,
                rect: super::framed(x, y, w, h, clients[i].border_w as int),
            }
        }),
        0 <= clients[i].border_w,
        shown_whole(results[i].rect),
    ensures
        ({
            let (x, y, w, h) = super::grid::mat(area, gap, clients.len() as int, i);
            let r = results[i];
            &&& r.key == clients[i].key
            &&& r.rect.x == x
            &&& r.rect.y == y
            &&& outer_w(r, clients[i]) == w
            &&& outer_h(r, clients[i]) == h
        }),
{
    let (x, y, w, h) = super::grid::mat(area, gap, clients.len() as int, i);
    framed_whole(x, y, w, h, clients[i].border_w as int);
}

/// Where the first five mats lie that fill `h` of the height.
proof fn first_mats(area: Rect, gap: int, n: int, i: int)
    requires
        0 <= gap,
        5 <= n <= 10,
        0 <= i < 5,
        area.w >= 5 + 4 * gap,
        area.h >= 6 + 3 * gap,
    ensures
        ({
            let (w, h) = (area.w as int, if n == 5 {
                area.h as int
            } else {
                (area.h - gap) / 2
            });
            let (q2, q3, p) = ((w - gap) / 2, (w - 2 * gap) / 3, (h - gap) / 2);
            let (x, y) = (area.x as int, area.y as int);
            super::grid::mat(area, gap, n, i) == if i == 0 {
                (x, y, q3, p)
            } else if i == 1 {
                (x + q3 + gap, y, q3, p)
            } else if i == 2 {
                (x + 2 * q3 + 2 * gap, y, w - 2 * q3 - 2 * gap, p)
            } else if i == 3 {
                (x, y + p + gap, q2, h - p - gap)
            } else {
                (x + q2 + gap, y + p + gap, w - q2 - gap, h - p - gap)
            }
        }),
{
    let (w, h) = (area.w as int, area.h as int);
    assert((1 - 1) * gap == 0 && (2 - 1) * gap == gap && (3 - 1) * gap == 2 * gap)
        by (nonlinear_arith);
    parts_of(h, gap, 1);
    parts_of(h, gap, 2);
    parts_of(w, gap, 2);
    parts_of(w, gap, 3);
    let groups = (n + 4) / 5;
    let ph = super::grid::part(h, gap, groups, 0).1;
    parts_of(ph, gap, 2);
}

/// Where the mats after the first five lie.
proof fn later_mats(area: Rect, gap: int, n: int, i: int)
    requires
        0 <= gap,
        6 <= n <= 10,
        5 <= i < n,
        area.w >= 5 + 4 * gap,
        area.h >= 6 + 3 * gap,
    ensures
        ({
            let w = area.w as int;
            let top = (area.h - gap) / 2;
            let h = area.h - top - gap;
            let (x, y) = (area.x as int, area.y + top + gap);
            let p = (h - gap) / 2;
            let (q2, q3, q4) = ((w - gap) / 2, (w - 2 * gap) / 3, (w - 3 * gap) / 4);
            let j = i - 5;
            super::grid::mat(area, gap, n, i) == if n == 6 {
                (x, y, w, h)
            } else if n == 7 {
                if j == 0 {
                    (x, y, q2, h)
                } else {
                    (x + q2 + gap, y, w - q2 - gap, h)
                }
            } else if n == 8 {
                if j == 0 {
                    (x, y, q3, h)
                } else if j == 1 {
                    (x + q3 + gap, y, q3, h)
                } else {
                    (x + 2 * q3 + 2 * gap, y, w - 2 * q3 - 2 * gap, h)
                }
            } else if n == 9 {
                if j == 0 {
                    (x, y, q4, h)
                } else if j == 1 {
                    (x + q4 + gap, y, q4, h)
                } else if j == 2 {
                    (x + 2 * q4 + 2 * gap, y, q4, h)
                } else {
                    (x + 3 * q4 + 3 * gap, y, w - 3 * q4 - 3 * gap, h)
                }
            } else {
                if j == 0 {
                    (x, y, q2, p)
                } else if j == 1 {
                    (x + q2 + gap, y, w - q2 - gap, p)
                } else if j == 2 {
                    (x, y + p + gap, q3, h - p - gap)
                } else if j == 3 {
                    (x + q3 + gap, y + p + gap, q3, h - p - gap)
                } else {
                    (x + 2 * q3 + 2 * gap, y + p + gap, w - 2 * q3 - 2 * gap, h - p - gap)
                }
            }
        }),
{
    let (w, h) = (area.w as int, area.h as int);
    assert((1 - 1) * gap == 0 && (2 - 1) * gap == gap && (3 - 1) * gap == 2 * gap && (4 - 1) * gap
        == 3 * gap) by (nonlinear_arith);
    parts_of(h, gap, 2);
    parts_of(w, gap, 1);
    parts_of(w, gap, 2);
    parts_of(w, gap, 3);
    parts_of(w, gap, 4);
    let ph = super::grid::part(h, gap, 2, 1).1;
    parts_of(ph, gap, 2);
    assert((n + 4) / 5 == 2);
    assert(i / 5 == 1 && i % 5 == i - 5);
}

/// How a mat lies to the one before it.
proof fn mat_follows(
    now: (int, int, int, int),
    before: (int, int, int, int),
    area: Rect,
    gap: int,
    n: int,
    i: int,
)
    requires
        0 <= gap,
        5 <= n <= 10,
        0 <= i < n,
        area.w >= 5 + 4 * gap,
        area.h >= 6 + 3 * gap,
        now == super::grid::mat(area, gap, n, i),
        i > 0 ==> before == super::grid::mat(area, gap, n, i - 1),
    ensures
        ({
            let (x, y, w, h) = now;
            let (bx, by, bw, bh) = before;
            let ends_row = i == n - 1 || begins_row(n, i + 1);
            &&& i == 0 ==> y == area.y
            &&& begins_row(n, i) ==> x == area.x
            &&& begins_row(n, i) && i > 0 ==> y == by + bh + gap
            &&& !begins_row(n, i) ==> {
                &&& y == by
                &&& h == bh
                &&& x == bx + bw + gap
                &&& !ends_row ==> w == bw
                &&& 0 <= w - bw <= 4
            }
            &&& i == 3 || (n == 10 && i == 7) ==> 0 <= h - bh <= 1
            &&& ends_row ==> x + w == area.x + area.w
            &&& i == n - 1 ==> y + h == area.y + area.h
            &&& i == 4 && n > 5 ==> 0 <= area.y + area.h - gap - 2 * (y + h) + area.y <= 1
        }),
{
    if i < 5 {
        first_mats(area, gap, n, i);
    } else {
        later_mats(area, gap, n, i);
    }
    if 0 < i <= 5 {
        first_mats(area, gap, n, i - 1);
    } else if i > 5 {
        later_mats(area, gap, n, i - 1);
    }
}

proof fn mats_lie<K>(
    results: Seq<LayoutResult<K>>,
    clients: Seq<LayoutClient<K>>,
    area: Rect,
    gap: int,
    i: int,
)
    requires
        0 <= gap,
        5 <= clients.len() <= 10,
        0 <= i < clients.len(),
        area.w >= 5 + 4 * gap,
        area.h >= 6 + 3 * gap,
        forall|k: int|
            i - 1 <= k <= i && 0 <= k ==> #[trigger] results[k] == ({
                let (x, y, w, h) = super::grid::mat(area, gap, clients.len() as int, k);
                LayoutResult {
                    key: clients[k].key,
                    rect: super::framed(x, y, w, h, clients[k].border_w as int),
                }
            }),
        0 <= clients[i].border_w,
        shown_whole(results[i].rect),
        i > 0 ==> 0 <= clients[i - 1].border_w && shown_whole(results[i - 1].rect),
    ensures
        in_mat(
            results,
            clients,
            i,
            area.x as int,
            area.y as int,
            area.x + area.w,
            area.y + area.h,
            gap,
        ),
{
    let n = clients.len() as int;
    mat_shape(results, clients, area, gap, i);
    if i > 0 {
        mat_shape(results, clients, area, gap, i - 1);
    }
    mat_follows(
        super::grid::mat(area, gap, n, i),
        super::grid::mat(area, gap, n, i - 1),
        area,
        gap,
        n,
        i,
    );
}

/// From five windows on, the mats lie in rows: three over two, then two over
/// three, an incomplete group in one row.
pub proof fn mats_lie_in_rows<K>(
    params: LayoutParams,
    clients: Seq<LayoutClient<K>>,
    cols: int,
    i: int,
)
    requires
        leaves_room(params.screen_area, params.gap),
        5 <= clients.len() <= 10,
        0 <= i < clients.len(),
        params.screen_area.w - 2 * params.gap >= 5 + 4 * params.gap,
        params.screen_area.h - 2 * params.gap >= 6 + 3 * params.gap,
        seen(tatami(params, clients, cols), clients, params.screen_area, i),
        i > 0 ==> seen(tatami(params, clients, cols), clients, params.screen_area, i - 1),
    ensures
        ({
            let screen = params.screen_area;
            let gap = params.gap as int;
            in_mat(
                tatami(params, clients, cols),
                clients,
                i,
                screen.x + gap,
                screen.y + gap,
                screen.x + screen.w - gap,
                screen.y + screen.h - gap,
                gap,
            )
        }),
{
    let area = super::area_in(params.screen_area, params.gap as int);
    mats_lie(tatami(params, clients, cols), clients, area, params.gap as int, i);
}

/// Up to four windows: one takes the area; two stand beside each other; of three
/// the first is the left half and the others are the right one, one below the
/// other; four form two rows of two. More than ten form a grid.
pub proof fn few_mats_lie<K>(
    params: LayoutParams,
    clients: Seq<LayoutClient<K>>,
    cols: int,
)
    requires
        leaves_room(params.screen_area, params.gap),
        params.screen_area.w - 2 * params.gap >= 2 + params.gap,
        params.screen_area.h - 2 * params.gap >= 2 + params.gap,
        clients.len() <= 4 ==> forall|k: int|
            0 <= k < clients.len() ==> #[trigger] seen(
                tatami(params, clients, cols),
                clients,
                params.screen_area,
                k,
            ),
    ensures
        clients.len() > 10 ==> tatami(params, clients, cols) == grid(params, clients, cols),
        ({
            let r = tatami(params, clients, cols);
            let c = clients;
            let screen = params.screen_area;
            let gap = params.gap as int;
            let (x, y) = (screen.x + gap, screen.y + gap);
            let (w, h) = (screen.w - 2 * gap, screen.h - 2 * gap);
            let (half_w, half_h) = ((w - gap) / 2, (h - gap) / 2);
            &&& 1 <= c.len() <= 4 ==> {
                &&& r[0].key == c[0].key
                &&& r[0].rect.x == x
                &&& r[0].rect.y == y
                &&& outer_w(r[0], c[0]) == if c.len() == 1 {
                    w
                } else {
                    half_w
                }
                &&& outer_h(r[0], c[0]) == if c.len() == 4 {
                    half_h
                } else {
                    h
                }
            }
            &&& 2 <= c.len() <= 4 ==> {
                &&& r[1].key == c[1].key
                &&& right_of(r[0], c[0], r[1], gap)
                &&& r[1].rect.y == y
                &&& outer_w(r[1], c[1]) == if c.len() == 3 {
                    w - half_w - gap
                } else {
                    half_w
                }
                &&& outer_h(r[1], c[1]) == if c.len() == 2 {
                    h
                } else {
                    half_h
                }
            }
            &&& c.len() == 3 ==> {
                &&& r[2].key == c[2].key
                &&& r[2].rect.x == r[1].rect.x
                &&& outer_w(r[2], c[2]) == outer_w(r[1], c[1])
                &&& below(r[1], c[1], r[2], gap)
                &&& r[2].rect.y + outer_h(r[2], c[2]) == y + h
            }
            &&& c.len() == 4 ==> {
                &&& r[2].key == c[2].key
                &&& r[3].key == c[3].key
                &&& r[2].rect.x == r[0].rect.x
                &&& r[3].rect.x == r[1].rect.x
                &&& below(r[0], c[0], r[2], gap)
                &&& below(r[1], c[1], r[3], gap)
                &&& outer_w(r[2], c[2]) == half_w
                &&& outer_w(r[3], c[3]) == half_w
                &&& outer_h(r[2], c[2]) == half_h
                &&& outer_h(r[3], c[3]) == half_h
            }
        }),
{
    let n = clients.len() as int;
    if 1 <= n <= 4 {
        let results = tatami(params, clients, cols);
        let area = super::area_in(params.screen_area, params.gap as int);
        let gap = params.gap as int;
        assert((2 - 1) * gap == gap) by (nonlinear_arith);
        parts_of(area.w as int, gap, 2);
        parts_of(area.h as int, gap, 2);
        let (q, p) = ((area.w - gap) / 2, (area.h - gap) / 2);
        assert(0 * (q + gap) == 0 && 1 * (q + gap) == q + gap && 0 * (p + gap) == 0 && 1 * (p + gap)
            == p + gap) by (nonlinear_arith);
        few_shown(results, clients, area, gap, params.screen_area);
    }
}

proof fn few_shown<K>(
    results: Seq<LayoutResult<K>>,
    clients: Seq<LayoutClient<K>>,
    area: Rect,
    gap: int,
    screen: Rect,
)
    requires
        1 <= clients.len() <= 4,
        results.len() == clients.len(),
        forall|k: int|
            0 <= k < clients.len() ==> #[trigger] results[k] == ({
                let (x, y, w, h) = super::grid::mat(area, gap, clients.len() as int, k);
                LayoutResult {
                    key: clients[k].key,
                    rect: super::framed(x, y, w, h, clients[k].border_w as int),
                }
            }),
        forall|k: int|
            0 <= k < clients.len() ==> #[trigger] seen(results, clients, screen, k),
    ensures
        forall|k: int|
            0 <= k < clients.len() ==> {
                let (x, y, w, h) = super::grid::mat(area, gap, clients.len() as int, k);
                let r = #[trigger] results[k];
                &&& r.key == clients[k].key
                &&& r.rect.x == x
                &&& r.rect.y == y
                &&& outer_w(r, clients[k]) == w
                &&& outer_h(r, clients[k]) == h
            },
{
    assert forall|k: int| 0 <= k < clients.len() implies {
        let (x, y, w, h) = super::grid::mat(area, gap, clients.len() as int, k);
        let r = #[trigger] results[k];
        &&& r.key == clients[k].key
        &&& r.rect.x == x
        &&& r.rect.y == y
        &&& outer_w(r, clients[k]) == w
        &&& outer_h(r, clients[k]) == h
    } by {
        assert(seen(results, clients, screen, k));
        mat_shape(results, clients, area, gap, k);
    }
}

/// Whether window `i` of a fan stands where it does: the first in the middle at
/// the bottom; the others in pairs, one to the right and one as far to the left,
/// each pair as far out and as far up from the one before it as the first is
/// from the middle.
pub open spec fn in_fan<K>(
    results: Seq<LayoutResult<K>>,
    clients: Seq<LayoutClient<K>>,
    fan: Fan,
    i: int,
    screen: Rect,
    gap: int,
) -> bool {
    let r = results[i];
    let first = results[0];
    &&& r.key == clients[i].key
    &&& outer_w(r, clients[i]) == fan.card_w
    &&& outer_h(r, clients[i]) == fan.card_h
    &&& first.rect.y + fan.card_h == screen.y + screen.h - gap
    &&& 0 <= screen.w - 2 * gap - fan.card_w - 2 * (first.rect.x - screen.x - gap) <= 1
    &&& i % 2 == 1 ==> r.rect.x >= first.rect.x + gap
    &&& i % 2 == 1 && i + 1 < clients.len() ==> {
        let other = results[i + 1];
        &&& other.rect.y == r.rect.y
        &&& r.rect.x - first.rect.x == first.rect.x - other.rect.x
    }
    &&& i == 1 ==> first.rect.y - r.rect.y == fan.rise
    &&& i >= 2 ==> {
        let inner = results[i - 2];
        let step = results[1].rect.x - first.rect.x;
        &&& inner.rect.y - r.rect.y == fan.rise
        &&& i % 2 == 1 ==> r.rect.x - inner.rect.x == step
        &&& i % 2 == 0 ==> inner.rect.x - r.rect.x == step
    }
}

proof fn card_corner(params: LayoutParams, n: int, fan: Fan, i: int)
    ensures
        ({
            let step = super::cards::step_of(params, n, fan.card_w as int, fan.steep as int);
            let (x, y) = super::cards::corner(params, n, fan, 0);
            let (cx, cy) = super::cards::corner(params, n, fan, i);
            let d = (i + 1) / 2;
            &&& i % 2 == 1 ==> cx == x + d * step
            &&& i % 2 == 0 ==> cx == x - d * step
            &&& cy == y - d * fan.rise
            &&& d == 1 ==> d * step == step && d * fan.rise == fan.rise
        }),
{
    let step = super::cards::step_of(params, n, fan.card_w as int, fan.steep as int);
    let zero = (0int + 1) / 2;
    assert(zero * step == 0 && zero * fan.rise == 0) by (nonlinear_arith)
        requires
            zero == 0,
    ;
    let d = (i + 1) / 2;
    assert(d == 1 ==> d * step == step && d * fan.rise == fan.rise) by (nonlinear_arith);
}

/// The v-stack is a fan of cards.
pub proof fn fans_stand<K>(
    params: LayoutParams,
    clients: Seq<LayoutClient<K>>,
    fan: Fan,
    i: int,
)
    requires
        leaves_room(params.screen_area, params.gap),
        0 <= i < clients.len() <= i32::MAX,
        fan.card_w <= params.screen_area.w - 2 * params.gap,
        0 <= fan.card_h <= params.screen_area.h - 2 * params.gap,
        seen(vstack(params, clients, fan), clients, params.screen_area, 0),
        seen(vstack(params, clients, fan), clients, params.screen_area, i),
        clients.len() > 1 ==> seen(vstack(params, clients, fan), clients, params.screen_area, 1),
        i >= 2 ==> seen(vstack(params, clients, fan), clients, params.screen_area, i - 2),
        i + 1 < clients.len() ==> seen(
            vstack(params, clients, fan),
            clients,
            params.screen_area,
            i + 1,
        ),
    ensures
        in_fan(
            vstack(params, clients, fan),
            clients,
            fan,
            i,
            params.screen_area,
            params.gap as int,
        ),
{
    let n = clients.len() as int;
    let gap = params.gap as int;
    let step = super::cards::step_of(params, n, fan.card_w as int, fan.steep as int);
    let d = (i + 1) / 2;
    card_corner(params, n, fan, 0);
    card_corner(params, n, fan, 1);
    card_corner(params, n, fan, i);
    card_corner(params, n, fan, i + 1);
    card_corner(params, n, fan, i - 2);
    assert(d * step == (d - 1) * step + step && d * fan.rise == (d - 1) * fan.rise + fan.rise)
        by (nonlinear_arith);
    assert(d >= 1 ==> d * step >= step) by (nonlinear_arith)
        requires
            step >= 0,
    ;
    assert(d == 1 ==> (d - 1) * step == 0 && (d - 1) * fan.rise == 0) by (nonlinear_arith);
    if i >= 2 {
        assert((i - 2 + 1) / 2 == d - 1);
    }
    if i % 2 == 1 {
        assert((i + 1 + 1) / 2 == d);
    }
}

/// Whether window `j` of a column of the strip is seen whole.
pub open spec fn seen_in_strip<K>(
    results: Seq<LayoutResult<K>>,
    clients: Seq<LayoutClient<K>>,
    screen: Rect,
    j: int,
) -> bool {
    &&& 0 <= clients[j].border_w
    &&& shown_whole(results[j].rect)
    &&& results[j].rect.y - screen.y < i32::MAX
}

/// Whether no share is below nothing.
pub open spec fn no_negative_share(shares: Seq<Option<i32>>) -> bool {
    forall|k: int| 0 <= k < shares.len() && shares[k] is Some ==> (#[trigger] shares[k])->0 >= 0
}

proof fn taken_is_positive(height: int, count: int, shares: Seq<Option<i32>>, j: int)
    requires
        0 <= j <= count,
        no_negative_share(shares),
    ensures
        0 <= super::strip::taken(height, count, shares, j) <= i32::MAX,
    decreases j,
{
    if j > 0 {
        taken_is_positive(height, count, shares, j - 1);
        let before = super::strip::taken(height, count, shares, j - 1);
        let left = crate::geometry::larger(height - before, 0);
        let others = crate::geometry::smaller(count - (j - 1), i32::MAX as int);
        vstd::arithmetic::div_mod::lemma_div_pos_is_pos(left, others);
    }
}

/// The windows of a column of the strip stand below each other: the first a gap
/// below the upper edge of the screen, each other one a gap below the lower
/// edge of the one before it; all at the place and of the width of the column.
/// A window with a share is as high as that.
pub proof fn strip_columns_stand<K>(
    params: ScrollingParams,
    clients: Seq<LayoutClient<K>>,
    x: i32,
    w: i32,
    shares: Seq<Option<i32>>,
    j: int,
)
    requires
        leaves_room(params.screen_area, params.gap),
        0 <= j < clients.len() <= i32::MAX,
        no_negative_share(shares),
        seen_in_strip(
            column(params, clients, x as int, w as int, shares),
            clients,
            params.screen_area,
            j,
        ),
        j > 0 ==> seen_in_strip(
            column(params, clients, x as int, w as int, shares),
            clients,
            params.screen_area,
            j - 1,
        ),
    ensures
        ({
            let results = column(params, clients, x as int, w as int, shares);
            let r = results[j];
            &&& r.key == clients[j].key
            &&& r.rect.x == x
            &&& outer_w(r, clients[j]) == w
            &&& j == 0 ==> r.rect.y == params.screen_area.y + params.gap
            &&& j > 0 ==> below(results[j - 1], clients[j - 1], r, params.gap as int)
            &&& j < shares.len() && shares[j] is Some ==> outer_h(r, clients[j]) == shares[j]->0
        }),
{
    let gap = params.gap as int;
    let count = clients.len() as int;
    let height = super::strip::column_height(params, count);
    taken_is_positive(height, count, shares, j);
    assert(0 <= j * gap) by (nonlinear_arith)
        requires
            0 <= j,
            0 <= gap,
    ;
    if j > 0 {
        taken_is_positive(height, count, shares, j - 1);
        assert(j * gap == (j - 1) * gap + gap && 0 <= (j - 1) * gap) by (nonlinear_arith)
            requires
                1 <= j,
                0 <= gap,
        ;
    } else {
        assert(j * gap == 0) by (nonlinear_arith)
            requires
                j == 0,
        ;
    }
}

/// Hence no two windows of a column overlap, and the later one is lower.
pub proof fn strip_columns_do_not_overlap<K>(
    params: ScrollingParams,
    clients: Seq<LayoutClient<K>>,
    x: i32,
    w: i32,
    shares: Seq<Option<i32>>,
    i: int,
    j: int,
)
    requires
        leaves_room(params.screen_area, params.gap),
        0 <= i < j < clients.len() <= i32::MAX,
        no_negative_share(shares),
        forall|k: int|
            i <= k <= j ==> #[trigger] seen_in_strip(
                column(params, clients, x as int, w as int, shares),
                clients,
                params.screen_area,
                k,
            ),
    ensures
        ({
            let results = column(params, clients, x as int, w as int, shares);
            results[i].rect.y + outer_h(results[i], clients[i]) + params.gap <= results[j].rect.y
        }),
    decreases j - i,
{
    let results = column(params, clients, x as int, w as int, shares);
    let screen = params.screen_area;
    assert(seen_in_strip(results, clients, screen, j));
    assert(seen_in_strip(results, clients, screen, j - 1));
    strip_columns_stand(params, clients, x, w, shares, j);
    if i < j - 1 {
        strip_columns_do_not_overlap(params, clients, x, w, shares, i, j - 1);
    }
}

/// Without shares the windows of a column divide its height evenly, to a pixel,
/// and the last ends a gap above the lower edge of the screen.
pub proof fn strip_columns_are_even<K>(
    params: ScrollingParams,
    clients: Seq<LayoutClient<K>>,
    x: i32,
    w: i32,
    j: int,
)
    requires
        leaves_room(params.screen_area, params.gap),
        0 <= j < clients.len() <= i32::MAX,
        params.screen_area.h - 2 * params.gap >= clients.len() + (clients.len() - 1) * params.gap,
        seen_in_strip(
            column(params, clients, x as int, w as int, Seq::empty()),
            clients,
            params.screen_area,
            j,
        ),
    ensures
        ({
            let r = column(params, clients, x as int, w as int, Seq::empty())[j];
            let n = clients.len() as int;
            let even = (params.screen_area.h - 2 * params.gap - (n - 1) * params.gap) / n;
            &&& even <= outer_h(r, clients[j]) <= even + 1
            &&& j == n - 1 ==> r.rect.y + outer_h(r, clients[j]) == params.screen_area.y
                + params.screen_area.h - params.gap
        }),
{
    let gap = params.gap as int;
    let n = clients.len() as int;
    let height = super::strip::column_height(params, n);
    assert(0 <= (n - 1) * gap && 0 <= j * gap <= (n - 1) * gap) by (nonlinear_arith)
        requires
            0 <= j <= n - 1,
            0 <= gap,
    ;
    even_in_strip(height, n, j);
    if j == n - 1 {
        let used = super::strip::taken(height, n, Seq::empty(), j);
        vstd::arithmetic::div_mod::lemma_div_basics_2(height - used);
    }
}

proof fn even_in_strip(height: int, n: int, j: int)
    requires
        0 <= j < n <= i32::MAX,
        n <= height <= i32::MAX,
    ensures
        ({
            let none = Seq::<Option<i32>>::empty();
            let even = height / n;
            let used = super::strip::taken(height, n, none, j);
            let length = super::strip::window_height(height, used, j, n, None);
            let left = height - used;
            &&& 1 <= even
            &&& 0 <= used
            &&& even * (n - j) <= left <= (even + 1) * (n - j)
            &&& even <= length <= even + 1
            &&& length == even ==> left < (even + 1) * (n - j)
            &&& length == even + 1 ==> left == (even + 1) * (n - j)
            &&& length <= left
        }),
    decreases j,
{
    let none = Seq::<Option<i32>>::empty();
    let even = height / n;
    let used = super::strip::taken(height, n, none, j);
    let left = height - used;
    let k = n - j;
    vstd::arithmetic::div_mod::lemma_fundamental_div_mod(height, n);
    vstd::arithmetic::div_mod::lemma_mod_bound(height, n);
    assert(1 <= even && even * n <= height <= (even + 1) * n) by (nonlinear_arith)
        requires
            height == n * even + height % n,
            0 <= height % n < n,
            height >= n,
            n >= 1,
    ;
    if j > 0 {
        even_in_strip(height, n, j - 1);
        let before = super::strip::taken(height, n, none, j - 1);
        let length = super::strip::window_height(height, before, j - 1, n, None);
        assert(n - (j - 1) == k + 1);
        assert(used == before + length);
        assert(even * (k + 1) == even * k + even && (even + 1) * (k + 1) == (even + 1) * k + even
            + 1 && even * k <= (even + 1) * k) by (nonlinear_arith)
            requires
                0 <= k,
        ;
        assert(even * k <= left <= (even + 1) * k);
    }
    vstd::arithmetic::div_mod::lemma_fundamental_div_mod(left, k);
    vstd::arithmetic::div_mod::lemma_mod_bound(left, k);
    let q = left / k;
    assert(1 <= left && even <= q <= even + 1 && (q == even + 1 ==> left == (even + 1) * k) && (q
        == even ==> left < (even + 1) * k) && q <= left) by (nonlinear_arith)
        requires
            left == k * q + left % k,
            0 <= left % k < k,
            even * k <= left <= (even + 1) * k,
            1 <= even,
            1 <= k,
    ;
}

/// How many windows stand in the first `i` columns.
pub open spec fn windows_before<K>(columns: Seq<Seq<LayoutClient<K>>>, i: int) -> nat
    decreases i,
{
    if i <= 0 {
        0
    } else {
        windows_before(columns, i - 1) + columns[i - 1].len()
    }
}

/// The strip is its columns one after the other, each at its own place, of its
/// own width, and with its own shares.
pub proof fn strips_hold_their_columns<K>(
    params: ScrollingParams,
    columns: Seq<Seq<LayoutClient<K>>>,
    xs: Seq<i32>,
    widths: Seq<i32>,
    shares: Seq<Seq<Option<i32>>>,
    i: int,
)
    requires
        0 <= i < columns.len(),
    ensures
        ({
            let results = scrolling(params, columns, xs, widths, shares);
            let start = windows_before(columns, i) as int;
            &&& results.len() == windows_before(columns, columns.len() as int)
            &&& start + columns[i].len() <= results.len()
            &&& results.subrange(start, start + columns[i].len()) == column(
                params,
                columns[i],
                xs[i] as int,
                widths[i] as int,
                shares[i],
            )
        }),
    decreases columns.len(),
{
    let results = scrolling(params, columns, xs, widths, shares);
    let rest = columns.drop_last();
    let last = columns.len() - 1;
    same_windows_before(columns, rest, last);
    strip_length(params, rest, xs, widths, shares);
    if i == last {
        assert(results.subrange(
            windows_before(columns, i) as int,
            (windows_before(columns, i) + columns[i].len()) as int,
        ) =~= column(params, columns[i], xs[i] as int, widths[i] as int, shares[i]));
    } else {
        strips_hold_their_columns(params, rest, xs, widths, shares, i);
        same_windows_before(columns, rest, i);
        let start = windows_before(columns, i) as int;
        let before = scrolling(params, rest, xs, widths, shares);
        assert(results.subrange(start, start + columns[i].len()) =~= before.subrange(
            start,
            start + columns[i].len(),
        ));
    }
}

proof fn strip_length<K>(
    params: ScrollingParams,
    columns: Seq<Seq<LayoutClient<K>>>,
    xs: Seq<i32>,
    widths: Seq<i32>,
    shares: Seq<Seq<Option<i32>>>,
)
    ensures
        scrolling(params, columns, xs, widths, shares).len() == windows_before(
            columns,
            columns.len() as int,
        ),
    decreases columns.len(),
{
    if columns.len() > 0 {
        strip_length(params, columns.drop_last(), xs, widths, shares);
        same_windows_before(columns, columns.drop_last(), columns.len() - 1);
    }
}

proof fn same_windows_before<K>(
    a: Seq<Seq<LayoutClient<K>>>,
    b: Seq<Seq<LayoutClient<K>>>,
    i: int,
)
    requires
        0 <= i <= b.len() <= a.len(),
        forall|k: int| 0 <= k < b.len() ==> #[trigger] a[k] == b[k],
    ensures
        windows_before(a, i) == windows_before(b, i),
    decreases i,
{
    if i > 0 {
        same_windows_before(a, b, i - 1);
        assert(a[i - 1] == b[i - 1]);
    }
}

/// Columns of the strip begin one after the other, each a gap behind the end of
/// the one before it; the first begins at its beginning.
pub proof fn strip_columns_follow(widths: Seq<i32>, gap: int, i: int)
    requires
        0 <= i < widths.len(),
        0 <= gap,
        1 <= widths[i],
        super::strip::begins_at(widths, gap, i + 1) < i32::MAX,
    ensures
        super::strip::begins_at(widths, gap, 0) == 0,
        super::strip::begins_at(widths, gap, i + 1) == super::strip::begins_at(widths, gap, i)
            + widths[i] + gap,
{
    strip_begins(widths, gap, i);
}

proof fn strip_begins(widths: Seq<i32>, gap: int, i: int)
    requires
        0 <= gap,
    ensures
        0 <= super::strip::begins_at(widths, gap, i) <= i32::MAX,
    decreases i,
{
    if i > 0 {
        strip_begins(widths, gap, i - 1);
    }
}

} // verus!
