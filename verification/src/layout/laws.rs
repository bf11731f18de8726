//! What the layouts come to: where the windows stand on the screen and how they
//! stand to each other.
use super::cards::{fullscreen, monocle};
use super::columns::{Line, all_placed, bstack, centered, deck, fibonacci, tile};
use super::grid::grid;
use super::{LayoutClient, LayoutParams, LayoutResult};
use crate::geometry::Rect;
use vstd::prelude::*;

verus! {

/// Whether a screen leaves room inside a gap on every side, and its numbers
/// stay in range.
pub open spec fn leaves_room(screen: Rect, gap: i32) -> bool {
    &&& 0 <= gap
    &&& 2 * gap < screen.w
    &&& 2 * gap < screen.h
    &&& i32::MIN < screen.x
    &&& i32::MIN < screen.y
    &&& screen.x + screen.w <= i32::MAX
    &&& screen.y + screen.h <= i32::MAX
}

/// Whether a rectangle shows all of what its window was given: it was neither
/// widened to a pixel nor brought into the range of coordinates.
pub open spec fn shown_whole(r: Rect) -> bool {
    &&& 1 < r.w < i32::MAX
    &&& 1 < r.h < i32::MAX
    &&& i32::MIN < r.x < i32::MAX
    &&& i32::MIN < r.y < i32::MAX
}

/// Width with the border.
pub open spec fn outer_w<K>(r: LayoutResult<K>, c: LayoutClient<K>) -> int {
    r.rect.w + 2 * c.border_w
}

/// Height with the border.
pub open spec fn outer_h<K>(r: LayoutResult<K>, c: LayoutClient<K>) -> int {
    r.rect.h + 2 * c.border_w
}

/// Whether `b` begins a gap below the lower edge of `a`.
pub open spec fn below<K>(
    a: LayoutResult<K>,
    ca: LayoutClient<K>,
    b: LayoutResult<K>,
    gap: int,
) -> bool {
    b.rect.y == a.rect.y + outer_h(a, ca) + gap
}

/// Whether `b` begins a gap to the right of the right edge of `a`.
pub open spec fn right_of<K>(
    a: LayoutResult<K>,
    ca: LayoutClient<K>,
    b: LayoutResult<K>,
    gap: int,
) -> bool {
    b.rect.x == a.rect.x + outer_w(a, ca) + gap
}

/// Whether window `i`, where it has a share, takes just that length.
pub open spec fn takes_share(shares: Seq<Option<i32>>, i: int, length: int) -> bool {
    0 <= i < shares.len() && shares[i] is Some && shares[i]->0 >= 1 ==> length == shares[i]->0
}

proof fn used_is_positive(line: Line, gap: int, shares: Seq<Option<i32>>, j: int)
    ensures
        0 <= line.used_by(gap, shares, j) <= i32::MAX,
    decreases j,
{
    if j > 0 {
        used_is_positive(line, gap, shares, j - 1);
    }
}

/// The windows of a column stand below each other, those of a row beside each
/// other, a gap apart, and each as wide or high as the line.
proof fn line_stands<K>(
    line: Line,
    gap: int,
    clients: Seq<LayoutClient<K>>,
    shares: Seq<Option<i32>>,
    j: int,
)
    requires
        0 <= gap,
        0 <= j < line.count,
        line.client_at(j) < clients.len(),
        clients[line.client_at(j)].border_w >= 0,
        shown_whole(line.placed(gap, clients, shares)[j].rect),
        j > 0 ==> clients[line.client_at(j - 1)].border_w >= 0,
        j > 0 ==> shown_whole(line.placed(gap, clients, shares)[j - 1].rect),
        line.down ==> line.placed(gap, clients, shares)[j].rect.y - line.y < i32::MAX,
        !line.down ==> line.placed(gap, clients, shares)[j].rect.x - line.x < i32::MAX,
    ensures
        ({
            let placed = line.placed(gap, clients, shares);
            let c = clients[line.client_at(j)];
            let r = placed[j];
            &&& r.key == c.key
            &&& line.down ==> {
                &&& r.rect.x == line.x
                &&& outer_w(r, c) == line.w
                &&& takes_share(shares, line.client_at(j), outer_h(r, c))
                &&& j == 0 ==> r.rect.y == line.y
                &&& j > 0 ==> below(placed[j - 1], clients[line.client_at(j - 1)], r, gap)
            }
            &&& !line.down ==> {
                &&& r.rect.y == line.y
                &&& outer_h(r, c) == line.h
                &&& takes_share(shares, line.client_at(j), outer_w(r, c))
                &&& j == 0 ==> r.rect.x == line.x
                &&& j > 0 ==> right_of(placed[j - 1], clients[line.client_at(j - 1)], r, gap)
            }
        }),
{
    used_is_positive(line, gap, shares, j);
    assert(0 <= j * gap) by (nonlinear_arith)
        requires
            0 <= j,
            0 <= gap,
    ;
    if j > 0 {
        used_is_positive(line, gap, shares, j - 1);
        assert(j * gap == (j - 1) * gap + gap && 0 <= (j - 1) * gap) by (nonlinear_arith)
            requires
                1 <= j,
                0 <= gap,
        ;
    } else {
        assert(j * gap == 0) by (nonlinear_arith)
            requires
                j == 0,
        ;
    }
}

/// Whether window `k` is among the results, and seen whole.
pub open spec fn seen<K>(
    results: Seq<LayoutResult<K>>,
    clients: Seq<LayoutClient<K>>,
    screen: Rect,
    k: int,
) -> bool {
    &&& 0 <= k < results.len()
    &&& 0 <= k < clients.len()
    &&& 0 <= clients[k].border_w
    &&& shown_whole(results[k].rect)
    &&& results[k].rect.x - screen.x < i32::MAX
    &&& results[k].rect.y - screen.y < i32::MAX
}

/// Whether window `i` stands in a column: at `x`, `w` wide, at `y` if it is the
/// first there, else below the window before it.
pub open spec fn in_column<K>(
    results: Seq<LayoutResult<K>>,
    clients: Seq<LayoutClient<K>>,
    i: int,
    first: bool,
    x: int,
    y: int,
    w: int,
    gap: int,
) -> bool {
    &&& results[i].key == clients[i].key
    &&& results[i].rect.x == x
    &&& outer_w(results[i], clients[i]) == w
    &&& first ==> results[i].rect.y == y
    &&& !first ==> below(results[i - 1], clients[i - 1], results[i], gap)
}

/// Whether window `i` stands in a row: at `y`, `h` high, at `x` if it is the
/// first there, else to the right of the window before it.
pub open spec fn in_row<K>(
    results: Seq<LayoutResult<K>>,
    clients: Seq<LayoutClient<K>>,
    i: int,
    first: bool,
    x: int,
    y: int,
    h: int,
    gap: int,
) -> bool {
    &&& results[i].key == clients[i].key
    &&& results[i].rect.y == y
    &&& outer_h(results[i], clients[i]) == h
    &&& first ==> results[i].rect.x == x
    &&& !first ==> right_of(results[i - 1], clients[i - 1], results[i], gap)
}

proof fn two_lines<K>(
    a: Line,
    b: Line,
    gap: int,
    clients: Seq<LayoutClient<K>>,
    shares: Seq<Option<i32>>,
)
    ensures
        all_placed(Seq::empty().push(a), gap, clients, shares) == a.placed(gap, clients, shares),
        all_placed(Seq::empty().push(a).push(b), gap, clients, shares) == a.placed(
            gap,
            clients,
            shares,
        ) + b.placed(gap, clients, shares),
{
    let one = Seq::empty().push(a);
    assert(one.drop_last() =~= Seq::<Line>::empty());
    assert(one.push(b).drop_last() =~= one);
    assert(all_placed(Seq::<Line>::empty(), gap, clients, shares) =~= Seq::empty());
    assert(all_placed(one, gap, clients, shares) =~= a.placed(gap, clients, shares));
}

/// Window `i` of a line over `first..first + count` of the windows.
proof fn plain_line_stands<K>(
    line: Line,
    gap: int,
    clients: Seq<LayoutClient<K>>,
    shares: Seq<Option<i32>>,
    results: Seq<LayoutResult<K>>,
    screen: Rect,
    i: int,
)
    requires
        0 <= gap,
        line.stride == 1,
        line.first <= i < line.first + line.count,
        line.first + line.count <= clients.len(),
        results.len() >= line.first + line.count,
        results.subrange(line.first as int, line.first + line.count) == line.placed(
            gap,
            clients,
            shares,
        ),
        screen.x <= line.x,
        screen.y <= line.y,
        seen(results, clients, screen, i),
        i > line.first ==> seen(results, clients, screen, i - 1),
    ensures
        line.down ==> in_column(
            results,
            clients,
            i,
            i == line.first,
            line.x as int,
            line.y as int,
            line.w as int,
            gap,
        ) && takes_share(shares, i, outer_h(results[i], clients[i])),
        !line.down ==> in_row(
            results,
            clients,
            i,
            i == line.first,
            line.x as int,
            line.y as int,
            line.h as int,
            gap,
        ) && takes_share(shares, i, outer_w(results[i], clients[i])),
{
    let j = i - line.first;
    let part = results.subrange(line.first as int, line.first + line.count);
    assert(part[j] == results[i]);
    assert(line.client_at(j) == i) by (nonlinear_arith)
        requires
            line.stride == 1,
            line.first + j == i,
    ;
    if j > 0 {
        assert(part[j - 1] == results[i - 1]);
        assert(line.client_at(j - 1) == i - 1) by (nonlinear_arith)
            requires
                line.stride == 1,
                line.first + j == i,
        ;
    }
    line_stands(line, gap, clients, shares, j);
}

/// The tile layout. Without masters all windows form one column. Else masters
/// and stack are two columns side by side, or two rows one below the other on a
/// screen that is higher than wide; the masters are `split` wide or high, and
/// the stack takes the rest behind a gap. Masters without a stack take all.
#[verifier::spinoff_prover]
#[verifier::rlimit(40)]
pub proof fn tiles_stand<K>(
    params: LayoutParams,
    clients: Seq<LayoutClient<K>>,
    split: i32,
    shares: Seq<Option<i32>>,
    i: int,
)
    requires
        leaves_room(params.screen_area, params.gap),
        0 <= i < clients.len() <= i32::MAX,
        0 <= split,
        params.screen_area.x + params.gap + split + params.gap <= i32::MAX,
        params.screen_area.y + params.gap + split + params.gap <= i32::MAX,
        seen(tile(params, clients, split as int, shares), clients, params.screen_area, i),
        i > 0 ==> seen(
            tile(params, clients, split as int, shares),
            clients,
            params.screen_area,
            i - 1,
        ),
    ensures
        ({
            let results = tile(params, clients, split as int, shares);
            let screen = params.screen_area;
            let gap = params.gap as int;
            let m = params.n_master as int;
            let (x, y) = (screen.x + gap, screen.y + gap);
            let (w, h) = (screen.w - 2 * gap, screen.h - 2 * gap);
            if m == 0 {
                in_column(results, clients, i, i == 0, x, y, w, gap)
            } else if clients.len() <= m {
                in_column(results, clients, i, i == 0, x, y, w, gap)
            } else if screen.w >= screen.h {
                if i < m {
                    in_column(results, clients, i, i == 0, x, y, split as int, gap)
                } else {
                    in_column(
                        results,
                        clients,
                        i,
                        i == m,
                        x + split + gap,
                        y,
                        w - split - gap,
                        gap,
                    )
                }
            } else {
                if i < m {
                    in_row(results, clients, i, i == 0, x, y, split as int, gap)
                } else {
                    in_row(
                        results,
                        clients,
                        i,
                        i == m,
                        x,
                        y + split + gap,
                        h - split - gap,
                        gap,
                    )
                }
            }
        }),
        ({
            let results = tile(params, clients, split as int, shares);
            let down = params.screen_area.w >= params.screen_area.h || params.n_master == 0
                || clients.len() <= params.n_master;
            takes_share(
                shares,
                i,
                if down {
                    outer_h(results[i], clients[i])
                } else {
                    outer_w(results[i], clients[i])
                },
            )
        }),
{
    let results = tile(params, clients, split as int, shares);
    let gap = params.gap as int;
    let lines = super::columns::tile_lines_of(params, clients.len() as int, split as int);
    if lines.len() == 1 {
        two_lines(lines[0], lines[0], gap, clients, shares);
        assert(lines =~= Seq::empty().push(lines[0]));
        assert(results.subrange(0, lines[0].count as int) =~= lines[0].placed(gap, clients, shares));
        plain_line_stands(lines[0], gap, clients, shares, results, params.screen_area, i);
    } else {
        let (a, b) = (lines[0], lines[1]);
        two_lines(a, b, gap, clients, shares);
        assert(lines =~= Seq::empty().push(a).push(b));
        assert(results.subrange(0, a.count as int) =~= a.placed(gap, clients, shares));
        assert(results.subrange(a.count as int, a.count + b.count) =~= b.placed(
            gap,
            clients,
            shares,
        ));
        if i < a.count {
            plain_line_stands(a, gap, clients, shares, results, params.screen_area, i);
        } else {
            plain_line_stands(b, gap, clients, shares, results, params.screen_area, i);
        }
    }
}

/// Windows without shares divide a line evenly: each takes the same length, or
/// one pixel more.
pub proof fn unshared_lines_are_even(line: Line, gap: int, j: int)
    requires
        0 <= gap,
        0 <= j < line.count,
        line.total() >= line.count + (line.count - 1) * gap,
    ensures
        ({
            let none = Seq::<Option<i32>>::empty();
            let even = (line.total() - (line.count - 1) * gap) / (line.count as int);
            let length = line.length_at(gap, none, line.used_by(gap, none, j), j);
            1 <= even <= length <= even + 1
        }),
{
    even_so_far(line, gap, j);
}

proof fn even_so_far(line: Line, gap: int, j: int)
    requires
        0 <= gap,
        0 <= j < line.count,
        line.total() >= line.count + (line.count - 1) * gap,
    ensures
        ({
            let none = Seq::<Option<i32>>::empty();
            let room = line.total() - (line.count - 1) * gap;
            let even = room / (line.count as int);
            let used = line.used_by(gap, none, j);
            let length = line.length_at(gap, none, used, j);
            let left = room - used;
            &&& 1 <= even
            &&& 0 <= used
            &&& even * (line.count - j) <= left <= (even + 1) * (line.count - j)
            &&& even <= length <= even + 1
            &&& length == even + 1 ==> left == (even + 1) * (line.count - j)
            &&& line.used_by(gap, none, j + 1) == used + length
        }),
    decreases j,
{
    let none = Seq::<Option<i32>>::empty();
    let n = line.count as int;
    let room = line.total() - (n - 1) * gap;
    let even = room / n;
    let used = line.used_by(gap, none, j);
    let left = room - used;
    let k = n - j;
    vstd::arithmetic::div_mod::lemma_fundamental_div_mod(room, n);
    vstd::arithmetic::div_mod::lemma_mod_bound(room, n);
    assert(1 <= even && even * n <= room <= (even + 1) * n && 0 <= (n - 1) * gap) by (nonlinear_arith)
        requires
            room == n * even + room % n,
            0 <= room % n < n,
            room >= n,
            n >= 1,
            0 <= gap,
    ;
    if j > 0 {
        even_so_far(line, gap, j - 1);
        let before = line.used_by(gap, none, j - 1);
        let length = line.length_at(gap, none, before, j - 1);
        assert(line.count - (j - 1) == k + 1);
        assert(used == before + length);
        assert(even * (k + 1) == even * k + even && (even + 1) * (k + 1) == (even + 1) * k + even
            + 1 && even * k <= (even + 1) * k) by (nonlinear_arith)
            requires
                0 <= k,
        ;
        if length == even {
            let was = room - before;
            assert(was < (even + 1) * (k + 1)) by {
                if was == (even + 1) * (k + 1) {
                    assert(was / (k + 1) == even + 1) by (nonlinear_arith)
                        requires
                            was == (even + 1) * (k + 1),
                            k + 1 >= 1,
                    ;
                    assert(1 <= was) by (nonlinear_arith)
                        requires
                            was == (even + 1) * (k + 1),
                            k + 1 >= 1,
                            even >= 1,
                    ;
                }
            }
        }
        assert(even * k <= left <= (even + 1) * k);
    }
    vstd::arithmetic::div_mod::lemma_fundamental_div_mod(left, k);
    vstd::arithmetic::div_mod::lemma_mod_bound(left, k);
    let q = left / k;
    assert(1 <= left && even <= q <= even + 1 && (q == even + 1 ==> left == (even + 1) * k) && q
        <= left) by (nonlinear_arith)
        requires
            left == k * q + left % k,
            0 <= left % k < k,
            even * k <= left <= (even + 1) * k,
            1 <= even,
            1 <= k,
    ;
}

proof fn three_lines<K>(
    a: Line,
    b: Line,
    c: Line,
    gap: int,
    clients: Seq<LayoutClient<K>>,
    shares: Seq<Option<i32>>,
)
    ensures
        all_placed(Seq::empty().push(a).push(b).push(c), gap, clients, shares) == a.placed(
            gap,
            clients,
            shares,
        ) + b.placed(gap, clients, shares) + c.placed(gap, clients, shares),
{
    two_lines(a, b, gap, clients, shares);
    let two = Seq::empty().push(a).push(b);
    assert(two.push(c).drop_last() =~= two);
}

/// The bottom stack. The masters are a row at the top, `split` high, or all of
/// the height without a stack. Up to four windows form one row below a gap,
/// which takes the rest of the height; more form two rows, the upper one with
/// the odd window, the lower one as high or higher by less than two pixels, a
/// gap below it and down to the end.
#[verifier::spinoff_prover]
#[verifier::rlimit(40)]
pub proof fn bottom_stacks_stand<K>(
    params: LayoutParams,
    clients: Seq<LayoutClient<K>>,
    split: i32,
    shares: Seq<Option<i32>>,
    cols: int,
    i: int,
)
    requires
        leaves_room(params.screen_area, params.gap),
        1 <= params.n_master <= i32::MAX,
        0 <= i < clients.len() <= i32::MAX,
        0 <= split,
        clients.len() > params.n_master ==> split + params.gap < params.screen_area.h - 2
            * params.gap,
        clients.len() > params.n_master + 4 ==> split + 2 * params.gap + 2 <= params.screen_area.h
            - 2 * params.gap,
        seen(bstack(params, clients, split as int, shares, cols), clients, params.screen_area, i),
        i > 0 ==> seen(
            bstack(params, clients, split as int, shares, cols),
            clients,
            params.screen_area,
            i - 1,
        ),
    ensures
        ({
            let results = bstack(params, clients, split as int, shares, cols);
            let screen = params.screen_area;
            let gap = params.gap as int;
            let m = params.n_master as int;
            let k = clients.len() - m;
            let (x, y) = (screen.x + gap, screen.y + gap);
            let h = screen.h - 2 * gap;
            let rest = h - split - gap;
            let upper = (rest - gap) / 2;
            &&& takes_share(shares, i, outer_w(results[i], clients[i]))
            &&& if k <= 0 {
                in_row(results, clients, i, i == 0, x, y, h, gap)
            } else if i < m {
                in_row(results, clients, i, i == 0, x, y, split as int, gap)
            } else if k <= 4 {
                in_row(results, clients, i, i == m, x, y + split + gap, rest, gap)
            } else if i < m + (k + 1) / 2 {
                in_row(results, clients, i, i == m, x, y + split + gap, upper, gap)
            } else {
                in_row(
                    results,
                    clients,
                    i,
                    i == m + (k + 1) / 2,
                    x,
                    y + split + gap + upper + gap,
                    rest - upper - gap,
                    gap,
                )
            }
        }),
{
    let results = bstack(params, clients, split as int, shares, cols);
    let gap = params.gap as int;
    let screen = params.screen_area;
    let lines = super::columns::bstack_lines_of(params, clients.len() as int, split as int);
    let a = lines[0];
    if lines.len() == 1 {
        two_lines(a, a, gap, clients, shares);
        assert(lines =~= Seq::empty().push(a));
        assert(results.subrange(0, a.count as int) =~= a.placed(gap, clients, shares));
        plain_line_stands(a, gap, clients, shares, results, screen, i);
    } else {
        let b = lines[1];
        if lines.len() == 2 {
            two_lines(a, b, gap, clients, shares);
            assert(lines =~= Seq::empty().push(a).push(b));
        } else {
            let c = lines[2];
            three_lines(a, b, c, gap, clients, shares);
            assert(lines =~= Seq::empty().push(a).push(b).push(c));
            assert(results.subrange(a.count + b.count, a.count + b.count + c.count) =~= c.placed(
                gap,
                clients,
                shares,
            ));
            if i >= a.count + b.count {
                plain_line_stands(c, gap, clients, shares, results, screen, i);
            }
        }
        assert(results.subrange(0, a.count as int) =~= a.placed(gap, clients, shares));
        assert(results.subrange(a.count as int, a.count + b.count) =~= b.placed(
            gap,
            clients,
            shares,
        ));
        if i < a.count {
            plain_line_stands(a, gap, clients, shares, results, screen, i);
        } else if i < a.count + b.count {
            plain_line_stands(b, gap, clients, shares, results, screen, i);
        }
    }
}

/// Window `j` of a line that takes every other window.
proof fn other_line_stands<K>(
    line: Line,
    gap: int,
    clients: Seq<LayoutClient<K>>,
    shares: Seq<Option<i32>>,
    results: Seq<LayoutResult<K>>,
    start: int,
    screen: Rect,
    j: int,
)
    requires
        0 <= gap,
        line.down,
        line.stride == 2,
        0 <= j < line.count,
        0 <= start,
        line.first + 2 * j < clients.len(),
        results.len() >= start + line.count,
        results.subrange(start, start + line.count) == line.placed(gap, clients, shares),
        screen.y <= line.y,
        0 <= clients[line.first + 2 * j].border_w,
        shown_whole(results[start + j].rect),
        results[start + j].rect.y - screen.y < i32::MAX,
        j > 0 ==> 0 <= clients[line.first + 2 * j - 2].border_w,
        j > 0 ==> shown_whole(results[start + j - 1].rect),
    ensures
        ({
            let r = results[start + j];
            let c = clients[line.first + 2 * j];
            &&& r.key == c.key
            &&& r.rect.x == line.x
            &&& outer_w(r, c) == line.w
            &&& takes_share(shares, line.first + 2 * j, outer_h(r, c))
            &&& j == 0 ==> r.rect.y == line.y
            &&& j > 0 ==> below(
                results[start + j - 1],
                clients[line.first + 2 * j - 2],
                r,
                gap,
            )
        }),
{
    let part = results.subrange(start, start + line.count);
    assert(part[j] == results[start + j]);
    assert(line.client_at(j) == line.first + 2 * j) by (nonlinear_arith)
        requires
            line.stride == 2,
    ;
    if j > 0 {
        assert(part[j - 1] == results[start + j - 1]);
        assert(line.client_at(j - 1) == line.first + 2 * j - 2) by (nonlinear_arith)
            requires
                line.stride == 2,
        ;
    }
    line_stands(line, gap, clients, shares, j);
}

/// Which window stands at place `p` of the results in three columns, and where
/// its column begins: the masters, then every other window of the stack from
/// the first on, then from the second on.
pub open spec fn column_window(n: int, m: int, p: int) -> (int, int) {
    let left = (n - m + 1) / 2;
    if p < m {
        (p, 0)
    } else if p < m + left {
        (m + 2 * (p - m), m)
    } else {
        (m + 2 * (p - m - left) + 1, m + left)
    }
}

/// Whether the windows at places `p` and before it in their column are seen
/// whole.
pub open spec fn column_seen<K>(
    results: Seq<LayoutResult<K>>,
    clients: Seq<LayoutClient<K>>,
    params: LayoutParams,
    p: int,
) -> bool {
    let n = clients.len() as int;
    let m = params.n_master as int;
    let (i, start) = column_window(n, m, p);
    &&& 0 <= clients[i].border_w
    &&& shown_whole(results[p].rect)
    &&& results[p].rect.y - params.screen_area.y < i32::MAX
    &&& p > start ==> 0 <= clients[column_window(n, m, p - 1).0].border_w && shown_whole(
        results[p - 1].rect,
    )
}

/// Whether the window at place `p` stands in its one of three columns.
pub open spec fn stands_in_three<K>(
    results: Seq<LayoutResult<K>>,
    clients: Seq<LayoutClient<K>>,
    params: LayoutParams,
    split: int,
    shares: Seq<Option<i32>>,
    p: int,
) -> bool {
    let screen = params.screen_area;
    let gap = params.gap as int;
    let m = params.n_master as int;
    let (i, start) = column_window(clients.len() as int, m, p);
    let left = (screen.w - 2 * gap - split - 2 * gap) / 2;
    let right = screen.w - 2 * gap - split - 2 * gap - left;
    let r = results[p];
    &&& results.len() == clients.len()
    &&& r.key == clients[i].key
    &&& p == start ==> r.rect.y == screen.y + gap
    &&& p > start ==> below(
        results[p - 1],
        clients[column_window(clients.len() as int, m, p - 1).0],
        r,
        gap,
    )
    &&& takes_share(shares, i, outer_h(r, clients[i]))
    &&& left <= right <= left + 1
    &&& if p < m {
        r.rect.x == screen.x + gap + left + gap && outer_w(r, clients[i]) == split
    } else if (i - m) % 2 == 0 {
        r.rect.x == screen.x + gap && outer_w(r, clients[i]) == left
    } else {
        r.rect.x == screen.x + gap + left + gap + split + gap && outer_w(r, clients[i]) == right
    }
}

/// What the three columns are.
spec fn three_columns_are<K>(
    results: Seq<LayoutResult<K>>,
    clients: Seq<LayoutClient<K>>,
    params: LayoutParams,
    split: int,
    shares: Seq<Option<i32>>,
    parts: (Line, Line, Line),
) -> bool {
    let screen = params.screen_area;
    let gap = params.gap as int;
    let n = clients.len() as int;
    let m = params.n_master as int;
    let left = (screen.w - 2 * gap - split - 2 * gap) / 2;
    let right = screen.w - 2 * gap - split - 2 * gap - left;
    let (a, b, c) = parts;
    &&& results.len() == n
    &&& results.subrange(0, m) == a.placed(gap, clients, shares)
    &&& results.subrange(m, m + b.count) == b.placed(gap, clients, shares)
    &&& results.subrange(m + b.count, m + b.count + c.count) == c.placed(gap, clients, shares)
    &&& a.down && b.down && c.down
    &&& a.stride == 1 && b.stride == 2 && c.stride == 2
    &&& a.count == m && b.count == (n - m + 1) / 2 && c.count == (n - m) / 2
    &&& a.first == 0 && b.first == m && c.first == m + 1
    &&& a.y == screen.y + gap && b.y == screen.y + gap && c.y == screen.y + gap
    &&& a.w == split && b.w == left && c.w == right
    &&& b.x == screen.x + gap
    &&& a.x == screen.x + gap + left + gap
    &&& c.x == screen.x + gap + left + gap + split + gap
}

proof fn three_columns_parts<K>(
    params: LayoutParams,
    clients: Seq<LayoutClient<K>>,
    split: i32,
    shares: Seq<Option<i32>>,
    cols: int,
) -> (parts: (Line, Line, Line))
    requires
        leaves_room(params.screen_area, params.gap),
        params.screen_area.h <= params.screen_area.w,
        1 <= params.n_master < clients.len() <= i32::MAX,
        0 <= split,
        split + 2 * params.gap + 2 <= params.screen_area.w - 2 * params.gap,
    ensures
        three_columns_are(
            centered(params, clients, split as int, shares, cols),
            clients,
            params,
            split as int,
            shares,
            parts,
        ),
{
    let results = centered(params, clients, split as int, shares, cols);
    let gap = params.gap as int;
    let n = clients.len() as int;
    let m = params.n_master as int;
    let lines = super::columns::centered_lines_of(params, n, split as int);
    let (a, b, c) = (lines[0], lines[1], lines[2]);
    three_lines(a, b, c, gap, clients, shares);
    assert(lines =~= Seq::empty().push(a).push(b).push(c));
    assert(results.subrange(0, m) =~= a.placed(gap, clients, shares));
    assert(results.subrange(m, m + b.count) =~= b.placed(gap, clients, shares));
    assert(results.subrange(m + b.count, m + b.count + c.count) =~= c.placed(
        gap,
        clients,
        shares,
    ));
    (a, b, c)
}

#[verifier::spinoff_prover]
#[verifier::rlimit(40)]
proof fn columns_stand<K>(
    results: Seq<LayoutResult<K>>,
    clients: Seq<LayoutClient<K>>,
    params: LayoutParams,
    split: int,
    shares: Seq<Option<i32>>,
    parts: (Line, Line, Line),
    p: int,
)
    requires
        0 <= params.gap,
        1 <= params.n_master < clients.len() <= i32::MAX,
        0 <= p < clients.len(),
        three_columns_are(results, clients, params, split, shares, parts),
        column_seen(results, clients, params, p),
    ensures
        stands_in_three(results, clients, params, split, shares, p),
{
    let gap = params.gap as int;
    let screen = params.screen_area;
    let m = params.n_master as int;
    let (a, b, c) = parts;
    if p < m {
        assert(a.client_at(p) == p) by (nonlinear_arith)
            requires
                a.stride == 1,
                a.first == 0,
        ;
        if p > 0 {
            assert(a.client_at(p - 1) == p - 1) by (nonlinear_arith)
                requires
                    a.stride == 1,
                    a.first == 0,
            ;
            assert(results.subrange(0, m)[p - 1] == results[p - 1]);
        }
        assert(results.subrange(0, m)[p] == results[p]);
        line_stands(a, gap, clients, shares, p);
    } else if p < m + b.count {
        other_line_stands(b, gap, clients, shares, results, m, screen, p - m);
    } else {
        other_line_stands(
            c,
            gap,
            clients,
            shares,
            results,
            m + b.count,
            screen,
            p - m - b.count,
        );
    }
}

/// Three columns. The masters stand in the middle, `split` wide; the windows of
/// the stack go to the left and to the right of them by turns, from the top
/// down. The outer columns end at the edges and differ by one pixel at most.
#[verifier::spinoff_prover]
#[verifier::rlimit(40)]
pub proof fn three_columns_stand<K>(
    params: LayoutParams,
    clients: Seq<LayoutClient<K>>,
    split: i32,
    shares: Seq<Option<i32>>,
    cols: int,
    p: int,
)
    requires
        leaves_room(params.screen_area, params.gap),
        params.screen_area.h <= params.screen_area.w,
        1 <= params.n_master < clients.len() <= i32::MAX,
        0 <= p < clients.len(),
        0 <= split,
        split + 2 * params.gap + 2 <= params.screen_area.w - 2 * params.gap,
        column_seen(centered(params, clients, split as int, shares, cols), clients, params, p),
    ensures
        stands_in_three(
            centered(params, clients, split as int, shares, cols),
            clients,
            params,
            split as int,
            shares,
            p,
        ),
{
    let results = centered(params, clients, split as int, shares, cols);
    let parts = three_columns_parts(params, clients, split, shares, cols);
    columns_stand(results, clients, params, split as int, shares, parts, p);
}

/// The three-column layouts and the bottom stack fall back on each other and on
/// the grid: without masters the windows form a grid, on a screen that is
/// higher than wide a stack goes to the bottom, and masters alone form one
/// column over all of the area.
pub proof fn columns_fall_back<K>(
    params: LayoutParams,
    clients: Seq<LayoutClient<K>>,
    split: i32,
    shares: Seq<Option<i32>>,
    cols: int,
    i: int,
)
    requires
        leaves_room(params.screen_area, params.gap),
        params.n_master <= i32::MAX,
        0 <= i < clients.len() <= i32::MAX,
        seen(centered(params, clients, split as int, shares, cols), clients, params.screen_area, i),
        i > 0 ==> seen(
            centered(params, clients, split as int, shares, cols),
            clients,
            params.screen_area,
            i - 1,
        ),
    ensures
        params.n_master == 0 ==> centered(params, clients, split as int, shares, cols) == grid(
            params,
            clients,
            cols,
        ) && bstack(params, clients, split as int, shares, cols) == grid(params, clients, cols),
        1 <= params.n_master < clients.len() && params.screen_area.h > params.screen_area.w
            ==> centered(params, clients, split as int, shares, cols) == bstack(
            params,
            clients,
            split as int,
            shares,
            cols,
        ),
        1 <= params.n_master && clients.len() <= params.n_master ==> in_column(
            centered(params, clients, split as int, shares, cols),
            clients,
            i,
            i == 0,
            params.screen_area.x + params.gap,
            params.screen_area.y + params.gap,
            params.screen_area.w - 2 * params.gap,
            params.gap as int,
        ),
{
    if 1 <= params.n_master && clients.len() <= params.n_master {
        let results = centered(params, clients, split as int, shares, cols);
        let gap = params.gap as int;
        let lines = super::columns::centered_lines_of(params, clients.len() as int, split as int);
        let a = lines[0];
        two_lines(a, a, gap, clients, shares);
        assert(lines =~= Seq::empty().push(a));
        assert(results.subrange(0, a.count as int) =~= a.placed(gap, clients, shares));
        plain_line_stands(a, gap, clients, shares, results, params.screen_area, i);
    }
}

/// Where window `i` of a pile stands that begins at `(x, y)` and ends at
/// `(right, low)`: the first fills it; each of the next five begins a step
/// further down and to the right, those after them where the sixth does; all
/// end in the lower right corner. A step is the gap, but six pixels at least
/// and sixteen at most.
pub open spec fn in_pile<K>(
    results: Seq<LayoutResult<K>>,
    clients: Seq<LayoutClient<K>>,
    i: int,
    place: int,
    x: int,
    y: int,
    right: int,
    low: int,
    gap: int,
) -> bool {
    let r = results[i];
    let step = if gap < 6 {
        6
    } else if gap > 16 {
        16
    } else {
        gap
    };
    let off = if place >= 5 {
        5 * step
    } else {
        place * step
    };
    &&& r.key == clients[i].key
    &&& r.rect.x == x + off
    &&& r.rect.y == y + off
    &&& r.rect.x + outer_w(r, clients[i]) == right
    &&& r.rect.y + outer_h(r, clients[i]) == low
}

/// The deck. The masters are a column at the left, or a row at the top on a
/// screen that is higher than wide; the other windows lie in one pile beside or
/// below them. Without masters the pile has the whole area.
#[verifier::spinoff_prover]
#[verifier::rlimit(40)]
pub proof fn decks_stand<K>(
    params: LayoutParams,
    clients: Seq<LayoutClient<K>>,
    split: i32,
    shares: Seq<Option<i32>>,
    i: int,
)
    requires
        leaves_room(params.screen_area, params.gap),
        0 <= i < clients.len() <= i32::MAX,
        0 <= split,
        params.screen_area.h > params.screen_area.w && 1 <= params.n_master < clients.len()
            ==> split + params.gap < params.screen_area.h - 2 * params.gap,
        seen(deck(params, clients, split as int, shares), clients, params.screen_area, i),
        i > 0 ==> seen(
            deck(params, clients, split as int, shares),
            clients,
            params.screen_area,
            i - 1,
        ),
    ensures
        ({
            let results = deck(params, clients, split as int, shares);
            let screen = params.screen_area;
            let gap = params.gap as int;
            let m = params.n_master as int;
            let (x, y) = (screen.x + gap, screen.y + gap);
            let (w, h) = (screen.w - 2 * gap, screen.h - 2 * gap);
            if m == 0 {
                in_pile(results, clients, i, i, x, y, x + w, y + h, gap)
            } else if clients.len() <= m {
                in_column(results, clients, i, i == 0, x, y, w, gap)
            } else if screen.w >= screen.h {
                if i < m {
                    in_column(results, clients, i, i == 0, x, y, split as int, gap)
                } else {
                    in_pile(
                        results,
                        clients,
                        i,
                        i - m,
                        x + split + gap,
                        y,
                        x + w,
                        y + h,
                        gap,
                    )
                }
            } else if i < m {
                in_row(results, clients, i, i == 0, x, y, split as int, gap)
            } else {
                in_pile(results, clients, i, i - m, x, y + split + gap, x + w, y + h, gap)
            }
        }),
{
    let results = deck(params, clients, split as int, shares);
    let gap = params.gap as int;
    let screen = params.screen_area;
    let n = clients.len() as int;
    let line = super::columns::deck_line_of(params, n, split as int);
    if i < line.count {
        assert(results.subrange(0, line.count as int) =~= line.placed(gap, clients, shares));
        plain_line_stands(line, gap, clients, shares, results, screen, i);
    } else {
        let (x, y, w, h) = super::columns::pile_of(params, n, split as int);
        assert(results[i] == super::columns::previews(
            clients,
            line.count as int,
            x,
            y,
            w,
            h,
            gap,
        )[i - line.count]);
        pile_stands(results, clients, line.count as int, i, x, y, w, h, gap);
    }
}

/// A rectangle that shows all of what its window was given.
pub(super) proof fn framed_whole(x: int, y: int, w: int, h: int, border_w: int)
    requires
        0 <= border_w,
        shown_whole(super::framed(x, y, w, h, border_w)),
    ensures
        ({
            let r = super::framed(x, y, w, h, border_w);
            &&& r.x == x
            &&& r.y == y
            &&& r.w + 2 * border_w == w
            &&& r.h + 2 * border_w == h
        }),
{
}

proof fn pile_stands<K>(
    results: Seq<LayoutResult<K>>,
    clients: Seq<LayoutClient<K>>,
    first: int,
    i: int,
    x: int,
    y: int,
    w: int,
    h: int,
    gap: int,
)
    requires
        0 <= first <= i < clients.len(),
        0 <= clients[i].border_w,
        results[i] == super::columns::previews(clients, first, x, y, w, h, gap)[i - first],
        shown_whole(results[i].rect),
    ensures
        in_pile(results, clients, i, i - first, x, y, x + w, y + h, gap),
{
    let j = i - first;
    let off = crate::geometry::smaller(j, 5) * crate::geometry::clamped(gap, 6, 16);
    framed_whole(x + off, y + off, w - off, h - off, clients[i].border_w as int);
}

/// Whether window `i` takes its part of a spiral that ends at `(right, low)`,
/// where it is the one at `place`: the windows at even places take the upper
/// half of what is left, and the next one stands below; those at odd places the
/// left half, and the next one stands to the right. The last takes all.
pub open spec fn in_spiral<K>(
    results: Seq<LayoutResult<K>>,
    clients: Seq<LayoutClient<K>>,
    i: int,
    place: int,
    x: int,
    y: int,
    right: int,
    low: int,
    gap: int,
) -> bool {
    let r = results[i];
    let last = i == clients.len() - 1;
    &&& r.key == clients[i].key
    &&& place == 0 ==> r.rect.x == x && r.rect.y == y
    &&& place > 0 && place % 2 == 1 ==> {
        &&& r.rect.x == results[i - 1].rect.x
        &&& below(results[i - 1], clients[i - 1], r, gap)
    }
    &&& place > 0 && place % 2 == 0 ==> {
        &&& r.rect.y == results[i - 1].rect.y
        &&& right_of(results[i - 1], clients[i - 1], r, gap)
    }
    &&& last || place % 2 == 0 ==> r.rect.x + outer_w(r, clients[i]) == right
    &&& last || place % 2 == 1 ==> r.rect.y + outer_h(r, clients[i]) == low
    &&& !last && place % 2 == 0 ==> 0 <= low - r.rect.y - gap - 2 * outer_h(r, clients[i]) <= 1
    &&& !last && place % 2 == 1 ==> 0 <= right - r.rect.x - gap - 2 * outer_w(r, clients[i]) <= 1
}

proof fn spiral_keeps_its_corner(x: int, y: int, w: int, h: int, gap: int, k: int)
    ensures
        ({
            let (px, py, pw, ph) = super::columns::spiral_rest(x, y, w, h, gap, k);
            px + pw == x + w && py + ph == y + h
        }),
    decreases k,
{
    if k > 0 {
        spiral_keeps_its_corner(x, y, w, h, gap, k - 1);
    }
}

/// The fibonacci layout. The masters are a column at the left, `split` wide, or
/// over all of the area without other windows; the others form a spiral of
/// halves beside them.
#[verifier::spinoff_prover]
#[verifier::rlimit(40)]
pub proof fn spirals_stand<K>(
    params: LayoutParams,
    clients: Seq<LayoutClient<K>>,
    split: i32,
    shares: Seq<Option<i32>>,
    i: int,
)
    requires
        leaves_room(params.screen_area, params.gap),
        0 <= i < clients.len() <= i32::MAX,
        0 <= split,
        seen(fibonacci(params, clients, split as int, shares), clients, params.screen_area, i),
        i > 0 ==> seen(
            fibonacci(params, clients, split as int, shares),
            clients,
            params.screen_area,
            i - 1,
        ),
    ensures
        ({
            let results = fibonacci(params, clients, split as int, shares);
            let screen = params.screen_area;
            let gap = params.gap as int;
            let m = params.n_master as int;
            let (x, y) = (screen.x + gap, screen.y + gap);
            let (w, h) = (screen.w - 2 * gap, screen.h - 2 * gap);
            if i < m {
                in_column(
                    results,
                    clients,
                    i,
                    i == 0,
                    x,
                    y,
                    if clients.len() > m {
                        split as int
                    } else {
                        w
                    },
                    gap,
                )
            } else {
                in_spiral(
                    results,
                    clients,
                    i,
                    i - m,
                    if m > 0 {
                        x + split + gap
                    } else {
                        x
                    },
                    y,
                    x + w,
                    y + h,
                    gap,
                )
            }
        }),
{
    let results = fibonacci(params, clients, split as int, shares);
    let gap = params.gap as int;
    let n = clients.len() as int;
    let line = super::columns::fibonacci_line_of(params, n, split as int);
    if i < line.count {
        assert(results.subrange(0, line.count as int) =~= line.placed(gap, clients, shares));
        plain_line_stands(line, gap, clients, shares, results, params.screen_area, i);
    } else {
        let screen = params.screen_area;
        let m = line.count as int;
        let x = if params.n_master > 0 {
            screen.x + gap + split + gap
        } else {
            screen.x + gap
        };
        let w = screen.x + screen.w - gap - x;
        let (y, h) = (screen.y + gap, screen.h - 2 * gap);
        spiral_parts(params, clients, split, shares, i);
        if i > m {
            spiral_parts(params, clients, split, shares, i - 1);
        }
        spiral_stands(results, clients, x, y, w, h, gap, m, i);
    }
}

spec fn spiral_window<K>(
    clients: Seq<LayoutClient<K>>,
    x: int,
    y: int,
    w: int,
    h: int,
    gap: int,
    m: int,
    i: int,
) -> LayoutResult<K> {
    let (px, py, pw, ph) = super::columns::spiral(x, y, w, h, gap, clients.len() - m, i - m);
    LayoutResult {
        key: clients[i].key,
        rect: super::framed(px, py, pw, ph, clients[i].border_w as int),
    }
}

proof fn spiral_parts<K>(
    params: LayoutParams,
    clients: Seq<LayoutClient<K>>,
    split: i32,
    shares: Seq<Option<i32>>,
    i: int,
)
    requires
        leaves_room(params.screen_area, params.gap),
        params.n_master <= i < clients.len(),
    ensures
        ({
            let screen = params.screen_area;
            let gap = params.gap as int;
            let x = if params.n_master > 0 {
                screen.x + gap + split + gap
            } else {
                screen.x + gap
            };
            fibonacci(params, clients, split as int, shares)[i] == spiral_window(
                clients,
                x,
                screen.y + gap,
                screen.x + screen.w - gap - x,
                screen.h - 2 * gap,
                gap,
                params.n_master as int,
                i,
            )
        }),
{
    let n = clients.len() as int;
    let line = super::columns::fibonacci_line_of(params, n, split as int);
    let gap = params.gap as int;
    assert(line.placed(gap, clients, shares).len() == params.n_master);
}

proof fn spiral_stands<K>(
    results: Seq<LayoutResult<K>>,
    clients: Seq<LayoutClient<K>>,
    x: int,
    y: int,
    w: int,
    h: int,
    gap: int,
    m: int,
    i: int,
)
    requires
        0 <= gap,
        0 <= m <= i < clients.len(),
        0 <= clients[i].border_w,
        results[i] == spiral_window(clients, x, y, w, h, gap, m, i),
        shown_whole(results[i].rect),
        i > m ==> 0 <= clients[i - 1].border_w,
        i > m ==> results[i - 1] == spiral_window(clients, x, y, w, h, gap, m, i - 1),
        i > m ==> shown_whole(results[i - 1].rect),
    ensures
        in_spiral(results, clients, i, i - m, x, y, x + w, y + h, gap),
{
    let k = i - m;
    let n = clients.len() - m;
    let (px, py, pw, ph) = super::columns::spiral(x, y, w, h, gap, n, k);
    framed_whole(px, py, pw, ph, clients[i].border_w as int);
    spiral_keeps_its_corner(x, y, w, h, gap, k);
    if k > 0 {
        let (qx, qy, qw, qh) = super::columns::spiral(x, y, w, h, gap, n, k - 1);
        framed_whole(qx, qy, qw, qh, clients[i - 1].border_w as int);
    }
}

/// The monocle layout gives every window the whole screen, border included;
/// the fullscreen layout gives it the screen itself.
pub proof fn single_windows_take_the_screen<K>(
    params: LayoutParams,
    clients: Seq<LayoutClient<K>>,
    i: int,
)
    requires
        0 <= i < clients.len(),
        0 <= clients[i].border_w,
        2 * clients[i].border_w < params.screen_area.w,
        2 * clients[i].border_w < params.screen_area.h,
    ensures
        ({
            let r = monocle(params, clients)[i];
            &&& r.key == clients[i].key
            &&& r.rect.x == params.screen_area.x
            &&& r.rect.y == params.screen_area.y
            &&& outer_w(r, clients[i]) == params.screen_area.w
            &&& outer_h(r, clients[i]) == params.screen_area.h
        }),
        ({
            let r = fullscreen(params, clients)[i];
            &&& r.key == clients[i].key
            &&& r.rect.x == params.screen_area.x
            &&& r.rect.y == params.screen_area.y
            &&& r.rect.w == params.screen_area.w
            &&& r.rect.h == params.screen_area.h
        }),
{
}

} // verus!
