//! Layouts made of rows and columns whose windows share one length: tile,
//! bottom stack, the two three-column layouts, deck and fibonacci.
use super::{
    LayoutClient, LayoutParams, LayoutResult, area_in, bounded_gap, client_rect, divide, framed,
    gap_in, in_order, all_visible, narrow, quotient, usable_area,
};
use super::grid::{calculate_grid, grid};
use crate::geometry::{Rect, clamped, larger, saturated, smaller};
use crate::ieee::F32;
use vstd::prelude::*;

verus! {

/// The part of the area that a master takes in a tiled or spiral layout: at
/// least a twentieth, and never the last twentieth.
pub fn master_fraction(m_fact: F32) -> (r: F32)
    ensures
        r == m_fact.clamped(F32 { bits: 0x3D4C_CCCD }, F32 { bits: 0x3F73_3333 }),
{
    m_fact.clamp(F32 { bits: 0x3D4C_CCCD }, F32 { bits: 0x3F73_3333 })
}

/// The part of the area that a master takes between two stacks or above a
/// pile: at least a quarter, and never the last quarter.
pub fn middle_fraction(m_fact: F32) -> (r: F32)
    ensures
        r == m_fact.clamped(F32 { bits: 0x3E80_0000 }, F32 { bits: 0x3F40_0000 }),
{
    m_fact.clamp(F32 { bits: 0x3E80_0000 }, F32 { bits: 0x3F40_0000 })
}

/// A row or a column: the windows `first`, `first + stride`, ... side by side
/// in one rectangle.
#[derive(Debug, Clone, Copy)]
pub struct Line {
    pub x: i32,
    pub y: i32,
    pub w: i32,
    pub h: i32,
    /// Whether the windows stand below each other.
    pub down: bool,
    pub first: usize,
    pub stride: usize,
    pub count: usize,
}

/// What the windows from the one at hand on have to share: the length without
/// the gaps and without what the earlier ones took.
pub open spec fn length_left(total: int, gap: int, used: int, count: int) -> int {
    larger(larger(total - larger(count - 1, 0) * gap, 1) - used, 1)
}

/// The length of one window: its share where it has one, else an even part of
/// what is left.
pub open spec fn length_of(
    total: int,
    gap: int,
    used: int,
    index: int,
    count: int,
    share: Option<i32>,
) -> int {
    larger(
        match share {
            Some(length) => length as int,
            None => length_left(total, gap, used, count) / larger(count - index, 1),
        },
        1,
    )
}

/// The share of the window at `i`; one that is not listed has none.
pub open spec fn share_at(shares: Seq<Option<i32>>, i: int) -> Option<i32> {
    if 0 <= i < shares.len() {
        shares[i]
    } else {
        None
    }
}

impl Line {
    /// The length that is shared out.
    pub open spec fn total(self) -> int {
        if self.down {
            self.h as int
        } else {
            self.w as int
        }
    }

    /// Which window stands at place `j`.
    pub open spec fn client_at(self, j: int) -> int {
        self.first + j * self.stride
    }

    /// What the first `j` windows take.
    pub open spec fn used_by(self, gap: int, shares: Seq<Option<i32>>, j: int) -> int
        decreases j,
    {
        if j <= 0 {
            0
        } else {
            let before = self.used_by(gap, shares, j - 1);
            saturated(before + self.length_at(gap, shares, before, j - 1))
        }
    }

    /// The length of the window at place `j`, after `used`.
    pub open spec fn length_at(self, gap: int, shares: Seq<Option<i32>>, used: int, j: int) -> int {
        length_of(
            self.total(),
            gap,
            used,
            j,
            self.count as int,
            share_at(shares, self.client_at(j)),
        )
    }

    /// The rectangle of the window at place `j`.
    pub open spec fn rect_at(
        self,
        gap: int,
        shares: Seq<Option<i32>>,
        j: int,
        border_w: int,
    ) -> Rect {
        let used = self.used_by(gap, shares, j);
        let length = self.length_at(gap, shares, used, j);
        if self.down {
            framed(self.x as int, self.y + used + j * gap, self.w as int, length, border_w)
        } else {
            framed(self.x + used + j * gap, self.y as int, length, self.h as int, border_w)
        }
    }

    /// The windows of the line, placed.
    pub open spec fn placed<K>(
        self,
        gap: int,
        clients: Seq<LayoutClient<K>>,
        shares: Seq<Option<i32>>,
    ) -> Seq<LayoutResult<K>> {
        Seq::new(
            self.count as nat,
            |j: int|
                LayoutResult {
                    key: clients[self.client_at(j)].key,
                    rect: self.rect_at(gap, shares, j, clients[self.client_at(j)].border_w as int),
                },
        )
    }

    /// Every window of the line is one of `n`.
    pub open spec fn within(self, n: int) -> bool {
        &&& n <= i32::MAX
        &&& self.count <= n
        &&& forall|j: int| 0 <= j < self.count ==> 0 <= #[trigger] self.client_at(j) < n
    }
}

/// What is left to share out at this point of a line.
pub fn remaining_length(total: i32, gap: i32, used: i32, count: usize) -> (r: i32)
    requires
        0 <= gap,
        0 <= used,
        count <= i32::MAX,
    ensures
        r == length_left(total as int, gap as int, used as int, count as int),
        r >= 1,
{
    let between: i64 = if count >= 1 { count as i64 - 1 } else { 0 };
    assert(0 <= between * gap <= 2147483647 * 2147483647) by (nonlinear_arith)
        requires
            0 <= between <= 2147483647,
            0 <= gap <= 2147483647,
    ;
    let open: i64 = total as i64 - between * (gap as i64);
    let available: i64 = if open >= 1 { open } else { 1 };
    let left: i64 = available - used as i64;
    if left >= 1 { left as i32 } else { 1 }
}

/// The length of the window at `index` of `count`.
pub fn distribute_length(
    total: i32,
    gap: i32,
    used: i32,
    index: usize,
    count: usize,
    share: Option<i32>,
) -> (r: i32)
    requires
        0 <= gap,
        0 <= used,
        index < count <= i32::MAX,
    ensures
        r == length_of(total as int, gap as int, used as int, index as int, count as int, share),
        r >= 1,
{
    let length: i32 = match share {
        Some(length) => length,
        None => {
            let left: i32 = remaining_length(total, gap, used, count);
            let others: i64 = (count - index) as i64;
            let even: i64 = divide(left as i64, others);
            even as i32
        },
    };
    if length >= 1 { length } else { 1 }
}

impl Line {
    /// Places the windows of the line after those already in `results`.
    pub fn place<K: Copy>(
        &self,
        gap: i32,
        clients: &[LayoutClient<K>],
        shares: &[Option<i32>],
        results: &mut Vec<LayoutResult<K>>,
    )
        requires
            0 <= gap <= 1073741823,
            self.within(clients@.len() as int),
        ensures
            final(results)@ == old(results)@ + self.placed(gap as int, clients@, shares@),
    {
        let mut used: i32 = 0;
        let mut j: usize = 0;
        let total: i32 = if self.down { self.h } else { self.w };
        let ghost whole = self.placed(gap as int, clients@, shares@);
        let ghost before = results@;
        while j < self.count
            invariant
                j <= self.count <= i32::MAX,
                0 <= gap <= 1073741823,
                self.within(clients@.len() as int),
                total == self.total(),
                used == self.used_by(gap as int, shares@, j as int),
                used >= 0,
                whole == self.placed(gap as int, clients@, shares@),
                results@ == before + whole.take(j as int),
            decreases self.count - j,
        {
            proof {
                let at = self.client_at(j as int);
                assert(0 <= at < clients@.len());
                assert(j * self.stride >= 0) by (nonlinear_arith)
                    requires
                        j >= 0,
                        self.stride >= 0,
                ;
            }
            let at: usize = self.first + j * self.stride;
            let c = clients[at];
            let share: Option<i32> = if at < shares.len() { shares[at] } else { None };
            let length: i32 = distribute_length(total, gap, used, j, self.count, share);
            assert(0 <= j * gap <= 2147483647 * 1073741823) by (nonlinear_arith)
                requires
                    0 <= j <= 2147483647,
                    0 <= gap <= 1073741823,
            ;
            let offset: i64 = used as i64 + (j as i64) * (gap as i64);
            let rect = if self.down {
                client_rect(
                    self.x as i64,
                    self.y as i64 + offset,
                    self.w as i64,
                    length as i64,
                    c.border_w,
                )
            } else {
                client_rect(
                    self.x as i64 + offset,
                    self.y as i64,
                    length as i64,
                    self.h as i64,
                    c.border_w,
                )
            };
            results.push(LayoutResult { key: c.key, rect });
            used = narrow(used as i64 + length as i64);
            proof {
                assert(whole[j as int].rect == rect);
                assert(before + whole.take(j + 1) =~= (before + whole.take(j as int)).push(
                    whole[j as int],
                ));
            }
            j = j + 1;
        }
        assert(whole.take(j as int) =~= whole);
    }
}

/// A line over the windows `first..first + count`.
pub open spec fn line_of(down: bool, x: int, y: int, w: int, h: int, first: int, count: int) -> Line {
    Line {
        x: saturated(x) as i32,
        y: saturated(y) as i32,
        w: saturated(w) as i32,
        h: saturated(h) as i32,
        down,
        first: first as usize,
        stride: 1,
        count: count as usize,
    }
}

fn line(down: bool, x: i64, y: i64, w: i64, h: i64, first: usize, count: usize) -> (r: Line)
    ensures
        r == line_of(down, x as int, y as int, w as int, h as int, first as int, count as int),
{
    Line { x: narrow(x), y: narrow(y), w: narrow(w), h: narrow(h), down, first, stride: 1, count }
}

/// The windows of all `lines`, one line after the other.
pub open spec fn all_placed<K>(
    lines: Seq<Line>,
    gap: int,
    clients: Seq<LayoutClient<K>>,
    shares: Seq<Option<i32>>,
) -> Seq<LayoutResult<K>>
    decreases lines.len(),
{
    if lines.len() == 0 {
        Seq::empty()
    } else {
        all_placed(lines.drop_last(), gap, clients, shares) + lines.last().placed(
            gap,
            clients,
            shares,
        )
    }
}

/// Places every line in turn.
pub fn place_lines<K: Copy>(
    lines: &Vec<Line>,
    gap: i32,
    clients: &[LayoutClient<K>],
    shares: &[Option<i32>],
) -> (results: Vec<LayoutResult<K>>)
    requires
        0 <= gap <= 1073741823,
        forall|i: int| 0 <= i < lines@.len() ==> (#[trigger] lines@[i]).within(clients@.len() as int),
    ensures
        results@ == all_placed(lines@, gap as int, clients@, shares@),
        all_visible(results@),
{
    let mut results: Vec<LayoutResult<K>> = Vec::new();
    let mut i: usize = 0;
    while i < lines.len()
        invariant
            i <= lines@.len(),
            0 <= gap <= 1073741823,
            forall|i: int|
                0 <= i < lines@.len() ==> (#[trigger] lines@[i]).within(clients@.len() as int),
            results@ == all_placed(lines@.take(i as int), gap as int, clients@, shares@),
            all_visible(results@),
        decreases lines@.len() - i,
    {
        lines[i].place(gap, clients, shares, &mut results);
        proof {
            assert(lines@.take(i + 1).drop_last() =~= lines@.take(i as int));
            assert(lines@.take(i + 1).last() == lines@[i as int]);
        }
        i = i + 1;
    }
    assert(lines@.take(i as int) =~= lines@);
    results
}

/// The windows of the master area.
pub open spec fn masters(n: int, n_master: int) -> int {
    smaller(n, n_master)
}

/// The number of windows beside the master area, where the configured number
/// of masters is read as a signed count.
pub open spec fn stack_count(n: int, n_master: int) -> int {
    larger(n - if n_master > i32::MAX { n_master - 4294967296 } else { n_master }, 0)
}

fn counted_stack(n: usize, n_master: u32) -> (r: i64)
    requires
        n <= i32::MAX,
    ensures
        r == stack_count(n as int, n_master as int),
        0 <= r <= 4294967296,
{
    let signed: i64 = if n_master > 2147483647 {
        n_master as i64 - 4294967296
    } else {
        n_master as i64
    };
    let left: i64 = n as i64 - signed;
    if left >= 0 { left } else { 0 }
}

fn master_count(n: usize, n_master: u32) -> (r: usize)
    requires
        n <= i32::MAX,
    ensures
        r == masters(n as int, n_master as int),
        r <= n,
{
    if n as u64 <= n_master as u64 { n } else { n_master as usize }
}

/// The rows or columns of the tile layout. `split` is what the master area
/// takes of the longer side when there is a stack.
pub open spec fn tile_lines_of(params: LayoutParams, n: int, split: int) -> Seq<Line> {
    let gap = gap_in(params.screen_area, params.gap as int);
    let area = area_in(params.screen_area, params.gap as int);
    let m = masters(n, params.n_master as int);
    let has_stack = n > params.n_master && params.n_master > 0;
    if n == 0 {
        Seq::empty()
    } else if params.n_master == 0 {
        Seq::empty().push(
            line_of(true, area.x as int, area.y as int, area.w as int, area.h as int, 0, n),
        )
    } else if has_stack && area.h > area.w {
        Seq::empty().push(
            line_of(false, area.x as int, area.y as int, area.w as int, split, 0, m),
        ).push(
            line_of(
                false,
                area.x as int,
                area.y + split + gap,
                area.w as int,
                larger(area.h - split - gap, 1),
                m,
                n - m,
            ),
        )
    } else {
        let mw = if has_stack {
            split
        } else {
            area.w as int
        };
        Seq::empty().push(
            line_of(true, area.x as int, area.y as int, mw, area.h as int, 0, m),
        ).push(
            line_of(
                true,
                area.x + mw + gap,
                area.y as int,
                larger(area.w - mw - gap, 1),
                area.h as int,
                m,
                n - m,
            ),
        )
    }
}

/// Every line holds windows out of `n`.
pub open spec fn lines_within(lines: Seq<Line>, n: int) -> bool {
    forall|i: int| 0 <= i < lines.len() ==> (#[trigger] lines[i]).within(n)
}

proof fn plain_line_within(line: Line, n: int)
    requires
        line.stride == 1,
        line.first + line.count <= n <= i32::MAX,
    ensures
        line.within(n),
{
    assert forall|j: int| 0 <= j < line.count implies 0 <= #[trigger] line.client_at(j) < n by {
        assert(j * line.stride == j) by (nonlinear_arith)
            requires
                line.stride == 1,
        ;
    }
}

/// The rows or columns of the tile layout.
pub fn tile_lines(params: &LayoutParams, n: usize, split: i32) -> (lines: Vec<Line>)
    requires
        n <= i32::MAX,
    ensures
        lines@ == tile_lines_of(*params, n as int, split as int),
        lines_within(lines@, n as int),
{
    let mut lines: Vec<Line> = Vec::new();
    if n == 0 {
        return lines;
    }
    let gap: i64 = bounded_gap(params.screen_area, params.gap) as i64;
    let area = usable_area(params.screen_area, params.gap);
    let (x, y, w, h): (i64, i64, i64, i64) = (
        area.x as i64,
        area.y as i64,
        area.w as i64,
        area.h as i64,
    );
    let m: usize = master_count(n, params.n_master);
    let has_stack = n as u64 > params.n_master as u64 && params.n_master > 0;
    if params.n_master == 0 {
        lines.push(line(true, x, y, w, h, 0, n));
    } else if has_stack && h > w {
        let rest: i64 = h - split as i64 - gap;
        lines.push(line(false, x, y, w, split as i64, 0, m));
        lines.push(
            line(
                false,
                x,
                y + split as i64 + gap,
                w,
                if rest >= 1 { rest } else { 1 },
                m,
                n - m,
            ),
        );
    } else {
        let mw: i64 = if has_stack { split as i64 } else { w };
        let rest: i64 = w - mw - gap;
        lines.push(line(true, x, y, mw, h, 0, m));
        lines.push(
            line(true, x + mw + gap, y, if rest >= 1 { rest } else { 1 }, h, m, n - m),
        );
    }
    proof {
        assert forall|i: int| 0 <= i < lines@.len() implies (#[trigger] lines@[i]).within(
            n as int,
        ) by {
            plain_line_within(lines@[i], n as int);
        }
    }
    lines
}

/// The tile layout: masters on the left, the stack on the right; on a screen
/// that is higher than wide, masters above the stack.
pub open spec fn tile<K>(
    params: LayoutParams,
    clients: Seq<LayoutClient<K>>,
    split: int,
    shares: Seq<Option<i32>>,
) -> Seq<LayoutResult<K>> {
    all_placed(
        tile_lines_of(params, clients.len() as int, split),
        gap_in(params.screen_area, params.gap as int),
        clients,
        shares,
    )
}

/// Places the windows in the tile layout.
pub fn calculate_tile<K: Copy>(
    params: &LayoutParams,
    clients: &[LayoutClient<K>],
    split: i32,
    shares: &[Option<i32>],
) -> (results: Vec<LayoutResult<K>>)
    requires
        clients@.len() <= i32::MAX,
    ensures
        results@ == tile(*params, clients@, split as int, shares@),
        in_order(results@, clients@),
        all_visible(results@),
{
    let lines = tile_lines(params, clients.len(), split);
    let gap: i32 = bounded_gap(params.screen_area, params.gap);
    let results = place_lines(&lines, gap, clients, shares);
    proof {
        reveal_with_fuel(windows_in, 3);
        reveal_with_fuel(consecutive, 3);
        if lines@.len() > 1 {
            assert(lines@.drop_last().last() == lines@[0]);
        }
        consecutive_in_order(lines@, gap as int, clients@, shares@);
    }
    results
}

/// The rows of the bottom stack: masters above, the stack below in one row, or
/// in two when there are more than four. The last row takes what is left of
/// the height.
pub open spec fn bstack_lines_of(params: LayoutParams, n: int, split: int) -> Seq<Line> {
    let gap = gap_in(params.screen_area, params.gap as int);
    let area = area_in(params.screen_area, params.gap as int);
    let (x, y, w, h) = (area.x as int, area.y as int, area.w as int, area.h as int);
    let m = masters(n, params.n_master as int);
    let below = stack_count(n, params.n_master as int);
    let mh = if below > 0 {
        split
    } else {
        h
    };
    let total = larger(h - mh - gap, 1);
    let top = Seq::empty().push(line_of(false, x, y, w, mh, 0, m));
    if n - m == 0 {
        top
    } else if n - m <= 4 {
        top.push(line_of(false, x, y + mh + gap, w, total, m, n - m))
    } else {
        let cols = (n - m + 1) / 2;
        let cell = larger(quotient(total - gap, 2), 1);
        top.push(line_of(false, x, y + mh + gap, w, cell, m, cols)).push(
            line_of(
                false,
                x,
                y + mh + gap + (cell + gap),
                w,
                larger(total - (cell + gap), 1),
                m + cols,
                n - m - cols,
            ),
        )
    }
}

/// The rows of the bottom stack.
pub fn bstack_lines(params: &LayoutParams, n: usize, split: i32) -> (lines: Vec<Line>)
    requires
        1 <= n <= i32::MAX,
    ensures
        lines@ == bstack_lines_of(*params, n as int, split as int),
        lines_within(lines@, n as int),
{
    let mut lines: Vec<Line> = Vec::new();
    let gap: i64 = bounded_gap(params.screen_area, params.gap) as i64;
    let area = usable_area(params.screen_area, params.gap);
    let (x, y, w, h): (i64, i64, i64, i64) = (
        area.x as i64,
        area.y as i64,
        area.w as i64,
        area.h as i64,
    );
    let m: usize = master_count(n, params.n_master);
    let below: i64 = counted_stack(n, params.n_master);
    let mh: i64 = if below > 0 { split as i64 } else { h };
    let rest: i64 = h - mh - gap;
    let total: i64 = if rest >= 1 { rest } else { 1 };
    lines.push(line(false, x, y, w, mh, 0, m));
    if n - m == 0 {
    } else if n - m <= 4 {
        lines.push(line(false, x, y + mh + gap, w, total, m, n - m));
    } else {
        let cols: usize = (n - m + 1) / 2;
        let half: i64 = divide(total - gap, 2);
        let cell: i64 = if half >= 1 { half } else { 1 };
        let low: i64 = total - (cell + gap);
        lines.push(line(false, x, y + mh + gap, w, cell, m, cols));
        lines.push(
            line(
                false,
                x,
                y + mh + gap + (cell + gap),
                w,
                if low >= 1 { low } else { 1 },
                m + cols,
                n - m - cols,
            ),
        );
    }
    proof {
        assert forall|i: int| 0 <= i < lines@.len() implies (#[trigger] lines@[i]).within(
            n as int,
        ) by {
            plain_line_within(lines@[i], n as int);
        }
    }
    lines
}

/// The bottom stack layout; without masters it is a grid of `cols` columns.
pub open spec fn bstack<K>(
    params: LayoutParams,
    clients: Seq<LayoutClient<K>>,
    split: int,
    shares: Seq<Option<i32>>,
    cols: int,
) -> Seq<LayoutResult<K>> {
    if clients.len() == 0 || params.n_master == 0 {
        grid(params, clients, cols)
    } else {
        all_placed(
            bstack_lines_of(params, clients.len() as int, split),
            gap_in(params.screen_area, params.gap as int),
            clients,
            shares,
        )
    }
}

/// The number of results is the number of windows in the lines.
pub open spec fn windows_in(lines: Seq<Line>) -> int
    decreases lines.len(),
{
    if lines.len() == 0 {
        0
    } else {
        windows_in(lines.drop_last()) + lines.last().count
    }
}

proof fn placed_windows<K>(
    lines: Seq<Line>,
    gap: int,
    clients: Seq<LayoutClient<K>>,
    shares: Seq<Option<i32>>,
)
    ensures
        all_placed(lines, gap, clients, shares).len() == windows_in(lines),
    decreases lines.len(),
{
    if lines.len() > 0 {
        placed_windows(lines.drop_last(), gap, clients, shares);
    }
}

/// Lines that hold the windows one after the other keep their order.
pub open spec fn consecutive(lines: Seq<Line>) -> bool
    decreases lines.len(),
{
    lines.len() == 0 || {
        &&& consecutive(lines.drop_last())
        &&& lines.last().stride == 1
        &&& lines.last().first == windows_in(lines.drop_last())
    }
}

proof fn consecutive_in_order<K>(
    lines: Seq<Line>,
    gap: int,
    clients: Seq<LayoutClient<K>>,
    shares: Seq<Option<i32>>,
)
    requires
        consecutive(lines),
    ensures
        ({
            let r = all_placed(lines, gap, clients, shares);
            &&& r.len() == windows_in(lines)
            &&& forall|i: int| 0 <= i < r.len() ==> (#[trigger] r[i]).key == clients[i].key
        }),
    decreases lines.len(),
{
    placed_windows(lines, gap, clients, shares);
    if lines.len() > 0 {
        consecutive_in_order(lines.drop_last(), gap, clients, shares);
        let last = lines.last();
        let before = all_placed(lines.drop_last(), gap, clients, shares);
        let r = all_placed(lines, gap, clients, shares);
        assert forall|i: int| 0 <= i < r.len() implies (#[trigger] r[i]).key == clients[i].key by {
            if i < before.len() {
                assert(r[i] == before[i]);
            } else {
                let j = i - before.len();
                assert(r[i] == last.placed(gap, clients, shares)[j]);
                assert(last.client_at(j) == i) by (nonlinear_arith)
                    requires
                        last.stride == 1,
                        last.first + j == i,
                ;
            }
        }
    }
}

/// Places the windows in the bottom stack layout.
pub fn calculate_bstack<K: Copy>(
    params: &LayoutParams,
    clients: &[LayoutClient<K>],
    split: i32,
    shares: &[Option<i32>],
    cols: i32,
) -> (results: Vec<LayoutResult<K>>)
    requires
        clients@.len() <= i32::MAX,
        clients@.len() > 0 && params.n_master == 0 ==> 1 <= cols <= clients@.len(),
    ensures
        results@ == bstack(*params, clients@, split as int, shares@, cols as int),
        in_order(results@, clients@),
        all_visible(results@),
{
    if clients.len() == 0 || params.n_master == 0 {
        return calculate_grid(params, clients, cols);
    }
    let lines = bstack_lines(params, clients.len(), split);
    let gap: i32 = bounded_gap(params.screen_area, params.gap);
    let results = place_lines(&lines, gap, clients, shares);
    proof {
        reveal_with_fuel(windows_in, 4);
        reveal_with_fuel(consecutive, 4);
        let l = lines@;
        if l.len() > 1 {
            assert(l.drop_last().last() == l[l.len() - 2]);
        }
        if l.len() > 2 {
            assert(l.drop_last().drop_last().last() == l[l.len() - 3]);
        }
        consecutive_in_order(l, gap as int, clients@, shares@);
    }
    results
}

/// Whether the usable area is higher than wide, so that masters go above the
/// stack rather than beside it.
pub fn higher_than_wide(params: &LayoutParams) -> (r: bool)
    ensures
        r == ({
            let area = area_in(params.screen_area, params.gap as int);
            area.h > area.w
        }),
{
    let area = usable_area(params.screen_area, params.gap);
    area.h > area.w
}

/// What the masters and the stack share across the screen.
pub fn extent_across(params: &LayoutParams) -> (r: i32)
    ensures
        r == area_in(params.screen_area, params.gap as int).w - gap_in(
            params.screen_area,
            params.gap as int,
        ),
{
    usable_area(params.screen_area, params.gap).w - bounded_gap(params.screen_area, params.gap)
}

/// What the masters and the stack share down the screen.
pub fn extent_down(params: &LayoutParams) -> (r: i32)
    ensures
        r == area_in(params.screen_area, params.gap as int).h - gap_in(
            params.screen_area,
            params.gap as int,
        ),
{
    usable_area(params.screen_area, params.gap).h - bounded_gap(params.screen_area, params.gap)
}

/// What three columns share across the screen.
pub fn extent_of_three(params: &LayoutParams) -> (r: i32)
    ensures
        r == area_in(params.screen_area, params.gap as int).w - 2 * gap_in(
            params.screen_area,
            params.gap as int,
        ),
{
    usable_area(params.screen_area, params.gap).w - 2 * bounded_gap(
        params.screen_area,
        params.gap,
    )
}

/// Every other window from `first` on, in one column.
pub open spec fn every_other(x: int, y: int, w: int, h: int, first: int, count: int) -> Line {
    Line { stride: 2, ..line_of(true, x, y, w, h, first, count) }
}

/// The columns of the three-column layouts: the masters, `split` wide, in the
/// middle; the stack goes to the left and the right by turns.
pub open spec fn centered_lines_of(params: LayoutParams, n: int, split: int) -> Seq<Line> {
    let gap = gap_in(params.screen_area, params.gap as int);
    let area = area_in(params.screen_area, params.gap as int);
    let (x, y, w, h) = (area.x as int, area.y as int, area.w as int, area.h as int);
    let m = masters(n, params.n_master as int);
    if stack_count(n, params.n_master as int) == 0 {
        Seq::empty().push(line_of(true, x, y, w, h, 0, n))
    } else {
        let sides = larger(w - split - 2 * gap, 1);
        let left = larger(sides / 2, 1);
        let right = larger(sides - left, 1);
        Seq::empty().push(line_of(true, x + left + gap, y, split, h, 0, m)).push(
            every_other(x, y, left, h, m, (n - m + 1) / 2),
        ).push(every_other(x + left + gap + split + gap, y, right, h, m + 1, (n - m) / 2))
    }
}

proof fn other_line_within(line: Line, n: int)
    requires
        line.stride == 2,
        line.count == 0 || line.first + 2 * (line.count - 1) < n,
        line.count <= n <= i32::MAX,
    ensures
        line.within(n),
{
    assert forall|j: int| 0 <= j < line.count implies 0 <= #[trigger] line.client_at(j) < n by {
        assert(j * line.stride == 2 * j) by (nonlinear_arith)
            requires
                line.stride == 2,
        ;
    }
}

/// The columns of the three-column layouts.
pub fn centered_lines(params: &LayoutParams, n: usize, split: i32) -> (lines: Vec<Line>)
    requires
        1 <= n <= i32::MAX,
    ensures
        lines@ == centered_lines_of(*params, n as int, split as int),
        lines_within(lines@, n as int),
{
    let mut lines: Vec<Line> = Vec::new();
    let gap: i64 = bounded_gap(params.screen_area, params.gap) as i64;
    let area = usable_area(params.screen_area, params.gap);
    let (x, y, w, h): (i64, i64, i64, i64) = (
        area.x as i64,
        area.y as i64,
        area.w as i64,
        area.h as i64,
    );
    let m: usize = master_count(n, params.n_master);
    if counted_stack(n, params.n_master) == 0 {
        lines.push(line(true, x, y, w, h, 0, n));
        proof {
            plain_line_within(lines@[0], n as int);
        }
    } else {
        let mw: i64 = split as i64;
        let rest: i64 = w - mw - 2 * gap;
        let sides: i64 = if rest >= 1 { rest } else { 1 };
        let half: i64 = sides / 2;
        let left: i64 = if half >= 1 { half } else { 1 };
        let other: i64 = sides - left;
        let right: i64 = if other >= 1 { other } else { 1 };
        let middle = line(true, x + left + gap, y, mw, h, 0, m);
        let mut on_left = line(true, x, y, left, h, m, (n - m + 1) / 2);
        on_left.stride = 2;
        let mut on_right = line(true, x + left + gap + mw + gap, y, right, h, m + 1, (n - m) / 2);
        on_right.stride = 2;
        proof {
            plain_line_within(middle, n as int);
            other_line_within(on_left, n as int);
            other_line_within(on_right, n as int);
        }
        lines.push(middle);
        lines.push(on_left);
        lines.push(on_right);
    }
    lines
}

/// The three-column layouts; without masters a grid, and the bottom stack on a
/// screen that is higher than wide.
pub open spec fn centered<K>(
    params: LayoutParams,
    clients: Seq<LayoutClient<K>>,
    split: int,
    shares: Seq<Option<i32>>,
    cols: int,
) -> Seq<LayoutResult<K>> {
    let n = clients.len() as int;
    let area = area_in(params.screen_area, params.gap as int);
    if n == 0 || params.n_master == 0 {
        grid(params, clients, cols)
    } else if stack_count(n, params.n_master as int) > 0 && area.h > area.w {
        bstack(params, clients, split, shares, cols)
    } else {
        all_placed(
            centered_lines_of(params, n, split),
            gap_in(params.screen_area, params.gap as int),
            clients,
            shares,
        )
    }
}

/// Whether the windows stand in three columns.
pub open spec fn in_three_columns(params: LayoutParams, n: int) -> bool {
    let area = area_in(params.screen_area, params.gap as int);
    &&& n > 0
    &&& params.n_master > 0
    &&& stack_count(n, params.n_master as int) > 0
    &&& area.h <= area.w
}

/// Where window `i` of `n` stands among the results: the masters first, then
/// the left column, then the right one.
pub open spec fn place_in_columns(n: int, m: int, i: int) -> int {
    if i < m {
        i
    } else if (i - m) % 2 == 0 {
        m + (i - m) / 2
    } else {
        m + (n - m + 1) / 2 + (i - m) / 2
    }
}

/// Each window is placed, and no two in the same place.
pub open spec fn in_columns<K>(
    results: Seq<LayoutResult<K>>,
    clients: Seq<LayoutClient<K>>,
    m: int,
) -> bool {
    &&& results.len() == clients.len()
    &&& forall|i: int|
        0 <= i < clients.len() ==> {
            &&& 0 <= #[trigger] place_in_columns(clients.len() as int, m, i) < results.len()
            &&& results[place_in_columns(clients.len() as int, m, i)].key == clients[i].key
        }
}

proof fn three_columns_hold_all<K>(
    params: LayoutParams,
    clients: Seq<LayoutClient<K>>,
    split: int,
    shares: Seq<Option<i32>>,
    cols: int,
)
    requires
        in_three_columns(params, clients.len() as int),
        clients.len() <= i32::MAX,
    ensures
        in_columns(
            centered(params, clients, split, shares, cols),
            clients,
            masters(clients.len() as int, params.n_master as int),
        ),
{
    let n = clients.len() as int;
    let m = masters(n, params.n_master as int);
    let gap = gap_in(params.screen_area, params.gap as int);
    let lines = centered_lines_of(params, n, split);
    reveal_with_fuel(all_placed, 4);
    assert(lines.drop_last().drop_last().drop_last() =~= Seq::<Line>::empty());
    assert(lines.drop_last().drop_last().last() == lines[0]);
    assert(lines.drop_last().last() == lines[1]);
    let r = all_placed(lines, gap, clients, shares);
    let (p, q, s) = (
        lines[0].placed(gap, clients, shares),
        lines[1].placed(gap, clients, shares),
        lines[2].placed(gap, clients, shares),
    );
    assert(r =~= p + q + s);
    assert(p.len() == m && q.len() == (n - m + 1) / 2 && s.len() == (n - m) / 2);
    assert(r.len() == n);
    assert forall|i: int| 0 <= i < n implies {
        &&& 0 <= #[trigger] place_in_columns(n, m, i) < r.len()
        &&& r[place_in_columns(n, m, i)].key == clients[i].key
    } by {
        if i < m {
            assert(r[i] == p[i]);
            assert(lines[0].client_at(i) == i) by (nonlinear_arith)
                requires
                    lines[0].stride == 1,
                    lines[0].first == 0,
            ;
        } else {
            let j = (i - m) / 2;
            if (i - m) % 2 == 0 {
                assert(r[m + j] == q[j]);
                assert(lines[1].client_at(j) == i) by (nonlinear_arith)
                    requires
                        lines[1].stride == 2,
                        lines[1].first + 2 * j == i,
                ;
            } else {
                assert(r[m + (n - m + 1) / 2 + j] == s[j]);
                assert(lines[2].client_at(j) == i) by (nonlinear_arith)
                    requires
                        lines[2].stride == 2,
                        lines[2].first + 2 * j == i,
                ;
            }
        }
    }
}

fn centered_columns<K: Copy>(
    params: &LayoutParams,
    clients: &[LayoutClient<K>],
    split: i32,
    shares: &[Option<i32>],
    cols: i32,
) -> (results: Vec<LayoutResult<K>>)
    requires
        clients@.len() <= i32::MAX,
        clients@.len() > 0 && params.n_master == 0 ==> 1 <= cols <= clients@.len(),
    ensures
        results@ == centered(*params, clients@, split as int, shares@, cols as int),
        if in_three_columns(*params, clients@.len() as int) {
            in_columns(
                results@,
                clients@,
                masters(clients@.len() as int, params.n_master as int),
            )
        } else {
            in_order(results@, clients@)
        },
        all_visible(results@),
{
    if clients.len() == 0 || params.n_master == 0 {
        return calculate_grid(params, clients, cols);
    }
    if counted_stack(clients.len(), params.n_master) > 0 && higher_than_wide(params) {
        return calculate_bstack(params, clients, split, shares, cols);
    }
    let lines = centered_lines(params, clients.len(), split);
    let gap: i32 = bounded_gap(params.screen_area, params.gap);
    let results = place_lines(&lines, gap, clients, shares);
    proof {
        if in_three_columns(*params, clients@.len() as int) {
            three_columns_hold_all(*params, clients@, split as int, shares@, cols as int);
        } else {
            reveal_with_fuel(windows_in, 2);
            reveal_with_fuel(consecutive, 2);
            consecutive_in_order(lines@, gap as int, clients@, shares@);
        }
    }
    results
}

/// Places the windows around a centred master, which the caller makes narrower
/// as the stack grows.
pub fn calculate_centered_master<K: Copy>(
    params: &LayoutParams,
    clients: &[LayoutClient<K>],
    split: i32,
    shares: &[Option<i32>],
    cols: i32,
) -> (results: Vec<LayoutResult<K>>)
    requires
        clients@.len() <= i32::MAX,
        clients@.len() > 0 && params.n_master == 0 ==> 1 <= cols <= clients@.len(),
    ensures
        results@ == centered(*params, clients@, split as int, shares@, cols as int),
        if in_three_columns(*params, clients@.len() as int) {
            in_columns(
                results@,
                clients@,
                masters(clients@.len() as int, params.n_master as int),
            )
        } else {
            in_order(results@, clients@)
        },
        all_visible(results@),
{
    centered_columns(params, clients, split, shares, cols)
}

/// Places the windows in three columns around a master of fixed width.
pub fn calculate_three_col<K: Copy>(
    params: &LayoutParams,
    clients: &[LayoutClient<K>],
    split: i32,
    shares: &[Option<i32>],
    cols: i32,
) -> (results: Vec<LayoutResult<K>>)
    requires
        clients@.len() <= i32::MAX,
        clients@.len() > 0 && params.n_master == 0 ==> 1 <= cols <= clients@.len(),
    ensures
        results@ == centered(*params, clients@, split as int, shares@, cols as int),
        if in_three_columns(*params, clients@.len() as int) {
            in_columns(
                results@,
                clients@,
                masters(clients@.len() as int, params.n_master as int),
            )
        } else {
            in_order(results@, clients@)
        },
        all_visible(results@),
{
    centered_columns(params, clients, split, shares, cols)
}

/// Overlapping windows from `first` on, each a step further down and to the
/// right and as much smaller; after the fifth the step stays.
pub open spec fn previews<K>(
    clients: Seq<LayoutClient<K>>,
    first: int,
    x: int,
    y: int,
    w: int,
    h: int,
    gap: int,
) -> Seq<LayoutResult<K>> {
    Seq::new(
        (clients.len() - first) as nat,
        |j: int|
            {
                let off = smaller(j, 5) * clamped(gap, 6, 16);
                LayoutResult {
                    key: clients[first + j].key,
                    rect: framed(
                        x + off,
                        y + off,
                        w - off,
                        h - off,
                        clients[first + j].border_w as int,
                    ),
                }
            },
    )
}

proof fn previews_hold_the_rest<K>(
    clients: Seq<LayoutClient<K>>,
    first: int,
    x: int,
    y: int,
    w: int,
    h: int,
    gap: int,
)
    requires
        0 <= first <= clients.len(),
    ensures
        ({
            let r = previews(clients, first, x, y, w, h, gap);
            &&& r.len() == clients.len() - first
            &&& forall|j: int| 0 <= j < r.len() ==> (#[trigger] r[j]).key == clients[first + j].key
            &&& all_visible(r)
        }),
{
}

fn push_deck_previews<K: Copy>(
    results: &mut Vec<LayoutResult<K>>,
    clients: &[LayoutClient<K>],
    first: usize,
    x: i64,
    y: i64,
    w: i64,
    h: i64,
    gap: i32,
)
    requires
        first <= clients@.len(),
        -10000000000 <= x <= 10000000000,
        -10000000000 <= y <= 10000000000,
        -10000000000 <= w <= 10000000000,
        -10000000000 <= h <= 10000000000,
    ensures
        final(results)@ == old(results)@ + previews(
            clients@,
            first as int,
            x as int,
            y as int,
            w as int,
            h as int,
            gap as int,
        ),
{
    let step: i64 = if gap < 6 {
        6
    } else if gap > 16 {
        16
    } else {
        gap as i64
    };
    let ghost before = results@;
    let ghost whole = previews(
        clients@,
        first as int,
        x as int,
        y as int,
        w as int,
        h as int,
        gap as int,
    );
    let mut i: usize = first;
    while i < clients.len()
        invariant
            first <= i <= clients@.len(),
            -10000000000 <= x <= 10000000000,
            -10000000000 <= y <= 10000000000,
            -10000000000 <= w <= 10000000000,
            -10000000000 <= h <= 10000000000,
            step == clamped(gap as int, 6, 16),
            whole == previews(
                clients@,
                first as int,
                x as int,
                y as int,
                w as int,
                h as int,
                gap as int,
            ),
            results@ == before + whole.take(i - first),
        decreases clients@.len() - i,
    {
        let c = clients[i];
        let depth: i64 = if i - first < 5 { (i - first) as i64 } else { 5 };
        assert(0 <= depth * step <= 80) by (nonlinear_arith)
            requires
                0 <= depth <= 5,
                6 <= step <= 16,
        ;
        let off: i64 = depth * step;
        let rect = client_rect(x + off, y + off, w - off, h - off, c.border_w);
        results.push(LayoutResult { key: c.key, rect });
        proof {
            assert(whole[i - first].rect == rect);
            assert(before + whole.take(i + 1 - first) =~= (before + whole.take(i - first)).push(
                whole[i - first],
            ));
        }
        i = i + 1;
    }
    assert(whole.take(i - first) =~= whole);
}

/// A line of the first windows, followed by the rest in order, holds all.
proof fn line_and_rest<K>(
    line: Line,
    gap: int,
    clients: Seq<LayoutClient<K>>,
    shares: Seq<Option<i32>>,
    rest: Seq<LayoutResult<K>>,
)
    requires
        line.first == 0,
        line.stride == 1,
        line.count + rest.len() == clients.len(),
        forall|j: int|
            0 <= j < rest.len() ==> (#[trigger] rest[j]).key == clients[line.count + j].key,
        all_visible(rest),
    ensures
        in_order(line.placed(gap, clients, shares) + rest, clients),
        all_visible(line.placed(gap, clients, shares) + rest),
{
    let head = line.placed(gap, clients, shares);
    let r = head + rest;
    assert forall|i: int| 0 <= i < clients.len() implies (#[trigger] r[i]).key == clients[i].key
        && r[i].rect.w >= 1 && r[i].rect.h >= 1 by {
        if i < line.count {
            assert(r[i] == head[i]);
            assert(line.client_at(i) == i) by (nonlinear_arith)
                requires
                    line.first == 0,
                    line.stride == 1,
            ;
        } else {
            assert(r[i] == rest[i - line.count]);
        }
    }
}

/// The line of masters of the deck layout.
pub open spec fn deck_line_of(params: LayoutParams, n: int, split: int) -> Line {
    let area = area_in(params.screen_area, params.gap as int);
    let (x, y, w, h) = (area.x as int, area.y as int, area.w as int, area.h as int);
    let m = masters(n, params.n_master as int);
    let has_stack = n > params.n_master && params.n_master > 0;
    if has_stack && h > w {
        line_of(false, x, y, w, split, 0, m)
    } else {
        line_of(true, x, y, if has_stack { split } else { w }, h, 0, m)
    }
}

/// The line of masters of the deck layout.
pub fn deck_line(params: &LayoutParams, n: usize, split: i32) -> (r: Line)
    requires
        n <= i32::MAX,
    ensures
        r == deck_line_of(*params, n as int, split as int),
        r.within(n as int),
{
    let area = usable_area(params.screen_area, params.gap);
    let (x, y, w, h): (i64, i64, i64, i64) = (
        area.x as i64,
        area.y as i64,
        area.w as i64,
        area.h as i64,
    );
    let m: usize = master_count(n, params.n_master);
    let has_stack = n as u64 > params.n_master as u64 && params.n_master > 0;
    let r = if has_stack && h > w {
        line(false, x, y, w, split as i64, 0, m)
    } else {
        line(true, x, y, if has_stack { split as i64 } else { w }, h, 0, m)
    };
    proof {
        plain_line_within(r, n as int);
    }
    r
}

/// The area of the pile: all of it without masters, else what the masters
/// leave beside them, or below them on a screen that is higher than wide.
pub open spec fn pile_of(params: LayoutParams, n: int, split: int) -> (int, int, int, int) {
    let gap = gap_in(params.screen_area, params.gap as int);
    let area = area_in(params.screen_area, params.gap as int);
    let (x, y, w, h) = (area.x as int, area.y as int, area.w as int, area.h as int);
    let has_stack = n > params.n_master && params.n_master > 0;
    if params.n_master == 0 {
        (x, y, w, h)
    } else if has_stack && h > w {
        (x, y + split + gap, w, larger(h - split - gap, 1))
    } else {
        let mw = if has_stack {
            split
        } else {
            w
        };
        (x + mw + gap, y, w - mw - gap, h)
    }
}

/// The deck layout: a line of masters, and the rest in one overlapping pile.
pub open spec fn deck<K>(
    params: LayoutParams,
    clients: Seq<LayoutClient<K>>,
    split: int,
    shares: Seq<Option<i32>>,
) -> Seq<LayoutResult<K>> {
    let gap = gap_in(params.screen_area, params.gap as int);
    let n = clients.len() as int;
    let (x, y, w, h) = pile_of(params, n, split);
    deck_line_of(params, n, split).placed(gap, clients, shares) + previews(
        clients,
        masters(n, params.n_master as int),
        x,
        y,
        w,
        h,
        gap,
    )
}

fn pile(params: &LayoutParams, n: usize, split: i32) -> (r: (i64, i64, i64, i64))
    requires
        n <= i32::MAX,
    ensures
        (r.0 as int, r.1 as int, r.2 as int, r.3 as int) == pile_of(
            *params,
            n as int,
            split as int,
        ),
        -10000000000 <= r.0 <= 10000000000,
        -10000000000 <= r.1 <= 10000000000,
        -10000000000 <= r.2 <= 10000000000,
        -10000000000 <= r.3 <= 10000000000,
{
    let gap: i64 = bounded_gap(params.screen_area, params.gap) as i64;
    let area = usable_area(params.screen_area, params.gap);
    let (x, y, w, h): (i64, i64, i64, i64) = (
        area.x as i64,
        area.y as i64,
        area.w as i64,
        area.h as i64,
    );
    let has_stack = n as u64 > params.n_master as u64;
    if params.n_master == 0 {
        (x, y, w, h)
    } else if has_stack && h > w {
        let rest: i64 = h - split as i64 - gap;
        (x, y + split as i64 + gap, w, if rest >= 1 { rest } else { 1 })
    } else {
        let mw: i64 = if has_stack { split as i64 } else { w };
        (x + mw + gap, y, w - mw - gap, h)
    }
}

/// Places the windows in the deck layout.
#[verifier::spinoff_prover]
pub fn calculate_deck<K: Copy>(
    params: &LayoutParams,
    clients: &[LayoutClient<K>],
    split: i32,
    shares: &[Option<i32>],
) -> (results: Vec<LayoutResult<K>>)
    requires
        clients@.len() <= i32::MAX,
    ensures
        results@ == deck(*params, clients@, split as int, shares@),
        in_order(results@, clients@),
        all_visible(results@),
{
    let mut results: Vec<LayoutResult<K>> = Vec::new();
    let n: usize = clients.len();
    let gap: i32 = bounded_gap(params.screen_area, params.gap);
    let m: usize = master_count(n, params.n_master);
    let head = deck_line(params, n, split);
    head.place(gap, clients, shares, &mut results);
    let ghost line = head.placed(gap as int, clients@, shares@);
    assert(results@ =~= line);
    let (x, y, w, h) = pile(params, n, split);
    push_deck_previews(&mut results, clients, m, x, y, w, h, gap);
    proof {
        let rest = previews(
            clients@,
            m as int,
            x as int,
            y as int,
            w as int,
            h as int,
            gap as int,
        );
        previews_hold_the_rest(
            clients@,
            m as int,
            x as int,
            y as int,
            w as int,
            h as int,
            gap as int,
        );
        line_and_rest(head, gap as int, clients@, shares@, rest);
        assert(results@ =~= line + rest);
    }
    results
}

/// What is left of an area after `k` windows took half each, the upper or the
/// left one by turns.
pub open spec fn spiral_rest(x: int, y: int, w: int, h: int, gap: int, k: int) -> (
    int,
    int,
    int,
    int,
)
    decreases k,
{
    if k <= 0 {
        (x, y, w, h)
    } else {
        let (x, y, w, h) = spiral_rest(x, y, w, h, gap, k - 1);
        if (k - 1) % 2 == 0 {
            let half = quotient(h - gap, 2);
            (x, y + half + gap, w, h - half - gap)
        } else {
            let half = quotient(w - gap, 2);
            (x + half + gap, y, w - half - gap, h)
        }
    }
}

/// Corner and size of window `k` of `count` in the spiral; the last takes all
/// that is left.
pub open spec fn spiral(x: int, y: int, w: int, h: int, gap: int, count: int, k: int) -> (
    int,
    int,
    int,
    int,
) {
    let (x, y, w, h) = spiral_rest(x, y, w, h, gap, k);
    if k == count - 1 {
        (x, y, w, h)
    } else if k % 2 == 0 {
        (x, y, w, quotient(h - gap, 2))
    } else {
        (x, y, quotient(w - gap, 2), h)
    }
}

/// The column of masters of the fibonacci layout.
pub open spec fn fibonacci_line_of(params: LayoutParams, n: int, split: int) -> Line {
    let area = area_in(params.screen_area, params.gap as int);
    line_of(
        true,
        area.x as int,
        area.y as int,
        if n > params.n_master {
            split
        } else {
            area.w as int
        },
        area.h as int,
        0,
        masters(n, params.n_master as int),
    )
}

/// The column of masters of the fibonacci layout.
pub fn fibonacci_line(params: &LayoutParams, n: usize, split: i32) -> (r: Line)
    requires
        n <= i32::MAX,
    ensures
        r == fibonacci_line_of(*params, n as int, split as int),
        r.within(n as int),
{
    let area = usable_area(params.screen_area, params.gap);
    let r = line(
        true,
        area.x as i64,
        area.y as i64,
        if n as u64 > params.n_master as u64 { split as i64 } else { area.w as i64 },
        area.h as i64,
        0,
        master_count(n, params.n_master),
    );
    proof {
        plain_line_within(r, n as int);
    }
    r
}

/// The fibonacci layout: a column of masters, and the rest in a spiral of
/// halves beside it.
pub open spec fn fibonacci<K>(
    params: LayoutParams,
    clients: Seq<LayoutClient<K>>,
    split: int,
    shares: Seq<Option<i32>>,
) -> Seq<LayoutResult<K>> {
    let gap = gap_in(params.screen_area, params.gap as int);
    let area = area_in(params.screen_area, params.gap as int);
    let n = clients.len() as int;
    let m = masters(n, params.n_master as int);
    let x = if params.n_master > 0 {
        area.x + split + gap
    } else {
        area.x as int
    };
    let w = if params.n_master > 0 {
        area.w - split - gap
    } else {
        area.w as int
    };
    fibonacci_line_of(params, n, split).placed(gap, clients, shares) + Seq::new(
        (n - m) as nat,
        |k: int|
            {
                let (px, py, pw, ph) = spiral(
                    x,
                    area.y as int,
                    w,
                    area.h as int,
                    gap,
                    n - m,
                    k,
                );
                LayoutResult {
                    key: clients[m + k].key,
                    rect: framed(px, py, pw, ph, clients[m + k].border_w as int),
                }
            },
    )
}

/// Places the windows in the fibonacci layout.
pub fn calculate_fibonacci<K: Copy>(
    params: &LayoutParams,
    clients: &[LayoutClient<K>],
    split: i32,
    shares: &[Option<i32>],
) -> (results: Vec<LayoutResult<K>>)
    requires
        clients@.len() <= i32::MAX,
    ensures
        results@ == fibonacci(*params, clients@, split as int, shares@),
        in_order(results@, clients@),
        all_visible(results@),
{
    let mut results: Vec<LayoutResult<K>> = Vec::new();
    let n: usize = clients.len();
    let gap: i32 = bounded_gap(params.screen_area, params.gap);
    let g: i64 = gap as i64;
    let area = usable_area(params.screen_area, params.gap);
    let m: usize = master_count(n, params.n_master);
    let head = fibonacci_line(params, n, split);
    head.place(gap, clients, shares, &mut results);
    let ghost line = head.placed(gap as int, clients@, shares@);
    assert(results@ =~= line);
    let ghost whole = fibonacci(*params, clients@, split as int, shares@);
    let x0: i64 = if params.n_master > 0 {
        area.x as i64 + split as i64 + g
    } else {
        area.x as i64
    };
    let w0: i64 = if params.n_master > 0 {
        area.w as i64 - split as i64 - g
    } else {
        area.w as i64
    };
    let y0: i64 = area.y as i64;
    let h0: i64 = area.h as i64;
    let (mut x, mut y, mut w, mut h): (i64, i64, i64, i64) = (x0, y0, w0, h0);
    let mut i: usize = m;
    assert(whole.take(m as int) =~= line);
    while i < n
        invariant
            m <= i <= n,
            n == clients@.len() <= i32::MAX,
            0 <= g <= 1073741823,
            g == gap_in(params.screen_area, params.gap as int),
            m == masters(n as int, params.n_master as int),
            x0 == (if params.n_master > 0 {
                area.x + split + g
            } else {
                area.x as int
            }),
            w0 == (if params.n_master > 0 {
                area.w - split - g
            } else {
                area.w as int
            }),
            y0 == area.y,
            h0 == area.h,
            area == area_in(params.screen_area, params.gap as int),
            x + w == x0 + w0,
            y + h == y0 + h0,
            -10000000000 <= w <= 10000000000,
            -10000000000 <= h <= 10000000000,
            -20000000000 <= x <= 20000000000,
            -20000000000 <= y <= 20000000000,
            (x as int, y as int, w as int, h as int) == spiral_rest(
                x0 as int,
                y0 as int,
                w0 as int,
                h0 as int,
                g as int,
                i - m,
            ),
            whole == fibonacci(*params, clients@, split as int, shares@),
            results@ == whole.take(i as int),
        decreases n - i,
    {
        let c = clients[i];
        let k: usize = i - m;
        let (pw, ph): (i64, i64) = if k == n - m - 1 {
            (w, h)
        } else if k % 2 == 0 {
            (w, divide(h - g, 2))
        } else {
            (divide(w - g, 2), h)
        };
        let rect = client_rect(x, y, pw, ph, c.border_w);
        results.push(LayoutResult { key: c.key, rect });
        proof {
            assert(whole[i as int].rect == rect);
            assert(whole.take(i + 1) =~= whole.take(i as int).push(whole[i as int]));
        }
        if k % 2 == 0 {
            let half: i64 = divide(h - g, 2);
            y = y + half + g;
            h = h - half - g;
        } else {
            let half: i64 = divide(w - g, 2);
            x = x + half + g;
            w = w - half - g;
        }
        i = i + 1;
    }
    assert(whole.take(i as int) =~= whole);
    proof {
        let rest = whole.skip(m as int);
        assert(whole =~= line + rest);
        line_and_rest(head, gap as int, clients@, shares@, rest);
    }
    results
}

/// The next window of a line begins one gap after the one before it ends.
pub proof fn neighbours_keep_the_gap(line: Line, gap: int, shares: Seq<Option<i32>>, j: int)
    requires
        0 <= j,
        0 <= gap,
        line.used_by(gap, shares, j) + line.length_at(
            gap,
            shares,
            line.used_by(gap, shares, j),
            j,
        ) <= i32::MAX,
        0 <= (if line.down {
            line.y
        } else {
            line.x
        }),
        (if line.down {
            line.y
        } else {
            line.x
        }) + line.used_by(gap, shares, j + 1) + (j + 1) * gap <= i32::MAX,
    ensures
        ({
            let a = line.rect_at(gap, shares, j, 0);
            let b = line.rect_at(gap, shares, j + 1, 0);
            if line.down {
                b.y == a.y + a.h + gap
            } else {
                b.x == a.x + a.w + gap
            }
        }),
{
    used_is_positive(line, gap, shares, j);
    assert((j + 1) * gap == j * gap + gap && 0 <= j * gap) by (nonlinear_arith)
        requires
            0 <= j,
            0 <= gap,
    ;
}

proof fn used_is_positive(line: Line, gap: int, shares: Seq<Option<i32>>, j: int)
    ensures
        0 <= line.used_by(gap, shares, j) <= i32::MAX,
    decreases j,
{
    if j > 0 {
        used_is_positive(line, gap, shares, j - 1);
    }
}

impl Line {
    /// Whether the share of the window at place `j` leaves a pixel for each
    /// window after it, the last window's being all that is left. A window
    /// without a share does.
    pub open spec fn leaves_room(self, gap: int, shares: Seq<Option<i32>>, j: int) -> bool {
        let left = length_left(
            self.total(),
            gap,
            self.used_by(gap, shares, j),
            self.count as int,
        );
        match share_at(shares, self.client_at(j)) {
            Some(length) => if j == self.count - 1 {
                length == left
            } else {
                length <= left - (self.count - 1 - j)
            },
            None => true,
        }
    }
}

/// Where every window leaves room for those after it, the windows of a line
/// fill it to the last pixel, and none reaches beyond it: lengths and gaps add
/// up to the length of the line.
pub proof fn lines_are_filled(line: Line, gap: int, shares: Seq<Option<i32>>)
    requires
        0 <= gap,
        0 < line.count,
        line.total() >= line.count + (line.count - 1) * gap,
        forall|j: int| 0 <= j < line.count ==> #[trigger] line.leaves_room(gap, shares, j),
    ensures
        line.used_by(gap, shares, line.count as int) + (line.count - 1) * gap == line.total(),
        forall|j: int|
            0 <= j < line.count ==> 0 <= #[trigger] line.used_by(gap, shares, j)
                <= line.total() - (line.count - 1) * gap - (line.count - j),
{
    assert forall|j: int| 0 <= j < line.count implies 0 <= #[trigger] line.used_by(gap, shares, j)
        <= line.total() - (line.count - 1) * gap - (line.count - j) by {
        room_is_left(line, gap, shares, j);
    }
    let j = line.count - 1;
    let room = line.total() - (line.count - 1) * gap;
    let used = line.used_by(gap, shares, j);
    room_is_left(line, gap, shares, j);
    assert(line.leaves_room(gap, shares, j));
    assert(0 <= (line.count - 1) * gap) by (nonlinear_arith)
        requires
            0 < line.count,
            0 <= gap,
    ;
    vstd::arithmetic::div_mod::lemma_div_basics_2(room - used);
    assert(line.length_at(gap, shares, used, j) == room - used);
}

proof fn room_is_left(line: Line, gap: int, shares: Seq<Option<i32>>, j: int)
    requires
        0 <= gap,
        0 <= j < line.count,
        line.total() >= line.count + (line.count - 1) * gap,
        forall|j: int| 0 <= j < line.count ==> #[trigger] line.leaves_room(gap, shares, j),
    ensures
        0 <= line.used_by(gap, shares, j) <= line.total() - (line.count - 1) * gap - (line.count
            - j),
    decreases j,
{
    if j > 0 {
        room_is_left(line, gap, shares, j - 1);
        let room = line.total() - (line.count - 1) * gap;
        let used = line.used_by(gap, shares, j - 1);
        let left = room - used;
        let k = line.count - (j - 1);
        assert(line.leaves_room(gap, shares, j - 1));
        assert(0 <= (line.count - 1) * gap) by (nonlinear_arith)
            requires
                0 < line.count,
                0 <= gap,
        ;
        vstd::arithmetic::div_mod::lemma_fundamental_div_mod(left, k);
        vstd::arithmetic::div_mod::lemma_mod_bound(left, k);
        assert(1 <= left / k <= left - (k - 1)) by (nonlinear_arith)
            requires
                left == k * (left / k) + left % k,
                0 <= left % k < k,
                2 <= k <= left,
        ;
    }
}

} // verus!
