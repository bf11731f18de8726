//! Where layouts put their windows, with the shares and splits that fractions
//! come to.
use jwm::catalog::LayoutEnum;
use jwm::geometry::Rect;
use jwm::ieee::F32;
use jwm::layout::cards::{self, Fan, fan_depth, fan_step};
use jwm::layout::columns::{
    self, Line, bstack_lines, centered_lines, deck_line, distribute_length, extent_across,
    extent_down, extent_of_three, fibonacci_line, higher_than_wide, master_fraction, middle_fraction,
    remaining_length, tile_lines,
};
use jwm::layout::grid::{self, choose_grid_dimensions};
use jwm::layout::preview::{
    PreviewMeasures, cascade, preview_frames, preview_window_count, visible_frames,
};
use jwm::layout::strip::{
    self, column_positions, column_width, focused_column, height_left, height_of_window,
    height_taken, shared_height, width_factor,
};
use jwm::layout::{LayoutResult, bounded_gap, usable_area};

#[derive(Clone, Copy)]
struct LayoutClient<K> {
    key: K,
    factor: f32,
    border_w: i32,
}

struct LayoutParams {
    screen_area: Rect,
    n_master: u32,
    m_fact: f32,
    gap: i32,
}

struct ScrollingParams {
    screen_area: Rect,
    column_width_ratio: f32,
    column_width_factors: Vec<f32>,
    gap: i32,
    viewport_x: f32,
}

fn client(key: u32, factor: f32) -> LayoutClient<u32> {
    LayoutClient {
        key,
        factor,
        border_w: 1,
    }
}

fn params(w: i32, h: i32) -> LayoutParams {
    LayoutParams {
        screen_area: Rect::new(0, 0, w, h),
        n_master: 1,
        m_fact: 0.55,
        gap: 0,
    }
}

fn plain(p: &LayoutParams) -> jwm::layout::LayoutParams {
    jwm::layout::LayoutParams {
        screen_area: p.screen_area,
        n_master: p.n_master,
        gap: p.gap,
    }
}

fn windows<K: Copy>(clients: &[LayoutClient<K>]) -> Vec<jwm::layout::LayoutClient<K>> {
    clients
        .iter()
        .map(|c| jwm::layout::LayoutClient {
            key: c.key,
            border_w: c.border_w,
        })
        .collect()
}

fn bits(x: f32) -> F32 {
    F32 { bits: x.to_bits() }
}

fn single(x: F32) -> f32 {
    f32::from_bits(x.bits)
}

fn part(extent: i32, fraction: f32) -> i32 {
    (extent as f32 * fraction) as i32
}

fn shares<K: Copy>(lines: &[Line], gap: i32, clients: &[LayoutClient<K>]) -> Vec<Option<i32>> {
    let mut shares = vec![None; clients.len()];
    for line in lines {
        let index = |j: usize| line.first + j * line.stride;
        let total = if line.down { line.h } else { line.w };
        let mut used = 0i32;
        let mut left: f32 = (0..line.count)
            .map(|j| clients[index(j)].factor.max(0.0))
            .sum();
        for j in 0..line.count {
            let factor = clients[index(j)].factor.max(0.0);
            let share = if left > 0.001 {
                let open = remaining_length(total, gap, used, line.count);
                Some((open as f32 * (factor / left)) as i32)
            } else {
                None
            };
            shares[index(j)] = share;
            used = used.saturating_add(distribute_length(
                total, gap, used, j, line.count, share,
            ));
            left -= factor;
        }
    }
    shares
}

fn columns_for(p: &LayoutParams, n: usize) -> i32 {
    let area = usable_area(p.screen_area, p.gap);
    let target = if area.h > 0 {
        ((area.w as f32 / area.h as f32).sqrt()).clamp(1.0, 1.8)
    } else {
        1.0
    };
    let scores: Vec<F32> = (1..=n as i32)
        .map(|cols| {
            let rows = (n as i32 + cols - 1) / cols;
            let aspect = (area.w as f32 / cols as f32) / (area.h as f32 / rows as f32);
            let empty = cols * rows - n as i32;
            let score = (aspect - target).abs() + empty as f32 * 0.15;
            F32 {
                bits: score.to_bits(),
            }
        })
        .collect();
    choose_grid_dimensions(n, &scores).0
}

fn calculate_tile<K: Copy>(
    p: &LayoutParams,
    clients: &[LayoutClient<K>],
) -> Vec<LayoutResult<K>> {
    let plain = plain(p);
    let extent = if higher_than_wide(&plain) {
        extent_down(&plain)
    } else {
        extent_across(&plain)
    };
    let split = part(extent, single(master_fraction(bits(p.m_fact))));
    let gap = bounded_gap(p.screen_area, p.gap);
    let lines = tile_lines(&plain, clients.len(), split);
    let shares = shares(&lines, gap, clients);
    columns::calculate_tile(&plain, &windows(clients), split, &shares)
}

fn calculate_fibonacci<K: Copy>(
    p: &LayoutParams,
    clients: &[LayoutClient<K>],
) -> Vec<LayoutResult<K>> {
    let plain = plain(p);
    let split = part(extent_across(&plain), single(master_fraction(bits(p.m_fact))));
    let gap = bounded_gap(p.screen_area, p.gap);
    let line = fibonacci_line(&plain, clients.len(), split);
    let shares = shares(&[line], gap, clients);
    columns::calculate_fibonacci(&plain, &windows(clients), split, &shares)
}

fn calculate_bstack<K: Copy>(
    p: &LayoutParams,
    clients: &[LayoutClient<K>],
) -> Vec<LayoutResult<K>> {
    let plain = plain(p);
    let split = part(extent_down(&plain), p.m_fact);
    bstack_with(p, clients, split)
}

fn bstack_with<K: Copy>(
    p: &LayoutParams,
    clients: &[LayoutClient<K>],
    split: i32,
) -> Vec<LayoutResult<K>> {
    let plain = plain(p);
    let gap = bounded_gap(p.screen_area, p.gap);
    let shares = if clients.is_empty() {
        Vec::new()
    } else {
        shares(&bstack_lines(&plain, clients.len(), split), gap, clients)
    };
    let cols = columns_for(p, clients.len());
    columns::calculate_bstack(&plain, &windows(clients), split, &shares, cols)
}

fn centered<K: Copy>(
    p: &LayoutParams,
    clients: &[LayoutClient<K>],
    shrink_master: bool,
) -> Vec<LayoutResult<K>> {
    let plain = plain(p);
    let n_stack = (clients.len() as i32 - p.n_master as i32).max(0);
    if n_stack > 0 && p.n_master > 0 && higher_than_wide(&plain) {
        return calculate_bstack(p, clients);
    }
    let bias = if !shrink_master || n_stack <= 2 {
        1.0
    } else {
        (2.0 / n_stack as f32).max(0.7)
    };
    let split = (extent_of_three(&plain) as f32 * single(middle_fraction(bits(p.m_fact))) * bias).max(1.0)
        as i32;
    let gap = bounded_gap(p.screen_area, p.gap);
    let shares = if clients.is_empty() {
        Vec::new()
    } else {
        shares(&centered_lines(&plain, clients.len(), split), gap, clients)
    };
    let cols = columns_for(p, clients.len());
    if shrink_master {
        columns::calculate_centered_master(&plain, &windows(clients), split, &shares, cols)
    } else {
        columns::calculate_three_col(&plain, &windows(clients), split, &shares, cols)
    }
}

fn calculate_centered_master<K: Copy>(
    p: &LayoutParams,
    clients: &[LayoutClient<K>],
) -> Vec<LayoutResult<K>> {
    centered(p, clients, true)
}

fn calculate_three_col<K: Copy>(
    p: &LayoutParams,
    clients: &[LayoutClient<K>],
) -> Vec<LayoutResult<K>> {
    centered(p, clients, false)
}

fn calculate_deck<K: Copy>(
    p: &LayoutParams,
    clients: &[LayoutClient<K>],
) -> Vec<LayoutResult<K>> {
    let plain = plain(p);
    let split = if higher_than_wide(&plain) {
        (extent_down(&plain) as f32 * single(middle_fraction(bits(p.m_fact)))).max(1.0) as i32
    } else {
        part(extent_across(&plain), p.m_fact)
    };
    let gap = bounded_gap(p.screen_area, p.gap);
    let line = deck_line(&plain, clients.len(), split);
    let shares = shares(&[line], gap, clients);
    columns::calculate_deck(&plain, &windows(clients), split, &shares)
}

fn calculate_grid<K: Copy>(
    p: &LayoutParams,
    clients: &[LayoutClient<K>],
) -> Vec<LayoutResult<K>> {
    let cols = columns_for(p, clients.len());
    grid::calculate_grid(&plain(p), &windows(clients), cols)
}

fn calculate_tatami<K: Copy>(
    p: &LayoutParams,
    clients: &[LayoutClient<K>],
) -> Vec<LayoutResult<K>> {
    let cols = columns_for(p, clients.len());
    grid::calculate_tatami(&plain(p), &windows(clients), cols)
}

fn calculate_monocle<K: Copy>(
    p: &LayoutParams,
    clients: &[LayoutClient<K>],
) -> Vec<LayoutResult<K>> {
    cards::calculate_monocle(&plain(p), &windows(clients))
}

fn calculate_fullscreen<K: Copy>(
    p: &LayoutParams,
    clients: &[LayoutClient<K>],
) -> Vec<LayoutResult<K>> {
    cards::calculate_fullscreen(&plain(p), &windows(clients))
}

fn fan_for(p: &LayoutParams, n: usize) -> Fan {
    const TAN30: f32 = 0.57735;
    let plain = plain(p);
    let area = usable_area(p.screen_area, p.gap);
    let scale = if n <= 5 {
        1.0
    } else {
        (5.0 / n as f32).sqrt().clamp(0.35, 1.0)
    };
    let card_w = ((area.w as f32 / 2.0) * scale) as i32;
    let card_h = ((area.h as f32 / 2.0) * scale) as i32;
    let depth = fan_depth(n);
    let steep = ((area.h - card_h) as f32 / (depth as f32 * TAN30)) as i32;
    let step = fan_step(&plain, n, card_w, steep);
    let rise = (step as f32 * TAN30) as i32;
    Fan {
        card_w,
        card_h,
        steep,
        rise,
    }
}

fn calculate_vstack<K: Copy>(
    p: &LayoutParams,
    clients: &[LayoutClient<K>],
) -> Vec<LayoutResult<K>> {
    let fan = fan_for(p, clients.len());
    cards::calculate_vstack(&plain(p), &windows(clients), &fan)
}

fn calculate_scrolling<K: Copy>(
    p: &ScrollingParams,
    columns: &[Vec<LayoutClient<K>>],
    focus: usize,
) -> (Vec<LayoutResult<K>>, f32) {
    let plain = strip::ScrollingParams {
        screen_area: p.screen_area,
        gap: p.gap,
    };
    if columns.is_empty() {
        return (strip::calculate_scrolling(&plain, &[], &[], &[], &[]), 0.0);
    }
    let screen = p.screen_area;
    let base = column_width(part(screen.w, p.column_width_ratio));
    let widths: Vec<i32> = (0..columns.len())
        .map(|i| {
            let factor = p.column_width_factors.get(i).copied().unwrap_or(1.0);
            part(base, single(width_factor(bits(factor))))
        })
        .collect();
    let positions = column_positions(&plain, &widths);
    let focus = focused_column(focus, columns.len());
    let center = positions[focus] as f32 + column_width(widths[focus]) as f32 / 2.0;
    let viewport = center - screen.w as f32 / 2.0;
    let xs: Vec<i32> = positions
        .iter()
        .map(|x| (*x as f32 - viewport + screen.x as f32).round() as i32)
        .collect();
    let shares: Vec<Vec<Option<i32>>> = columns
        .iter()
        .map(|column| {
            let height = shared_height(&plain, column.len());
            let mut left: f32 = column.iter().map(|c| c.factor.max(0.0)).sum();
            let mut used = 0;
            column
                .iter()
                .enumerate()
                .map(|(j, c)| {
                    let factor = c.factor.max(0.0);
                    let share = if left > 0.001 {
                        Some((height_left(height, used) as f32 * (factor / left)) as i32)
                    } else {
                        None
                    };
                    let h = height_of_window(height, used, j, column.len(), share);
                    used = height_taken(used, h);
                    left -= factor;
                    share
                })
                .collect()
        })
        .collect();
    let plain_columns: Vec<_> = columns.iter().map(|column| windows(column)).collect();
    (
        strip::calculate_scrolling(&plain, &plain_columns, &xs, &widths, &shares),
        viewport,
    )
}

// -----------------------------------------------------------------------
// LayoutEnum
// -----------------------------------------------------------------------

#[test]
fn test_layout_enum_symbol_tile() {
    assert_eq!(LayoutEnum::TILE.symbol(), "[]=");
}

#[test]
fn test_layout_enum_symbol_float() {
    assert_eq!(LayoutEnum::FLOAT.symbol(), "><>");
}

#[test]
fn test_layout_enum_symbol_monocle() {
    assert_eq!(LayoutEnum::MONOCLE.symbol(), "[M]");
}

#[test]
fn test_layout_enum_symbol_unknown() {
    assert_eq!(LayoutEnum::ANY.symbol(), "");
}




#[test]
fn test_layout_enum_is_tile() {
    assert!(LayoutEnum::TILE.is_tile());
    assert!(LayoutEnum::FIBONACCI.is_tile());
    assert!(LayoutEnum::GRID.is_tile());
    assert!(!LayoutEnum::FLOAT.is_tile());
    assert!(!LayoutEnum::MONOCLE.is_tile());
}

#[test]
fn test_layout_enum_is_float() {
    assert!(LayoutEnum::FLOAT.is_float());
    assert!(!LayoutEnum::TILE.is_float());
}

#[test]
fn test_layout_enum_is_monocle() {
    assert!(LayoutEnum::MONOCLE.is_monocle());
    assert!(LayoutEnum::FULLSCREEN.is_monocle());
    assert!(!LayoutEnum::TILE.is_monocle());
}

#[test]
fn test_layout_enum_is_fullscreen_layout() {
    assert!(LayoutEnum::FULLSCREEN.is_fullscreen_layout());
    assert!(!LayoutEnum::MONOCLE.is_fullscreen_layout());
}

#[test]
fn test_layout_enum_cycle_next_wraps() {
    // Float is the last in CYCLE; next should wrap to TILE
    let next = LayoutEnum::FLOAT.cycle_next();
    assert_eq!(next, LayoutEnum::TILE);
}

#[test]
fn test_layout_enum_cycle_prev_wraps() {
    // TILE is the first in CYCLE; prev should wrap to FLOAT
    let prev = LayoutEnum::TILE.cycle_prev();
    assert_eq!(prev, LayoutEnum::FLOAT);
}

#[test]
fn test_layout_enum_cycle_next_from_tile() {
    let next = LayoutEnum::TILE.cycle_next();
    assert_eq!(next, LayoutEnum::FIBONACCI);
}

#[test]
fn test_layout_enum_from_u32_known() {
    assert_eq!(LayoutEnum::from(0), LayoutEnum::TILE);
    assert_eq!(LayoutEnum::from(1), LayoutEnum::FLOAT);
    assert_eq!(LayoutEnum::from(2), LayoutEnum::MONOCLE);
    assert_eq!(LayoutEnum::from(6), LayoutEnum::GRID);
}

#[test]
fn test_layout_enum_from_u32_unknown() {
    assert_eq!(LayoutEnum::from(99), LayoutEnum::ANY);
}


// -----------------------------------------------------------------------
// calculate_tile
// -----------------------------------------------------------------------

#[test]
fn test_tile_empty_clients() {
    let p = params(1920, 1080);
    let result = calculate_tile::<u32>(&p, &[]);
    assert!(result.is_empty());
}

#[test]
fn test_tile_single_client_fills_screen() {
    let p = params(1920, 1080);
    let clients = [client(1, 1.0)];
    let result = calculate_tile(&p, &clients);
    assert_eq!(result.len(), 1);
    let r = result[0].rect;
    assert_eq!(r.x, 0);
    assert_eq!(r.y, 0);
    // width = screen_w - border2 (2*1=2)
    assert_eq!(r.w, 1920 - 2);
    assert_eq!(r.h, 1080 - 2);
}

#[test]
fn test_tile_master_and_stack() {
    let p = LayoutParams {
        screen_area: Rect::new(0, 0, 1920, 1080),
        n_master: 1,
        m_fact: 0.5,
        gap: 0,
    };
    let clients = [client(1, 1.0), client(2, 1.0)];
    let result = calculate_tile(&p, &clients);
    assert_eq!(result.len(), 2);
    let master = result[0].rect;
    let stack = result[1].rect;
    // master on the left, stack on the right
    assert!(master.x < stack.x, "master should be left of stack");
    // Both should have the same height (within rounding)
    assert!((master.h - stack.h).abs() <= 2);
}

#[test]
fn test_tile_keys_preserved() {
    let p = params(1920, 1080);
    let clients = [client(42, 1.0), client(99, 1.0)];
    let result = calculate_tile(&p, &clients);
    assert_eq!(result[0].key, 42);
    assert_eq!(result[1].key, 99);
}

#[test]
fn test_tile_no_overlap_between_master_and_stack() {
    let p = LayoutParams {
        screen_area: Rect::new(0, 0, 1920, 1080),
        n_master: 1,
        m_fact: 0.55,
        gap: 4,
    };
    let clients = [client(1, 1.0), client(2, 1.0)];
    let result = calculate_tile(&p, &clients);
    let master = result[0].rect;
    let stack = result[1].rect;
    // Right edge of master must not exceed left edge of stack
    let master_right = master.x + master.w + 2; // +border
    assert!(
        master_right <= stack.x,
        "master and stack should not overlap"
    );
}

#[test]
fn test_tile_portrait_uses_top_bottom_split() {
    let p = LayoutParams {
        screen_area: Rect::new(0, 0, 900, 1600),
        n_master: 1,
        m_fact: 0.5,
        gap: 10,
    };
    let clients = [client(1, 1.0), client(2, 1.0)];
    let result = calculate_tile(&p, &clients);

    assert_eq!(result.len(), 2);
    assert!(result[0].rect.y < result[1].rect.y);
    assert_eq!(result[0].rect.x, result[1].rect.x);
}

#[test]
fn test_tile_zero_master_stays_on_screen() {
    let p = LayoutParams {
        screen_area: Rect::new(0, 0, 1000, 700),
        n_master: 0,
        m_fact: 0.55,
        gap: 8,
    };
    let clients = [client(1, 1.0), client(2, 2.0)];
    let result = calculate_tile(&p, &clients);

    assert_eq!(result.len(), 2);
    for res in &result {
        assert!(res.rect.x >= 0);
        assert!(res.rect.x + res.rect.w <= 1000);
        assert!(res.rect.w > 0 && res.rect.h > 0);
    }
    assert!(result[1].rect.h > result[0].rect.h);
}

// -----------------------------------------------------------------------
// calculate_monocle
// -----------------------------------------------------------------------

#[test]
fn test_monocle_empty() {
    let p = params(1920, 1080);
    assert!(calculate_monocle::<u32>(&p, &[]).is_empty());
}

#[test]
fn test_monocle_all_clients_same_rect() {
    let p = params(1920, 1080);
    let clients = [client(1, 1.0), client(2, 1.0), client(3, 1.0)];
    let result = calculate_monocle(&p, &clients);
    assert_eq!(result.len(), 3);
    // All windows get the same rect in monocle
    let r0 = result[0].rect;
    for r in &result {
        assert_eq!(r.rect, r0);
    }
}

#[test]
fn test_monocle_fills_screen() {
    let p = params(1920, 1080);
    let clients = [client(7, 1.0)];
    let result = calculate_monocle(&p, &clients);
    let r = result[0].rect;
    assert_eq!(r.x, 0);
    assert_eq!(r.y, 0);
    assert_eq!(r.w, 1920 - 2); // border2
    assert_eq!(r.h, 1080 - 2);
}

// -----------------------------------------------------------------------
// calculate_fibonacci
// -----------------------------------------------------------------------

#[test]
fn test_fibonacci_empty() {
    let p = params(1920, 1080);
    assert!(calculate_fibonacci::<u32>(&p, &[]).is_empty());
}

#[test]
fn test_fibonacci_single_fills_screen() {
    let p = params(1920, 1080);
    let clients = [client(1, 1.0)];
    let result = calculate_fibonacci(&p, &clients);
    assert_eq!(result.len(), 1);
    let r = result[0].rect;
    assert_eq!(r.w, 1920 - 2);
    assert_eq!(r.h, 1080 - 2);
}

#[test]
fn test_fibonacci_multiple_produces_correct_count() {
    let p = params(1920, 1080);
    let clients: Vec<_> = (0..4).map(|i| client(i, 1.0)).collect();
    let result = calculate_fibonacci(&p, &clients);
    assert_eq!(result.len(), 4);
}

#[test]
fn test_fibonacci_keys_preserved() {
    let p = params(1920, 1080);
    let clients = [client(10, 1.0), client(20, 1.0)];
    let result = calculate_fibonacci(&p, &clients);
    assert_eq!(result[0].key, 10);
    assert_eq!(result[1].key, 20);
}

#[test]
fn test_fibonacci_master_uses_client_factors() {
    let p = LayoutParams {
        screen_area: Rect::new(0, 0, 1200, 900),
        n_master: 2,
        m_fact: 0.5,
        gap: 0,
    };
    let clients = [client(1, 2.0), client(2, 1.0), client(3, 1.0)];
    let result = calculate_fibonacci(&p, &clients);

    assert_eq!(result.len(), 3);
    assert!(result[0].rect.h > result[1].rect.h);
}

// -----------------------------------------------------------------------
// calculate_grid
// -----------------------------------------------------------------------

#[test]
fn test_grid_single_fills_screen() {
    let p = params(1920, 1080);
    let clients = [client(1, 1.0)];
    let result = calculate_grid(&p, &clients);
    assert_eq!(result.len(), 1);
}

#[test]
fn test_grid_four_clients_two_by_two() {
    let p = params(1920, 1080);
    let clients: Vec<_> = (0..4).map(|i| client(i, 1.0)).collect();
    let result = calculate_grid(&p, &clients);
    assert_eq!(result.len(), 4);
    // All rects should be non-zero
    for r in &result {
        assert!(r.rect.w > 0 && r.rect.h > 0);
    }
}

#[test]
fn test_grid_fills_work_area_flush() {
    // What the divisions leave over goes to the last cells.
    let p = LayoutParams {
        screen_area: Rect::new(0, 0, 1601, 999),
        n_master: 1,
        m_fact: 0.55,
        gap: 28,
    };
    for n in 1..=7 {
        let clients: Vec<_> = (0..n)
            .map(|key| LayoutClient {
                key,
                factor: 1.0,
                border_w: 0,
            })
            .collect();
        let result = calculate_grid(&p, &clients);
        let right = result.iter().map(|r| r.rect.x + r.rect.w).max().unwrap();
        let bottom = result.iter().map(|r| r.rect.y + r.rect.h).max().unwrap();
        assert_eq!(right, 1601 - 28, "n={} right edge should be flush", n);
        assert_eq!(bottom, 999 - 28, "n={} bottom edge should be flush", n);
    }
}

#[test]
fn test_tatami_groups_fill_work_area_flush() {
    let p = LayoutParams {
        screen_area: Rect::new(0, 0, 1601, 999),
        n_master: 1,
        m_fact: 0.55,
        gap: 28,
    };
    let clients: Vec<_> = (0..10)
        .map(|key| LayoutClient {
            key,
            factor: 1.0,
            border_w: 0,
        })
        .collect();
    let result = calculate_tatami(&p, &clients);
    let bottom = result.iter().map(|r| r.rect.y + r.rect.h).max().unwrap();
    assert_eq!(bottom, 999 - 28);
}

#[test]
fn test_bstack_dense_stack_wraps_to_second_row() {
    let p = LayoutParams {
        screen_area: Rect::new(0, 0, 1600, 1000),
        n_master: 1,
        m_fact: 0.55,
        gap: 10,
    };
    let clients: Vec<_> = (0..7).map(|i| client(i, 1.0)).collect();
    let result = calculate_bstack(&p, &clients);

    assert_eq!(result.len(), 7);
    let first_stack_y = result[1].rect.y;
    assert!(
        result.iter().skip(2).any(|res| res.rect.y > first_stack_y),
        "dense bottom stack should wrap instead of staying in one row"
    );
}

#[test]
fn test_bstack_master_uses_client_factors() {
    let p = LayoutParams {
        screen_area: Rect::new(0, 0, 1600, 900),
        n_master: 2,
        m_fact: 0.55,
        gap: 0,
    };
    let clients = [client(1, 2.0), client(2, 1.0), client(3, 1.0)];
    let result = calculate_bstack(&p, &clients);

    assert_eq!(result.len(), 3);
    assert!(result[0].rect.w > result[1].rect.w);
}

#[test]
fn test_bstack_stack_uses_client_factors() {
    let p = LayoutParams {
        screen_area: Rect::new(0, 0, 1600, 900),
        n_master: 1,
        m_fact: 0.55,
        gap: 0,
    };
    let clients = [client(1, 1.0), client(2, 2.0), client(3, 1.0)];
    let result = calculate_bstack(&p, &clients);

    assert_eq!(result.len(), 3);
    assert!(result[1].rect.w > result[2].rect.w);
}

#[test]
fn test_bstack_zero_master_falls_back_to_grid() {
    let p = LayoutParams {
        screen_area: Rect::new(0, 0, 900, 700),
        n_master: 0,
        m_fact: 0.55,
        gap: 8,
    };
    let clients: Vec<_> = (0..3).map(|i| client(i, 1.0)).collect();
    let bstack = calculate_bstack(&p, &clients);
    let grid = calculate_grid(&p, &clients);

    assert_eq!(bstack.len(), grid.len());
    assert_eq!(bstack[0].rect, grid[0].rect);
}

#[test]
fn test_centered_master_portrait_uses_top_bottom_split() {
    let p = LayoutParams {
        screen_area: Rect::new(0, 0, 900, 1600),
        n_master: 1,
        m_fact: 0.55,
        gap: 10,
    };
    let clients: Vec<_> = (0..4).map(|i| client(i, 1.0)).collect();
    let result = calculate_centered_master(&p, &clients);

    assert_eq!(result.len(), 4);
    assert!(result[0].rect.y < result[1].rect.y);
    assert_eq!(result[0].rect.x, result[1].rect.x);
}

#[test]
fn test_centered_master_uses_column_factors() {
    let p = LayoutParams {
        screen_area: Rect::new(0, 0, 1600, 900),
        n_master: 2,
        m_fact: 0.5,
        gap: 0,
    };
    let clients = [
        client(1, 2.0),
        client(2, 1.0),
        client(3, 3.0),
        client(4, 1.0),
        client(5, 1.0),
    ];
    let result = calculate_centered_master(&p, &clients);

    assert_eq!(result.len(), 5);
    let by_key = |key| result.iter().find(|res| res.key == key).unwrap().rect;
    assert!(by_key(1).h > by_key(2).h);
    assert!(by_key(3).h > by_key(5).h);
}

#[test]
fn test_centered_master_zero_master_falls_back_to_grid() {
    let p = LayoutParams {
        screen_area: Rect::new(0, 0, 1200, 800),
        n_master: 0,
        m_fact: 0.55,
        gap: 8,
    };
    let clients: Vec<_> = (0..4).map(|i| client(i, 1.0)).collect();
    let centered = calculate_centered_master(&p, &clients);
    let grid = calculate_grid(&p, &clients);

    assert_eq!(centered.len(), grid.len());
    assert_eq!(centered[0].rect, grid[0].rect);
}

#[test]
fn test_deck_offsets_stack_previews() {
    let p = params(1200, 800);
    let clients: Vec<_> = (0..4).map(|i| client(i, 1.0)).collect();
    let result = calculate_deck(&p, &clients);

    assert_eq!(result.len(), 4);
    assert!(result[2].rect.x > result[1].rect.x);
    assert!(result[2].rect.y > result[1].rect.y);
}

#[test]
fn test_deck_master_uses_client_factors() {
    let p = LayoutParams {
        screen_area: Rect::new(0, 0, 1200, 800),
        n_master: 2,
        m_fact: 0.55,
        gap: 0,
    };
    let clients = [client(1, 2.0), client(2, 1.0), client(3, 1.0)];
    let result = calculate_deck(&p, &clients);

    assert_eq!(result.len(), 3);
    assert!(result[0].rect.h > result[1].rect.h);
}

#[test]
fn test_deck_portrait_uses_top_master_bottom_deck() {
    let p = LayoutParams {
        screen_area: Rect::new(0, 0, 900, 1600),
        n_master: 1,
        m_fact: 0.5,
        gap: 10,
    };
    let clients: Vec<_> = (0..3).map(|i| client(i, 1.0)).collect();
    let result = calculate_deck(&p, &clients);

    assert_eq!(result.len(), 3);
    assert!(result[0].rect.y < result[1].rect.y);
    assert!(result[2].rect.x > result[1].rect.x);
}

#[test]
fn test_deck_zero_master_stays_on_screen() {
    let p = LayoutParams {
        screen_area: Rect::new(0, 0, 900, 700),
        n_master: 0,
        m_fact: 0.55,
        gap: 8,
    };
    let clients: Vec<_> = (0..3).map(|i| client(i, 1.0)).collect();
    let result = calculate_deck(&p, &clients);

    assert_eq!(result.len(), 3);
    for res in result {
        assert!(res.rect.x >= 0);
        assert!(res.rect.y >= 0);
        assert!(res.rect.x + res.rect.w <= 900);
        assert!(res.rect.y + res.rect.h <= 700);
    }
}

#[test]
fn test_three_col_portrait_uses_top_bottom_split() {
    let p = LayoutParams {
        screen_area: Rect::new(0, 0, 900, 1600),
        n_master: 1,
        m_fact: 0.55,
        gap: 10,
    };
    let clients: Vec<_> = (0..4).map(|i| client(i, 1.0)).collect();
    let result = calculate_three_col(&p, &clients);

    assert_eq!(result.len(), 4);
    assert!(result[0].rect.y < result[1].rect.y);
    assert_eq!(result[0].rect.x, result[1].rect.x);
}

#[test]
fn test_three_col_uses_column_factors() {
    let p = LayoutParams {
        screen_area: Rect::new(0, 0, 1600, 900),
        n_master: 2,
        m_fact: 0.5,
        gap: 0,
    };
    let clients = [
        client(1, 2.0),
        client(2, 1.0),
        client(3, 3.0),
        client(4, 1.0),
        client(5, 1.0),
    ];
    let result = calculate_three_col(&p, &clients);

    assert_eq!(result.len(), 5);
    let by_key = |key| result.iter().find(|res| res.key == key).unwrap().rect;
    assert!(by_key(1).h > by_key(2).h);
    assert!(by_key(3).h > by_key(5).h);
}

#[test]
fn test_three_col_zero_master_falls_back_to_grid() {
    let p = LayoutParams {
        screen_area: Rect::new(0, 0, 1200, 800),
        n_master: 0,
        m_fact: 0.55,
        gap: 8,
    };
    let clients: Vec<_> = (0..4).map(|i| client(i, 1.0)).collect();
    let three_col = calculate_three_col(&p, &clients);
    let grid = calculate_grid(&p, &clients);

    assert_eq!(three_col.len(), grid.len());
    assert_eq!(three_col[0].rect, grid[0].rect);
}

#[test]
fn test_tatami_dense_falls_back_to_adaptive_grid() {
    let p = params(1600, 900);
    let clients: Vec<_> = (0..12).map(|i| client(i, 1.0)).collect();
    let tatami = calculate_tatami(&p, &clients);
    let grid = calculate_grid(&p, &clients);

    assert_eq!(tatami.len(), grid.len());
    assert_eq!(tatami[0].rect, grid[0].rect);
}

#[test]
fn test_layouts_keep_positive_rects_with_huge_gap() {
    let p = LayoutParams {
        screen_area: Rect::new(0, 0, 120, 90),
        n_master: 1,
        m_fact: 0.55,
        gap: 80,
    };
    let clients: Vec<_> = (0..4).map(|i| client(i, 1.0)).collect();
    let layouts = [
        calculate_tile(&p, &clients),
        calculate_monocle(&p, &clients),
        calculate_fibonacci(&p, &clients),
        calculate_centered_master(&p, &clients),
        calculate_bstack(&p, &clients),
        calculate_grid(&p, &clients),
        calculate_deck(&p, &clients),
        calculate_three_col(&p, &clients),
        calculate_tatami(&p, &clients),
        calculate_vstack(&p, &clients),
    ];

    for layout in layouts {
        assert_eq!(layout.len(), clients.len());
        for res in layout {
            assert!(res.rect.w > 0 && res.rect.h > 0);
        }
    }
}

#[test]
fn extreme_client_borders_collapse_safely_to_one_pixel() {
    let p = params(1920, 1080);
    let clients = [LayoutClient {
        key: 1,
        factor: 1.0,
        border_w: i32::MAX,
    }];

    let result = calculate_monocle(&p, &clients);

    assert_eq!(result[0].rect, Rect::new(0, 0, 1, 1));
}

// -----------------------------------------------------------------------
// calculate_vstack
// -----------------------------------------------------------------------

#[test]
fn test_vstack_single_fills_screen() {
    let p = params(1920, 1080);
    let clients = [client(1, 1.0)];
    let result = calculate_vstack(&p, &clients);
    assert_eq!(result.len(), 1);
    let r = result[0].rect;
    assert!(r.w > 0 && r.h > 0);
}

#[test]
fn test_vstack_two_stacks_vertically() {
    let p = LayoutParams {
        screen_area: Rect::new(0, 0, 1920, 1080),
        n_master: 1,
        m_fact: 0.5,
        gap: 0,
    };
    let clients = [client(1, 1.0), client(2, 1.0)];
    let result = calculate_vstack(&p, &clients);
    assert_eq!(result.len(), 2);
}

#[test]
fn test_vstack_many_windows_shrink() {
    let p = params(1920, 1080);
    let few_clients: Vec<_> = (0..5).map(|i| client(i, 1.0)).collect();
    let many_clients: Vec<_> = (0..10).map(|i| client(i, 1.0)).collect();

    let few = calculate_vstack(&p, &few_clients);
    let many = calculate_vstack(&p, &many_clients);

    assert!(many[0].rect.w < few[0].rect.w);
    assert!(many[0].rect.h < few[0].rect.h);
}

// -----------------------------------------------------------------------
// calculate_scrolling
// -----------------------------------------------------------------------

#[test]
fn test_scrolling_column_uses_client_factors() {
    let p = ScrollingParams {
        screen_area: Rect::new(0, 0, 1000, 600),
        column_width_ratio: 0.5,
        column_width_factors: Vec::new(),
        gap: 0,
        viewport_x: 0.0,
    };
    let columns = vec![vec![client(1, 2.0), client(2, 1.0)]];

    let (result, _) = calculate_scrolling(&p, &columns, 0);

    assert_eq!(result.len(), 2);
    assert!(
        result[0].rect.h > result[1].rect.h,
        "larger factor should receive more column height"
    );
    assert!((result[0].rect.h - 398).abs() <= 2);
    assert!((result[1].rect.h - 198).abs() <= 2);
}

#[test]
fn test_scrolling_centers_focused_column() {
    let p = ScrollingParams {
        screen_area: Rect::new(0, 0, 1000, 600),
        column_width_ratio: 0.5,
        column_width_factors: Vec::new(),
        gap: 10,
        viewport_x: 0.0,
    };
    let columns = vec![vec![client(1, 1.0)], vec![client(2, 1.0)]];

    let (result, viewport_x) = calculate_scrolling(&p, &columns, 1);

    assert!((viewport_x - 260.0).abs() < 1e-6);
    let focused = result.iter().find(|res| res.key == 2).unwrap().rect;
    assert_eq!(focused.x, 250);
}

#[test]
fn test_scrolling_supports_per_column_widths() {
    let p = ScrollingParams {
        screen_area: Rect::new(0, 0, 1000, 600),
        column_width_ratio: 0.4,
        column_width_factors: vec![1.0, 1.5, 0.5],
        gap: 10,
        viewport_x: 0.0,
    };
    let columns = vec![
        vec![client(1, 1.0)],
        vec![client(2, 1.0)],
        vec![client(3, 1.0)],
    ];

    let (result, _) = calculate_scrolling(&p, &columns, 0);

    let first = result.iter().find(|res| res.key == 1).unwrap().rect;
    let second = result.iter().find(|res| res.key == 2).unwrap().rect;
    let third = result.iter().find(|res| res.key == 3).unwrap().rect;
    assert_eq!(first.w, 398);
    assert_eq!(second.w, 598);
    assert_eq!(third.w, 198);
    assert_eq!(second.x - first.x, 410);
    assert_eq!(third.x - second.x, 610);
}

#[test]
fn test_scrolling_centers_variable_width_focused_column() {
    let p = ScrollingParams {
        screen_area: Rect::new(0, 0, 1000, 600),
        column_width_ratio: 0.4,
        column_width_factors: vec![1.0, 1.5],
        gap: 10,
        viewport_x: 0.0,
    };
    let columns = vec![vec![client(1, 1.0)], vec![client(2, 1.0)]];

    let (result, viewport_x) = calculate_scrolling(&p, &columns, 1);

    assert!((viewport_x - 210.0).abs() < 1e-6);
    let focused = result.iter().find(|res| res.key == 2).unwrap().rect;
    assert_eq!(focused.x, 200);
}

#[test]
fn canonical_layouts_tolerate_extreme_gaps() {
    let clients: Vec<_> = (0..10).map(|key| client(key, 1.0)).collect();

    for gap in [i32::MAX, i32::MIN] {
        let params = LayoutParams {
            screen_area: Rect::new(100, 200, 320, 240),
            n_master: 1,
            m_fact: 0.55,
            gap,
        };

        for layout in LayoutEnum::all() {
            let results = match layout.name() {
                "tile" => calculate_tile(&params, &clients),
                "float" => continue,
                "monocle" => calculate_monocle(&params, &clients),
                "fibonacci" => calculate_fibonacci(&params, &clients),
                "centeredmaster" => calculate_centered_master(&params, &clients),
                "bstack" => calculate_bstack(&params, &clients),
                "grid" => calculate_grid(&params, &clients),
                "deck" => calculate_deck(&params, &clients),
                "threecol" => calculate_three_col(&params, &clients),
                "tatami" => calculate_tatami(&params, &clients),
                "fullscreen" => calculate_fullscreen(&params, &clients),
                "scrolling" => continue,
                "vstack" => calculate_vstack(&params, &clients),
                unknown => panic!("missing extreme-gap coverage for {unknown}"),
            };

            assert_eq!(results.len(), clients.len(), "{} with gap {gap}", layout.name());
            assert!(
                results
                    .iter()
                    .all(|result| result.rect.w > 0 && result.rect.h > 0),
                "{} produced a non-positive rectangle with gap {gap}",
                layout.name()
            );
        }
    }
}

#[test]
fn scrolling_tolerates_extreme_gaps() {
    let columns = vec![
        vec![client(1, 1.0), client(2, 1.0)],
        vec![client(3, 1.0), client(4, 1.0)],
        vec![client(5, 1.0), client(6, 1.0)],
    ];

    for gap in [i32::MAX, i32::MIN] {
        let params = ScrollingParams {
            screen_area: Rect::new(100, 200, 320, 240),
            column_width_ratio: 0.5,
            column_width_factors: vec![1.0, 1.5, 0.5],
            gap,
            viewport_x: 0.0,
        };

        let (results, viewport_x) = calculate_scrolling(&params, &columns, 1);
        assert_eq!(results.len(), 6, "gap {gap}");
        assert!(viewport_x.is_finite(), "gap {gap}");
        assert!(
            results
                .iter()
                .all(|result| result.rect.w > 0 && result.rect.h > 0),
            "gap {gap} produced a non-positive rectangle"
        );
    }
}

#[test]
fn scrolling_saturates_extreme_origins_offsets_and_borders() {
    let extreme_client = LayoutClient {
        key: 1,
        factor: 1.0,
        border_w: i32::MAX,
    };
    let columns = vec![vec![extreme_client; 4], vec![extreme_client; 4]];
    let params = ScrollingParams {
        screen_area: Rect::new(i32::MAX - 4, i32::MAX - 4, i32::MAX, i32::MAX),
        column_width_ratio: 1.0,
        column_width_factors: Vec::new(),
        gap: i32::MAX,
        viewport_x: 0.0,
    };

    let (results, viewport_x) = calculate_scrolling(&params, &columns, 1);

    assert_eq!(results.len(), 8);
    assert!(viewport_x.is_finite());
    assert!(results.iter().all(|result| {
        result.rect.y == i32::MAX && result.rect.w == 1 && result.rect.h == 1
    }));
}

// -----------------------------------------------------------------------
// Catalog
// -----------------------------------------------------------------------

#[test]
fn the_cycle_is_the_shared_protocol_catalog() {
    let names: Vec<&str> = LayoutEnum::all().iter().map(|layout| layout.name()).collect();
    assert_eq!(
        names,
        [
            "tile",
            "fibonacci",
            "centeredmaster",
            "bstack",
            "grid",
            "deck",
            "threecol",
            "tatami",
            "monocle",
            "fullscreen",
            "scrolling",
            "vstack",
            "float",
        ]
    );
}

#[test]
fn every_protocol_id_round_trips_through_the_layout_it_names() {
    for row in LayoutEnum::all() {
        let id = row.protocol_id().unwrap();
        let layout = LayoutEnum::from(id);
        assert_eq!(layout, row);
        assert_eq!(layout.protocol_id(), Some(id));
        assert_eq!(layout.symbol(), row.symbol());
        assert_eq!(layout.label(), row.label());
        assert_eq!(LayoutEnum::from_name(row.name()), Some(layout));
    }
}

#[test]
fn an_unknown_protocol_id_resolves_to_no_layout_at_all() {
    assert_eq!(LayoutEnum::from(u32::MAX), LayoutEnum::ANY);
    assert_eq!(
        LayoutEnum::from(LayoutEnum::all().len() as u32 + 1),
        LayoutEnum::ANY
    );
    assert_eq!(LayoutEnum::ANY.protocol_id(), None);
}

#[test]
fn cycle_steps_undo_each_other() {
    for layout in LayoutEnum::all() {
        assert_eq!(layout.cycle_next().cycle_prev(), layout);
        assert_eq!(LayoutEnum::all()[layout.cycle_index()], layout);
    }
    assert_eq!(LayoutEnum::from_name("  TiLe "), Some(LayoutEnum::TILE));
    assert_eq!(LayoutEnum::from_name("tiles"), None);
}

// -----------------------------------------------------------------------
// Exact placement
// -----------------------------------------------------------------------

#[test]
fn an_even_column_is_filled_to_the_last_pixel() {
    let plain = jwm::layout::LayoutParams {
        screen_area: Rect::new(0, 0, 100, 101),
        n_master: 0,
        gap: 3,
    };
    let clients: Vec<_> = (0..3)
        .map(|key| jwm::layout::LayoutClient { key, border_w: 0 })
        .collect();
    let rects: Vec<Rect> = columns::calculate_tile(&plain, &clients, 0, &[])
        .iter()
        .map(|r| r.rect)
        .collect();
    assert_eq!(
        rects,
        [
            Rect::new(3, 3, 94, 29),
            Rect::new(3, 35, 94, 30),
            Rect::new(3, 68, 94, 30),
        ]
    );
}

#[test]
fn a_spiral_halves_what_is_left() {
    let plain = jwm::layout::LayoutParams {
        screen_area: Rect::new(0, 0, 1000, 600),
        n_master: 1,
        gap: 10,
    };
    let clients: Vec<_> = (0..4)
        .map(|key| jwm::layout::LayoutClient { key, border_w: 2 })
        .collect();
    let rects: Vec<Rect> = columns::calculate_fibonacci(&plain, &clients, 500, &[])
        .iter()
        .map(|r| r.rect)
        .collect();
    assert_eq!(
        rects,
        [
            Rect::new(10, 10, 496, 576),
            Rect::new(520, 10, 466, 281),
            Rect::new(520, 305, 226, 281),
            Rect::new(760, 305, 226, 281),
        ]
    );
}

#[test]
fn grid_cells_stand_apart_and_end_flush() {
    let plain = jwm::layout::LayoutParams {
        screen_area: Rect::new(0, 0, 101, 103),
        n_master: 1,
        gap: 5,
    };
    let clients: Vec<_> = (0..5)
        .map(|key| jwm::layout::LayoutClient { key, border_w: 0 })
        .collect();
    let rects: Vec<Rect> = grid::calculate_grid(&plain, &clients, 3)
        .iter()
        .map(|r| r.rect)
        .collect();
    assert_eq!(
        rects,
        [
            Rect::new(5, 5, 27, 44),
            Rect::new(37, 5, 27, 44),
            Rect::new(69, 5, 27, 44),
            Rect::new(5, 54, 43, 44),
            Rect::new(53, 54, 43, 44),
        ]
    );
}

#[test]
fn six_mats_end_in_the_corner() {
    let plain = jwm::layout::LayoutParams {
        screen_area: Rect::new(0, 0, 100, 100),
        n_master: 1,
        gap: 0,
    };
    let clients: Vec<_> = (0..6)
        .map(|key| jwm::layout::LayoutClient { key, border_w: 0 })
        .collect();
    let rects: Vec<Rect> = grid::calculate_tatami(&plain, &clients, 1)
        .iter()
        .map(|r| r.rect)
        .collect();
    assert_eq!(
        rects,
        [
            Rect::new(0, 0, 33, 25),
            Rect::new(33, 0, 33, 25),
            Rect::new(66, 0, 34, 25),
            Rect::new(0, 25, 50, 25),
            Rect::new(50, 25, 50, 25),
            Rect::new(0, 50, 100, 50),
        ]
    );
}

#[test]
fn two_and_four_mats_leave_the_remainder_open() {
    let plain = jwm::layout::LayoutParams {
        screen_area: Rect::new(0, 0, 101, 101),
        n_master: 1,
        gap: 0,
    };
    let clients: Vec<_> = (0..4)
        .map(|key| jwm::layout::LayoutClient { key, border_w: 0 })
        .collect();
    let two = grid::calculate_tatami(&plain, &clients[..2], 1);
    assert_eq!(two[1].rect, Rect::new(50, 0, 50, 101));
    let four = grid::calculate_tatami(&plain, &clients, 1);
    assert_eq!(four[3].rect, Rect::new(50, 50, 50, 50));
    let three = grid::calculate_tatami(&plain, &clients[..3], 1);
    assert_eq!(three[2].rect, Rect::new(50, 50, 51, 51));
}

#[test]
fn the_best_score_chooses_the_grid() {
    let score = |x: f32| F32 { bits: x.to_bits() };
    let scores = [score(2.0), score(0.5), score(0.5), score(f32::NAN)];
    assert_eq!(choose_grid_dimensions(4, &scores), (2, 2));
    assert_eq!(choose_grid_dimensions(1, &scores[..1]), (1, 1));
    let none = [score(f32::NAN); 3];
    assert_eq!(choose_grid_dimensions(3, &none), (3, 1));
}

#[test]
fn three_columns_hold_every_window_once() {
    let p = LayoutParams {
        screen_area: Rect::new(0, 0, 1600, 900),
        n_master: 2,
        m_fact: 0.5,
        gap: 8,
    };
    let clients: Vec<_> = (0..7).map(|i| client(i, 1.0)).collect();
    let mut keys: Vec<u32> = calculate_three_col(&p, &clients)
        .iter()
        .map(|r| r.key)
        .collect();
    assert_eq!(keys, [0, 1, 2, 4, 6, 3, 5]);
    keys.sort();
    assert_eq!(keys, [0, 1, 2, 3, 4, 5, 6]);
}

// -----------------------------------------------------------------------
// Thumbnails
// -----------------------------------------------------------------------

fn measures(layout: &LayoutEnum, count: usize) -> PreviewMeasures {
    let p = LayoutParams {
        screen_area: Rect::new(0, 0, 1600, 1000),
        n_master: 1,
        m_fact: 0.55,
        gap: 28,
    };
    let plain = plain(&p);
    let clients: Vec<_> = (0..count)
        .map(|key| LayoutClient {
            key,
            factor: 1.0,
            border_w: 0,
        })
        .collect();
    let split = match layout {
        LayoutEnum::BSTACK => part(extent_down(&plain), 0.55),
        LayoutEnum::THREE_COL => (extent_of_three(&plain) as f32 * 0.55).max(1.0) as i32,
        LayoutEnum::CENTERED_MASTER => {
            let n_stack = count as i32 - 1;
            let bias = if n_stack <= 2 {
                1.0
            } else {
                (2.0 / n_stack as f32).max(0.7)
            };
            (extent_of_three(&plain) as f32 * 0.55 * bias).max(1.0) as i32
        }
        _ => part(extent_across(&plain), 0.55),
    };
    let gap = bounded_gap(p.screen_area, p.gap);
    let shares = match layout {
        LayoutEnum::TILE => shares(&tile_lines(&plain, count, split), gap, &clients),
        LayoutEnum::FIBONACCI => shares(&[fibonacci_line(&plain, count, split)], gap, &clients),
        LayoutEnum::DECK => shares(&[deck_line(&plain, count, split)], gap, &clients),
        LayoutEnum::BSTACK => shares(&bstack_lines(&plain, count, split), gap, &clients),
        LayoutEnum::CENTERED_MASTER | LayoutEnum::THREE_COL => {
            shares(&centered_lines(&plain, count, split), gap, &clients)
        }
        _ => Vec::new(),
    };
    let strip = strip::ScrollingParams {
        screen_area: p.screen_area,
        gap: p.gap,
    };
    let widths = vec![part(1600, 0.45); count];
    let positions = column_positions(&strip, &widths);
    let focus = count / 2;
    let viewport = positions[focus] as f32 + widths[focus] as f32 / 2.0 - 800.0;
    PreviewMeasures {
        split,
        shares,
        cols: columns_for(&p, count),
        fan: fan_for(&p, count),
        strip_xs: positions
            .iter()
            .map(|x| (*x as f32 - viewport).round() as i32)
            .collect(),
        strip_widths: widths,
        strip_shares: (0..count).map(|_| Vec::new()).collect(),
    }
}

#[test]
fn every_thumbnail_shows_frames_on_the_monitor() {
    for layout in LayoutEnum::all() {
        let count = preview_window_count(&layout);
        let frames = preview_frames(&layout, count, &measures(&layout, count));
        assert!(!frames.is_empty(), "{}", layout.name());
        for r in frames {
            assert!(r.x >= 0 && r.y >= 0 && r.w >= 40 && r.h >= 25);
            assert!(r.x + r.w <= 1600 && r.y + r.h <= 1000);
        }
    }
    assert_eq!(preview_window_count(&LayoutEnum::TATAMI), 6);
    assert_eq!(preview_window_count(&LayoutEnum::TILE), 4);
}

#[test]
fn thumbnails_draw_stacked_windows_once() {
    let one = preview_frames(
        &LayoutEnum::MONOCLE,
        4,
        &measures(&LayoutEnum::MONOCLE, 4),
    );
    assert_eq!(one, [Rect::new(0, 0, 1600, 1000)]);
    let float = preview_frames(&LayoutEnum::FLOAT, 2, &measures(&LayoutEnum::FLOAT, 2));
    assert_eq!(
        float,
        [Rect::new(28, 28, 800, 555), Rect::new(153, 153, 800, 555)]
    );
}

#[test]
fn slivers_are_not_drawn() {
    let mut results = cascade(2);
    results[0].rect = Rect::new(1561, 0, 400, 400);
    results[1].rect = Rect::new(-100, -100, 300, 200);
    assert_eq!(visible_frames(&results), [Rect::new(0, 0, 200, 100)]);
}

#[test]
fn weighted_columns_are_filled_to_the_last_pixel() {
    let p = LayoutParams {
        screen_area: Rect::new(0, 0, 400, 403),
        n_master: 0,
        m_fact: 0.5,
        gap: 10,
    };
    let clients = [client(0, 2.0), client(1, 1.0), client(2, 1.0)];
    let rects: Vec<Rect> = calculate_tile(&p, &clients).iter().map(|r| r.rect).collect();
    let outer: i32 = rects.iter().map(|r| r.h + 2).sum();
    assert_eq!(outer + 2 * 10, 403 - 2 * 10);
    assert_eq!(rects[1].y, rects[0].y + rects[0].h + 2 + 10);
    assert_eq!(rects[2].y + rects[2].h + 2, 403 - 10);
}

#[test]
fn fanned_windows_stay_in_the_usable_area() {
    let p = LayoutParams {
        screen_area: Rect::new(0, 0, 1920, 1080),
        n_master: 1,
        m_fact: 0.5,
        gap: 8,
    };
    let area = usable_area(p.screen_area, p.gap);
    assert_eq!(area, Rect::new(8, 8, 1904, 1064));
    for n in 1..40 {
        let clients: Vec<_> = (0..n).map(|i| client(i, 1.0)).collect();
        for r in calculate_vstack(&p, &clients) {
            let r = r.rect;
            assert!(r.x >= area.x && r.x + r.w + 2 <= area.x + area.w, "{n}: {r:?}");
            assert!(r.y >= area.y && r.y + r.h + 2 <= area.y + area.h, "{n}: {r:?}");
        }
    }
}

#[test]
fn a_gap_wider_than_the_screen_leaves_a_pixel() {
    assert_eq!(
        usable_area(Rect::new(5, 6, 100, 41), i32::MAX),
        Rect::new(25, 26, 60, 1)
    );
    assert_eq!(
        usable_area(Rect::new(0, 0, 40, 40), 500),
        Rect::new(20, 20, 1, 1)
    );
    assert_eq!(bounded_gap(Rect::new(0, 0, 40, 40), -3), 0);
}

#[test]
fn fractions_are_kept_in_bounds() {
    assert_eq!(single(master_fraction(bits(0.0))), 0.05);
    assert_eq!(single(master_fraction(bits(0.05))), 0.05);
    assert_eq!(single(master_fraction(bits(0.55))), 0.55);
    assert_eq!(single(master_fraction(bits(3.0))), 0.95);
    assert_eq!(single(middle_fraction(bits(-1.0))), 0.25);
    assert_eq!(single(middle_fraction(bits(0.5))), 0.5);
    assert_eq!(single(middle_fraction(bits(f32::INFINITY))), 0.75);
    assert_eq!(single(width_factor(bits(-0.0))), 0.25);
    assert_eq!(single(width_factor(bits(1.5))), 1.5);
    assert_eq!(single(width_factor(bits(9.0))), 2.5);
    assert!(single(width_factor(bits(f32::NAN))).is_nan());
}
