//! Windows, monitors, tags and the scrolling strip.
use jwm::ieee::F32;
use jwm::maximize::MaximizeAxes;
use jwm::models::client::{ClientGeometry, ClientState, WMClient};
use jwm::models::monitor::WMMonitor;
use jwm::models::scrolling::ScrollingState;
use jwm::models::tags::Pertag;

const NONE: MaximizeAxes = MaximizeAxes {
    vert: false,
    horz: false,
};
const VERT: MaximizeAxes = MaximizeAxes {
    vert: true,
    horz: false,
};
const HORZ: MaximizeAxes = MaximizeAxes {
    vert: false,
    horz: true,
};
const BOTH: MaximizeAxes = MaximizeAxes {
    vert: true,
    horz: true,
};

fn single(x: f32) -> F32 {
    F32 { bits: x.to_bits() }
}

struct ScrollingOverviewGeometry {
    client: u64,
    column_index: usize,
    x_ratio: f32,
    width_ratio: f32,
    y_ratio: f32,
    height_ratio: f32,
    focused_column: bool,
}

fn overview_strip_geometry(s: &ScrollingState, visible: &[u64]) -> Vec<ScrollingOverviewGeometry> {
    let mut weights: Vec<f32> = (0..s.columns.len())
        .map(|i| {
            let factor = s.column_width_factors.get(i).copied().unwrap_or(single(1.0));
            f32::from_bits(factor.bits).max(0.1)
        })
        .collect();
    let strays = s.stray_count(visible);
    weights.extend(vec![1.0; strays]);
    let total: f32 = weights.iter().sum();
    s.overview_slots(visible)
        .iter()
        .map(|slot| ScrollingOverviewGeometry {
            client: slot.client,
            column_index: slot.column_index,
            x_ratio: weights[..slot.column_index].iter().sum::<f32>() / total,
            width_ratio: weights[slot.column_index] / total,
            y_ratio: slot.row as f32 / slot.rows as f32,
            height_ratio: 1.0 / slot.rows as f32,
            focused_column: slot.focused_column,
        })
        .collect()
}

// -----------------------------------------------------------------------
// WMClient
// -----------------------------------------------------------------------

#[test]
fn test_wm_client_new_defaults() {
    let c = WMClient::new(1);
    assert_eq!(c.name, "");
    assert_eq!(c.class, "");
    assert_eq!(c.win, 1);
    assert!(c.mon.is_none());
    assert_eq!(c.monitor_num, 1000);
}

#[test]
fn test_wm_client_total_width() {
    let mut c = WMClient::new(1);
    c.geometry.w = 800;
    c.geometry.border_w = 2;
    assert_eq!(c.total_width(), 804); // 800 + 2*2
}

#[test]
fn total_dimensions_saturate_instead_of_overflowing_a_huge_border() {
    let mut c = WMClient::new(1);
    c.geometry.w = 800;
    c.geometry.h = 600;
    c.geometry.border_w = i32::MAX;
    assert_eq!(c.total_width(), i32::MAX);
    assert_eq!(c.total_height(), i32::MAX);
}

#[test]
fn test_wm_client_total_height() {
    let mut c = WMClient::new(1);
    c.geometry.h = 600;
    c.geometry.border_w = 3;
    assert_eq!(c.total_height(), 606); // 600 + 2*3
}

#[test]
fn test_wm_client_total_dimensions_zero_border() {
    let mut c = WMClient::new(1);
    c.geometry.w = 1920;
    c.geometry.h = 1080;
    c.geometry.border_w = 0;
    assert_eq!(c.total_width(), 1920);
    assert_eq!(c.total_height(), 1080);
}

#[test]
fn test_wm_client_is_status_bar_by_name() {
    let mut c = WMClient::new(1);
    c.name = "mybar".to_string();
    assert!(c.is_status_bar("mybar"));
    assert!(!c.is_status_bar("other"));
}

#[test]
fn test_wm_client_is_status_bar_by_class() {
    let mut c = WMClient::new(1);
    c.class = "xbar".to_string();
    assert!(c.is_status_bar("xbar"));
}

#[test]
fn test_wm_client_is_status_bar_by_instance() {
    let mut c = WMClient::new(1);
    c.instance = "polybar".to_string();
    assert!(c.is_status_bar("polybar"));
}

#[test]
fn test_wm_client_is_not_status_bar() {
    let c = WMClient::new(1);
    assert!(!c.is_status_bar("xbar"));
}

#[test]
fn test_wm_client_rect() {
    let mut c = WMClient::new(1);
    c.geometry.x = 10;
    c.geometry.y = 20;
    c.geometry.w = 800;
    c.geometry.h = 600;
    assert_eq!(c.rect(), (10, 20, 800, 600));
}

#[test]
fn test_client_geometry_display() {
    let g = ClientGeometry {
        w: 1280,
        h: 720,
        x: 100,
        y: 50,
        ..Default::default()
    };
    let s = g.to_string();
    assert!(s.contains("1280"), "expected width in display: {s}");
    assert!(s.contains("720"), "expected height in display: {s}");
    assert!(s.contains("100"), "expected x in display: {s}");
    assert!(s.contains("50"), "expected y in display: {s}");
}

// -----------------------------------------------------------------------
// WMMonitor
// -----------------------------------------------------------------------

#[test]
fn test_wm_monitor_new_defaults() {
    let m = WMMonitor::new();
    assert_eq!(m.num, 0);
    assert!(m.sel.is_none());
    assert_eq!(m.sel_tags, 0);
    assert_eq!(m.tag_set, [0u32; 2]);
}

#[test]
fn test_wm_monitor_get_active_tags_default() {
    let m = WMMonitor::new();
    // tag_set starts at [0, 0], sel_tags=0 → active tags = 0
    assert_eq!(m.get_active_tags(), 0);
}

#[test]
fn test_wm_monitor_get_active_tags_safe_index() {
    let mut m = WMMonitor::new();
    m.tag_set[0] = 0b0001;
    m.tag_set[1] = 0b0010;
    m.sel_tags = 0;
    assert_eq!(m.get_active_tags(), 0b0001);
    m.sel_tags = 1;
    assert_eq!(m.get_active_tags(), 0b0010);
}

#[test]
fn test_wm_monitor_get_active_tags_bad_sel_tags_clamped() {
    let mut m = WMMonitor::new();
    m.tag_set[0] = 0xFF;
    m.tag_set[1] = 0x0F;
    m.sel_tags = 100; // out of range — masked to 0 via & 1
    // 100 & 1 = 0 → tag_set[0]
    assert_eq!(m.get_active_tags(), 0xFF);
}

#[test]
fn test_wm_monitor_intersect_area_fully_inside() {
    let mut m = WMMonitor::new();
    m.geometry.w_x = 0;
    m.geometry.w_y = 0;
    m.geometry.w_w = 1920;
    m.geometry.w_h = 1080;
    // Window fully inside
    let area = m.intersect_area(100, 100, 200, 200);
    assert_eq!(area, 200 * 200);
}

#[test]
fn test_wm_monitor_intersect_area_no_overlap() {
    let mut m = WMMonitor::new();
    m.geometry.w_x = 0;
    m.geometry.w_y = 0;
    m.geometry.w_w = 1920;
    m.geometry.w_h = 1080;
    // Window completely to the right of monitor
    let area = m.intersect_area(2000, 0, 100, 100);
    assert_eq!(area, 0);
}

#[test]
fn test_wm_monitor_intersect_area_partial_overlap() {
    let mut m = WMMonitor::new();
    m.geometry.w_x = 0;
    m.geometry.w_y = 0;
    m.geometry.w_w = 100;
    m.geometry.w_h = 100;
    // Window overlaps the right half of the monitor
    let area = m.intersect_area(50, 0, 100, 100);
    assert_eq!(area, 50 * 100);
}

#[test]
fn test_wm_monitor_intersect_area_edge_touch() {
    let mut m = WMMonitor::new();
    m.geometry.w_x = 0;
    m.geometry.w_y = 0;
    m.geometry.w_w = 100;
    m.geometry.w_h = 100;
    // Window starts at the right edge → no overlap
    let area = m.intersect_area(100, 0, 100, 100);
    assert_eq!(area, 0);
}

#[test]
fn test_wm_monitor_intersect_area_handles_extreme_coordinates() {
    let mut m = WMMonitor::new();
    m.geometry.w_x = i32::MAX - 10;
    m.geometry.w_y = i32::MIN;
    m.geometry.w_w = 20;
    m.geometry.w_h = 20;

    let area = m.intersect_area(i32::MAX - 5, i32::MIN + 5, 20, 20);
    assert_eq!(area, 15 * 15);
}

#[test]
fn test_wm_monitor_intersect_area_saturates_large_area() {
    let mut m = WMMonitor::new();
    m.geometry.w_x = i32::MIN;
    m.geometry.w_y = i32::MIN;
    m.geometry.w_w = i32::MAX;
    m.geometry.w_h = i32::MAX;

    let area = m.intersect_area(i32::MIN, i32::MIN, i32::MAX, i32::MAX);
    assert_eq!(area, i32::MAX);
}

#[test]
fn test_wm_monitor_view_tag_no_toggle() {
    let mut m = WMMonitor::new();
    m.tag_set[0] = 0b0001;
    let new_tag = m.view_tag(0b0010, false);
    // After view_tag, sel_tags flips (0→1)
    let active = m.tag_set[m.sel_tags];
    assert_eq!(active, 0b0010);
    // Returns cur_tag (trailing zeros of 0b0010 = 1, +1 = 2)
    assert_eq!(new_tag, 2);
}

#[test]
fn test_wm_monitor_view_tag_empty_mask_is_noop() {
    let mut m = WMMonitor::new();
    m.tag_set[0] = 0b0101;
    let initial_sel = m.sel_tags;
    m.view_tag(0, false);
    // Empty mask (0) after no-toggle → same tag_set
    assert_eq!(m.sel_tags, initial_sel);
}

#[test]
fn test_wm_monitor_update_current_tag_layout_params_no_pertag() {
    let mut m = WMMonitor::new();
    m.layout.m_fact = single(0.7);
    m.layout.n_master = 2;
    // Without pertag, this should be a no-op (no panic)
    m.update_current_tag_layout_params();
}

#[test]
fn test_wm_monitor_set_get_selected_client_no_pertag() {
    let mut m = WMMonitor::new();
    // Without pertag, set_selected_client_for_current_tag updates sel only
    m.set_selected_client_for_current_tag(None);
    assert!(m.get_selected_client_for_current_tag().is_none());
}

// -----------------------------------------------------------------------
// Pertag
// -----------------------------------------------------------------------

#[test]
fn test_pertag_new_correct_length() {
    let p = Pertag::new(true, 9); // 9 tags → len=10
    assert_eq!(p.n_masters.len(), 10);
    assert_eq!(p.m_facts.len(), 10);
    assert_eq!(p.show_bars.len(), 10);
    assert_eq!(p.sel.len(), 10);
}

#[test]
fn test_pertag_new_show_bar_propagated() {
    let p = Pertag::new(true, 4);
    assert!(p.show_bars.iter().all(|&b| b));
    let p2 = Pertag::new(false, 4);
    assert!(p2.show_bars.iter().all(|&b| !b));
}

#[test]
fn test_pertag_new_initial_values_zero() {
    let p = Pertag::new(false, 4);
    assert!(p.n_masters.iter().all(|&n| n == 0));
    assert!(p.m_facts.iter().all(|&f| f == single(0.0)));
    assert!(p.sel.iter().all(Option::is_none));
}

#[test]
fn pertag_grows_and_preserves_existing_slots() {
    let key = 7;
    let mut p = Pertag::new(true, 9);
    p.cur_tag = 3;
    p.n_masters[3] = 4;
    p.sel[3] = Some(key);
    let (lt, prev_lt) = (p.lts[0], p.prev_lts[0]);
    p.resize_for_tags(12, 1, single(0.55), 8, lt, prev_lt, true);
    assert_eq!(p.sel.len(), 13);
    assert_eq!(p.n_masters[3], 4);
    assert_eq!(p.sel[3], Some(key));
    assert_eq!(p.n_masters[12], 1);
    assert_eq!(p.gaps[12], 8);
    assert_eq!(p.cur_tag, 3);
}

#[test]
fn pertag_shrink_clamps_cur_tag_to_the_new_last_slot() {
    let mut p = Pertag::new(true, 12);
    p.cur_tag = 12;
    p.prev_tag = 11;
    let (lt, prev_lt) = (p.lts[0], p.prev_lts[0]);
    p.resize_for_tags(9, 1, single(0.55), 0, lt, prev_lt, true);
    assert_eq!(p.sel.len(), 10);
    assert_eq!(p.cur_tag, 9);
    assert_eq!(p.prev_tag, 9);
}

#[test]
fn viewing_every_configured_tag_uses_the_view_all_slot() {
    let mut m = WMMonitor::new();
    m.pertag = Some(Pertag::new(true, 9));
    if let Some(pertag) = m.pertag.as_mut() {
        pertag.cur_tag = 1;
        pertag.n_masters[0] = 3;
        pertag.n_masters[1] = 1;
    }
    m.tag_set[0] = 1;
    // `view` hands over `!0 & tagmask`, never `!0` itself.
    assert_eq!(m.view_tag(0x1ff, false), 0, "view all takes slot 0");
    assert_eq!(m.layout.n_master, 3, "and slot 0's settings");
    assert_eq!(m.view_tag(1, false), 1);
    assert_eq!(m.layout.n_master, 1, "tag 1 kept its own settings");
    // A partial multi-tag view keeps a numbered slot.
    assert_eq!(m.view_tag(0b11, false), 1);

    let pertag = m.pertag.as_ref().unwrap();
    assert_eq!(pertag.slot_for_mask(0x1ff), 0);
    assert_eq!(pertag.slot_for_mask(!0), 0);
    assert_eq!(pertag.slot_for_mask(0b100), 3);

    // With a single tag there is no separate "all" view.
    let single = Pertag::new(true, 1);
    assert!(!single.is_all_tags(1));
    assert_eq!(single.slot_for_mask(1), 1);
}

#[test]
fn sync_tag_slots_lets_view_reach_a_newly_added_tag() {
    let mut m = WMMonitor::new();
    m.pertag = Some(Pertag::new(true, 9));
    if let Some(pertag) = m.pertag.as_mut() {
        pertag.cur_tag = 1;
        for i in 0..=9 {
            pertag.n_masters[i] = 1;
        }
    }
    m.tag_set[0] = 1;
    m.sync_tag_slots(12, (1 << 12) - 1);
    let new_tag = m.view_tag(1 << 11, false);
    assert_eq!(new_tag, 12);
    assert_eq!(m.pertag.as_ref().unwrap().n_masters.len(), 13);
    assert_eq!(m.layout.n_master, 1);
}

#[test]
fn sync_tag_slots_masks_a_retired_high_tag_onto_a_live_one() {
    let mut m = WMMonitor::new();
    m.pertag = Some(Pertag::new(true, 12));
    if let Some(pertag) = m.pertag.as_mut() {
        pertag.cur_tag = 12;
    }
    m.tag_set[0] = 1 << 11;
    m.sync_tag_slots(9, (1 << 9) - 1);
    assert_eq!(m.pertag.as_ref().unwrap().sel.len(), 10);
    assert_eq!(m.pertag.as_ref().unwrap().cur_tag, 9);
    assert_eq!(m.get_active_tags(), 1 << 8);
}

#[test]
fn a_view_of_nothing_asks_nothing_of_the_monitor() {
    let mut m = WMMonitor::new();
    m.sel_tags = 5;
    let before = m.clone();
    assert_eq!(m.view_tag(0, false), 1);
    assert_eq!(m, before);
}

#[test]
fn monitors_are_equal_by_what_they_hold() {
    let mut m = WMMonitor::new();
    m.pertag = Some(Pertag::new(true, 9));
    assert_eq!(m, m.clone());
    let mut other = m.clone();
    other.view_tag(0b10, false);
    assert_ne!(m, other);
}

#[test]
fn a_view_beyond_the_slots_returns_the_tag_that_is_current() {
    let mut m = WMMonitor::new();
    m.pertag = Some(Pertag::new(true, 9));
    assert_eq!(m.view_tag(1 << 9, false), 9);
    assert_eq!(m.pertag.as_ref().unwrap().cur_tag, 9);
    m.pertag = None;
    assert_eq!(m.view_tag(1 << 9, false), 10);
}

// -----------------------------------------------------------------------
// ScrollingState
// -----------------------------------------------------------------------

#[test]
fn test_scrolling_state_new() {
    let s = ScrollingState::new();
    assert!(s.columns.is_empty());
    assert!(s.column_width_factors.is_empty());
    assert!(s.focused_clients.is_empty());
    assert!(s.focused_column.is_none());
    assert!(!s.attach_new_windows_to_focused_column);
    assert!((f32::from_bits(s.viewport_x.bits) - 0.0).abs() < 1e-6);
}

#[test]
fn test_scrolling_state_remembers_focus_per_column() {
    let a = 1;
    let b = 2;
    let c = 3;
    let mut s = ScrollingState::new();
    s.columns = vec![vec![a, b], vec![c]];

    s.remember_focus(b);

    assert_eq!(s.target_for_column(0), Some(b));
    assert_eq!(s.target_for_column(1), Some(c));
    assert_eq!(s.focused_column_index(), Some(0));
}

#[test]
fn test_scrolling_state_retains_column_metadata() {
    let a = 1;
    let b = 2;
    let mut s = ScrollingState::new();
    s.columns = vec![vec![a], Vec::new(), vec![b]];
    s.column_width_factors = vec![single(1.25), single(0.75), single(1.5)];
    s.focused_clients = vec![Some(a), None, Some(b)];
    s.focused_column = Some(2);

    s.retain_non_empty_columns();

    assert_eq!(s.columns, vec![vec![a], vec![b]]);
    assert_eq!(s.column_width_factors, vec![single(1.25), single(1.5)]);
    assert_eq!(s.focused_clients, vec![Some(a), Some(b)]);
    assert_eq!(s.focused_column_index(), Some(1));
}

#[test]
fn test_scrolling_state_steady_retain_reuses_storage() {
    let mut s = ScrollingState::new();
    for key in 0..16 {
        s.columns.push(vec![key]);
        s.column_width_factors.push(single(1.0));
        s.focused_clients.push(Some(key));
    }

    let columns_storage = s.columns.as_ptr();
    let widths_storage = s.column_width_factors.as_ptr();
    let focuses_storage = s.focused_clients.as_ptr();
    let capacities = (
        s.columns.capacity(),
        s.column_width_factors.capacity(),
        s.focused_clients.capacity(),
    );

    s.retain_non_empty_columns();

    assert_eq!(s.columns.as_ptr(), columns_storage);
    assert_eq!(s.column_width_factors.as_ptr(), widths_storage);
    assert_eq!(s.focused_clients.as_ptr(), focuses_storage);
    assert_eq!(
        (
            s.columns.capacity(),
            s.column_width_factors.capacity(),
            s.focused_clients.capacity(),
        ),
        capacities
    );
}

#[test]
fn test_scrolling_state_preserves_focused_column_when_focus_client_disappears() {
    let a = 1;
    let b = 2;
    let c = 3;
    let mut s = ScrollingState::new();
    s.columns = vec![vec![a], vec![b, c]];
    s.column_width_factors = vec![single(1.0), single(1.5)];
    s.focused_clients = vec![Some(a), Some(b)];
    s.focused_column = Some(1);

    s.columns[1].remove(0);
    s.retain_non_empty_columns();

    assert_eq!(s.columns, vec![vec![a], vec![c]]);
    assert_eq!(s.column_width_factors, vec![single(1.0), single(1.5)]);
    assert_eq!(s.focused_clients, vec![Some(a), Some(c)]);
    assert_eq!(s.focused_column_index(), Some(1));
    assert_eq!(s.target_for_column(1), Some(c));
}

#[test]
fn test_scrolling_state_attaches_new_client_to_focused_column() {
    let a = 1;
    let b = 2;
    let c = 3;
    let mut s = ScrollingState::new();
    s.columns = vec![vec![a], vec![b]];
    s.remember_focus(a);
    s.attach_new_windows_to_focused_column = true;

    s.insert_new_client(c);

    assert_eq!(s.columns, vec![vec![a, c], vec![b]]);
    assert_eq!(s.focused_clients, vec![Some(c), None]);
    assert_eq!(s.focused_column_index(), Some(0));
}

#[test]
fn test_scrolling_state_new_client_defaults_to_new_column() {
    let a = 1;
    let b = 2;
    let mut s = ScrollingState::new();
    s.columns = vec![vec![a]];
    s.remember_focus(a);

    s.insert_new_client(b);

    assert_eq!(s.columns, vec![vec![a], vec![b]]);
    assert_eq!(s.focused_column_index(), Some(1));
}

#[test]
fn test_scrolling_state_orders_visible_clients_for_overview() {
    let a = 1;
    let b = 2;
    let c = 3;
    let d = 4;
    let e = 5;
    let mut s = ScrollingState::new();
    s.columns = vec![vec![c, a], vec![b], vec![d]];

    let ordered = s.ordered_visible_clients(&[a, b, e, c]);

    assert_eq!(ordered, vec![c, a, b, e]);
}

#[test]
fn test_scrolling_state_builds_overview_strip_geometry() {
    let a = 1;
    let b = 2;
    let c = 3;
    let e = 5;
    let mut s = ScrollingState::new();
    s.columns = vec![vec![c, a], vec![b]];
    s.column_width_factors = vec![single(2.0), single(1.0)];
    s.set_focused_column(1);

    let geometry = overview_strip_geometry(&s, &[a, b, c, e]);

    assert_eq!(
        geometry.iter().map(|g| g.client).collect::<Vec<_>>(),
        vec![c, a, b, e]
    );
    assert!((geometry[0].x_ratio - 0.0).abs() < 0.0001);
    assert!((geometry[0].width_ratio - 0.5).abs() < 0.0001);
    assert!((geometry[0].y_ratio - 0.0).abs() < 0.0001);
    assert!((geometry[0].height_ratio - 0.5).abs() < 0.0001);
    assert!((geometry[1].y_ratio - 0.5).abs() < 0.0001);
    assert!(!geometry[0].focused_column);
    assert!(geometry[2].focused_column);
    assert!((geometry[3].x_ratio - 0.75).abs() < 0.0001);
    assert_eq!(geometry[3].column_index, 2);
}

#[test]
fn maximized_axes_round_trip_and_realization_requires_a_plain_floating_client() {
    let mut state = ClientState::default();
    assert_eq!(state.maximized_axes(), NONE);
    for axes in [
        VERT,
        HORZ,
        BOTH,
        NONE,
    ] {
        state.set_maximized_axes(axes);
        assert_eq!(state.maximized_axes(), axes);
        assert_eq!(state.is_maximized_vert, axes.vert);
        assert_eq!(state.is_maximized_horz, axes.horz);
    }

    state.set_maximized_axes(VERT);
    assert!(
        !state.is_maximize_realized(),
        "a tiled client is never realized"
    );
    state.is_floating = true;
    assert!(state.is_maximize_realized());
    state.is_fullscreen = true;
    assert!(
        !state.is_maximize_realized(),
        "fullscreen owns the geometry"
    );
    state.is_fullscreen = false;
    state.is_pip = true;
    assert!(!state.is_maximize_realized(), "PiP owns the geometry");
    state.is_pip = false;
    state.set_maximized_axes(NONE);
    assert!(!state.is_maximize_realized());
}

#[test]
fn a_window_reads_with_its_names_and_place() {
    let mut c = WMClient::new(42);
    c.name = "n".to_string();
    c.class = "c".to_string();
    c.instance = "i".to_string();
    c.geometry.w = 800;
    c.geometry.h = 600;
    c.geometry.x = -10;
    c.geometry.y = 20;
    c.mon = Some(3);
    assert_eq!(c.geometry.to_string(), "800x600+-10+20");
    assert_eq!(
        c.describe("0x2a"),
        "WMClient { name: \"n\", class: \"c\", instance: \"i\", win: 0x2a, \
         geometry: 800x600+-10+20, monitor: Some }"
    );
}

#[test]
fn a_tag_keeps_its_settings_while_another_is_shown() {
    let mut m = WMMonitor::new();
    m.pertag = Some(Pertag::new(true, 4));
    m.tag_set[0] = 1;
    m.reload_current_tag_context();
    m.view_tag(1, false);
    m.layout.n_master = 5;
    m.layout.gap = 9;
    m.layout.m_fact = single(0.7);
    m.update_current_tag_layout_params();
    m.view_tag(0b10, false);
    assert_ne!(m.layout.n_master, 5);
    m.view_tag(0b1, false);
    assert_eq!(m.layout.n_master, 5);
    assert_eq!(m.layout.gap, 9);
    assert_eq!(m.layout.m_fact, single(0.7));
}

#[test]
fn a_forgotten_window_is_selected_nowhere() {
    let mut m = WMMonitor::new();
    m.pertag = Some(Pertag::new(true, 3));
    m.tag_set[0] = 1;
    m.set_selected_client_for_tag_mask(0b1, Some(8));
    m.set_selected_client_for_tag_mask(0b10, Some(8));
    m.set_selected_client_for_tag_mask(0b100, Some(9));
    m.sel = Some(8);
    m.clear_selection_of(8);
    assert_eq!(m.sel, None);
    let pertag = m.pertag.as_ref().unwrap();
    assert!(!pertag.sel.contains(&Some(8)));
    assert!(pertag.sel.contains(&Some(9)));
}

#[test]
fn the_last_tag_in_view_cannot_be_toggled_away() {
    let mut m = WMMonitor::new();
    m.tag_set[0] = 0b10;
    m.view_tag(0b10, true);
    assert_eq!(m.get_active_tags(), 0b10);
    m.view_tag(0b100, true);
    assert_eq!(m.get_active_tags(), 0b110);
}

#[test]
fn every_visible_window_stands_in_the_overview_once() {
    let mut s = ScrollingState::new();
    s.columns = vec![vec![1, 2], vec![2, 3]];
    let visible = [3, 2, 9, 1, 9];
    let ordered = s.ordered_visible_clients(&visible);
    assert_eq!(ordered, [1, 2, 3, 9]);
    assert_eq!(s.stray_count(&visible), 2);
}
