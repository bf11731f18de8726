//! How windows are maximized along each axis, and released again.
use jwm::geometry::Rect;
use jwm::maximize::{
    CONFIGURE_BORDER_WIDTH, CONFIGURE_HEIGHT, CONFIGURE_SIBLING, CONFIGURE_STACK_MODE,
    CONFIGURE_WIDTH, CONFIGURE_X, CONFIGURE_Y, MaximizeAdmission, MaximizeAxes, MaximizeFacts,
    MaximizeInput, MaximizeOrigin, MaximizePlan, NetWmAction, NetWmState, RestingSlot,
    admit_maximize, has_configure_geometry_bits, initial_restore_rect, maximize_target,
    mirror_free_axes, plan_maximize, requested_axes, resting_slot, strip_maximized_configure_bits,
};

const NONE: MaximizeAxes = MaximizeAxes {
    vert: false,
    horz: false,
};
const VERT: MaximizeAxes = MaximizeAxes {
    vert: true,
    horz: false,
};
const HORZ: MaximizeAxes = MaximizeAxes {
    vert: false,
    horz: true,
};
const BOTH: MaximizeAxes = MaximizeAxes {
    vert: true,
    horz: true,
};

fn area() -> Rect {
    Rect::new(0, 30, 1920, 1050)
}

#[test]
fn requested_axes_resolves_add_remove_and_single_axis_toggle() {
    assert_eq!(requested_axes(NONE, NetWmAction::Add, VERT), VERT);
    assert_eq!(requested_axes(VERT, NetWmAction::Add, HORZ), BOTH);
    assert_eq!(requested_axes(BOTH, NetWmAction::Remove, VERT), HORZ);
    assert_eq!(requested_axes(HORZ, NetWmAction::Toggle, VERT), BOTH);
    assert_eq!(requested_axes(BOTH, NetWmAction::Toggle, HORZ), VERT);
    for action in [NetWmAction::Add, NetWmAction::Remove, NetWmAction::Toggle] {
        for current in [NONE, VERT, HORZ, BOTH] {
            assert_eq!(
                requested_axes(current, action, NONE),
                current,
                "{action:?} naming nothing must leave {current:?} alone"
            );
        }
    }
}

#[test]
fn paired_toggle_maximizes_unless_already_fully_maximized() {
    for current in [NONE, VERT, HORZ] {
        assert_eq!(
            requested_axes(current, NetWmAction::Toggle, BOTH),
            BOTH,
            "from {current:?}"
        );
    }
    assert_eq!(requested_axes(BOTH, NetWmAction::Toggle, BOTH), NONE);
}

#[test]
fn maximize_axes_helpers_round_trip_net_wm_state() {
    assert_eq!(
        MaximizeAxes::from_net_wm_state(NetWmState::MaximizedVert),
        Some(VERT)
    );
    assert_eq!(
        MaximizeAxes::from_net_wm_state(NetWmState::MaximizedHorz),
        Some(HORZ)
    );
    assert_eq!(MaximizeAxes::from_net_wm_state(NetWmState::Above), None);

    assert_eq!(
        NONE.with_net_wm_state(NetWmState::MaximizedVert, true),
        VERT
    );
    assert_eq!(
        HORZ.with_net_wm_state(NetWmState::MaximizedVert, true),
        BOTH
    );
    assert_eq!(
        BOTH.with_net_wm_state(NetWmState::MaximizedHorz, false),
        VERT
    );
    assert_eq!(
        VERT.with_net_wm_state(NetWmState::MaximizedHorz, false),
        VERT
    );
    for axes in [NONE, VERT, HORZ, BOTH] {
        assert_eq!(axes.with_net_wm_state(NetWmState::Above, true), axes);
        assert_eq!(axes.with_net_wm_state(NetWmState::Fullscreen, false), axes);
    }

    // (next, current, gains_over)
    let gains = [
        (NONE, NONE, false),
        (VERT, NONE, true),
        (BOTH, VERT, true),
        (VERT, BOTH, false),
        (HORZ, VERT, true),
        (BOTH, BOTH, false),
    ];
    for (next, current, expected) in gains {
        assert_eq!(
            next.gains_over(current),
            expected,
            "{next:?} over {current:?}"
        );
    }
    assert_eq!(VERT.union(HORZ), BOTH);
    assert_eq!(NONE.union(VERT), VERT);
    assert_eq!(BOTH.union(NONE), BOTH);
    assert_eq!(BOTH.without(VERT), HORZ);
    assert_eq!(BOTH.without(BOTH), NONE);
    assert_eq!(VERT.without(HORZ), VERT);
    assert!(!NONE.any() && VERT.any() && HORZ.any() && BOTH.any());
    assert!(!VERT.both() && !HORZ.both() && BOTH.both());
    assert_eq!(MaximizeAxes::default(), NONE);
    assert_eq!(MaximizeAxes::new(true, false), VERT);
}

#[test]
fn admission_keeps_layout_managed_clients_tiled() {
    let origins = [
        MaximizeOrigin::Client,
        MaximizeOrigin::User,
        MaximizeOrigin::Adopt,
    ];
    let hostile = MaximizeFacts {
        is_fixed: true,
        has_work_area: false,
        ..MaximizeFacts::default()
    };
    for origin in origins {
        // Losing axes is always allowed.
        assert_eq!(
            admit_maximize(BOTH, NONE, hostile, origin),
            MaximizeAdmission::Apply
        );
        assert_eq!(
            admit_maximize(BOTH, HORZ, hostile, origin),
            MaximizeAdmission::Apply
        );
    }

    let floating = MaximizeFacts {
        resting_floating: true,
        has_work_area: true,
        ..MaximizeFacts::default()
    };
    let refusals = [
        MaximizeFacts {
            has_work_area: false,
            ..floating
        },
        MaximizeFacts {
            is_dock: true,
            ..floating
        },
        MaximizeFacts {
            is_fixed: true,
            ..floating
        },
    ];
    for facts in refusals {
        for origin in origins {
            assert_eq!(
                admit_maximize(NONE, BOTH, facts, origin),
                MaximizeAdmission::Reject,
                "{facts:?} {origin:?}"
            );
        }
    }
    for origin in origins {
        assert_eq!(
            admit_maximize(NONE, BOTH, floating, origin),
            MaximizeAdmission::Apply
        );
    }

    let tiled = MaximizeFacts {
        resting_floating: false,
        has_work_area: true,
        ..MaximizeFacts::default()
    };
    let suspended_tiled = MaximizeFacts {
        suspended: true,
        float_layout: true,
        ..tiled
    };
    for origin in origins {
        assert_eq!(
            admit_maximize(NONE, BOTH, suspended_tiled, origin),
            MaximizeAdmission::Reject,
            "{origin:?}"
        );
    }
    assert_eq!(
        admit_maximize(NONE, BOTH, tiled, MaximizeOrigin::Client),
        MaximizeAdmission::Reject
    );
    assert_eq!(
        admit_maximize(NONE, BOTH, tiled, MaximizeOrigin::Adopt),
        MaximizeAdmission::Reject
    );
    assert_eq!(
        admit_maximize(NONE, BOTH, tiled, MaximizeOrigin::User),
        MaximizeAdmission::Promote
    );
    let float_layout = MaximizeFacts {
        float_layout: true,
        ..tiled
    };
    assert_eq!(
        admit_maximize(NONE, BOTH, float_layout, MaximizeOrigin::Client),
        MaximizeAdmission::Promote
    );
}

#[test]
fn resting_slot_prefers_fullscreen_then_pip_then_parking() {
    assert_eq!(
        resting_slot(true, true, true),
        RestingSlot::FullscreenReturn
    );
    assert_eq!(resting_slot(false, true, true), RestingSlot::PipReturn);
    assert_eq!(resting_slot(false, false, true), RestingSlot::HiddenRestore);
    assert_eq!(resting_slot(false, false, false), RestingSlot::Live);
}

#[test]
fn maximize_target_fills_named_axes_of_the_work_area_minus_borders() {
    let restore = Rect::new(100, 120, 400, 300);
    assert_eq!(
        maximize_target(restore, area(), BOTH, 2),
        Rect::new(0, 30, 1916, 1046)
    );
    assert_eq!(
        maximize_target(restore, area(), VERT, 2),
        Rect::new(100, 30, 400, 1046)
    );
    assert_eq!(
        maximize_target(restore, area(), HORZ, 2),
        Rect::new(0, 120, 1916, 300)
    );
    assert_eq!(maximize_target(restore, area(), NONE, 2), restore);
    let tiny = maximize_target(restore, Rect::new(5, 6, 3, 3), BOTH, 2);
    assert_eq!(tiny, Rect::new(5, 6, 1, 1));
}

#[test]
fn mirror_free_axes_takes_only_unmaximized_components_from_live() {
    let restore = Rect::new(10, 20, 300, 200);
    let live = Rect::new(50, 30, 400, 1046);
    assert_eq!(
        mirror_free_axes(restore, live, VERT),
        Rect::new(50, 20, 400, 200)
    );
    assert_eq!(
        mirror_free_axes(restore, live, HORZ),
        Rect::new(10, 30, 300, 1046)
    );
    assert_eq!(mirror_free_axes(restore, live, BOTH), restore);
    assert_eq!(mirror_free_axes(restore, live, NONE), live);
}

#[test]
fn initial_restore_rect_falls_back_only_for_near_full_size_windows() {
    assert_eq!(
        initial_restore_rect(Rect::new(0, 30, 1916, 1046), area(), 2),
        Rect::new(320, 205, 1276, 696)
    );
    let small = Rect::new(200, 150, 640, 480);
    assert_eq!(initial_restore_rect(small, area(), 2), small);
    let tall = Rect::new(40, 30, 300, 1046);
    assert_eq!(initial_restore_rect(tall, area(), 2), tall);
}

#[test]
fn plan_enter_uses_hint_then_resting_and_repeat_keeps_the_first_restore() {
    let resting = Rect::new(200, 150, 640, 480);
    let hint = Rect::new(333, 222, 555, 444);
    let input = MaximizeInput {
        current: NONE,
        restore: None,
        restore_hint: Some(hint),
        resting,
        area: area(),
        border_w: 2,
    };
    let hinted = plan_maximize(input, BOTH);
    assert_eq!(hinted.axes, BOTH);
    assert_eq!(hinted.restore_rect, Some(hint));
    assert_eq!(hinted.resting_rect, maximize_target(hint, area(), BOTH, 2));

    let plain = plan_maximize(
        MaximizeInput {
            restore_hint: None,
            ..input
        },
        BOTH,
    );
    assert_eq!(plain.restore_rect, Some(resting));
    assert_eq!(
        plain.resting_rect,
        maximize_target(resting, area(), BOTH, 2)
    );

    let r0 = Rect::new(111, 99, 700, 500);
    let target = maximize_target(r0, area(), BOTH, 2);
    let repeat = plan_maximize(
        MaximizeInput {
            current: BOTH,
            restore: Some(r0),
            restore_hint: Some(hint),
            resting: target,
            area: area(),
            border_w: 2,
        },
        BOTH,
    );
    assert_eq!(
        repeat,
        MaximizePlan {
            axes: BOTH,
            restore_rect: Some(r0),
            resting_rect: target,
        }
    );
}

#[test]
fn plan_partial_and_full_exit_restore_axes_from_the_slot() {
    let r0 = Rect::new(111, 99, 700, 500);
    let both = plan_maximize(
        MaximizeInput {
            current: BOTH,
            restore: Some(r0),
            restore_hint: None,
            resting: maximize_target(r0, area(), BOTH, 2),
            area: area(),
            border_w: 2,
        },
        HORZ,
    );
    assert_eq!(both.axes, HORZ);
    assert_eq!(both.restore_rect, Some(r0));
    assert_eq!(both.resting_rect, Rect::new(0, 99, 1916, 500));

    // The user moved the HORZ window vertically: its free axis (y/h)
    // comes from the resting rect, the maximized axis from R0.
    let resting = Rect::new(0, 140, 1916, 520);
    let exit = plan_maximize(
        MaximizeInput {
            current: HORZ,
            restore: Some(r0),
            restore_hint: None,
            resting,
            area: area(),
            border_w: 2,
        },
        NONE,
    );
    assert_eq!(exit.axes, NONE);
    assert_eq!(exit.restore_rect, None);
    assert_eq!(exit.resting_rect, Rect::new(111, 140, 700, 520));
}

#[test]
fn plan_mirrors_free_axis_edits_on_axis_change() {
    let r0 = Rect::new(111, 99, 700, 500);
    let mut resting = maximize_target(r0, area(), VERT, 2);
    resting.x = 260;
    resting.w = 810;
    let plan = plan_maximize(
        MaximizeInput {
            current: VERT,
            restore: Some(r0),
            restore_hint: None,
            resting,
            area: area(),
            border_w: 2,
        },
        BOTH,
    );
    assert_eq!(plan.restore_rect, Some(Rect::new(260, 99, 810, 500)));
    assert_eq!(plan.resting_rect, Rect::new(0, 30, 1916, 1046));
}

#[test]
fn plan_without_a_recorded_restore_falls_back_to_a_visible_rect() {
    let full = Rect::new(0, 30, 1916, 1046);
    let plan = plan_maximize(
        MaximizeInput {
            current: BOTH,
            restore: None,
            restore_hint: None,
            resting: full,
            area: area(),
            border_w: 2,
        },
        NONE,
    );
    assert_eq!(plan.resting_rect, Rect::new(320, 205, 1276, 696));
}

#[test]
fn strip_maximized_configure_bits_removes_only_owned_axes() {
    let geometry = CONFIGURE_X | CONFIGURE_Y | CONFIGURE_WIDTH | CONFIGURE_HEIGHT;
    let other = CONFIGURE_BORDER_WIDTH | CONFIGURE_SIBLING | CONFIGURE_STACK_MODE;
    assert_eq!(
        strip_maximized_configure_bits(geometry | other, BOTH),
        other
    );
    assert_eq!(
        strip_maximized_configure_bits(geometry, VERT),
        (CONFIGURE_X | CONFIGURE_WIDTH)
    );
    assert_eq!(
        strip_maximized_configure_bits(geometry, HORZ),
        (CONFIGURE_Y | CONFIGURE_HEIGHT)
    );
    assert_eq!(strip_maximized_configure_bits(geometry, NONE), geometry);
    // Bits outside the named set survive untouched.
    assert_eq!(strip_maximized_configure_bits(0x8000, BOTH), 0x8000);

    assert!(has_configure_geometry_bits(geometry));
    assert!(has_configure_geometry_bits(CONFIGURE_HEIGHT));
    assert!(!has_configure_geometry_bits(other));
    assert!(!has_configure_geometry_bits(
        strip_maximized_configure_bits(geometry, BOTH)
    ));
}

#[test]
fn requests_are_settled_by_their_first_application() {
    for named in [NONE, VERT, HORZ, BOTH] {
        for current in [NONE, VERT, HORZ, BOTH] {
            for action in [NetWmAction::Add, NetWmAction::Remove] {
                let once = requested_axes(current, action, named);
                assert_eq!(requested_axes(once, action, named), once);
            }
        }
    }
}

#[test]
fn a_toggle_is_undone_by_another() {
    for current in [NONE, VERT, HORZ, BOTH] {
        for named in [NONE, VERT, HORZ] {
            let once = requested_axes(current, NetWmAction::Toggle, named);
            assert_eq!(requested_axes(once, NetWmAction::Toggle, named), current);
        }
    }
    // From one axis, toggling the pair completes it first and then clears it.
    let once = requested_axes(VERT, NetWmAction::Toggle, BOTH);
    assert_eq!(requested_axes(once, NetWmAction::Toggle, BOTH), NONE);
}

#[test]
fn a_released_window_is_where_it_was() {
    let resting = Rect::new(200, 150, 640, 480);
    let input = MaximizeInput {
        current: NONE,
        restore: None,
        restore_hint: None,
        resting,
        area: area(),
        border_w: 2,
    };
    for axes in [VERT, HORZ, BOTH] {
        let entered = plan_maximize(input, axes);
        let left = plan_maximize(
            MaximizeInput {
                current: entered.axes,
                restore: entered.restore_rect,
                resting: entered.resting_rect,
                ..input
            },
            NONE,
        );
        assert_eq!(left.resting_rect, resting);
        assert_eq!(left.restore_rect, None);
    }
}

#[test]
fn extreme_areas_do_not_overflow() {
    let whole = Rect::new(i32::MIN, i32::MIN, i32::MAX, i32::MAX);
    let r = maximize_target(Rect::new(0, 0, 10, 10), whole, BOTH, i32::MAX);
    assert_eq!(r, Rect::new(i32::MIN, i32::MIN, 1, 1));
    let r = maximize_target(Rect::new(0, 0, 10, 10), whole, BOTH, 0);
    assert_eq!(r, Rect::new(i32::MIN, i32::MIN, i32::MAX, i32::MAX));
}
