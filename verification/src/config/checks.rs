//! The semantic checks of a configuration, section by section.
use super::bindings::{click_named, parse_click_type};
use super::diagnostics::{
    at_index, below, error, hinted, indexed, warning, ConfigDiagnostics, IssueView,
};
use super::types::{
    BehaviorConfig, ButtonConfig, ChordConfig, Config, GestureSwipeConfig, KeyConfig, RuleConfig,
    TomlConfig, WallpaperMonitorConfig, WallpaperTagConfig,
};
use super::validation::{
    binding_check, canonical_chord, choice_check, choice_check_ignoring_case, chord_text,
    is_positive, modifiers_check, nonnegative_check, positive, positive_double_check, range_check,
    real_of, require_f32_range, required_range_check, rgba_check, sign_check, time_check,
    validate_binding, validate_choice, validate_choice_ignore_ascii_case, validate_f32_range,
    validate_modifiers, validate_nonnegative_f32, validate_positive_f64, validate_rgba,
    validate_sign, validate_time, BAR_MAX, FACT_MAX, FACT_MIN, HUNDRED, MAX_WINDOW_GLOW_INTENSITY,
    MAX_WINDOW_GLOW_RADIUS, MAX_WOBBLY_SUBDIVISIONS, MINUS_TEN_THOUSAND, ONE, RADIUS_MAX,
    SECONDS_MAX, TENTH, TEN_THOUSAND, THOUSAND, TILT_MAX, TWO, ZERO,
};
use crate::actions::{function_by_name, function_named, keysym_by_name, keysym_named};
use crate::commands::{command_named, is_known_command};
use crate::ieee::F32;
use crate::message::{m1, m2, m3, m4, m5, m7, m9, n, q, t, w, x, Message};
use crate::text::{numeral, split_at_first, split_once, str_eq, trim, trimmed};
use vstd::arithmetic::power2::pow2;
use vstd::prelude::*;

verus! {

/// The tag count fits a 32-bit mask, and the master fraction leaves room for both areas.
pub open spec fn layout_check(d: Seq<IssueView>, c: TomlConfig) -> Seq<IssueView> {
    let d = if 1 <= c.layout.tags_length <= 31 {
        d
    } else {
        d.push(
            hinted(
                error(
                    "layout.tags_length"@,
                    m2(
                        n(c.layout.tags_length as int),
                        t(" cannot be represented by JWM's 32-bit tag mask"),
                    ),
                ),
                m1(t("use a value from 1 through 31")),
            ),
        )
    };
    let d = required_range_check(d, "layout.m_fact"@, c.layout.m_fact, FACT_MIN, FACT_MAX);
    d
}

fn check_layout(d: &mut ConfigDiagnostics, c: &TomlConfig)
    ensures
        final(d)@ == layout_check(old(d)@, *c),
{
    let tags: usize = c.layout.tags_length;
    if tags < 1 || tags > 31 {
        d.error_hint(
            "layout.tags_length",
            Message::new().number(tags as u64).text(
                " cannot be represented by JWM's 32-bit tag mask",
            ),
            Message::new().text("use a value from 1 through 31"),
        );
    }
    require_f32_range(d, "layout.m_fact", c.layout.m_fact, FACT_MIN, FACT_MAX);
}

/// A width of border that the signed geometry can hold and a screen can show.
pub open spec fn border_check(d: Seq<IssueView>, value: u32) -> Seq<IssueView> {
    if value > i32::MAX {
        d.push(
            hinted(
                error(
                    "appearance.border_px"@,
                    m1(t("value cannot be represented by the signed geometry pipeline")),
                ),
                m2(t("use at most "), n(i32::MAX as int)),
            ),
        )
    } else if value > 64 {
        d.push(
            warning(
                "appearance.border_px"@,
                m2(n(value as int), t("px is unusually large and may leave no client area")),
            ),
        )
    } else {
        d
    }
}

fn check_border(d: &mut ConfigDiagnostics, value: u32)
    ensures
        final(d)@ == border_check(old(d)@, value),
{
    if value > i32::MAX as u32 {
        d.error_hint(
            "appearance.border_px",
            Message::new().text("value cannot be represented by the signed geometry pipeline"),
            Message::new().text("use at most ").number(i32::MAX as u64),
        );
    } else if value > 64 {
        d.warning(
            "appearance.border_px",
            Message::new().number(value as u64).text("px is unusually large and may leave no client area"),
        );
    }
}

/// A width of gap that the signed geometry can hold and a screen can show.
pub open spec fn gap_check(d: Seq<IssueView>, value: u32) -> Seq<IssueView> {
    if value > i32::MAX {
        d.push(
            hinted(
                error(
                    "appearance.gap_px"@,
                    m1(t("value cannot be represented by the signed geometry pipeline")),
                ),
                m2(t("use at most "), n(i32::MAX as int)),
            ),
        )
    } else if value > 512 {
        d.push(
            warning(
                "appearance.gap_px"@,
                m2(n(value as int), t("px is unusually large and may leave no usable workspace")),
            ),
        )
    } else {
        d
    }
}

fn check_gap(d: &mut ConfigDiagnostics, value: u32)
    ensures
        final(d)@ == gap_check(old(d)@, value),
{
    if value > i32::MAX as u32 {
        d.error_hint(
            "appearance.gap_px",
            Message::new().text("value cannot be represented by the signed geometry pipeline"),
            Message::new().text("use at most ").number(i32::MAX as u64),
        );
    } else if value > 512 {
        d.warning(
            "appearance.gap_px",
            Message::new().number(value as u64).text("px is unusually large and may leave no usable workspace"),
        );
    }
}

/// Cursor, status-bar geometry and master count.
pub open spec fn bar_check(d: Seq<IssueView>, c: TomlConfig) -> Seq<IssueView> {
    let d = if c.appearance.cursor_size > 512 {
        d.push(
            hinted(
                warning(
                    "appearance.cursor_size"@,
                    m2(
                        n(c.appearance.cursor_size as int),
                        t("px is far larger than any Xcursor theme provides and will be scaled from the nearest available image"),
                    ),
                ),
                m1(t("use a value in the 24-128 range (0 = follow the environment)")),
            ),
        )
    } else {
        d
    };
    let d = if c.status_bar.show_bar && c.appearance.status_bar_height <= 0 {
        d.push(
            error(
                "appearance.status_bar_height"@,
                m2(n(c.appearance.status_bar_height as int), t(" must be greater than zero")),
            ),
        )
    } else {
        d
    };
    let d = if c.appearance.status_bar_padding < 0 {
        d.push(
            warning(
                "appearance.status_bar_padding"@,
                m2(
                    n(c.appearance.status_bar_padding as int),
                    t(" is negative and may place the bar outside the output"),
                ),
            ),
        )
    } else {
        d
    };
    if c.layout.n_master == 0 {
        d.push(
            hinted(
                warning("layout.n_master"@, m1(t("zero disables the master area"))),
                m1(t("use 1 for the conventional master/stack layout")),
            ),
        )
    } else {
        d
    }
}

fn check_bar(d: &mut ConfigDiagnostics, c: &TomlConfig)
    ensures
        final(d)@ == bar_check(old(d)@, *c),
{
    if c.appearance.cursor_size > 512 {
        d.warning_hint(
            "appearance.cursor_size",
            Message::new().number(c.appearance.cursor_size as u64).text(
                "px is far larger than any Xcursor theme provides and will be scaled from the nearest available image",
            ),
            Message::new().text("use a value in the 24-128 range (0 = follow the environment)"),
        );
    }
    if c.status_bar.show_bar && c.appearance.status_bar_height <= 0 {
        d.error(
            "appearance.status_bar_height",
            Message::new().signed(c.appearance.status_bar_height as i64).text(
                " must be greater than zero",
            ),
        );
    }
    if c.appearance.status_bar_padding < 0 {
        d.warning(
            "appearance.status_bar_padding",
            Message::new().signed(c.appearance.status_bar_padding as i64).text(
                " is negative and may place the bar outside the output",
            ),
        );
    }
    if c.layout.n_master == 0 {
        d.warning_hint(
            "layout.n_master",
            Message::new().text("zero disables the master area"),
            Message::new().text("use 1 for the conventional master/stack layout"),
        );
    }
}

/// Opacities, steps, radii and strengths lie in their supported ranges.
pub open spec fn strength_check(d: Seq<IssueView>, b: BehaviorConfig) -> Seq<IssueView> {
    let d = range_check(d, "behavior.active_opacity"@, b.active_opacity, ZERO, ONE);
    let d = range_check(d, "behavior.inactive_opacity"@, b.inactive_opacity, ZERO, ONE);
    let d = range_check(d, "behavior.blur_temporal_mix_ratio"@, b.blur_temporal_mix_ratio, ZERO, ONE);
    let d = range_check(d, "behavior.fade_in_step"@, b.fade_in_step, ZERO, ONE);
    let d = range_check(d, "behavior.fade_out_step"@, b.fade_out_step, ZERO, ONE);
    let d = range_check(d, "behavior.corner_radius"@, b.corner_radius, ZERO, RADIUS_MAX);
    let d = range_check(d, "behavior.border_glow_radius"@, b.border_glow_radius, ZERO, MAX_WINDOW_GLOW_RADIUS);
    let d = range_check(d, "behavior.border_glow_intensity"@, b.border_glow_intensity, ZERO, MAX_WINDOW_GLOW_INTENSITY);
    let d = range_check(d, "behavior.motion_trail_opacity"@, b.motion_trail_opacity, ZERO, ONE);
    range_check(d, "behavior.inactive_dim"@, b.inactive_dim, ZERO, ONE)
}

fn check_strengths(d: &mut ConfigDiagnostics, b: &BehaviorConfig)
    ensures
        final(d)@ == strength_check(old(d)@, *b),
{
    validate_f32_range(d, "behavior.active_opacity", b.active_opacity, ZERO, ONE);
    validate_f32_range(d, "behavior.inactive_opacity", b.inactive_opacity, ZERO, ONE);
    validate_f32_range(d, "behavior.blur_temporal_mix_ratio", b.blur_temporal_mix_ratio, ZERO, ONE);
    validate_f32_range(d, "behavior.fade_in_step", b.fade_in_step, ZERO, ONE);
    validate_f32_range(d, "behavior.fade_out_step", b.fade_out_step, ZERO, ONE);
    validate_f32_range(d, "behavior.corner_radius", b.corner_radius, ZERO, RADIUS_MAX);
    validate_f32_range(d, "behavior.border_glow_radius", b.border_glow_radius, ZERO, MAX_WINDOW_GLOW_RADIUS);
    validate_f32_range(d, "behavior.border_glow_intensity", b.border_glow_intensity, ZERO, MAX_WINDOW_GLOW_INTENSITY);
    validate_f32_range(d, "behavior.motion_trail_opacity", b.motion_trail_opacity, ZERO, ONE);
    validate_f32_range(d, "behavior.inactive_dim", b.inactive_dim, ZERO, ONE);
}

/// A fade makes progress while fading is enabled.
pub open spec fn fade_step_check(d: Seq<IssueView>, path: Seq<char>, value: F32) -> Seq<IssueView> {
    if value.finite() && value.at_most(real_of(ZERO)) {
        d.push(
            hinted(
                error(
                    path,
                    m1(t("fade step must be greater than zero while fading is enabled")),
                ),
                m1(t("disable behavior.fading or use a positive step")),
            ),
        )
    } else {
        d
    }
}

fn check_fade_step(d: &mut ConfigDiagnostics, path: &str, value: F32)
    ensures
        final(d)@ == fade_step_check(old(d)@, path@, value),
{
    if value.is_finite() && value.le(F32 { bits: ZERO }) {
        d.error_hint(
            path,
            Message::new().text("fade step must be greater than zero while fading is enabled"),
            Message::new().text("disable behavior.fading or use a positive step"),
        );
    }
}

/// Fading, and sizes that are never negative.
pub open spec fn size_check(d: Seq<IssueView>, b: BehaviorConfig) -> Seq<IssueView> {
    let d = if b.fading {
        fade_step_check(
            fade_step_check(d, "behavior.fade_in_step"@, b.fade_in_step),
            "behavior.fade_out_step"@,
            b.fade_out_step,
        )
    } else {
        d
    };
    let d = nonnegative_check(d, "behavior.shadow_radius"@, b.shadow_radius);
    let d = nonnegative_check(d, "behavior.border_width"@, b.border_width);
    let d = nonnegative_check(d, "behavior.border_glow_radius"@, b.border_glow_radius);
    let d = nonnegative_check(d, "behavior.border_glow_intensity"@, b.border_glow_intensity);
    let d = nonnegative_check(d, "behavior.annotation_line_width"@, b.annotation_line_width);
    let d = sign_check(d, "behavior.hdr_peak_nits"@, b.hdr_peak_nits, b.hdr_enabled);
    let d = sign_check(d, "behavior.magnifier_radius"@, b.magnifier_radius, b.magnifier_enabled);
    sign_check(d, "behavior.magnifier_zoom"@, b.magnifier_zoom, b.magnifier_enabled)
}

fn check_sizes(d: &mut ConfigDiagnostics, b: &BehaviorConfig)
    ensures
        final(d)@ == size_check(old(d)@, *b),
{
    if b.fading {
        check_fade_step(d, "behavior.fade_in_step", b.fade_in_step);
        check_fade_step(d, "behavior.fade_out_step", b.fade_out_step);
    }
    validate_nonnegative_f32(d, "behavior.shadow_radius", b.shadow_radius);
    validate_nonnegative_f32(d, "behavior.border_width", b.border_width);
    validate_nonnegative_f32(d, "behavior.border_glow_radius", b.border_glow_radius);
    validate_nonnegative_f32(d, "behavior.border_glow_intensity", b.border_glow_intensity);
    validate_nonnegative_f32(d, "behavior.annotation_line_width", b.annotation_line_width);
    validate_sign(d, "behavior.hdr_peak_nits", b.hdr_peak_nits, b.hdr_enabled);
    validate_sign(d, "behavior.magnifier_radius", b.magnifier_radius, b.magnifier_enabled);
    validate_sign(d, "behavior.magnifier_zoom", b.magnifier_zoom, b.magnifier_enabled);
}

/// A duration in seconds: positive while its effect is enabled, and not beyond what is supported.
pub open spec fn seconds_check(d: Seq<IssueView>, path: Seq<char>, value: F32, enabled: bool) -> Seq<IssueView> {
    let d = sign_check(d, path, value, enabled);
    if value.finite() && real_of(SECONDS_MAX).below(value) {
        d.push(
            hinted(
                warning(
                    path,
                    m2(x(value), t("s exceeds the supported maximum 30s and will be clamped")),
                ),
                m1(t("use at most 30 seconds")),
            ),
        )
    } else {
        d
    }
}

fn check_seconds(d: &mut ConfigDiagnostics, path: &str, value: F32, enabled: bool)
    ensures
        final(d)@ == seconds_check(old(d)@, path@, value, enabled),
{
    validate_sign(d, path, value, enabled);
    if value.is_finite() && (F32 { bits: SECONDS_MAX }).lt(value) {
        d.warning_hint(
            path,
            Message::new().single(value).text(
                "s exceeds the supported maximum 30s and will be clamped",
            ),
            Message::new().text("use at most 30 seconds"),
        );
    }
}

/// A duration in milliseconds: positive while its effect is enabled, and not beyond what is supported.
pub open spec fn millis_check(d: Seq<IssueView>, path: Seq<char>, value: u64, enabled: bool) -> Seq<IssueView> {
    if enabled && value == 0 {
        d.push(error(path, m1(t("duration must be greater than zero"))))
    } else if value > 30_000 {
        d.push(
            hinted(
                warning(
                    path,
                    m2(
                        n(value as int),
                        t("ms exceeds the supported maximum 30000ms and will be clamped"),
                    ),
                ),
                m1(t("use at most 30000 milliseconds")),
            ),
        )
    } else {
        d
    }
}

fn check_millis(d: &mut ConfigDiagnostics, path: &str, value: u64, enabled: bool)
    ensures
        final(d)@ == millis_check(old(d)@, path@, value, enabled),
{
    if enabled && value == 0 {
        d.error(path, Message::new().text("duration must be greater than zero"));
    } else if value > 30_000 {
        d.warning_hint(
            path,
            Message::new().number(value).text(
                "ms exceeds the supported maximum 30000ms and will be clamped",
            ),
            Message::new().text("use at most 30000 milliseconds"),
        );
    }
}

/// A value that is positive while its effect is enabled and lies in a supported range.
pub open spec fn tuned_check(d: Seq<IssueView>, path: Seq<char>, value: F32, enabled: bool, min: u32, max: u32) -> Seq<IssueView> {
    range_check(sign_check(d, path, value, enabled), path, value, min, max)
}

fn check_tuned(d: &mut ConfigDiagnostics, path: &str, value: F32, enabled: bool, min: u32, max: u32)
    ensures
        final(d)@ == tuned_check(old(d)@, path@, value, enabled, min, max),
{
    validate_sign(d, path, value, enabled);
    validate_f32_range(d, path, value, min, max);
}

/// Durations and tuning values of the window effects.
pub open spec fn effect_check(d: Seq<IssueView>, b: BehaviorConfig) -> Seq<IssueView> {
    let d = seconds_check(d, "behavior.particle_lifetime"@, b.particle_lifetime, b.particle_effects);
    let d = seconds_check(d, "behavior.ripple_duration"@, b.ripple_duration, b.ripple_on_open);
    let d = millis_check(d, "behavior.genie_duration_ms"@, b.genie_duration_ms, b.genie_minimize);
    let d = millis_check(d, "behavior.focus_highlight_duration_ms"@, b.focus_highlight_duration_ms, b.focus_highlight);
    let d = millis_check(d, "behavior.wallpaper_crossfade_duration_ms"@, b.wallpaper_crossfade_duration_ms, b.wallpaper_crossfade);
    let d = tuned_check(d, "behavior.tilt_perspective"@, b.tilt_perspective, b.window_tilt, HUNDRED, TEN_THOUSAND);
    let d = tuned_check(d, "behavior.tilt_speed"@, b.tilt_speed, b.window_tilt, TENTH, HUNDRED);
    let d = tuned_check(d, "behavior.wobbly_stiffness"@, b.wobbly_stiffness, b.wobbly_windows, TENTH, TEN_THOUSAND);
    let d = tuned_check(d, "behavior.wobbly_damping"@, b.wobbly_damping, b.wobbly_windows, TENTH, THOUSAND);
    let d = tuned_check(d, "behavior.wobbly_restore_stiffness"@, b.wobbly_restore_stiffness, b.wobbly_windows, TENTH, TEN_THOUSAND);
    let d = range_check(d, "behavior.tilt_amount"@, b.tilt_amount, ZERO, TILT_MAX);
    let d = range_check(d, "behavior.ripple_amplitude"@, b.ripple_amplitude, ZERO, TENTH);
    let d = range_check(d, "behavior.particle_gravity"@, b.particle_gravity, MINUS_TEN_THOUSAND, TEN_THOUSAND);
    let d = range_check(d, "behavior.window_animation_scale"@, b.window_animation_scale, TENTH, TWO);
    range_check(d, "behavior.tab_bar_height"@, b.tab_bar_height, ONE, BAR_MAX)
}

fn check_effects(d: &mut ConfigDiagnostics, b: &BehaviorConfig)
    ensures
        final(d)@ == effect_check(old(d)@, *b),
{
    check_seconds(d, "behavior.particle_lifetime", b.particle_lifetime, b.particle_effects);
    check_seconds(d, "behavior.ripple_duration", b.ripple_duration, b.ripple_on_open);
    check_millis(d, "behavior.genie_duration_ms", b.genie_duration_ms, b.genie_minimize);
    check_millis(d, "behavior.focus_highlight_duration_ms", b.focus_highlight_duration_ms, b.focus_highlight);
    check_millis(d, "behavior.wallpaper_crossfade_duration_ms", b.wallpaper_crossfade_duration_ms, b.wallpaper_crossfade);
    check_tuned(d, "behavior.tilt_perspective", b.tilt_perspective, b.window_tilt, HUNDRED, TEN_THOUSAND);
    check_tuned(d, "behavior.tilt_speed", b.tilt_speed, b.window_tilt, TENTH, HUNDRED);
    check_tuned(d, "behavior.wobbly_stiffness", b.wobbly_stiffness, b.wobbly_windows, TENTH, TEN_THOUSAND);
    check_tuned(d, "behavior.wobbly_damping", b.wobbly_damping, b.wobbly_windows, TENTH, THOUSAND);
    check_tuned(d, "behavior.wobbly_restore_stiffness", b.wobbly_restore_stiffness, b.wobbly_windows, TENTH, TEN_THOUSAND);
    validate_f32_range(d, "behavior.tilt_amount", b.tilt_amount, ZERO, TILT_MAX);
    validate_f32_range(d, "behavior.ripple_amplitude", b.ripple_amplitude, ZERO, TENTH);
    validate_f32_range(d, "behavior.particle_gravity", b.particle_gravity, MINUS_TEN_THOUSAND, TEN_THOUSAND);
    validate_f32_range(d, "behavior.window_animation_scale", b.window_animation_scale, TENTH, TWO);
    validate_f32_range(d, "behavior.tab_bar_height", b.tab_bar_height, ONE, BAR_MAX);
}

/// An amount of work that will be clamped.
pub open spec fn work_check(d: Seq<IssueView>, path: Seq<char>, value: u32, max: u32) -> Seq<IssueView> {
    if value > max {
        d.push(
            hinted(
                warning(
                    path,
                    m4(
                        n(value as int),
                        t(" exceeds the supported maximum "),
                        n(max as int),
                        t(" and will be clamped"),
                    ),
                ),
                m2(t("use at most "), n(max as int)),
            ),
        )
    } else {
        d
    }
}

fn check_work(d: &mut ConfigDiagnostics, path: &str, value: u32, max: u32)
    ensures
        final(d)@ == work_check(old(d)@, path@, value, max),
{
    if value > max {
        d.warning_hint(
            path,
            Message::new().number(value as u64).text(" exceeds the supported maximum ").number(
                max as u64,
            ).text(" and will be clamped"),
            Message::new().text("use at most ").number(max as u64),
        );
    }
}

/// A grid with no subdivisions.
pub open spec fn grid_check(d: Seq<IssueView>, path: Seq<char>, value: u32) -> Seq<IssueView> {
    if value == 0 {
        d.push(
            hinted(
                warning(path, m1(t("zero subdivisions will be clamped to one"))),
                m1(t("use at least 1")),
            ),
        )
    } else {
        d
    }
}

fn check_grid(d: &mut ConfigDiagnostics, path: &str, value: u32)
    ensures
        final(d)@ == grid_check(old(d)@, path@, value),
{
    if value == 0 {
        d.warning_hint(
            path,
            Message::new().text("zero subdivisions will be clamped to one"),
            Message::new().text("use at least 1"),
        );
    }
}

/// Amounts of work per frame, and the swipe threshold where swipes are bound.
pub open spec fn workload_check(d: Seq<IssueView>, b: BehaviorConfig) -> Seq<IssueView> {
    let d = work_check(d, "behavior.tilt_grid"@, b.tilt_grid, 64);
    let d = work_check(d, "behavior.wobbly_grid_size"@, b.wobbly_grid_size, MAX_WOBBLY_SUBDIVISIONS);
    let d = work_check(d, "behavior.motion_trail_frames"@, b.motion_trail_frames, 64);
    let d = work_check(d, "behavior.particle_count"@, b.particle_count, 4096);
    let d = grid_check(d, "behavior.tilt_grid"@, b.tilt_grid);
    let d = grid_check(d, "behavior.wobbly_grid_size"@, b.wobbly_grid_size);
    if b.gesture_swipe@.len() == 0 {
        d
    } else {
        positive_double_check(
            d,
            "behavior.gesture_swipe_threshold"@,
            b.gesture_swipe_threshold,
        )
    }
}

fn check_workload(d: &mut ConfigDiagnostics, b: &BehaviorConfig)
    ensures
        final(d)@ == workload_check(old(d)@, *b),
{
    check_work(d, "behavior.tilt_grid", b.tilt_grid, 64);
    check_work(d, "behavior.wobbly_grid_size", b.wobbly_grid_size, MAX_WOBBLY_SUBDIVISIONS);
    check_work(d, "behavior.motion_trail_frames", b.motion_trail_frames, 64);
    check_work(d, "behavior.particle_count", b.particle_count, 4096);
    check_grid(d, "behavior.tilt_grid", b.tilt_grid);
    check_grid(d, "behavior.wobbly_grid_size", b.wobbly_grid_size);
    if b.gesture_swipe.len() != 0 {
        validate_positive_f64(d, "behavior.gesture_swipe_threshold", b.gesture_swipe_threshold);
    }
}

/// Colours.
pub open spec fn color_check(d: Seq<IssueView>, b: BehaviorConfig) -> Seq<IssueView> {
    let d = rgba_check(d, "behavior.shadow_color"@, b.shadow_color@);
    let d = rgba_check(d, "behavior.border_color_focused"@, b.border_color_focused@);
    let d = rgba_check(d, "behavior.border_color_unfocused"@, b.border_color_unfocused@);
    let d = rgba_check(d, "behavior.border_glow_color"@, b.border_glow_color@);
    let d = rgba_check(d, "behavior.edge_glow_color"@, b.edge_glow_color@);
    let d = rgba_check(d, "behavior.attention_color"@, b.attention_color@);
    let d = rgba_check(d, "behavior.pip_border_color"@, b.pip_border_color@);
    let d = rgba_check(d, "behavior.snap_preview_color"@, b.snap_preview_color@);
    let d = rgba_check(d, "behavior.focus_highlight_color"@, b.focus_highlight_color@);
    rgba_check(d, "behavior.annotation_color"@, b.annotation_color@)
}

fn check_colors(d: &mut ConfigDiagnostics, b: &BehaviorConfig)
    ensures
        final(d)@ == color_check(old(d)@, *b),
{
    validate_rgba(d, "behavior.shadow_color", &b.shadow_color);
    validate_rgba(d, "behavior.border_color_focused", &b.border_color_focused);
    validate_rgba(d, "behavior.border_color_unfocused", &b.border_color_unfocused);
    validate_rgba(d, "behavior.border_glow_color", &b.border_glow_color);
    validate_rgba(d, "behavior.edge_glow_color", &b.edge_glow_color);
    validate_rgba(d, "behavior.attention_color", &b.attention_color);
    validate_rgba(d, "behavior.pip_border_color", &b.pip_border_color);
    validate_rgba(d, "behavior.snap_preview_color", &b.snap_preview_color);
    validate_rgba(d, "behavior.focus_highlight_color", &b.focus_highlight_color);
    validate_rgba(d, "behavior.annotation_color", &b.annotation_color);
}

/// Blur, recording and variable refresh.
pub open spec fn recording_check(d: Seq<IssueView>, b: BehaviorConfig) -> Seq<IssueView> {
    let d = if b.blur_strength > 5 {
        d.push(
            warning(
                "behavior.blur_strength"@,
                m2(n(b.blur_strength as int), t(" exceeds the supported maximum 5")),
            ),
        )
    } else {
        d
    };
    let d = if b.recording_fps == 0 || b.recording_fps > 240 {
        d.push(
            hinted(
                warning(
                    "behavior.recording_fps"@,
                    m2(
                        n(b.recording_fps as int),
                        t(" is outside [1, 240] and will be clamped while recording"),
                    ),
                ),
                m1(t("use a value from 1 through 240")),
            ),
        )
    } else {
        d
    };
    let d = if b.recording_quality > 51 {
        d.push(
            warning(
                "behavior.recording_quality"@,
                m2(
                    n(b.recording_quality as int),
                    t(" is outside the encoder QP range [0, 51]"),
                ),
            ),
        )
    } else {
        d
    };
    let d = if b.audio_recording_sample_rate == 0 {
        d.push(
            hinted(
                warning(
                    "behavior.audio_recording_sample_rate"@,
                    m1(t("sample rate will be clamped when audio recording starts")),
                ),
                m1(t("48000 is a widely supported value")),
            ),
        )
    } else {
        d
    };
    let d = if b.audio_recording_channels == 1 || b.audio_recording_channels == 2 {
        d
    } else {
        d.push(
            hinted(
                warning(
                    "behavior.audio_recording_channels"@,
                    m2(
                        n(b.audio_recording_channels as int),
                        t(" is unsupported and will be clamped when audio recording starts"),
                    ),
                ),
                m1(t("use 1 or 2")),
            ),
        )
    };
    if b.vrr_enabled && (b.vrr_min_fps == 0 || b.vrr_max_fps < b.vrr_min_fps) {
        d.push(
            hinted(
                error(
                    "behavior.vrr_min_fps"@,
                    m4(
                        t("invalid VRR range "),
                        n(b.vrr_min_fps as int),
                        t(".."),
                        n(b.vrr_max_fps as int),
                    ),
                ),
                m1(t("minimum must be positive and no greater than maximum")),
            ),
        )
    } else {
        d
    }
}

fn check_recording(d: &mut ConfigDiagnostics, b: &BehaviorConfig)
    ensures
        final(d)@ == recording_check(old(d)@, *b),
{
    if b.blur_strength > 5 {
        d.warning(
            "behavior.blur_strength",
            Message::new().number(b.blur_strength as u64).text(" exceeds the supported maximum 5"),
        );
    }
    if b.recording_fps == 0 || b.recording_fps > 240 {
        d.warning_hint(
            "behavior.recording_fps",
            Message::new().number(b.recording_fps as u64).text(
                " is outside [1, 240] and will be clamped while recording",
            ),
            Message::new().text("use a value from 1 through 240"),
        );
    }
    if b.recording_quality > 51 {
        d.warning(
            "behavior.recording_quality",
            Message::new().number(b.recording_quality as u64).text(
                " is outside the encoder QP range [0, 51]",
            ),
        );
    }
    if b.audio_recording_sample_rate == 0 {
        d.warning_hint(
            "behavior.audio_recording_sample_rate",
            Message::new().text("sample rate will be clamped when audio recording starts"),
            Message::new().text("48000 is a widely supported value"),
        );
    }
    if b.audio_recording_channels != 1 && b.audio_recording_channels != 2 {
        d.warning_hint(
            "behavior.audio_recording_channels",
            Message::new().number(b.audio_recording_channels as u64).text(
                " is unsupported and will be clamped when audio recording starts",
            ),
            Message::new().text("use 1 or 2"),
        );
    }
    if b.vrr_enabled && (b.vrr_min_fps == 0 || b.vrr_max_fps < b.vrr_min_fps) {
        d.error_hint(
            "behavior.vrr_min_fps",
            Message::new().text("invalid VRR range ").number(b.vrr_min_fps as u64).text(
                "..",
            ).number(b.vrr_max_fps as u64),
            Message::new().text("minimum must be positive and no greater than maximum"),
        );
    }
}

/// Synchronisation methods.
pub open spec fn vsync_choices() -> Seq<&'static str> {
    seq!["global", "oml_sync_control", "present"]
}

fn list_vsync_choices() -> (r: Vec<&'static str>)
    ensures
        r@ == vsync_choices(),
{
    let choices = vec!["global", "oml_sync_control", "present"];
    assert(choices@ == vsync_choices());
    choices
}

/// Tone mappings.
pub open spec fn tone_mapping_choices() -> Seq<&'static str> {
    seq!["none", "reinhard", "aces"]
}

fn list_tone_mapping_choices() -> (r: Vec<&'static str>)
    ensures
        r@ == tone_mapping_choices(),
{
    let choices = vec!["none", "reinhard", "aces"];
    assert(choices@ == tone_mapping_choices());
    choices
}

/// Workspace transitions.
pub open spec fn transition_choices() -> Seq<&'static str> {
    seq!["none", "slide", "cube", "fade", "flip", "zoom", "stack", "blinds", "coverflow", "helix", "portal"]
}

fn list_transition_choices() -> (r: Vec<&'static str>)
    ensures
        r@ == transition_choices(),
{
    let choices = vec!["none", "slide", "cube", "fade", "flip", "zoom", "stack", "blinds", "coverflow", "helix", "portal"];
    assert(choices@ == transition_choices());
    choices
}

/// Ways to fit a wallpaper.
pub open spec fn wallpaper_modes() -> Seq<&'static str> {
    seq!["fill", "fit", "stretch", "center"]
}

fn list_wallpaper_modes() -> (r: Vec<&'static str>)
    ensures
        r@ == wallpaper_modes(),
{
    let choices = vec!["fill", "fit", "stretch", "center"];
    assert(choices@ == wallpaper_modes());
    choices
}

/// Colour corrections; the empty text is none.
pub open spec fn colorblind_choices() -> Seq<&'static str> {
    seq!["", "deuteranopia", "protanopia", "tritanopia"]
}

fn list_colorblind_choices() -> (r: Vec<&'static str>)
    ensures
        r@ == colorblind_choices(),
{
    let choices = vec!["", "deuteranopia", "protanopia", "tritanopia"];
    assert(choices@ == colorblind_choices());
    choices
}

/// Video encoders.
pub open spec fn encoder_choices() -> Seq<&'static str> {
    seq!["auto", "nvenc", "vaapi", "software"]
}

fn list_encoder_choices() -> (r: Vec<&'static str>)
    ensures
        r@ == encoder_choices(),
{
    let choices = vec!["auto", "nvenc", "vaapi", "software"];
    assert(choices@ == encoder_choices());
    choices
}

/// Audio recorders.
pub open spec fn audio_backend_choices() -> Seq<&'static str> {
    seq!["auto", "direct", "ffmpeg"]
}

fn list_audio_backend_choices() -> (r: Vec<&'static str>)
    ensures
        r@ == audio_backend_choices(),
{
    let choices = vec!["auto", "direct", "ffmpeg"];
    assert(choices@ == audio_backend_choices());
    choices
}

/// Audio formats.
pub open spec fn audio_format_choices() -> Seq<&'static str> {
    seq!["wav", "flac", "opus", "mp3"]
}

fn list_audio_format_choices() -> (r: Vec<&'static str>)
    ensures
        r@ == audio_format_choices(),
{
    let choices = vec!["wav", "flac", "opus", "mp3"];
    assert(choices@ == audio_format_choices());
    choices
}

/// Easing curves.
pub open spec fn easing_choices() -> Seq<&'static str> {
    seq!["linear", "ease-in", "ease-out", "ease-in-out", "bounce", "elastic"]
}

fn list_easing_choices() -> (r: Vec<&'static str>)
    ensures
        r@ == easing_choices(),
{
    let choices = vec!["linear", "ease-in", "ease-out", "ease-in-out", "bounce", "elastic"];
    assert(choices@ == easing_choices());
    choices
}

/// Animation speeds.
pub open spec fn speed_choices() -> Seq<&'static str> {
    seq!["slow", "normal", "fast", "instant"]
}

fn list_speed_choices() -> (r: Vec<&'static str>)
    ensures
        r@ == speed_choices(),
{
    let choices = vec!["slow", "normal", "fast", "instant"];
    assert(choices@ == speed_choices());
    choices
}

/// Swipe directions.
pub open spec fn direction_choices() -> Seq<&'static str> {
    seq!["left", "right", "up", "down"]
}

fn list_direction_choices() -> (r: Vec<&'static str>)
    ensures
        r@ == direction_choices(),
{
    let choices = vec!["left", "right", "up", "down"];
    assert(choices@ == direction_choices());
    choices
}

/// Values from a list of choices, and times of day.
pub open spec fn choices_check(d: Seq<IssueView>, c: TomlConfig) -> Seq<IssueView> {
    let d = choice_check(d, "behavior.vsync_method"@, c.behavior.vsync_method@, vsync_choices());
    let d = choice_check(d, "behavior.tone_mapping_method"@, c.behavior.tone_mapping_method@, tone_mapping_choices());
    let d = choice_check(d, "behavior.transition_mode"@, c.behavior.transition_mode@, transition_choices());
    let d = choice_check_ignoring_case(d, "behavior.wallpaper_mode"@, c.behavior.wallpaper_mode@, wallpaper_modes());
    let d = choice_check(d, "behavior.colorblind_mode"@, c.behavior.colorblind_mode@, colorblind_choices());
    let d = choice_check(d, "behavior.recording_encoder"@, c.behavior.recording_encoder@, encoder_choices());
    let d = choice_check(d, "behavior.audio_recording_backend"@, c.behavior.audio_recording_backend@, audio_backend_choices());
    let d = choice_check(d, "behavior.audio_recording_format"@, c.behavior.audio_recording_format@, audio_format_choices());
    let d = choice_check(d, "animation.easing"@, c.animation.easing@, easing_choices());
    let d = choice_check(d, "animation.speed"@, c.animation.speed@, speed_choices());
    let d = time_check(d, "behavior.night_light_start"@, c.behavior.night_light_start@);
    time_check(d, "behavior.night_light_end"@, c.behavior.night_light_end@)
}

fn check_choices(d: &mut ConfigDiagnostics, c: &TomlConfig)
    ensures
        final(d)@ == choices_check(old(d)@, *c),
{
    validate_choice(d, "behavior.vsync_method", c.behavior.vsync_method.as_str(), list_vsync_choices().as_slice());
    validate_choice(d, "behavior.tone_mapping_method", c.behavior.tone_mapping_method.as_str(), list_tone_mapping_choices().as_slice());
    validate_choice(d, "behavior.transition_mode", c.behavior.transition_mode.as_str(), list_transition_choices().as_slice());
    validate_choice_ignore_ascii_case(d, "behavior.wallpaper_mode", c.behavior.wallpaper_mode.as_str(), list_wallpaper_modes().as_slice());
    validate_choice(d, "behavior.colorblind_mode", c.behavior.colorblind_mode.as_str(), list_colorblind_choices().as_slice());
    validate_choice(d, "behavior.recording_encoder", c.behavior.recording_encoder.as_str(), list_encoder_choices().as_slice());
    validate_choice(d, "behavior.audio_recording_backend", c.behavior.audio_recording_backend.as_str(), list_audio_backend_choices().as_slice());
    validate_choice(d, "behavior.audio_recording_format", c.behavior.audio_recording_format.as_str(), list_audio_format_choices().as_slice());
    validate_choice(d, "animation.easing", c.animation.easing.as_str(), list_easing_choices().as_slice());
    validate_choice(d, "animation.speed", c.animation.speed.as_str(), list_speed_choices().as_slice());
    validate_time(d, "behavior.night_light_start", c.behavior.night_light_start.as_str());
    validate_time(d, "behavior.night_light_end", c.behavior.night_light_end.as_str());
}

/// The status bar names an executable, and the modifier key is known.
pub open spec fn name_check(d: Seq<IssueView>, c: TomlConfig) -> Seq<IssueView> {
    let d = if c.status_bar.show_bar && trimmed(c.status_bar.name@).len() == 0 {
        d.push(
            hinted(
                warning(
                    "status_bar.name"@,
                    m1(t("status bar is enabled but its executable name is empty")),
                ),
                m1(t("set status_bar.show_bar=false or provide an executable")),
            ),
        )
    } else {
        d
    };
    modifiers_check(d, "keybindings.modkey"@, seq![c.keybindings.modkey], 1)
}

fn check_names(d: &mut ConfigDiagnostics, c: &TomlConfig)
    ensures
        final(d)@ == name_check(old(d)@, *c),
{
    if c.status_bar.show_bar && trim(c.status_bar.name.as_str()).as_str().is_empty() {
        d.warning_hint(
            "status_bar.name",
            Message::new().text("status bar is enabled but its executable name is empty"),
            Message::new().text("set status_bar.show_bar=false or provide an executable"),
        );
    }
    let modkey: Vec<String> = vec![c.keybindings.modkey.clone()];
    assert(modkey@ == seq![c.keybindings.modkey]);
    validate_modifiers(d, "keybindings.modkey", modkey.as_slice());
}

/// The chord of an entry.
pub open spec fn entry_chord(k: KeyConfig) -> Seq<char> {
    chord_text(k.modifier@, k.key@)
}

/// The latest of the first `count` entries that is on this chord.
pub open spec fn latest_on(keys: Seq<KeyConfig>, chord: Seq<char>, count: int) -> Option<int>
    decreases count,
{
    if count <= 0 {
        None
    } else if entry_chord(keys[count - 1]) == chord {
        Some(count - 1)
    } else {
        latest_on(keys, chord, count - 1)
    }
}

fn find_latest_on(keys: &Vec<KeyConfig>, chord: &str, count: usize) -> (r: Option<usize>)
    requires
        count <= keys@.len(),
    ensures
        match r {
            Some(i) => i < count && latest_on(keys@, chord@, count as int) == Some(i as int),
            None => latest_on(keys@, chord@, count as int) is None,
        },
{
    let mut i: usize = count;
    while i > 0
        invariant
            i <= count <= keys@.len(),
            latest_on(keys@, chord@, count as int) == latest_on(keys@, chord@, i as int),
        decreases i,
    {
        let own = canonical_chord(keys[i - 1].modifier.as_slice(), keys[i - 1].key.as_str());
        if str_eq(own.as_str(), chord) {
            return Some(i - 1);
        }
        i -= 1;
    }
    None
}

/// One key entry: its own checks, and whether its chord was already assigned.
pub open spec fn key_check(d: Seq<IssueView>, keys: Seq<KeyConfig>, i: int) -> Seq<IssueView> {
    let path = indexed("keybindings.keys"@, i);
    let d = binding_check(d, path, keys[i]);
    let chord = entry_chord(keys[i]);
    match latest_on(keys, chord, i) {
        Some(p) => d.push(
            hinted(
                warning(
                    path,
                    m9(
                        t("shortcut "),
                        w(chord),
                        t(" is already assigned to "),
                        q(keys[p].function@),
                        t(" at keybindings.keys["),
                        n(p),
                        t("]; "),
                        q(keys[i].function@),
                        t(" is unreachable"),
                    ),
                ),
                m1(t("assign a unique modifier/key combination")),
            ),
        ),
        None => d,
    }
}

/// The first `count` key entries.
pub open spec fn keys_check(d: Seq<IssueView>, keys: Seq<KeyConfig>, count: int) -> Seq<IssueView>
    decreases count,
{
    if count <= 0 {
        d
    } else {
        key_check(keys_check(d, keys, count - 1), keys, count - 1)
    }
}

fn check_key(d: &mut ConfigDiagnostics, keys: &Vec<KeyConfig>, i: usize)
    requires
        i < keys@.len(),
    ensures
        final(d)@ == key_check(old(d)@, keys@, i as int),
{
    let path = at_index("keybindings.keys", i);
    validate_binding(d, path.as_str(), &keys[i]);
    let chord = canonical_chord(keys[i].modifier.as_slice(), keys[i].key.as_str());
    if let Some(p) = find_latest_on(keys, chord.as_str(), i) {
        d.warning_hint(
            path.as_str(),
            Message::new().text("shortcut ").text(chord.as_str()).text(
                " is already assigned to ",
            ).quoted(keys[p].function.as_str()).text(" at keybindings.keys[").number(
                p as u64,
            ).text("]; ").quoted(keys[i].function.as_str()).text(" is unreachable"),
            Message::new().text("assign a unique modifier/key combination"),
        );
    }
}

fn check_keys(d: &mut ConfigDiagnostics, keys: &Vec<KeyConfig>)
    ensures
        final(d)@ == keys_check(old(d)@, keys@, keys@.len() as int),
{
    let ghost start = d@;
    let mut i: usize = 0;
    while i < keys.len()
        invariant
            i <= keys@.len(),
            d@ == keys_check(start, keys@, i as int),
        decreases keys@.len() - i,
    {
        check_key(d, keys, i);
        i += 1;
    }
}

/// One second key of a two-step shortcut.
pub open spec fn sequence_check(d: Seq<IssueView>, keys: Seq<KeyConfig>, i: int) -> Seq<IssueView> {
    let path = indexed("keybindings.chord.bindings"@, i);
    let d = binding_check(d, path, keys[i]);
    let chord = entry_chord(keys[i]);
    match latest_on(keys, chord, i) {
        Some(p) => d.push(
            warning(
                path,
                m5(
                    t("sequence key "),
                    w(chord),
                    t(" duplicates keybindings.chord.bindings["),
                    n(p),
                    t("]"),
                ),
            ),
        ),
        None => d,
    }
}

/// The first `count` second keys.
pub open spec fn sequences_check(
    d: Seq<IssueView>,
    keys: Seq<KeyConfig>,
    count: int,
) -> Seq<IssueView>
    decreases count,
{
    if count <= 0 {
        d
    } else {
        sequence_check(sequences_check(d, keys, count - 1), keys, count - 1)
    }
}

fn check_sequences(d: &mut ConfigDiagnostics, keys: &Vec<KeyConfig>)
    ensures
        final(d)@ == sequences_check(old(d)@, keys@, keys@.len() as int),
{
    let ghost start = d@;
    let mut i: usize = 0;
    while i < keys.len()
        invariant
            i <= keys@.len(),
            d@ == sequences_check(start, keys@, i as int),
        decreases keys@.len() - i,
    {
        let path = at_index("keybindings.chord.bindings", i);
        validate_binding(d, path.as_str(), &keys[i]);
        let chord = canonical_chord(keys[i].modifier.as_slice(), keys[i].key.as_str());
        if let Some(p) = find_latest_on(keys, chord.as_str(), i) {
            d.warning(
                path.as_str(),
                Message::new().text("sequence key ").text(chord.as_str()).text(
                    " duplicates keybindings.chord.bindings[",
                ).number(p as u64).text("]"),
            );
        }
        i += 1;
    }
}

/// The two-step shortcuts, where a leader key enables them.
pub open spec fn chord_check(
    d: Seq<IssueView>,
    keys: Seq<KeyConfig>,
    c: ChordConfig,
) -> Seq<IssueView> {
    if c.leader_key@.len() == 0 {
        d
    } else {
        let d = modifiers_check(
            d,
            "keybindings.chord.leader_modifier"@,
            c.leader_modifier@,
            c.leader_modifier@.len() as int,
        );
        let d = if keysym_named(c.leader_key@) is None {
            d.push(
                warning(
                    "keybindings.chord.leader_key"@,
                    m2(t("unknown key "), q(c.leader_key@)),
                ),
            )
        } else {
            d
        };
        let d = if c.timeout_ms < 100 {
            d.push(
                hinted(
                    warning(
                        "keybindings.chord.timeout_ms"@,
                        m2(n(c.timeout_ms as int), t("ms is too short for reliable input")),
                    ),
                    m1(t("use at least 100ms")),
                ),
            )
        } else {
            d
        };
        let leader = chord_text(c.leader_modifier@, c.leader_key@);
        let d = match latest_on(keys, leader, keys.len() as int) {
            Some(p) => d.push(
                warning(
                    "keybindings.chord.leader_key"@,
                    m7(
                        t("chord leader "),
                        w(leader),
                        t(" shadows "),
                        q(keys[p].function@),
                        t(" at keybindings.keys["),
                        n(p),
                        t("]"),
                    ),
                ),
            ),
            None => d,
        };
        sequences_check(d, c.bindings@, c.bindings@.len() as int)
    }
}

fn check_chord(d: &mut ConfigDiagnostics, keys: &Vec<KeyConfig>, c: &ChordConfig)
    ensures
        final(d)@ == chord_check(old(d)@, keys@, *c),
{
    if c.leader_key.as_str().is_empty() {
        return;
    }
    validate_modifiers(d, "keybindings.chord.leader_modifier", c.leader_modifier.as_slice());
    let key = c.leader_key.as_str();
    if keysym_by_name(key).is_none() {
        d.warning(
            "keybindings.chord.leader_key",
            Message::new().text("unknown key ").quoted(key),
        );
    }
    if c.timeout_ms < 100 {
        d.warning_hint(
            "keybindings.chord.timeout_ms",
            Message::new().number(c.timeout_ms).text("ms is too short for reliable input"),
            Message::new().text("use at least 100ms"),
        );
    }
    let leader = canonical_chord(c.leader_modifier.as_slice(), key);
    if let Some(p) = find_latest_on(keys, leader.as_str(), keys.len()) {
        d.warning(
            "keybindings.chord.leader_key",
            Message::new().text("chord leader ").text(leader.as_str()).text(" shadows ").quoted(
                keys[p].function.as_str(),
            ).text(" at keybindings.keys[").number(p as u64).text("]"),
        );
    }
    check_sequences(d, &c.bindings);
}

/// One mouse binding.
pub open spec fn button_check(d: Seq<IssueView>, b: ButtonConfig, i: int) -> Seq<IssueView> {
    let path = indexed("mouse_bindings.buttons"@, i);
    let d = modifiers_check(d, path + ".modifier"@, b.modifier@, b.modifier@.len() as int);
    let d = if click_named(b.click_type@) is None {
        d.push(
            warning(
                path + ".click_type"@,
                m2(t("unknown click target "), q(b.click_type@)),
            ),
        )
    } else {
        d
    };
    let d = if 1 <= b.button <= 5 {
        d
    } else {
        d.push(
            hinted(
                warning(
                    path + ".button"@,
                    m2(t("unsupported mouse button "), n(b.button as int)),
                ),
                m1(t("use a button number from 1 through 5")),
            ),
        )
    };
    if function_named(b.function@) is None {
        d.push(warning(path + ".function"@, m2(t("unknown function "), q(b.function@))))
    } else {
        d
    }
}

/// The first `count` mouse bindings.
pub open spec fn buttons_check(
    d: Seq<IssueView>,
    buttons: Seq<ButtonConfig>,
    count: int,
) -> Seq<IssueView>
    decreases count,
{
    if count <= 0 {
        d
    } else {
        button_check(buttons_check(d, buttons, count - 1), buttons[count - 1], count - 1)
    }
}

fn check_button(d: &mut ConfigDiagnostics, b: &ButtonConfig, i: usize)
    ensures
        final(d)@ == button_check(old(d)@, *b, i as int),
{
    let path = at_index("mouse_bindings.buttons", i);
    let path = path.as_str();
    validate_modifiers(d, below(path, ".modifier").as_str(), b.modifier.as_slice());
    if parse_click_type(b.click_type.as_str()).is_none() {
        d.warning(
            below(path, ".click_type").as_str(),
            Message::new().text("unknown click target ").quoted(b.click_type.as_str()),
        );
    }
    if b.button < 1 || b.button > 5 {
        d.warning_hint(
            below(path, ".button").as_str(),
            Message::new().text("unsupported mouse button ").number(b.button as u64),
            Message::new().text("use a button number from 1 through 5"),
        );
    }
    if function_by_name(b.function.as_str()).is_none() {
        d.warning(
            below(path, ".function").as_str(),
            Message::new().text("unknown function ").quoted(b.function.as_str()),
        );
    }
}

fn check_buttons(d: &mut ConfigDiagnostics, buttons: &Vec<ButtonConfig>)
    ensures
        final(d)@ == buttons_check(old(d)@, buttons@, buttons@.len() as int),
{
    let ghost start = d@;
    let mut i: usize = 0;
    while i < buttons.len()
        invariant
            i <= buttons@.len(),
            d@ == buttons_check(start, buttons@, i as int),
        decreases buttons@.len() - i,
    {
        check_button(d, &buttons[i], i);
        i += 1;
    }
}

/// Whether a tag mask names a tag beyond a count that a mask can hold.
pub open spec fn beyond_tags(mask: usize, tags: usize) -> bool {
    1 <= tags <= 31 && mask >= pow2(tags as nat)
}

fn is_beyond_tags(mask: usize, tags: usize) -> (r: bool)
    ensures
        r == beyond_tags(mask, tags),
{
    if tags < 1 || tags > 31 {
        return false;
    }
    let limit: u64 = 1u64 << (tags as u64);
    proof {
        vstd::arithmetic::power2::lemma2_to64();
        vstd::arithmetic::power2::lemma_pow2_strictly_increases(tags as nat, 32);
        vstd::bits::lemma_u64_shl_is_mul(1, tags as u64);
    }
    mask as u64 >= limit
}

/// A monitor index is -1 or at least zero.
pub open spec fn monitor_check(d: Seq<IssueView>, path: Seq<char>, monitor: i32) -> Seq<IssueView> {
    if monitor < -1 {
        d.push(
            warning(
                path,
                m2(n(monitor as int), t(" must be -1 or a non-negative index")),
            ),
        )
    } else {
        d
    }
}

fn check_monitor(d: &mut ConfigDiagnostics, path: &str, monitor: i32)
    ensures
        final(d)@ == monitor_check(old(d)@, path@, monitor),
{
    if monitor < -1 {
        d.warning(
            path,
            Message::new().signed(monitor as i64).text(" must be -1 or a non-negative index"),
        );
    }
}

/// One placement rule.
pub open spec fn rule_check(
    d: Seq<IssueView>,
    tags: usize,
    rule: RuleConfig,
    i: int,
) -> Seq<IssueView> {
    let path = indexed("rules"@, i);
    let d = if beyond_tags(rule.tags, tags) {
        d.push(
            warning(
                path + ".tags"@,
                m4(
                    t("mask 0x"),
                    w(numeral(rule.tags as nat, 16)),
                    t(" references tags beyond tags_length="),
                    n(tags as int),
                ),
            ),
        )
    } else {
        d
    };
    monitor_check(d, path + ".monitor"@, rule.monitor)
}

/// The first `count` placement rules.
pub open spec fn rules_check(
    d: Seq<IssueView>,
    tags: usize,
    rules: Seq<RuleConfig>,
    count: int,
) -> Seq<IssueView>
    decreases count,
{
    if count <= 0 {
        d
    } else {
        rule_check(rules_check(d, tags, rules, count - 1), tags, rules[count - 1], count - 1)
    }
}

fn check_rules(d: &mut ConfigDiagnostics, tags: usize, rules: &Vec<RuleConfig>)
    ensures
        final(d)@ == rules_check(old(d)@, tags, rules@, rules@.len() as int),
{
    let ghost start = d@;
    let mut i: usize = 0;
    while i < rules.len()
        invariant
            i <= rules@.len(),
            d@ == rules_check(start, tags, rules@, i as int),
        decreases rules@.len() - i,
    {
        let path = at_index("rules", i);
        let rule = &rules[i];
        if is_beyond_tags(rule.tags, tags) {
            d.warning(
                below(path.as_str(), ".tags").as_str(),
                Message::new().text("mask 0x").hex(rule.tags as u64).text(
                    " references tags beyond tags_length=",
                ).number(tags as u64),
            );
        }
        check_monitor(d, below(path.as_str(), ".monitor").as_str(), rule.monitor);
        i += 1;
    }
}

/// A wallpaper mode, where one is stated.
pub open spec fn mode_check(d: Seq<IssueView>, path: Seq<char>, mode: Seq<char>) -> Seq<IssueView> {
    if mode.len() == 0 {
        d
    } else {
        choice_check_ignoring_case(d, path + ".mode"@, mode, wallpaper_modes())
    }
}

fn check_mode(d: &mut ConfigDiagnostics, path: &str, mode: &str)
    ensures
        final(d)@ == mode_check(old(d)@, path@, mode@),
{
    if !mode.is_empty() {
        validate_choice_ignore_ascii_case(
            d,
            below(path, ".mode").as_str(),
            mode,
            list_wallpaper_modes().as_slice(),
        );
    }
}

/// One wallpaper of a tag.
pub open spec fn tag_wallpaper_check(
    d: Seq<IssueView>,
    tags: usize,
    wallpaper: WallpaperTagConfig,
    i: int,
) -> Seq<IssueView> {
    let path = indexed("behavior.wallpaper_tags"@, i);
    let d = if wallpaper.tag >= tags {
        d.push(
            warning(
                path + ".tag"@,
                m3(
                    n(wallpaper.tag as int),
                    t(" is outside tags_length="),
                    n(tags as int),
                ),
            ),
        )
    } else {
        d
    };
    let d = monitor_check(d, path + ".monitor"@, wallpaper.monitor);
    mode_check(d, path, wallpaper.mode@)
}

/// The first `count` wallpapers of tags.
pub open spec fn tag_wallpapers_check(
    d: Seq<IssueView>,
    tags: usize,
    all: Seq<WallpaperTagConfig>,
    count: int,
) -> Seq<IssueView>
    decreases count,
{
    if count <= 0 {
        d
    } else {
        tag_wallpaper_check(
            tag_wallpapers_check(d, tags, all, count - 1),
            tags,
            all[count - 1],
            count - 1,
        )
    }
}

fn check_tag_wallpapers(d: &mut ConfigDiagnostics, tags: usize, all: &Vec<WallpaperTagConfig>)
    ensures
        final(d)@ == tag_wallpapers_check(old(d)@, tags, all@, all@.len() as int),
{
    let ghost start = d@;
    let mut i: usize = 0;
    while i < all.len()
        invariant
            i <= all@.len(),
            d@ == tag_wallpapers_check(start, tags, all@, i as int),
        decreases all@.len() - i,
    {
        let path = at_index("behavior.wallpaper_tags", i);
        let wallpaper = &all[i];
        if wallpaper.tag as u64 >= tags as u64 {
            d.warning(
                below(path.as_str(), ".tag").as_str(),
                Message::new().number(wallpaper.tag as u64).text(
                    " is outside tags_length=",
                ).number(tags as u64),
            );
        }
        check_monitor(d, below(path.as_str(), ".monitor").as_str(), wallpaper.monitor);
        check_mode(d, path.as_str(), wallpaper.mode.as_str());
        i += 1;
    }
}

/// The first `count` wallpapers of monitors.
pub open spec fn monitor_wallpapers_check(
    d: Seq<IssueView>,
    all: Seq<WallpaperMonitorConfig>,
    count: int,
) -> Seq<IssueView>
    decreases count,
{
    if count <= 0 {
        d
    } else {
        mode_check(
            monitor_wallpapers_check(d, all, count - 1),
            indexed("behavior.wallpaper_monitors"@, count - 1),
            all[count - 1].mode@,
        )
    }
}

fn check_monitor_wallpapers(d: &mut ConfigDiagnostics, all: &Vec<WallpaperMonitorConfig>)
    ensures
        final(d)@ == monitor_wallpapers_check(old(d)@, all@, all@.len() as int),
{
    let ghost start = d@;
    let mut i: usize = 0;
    while i < all.len()
        invariant
            i <= all@.len(),
            d@ == monitor_wallpapers_check(start, all@, i as int),
        decreases all@.len() - i,
    {
        let path = at_index("behavior.wallpaper_monitors", i);
        check_mode(d, path.as_str(), all[i].mode.as_str());
        i += 1;
    }
}

/// Whether the `i`-th width factor was read and is finite and positive.
pub open spec fn usable_factor(factors: Seq<Option<F32>>, i: int) -> bool {
    0 <= i < factors.len() && match factors[i] {
        Some(factor) => positive(factor),
        None => false,
    }
}

/// One column-width rule, `factor:pattern`; `factors` holds what the texts in
/// front of the colons read as.
pub open spec fn width_rule_check(
    d: Seq<IssueView>,
    rule: Seq<char>,
    factors: Seq<Option<F32>>,
    i: int,
) -> Seq<IssueView> {
    let path = indexed("behavior.scrolling_column_width_rules"@, i);
    match split_at_first(rule, ':') {
        None => d.push(
            warning(path, m3(t("rule "), q(rule), t(" must use factor:pattern syntax"))),
        ),
        Some((_, pattern)) => {
            let d = if usable_factor(factors, i) {
                d
            } else {
                d.push(
                    warning(path, m3(t("rule "), q(rule), t(" has an invalid width factor"))),
                )
            };
            if trimmed(pattern).len() == 0 {
                d.push(warning(path, m3(t("rule "), q(rule), t(" has an empty pattern"))))
            } else {
                d
            }
        },
    }
}

/// The first `count` column-width rules.
pub open spec fn width_rules_check(
    d: Seq<IssueView>,
    rules: Seq<String>,
    factors: Seq<Option<F32>>,
    count: int,
) -> Seq<IssueView>
    decreases count,
{
    if count <= 0 {
        d
    } else {
        width_rule_check(
            width_rules_check(d, rules, factors, count - 1),
            rules[count - 1]@,
            factors,
            count - 1,
        )
    }
}

fn check_width_rules(d: &mut ConfigDiagnostics, rules: &Vec<String>, factors: &Vec<Option<F32>>)
    ensures
        final(d)@ == width_rules_check(old(d)@, rules@, factors@, rules@.len() as int),
{
    let ghost start = d@;
    let mut i: usize = 0;
    while i < rules.len()
        invariant
            i <= rules@.len(),
            d@ == width_rules_check(start, rules@, factors@, i as int),
        decreases rules@.len() - i,
    {
        let path = at_index("behavior.scrolling_column_width_rules", i);
        let path = path.as_str();
        let rule = rules[i].as_str();
        match split_once(rule, ':') {
            None => {
                d.warning(
                    path,
                    Message::new().text("rule ").quoted(rule).text(
                        " must use factor:pattern syntax",
                    ),
                );
            },
            Some((_, pattern)) => {
                let usable = i < factors.len() && match factors[i] {
                    Some(factor) => is_positive(factor),
                    None => false,
                };
                if !usable {
                    d.warning(
                        path,
                        Message::new().text("rule ").quoted(rule).text(
                            " has an invalid width factor",
                        ),
                    );
                }
                if trim(pattern.as_str()).as_str().is_empty() {
                    d.warning(
                        path,
                        Message::new().text("rule ").quoted(rule).text(" has an empty pattern"),
                    );
                }
            },
        }
        i += 1;
    }
}

/// One swipe binding.
pub open spec fn gesture_check(
    d: Seq<IssueView>,
    g: GestureSwipeConfig,
    i: int,
) -> Seq<IssueView> {
    let path = indexed("behavior.gesture_swipe"@, i);
    let d = if 3 <= g.fingers <= 5 {
        d
    } else {
        d.push(
            warning(
                path + ".fingers"@,
                m2(n(g.fingers as int), t(" is outside the supported range [3, 5]")),
            ),
        )
    };
    let d = choice_check_ignoring_case(
        d,
        path + ".direction"@,
        g.direction@,
        direction_choices(),
    );
    if trimmed(g.function@).len() == 0 {
        d.push(
            warning(
                path + ".function"@,
                m1(t("gesture function is empty and will be ignored")),
            ),
        )
    } else if command_named(g.function@) is None {
        d.push(
            warning(
                path + ".function"@,
                m3(
                    t("unknown IPC command "),
                    q(g.function@),
                    t("; this gesture will be ignored"),
                ),
            ),
        )
    } else {
        d
    }
}

/// The first `count` swipe bindings.
pub open spec fn gestures_check(
    d: Seq<IssueView>,
    all: Seq<GestureSwipeConfig>,
    count: int,
) -> Seq<IssueView>
    decreases count,
{
    if count <= 0 {
        d
    } else {
        gesture_check(gestures_check(d, all, count - 1), all[count - 1], count - 1)
    }
}

fn check_gestures(d: &mut ConfigDiagnostics, all: &Vec<GestureSwipeConfig>)
    ensures
        final(d)@ == gestures_check(old(d)@, all@, all@.len() as int),
{
    let ghost start = d@;
    let mut i: usize = 0;
    while i < all.len()
        invariant
            i <= all@.len(),
            d@ == gestures_check(start, all@, i as int),
        decreases all@.len() - i,
    {
        let path = at_index("behavior.gesture_swipe", i);
        let path = path.as_str();
        let g = &all[i];
        if g.fingers < 3 || g.fingers > 5 {
            d.warning(
                below(path, ".fingers").as_str(),
                Message::new().number(g.fingers as u64).text(
                    " is outside the supported range [3, 5]",
                ),
            );
        }
        validate_choice_ignore_ascii_case(
            d,
            below(path, ".direction").as_str(),
            g.direction.as_str(),
            list_direction_choices().as_slice(),
        );
        let function = g.function.as_str();
        if trim(function).as_str().is_empty() {
            d.warning(
                below(path, ".function").as_str(),
                Message::new().text("gesture function is empty and will be ignored"),
            );
        } else if !is_known_command(function) {
            d.warning(
                below(path, ".function").as_str(),
                Message::new().text("unknown IPC command ").quoted(function).text(
                    "; this gesture will be ignored",
                ),
            );
        }
        i += 1;
    }
}

/// The text in front of the colon of a column-width rule, without surrounding
/// white space.
pub open spec fn factor_text(rule: Seq<char>) -> Option<Seq<char>> {
    match split_at_first(rule, ':') {
        Some((factor, _)) => Some(trimmed(factor)),
        None => None,
    }
}

impl Config {
    /// Every issue of the configuration, in the order of the checks.
    pub open spec fn all_issues(self, factors: Seq<Option<F32>>) -> Seq<IssueView> {
        let c = self.inner;
        let b = c.behavior;
        let d = layout_check(Seq::empty(), c);
        let d = border_check(d, c.appearance.border_px);
        let d = gap_check(d, c.appearance.gap_px);
        let d = bar_check(d, c);
        let d = strength_check(d, b);
        let d = size_check(d, b);
        let d = effect_check(d, b);
        let d = workload_check(d, b);
        let d = color_check(d, b);
        let d = recording_check(d, b);
        let d = choices_check(d, c);
        let d = name_check(d, c);
        let keys = c.keybindings.keys@;
        let d = keys_check(d, keys, keys.len() as int);
        let d = chord_check(d, keys, c.keybindings.chord);
        let buttons = c.mouse_bindings.buttons@;
        let d = buttons_check(d, buttons, buttons.len() as int);
        let tags = c.layout.tags_length;
        let d = rules_check(d, tags, c.rules@, c.rules@.len() as int);
        let d = tag_wallpapers_check(d, tags, b.wallpaper_tags@, b.wallpaper_tags@.len() as int);
        let d = monitor_wallpapers_check(
            d,
            b.wallpaper_monitors@,
            b.wallpaper_monitors@.len() as int,
        );
        let rules = b.scrolling_column_width_rules@;
        let d = width_rules_check(d, rules, factors, rules.len() as int);
        gestures_check(d, b.gesture_swipe@, b.gesture_swipe@.len() as int)
    }

    /// The texts to read as width factors, one for each column-width rule;
    /// `None` for a rule without a colon.
    pub fn width_factor_texts(&self) -> (r: Vec<Option<String>>)
        ensures
            r@.len() == self.inner.behavior.scrolling_column_width_rules@.len(),
            forall|i: int|
                #![trigger r@[i]]
                0 <= i < r@.len() ==> match r@[i] {
                    Some(s) => factor_text(
                        self.inner.behavior.scrolling_column_width_rules@[i]@,
                    ) == Some(s@),
                    None => factor_text(
                        self.inner.behavior.scrolling_column_width_rules@[i]@,
                    ) is None,
                },
    {
        let rules = &self.inner.behavior.scrolling_column_width_rules;
        let mut texts: Vec<Option<String>> = Vec::new();
        let mut i: usize = 0;
        while i < rules.len()
            invariant
                i <= rules@.len(),
                texts@.len() == i,
                forall|k: int|
                    #![trigger texts@[k]]
                    0 <= k < i ==> match texts@[k] {
                        Some(s) => factor_text(rules@[k]@) == Some(s@),
                        None => factor_text(rules@[k]@) is None,
                    },
            decreases rules@.len() - i,
        {
            match split_once(rules[i].as_str(), ':') {
                Some((factor, _)) => texts.push(Some(trim(factor.as_str()))),
                None => texts.push(None),
            }
            i += 1;
        }
        texts
    }

    /// Every issue of the configuration. `factors` holds, for each
    /// column-width rule, what its text in front of the colon reads as.
    pub fn diagnostics(&self, factors: &Vec<Option<F32>>) -> (r: ConfigDiagnostics)
        ensures
            r@ == self.all_issues(factors@),
    {
        let c = &self.inner;
        let b = &c.behavior;
        let mut d = ConfigDiagnostics::default();
        check_layout(&mut d, c);
        check_border(&mut d, c.appearance.border_px);
        check_gap(&mut d, c.appearance.gap_px);
        check_bar(&mut d, c);
        check_strengths(&mut d, b);
        check_sizes(&mut d, b);
        check_effects(&mut d, b);
        check_workload(&mut d, b);
        check_colors(&mut d, b);
        check_recording(&mut d, b);
        check_choices(&mut d, c);
        check_names(&mut d, c);
        check_keys(&mut d, &c.keybindings.keys);
        check_chord(&mut d, &c.keybindings.keys, &c.keybindings.chord);
        check_buttons(&mut d, &c.mouse_bindings.buttons);
        check_rules(&mut d, c.layout.tags_length, &c.rules);
        check_tag_wallpapers(&mut d, c.layout.tags_length, &b.wallpaper_tags);
        check_monitor_wallpapers(&mut d, &b.wallpaper_monitors);
        check_width_rules(&mut d, &b.scrolling_column_width_rules, factors);
        check_gestures(&mut d, &b.gesture_swipe);
        d
    }
}

} // verus!
