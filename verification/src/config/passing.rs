//! Which configurations are found to be in order.
use super::bindings::{click_named, configured_key, holds, modifier_named};
use super::checks::{
    audio_backend_choices, audio_format_choices, bar_check, beyond_tags, border_check,
    button_check, buttons_check, choices_check, chord_check, color_check, colorblind_choices,
    direction_choices, easing_choices, effect_check, encoder_choices, entry_chord, gap_check,
    gesture_check, gestures_check, key_check, keys_check, layout_check, millis_check, mode_check,
    monitor_wallpapers_check, name_check, recording_check, rule_check, rules_check, seconds_check,
    sequence_check, sequences_check, size_check, speed_choices, strength_check,
    tag_wallpaper_check, tag_wallpapers_check, tone_mapping_choices, transition_choices,
    tuned_check, vsync_choices, wallpaper_modes, width_rule_check, width_rules_check,
    workload_check,
};
use super::diagnostics::{indexed, IssueView};
use super::findings::{former_owners_are_the_latest, times_have_two_parts};
use super::types::{
    BehaviorConfig, ButtonConfig, ChordConfig, Config, GestureSwipeConfig, KeyConfig, RuleConfig,
    TomlConfig, WallpaperMonitorConfig, WallpaperTagConfig,
};
use super::validation::{
    binding_check, chord_text, is_time, modifier_check, modifiers_check, range_check, rgba_check,
    BAR_MAX, FACT_MAX, FACT_MIN, HUNDRED, MAX_WINDOW_GLOW_INTENSITY, MAX_WINDOW_GLOW_RADIUS,
    MINUS_TEN_THOUSAND, ONE, RADIUS_MAX, SECONDS_MAX, TENTH, TEN_THOUSAND, THOUSAND, TILT_MAX, TWO,
    ZERO,
};
use crate::actions::{function_named, keysym_named};
use crate::animation::{easing_name, speed_name, AnimationSpeed, Easing};
use crate::commands::command_named;
use crate::ieee::F32;
use crate::text::{among, among_ignoring_case, same_ignoring_case, split_at_first, trimmed};
use vstd::prelude::*;

verus! {

/// A finite number in a range.
pub open spec fn in_range(value: F32, min: u32, max: u32) -> bool {
    value.finite() && value.within(F32 { bits: min }, F32 { bits: max })
}

/// A share of a whole.
pub open spec fn a_share(value: F32) -> bool {
    in_range(value, 0, ONE)
}

/// A finite number above zero.
pub open spec fn above_zero(value: F32) -> bool {
    0 < value.bits < 0x7f80_0000
}

/// A finite number that is not below zero.
pub open spec fn not_below_zero(value: F32) -> bool {
    value.bits < 0x7f80_0000 || value.bits == 0x8000_0000
}

/// A size that an effect needs while it is on.
pub open spec fn needed_while(on: bool, value: F32) -> bool {
    if on {
        above_zero(value)
    } else {
        not_below_zero(value)
    }
}

/// Seconds that an effect needs while it is on.
pub open spec fn seconds_while(on: bool, value: F32) -> bool {
    needed_while(on, value) && value.at_most(F32 { bits: SECONDS_MAX })
}

/// Milliseconds that an effect needs while it is on.
pub open spec fn millis_while(on: bool, value: u64) -> bool {
    value <= 30000 && (on ==> value > 0)
}

/// A color with four shares.
pub open spec fn a_color(rgba: Seq<F32>) -> bool {
    a_share(rgba[0]) && a_share(rgba[1]) && a_share(rgba[2]) && a_share(rgba[3])
}

/// The measures of the screen are in order.
pub open spec fn measures_in_order(c: TomlConfig) -> bool {
    &&& 1 <= c.layout.tags_length <= 31
    &&& in_range(c.layout.m_fact, FACT_MIN, FACT_MAX)
    &&& c.appearance.border_px <= 64
    &&& c.appearance.gap_px <= 512
    &&& c.appearance.cursor_size <= 512
    &&& c.status_bar.show_bar ==> c.appearance.status_bar_height > 0
    &&& c.appearance.status_bar_padding >= 0
    &&& c.layout.n_master > 0
}

/// The strengths and sizes of the effects are in order.
pub open spec fn strengths_in_order(b: BehaviorConfig) -> bool {
    &&& a_share(b.active_opacity)
    &&& a_share(b.inactive_opacity)
    &&& a_share(b.blur_temporal_mix_ratio)
    &&& a_share(b.fade_in_step)
    &&& a_share(b.fade_out_step)
    &&& in_range(b.corner_radius, 0, RADIUS_MAX)
    &&& in_range(b.border_glow_radius, 0, MAX_WINDOW_GLOW_RADIUS)
    &&& in_range(b.border_glow_intensity, 0, MAX_WINDOW_GLOW_INTENSITY)
    &&& a_share(b.motion_trail_opacity)
    &&& a_share(b.inactive_dim)
}

/// The sizes that must not be below zero, or be above it, are.
pub open spec fn sizes_in_order(b: BehaviorConfig) -> bool {
    &&& b.fading ==> !(b.fade_in_step.finite() && b.fade_in_step.at_most(F32 { bits: 0 }))
    &&& b.fading ==> !(b.fade_out_step.finite() && b.fade_out_step.at_most(F32 { bits: 0 }))
    &&& not_below_zero(b.shadow_radius)
    &&& not_below_zero(b.border_width)
    &&& not_below_zero(b.border_glow_radius)
    &&& not_below_zero(b.border_glow_intensity)
    &&& not_below_zero(b.annotation_line_width)
    &&& needed_while(b.hdr_enabled, b.hdr_peak_nits)
    &&& needed_while(b.magnifier_enabled, b.magnifier_radius)
    &&& needed_while(b.magnifier_enabled, b.magnifier_zoom)
}

/// The effects are in order.
pub open spec fn effects_in_order(b: BehaviorConfig) -> bool {
    &&& seconds_while(b.particle_effects, b.particle_lifetime)
    &&& seconds_while(b.ripple_on_open, b.ripple_duration)
    &&& millis_while(b.genie_minimize, b.genie_duration_ms)
    &&& millis_while(b.focus_highlight, b.focus_highlight_duration_ms)
    &&& millis_while(b.wallpaper_crossfade, b.wallpaper_crossfade_duration_ms)
    &&& in_range(b.tilt_perspective, HUNDRED, TEN_THOUSAND)
    &&& in_range(b.tilt_speed, TENTH, HUNDRED)
    &&& in_range(b.wobbly_stiffness, TENTH, TEN_THOUSAND)
    &&& in_range(b.wobbly_damping, TENTH, THOUSAND)
    &&& in_range(b.wobbly_restore_stiffness, TENTH, TEN_THOUSAND)
    &&& in_range(b.tilt_amount, 0, TILT_MAX)
    &&& in_range(b.ripple_amplitude, 0, TENTH)
    &&& in_range(b.particle_gravity, MINUS_TEN_THOUSAND, TEN_THOUSAND)
    &&& in_range(b.window_animation_scale, TENTH, TWO)
    &&& in_range(b.tab_bar_height, ONE, BAR_MAX)
}

/// The amounts of work are in order.
pub open spec fn work_in_order(b: BehaviorConfig) -> bool {
    &&& 1 <= b.tilt_grid <= 64
    &&& 1 <= b.wobbly_grid_size <= 32
    &&& b.motion_trail_frames <= 64
    &&& b.particle_count <= 4096
    &&& b.gesture_swipe@.len() > 0 ==> 0 < b.gesture_swipe_threshold.bits < 0x7ff0_0000_0000_0000
}

/// The colors are in order.
pub open spec fn colors_in_order(b: BehaviorConfig) -> bool {
    &&& a_color(b.shadow_color@)
    &&& a_color(b.border_color_focused@)
    &&& a_color(b.border_color_unfocused@)
    &&& a_color(b.border_glow_color@)
    &&& a_color(b.edge_glow_color@)
    &&& a_color(b.attention_color@)
    &&& a_color(b.pip_border_color@)
    &&& a_color(b.snap_preview_color@)
    &&& a_color(b.focus_highlight_color@)
    &&& a_color(b.annotation_color@)
}

/// What is recorded and how often the screen is drawn are in order.
pub open spec fn recording_in_order(b: BehaviorConfig) -> bool {
    &&& b.blur_strength <= 5
    &&& 1 <= b.recording_fps <= 240
    &&& b.recording_quality <= 51
    &&& b.audio_recording_sample_rate > 0
    &&& 1 <= b.audio_recording_channels <= 2
    &&& b.vrr_enabled ==> 0 < b.vrr_min_fps <= b.vrr_max_fps
}

/// What is chosen by name is in order; a curve and a speed are what a name
/// stands for.
pub open spec fn choices_in_order(c: TomlConfig) -> bool {
    &&& among(c.behavior.vsync_method@, vsync_choices())
    &&& among(c.behavior.tone_mapping_method@, tone_mapping_choices())
    &&& among(c.behavior.transition_mode@, transition_choices())
    &&& among_ignoring_case(c.behavior.wallpaper_mode@, wallpaper_modes())
    &&& among(c.behavior.colorblind_mode@, colorblind_choices())
    &&& among(c.behavior.recording_encoder@, encoder_choices())
    &&& among(c.behavior.audio_recording_backend@, audio_backend_choices())
    &&& among(c.behavior.audio_recording_format@, audio_format_choices())
    &&& exists|e: Easing| c.animation.easing@ == #[trigger] easing_name(e)
    &&& exists|s: AnimationSpeed| c.animation.speed@ == #[trigger] speed_name(s)
    &&& is_time(c.behavior.night_light_start@)
    &&& is_time(c.behavior.night_light_end@)
}

/// All the modifiers are known and none is named twice.
pub open spec fn modifiers_in_order(names: Seq<String>) -> bool {
    &&& forall|i: int| 0 <= i < names.len() ==> modifier_named(#[trigger] names[i]@) is Some
    &&& forall|k: int, i: int|
        0 <= k < i < names.len() ==> modifier_named(#[trigger] names[k]@) != modifier_named(
            #[trigger] names[i]@,
        )
}

/// An entry takes effect, and no entry before it has its chord.
pub open spec fn key_in_order(keys: Seq<KeyConfig>, i: int) -> bool {
    &&& modifiers_in_order(keys[i].modifier@)
    &&& configured_key(keys[i]) is Some
    &&& forall|k: int| 0 <= k < i ==> entry_chord(#[trigger] keys[k]) != entry_chord(keys[i])
}

/// All the entries take effect, each on a chord of its own.
pub open spec fn keys_in_order(keys: Seq<KeyConfig>) -> bool {
    forall|i: int| 0 <= i < keys.len() ==> #[trigger] key_in_order(keys, i)
}

/// There is no leader key; or it is known, no binding has its chord, there is
/// time for the second step, and that one's bindings are in order.
pub open spec fn chord_in_order(keys: Seq<KeyConfig>, c: ChordConfig) -> bool {
    c.leader_key@.len() > 0 ==> {
        &&& modifiers_in_order(c.leader_modifier@)
        &&& keysym_named(c.leader_key@) is Some
        &&& c.timeout_ms >= 100
        &&& forall|k: int|
            0 <= k < keys.len() ==> entry_chord(#[trigger] keys[k]) != chord_text(
                c.leader_modifier@,
                c.leader_key@,
            )
        &&& keys_in_order(c.bindings@)
    }
}

/// A mouse binding is on a button, a place and an action that are known.
pub open spec fn button_in_order(b: ButtonConfig) -> bool {
    &&& modifiers_in_order(b.modifier@)
    &&& click_named(b.click_type@) is Some
    &&& 1 <= b.button <= 5
    &&& function_named(b.function@) is Some
}

/// A rule is on tags and a monitor that can be.
pub open spec fn rule_in_order(tags: usize, rule: RuleConfig) -> bool {
    !beyond_tags(rule.tags, tags) && rule.monitor >= -1
}

/// A mode of a wallpaper is left open or known.
pub open spec fn mode_in_order(mode: Seq<char>) -> bool {
    mode.len() == 0 || among_ignoring_case(mode, wallpaper_modes())
}

/// A wallpaper is on a tag and a monitor that can be.
pub open spec fn wallpaper_in_order(tags: usize, w: WallpaperTagConfig) -> bool {
    w.tag < tags && w.monitor >= -1 && mode_in_order(w.mode@)
}

/// A rule for the width of a column has a factor above zero, a colon, and what
/// it is for.
pub open spec fn width_in_order(rule: Seq<char>, factor: Option<F32>) -> bool {
    match split_at_first(rule, ':') {
        Some((_, pattern)) => factor is Some && above_zero(factor->0) && trimmed(pattern).len() > 0,
        None => false,
    }
}

/// A gesture has three to five fingers, a direction, and a command that is known.
pub open spec fn gesture_in_order(g: GestureSwipeConfig) -> bool {
    &&& 3 <= g.fingers <= 5
    &&& among_ignoring_case(g.direction@, direction_choices())
    &&& trimmed(g.function@).len() > 0
    &&& command_named(g.function@) is Some
}

/// A configuration is in order; `factors` holds what the texts before the colons
/// of the width rules read as.
pub open spec fn in_order(c: TomlConfig, factors: Seq<Option<F32>>) -> bool {
    let b = c.behavior;
    &&& measures_in_order(c)
    &&& strengths_in_order(b)
    &&& sizes_in_order(b)
    &&& effects_in_order(b)
    &&& work_in_order(b)
    &&& colors_in_order(b)
    &&& recording_in_order(b)
    &&& choices_in_order(c)
    &&& c.status_bar.show_bar ==> trimmed(c.status_bar.name@).len() > 0
    &&& modifier_named(c.keybindings.modkey@) is Some
    &&& keys_in_order(c.keybindings.keys@)
    &&& chord_in_order(c.keybindings.keys@, c.keybindings.chord)
    &&& forall|i: int|
        0 <= i < c.mouse_bindings.buttons@.len() ==> button_in_order(
            #[trigger] c.mouse_bindings.buttons@[i],
        )
    &&& forall|i: int|
        0 <= i < c.rules@.len() ==> rule_in_order(c.layout.tags_length, #[trigger] c.rules@[i])
    &&& forall|i: int|
        0 <= i < b.wallpaper_tags@.len() ==> wallpaper_in_order(
            c.layout.tags_length,
            #[trigger] b.wallpaper_tags@[i],
        )
    &&& forall|i: int|
        0 <= i < b.wallpaper_monitors@.len() ==> mode_in_order(
            (#[trigger] b.wallpaper_monitors@[i]).mode@,
        )
    &&& forall|i: int|
        0 <= i < b.scrolling_column_width_rules@.len() ==> width_in_order(
            (#[trigger] b.scrolling_column_width_rules@[i])@,
            factors[i],
        )
    &&& forall|i: int|
        0 <= i < b.gesture_swipe@.len() ==> gesture_in_order(#[trigger] b.gesture_swipe@[i])
}

/// What a check left of the findings before it, and whether it added any.
spec fn keeps(before: Seq<IssueView>, after: Seq<IssueView>, sound: bool) -> bool {
    after.len() >= before.len() && (after.len() == before.len() <==> sound)
}

proof fn measures_checked(d: Seq<IssueView>, c: TomlConfig)
    ensures
        keeps(
            d,
            bar_check(
                gap_check(
                    border_check(layout_check(d, c), c.appearance.border_px),
                    c.appearance.gap_px,
                ),
                c,
            ),
            measures_in_order(c),
        ),
{
}

proof fn strengths_checked(d: Seq<IssueView>, b: BehaviorConfig)
    ensures
        keeps(d, strength_check(d, b), strengths_in_order(b)),
{
}

proof fn sizes_checked(d: Seq<IssueView>, b: BehaviorConfig)
    ensures
        keeps(d, size_check(d, b), sizes_in_order(b)),
{
}

proof fn seconds_checked(d: Seq<IssueView>, path: Seq<char>, value: F32, on: bool)
    ensures
        keeps(d, seconds_check(d, path, value, on), seconds_while(on, value)),
{
}

proof fn millis_checked(d: Seq<IssueView>, path: Seq<char>, value: u64, on: bool)
    ensures
        keeps(d, millis_check(d, path, value, on), millis_while(on, value)),
{
}

proof fn range_checked(d: Seq<IssueView>, path: Seq<char>, value: F32, min: u32, max: u32)
    ensures
        keeps(d, range_check(d, path, value, min, max), in_range(value, min, max)),
{
}

proof fn tuned_checked(
    d: Seq<IssueView>,
    path: Seq<char>,
    value: F32,
    on: bool,
    min: u32,
    max: u32,
)
    requires
        0 < min < 0x7f80_0000,
    ensures
        keeps(d, tuned_check(d, path, value, on, min, max), in_range(value, min, max)),
{
}

proof fn effects_checked(d: Seq<IssueView>, b: BehaviorConfig)
    ensures
        keeps(d, effect_check(d, b), effects_in_order(b)),
{
    let d0 = d;
    seconds_checked(d, "behavior.particle_lifetime"@, b.particle_lifetime, b.particle_effects);
    let d = seconds_check(
        d,
        "behavior.particle_lifetime"@,
        b.particle_lifetime,
        b.particle_effects,
    );
    seconds_checked(d, "behavior.ripple_duration"@, b.ripple_duration, b.ripple_on_open);
    let d = seconds_check(d, "behavior.ripple_duration"@, b.ripple_duration, b.ripple_on_open);
    millis_checked(d, "behavior.genie_duration_ms"@, b.genie_duration_ms, b.genie_minimize);
    let d = millis_check(d, "behavior.genie_duration_ms"@, b.genie_duration_ms, b.genie_minimize);
    millis_checked(
        d,
        "behavior.focus_highlight_duration_ms"@,
        b.focus_highlight_duration_ms,
        b.focus_highlight,
    );
    let d = millis_check(
        d,
        "behavior.focus_highlight_duration_ms"@,
        b.focus_highlight_duration_ms,
        b.focus_highlight,
    );
    millis_checked(
        d,
        "behavior.wallpaper_crossfade_duration_ms"@,
        b.wallpaper_crossfade_duration_ms,
        b.wallpaper_crossfade,
    );
    let d = millis_check(
        d,
        "behavior.wallpaper_crossfade_duration_ms"@,
        b.wallpaper_crossfade_duration_ms,
        b.wallpaper_crossfade,
    );
    tuned_checked(
        d,
        "behavior.tilt_perspective"@,
        b.tilt_perspective,
        b.window_tilt,
        HUNDRED,
        TEN_THOUSAND,
    );
    let d = tuned_check(
        d,
        "behavior.tilt_perspective"@,
        b.tilt_perspective,
        b.window_tilt,
        HUNDRED,
        TEN_THOUSAND,
    );
    tuned_checked(d, "behavior.tilt_speed"@, b.tilt_speed, b.window_tilt, TENTH, HUNDRED);
    let d = tuned_check(d, "behavior.tilt_speed"@, b.tilt_speed, b.window_tilt, TENTH, HUNDRED);
    tuned_checked(
        d,
        "behavior.wobbly_stiffness"@,
        b.wobbly_stiffness,
        b.wobbly_windows,
        TENTH,
        TEN_THOUSAND,
    );
    let d = tuned_check(
        d,
        "behavior.wobbly_stiffness"@,
        b.wobbly_stiffness,
        b.wobbly_windows,
        TENTH,
        TEN_THOUSAND,
    );
    tuned_checked(
        d,
        "behavior.wobbly_damping"@,
        b.wobbly_damping,
        b.wobbly_windows,
        TENTH,
        THOUSAND,
    );
    let d = tuned_check(
        d,
        "behavior.wobbly_damping"@,
        b.wobbly_damping,
        b.wobbly_windows,
        TENTH,
        THOUSAND,
    );
    tuned_checked(
        d,
        "behavior.wobbly_restore_stiffness"@,
        b.wobbly_restore_stiffness,
        b.wobbly_windows,
        TENTH,
        TEN_THOUSAND,
    );
    let d = tuned_check(
        d,
        "behavior.wobbly_restore_stiffness"@,
        b.wobbly_restore_stiffness,
        b.wobbly_windows,
        TENTH,
        TEN_THOUSAND,
    );
    range_checked(d, "behavior.tilt_amount"@, b.tilt_amount, ZERO, TILT_MAX);
    let d = range_check(d, "behavior.tilt_amount"@, b.tilt_amount, ZERO, TILT_MAX);
    range_checked(d, "behavior.ripple_amplitude"@, b.ripple_amplitude, ZERO, TENTH);
    let d = range_check(d, "behavior.ripple_amplitude"@, b.ripple_amplitude, ZERO, TENTH);
    range_checked(
        d,
        "behavior.particle_gravity"@,
        b.particle_gravity,
        MINUS_TEN_THOUSAND,
        TEN_THOUSAND,
    );
    let d = range_check(
        d,
        "behavior.particle_gravity"@,
        b.particle_gravity,
        MINUS_TEN_THOUSAND,
        TEN_THOUSAND,
    );
    range_checked(d, "behavior.window_animation_scale"@, b.window_animation_scale, TENTH, TWO);
    let d = range_check(
        d,
        "behavior.window_animation_scale"@,
        b.window_animation_scale,
        TENTH,
        TWO,
    );
    range_checked(d, "behavior.tab_bar_height"@, b.tab_bar_height, ONE, BAR_MAX);
    let d = range_check(d, "behavior.tab_bar_height"@, b.tab_bar_height, ONE, BAR_MAX);
    assert(d == effect_check(d0, b));
}

proof fn work_checked(d: Seq<IssueView>, b: BehaviorConfig)
    ensures
        keeps(d, workload_check(d, b), work_in_order(b)),
{
}

proof fn color_checked(d: Seq<IssueView>, path: Seq<char>, rgba: Seq<F32>)
    ensures
        keeps(d, rgba_check(d, path, rgba), a_color(rgba)),
{
}

proof fn colors_checked(d: Seq<IssueView>, b: BehaviorConfig)
    ensures
        keeps(d, color_check(d, b), colors_in_order(b)),
{
    let d0 = d;
    color_checked(d, "behavior.shadow_color"@, b.shadow_color@);
    let d = rgba_check(d, "behavior.shadow_color"@, b.shadow_color@);
    color_checked(d, "behavior.border_color_focused"@, b.border_color_focused@);
    let d = rgba_check(d, "behavior.border_color_focused"@, b.border_color_focused@);
    color_checked(d, "behavior.border_color_unfocused"@, b.border_color_unfocused@);
    let d = rgba_check(d, "behavior.border_color_unfocused"@, b.border_color_unfocused@);
    color_checked(d, "behavior.border_glow_color"@, b.border_glow_color@);
    let d = rgba_check(d, "behavior.border_glow_color"@, b.border_glow_color@);
    color_checked(d, "behavior.edge_glow_color"@, b.edge_glow_color@);
    let d = rgba_check(d, "behavior.edge_glow_color"@, b.edge_glow_color@);
    color_checked(d, "behavior.attention_color"@, b.attention_color@);
    let d = rgba_check(d, "behavior.attention_color"@, b.attention_color@);
    color_checked(d, "behavior.pip_border_color"@, b.pip_border_color@);
    let d = rgba_check(d, "behavior.pip_border_color"@, b.pip_border_color@);
    color_checked(d, "behavior.snap_preview_color"@, b.snap_preview_color@);
    let d = rgba_check(d, "behavior.snap_preview_color"@, b.snap_preview_color@);
    color_checked(d, "behavior.focus_highlight_color"@, b.focus_highlight_color@);
    let d = rgba_check(d, "behavior.focus_highlight_color"@, b.focus_highlight_color@);
    color_checked(d, "behavior.annotation_color"@, b.annotation_color@);
    let d = rgba_check(d, "behavior.annotation_color"@, b.annotation_color@);
    assert(d == color_check(d0, b));
}

proof fn recording_checked(d: Seq<IssueView>, b: BehaviorConfig)
    ensures
        keeps(d, recording_check(d, b), recording_in_order(b)),
{
}

/// The names that pass as a curve or a speed are those that stand for one.
pub proof fn choices_are_what_names_stand_for(name: Seq<char>)
    ensures
        among(name, easing_choices()) <==> exists|e: Easing| name == #[trigger] easing_name(e),
        among(name, speed_choices()) <==> exists|s: AnimationSpeed|
            name == #[trigger] speed_name(s),
{
    assert(easing_choices()[0]@ == easing_name(Easing::Linear));
    assert(easing_choices()[1]@ == easing_name(Easing::EaseIn));
    assert(easing_choices()[2]@ == easing_name(Easing::EaseOut));
    assert(easing_choices()[3]@ == easing_name(Easing::EaseInOut));
    assert(easing_choices()[4]@ == easing_name(Easing::Bounce));
    assert(easing_choices()[5]@ == easing_name(Easing::Elastic));
    assert(speed_choices()[0]@ == speed_name(AnimationSpeed::Slow));
    assert(speed_choices()[1]@ == speed_name(AnimationSpeed::Normal));
    assert(speed_choices()[2]@ == speed_name(AnimationSpeed::Fast));
    assert(speed_choices()[3]@ == speed_name(AnimationSpeed::Instant));
}

proof fn choices_checked(d: Seq<IssueView>, c: TomlConfig)
    ensures
        keeps(d, choices_check(d, c), choices_in_order(c)),
{
    choices_are_what_names_stand_for(c.animation.easing@);
    choices_are_what_names_stand_for(c.animation.speed@);
}

proof fn modifiers_checked(d: Seq<IssueView>, path: Seq<char>, names: Seq<String>, count: int)
    requires
        0 <= count <= names.len(),
    ensures
        keeps(d, modifiers_check(d, path, names, count), modifiers_in_order(names.take(count))),
    decreases count,
{
    let taken = names.take(count);
    if count > 0 {
        let i = count - 1;
        modifiers_checked(d, path, names, i);
        let before = modifiers_check(d, path, names, i);
        let fewer = names.take(i);
        assert(forall|k: int| 0 <= k < i ==> #[trigger] fewer[k] == taken[k]);
        assert(taken[i] == names[i]);
        let added = modifier_check(before, path, names, i);
        let m = modifier_named(names[i]@);
        let fresh = m is Some && !holds(fewer, m->0);
        assert(added.len() == before.len() <==> fresh);
        assert(added.len() >= before.len());
        if modifiers_in_order(taken) {
            assert(modifiers_in_order(fewer));
            assert(fresh);
        }
        if modifiers_in_order(fewer) && fresh {
            assert forall|k: int, j: int| 0 <= k < j < taken.len() implies modifier_named(
                #[trigger] taken[k]@,
            ) != modifier_named(#[trigger] taken[j]@) by {
                assert(fewer[k] == taken[k]);
                if j < i {
                    assert(fewer[j] == taken[j]);
                }
            }
            assert forall|j: int| 0 <= j < taken.len() implies modifier_named(
                #[trigger] taken[j]@,
            ) is Some by {
                if j < i {
                    assert(fewer[j] == taken[j]);
                }
            }
        }
    }
}

proof fn all_modifiers_checked(d: Seq<IssueView>, path: Seq<char>, names: Seq<String>)
    ensures
        keeps(
            d,
            modifiers_check(d, path, names, names.len() as int),
            modifiers_in_order(names),
        ),
{
    modifiers_checked(d, path, names, names.len() as int);
    assert(names.take(names.len() as int) =~= names);
}

proof fn names_checked(d: Seq<IssueView>, c: TomlConfig)
    ensures
        keeps(
            d,
            name_check(d, c),
            (c.status_bar.show_bar ==> trimmed(c.status_bar.name@).len() > 0) && modifier_named(
                c.keybindings.modkey@,
            ) is Some,
        ),
{
    let names = seq![c.keybindings.modkey];
    let path = "keybindings.modkey"@;
    assert forall|e: Seq<IssueView>|
        keeps(e, #[trigger] modifiers_check(e, path, names, 1), modifiers_in_order(names)) by {
        all_modifiers_checked(e, path, names);
    }
    assert(names[0] == c.keybindings.modkey);
    assert(modifiers_in_order(names) <==> modifier_named(names[0]@) is Some);
}

proof fn binding_checked(d: Seq<IssueView>, path: Seq<char>, k: KeyConfig)
    ensures
        keeps(
            d,
            binding_check(d, path, k),
            modifiers_in_order(k.modifier@) && configured_key(k) is Some,
        ),
{
    all_modifiers_checked(d, path + ".modifier"@, k.modifier@);
}

proof fn key_checked(d: Seq<IssueView>, keys: Seq<KeyConfig>, i: int)
    requires
        0 <= i < keys.len(),
    ensures
        keeps(d, key_check(d, keys, i), key_in_order(keys, i)),
        keeps(d, sequence_check(d, keys, i), key_in_order(keys, i)),
{
    binding_checked(d, indexed("keybindings.keys"@, i), keys[i]);
    binding_checked(d, indexed("keybindings.chord.bindings"@, i), keys[i]);
    former_owners_are_the_latest(keys, entry_chord(keys[i]), i);
}

spec fn keys_before(keys: Seq<KeyConfig>, count: int) -> bool {
    forall|i: int| 0 <= i < count ==> #[trigger] key_in_order(keys, i)
}

proof fn keys_checked(d: Seq<IssueView>, keys: Seq<KeyConfig>, count: int)
    requires
        0 <= count <= keys.len(),
    ensures
        keeps(d, keys_check(d, keys, count), keys_before(keys, count)),
        keeps(d, sequences_check(d, keys, count), keys_before(keys, count)),
    decreases count,
{
    if count > 0 {
        keys_checked(d, keys, count - 1);
        key_checked(keys_check(d, keys, count - 1), keys, count - 1);
        key_checked(sequences_check(d, keys, count - 1), keys, count - 1);
        assert(keys_before(keys, count) <==> keys_before(keys, count - 1) && key_in_order(
            keys,
            count - 1,
        ));
    }
}

proof fn chord_checked(d: Seq<IssueView>, keys: Seq<KeyConfig>, c: ChordConfig)
    ensures
        keeps(d, chord_check(d, keys, c), chord_in_order(keys, c)),
{
    all_modifiers_checked(d, "keybindings.chord.leader_modifier"@, c.leader_modifier@);
    let leader = chord_text(c.leader_modifier@, c.leader_key@);
    former_owners_are_the_latest(keys, leader, keys.len() as int);
    let n = c.bindings@.len() as int;
    assert forall|e: Seq<IssueView>|
        keeps(e, #[trigger] sequences_check(e, c.bindings@, n), keys_before(c.bindings@, n)) by {
        keys_checked(e, c.bindings@, n);
    }
    assert(keys_before(c.bindings@, n) == keys_in_order(c.bindings@));
}

proof fn buttons_checked(d: Seq<IssueView>, buttons: Seq<ButtonConfig>, count: int)
    requires
        0 <= count <= buttons.len(),
    ensures
        keeps(
            d,
            buttons_check(d, buttons, count),
            forall|i: int| 0 <= i < count ==> button_in_order(#[trigger] buttons[i]),
        ),
    decreases count,
{
    if count > 0 {
        let b = buttons[count - 1];
        buttons_checked(d, buttons, count - 1);
        let before = buttons_check(d, buttons, count - 1);
        all_modifiers_checked(
            before,
            indexed("mouse_bindings.buttons"@, count - 1) + ".modifier"@,
            b.modifier@,
        );
        assert(keeps(before, button_check(before, b, count - 1), button_in_order(b)));
        assert((forall|i: int| 0 <= i < count ==> button_in_order(#[trigger] buttons[i])) <==> (
        forall|i: int| 0 <= i < count - 1 ==> button_in_order(#[trigger] buttons[i]))
            && button_in_order(b));
    }
}

proof fn rules_checked(d: Seq<IssueView>, tags: usize, rules: Seq<RuleConfig>, count: int)
    requires
        0 <= count <= rules.len(),
    ensures
        keeps(
            d,
            rules_check(d, tags, rules, count),
            forall|i: int| 0 <= i < count ==> rule_in_order(tags, #[trigger] rules[i]),
        ),
    decreases count,
{
    if count > 0 {
        let rule = rules[count - 1];
        rules_checked(d, tags, rules, count - 1);
        let before = rules_check(d, tags, rules, count - 1);
        assert(keeps(before, rule_check(before, tags, rule, count - 1), rule_in_order(tags, rule)));
        assert((forall|i: int| 0 <= i < count ==> rule_in_order(tags, #[trigger] rules[i])) <==> (
        forall|i: int| 0 <= i < count - 1 ==> rule_in_order(tags, #[trigger] rules[i]))
            && rule_in_order(tags, rule));
    }
}

proof fn wallpapers_checked(
    d: Seq<IssueView>,
    tags: usize,
    all: Seq<WallpaperTagConfig>,
    count: int,
)
    requires
        0 <= count <= all.len(),
    ensures
        keeps(
            d,
            tag_wallpapers_check(d, tags, all, count),
            forall|i: int| 0 <= i < count ==> wallpaper_in_order(tags, #[trigger] all[i]),
        ),
    decreases count,
{
    if count > 0 {
        let w = all[count - 1];
        wallpapers_checked(d, tags, all, count - 1);
        let before = tag_wallpapers_check(d, tags, all, count - 1);
        assert(keeps(
            before,
            tag_wallpaper_check(before, tags, w, count - 1),
            wallpaper_in_order(tags, w),
        ));
        assert((forall|i: int| 0 <= i < count ==> wallpaper_in_order(tags, #[trigger] all[i]))
            <==> (forall|i: int|
            0 <= i < count - 1 ==> wallpaper_in_order(tags, #[trigger] all[i]))
            && wallpaper_in_order(tags, w));
    }
}

proof fn modes_checked(d: Seq<IssueView>, all: Seq<WallpaperMonitorConfig>, count: int)
    requires
        0 <= count <= all.len(),
    ensures
        keeps(
            d,
            monitor_wallpapers_check(d, all, count),
            forall|i: int| 0 <= i < count ==> mode_in_order((#[trigger] all[i]).mode@),
        ),
    decreases count,
{
    if count > 0 {
        let w = all[count - 1];
        modes_checked(d, all, count - 1);
        let before = monitor_wallpapers_check(d, all, count - 1);
        assert(keeps(
            before,
            mode_check(
                before,
                indexed("behavior.wallpaper_monitors"@, count - 1),
                w.mode@,
            ),
            mode_in_order(w.mode@),
        ));
        assert((forall|i: int| 0 <= i < count ==> mode_in_order((#[trigger] all[i]).mode@)) <==> (
        forall|i: int| 0 <= i < count - 1 ==> mode_in_order((#[trigger] all[i]).mode@))
            && mode_in_order(w.mode@));
    }
}

proof fn column_widths_checked(
    d: Seq<IssueView>,
    rules: Seq<String>,
    factors: Seq<Option<F32>>,
    count: int,
)
    requires
        0 <= count <= rules.len() == factors.len(),
    ensures
        keeps(
            d,
            width_rules_check(d, rules, factors, count),
            forall|i: int| 0 <= i < count ==> width_in_order((#[trigger] rules[i])@, factors[i]),
        ),
    decreases count,
{
    if count > 0 {
        let rule = rules[count - 1]@;
        let factor = factors[count - 1];
        column_widths_checked(d, rules, factors, count - 1);
        let before = width_rules_check(d, rules, factors, count - 1);
        assert(keeps(
            before,
            width_rule_check(before, rule, factors, count - 1),
            width_in_order(rule, factor),
        ));
        assert((forall|i: int|
            0 <= i < count ==> width_in_order((#[trigger] rules[i])@, factors[i])) <==> (forall|
            i: int,
        |
            0 <= i < count - 1 ==> width_in_order((#[trigger] rules[i])@, factors[i]))
            && width_in_order(rule, factor));
    }
}

proof fn gestures_checked(d: Seq<IssueView>, all: Seq<GestureSwipeConfig>, count: int)
    requires
        0 <= count <= all.len(),
    ensures
        keeps(
            d,
            gestures_check(d, all, count),
            forall|i: int| 0 <= i < count ==> gesture_in_order(#[trigger] all[i]),
        ),
    decreases count,
{
    if count > 0 {
        let g = all[count - 1];
        gestures_checked(d, all, count - 1);
        let before = gestures_check(d, all, count - 1);
        assert(keeps(before, gesture_check(before, g, count - 1), gesture_in_order(g)));
        assert((forall|i: int| 0 <= i < count ==> gesture_in_order(#[trigger] all[i])) <==> (forall|
            i: int,
        |
            0 <= i < count - 1 ==> gesture_in_order(#[trigger] all[i])) && gesture_in_order(g));
    }
}

/// Nothing is found just where the configuration is in order: every check has its
/// say, and none finds anything else.
pub proof fn configurations_in_order_have_no_findings(
    config: Config,
    factors: Seq<Option<F32>>,
)
    requires
        factors.len() == config.inner.behavior.scrolling_column_width_rules@.len(),
    ensures
        config.all_issues(factors).len() == 0 <==> in_order(config.inner, factors),
{
    let c = config.inner;
    let b = c.behavior;
    let d = Seq::<IssueView>::empty();
    measures_checked(d, c);
    let d = bar_check(
        gap_check(border_check(layout_check(d, c), c.appearance.border_px), c.appearance.gap_px),
        c,
    );
    strengths_checked(d, b);
    let d = strength_check(d, b);
    sizes_checked(d, b);
    let d = size_check(d, b);
    effects_checked(d, b);
    let d = effect_check(d, b);
    work_checked(d, b);
    let d = workload_check(d, b);
    colors_checked(d, b);
    let d = color_check(d, b);
    recording_checked(d, b);
    let d = recording_check(d, b);
    choices_checked(d, c);
    let d = choices_check(d, c);
    names_checked(d, c);
    let d = name_check(d, c);
    let keys = c.keybindings.keys@;
    keys_checked(d, keys, keys.len() as int);
    assert(keys_before(keys, keys.len() as int) == keys_in_order(keys));
    let d = keys_check(d, keys, keys.len() as int);
    chord_checked(d, keys, c.keybindings.chord);
    let d = chord_check(d, keys, c.keybindings.chord);
    let buttons = c.mouse_bindings.buttons@;
    buttons_checked(d, buttons, buttons.len() as int);
    let d = buttons_check(d, buttons, buttons.len() as int);
    let tags = c.layout.tags_length;
    rules_checked(d, tags, c.rules@, c.rules@.len() as int);
    let d = rules_check(d, tags, c.rules@, c.rules@.len() as int);
    wallpapers_checked(d, tags, b.wallpaper_tags@, b.wallpaper_tags@.len() as int);
    let d = tag_wallpapers_check(d, tags, b.wallpaper_tags@, b.wallpaper_tags@.len() as int);
    modes_checked(d, b.wallpaper_monitors@, b.wallpaper_monitors@.len() as int);
    let d = monitor_wallpapers_check(
        d,
        b.wallpaper_monitors@,
        b.wallpaper_monitors@.len() as int,
    );
    let rules = b.scrolling_column_width_rules@;
    column_widths_checked(d, rules, factors, rules.len() as int);
    let d = width_rules_check(d, rules, factors, rules.len() as int);
    gestures_checked(d, b.gesture_swipe@, b.gesture_swipe@.len() as int);
}

/// The built-in settings are in order.
pub proof fn built_in_settings_are_in_order(
    config: Config,
    terminal: Seq<Seq<char>>,
    wallpaper: Seq<char>,
)
    requires
        config.is_built_in(terminal, wallpaper),
    ensures
        measures_in_order(config.inner),
        strengths_in_order(config.inner.behavior),
        sizes_in_order(config.inner.behavior),
        effects_in_order(config.inner.behavior),
        work_in_order(config.inner.behavior),
        colors_in_order(config.inner.behavior),
        recording_in_order(config.inner.behavior),
        choices_in_order(config.inner),
        chord_in_order(config.inner.keybindings.keys@, config.inner.keybindings.chord),
{
    built_in_choices(config, terminal, wallpaper);
}

proof fn built_in_choices(config: Config, terminal: Seq<Seq<char>>, wallpaper: Seq<char>)
    requires
        config.is_built_in(terminal, wallpaper),
    ensures
        choices_in_order(config.inner),
{
    let c = config.inner;
    let b = c.behavior;
    assert(vsync_choices()[0]@ == b.vsync_method@);
    assert(tone_mapping_choices()[2]@ == b.tone_mapping_method@);
    assert(transition_choices()[0]@ == b.transition_mode@);
    assert(same_ignoring_case(wallpaper_modes()[0]@, b.wallpaper_mode@));
    assert(colorblind_choices()[0]@ == b.colorblind_mode@);
    assert(encoder_choices()[0]@ == b.recording_encoder@);
    assert(audio_backend_choices()[0]@ == b.audio_recording_backend@);
    assert(audio_format_choices()[0]@ == b.audio_recording_format@);
    assert(c.animation.easing@ == easing_name(Easing::EaseOut));
    assert(c.animation.speed@ == speed_name(AnimationSpeed::Normal));
    reveal_strlit("20:00");
    reveal_strlit("06:00");
    times_have_two_parts(b.night_light_start@);
    times_have_two_parts(b.night_light_end@);
}

} // verus!
