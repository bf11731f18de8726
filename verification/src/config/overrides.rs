//! What a live override does to the document.
use super::hot::{
    changed_to, color_from, hot_key, stated, with_setting, HotKey, Section,
    Setting, SettingView,
    with_active_opacity,
    with_audio_recording_backend,
    with_audio_recording_bitrate,
    with_audio_recording_format,
    with_blur_enabled,
    with_blur_strength,
    with_border_color_focused,
    with_border_glow_color,
    with_border_gradient_color_a,
    with_border_gradient_color_b,
    with_client_moveresize,
    with_clipboard_history,
    with_compositor,
    with_corner_radius,
    with_drag_threshold_px,
    with_fading,
    with_idle_dim_level,
    with_idle_dim_secs,
    with_idle_lock_secs,
    with_idle_screen_off_command,
    with_idle_screen_off_secs,
    with_idle_screen_on_command,
    with_inactive_opacity,
    with_motion_trail,
    with_new_client_position,
    with_recording_audio_bitrate,
    with_recording_audio_device,
    with_recording_audio_enabled,
    with_recording_fps,
    with_resource_rows,
    with_screenshot_freeze_enabled,
    with_shadow_enabled,
    with_wallpaper,
    with_wallpaper_colors,
    with_wallpaper_dir,
    with_wallpaper_mode,
    with_wobbly_windows,
};
use super::types::{BehaviorConfig, TomlConfig};
use crate::ieee::F32;
use crate::json::{JsonNumber, JsonValue};
use crate::message::FragmentView;
use vstd::prelude::*;

verus! {

/// The value that a setting has in a document.
pub open spec fn setting_in(c: TomlConfig, key: HotKey) -> SettingView {
    match key {
        HotKey::BorderPx => SettingView::Number(c.appearance.border_px as int),
        HotKey::GapPx => SettingView::Number(c.appearance.gap_px as int),
        HotKey::Snap => SettingView::Number(c.appearance.snap as int),
        HotKey::CursorTheme => SettingView::Text(c.appearance.cursor_theme@),
        HotKey::CursorSize => SettingView::Number(c.appearance.cursor_size as int),
        HotKey::UiTheme => SettingView::Text(c.appearance.ui_theme@),
        HotKey::MFact => SettingView::Real(c.layout.m_fact),
        HotKey::NMaster => SettingView::Number(c.layout.n_master as int),
        HotKey::ShowBar => SettingView::Flag(c.status_bar.show_bar),
        HotKey::ActiveOpacity => SettingView::Real(c.behavior.active_opacity),
        HotKey::InactiveOpacity => SettingView::Real(c.behavior.inactive_opacity),
        HotKey::BlurStrength => SettingView::Number(c.behavior.blur_strength as int),
        HotKey::NewClientPosition => SettingView::Text(c.behavior.new_client_position@),
        HotKey::DragThresholdPx => SettingView::Number(c.behavior.drag_threshold_px as int),
        HotKey::ClientMoveresize => SettingView::Text(c.behavior.client_moveresize@),
        HotKey::Wallpaper => SettingView::Text(c.behavior.wallpaper@),
        HotKey::WallpaperMode => SettingView::Text(c.behavior.wallpaper_mode@),
        HotKey::WallpaperDir => SettingView::Text(c.behavior.wallpaper_dir@),
        HotKey::WallpaperColors => SettingView::Flag(c.behavior.wallpaper_colors),
        HotKey::IdleDimSecs => SettingView::Number(c.behavior.idle_dim_secs as int),
        HotKey::IdleDimLevel => SettingView::Real(c.behavior.idle_dim_level),
        HotKey::IdleLockSecs => SettingView::Number(c.behavior.idle_lock_secs as int),
        HotKey::IdleScreenOffSecs => SettingView::Number(c.behavior.idle_screen_off_secs as int),
        HotKey::IdleScreenOffCommand => SettingView::Text(c.behavior.idle_screen_off_command@),
        HotKey::IdleScreenOnCommand => SettingView::Text(c.behavior.idle_screen_on_command@),
        HotKey::ResourceRows => SettingView::Flag(c.behavior.resource_rows),
        HotKey::BorderColorFocused => SettingView::Color(c.behavior.border_color_focused@),
        HotKey::BorderGradientColorA => SettingView::Color(c.behavior.border_gradient_color_a@),
        HotKey::BorderGradientColorB => SettingView::Color(c.behavior.border_gradient_color_b@),
        HotKey::BorderGlowColor => SettingView::Color(c.behavior.border_glow_color@),
        HotKey::ClipboardHistory => SettingView::Flag(c.behavior.clipboard_history),
        HotKey::BlurEnabled => SettingView::Flag(c.behavior.blur_enabled),
        HotKey::ShadowEnabled => SettingView::Flag(c.behavior.shadow_enabled),
        HotKey::Compositor => SettingView::Flag(c.behavior.compositor),
        HotKey::CornerRadius => SettingView::Real(c.behavior.corner_radius),
        HotKey::Fading => SettingView::Flag(c.behavior.fading),
        HotKey::WobblyWindows => SettingView::Flag(c.behavior.wobbly_windows),
        HotKey::MotionTrail => SettingView::Flag(c.behavior.motion_trail),
        HotKey::ScreenshotFreezeEnabled => SettingView::Flag(c.behavior.screenshot_freeze_enabled),
        HotKey::RecordingFps => SettingView::Number(c.behavior.recording_fps as int),
        HotKey::RecordingAudioEnabled => SettingView::Flag(c.behavior.recording_audio_enabled),
        HotKey::RecordingAudioDevice => SettingView::Text(c.behavior.recording_audio_device@),
        HotKey::RecordingAudioBitrate => SettingView::Text(c.behavior.recording_audio_bitrate@),
        HotKey::AudioRecordingBackend => SettingView::Text(c.behavior.audio_recording_backend@),
        HotKey::AudioRecordingFormat => SettingView::Text(c.behavior.audio_recording_format@),
        HotKey::AudioRecordingBitrate => SettingView::Text(c.behavior.audio_recording_bitrate@),
    }
}

/// The name of a setting: its section and its field.
pub open spec fn setting_name(key: HotKey) -> Seq<char> {
    match key {
        HotKey::BorderPx => "appearance.border_px"@,
        HotKey::GapPx => "appearance.gap_px"@,
        HotKey::Snap => "appearance.snap"@,
        HotKey::CursorTheme => "appearance.cursor_theme"@,
        HotKey::CursorSize => "appearance.cursor_size"@,
        HotKey::UiTheme => "appearance.ui_theme"@,
        HotKey::MFact => "layout.m_fact"@,
        HotKey::NMaster => "layout.n_master"@,
        HotKey::ShowBar => "status_bar.show_bar"@,
        HotKey::ActiveOpacity => "behavior.active_opacity"@,
        HotKey::InactiveOpacity => "behavior.inactive_opacity"@,
        HotKey::BlurStrength => "behavior.blur_strength"@,
        HotKey::NewClientPosition => "behavior.new_client_position"@,
        HotKey::DragThresholdPx => "behavior.drag_threshold_px"@,
        HotKey::ClientMoveresize => "behavior.client_moveresize"@,
        HotKey::Wallpaper => "behavior.wallpaper"@,
        HotKey::WallpaperMode => "behavior.wallpaper_mode"@,
        HotKey::WallpaperDir => "behavior.wallpaper_dir"@,
        HotKey::WallpaperColors => "behavior.wallpaper_colors"@,
        HotKey::IdleDimSecs => "behavior.idle_dim_secs"@,
        HotKey::IdleDimLevel => "behavior.idle_dim_level"@,
        HotKey::IdleLockSecs => "behavior.idle_lock_secs"@,
        HotKey::IdleScreenOffSecs => "behavior.idle_screen_off_secs"@,
        HotKey::IdleScreenOffCommand => "behavior.idle_screen_off_command"@,
        HotKey::IdleScreenOnCommand => "behavior.idle_screen_on_command"@,
        HotKey::ResourceRows => "behavior.resource_rows"@,
        HotKey::BorderColorFocused => "behavior.border_color_focused"@,
        HotKey::BorderGradientColorA => "behavior.border_gradient_color_a"@,
        HotKey::BorderGradientColorB => "behavior.border_gradient_color_b"@,
        HotKey::BorderGlowColor => "behavior.border_glow_color"@,
        HotKey::ClipboardHistory => "behavior.clipboard_history"@,
        HotKey::BlurEnabled => "behavior.blur_enabled"@,
        HotKey::ShadowEnabled => "behavior.shadow_enabled"@,
        HotKey::Compositor => "behavior.compositor"@,
        HotKey::CornerRadius => "behavior.corner_radius"@,
        HotKey::Fading => "behavior.fading"@,
        HotKey::WobblyWindows => "behavior.wobbly_windows"@,
        HotKey::MotionTrail => "behavior.motion_trail"@,
        HotKey::ScreenshotFreezeEnabled => "behavior.screenshot_freeze_enabled"@,
        HotKey::RecordingFps => "behavior.recording_fps"@,
        HotKey::RecordingAudioEnabled => "behavior.recording_audio_enabled"@,
        HotKey::RecordingAudioDevice => "behavior.recording_audio_device"@,
        HotKey::RecordingAudioBitrate => "behavior.recording_audio_bitrate"@,
        HotKey::AudioRecordingBackend => "behavior.audio_recording_backend"@,
        HotKey::AudioRecordingFormat => "behavior.audio_recording_format"@,
        HotKey::AudioRecordingBitrate => "behavior.audio_recording_bitrate"@,
    }
}

/// Whether two values are of one kind.
pub open spec fn same_kind(a: SettingView, b: SettingView) -> bool {
    match (a, b) {
        (SettingView::Number(_), SettingView::Number(_)) => true,
        (SettingView::Real(_), SettingView::Real(_)) => true,
        (SettingView::Flag(_), SettingView::Flag(_)) => true,
        (SettingView::Color(_), SettingView::Color(_)) => true,
        (SettingView::Text(_), SettingView::Text(_)) => true,
        _ => false,
    }
}

/// Every setting goes by its own name, and no other name stands for it.
#[verifier::rlimit(50)]
#[verifier::spinoff_prover]
pub proof fn settings_go_by_their_names(key: HotKey, name: Seq<char>)
    ensures
        hot_key(setting_name(key)) == Some(key),
        hot_key(name) == Some(key) ==> name == setting_name(key),
{
    reveal_strlit("layout.m_fact");
    reveal_strlit("appearance.snap");
    reveal_strlit("layout.n_master");
    reveal_strlit("behavior.fading");
    reveal_strlit("appearance.gap_px");
    reveal_strlit("behavior.wallpaper");
    reveal_strlit("appearance.ui_theme");
    reveal_strlit("status_bar.show_bar");
    reveal_strlit("behavior.compositor");
    reveal_strlit("appearance.border_px");
    reveal_strlit("behavior.blur_enabled");
    reveal_strlit("behavior.motion_trail");
    reveal_strlit("appearance.cursor_size");
    reveal_strlit("behavior.blur_strength");
    reveal_strlit("behavior.wallpaper_dir");
    reveal_strlit("behavior.idle_dim_secs");
    reveal_strlit("behavior.resource_rows");
    reveal_strlit("behavior.corner_radius");
    reveal_strlit("behavior.recording_fps");
    reveal_strlit("appearance.cursor_theme");
    reveal_strlit("behavior.active_opacity");
    reveal_strlit("behavior.wallpaper_mode");
    reveal_strlit("behavior.idle_dim_level");
    reveal_strlit("behavior.idle_lock_secs");
    reveal_strlit("behavior.shadow_enabled");
    reveal_strlit("behavior.wobbly_windows");
    reveal_strlit("behavior.inactive_opacity");
    reveal_strlit("behavior.wallpaper_colors");
    reveal_strlit("behavior.drag_threshold_px");
    reveal_strlit("behavior.client_moveresize");
    reveal_strlit("behavior.border_glow_color");
    reveal_strlit("behavior.clipboard_history");
    reveal_strlit("behavior.new_client_position");
    reveal_strlit("behavior.idle_screen_off_secs");
    reveal_strlit("behavior.border_color_focused");
    reveal_strlit("behavior.idle_screen_on_command");
    reveal_strlit("behavior.recording_audio_device");
    reveal_strlit("behavior.audio_recording_format");
    reveal_strlit("behavior.idle_screen_off_command");
    reveal_strlit("behavior.border_gradient_color_a");
    reveal_strlit("behavior.border_gradient_color_b");
    reveal_strlit("behavior.recording_audio_enabled");
    reveal_strlit("behavior.recording_audio_bitrate");
    reveal_strlit("behavior.audio_recording_backend");
    reveal_strlit("behavior.audio_recording_bitrate");
    reveal_strlit("behavior.screenshot_freeze_enabled");
    assert("layout.m_fact"@.len() == 13);
    assert("appearance.snap"@.len() == 15 && "appearance.snap"@[0] == 'a');
    assert("layout.n_master"@.len() == 15 && "layout.n_master"@[0] == 'l');
    assert("behavior.fading"@.len() == 15 && "behavior.fading"@[0] == 'b');
    assert("appearance.gap_px"@.len() == 17);
    assert("behavior.wallpaper"@.len() == 18);
    assert("appearance.ui_theme"@.len() == 19 && "appearance.ui_theme"@[0] == 'a');
    assert("status_bar.show_bar"@.len() == 19 && "status_bar.show_bar"@[0] == 's');
    assert("behavior.compositor"@.len() == 19 && "behavior.compositor"@[0] == 'b');
    assert("appearance.border_px"@.len() == 20);
    assert("behavior.blur_enabled"@.len() == 21 && "behavior.blur_enabled"@[9] == 'b');
    assert("behavior.motion_trail"@.len() == 21 && "behavior.motion_trail"@[9] == 'm');
    assert("appearance.cursor_size"@.len() == 22 && "appearance.cursor_size"@[20] == 'z');
    assert("behavior.blur_strength"@.len() == 22 && "behavior.blur_strength"@[20] == 't');
    assert("behavior.wallpaper_dir"@.len() == 22 && "behavior.wallpaper_dir"@[20] == 'i');
    assert("behavior.idle_dim_secs"@.len() == 22 && "behavior.idle_dim_secs"@[20] == 'c');
    assert("behavior.resource_rows"@.len() == 22 && "behavior.resource_rows"@[20] == 'w');
    assert("behavior.corner_radius"@.len() == 22 && "behavior.corner_radius"@[20] == 'u');
    assert("behavior.recording_fps"@.len() == 22 && "behavior.recording_fps"@[20] == 'p');
    assert("appearance.cursor_theme"@.len() == 23 && "appearance.cursor_theme"@[14] == 's');
    assert("behavior.active_opacity"@.len() == 23 && "behavior.active_opacity"@[14] == 'e');
    assert("behavior.wallpaper_mode"@.len() == 23 && "behavior.wallpaper_mode"@[14] == 'a');
    assert("behavior.idle_dim_level"@.len() == 23 && "behavior.idle_dim_level"@[14] == 'd');
    assert("behavior.idle_lock_secs"@.len() == 23 && "behavior.idle_lock_secs"@[14] == 'l');
    assert("behavior.shadow_enabled"@.len() == 23 && "behavior.shadow_enabled"@[14] == 'w');
    assert("behavior.wobbly_windows"@.len() == 23 && "behavior.wobbly_windows"@[14] == 'y');
    assert("behavior.inactive_opacity"@.len() == 25 && "behavior.inactive_opacity"@[9] == 'i');
    assert("behavior.wallpaper_colors"@.len() == 25 && "behavior.wallpaper_colors"@[9] == 'w');
    assert("behavior.drag_threshold_px"@.len() == 26 && "behavior.drag_threshold_px"@[12] == 'g');
    assert("behavior.client_moveresize"@.len() == 26 && "behavior.client_moveresize"@[12] == 'e');
    assert("behavior.border_glow_color"@.len() == 26 && "behavior.border_glow_color"@[12] == 'd');
    assert("behavior.clipboard_history"@.len() == 26 && "behavior.clipboard_history"@[12] == 'p');
    assert("behavior.new_client_position"@.len() == 28);
    assert("behavior.idle_screen_off_secs"@.len() == 29 && "behavior.idle_screen_off_secs"@[9] == 'i');
    assert("behavior.border_color_focused"@.len() == 29 && "behavior.border_color_focused"@[9] == 'b');
    assert("behavior.idle_screen_on_command"@.len() == 31 && "behavior.idle_screen_on_command"@[9] == 'i');
    assert("behavior.recording_audio_device"@.len() == 31 && "behavior.recording_audio_device"@[9] == 'r');
    assert("behavior.audio_recording_format"@.len() == 31 && "behavior.audio_recording_format"@[9] == 'a');
    assert("behavior.idle_screen_off_command"@.len() == 32 && "behavior.idle_screen_off_command"@[9] == 'i' && "behavior.idle_screen_off_command"@[31] == 'd');
    assert("behavior.border_gradient_color_a"@.len() == 32 && "behavior.border_gradient_color_a"@[9] == 'b' && "behavior.border_gradient_color_a"@[31] == 'a');
    assert("behavior.border_gradient_color_b"@.len() == 32 && "behavior.border_gradient_color_b"@[9] == 'b' && "behavior.border_gradient_color_b"@[31] == 'b');
    assert("behavior.recording_audio_enabled"@.len() == 32 && "behavior.recording_audio_enabled"@[9] == 'r' && "behavior.recording_audio_enabled"@[31] == 'd');
    assert("behavior.recording_audio_bitrate"@.len() == 32 && "behavior.recording_audio_bitrate"@[9] == 'r' && "behavior.recording_audio_bitrate"@[31] == 'e');
    assert("behavior.audio_recording_backend"@.len() == 32 && "behavior.audio_recording_backend"@[9] == 'a' && "behavior.audio_recording_backend"@[31] == 'd');
    assert("behavior.audio_recording_bitrate"@.len() == 32 && "behavior.audio_recording_bitrate"@[9] == 'a' && "behavior.audio_recording_bitrate"@[31] == 'e');
    assert("behavior.screenshot_freeze_enabled"@.len() == 34);
}

proof fn active_opacity_is_set(c: BehaviorConfig, v: F32)
    ensures
        with_active_opacity(c, v).active_opacity == v,
{
    reveal(with_active_opacity);
}

proof fn inactive_opacity_is_set(c: BehaviorConfig, v: F32)
    ensures
        with_inactive_opacity(c, v).inactive_opacity == v,
{
    reveal(with_inactive_opacity);
}

proof fn blur_strength_is_set(c: BehaviorConfig, v: u32)
    ensures
        with_blur_strength(c, v).blur_strength == v,
{
    reveal(with_blur_strength);
}

proof fn new_client_position_is_set(c: BehaviorConfig, v: String)
    ensures
        with_new_client_position(c, v).new_client_position == v,
{
    reveal(with_new_client_position);
}

proof fn drag_threshold_px_is_set(c: BehaviorConfig, v: u32)
    ensures
        with_drag_threshold_px(c, v).drag_threshold_px == v,
{
    reveal(with_drag_threshold_px);
}

proof fn client_moveresize_is_set(c: BehaviorConfig, v: String)
    ensures
        with_client_moveresize(c, v).client_moveresize == v,
{
    reveal(with_client_moveresize);
}

proof fn wallpaper_is_set(c: BehaviorConfig, v: String)
    ensures
        with_wallpaper(c, v).wallpaper == v,
{
    reveal(with_wallpaper);
}

proof fn wallpaper_mode_is_set(c: BehaviorConfig, v: String)
    ensures
        with_wallpaper_mode(c, v).wallpaper_mode == v,
{
    reveal(with_wallpaper_mode);
}

proof fn wallpaper_dir_is_set(c: BehaviorConfig, v: String)
    ensures
        with_wallpaper_dir(c, v).wallpaper_dir == v,
{
    reveal(with_wallpaper_dir);
}

proof fn wallpaper_colors_is_set(c: BehaviorConfig, v: bool)
    ensures
        with_wallpaper_colors(c, v).wallpaper_colors == v,
{
    reveal(with_wallpaper_colors);
}

proof fn idle_dim_secs_is_set(c: BehaviorConfig, v: u32)
    ensures
        with_idle_dim_secs(c, v).idle_dim_secs == v,
{
    reveal(with_idle_dim_secs);
}

proof fn idle_dim_level_is_set(c: BehaviorConfig, v: F32)
    ensures
        with_idle_dim_level(c, v).idle_dim_level == v,
{
    reveal(with_idle_dim_level);
}

proof fn idle_lock_secs_is_set(c: BehaviorConfig, v: u32)
    ensures
        with_idle_lock_secs(c, v).idle_lock_secs == v,
{
    reveal(with_idle_lock_secs);
}

proof fn idle_screen_off_secs_is_set(c: BehaviorConfig, v: u32)
    ensures
        with_idle_screen_off_secs(c, v).idle_screen_off_secs == v,
{
    reveal(with_idle_screen_off_secs);
}

proof fn idle_screen_off_command_is_set(c: BehaviorConfig, v: String)
    ensures
        with_idle_screen_off_command(c, v).idle_screen_off_command == v,
{
    reveal(with_idle_screen_off_command);
}

proof fn idle_screen_on_command_is_set(c: BehaviorConfig, v: String)
    ensures
        with_idle_screen_on_command(c, v).idle_screen_on_command == v,
{
    reveal(with_idle_screen_on_command);
}

proof fn resource_rows_is_set(c: BehaviorConfig, v: bool)
    ensures
        with_resource_rows(c, v).resource_rows == v,
{
    reveal(with_resource_rows);
}

proof fn border_color_focused_is_set(c: BehaviorConfig, v: [F32; 4])
    ensures
        with_border_color_focused(c, v).border_color_focused == v,
{
    reveal(with_border_color_focused);
}

proof fn border_gradient_color_a_is_set(c: BehaviorConfig, v: [F32; 4])
    ensures
        with_border_gradient_color_a(c, v).border_gradient_color_a == v,
{
    reveal(with_border_gradient_color_a);
}

proof fn border_gradient_color_b_is_set(c: BehaviorConfig, v: [F32; 4])
    ensures
        with_border_gradient_color_b(c, v).border_gradient_color_b == v,
{
    reveal(with_border_gradient_color_b);
}

proof fn border_glow_color_is_set(c: BehaviorConfig, v: [F32; 4])
    ensures
        with_border_glow_color(c, v).border_glow_color == v,
{
    reveal(with_border_glow_color);
}

proof fn clipboard_history_is_set(c: BehaviorConfig, v: bool)
    ensures
        with_clipboard_history(c, v).clipboard_history == v,
{
    reveal(with_clipboard_history);
}

proof fn blur_enabled_is_set(c: BehaviorConfig, v: bool)
    ensures
        with_blur_enabled(c, v).blur_enabled == v,
{
    reveal(with_blur_enabled);
}

proof fn shadow_enabled_is_set(c: BehaviorConfig, v: bool)
    ensures
        with_shadow_enabled(c, v).shadow_enabled == v,
{
    reveal(with_shadow_enabled);
}

proof fn compositor_is_set(c: BehaviorConfig, v: bool)
    ensures
        with_compositor(c, v).compositor == v,
{
    reveal(with_compositor);
}

proof fn corner_radius_is_set(c: BehaviorConfig, v: F32)
    ensures
        with_corner_radius(c, v).corner_radius == v,
{
    reveal(with_corner_radius);
}

proof fn fading_is_set(c: BehaviorConfig, v: bool)
    ensures
        with_fading(c, v).fading == v,
{
    reveal(with_fading);
}

proof fn wobbly_windows_is_set(c: BehaviorConfig, v: bool)
    ensures
        with_wobbly_windows(c, v).wobbly_windows == v,
{
    reveal(with_wobbly_windows);
}

proof fn motion_trail_is_set(c: BehaviorConfig, v: bool)
    ensures
        with_motion_trail(c, v).motion_trail == v,
{
    reveal(with_motion_trail);
}

proof fn screenshot_freeze_enabled_is_set(c: BehaviorConfig, v: bool)
    ensures
        with_screenshot_freeze_enabled(c, v).screenshot_freeze_enabled == v,
{
    reveal(with_screenshot_freeze_enabled);
}

proof fn recording_fps_is_set(c: BehaviorConfig, v: u32)
    ensures
        with_recording_fps(c, v).recording_fps == v,
{
    reveal(with_recording_fps);
}

proof fn recording_audio_enabled_is_set(c: BehaviorConfig, v: bool)
    ensures
        with_recording_audio_enabled(c, v).recording_audio_enabled == v,
{
    reveal(with_recording_audio_enabled);
}

proof fn recording_audio_device_is_set(c: BehaviorConfig, v: String)
    ensures
        with_recording_audio_device(c, v).recording_audio_device == v,
{
    reveal(with_recording_audio_device);
}

proof fn recording_audio_bitrate_is_set(c: BehaviorConfig, v: String)
    ensures
        with_recording_audio_bitrate(c, v).recording_audio_bitrate == v,
{
    reveal(with_recording_audio_bitrate);
}

proof fn audio_recording_backend_is_set(c: BehaviorConfig, v: String)
    ensures
        with_audio_recording_backend(c, v).audio_recording_backend == v,
{
    reveal(with_audio_recording_backend);
}

proof fn audio_recording_format_is_set(c: BehaviorConfig, v: String)
    ensures
        with_audio_recording_format(c, v).audio_recording_format == v,
{
    reveal(with_audio_recording_format);
}

proof fn audio_recording_bitrate_is_set(c: BehaviorConfig, v: String)
    ensures
        with_audio_recording_bitrate(c, v).audio_recording_bitrate == v,
{
    reveal(with_audio_recording_bitrate);
}

proof fn a_number_is_set(c: TomlConfig, key: HotKey, value: Setting)
    requires
        value is Number,
        setting_in(c, key) is Number,
    ensures
        set_alone(c, key, value),
{
    let b = c.behavior;
    let v = value->Number_0;
    match key {
        HotKey::BlurStrength => blur_strength_is_set(b, v),
        HotKey::DragThresholdPx => drag_threshold_px_is_set(b, v),
        HotKey::IdleDimSecs => idle_dim_secs_is_set(b, v),
        HotKey::IdleLockSecs => idle_lock_secs_is_set(b, v),
        HotKey::IdleScreenOffSecs => idle_screen_off_secs_is_set(b, v),
        HotKey::RecordingFps => recording_fps_is_set(b, v),
        _ => {},
    }
}

proof fn a_real_is_set(c: TomlConfig, key: HotKey, value: Setting)
    requires
        value is Real,
        setting_in(c, key) is Real,
    ensures
        set_alone(c, key, value),
{
    let b = c.behavior;
    let v = value->Real_0;
    match key {
        HotKey::ActiveOpacity => active_opacity_is_set(b, v),
        HotKey::InactiveOpacity => inactive_opacity_is_set(b, v),
        HotKey::IdleDimLevel => idle_dim_level_is_set(b, v),
        HotKey::CornerRadius => corner_radius_is_set(b, v),
        _ => {},
    }
}

proof fn a_flag_is_set(c: TomlConfig, key: HotKey, value: Setting)
    requires
        value is Flag,
        setting_in(c, key) is Flag,
    ensures
        set_alone(c, key, value),
{
    let b = c.behavior;
    let v = value->Flag_0;
    match key {
        HotKey::WallpaperColors => wallpaper_colors_is_set(b, v),
        HotKey::ResourceRows => resource_rows_is_set(b, v),
        HotKey::ClipboardHistory => clipboard_history_is_set(b, v),
        HotKey::BlurEnabled => blur_enabled_is_set(b, v),
        HotKey::ShadowEnabled => shadow_enabled_is_set(b, v),
        HotKey::Compositor => compositor_is_set(b, v),
        HotKey::Fading => fading_is_set(b, v),
        HotKey::WobblyWindows => wobbly_windows_is_set(b, v),
        HotKey::MotionTrail => motion_trail_is_set(b, v),
        HotKey::ScreenshotFreezeEnabled => screenshot_freeze_enabled_is_set(b, v),
        HotKey::RecordingAudioEnabled => recording_audio_enabled_is_set(b, v),
        _ => {},
    }
}

proof fn a_color_is_set(c: TomlConfig, key: HotKey, value: Setting)
    requires
        value is Color,
        setting_in(c, key) is Color,
    ensures
        set_alone(c, key, value),
{
    let b = c.behavior;
    let v = value->Color_0;
    match key {
        HotKey::BorderColorFocused => border_color_focused_is_set(b, v),
        HotKey::BorderGradientColorA => border_gradient_color_a_is_set(b, v),
        HotKey::BorderGradientColorB => border_gradient_color_b_is_set(b, v),
        HotKey::BorderGlowColor => border_glow_color_is_set(b, v),
        _ => {},
    }
}

proof fn a_text_is_set(c: TomlConfig, key: HotKey, value: Setting)
    requires
        value is Text,
        setting_in(c, key) is Text,
    ensures
        set_alone(c, key, value),
{
    let b = c.behavior;
    let v = value->Text_0;
    match key {
        HotKey::NewClientPosition => new_client_position_is_set(b, v),
        HotKey::ClientMoveresize => client_moveresize_is_set(b, v),
        HotKey::Wallpaper => wallpaper_is_set(b, v),
        HotKey::WallpaperMode => wallpaper_mode_is_set(b, v),
        HotKey::WallpaperDir => wallpaper_dir_is_set(b, v),
        HotKey::IdleScreenOffCommand => idle_screen_off_command_is_set(b, v),
        HotKey::IdleScreenOnCommand => idle_screen_on_command_is_set(b, v),
        HotKey::RecordingAudioDevice => recording_audio_device_is_set(b, v),
        HotKey::RecordingAudioBitrate => recording_audio_bitrate_is_set(b, v),
        HotKey::AudioRecordingBackend => audio_recording_backend_is_set(b, v),
        HotKey::AudioRecordingFormat => audio_recording_format_is_set(b, v),
        HotKey::AudioRecordingBitrate => audio_recording_bitrate_is_set(b, v),
        _ => {},
    }
}

spec fn set_alone(c: TomlConfig, key: HotKey, value: Setting) -> bool {
    let after = with_setting(c, key, value);
    &&& setting_in(after, key) == value@
    &&& key.section() != Section::Appearance ==> after.appearance == c.appearance
    &&& key.section() != Section::Layout ==> after.layout == c.layout
    &&& key.section() != Section::StatusBar ==> after.status_bar == c.status_bar
    &&& key.section() != Section::Behavior ==> after.behavior == c.behavior
    &&& after.keybindings == c.keybindings
}

/// A setting that was changed has the value that was stated, and the other
/// sections keep theirs.
pub proof fn settings_take_effect(c: TomlConfig, key: HotKey, value: Setting)
    requires
        same_kind(value@, setting_in(c, key)),
    ensures
        ({
            let after = with_setting(c, key, value);
            &&& setting_in(after, key) == value@
            &&& key.section() != Section::Appearance ==> after.appearance == c.appearance
            &&& key.section() != Section::Layout ==> after.layout == c.layout
            &&& key.section() != Section::StatusBar ==> after.status_bar == c.status_bar
            &&& key.section() != Section::Behavior ==> after.behavior == c.behavior
            &&& after.keybindings == c.keybindings
        }),
{
    match value {
        Setting::Number(_) => a_number_is_set(c, key, value),
        Setting::Real(_) => a_real_is_set(c, key, value),
        Setting::Flag(_) => a_flag_is_set(c, key, value),
        Setting::Color(_) => a_color_is_set(c, key, value),
        Setting::Text(_) => a_text_is_set(c, key, value),
    }
}

/// What a key states is of the kind that its setting has.
pub proof fn stated_values_fit(c: TomlConfig, key: Seq<char>, value: JsonValue, setting: Setting)
    requires
        hot_key(key) is Some,
        stated(key, value) == Ok::<SettingView, Seq<FragmentView>>(setting@),
    ensures
        same_kind(setting@, setting_in(c, hot_key(key)->0)),
{
}

/// An accepted change is what the document holds afterwards, under the name it
/// was made by.
pub proof fn changes_are_read_back(
    before: TomlConfig,
    key: HotKey,
    value: JsonValue,
    after: TomlConfig,
)
    requires
        changed_to(before, setting_name(key), value, after),
    ensures
        stated(setting_name(key), value) == Ok::<SettingView, Seq<FragmentView>>(
            setting_in(after, key),
        ),
{
    let name = setting_name(key);
    settings_go_by_their_names(key, name);
    let s = choose|s: Setting|
        #![trigger s@]
        stated(name, value) == Ok::<SettingView, Seq<FragmentView>>(s@) && hot_key(name) is Some
            && after == with_setting(before, hot_key(name)->0, s);
    stated_values_fit(before, name, value, s);
    settings_take_effect(before, key, s);
}

/// A number is accepted just where it is an unsigned one of 32 bits in the
/// range of its setting, and kept as it is.
pub proof fn numbers_are_accepted_in_range(c: TomlConfig, key: HotKey, num: JsonNumber)
    requires
        setting_in(c, key) is Number,
    ensures
        ({
            let r = stated(setting_name(key), JsonValue::Number(num));
            &&& r is Ok <==> num.unsigned is Some && num.unsigned->0 <= u32::MAX && (key
                == HotKey::CursorSize ==> num.unsigned->0 <= 512) && (key == HotKey::BlurStrength
                ==> num.unsigned->0 <= 5) && (key == HotKey::RecordingFps ==> 1 <= num.unsigned->0
                <= 240)
            &&& r is Ok ==> r->Ok_0 == SettingView::Number(num.unsigned->0 as int)
        }),
{
    settings_go_by_their_names(key, setting_name(key));
}

/// A real number is accepted just where it is in the range of its setting: the
/// part of the masters from 0.05 to 0.95, the radius of corners from 0 to 64,
/// every other one from 0 to 1. It is kept as it is.
pub proof fn real_numbers_are_accepted_in_range(c: TomlConfig, key: HotKey, num: JsonNumber)
    requires
        setting_in(c, key) is Real,
    ensures
        ({
            let r = stated(setting_name(key), JsonValue::Number(num));
            let (low, high) = if key == HotKey::MFact {
                (0x3d4c_cccd, 0x3f73_3333)
            } else if key == HotKey::CornerRadius {
                (0, 0x4280_0000)
            } else {
                (0u32, 0x3f80_0000u32)
            };
            &&& r is Ok <==> num.single.within(F32 { bits: low }, F32 { bits: high })
            &&& r is Ok ==> r->Ok_0 == SettingView::Real(num.single)
        }),
{
    settings_go_by_their_names(key, setting_name(key));
}

/// A flag is kept as it is stated, and nothing but a flag is taken for one.
pub proof fn flags_are_kept(c: TomlConfig, key: HotKey, value: JsonValue)
    requires
        setting_in(c, key) is Flag,
    ensures
        stated(setting_name(key), value) is Ok <==> value is Bool,
        value matches JsonValue::Bool(b) ==> stated(setting_name(key), value) == Ok::<
            SettingView,
            Seq<FragmentView>,
        >(SettingView::Flag(b)),
{
    settings_go_by_their_names(key, setting_name(key));
}

/// A colour is four numbers between 0 and 1, in their order.
pub proof fn colors_are_kept(c: TomlConfig, key: HotKey, items: Vec<JsonValue>)
    requires
        setting_in(c, key) is Color,
    ensures
        ({
            let r = stated(setting_name(key), JsonValue::Array(items));
            &&& r is Ok <==> items@.len() == 4 && forall|i: int|
                0 <= i < 4 ==> is_component(#[trigger] items@[i])
            &&& r is Ok ==> r->Ok_0 == SettingView::Color(
                Seq::new(4, |i: int| items@[i]->Number_0.single),
            )
        }),
{
    settings_go_by_their_names(key, setting_name(key));
    let name = setting_name(key);
    reveal_with_fuel(color_from, 5);
    if items@.len() == 4 {
        let r = color_from(name, items@, 4);
        if r is Ok {
            assert(r->Ok_0 =~= Seq::new(4, |i: int| items@[i]->Number_0.single));
            assert(is_component(items@[0]) && is_component(items@[1]));
            assert(is_component(items@[2]) && is_component(items@[3]));
        }
    }
}

/// Whether a value is a number between 0 and 1.
pub open spec fn is_component(value: JsonValue) -> bool {
    value matches JsonValue::Number(num) && num.single.within(
        F32 { bits: 0 },
        F32 { bits: 0x3f80_0000 },
    )
}

} // verus!
