//! Live overrides of single settings.
use super::types::{AppearanceConfig, BehaviorConfig, Config, LayoutConfig, StatusBarConfig, TomlConfig};
use crate::ieee::F32;
use crate::json::JsonValue;
use crate::message::{m2, m3, m4, n, q, t, w, x, FragmentView, Message};
use crate::text::{
    among, lowered, one_of, replace_char, replaced, str_eq, to_ascii_lower, trim, trimmed,
};
use vstd::prelude::*;

verus! {

/// A setting that can be changed while running.
#[derive(Debug, Clone, Copy, PartialEq, Eq, Structural)]
pub enum HotKey {
    BorderPx,
    GapPx,
    Snap,
    CursorTheme,
    CursorSize,
    UiTheme,
    MFact,
    NMaster,
    ShowBar,
    ActiveOpacity,
    InactiveOpacity,
    BlurStrength,
    NewClientPosition,
    DragThresholdPx,
    ClientMoveresize,
    Wallpaper,
    WallpaperMode,
    WallpaperDir,
    WallpaperColors,
    IdleDimSecs,
    IdleDimLevel,
    IdleLockSecs,
    IdleScreenOffSecs,
    IdleScreenOffCommand,
    IdleScreenOnCommand,
    ResourceRows,
    BorderColorFocused,
    BorderGradientColorA,
    BorderGradientColorB,
    BorderGlowColor,
    ClipboardHistory,
    BlurEnabled,
    ShadowEnabled,
    Compositor,
    CornerRadius,
    Fading,
    WobblyWindows,
    MotionTrail,
    ScreenshotFreezeEnabled,
    RecordingFps,
    RecordingAudioEnabled,
    RecordingAudioDevice,
    RecordingAudioBitrate,
    AudioRecordingBackend,
    AudioRecordingFormat,
    AudioRecordingBitrate,
}

/// A section of the document.
#[derive(Debug, Clone, Copy, PartialEq, Eq, Structural)]
pub enum Section {
    Appearance,
    Layout,
    StatusBar,
    Behavior,
}

/// A range of real numbers.
#[derive(Debug, Clone, Copy, PartialEq, Eq, Structural)]
pub enum RealRange {
    /// From 0.05 to 0.95.
    Fraction,
    /// From 0 to 1.
    Unit,
    /// From 0 to 64.
    Radius,
}

impl RealRange {
    /// The least value.
    pub open spec fn low(self) -> F32 {
        match self {
            RealRange::Fraction => F32 { bits: 0x3d4c_cccd },
            RealRange::Unit => F32 { bits: 0 },
            RealRange::Radius => F32 { bits: 0 },
        }
    }

    /// The greatest value.
    pub open spec fn high(self) -> F32 {
        match self {
            RealRange::Fraction => F32 { bits: 0x3f73_3333 },
            RealRange::Unit => F32 { bits: 0x3f80_0000 },
            RealRange::Radius => F32 { bits: 0x4280_0000 },
        }
    }

    /// The range as the end of a message.
    pub open spec fn refusal(self) -> Seq<char> {
        match self {
            RealRange::Fraction => " out of [0.05, 0.95]"@,
            RealRange::Unit => " out of [0, 1]"@,
            RealRange::Radius => " out of [0, 64]"@,
        }
    }

    fn holds(self, value: F32) -> (r: bool)
        ensures
            r == value.within(self.low(), self.high()),
    {
        let (low, high) = match self {
            RealRange::Fraction => (F32 { bits: 0x3d4c_cccd }, F32 { bits: 0x3f73_3333 }),
            RealRange::Unit => (F32 { bits: 0 }, F32 { bits: 0x3f80_0000 }),
            RealRange::Radius => (F32 { bits: 0 }, F32 { bits: 0x4280_0000 }),
        };
        value.in_range(low, high)
    }

    fn refusal_text(self) -> (r: &'static str)
        ensures
            r@ == self.refusal(),
    {
        match self {
            RealRange::Fraction => " out of [0.05, 0.95]",
            RealRange::Unit => " out of [0, 1]",
            RealRange::Radius => " out of [0, 64]",
        }
    }
}

/// What values a setting takes.
#[derive(Debug, Clone, Copy, PartialEq, Eq, Structural)]
pub enum HotRule {
    /// Any 32-bit unsigned integer.
    AnyNumber,
    /// An unsigned integer from the first to the second.
    Number(u32, u32),
    /// A real number of a range.
    Real(RealRange),
    /// True or false.
    Flag,
    /// Four components between 0 and 1.
    Color,
    /// Any text.
    AnyText,
    /// A text that is not blank.
    Filled,
    /// A theme name, in any case, with underscores for hyphens.
    Theme,
    /// Where a new window goes, in any case.
    Position,
    /// Which windows a client may move, in any case.
    MoveResize,
    /// How a wallpaper is fitted.
    WallpaperMode,
    /// An audio recorder.
    AudioBackend,
    /// An audio format.
    AudioFormat,
}

/// The setting a key names.
pub open spec fn hot_key(key: Seq<char>) -> Option<HotKey> {
    if key == "appearance.border_px"@ {
        Some(HotKey::BorderPx)
    } else if key == "appearance.gap_px"@ {
        Some(HotKey::GapPx)
    } else if key == "appearance.snap"@ {
        Some(HotKey::Snap)
    } else if key == "appearance.cursor_theme"@ {
        Some(HotKey::CursorTheme)
    } else if key == "appearance.cursor_size"@ {
        Some(HotKey::CursorSize)
    } else if key == "appearance.ui_theme"@ {
        Some(HotKey::UiTheme)
    } else if key == "layout.m_fact"@ {
        Some(HotKey::MFact)
    } else if key == "layout.n_master"@ {
        Some(HotKey::NMaster)
    } else if key == "status_bar.show_bar"@ {
        Some(HotKey::ShowBar)
    } else if key == "behavior.active_opacity"@ {
        Some(HotKey::ActiveOpacity)
    } else if key == "behavior.inactive_opacity"@ {
        Some(HotKey::InactiveOpacity)
    } else if key == "behavior.blur_strength"@ {
        Some(HotKey::BlurStrength)
    } else if key == "behavior.new_client_position"@ {
        Some(HotKey::NewClientPosition)
    } else if key == "behavior.drag_threshold_px"@ {
        Some(HotKey::DragThresholdPx)
    } else if key == "behavior.client_moveresize"@ {
        Some(HotKey::ClientMoveresize)
    } else if key == "behavior.wallpaper"@ {
        Some(HotKey::Wallpaper)
    } else if key == "behavior.wallpaper_mode"@ {
        Some(HotKey::WallpaperMode)
    } else if key == "behavior.wallpaper_dir"@ {
        Some(HotKey::WallpaperDir)
    } else if key == "behavior.wallpaper_colors"@ {
        Some(HotKey::WallpaperColors)
    } else if key == "behavior.idle_dim_secs"@ {
        Some(HotKey::IdleDimSecs)
    } else if key == "behavior.idle_dim_level"@ {
        Some(HotKey::IdleDimLevel)
    } else if key == "behavior.idle_lock_secs"@ {
        Some(HotKey::IdleLockSecs)
    } else if key == "behavior.idle_screen_off_secs"@ {
        Some(HotKey::IdleScreenOffSecs)
    } else if key == "behavior.idle_screen_off_command"@ {
        Some(HotKey::IdleScreenOffCommand)
    } else if key == "behavior.idle_screen_on_command"@ {
        Some(HotKey::IdleScreenOnCommand)
    } else if key == "behavior.resource_rows"@ {
        Some(HotKey::ResourceRows)
    } else if key == "behavior.border_color_focused"@ {
        Some(HotKey::BorderColorFocused)
    } else if key == "behavior.border_gradient_color_a"@ {
        Some(HotKey::BorderGradientColorA)
    } else if key == "behavior.border_gradient_color_b"@ {
        Some(HotKey::BorderGradientColorB)
    } else if key == "behavior.border_glow_color"@ {
        Some(HotKey::BorderGlowColor)
    } else if key == "behavior.clipboard_history"@ {
        Some(HotKey::ClipboardHistory)
    } else if key == "behavior.blur_enabled"@ {
        Some(HotKey::BlurEnabled)
    } else if key == "behavior.shadow_enabled"@ {
        Some(HotKey::ShadowEnabled)
    } else if key == "behavior.compositor"@ {
        Some(HotKey::Compositor)
    } else if key == "behavior.corner_radius"@ {
        Some(HotKey::CornerRadius)
    } else if key == "behavior.fading"@ {
        Some(HotKey::Fading)
    } else if key == "behavior.wobbly_windows"@ {
        Some(HotKey::WobblyWindows)
    } else if key == "behavior.motion_trail"@ {
        Some(HotKey::MotionTrail)
    } else if key == "behavior.screenshot_freeze_enabled"@ {
        Some(HotKey::ScreenshotFreezeEnabled)
    } else if key == "behavior.recording_fps"@ {
        Some(HotKey::RecordingFps)
    } else if key == "behavior.recording_audio_enabled"@ {
        Some(HotKey::RecordingAudioEnabled)
    } else if key == "behavior.recording_audio_device"@ {
        Some(HotKey::RecordingAudioDevice)
    } else if key == "behavior.recording_audio_bitrate"@ {
        Some(HotKey::RecordingAudioBitrate)
    } else if key == "behavior.audio_recording_backend"@ {
        Some(HotKey::AudioRecordingBackend)
    } else if key == "behavior.audio_recording_format"@ {
        Some(HotKey::AudioRecordingFormat)
    } else if key == "behavior.audio_recording_bitrate"@ {
        Some(HotKey::AudioRecordingBitrate)
    } else {
        None
    }
}

fn hot_key_named(key: &str) -> (r: Option<HotKey>)
    ensures
        r == hot_key(key@),
{
    if str_eq(key, "appearance.border_px") {
        Some(HotKey::BorderPx)
    } else if str_eq(key, "appearance.gap_px") {
        Some(HotKey::GapPx)
    } else if str_eq(key, "appearance.snap") {
        Some(HotKey::Snap)
    } else if str_eq(key, "appearance.cursor_theme") {
        Some(HotKey::CursorTheme)
    } else if str_eq(key, "appearance.cursor_size") {
        Some(HotKey::CursorSize)
    } else if str_eq(key, "appearance.ui_theme") {
        Some(HotKey::UiTheme)
    } else if str_eq(key, "layout.m_fact") {
        Some(HotKey::MFact)
    } else if str_eq(key, "layout.n_master") {
        Some(HotKey::NMaster)
    } else if str_eq(key, "status_bar.show_bar") {
        Some(HotKey::ShowBar)
    } else if str_eq(key, "behavior.active_opacity") {
        Some(HotKey::ActiveOpacity)
    } else if str_eq(key, "behavior.inactive_opacity") {
        Some(HotKey::InactiveOpacity)
    } else if str_eq(key, "behavior.blur_strength") {
        Some(HotKey::BlurStrength)
    } else if str_eq(key, "behavior.new_client_position") {
        Some(HotKey::NewClientPosition)
    } else if str_eq(key, "behavior.drag_threshold_px") {
        Some(HotKey::DragThresholdPx)
    } else if str_eq(key, "behavior.client_moveresize") {
        Some(HotKey::ClientMoveresize)
    } else if str_eq(key, "behavior.wallpaper") {
        Some(HotKey::Wallpaper)
    } else if str_eq(key, "behavior.wallpaper_mode") {
        Some(HotKey::WallpaperMode)
    } else if str_eq(key, "behavior.wallpaper_dir") {
        Some(HotKey::WallpaperDir)
    } else if str_eq(key, "behavior.wallpaper_colors") {
        Some(HotKey::WallpaperColors)
    } else if str_eq(key, "behavior.idle_dim_secs") {
        Some(HotKey::IdleDimSecs)
    } else if str_eq(key, "behavior.idle_dim_level") {
        Some(HotKey::IdleDimLevel)
    } else if str_eq(key, "behavior.idle_lock_secs") {
        Some(HotKey::IdleLockSecs)
    } else if str_eq(key, "behavior.idle_screen_off_secs") {
        Some(HotKey::IdleScreenOffSecs)
    } else if str_eq(key, "behavior.idle_screen_off_command") {
        Some(HotKey::IdleScreenOffCommand)
    } else if str_eq(key, "behavior.idle_screen_on_command") {
        Some(HotKey::IdleScreenOnCommand)
    } else if str_eq(key, "behavior.resource_rows") {
        Some(HotKey::ResourceRows)
    } else if str_eq(key, "behavior.border_color_focused") {
        Some(HotKey::BorderColorFocused)
    } else if str_eq(key, "behavior.border_gradient_color_a") {
        Some(HotKey::BorderGradientColorA)
    } else if str_eq(key, "behavior.border_gradient_color_b") {
        Some(HotKey::BorderGradientColorB)
    } else if str_eq(key, "behavior.border_glow_color") {
        Some(HotKey::BorderGlowColor)
    } else if str_eq(key, "behavior.clipboard_history") {
        Some(HotKey::ClipboardHistory)
    } else if str_eq(key, "behavior.blur_enabled") {
        Some(HotKey::BlurEnabled)
    } else if str_eq(key, "behavior.shadow_enabled") {
        Some(HotKey::ShadowEnabled)
    } else if str_eq(key, "behavior.compositor") {
        Some(HotKey::Compositor)
    } else if str_eq(key, "behavior.corner_radius") {
        Some(HotKey::CornerRadius)
    } else if str_eq(key, "behavior.fading") {
        Some(HotKey::Fading)
    } else if str_eq(key, "behavior.wobbly_windows") {
        Some(HotKey::WobblyWindows)
    } else if str_eq(key, "behavior.motion_trail") {
        Some(HotKey::MotionTrail)
    } else if str_eq(key, "behavior.screenshot_freeze_enabled") {
        Some(HotKey::ScreenshotFreezeEnabled)
    } else if str_eq(key, "behavior.recording_fps") {
        Some(HotKey::RecordingFps)
    } else if str_eq(key, "behavior.recording_audio_enabled") {
        Some(HotKey::RecordingAudioEnabled)
    } else if str_eq(key, "behavior.recording_audio_device") {
        Some(HotKey::RecordingAudioDevice)
    } else if str_eq(key, "behavior.recording_audio_bitrate") {
        Some(HotKey::RecordingAudioBitrate)
    } else if str_eq(key, "behavior.audio_recording_backend") {
        Some(HotKey::AudioRecordingBackend)
    } else if str_eq(key, "behavior.audio_recording_format") {
        Some(HotKey::AudioRecordingFormat)
    } else if str_eq(key, "behavior.audio_recording_bitrate") {
        Some(HotKey::AudioRecordingBitrate)
    } else {
        None
    }
}

impl HotKey {
    /// The section the setting stands in.
    pub open spec fn section(self) -> Section {
        match self {
            HotKey::BorderPx => Section::Appearance,
            HotKey::GapPx => Section::Appearance,
            HotKey::Snap => Section::Appearance,
            HotKey::CursorTheme => Section::Appearance,
            HotKey::CursorSize => Section::Appearance,
            HotKey::UiTheme => Section::Appearance,
            HotKey::MFact => Section::Layout,
            HotKey::NMaster => Section::Layout,
            HotKey::ShowBar => Section::StatusBar,
            _ => Section::Behavior,
        }
    }

    fn section_of(self) -> (r: Section)
        ensures
            r == self.section(),
    {
        match self {
            HotKey::BorderPx => Section::Appearance,
            HotKey::GapPx => Section::Appearance,
            HotKey::Snap => Section::Appearance,
            HotKey::CursorTheme => Section::Appearance,
            HotKey::CursorSize => Section::Appearance,
            HotKey::UiTheme => Section::Appearance,
            HotKey::MFact => Section::Layout,
            HotKey::NMaster => Section::Layout,
            HotKey::ShowBar => Section::StatusBar,
            _ => Section::Behavior,
        }
    }

    /// What values the setting takes.
    pub open spec fn rule_of(self) -> HotRule {
        match self {
            HotKey::BorderPx => HotRule::AnyNumber,
            HotKey::GapPx => HotRule::AnyNumber,
            HotKey::Snap => HotRule::AnyNumber,
            HotKey::CursorTheme => HotRule::AnyText,
            HotKey::CursorSize => HotRule::Number(0, 512),
            HotKey::UiTheme => HotRule::Theme,
            HotKey::MFact => HotRule::Real(RealRange::Fraction),
            HotKey::NMaster => HotRule::AnyNumber,
            HotKey::ShowBar => HotRule::Flag,
            HotKey::ActiveOpacity => HotRule::Real(RealRange::Unit),
            HotKey::InactiveOpacity => HotRule::Real(RealRange::Unit),
            HotKey::BlurStrength => HotRule::Number(0, 5),
            HotKey::NewClientPosition => HotRule::Position,
            HotKey::DragThresholdPx => HotRule::AnyNumber,
            HotKey::ClientMoveresize => HotRule::MoveResize,
            HotKey::Wallpaper => HotRule::AnyText,
            HotKey::WallpaperMode => HotRule::WallpaperMode,
            HotKey::WallpaperDir => HotRule::AnyText,
            HotKey::WallpaperColors => HotRule::Flag,
            HotKey::IdleDimSecs => HotRule::AnyNumber,
            HotKey::IdleDimLevel => HotRule::Real(RealRange::Unit),
            HotKey::IdleLockSecs => HotRule::AnyNumber,
            HotKey::IdleScreenOffSecs => HotRule::AnyNumber,
            HotKey::IdleScreenOffCommand => HotRule::AnyText,
            HotKey::IdleScreenOnCommand => HotRule::AnyText,
            HotKey::ResourceRows => HotRule::Flag,
            HotKey::BorderColorFocused => HotRule::Color,
            HotKey::BorderGradientColorA => HotRule::Color,
            HotKey::BorderGradientColorB => HotRule::Color,
            HotKey::BorderGlowColor => HotRule::Color,
            HotKey::ClipboardHistory => HotRule::Flag,
            HotKey::BlurEnabled => HotRule::Flag,
            HotKey::ShadowEnabled => HotRule::Flag,
            HotKey::Compositor => HotRule::Flag,
            HotKey::CornerRadius => HotRule::Real(RealRange::Radius),
            HotKey::Fading => HotRule::Flag,
            HotKey::WobblyWindows => HotRule::Flag,
            HotKey::MotionTrail => HotRule::Flag,
            HotKey::ScreenshotFreezeEnabled => HotRule::Flag,
            HotKey::RecordingFps => HotRule::Number(1, 240),
            HotKey::RecordingAudioEnabled => HotRule::Flag,
            HotKey::RecordingAudioDevice => HotRule::Filled,
            HotKey::RecordingAudioBitrate => HotRule::Filled,
            HotKey::AudioRecordingBackend => HotRule::AudioBackend,
            HotKey::AudioRecordingFormat => HotRule::AudioFormat,
            HotKey::AudioRecordingBitrate => HotRule::Filled,
        }
    }

    /// What values the setting takes.
    pub fn rule(self) -> (r: HotRule)
        ensures
            r == self.rule_of(),
    {
        match self {
            HotKey::BorderPx => HotRule::AnyNumber,
            HotKey::GapPx => HotRule::AnyNumber,
            HotKey::Snap => HotRule::AnyNumber,
            HotKey::CursorTheme => HotRule::AnyText,
            HotKey::CursorSize => HotRule::Number(0, 512),
            HotKey::UiTheme => HotRule::Theme,
            HotKey::MFact => HotRule::Real(RealRange::Fraction),
            HotKey::NMaster => HotRule::AnyNumber,
            HotKey::ShowBar => HotRule::Flag,
            HotKey::ActiveOpacity => HotRule::Real(RealRange::Unit),
            HotKey::InactiveOpacity => HotRule::Real(RealRange::Unit),
            HotKey::BlurStrength => HotRule::Number(0, 5),
            HotKey::NewClientPosition => HotRule::Position,
            HotKey::DragThresholdPx => HotRule::AnyNumber,
            HotKey::ClientMoveresize => HotRule::MoveResize,
            HotKey::Wallpaper => HotRule::AnyText,
            HotKey::WallpaperMode => HotRule::WallpaperMode,
            HotKey::WallpaperDir => HotRule::AnyText,
            HotKey::WallpaperColors => HotRule::Flag,
            HotKey::IdleDimSecs => HotRule::AnyNumber,
            HotKey::IdleDimLevel => HotRule::Real(RealRange::Unit),
            HotKey::IdleLockSecs => HotRule::AnyNumber,
            HotKey::IdleScreenOffSecs => HotRule::AnyNumber,
            HotKey::IdleScreenOffCommand => HotRule::AnyText,
            HotKey::IdleScreenOnCommand => HotRule::AnyText,
            HotKey::ResourceRows => HotRule::Flag,
            HotKey::BorderColorFocused => HotRule::Color,
            HotKey::BorderGradientColorA => HotRule::Color,
            HotKey::BorderGradientColorB => HotRule::Color,
            HotKey::BorderGlowColor => HotRule::Color,
            HotKey::ClipboardHistory => HotRule::Flag,
            HotKey::BlurEnabled => HotRule::Flag,
            HotKey::ShadowEnabled => HotRule::Flag,
            HotKey::Compositor => HotRule::Flag,
            HotKey::CornerRadius => HotRule::Real(RealRange::Radius),
            HotKey::Fading => HotRule::Flag,
            HotKey::WobblyWindows => HotRule::Flag,
            HotKey::MotionTrail => HotRule::Flag,
            HotKey::ScreenshotFreezeEnabled => HotRule::Flag,
            HotKey::RecordingFps => HotRule::Number(1, 240),
            HotKey::RecordingAudioEnabled => HotRule::Flag,
            HotKey::RecordingAudioDevice => HotRule::Filled,
            HotKey::RecordingAudioBitrate => HotRule::Filled,
            HotKey::AudioRecordingBackend => HotRule::AudioBackend,
            HotKey::AudioRecordingFormat => HotRule::AudioFormat,
            HotKey::AudioRecordingBitrate => HotRule::Filled,
        }
    }
}

/// A value for a setting.
#[derive(Debug)]
pub enum Setting {
    Number(u32),
    Real(F32),
    Flag(bool),
    Color([F32; 4]),
    Text(String),
}

/// A value for a setting as a mathematical value.
pub enum SettingView {
    Number(int),
    Real(F32),
    Flag(bool),
    Color(Seq<F32>),
    Text(Seq<char>),
}

impl View for Setting {
    type V = SettingView;

    open spec fn view(&self) -> SettingView {
        match *self {
            Setting::Number(i) => SettingView::Number(i as int),
            Setting::Real(v) => SettingView::Real(v),
            Setting::Flag(b) => SettingView::Flag(b),
            Setting::Color(c) => SettingView::Color(c@),
            Setting::Text(s) => SettingView::Text(s@),
        }
    }
}

/// A decoded value, or the message of its refusal.
pub type Decoded = Result<SettingView, Seq<FragmentView>>;

/// `expected` for the key.
pub open spec fn expected(what: &str, key: Seq<char>) -> Seq<FragmentView> {
    m3(t(what), w(key), t("'"))
}

/// The unsigned 32-bit integer a value is.
pub open spec fn small_number(value: JsonValue) -> Option<int> {
    match value {
        JsonValue::Number(num) => match num.unsigned {
            Some(u) => if u <= u32::MAX {
                Some(u as int)
            } else {
                None
            },
            None => None,
        },
        _ => None,
    }
}

fn as_u32(value: &JsonValue) -> (r: Option<u32>)
    ensures
        match r {
            Some(i) => small_number(*value) == Some(i as int),
            None => small_number(*value) is None,
        },
{
    match value {
        JsonValue::Number(num) => match num.unsigned {
            Some(u) => if u <= u32::MAX as u64 {
                Some(u as u32)
            } else {
                None
            },
            None => None,
        },
        _ => None,
    }
}

/// A colour from an array of four numbers between 0 and 1.
pub open spec fn color_from(key: Seq<char>, items: Seq<JsonValue>, count: int) -> Result<
    Seq<F32>,
    Seq<FragmentView>,
>
    decreases count,
{
    if count <= 0 {
        Ok(Seq::empty())
    } else {
        match color_from(key, items, count - 1) {
            Err(e) => Err(e),
            Ok(rgba) => match items[count - 1] {
                JsonValue::Number(num) => if num.single.within(
                    RealRange::Unit.low(),
                    RealRange::Unit.high(),
                ) {
                    Ok(rgba.push(num.single))
                } else {
                    Err(m4(w(key), t("="), x(num.single), t(" out of [0, 1]")))
                },
                _ => Err(expected("expected numbers in '", key)),
            },
        }
    }
}

fn decode_color(key: &str, items: &Vec<JsonValue>) -> (r: Result<[F32; 4], Message>)
    requires
        items@.len() == 4,
    ensures
        match r {
            Ok(rgba) => color_from(key@, items@, 4) == Ok::<Seq<F32>, Seq<FragmentView>>(rgba@),
            Err(e) => color_from(key@, items@, 4) == Err::<Seq<F32>, Seq<FragmentView>>(e@),
        },
{
    let mut rgba: [F32; 4] = [F32 { bits: 0 }, F32 { bits: 0 }, F32 { bits: 0 }, F32 { bits: 0 }];
    let mut i: usize = 0;
    assert(rgba@.take(0) == Seq::<F32>::empty());
    while i < 4
        invariant
            i <= 4,
            items@.len() == 4,
            color_from(key@, items@, i as int) == Ok::<Seq<F32>, Seq<FragmentView>>(
                rgba@.take(i as int),
            ),
        decreases 4 - i,
    {
        match &items[i] {
            JsonValue::Number(num) => {
                if !RealRange::Unit.holds(num.single) {
                    let refusal = Message::new().text(key).text("=").single(num.single).text(
                        " out of [0, 1]",
                    );
                    proof {
                        first_failure(key@, items@, i + 1, refusal@);
                    }
                    return Err(refusal);
                }
                let ghost before = rgba@.take(i as int);
                rgba[i] = num.single;
                assert(rgba@.take(i + 1) == before.push(num.single));
            },
            _ => {
                let refusal = Message::new().text("expected numbers in '").text(key).text("'");
                proof {
                    first_failure(key@, items@, i + 1, refusal@);
                }
                return Err(refusal);
            },
        }
        i += 1;
    }
    assert(rgba@.take(4) == rgba@);
    Ok(rgba)
}

proof fn first_failure(key: Seq<char>, items: Seq<JsonValue>, count: int, e: Seq<FragmentView>)
    requires
        0 <= count <= 4,
        color_from(key, items, count) == Err::<Seq<F32>, Seq<FragmentView>>(e),
    ensures
        color_from(key, items, 4) == Err::<Seq<F32>, Seq<FragmentView>>(e),
    decreases 4 - count,
{
    if count < 4 {
        first_failure(key, items, count + 1, e);
    }
}

/// The theme names.
pub open spec fn themes() -> Seq<&'static str> {
    seq!["material", "glass", "glass-dark", "aurora", "nord", "tokyo-night", "paper"]
}

/// The places of a new window.
pub open spec fn positions() -> Seq<&'static str> {
    seq!["master", "tail", "after_focused"]
}

/// Which windows a client may move.
pub open spec fn move_policies() -> Seq<&'static str> {
    seq!["always", "floating-only", "never"]
}

/// The ways to fit a wallpaper.
pub open spec fn fits() -> Seq<&'static str> {
    seq!["fill", "fit", "stretch", "center"]
}

/// The audio recorders.
pub open spec fn recorders() -> Seq<&'static str> {
    seq!["auto", "direct", "ffmpeg"]
}

/// The audio formats.
pub open spec fn formats() -> Seq<&'static str> {
    seq!["wav", "flac", "opus", "mp3"]
}

/// A theme name in canonical form.
pub open spec fn canonical_theme(s: Seq<char>) -> Seq<char> {
    replaced(lowered(trimmed(s)), '_', '-')
}

/// A text value under a rule for texts.
pub open spec fn text_value(key: Seq<char>, rule: HotRule, s: Seq<char>) -> Decoded {
    match rule {
        HotRule::Filled => if trimmed(s).len() == 0 {
            Err(m2(w(key), t(" must not be empty")))
        } else {
            Ok(SettingView::Text(s))
        },
        HotRule::Theme => if among(canonical_theme(s), themes()) {
            Ok(SettingView::Text(canonical_theme(s)))
        } else {
            Err(
                m4(
                    w(key),
                    t("="),
                    w(s),
                    t(" is not one of: material, glass, glass-dark, aurora, nord, tokyo-night, paper"),
                ),
            )
        },
        HotRule::Position => if among(lowered(trimmed(s)), positions()) {
            Ok(SettingView::Text(lowered(trimmed(s))))
        } else {
            Err(m4(w(key), t("="), q(s), t(" (expected master, tail, or after_focused)")))
        },
        HotRule::MoveResize => if among(lowered(trimmed(s)), move_policies()) {
            Ok(SettingView::Text(lowered(trimmed(s))))
        } else {
            Err(m4(w(key), t("="), q(s), t(" (expected always, floating-only, or never)")))
        },
        HotRule::WallpaperMode => if among(s, fits()) {
            Ok(SettingView::Text(s))
        } else {
            Err(m4(w(key), t("="), q(s), t(" (expected fill, fit, stretch, or center)")))
        },
        HotRule::AudioBackend => if among(s, recorders()) {
            Ok(SettingView::Text(s))
        } else {
            Err(m2(w(key), t(" must be auto, direct, or ffmpeg")))
        },
        HotRule::AudioFormat => if among(s, formats()) {
            Ok(SettingView::Text(s))
        } else {
            Err(m2(w(key), t(" must be wav, flac, opus, or mp3")))
        },
        _ => Ok(SettingView::Text(s)),
    }
}

/// The setting a value states under a rule.
pub open spec fn decoded(key: Seq<char>, rule: HotRule, value: JsonValue) -> Decoded {
    match rule {
        HotRule::AnyNumber => match small_number(value) {
            Some(i) => Ok(SettingView::Number(i)),
            None => Err(expected("expected u32 for '", key)),
        },
        HotRule::Number(low, high) => match small_number(value) {
            Some(i) => if low <= i <= high {
                Ok(SettingView::Number(i))
            } else {
                Err(
                    m4(w(key), t("="), n(i), t(" out of [")).push(n(low as int)).push(
                        t(", "),
                    ).push(n(high as int)).push(t("]")),
                )
            },
            None => Err(expected("expected u32 for '", key)),
        },
        HotRule::Real(range) => match value {
            JsonValue::Number(num) => if num.single.within(range.low(), range.high()) {
                Ok(SettingView::Real(num.single))
            } else {
                Err(m4(w(key), t("="), x(num.single), w(range.refusal())))
            },
            _ => Err(expected("expected number for '", key)),
        },
        HotRule::Flag => match value {
            JsonValue::Bool(b) => Ok(SettingView::Flag(b)),
            _ => Err(expected("expected bool for '", key)),
        },
        HotRule::Color => match value {
            JsonValue::Array(items) => if items@.len() == 4 {
                match color_from(key, items@, 4) {
                    Ok(rgba) => Ok(SettingView::Color(rgba)),
                    Err(e) => Err(e),
                }
            } else {
                Err(expected("expected [r, g, b, a] for '", key))
            },
            _ => Err(expected("expected [r, g, b, a] for '", key)),
        },
        _ => match value {
            JsonValue::String(s) => text_value(key, rule, s@),
            _ => Err(expected("expected string for '", key)),
        },
    }
}

fn refuse(what: &str, key: &str) -> (r: Message)
    ensures
        r@ == expected(what, key@),
{
    Message::new().text(what).text(key).text("'")
}

fn decode_text(key: &str, rule: HotRule, s: &str) -> (r: Result<Setting, Message>)
    ensures
        match r {
            Ok(v) => text_value(key@, rule, s@) == Ok::<SettingView, Seq<FragmentView>>(v@),
            Err(e) => text_value(key@, rule, s@) == Err::<SettingView, Seq<FragmentView>>(e@),
        },
{
    match rule {
        HotRule::Filled => {
            if trim(s).as_str().is_empty() {
                return Err(Message::new().text(key).text(" must not be empty"));
            }
            Ok(Setting::Text(s.to_string()))
        },
        HotRule::Theme => {
            let name = to_ascii_lower(trim(s).as_str());
            let name = replace_char(name.as_str(), '_', '-');
            let known: Vec<&'static str> = vec![
                "material",
                "glass",
                "glass-dark",
                "aurora",
                "nord",
                "tokyo-night",
                "paper",
            ];
            assert(known@ == themes());
            if !one_of(name.as_str(), known.as_slice()) {
                return Err(
                    Message::new().text(key).text("=").text(s).text(
                        " is not one of: material, glass, glass-dark, aurora, nord, tokyo-night, paper",
                    ),
                );
            }
            Ok(Setting::Text(name))
        },
        HotRule::Position => {
            let name = to_ascii_lower(trim(s).as_str());
            let known: Vec<&'static str> = vec!["master", "tail", "after_focused"];
            assert(known@ == positions());
            if !one_of(name.as_str(), known.as_slice()) {
                return Err(
                    Message::new().text(key).text("=").quoted(s).text(
                        " (expected master, tail, or after_focused)",
                    ),
                );
            }
            Ok(Setting::Text(name))
        },
        HotRule::MoveResize => {
            let name = to_ascii_lower(trim(s).as_str());
            let known: Vec<&'static str> = vec!["always", "floating-only", "never"];
            assert(known@ == move_policies());
            if !one_of(name.as_str(), known.as_slice()) {
                return Err(
                    Message::new().text(key).text("=").quoted(s).text(
                        " (expected always, floating-only, or never)",
                    ),
                );
            }
            Ok(Setting::Text(name))
        },
        HotRule::WallpaperMode => {
            let known: Vec<&'static str> = vec!["fill", "fit", "stretch", "center"];
            assert(known@ == fits());
            if !one_of(s, known.as_slice()) {
                return Err(
                    Message::new().text(key).text("=").quoted(s).text(
                        " (expected fill, fit, stretch, or center)",
                    ),
                );
            }
            Ok(Setting::Text(s.to_string()))
        },
        HotRule::AudioBackend => {
            let known: Vec<&'static str> = vec!["auto", "direct", "ffmpeg"];
            assert(known@ == recorders());
            if !one_of(s, known.as_slice()) {
                return Err(Message::new().text(key).text(" must be auto, direct, or ffmpeg"));
            }
            Ok(Setting::Text(s.to_string()))
        },
        HotRule::AudioFormat => {
            let known: Vec<&'static str> = vec!["wav", "flac", "opus", "mp3"];
            assert(known@ == formats());
            if !one_of(s, known.as_slice()) {
                return Err(Message::new().text(key).text(" must be wav, flac, opus, or mp3"));
            }
            Ok(Setting::Text(s.to_string()))
        },
        _ => Ok(Setting::Text(s.to_string())),
    }
}

/// The setting a value states under a rule, or the message of its refusal.
pub fn decode_setting(key: &str, rule: HotRule, value: &JsonValue) -> (r: Result<Setting, Message>)
    ensures
        match r {
            Ok(v) => decoded(key@, rule, *value) == Ok::<SettingView, Seq<FragmentView>>(v@),
            Err(e) => decoded(key@, rule, *value) == Err::<SettingView, Seq<FragmentView>>(e@),
        },
{
    match rule {
        HotRule::AnyNumber => match as_u32(value) {
            Some(i) => Ok(Setting::Number(i)),
            None => Err(refuse("expected u32 for '", key)),
        },
        HotRule::Number(low, high) => match as_u32(value) {
            Some(i) => if low <= i && i <= high {
                Ok(Setting::Number(i))
            } else {
                Err(
                    Message::new().text(key).text("=").number(i as u64).text(" out of [").number(
                        low as u64,
                    ).text(", ").number(high as u64).text("]"),
                )
            },
            None => Err(refuse("expected u32 for '", key)),
        },
        HotRule::Real(range) => match value {
            JsonValue::Number(num) => if range.holds(num.single) {
                Ok(Setting::Real(num.single))
            } else {
                Err(
                    Message::new().text(key).text("=").single(num.single).text(
                        range.refusal_text(),
                    ),
                )
            },
            _ => Err(refuse("expected number for '", key)),
        },
        HotRule::Flag => match value {
            JsonValue::Bool(b) => Ok(Setting::Flag(*b)),
            _ => Err(refuse("expected bool for '", key)),
        },
        HotRule::Color => match value {
            JsonValue::Array(items) => if items.len() == 4 {
                match decode_color(key, items) {
                    Ok(rgba) => Ok(Setting::Color(rgba)),
                    Err(e) => Err(e),
                }
            } else {
                Err(refuse("expected [r, g, b, a] for '", key))
            },
            _ => Err(refuse("expected [r, g, b, a] for '", key)),
        },
        _ => match value {
            JsonValue::String(s) => decode_text(key, rule, s.as_str()),
            _ => Err(refuse("expected string for '", key)),
        },
    }
}

/// The `appearance` section with a number changed.
pub open spec fn appearance_with_number(c: AppearanceConfig, key: HotKey, v: u32) -> AppearanceConfig {
    match key {
        HotKey::BorderPx => AppearanceConfig { border_px: v, ..c },
        HotKey::GapPx => AppearanceConfig { gap_px: v, ..c },
        HotKey::Snap => AppearanceConfig { snap: v, ..c },
        HotKey::CursorSize => AppearanceConfig { cursor_size: v, ..c },
        _ => c,
    }
}

fn set_appearance_number(c: &mut AppearanceConfig, key: HotKey, v: u32)
    ensures
        *final(c) == appearance_with_number(*old(c), key, v),
{
    match key {
        HotKey::BorderPx => c.border_px = v,
        HotKey::GapPx => c.gap_px = v,
        HotKey::Snap => c.snap = v,
        HotKey::CursorSize => c.cursor_size = v,
        _ => {},
    }
}

/// The `layout` section with a number changed.
pub open spec fn layout_with_number(c: LayoutConfig, key: HotKey, v: u32) -> LayoutConfig {
    match key {
        HotKey::NMaster => LayoutConfig { n_master: v, ..c },
        _ => c,
    }
}

fn set_layout_number(c: &mut LayoutConfig, key: HotKey, v: u32)
    ensures
        *final(c) == layout_with_number(*old(c), key, v),
{
    match key {
        HotKey::NMaster => c.n_master = v,
        _ => {},
    }
}

/// The section with another `blur_strength`.
#[verifier::opaque]
pub open spec fn with_blur_strength(c: BehaviorConfig, v: u32) -> BehaviorConfig {
    BehaviorConfig { blur_strength: v, ..c }
}

fn set_blur_strength(c: &mut BehaviorConfig, v: u32)
    ensures
        *final(c) == with_blur_strength(*old(c), v),
{
    c.blur_strength = v;
    reveal(with_blur_strength);
}

/// The section with another `drag_threshold_px`.
#[verifier::opaque]
pub open spec fn with_drag_threshold_px(c: BehaviorConfig, v: u32) -> BehaviorConfig {
    BehaviorConfig { drag_threshold_px: v, ..c }
}

fn set_drag_threshold_px(c: &mut BehaviorConfig, v: u32)
    ensures
        *final(c) == with_drag_threshold_px(*old(c), v),
{
    c.drag_threshold_px = v;
    reveal(with_drag_threshold_px);
}

/// The section with another `idle_dim_secs`.
#[verifier::opaque]
pub open spec fn with_idle_dim_secs(c: BehaviorConfig, v: u32) -> BehaviorConfig {
    BehaviorConfig { idle_dim_secs: v as u64, ..c }
}

fn set_idle_dim_secs(c: &mut BehaviorConfig, v: u32)
    ensures
        *final(c) == with_idle_dim_secs(*old(c), v),
{
    c.idle_dim_secs = v as u64;
    reveal(with_idle_dim_secs);
}

/// The section with another `idle_lock_secs`.
#[verifier::opaque]
pub open spec fn with_idle_lock_secs(c: BehaviorConfig, v: u32) -> BehaviorConfig {
    BehaviorConfig { idle_lock_secs: v as u64, ..c }
}

fn set_idle_lock_secs(c: &mut BehaviorConfig, v: u32)
    ensures
        *final(c) == with_idle_lock_secs(*old(c), v),
{
    c.idle_lock_secs = v as u64;
    reveal(with_idle_lock_secs);
}

/// The section with another `idle_screen_off_secs`.
#[verifier::opaque]
pub open spec fn with_idle_screen_off_secs(c: BehaviorConfig, v: u32) -> BehaviorConfig {
    BehaviorConfig { idle_screen_off_secs: v as u64, ..c }
}

fn set_idle_screen_off_secs(c: &mut BehaviorConfig, v: u32)
    ensures
        *final(c) == with_idle_screen_off_secs(*old(c), v),
{
    c.idle_screen_off_secs = v as u64;
    reveal(with_idle_screen_off_secs);
}

/// The section with another `recording_fps`.
#[verifier::opaque]
pub open spec fn with_recording_fps(c: BehaviorConfig, v: u32) -> BehaviorConfig {
    BehaviorConfig { recording_fps: v, ..c }
}

fn set_recording_fps(c: &mut BehaviorConfig, v: u32)
    ensures
        *final(c) == with_recording_fps(*old(c), v),
{
    c.recording_fps = v;
    reveal(with_recording_fps);
}

/// The `behavior` section with a number changed.
pub open spec fn behavior_with_number(c: BehaviorConfig, key: HotKey, v: u32) -> BehaviorConfig {
    match key {
        HotKey::BlurStrength => with_blur_strength(c, v),
        HotKey::DragThresholdPx => with_drag_threshold_px(c, v),
        HotKey::IdleDimSecs => with_idle_dim_secs(c, v),
        HotKey::IdleLockSecs => with_idle_lock_secs(c, v),
        HotKey::IdleScreenOffSecs => with_idle_screen_off_secs(c, v),
        HotKey::RecordingFps => with_recording_fps(c, v),
        _ => c,
    }
}

fn set_behavior_number(c: &mut BehaviorConfig, key: HotKey, v: u32)
    ensures
        *final(c) == behavior_with_number(*old(c), key, v),
{
    match key {
        HotKey::BlurStrength => set_blur_strength(c, v),
        HotKey::DragThresholdPx => set_drag_threshold_px(c, v),
        HotKey::IdleDimSecs => set_idle_dim_secs(c, v),
        HotKey::IdleLockSecs => set_idle_lock_secs(c, v),
        HotKey::IdleScreenOffSecs => set_idle_screen_off_secs(c, v),
        HotKey::RecordingFps => set_recording_fps(c, v),
        _ => {},
    }
}

/// The document with a number changed.
pub open spec fn with_number(c: TomlConfig, key: HotKey, v: u32) -> TomlConfig {
    match key.section() {
        Section::Appearance => TomlConfig { appearance: appearance_with_number(c.appearance, key, v), ..c },
        Section::Layout => TomlConfig { layout: layout_with_number(c.layout, key, v), ..c },
        Section::StatusBar => c,
        Section::Behavior => TomlConfig { behavior: behavior_with_number(c.behavior, key, v), ..c },
    }
}

/// The `layout` section with a real number changed.
pub open spec fn layout_with_real(c: LayoutConfig, key: HotKey, v: F32) -> LayoutConfig {
    match key {
        HotKey::MFact => LayoutConfig { m_fact: v, ..c },
        _ => c,
    }
}

fn set_layout_real(c: &mut LayoutConfig, key: HotKey, v: F32)
    ensures
        *final(c) == layout_with_real(*old(c), key, v),
{
    match key {
        HotKey::MFact => c.m_fact = v,
        _ => {},
    }
}

/// The section with another `active_opacity`.
#[verifier::opaque]
pub open spec fn with_active_opacity(c: BehaviorConfig, v: F32) -> BehaviorConfig {
    BehaviorConfig { active_opacity: v, ..c }
}

fn set_active_opacity(c: &mut BehaviorConfig, v: F32)
    ensures
        *final(c) == with_active_opacity(*old(c), v),
{
    c.active_opacity = v;
    reveal(with_active_opacity);
}

/// The section with another `inactive_opacity`.
#[verifier::opaque]
pub open spec fn with_inactive_opacity(c: BehaviorConfig, v: F32) -> BehaviorConfig {
    BehaviorConfig { inactive_opacity: v, ..c }
}

fn set_inactive_opacity(c: &mut BehaviorConfig, v: F32)
    ensures
        *final(c) == with_inactive_opacity(*old(c), v),
{
    c.inactive_opacity = v;
    reveal(with_inactive_opacity);
}

/// The section with another `idle_dim_level`.
#[verifier::opaque]
pub open spec fn with_idle_dim_level(c: BehaviorConfig, v: F32) -> BehaviorConfig {
    BehaviorConfig { idle_dim_level: v, ..c }
}

fn set_idle_dim_level(c: &mut BehaviorConfig, v: F32)
    ensures
        *final(c) == with_idle_dim_level(*old(c), v),
{
    c.idle_dim_level = v;
    reveal(with_idle_dim_level);
}

/// The section with another `corner_radius`.
#[verifier::opaque]
pub open spec fn with_corner_radius(c: BehaviorConfig, v: F32) -> BehaviorConfig {
    BehaviorConfig { corner_radius: v, ..c }
}

fn set_corner_radius(c: &mut BehaviorConfig, v: F32)
    ensures
        *final(c) == with_corner_radius(*old(c), v),
{
    c.corner_radius = v;
    reveal(with_corner_radius);
}

/// The `behavior` section with a real number changed.
pub open spec fn behavior_with_real(c: BehaviorConfig, key: HotKey, v: F32) -> BehaviorConfig {
    match key {
        HotKey::ActiveOpacity => with_active_opacity(c, v),
        HotKey::InactiveOpacity => with_inactive_opacity(c, v),
        HotKey::IdleDimLevel => with_idle_dim_level(c, v),
        HotKey::CornerRadius => with_corner_radius(c, v),
        _ => c,
    }
}

fn set_behavior_real(c: &mut BehaviorConfig, key: HotKey, v: F32)
    ensures
        *final(c) == behavior_with_real(*old(c), key, v),
{
    match key {
        HotKey::ActiveOpacity => set_active_opacity(c, v),
        HotKey::InactiveOpacity => set_inactive_opacity(c, v),
        HotKey::IdleDimLevel => set_idle_dim_level(c, v),
        HotKey::CornerRadius => set_corner_radius(c, v),
        _ => {},
    }
}

/// The document with a real number changed.
pub open spec fn with_real(c: TomlConfig, key: HotKey, v: F32) -> TomlConfig {
    match key.section() {
        Section::Appearance => c,
        Section::Layout => TomlConfig { layout: layout_with_real(c.layout, key, v), ..c },
        Section::StatusBar => c,
        Section::Behavior => TomlConfig { behavior: behavior_with_real(c.behavior, key, v), ..c },
    }
}

/// The `status_bar` section with a flag changed.
pub open spec fn status_bar_with_flag(c: StatusBarConfig, key: HotKey, v: bool) -> StatusBarConfig {
    match key {
        HotKey::ShowBar => StatusBarConfig { show_bar: v, ..c },
        _ => c,
    }
}

fn set_status_bar_flag(c: &mut StatusBarConfig, key: HotKey, v: bool)
    ensures
        *final(c) == status_bar_with_flag(*old(c), key, v),
{
    match key {
        HotKey::ShowBar => c.show_bar = v,
        _ => {},
    }
}

/// The section with another `wallpaper_colors`.
#[verifier::opaque]
pub open spec fn with_wallpaper_colors(c: BehaviorConfig, v: bool) -> BehaviorConfig {
    BehaviorConfig { wallpaper_colors: v, ..c }
}

fn set_wallpaper_colors(c: &mut BehaviorConfig, v: bool)
    ensures
        *final(c) == with_wallpaper_colors(*old(c), v),
{
    c.wallpaper_colors = v;
    reveal(with_wallpaper_colors);
}

/// The section with another `resource_rows`.
#[verifier::opaque]
pub open spec fn with_resource_rows(c: BehaviorConfig, v: bool) -> BehaviorConfig {
    BehaviorConfig { resource_rows: v, ..c }
}

fn set_resource_rows(c: &mut BehaviorConfig, v: bool)
    ensures
        *final(c) == with_resource_rows(*old(c), v),
{
    c.resource_rows = v;
    reveal(with_resource_rows);
}

/// The section with another `clipboard_history`.
#[verifier::opaque]
pub open spec fn with_clipboard_history(c: BehaviorConfig, v: bool) -> BehaviorConfig {
    BehaviorConfig { clipboard_history: v, ..c }
}

fn set_clipboard_history(c: &mut BehaviorConfig, v: bool)
    ensures
        *final(c) == with_clipboard_history(*old(c), v),
{
    c.clipboard_history = v;
    reveal(with_clipboard_history);
}

/// The section with another `blur_enabled`.
#[verifier::opaque]
pub open spec fn with_blur_enabled(c: BehaviorConfig, v: bool) -> BehaviorConfig {
    BehaviorConfig { blur_enabled: v, ..c }
}

fn set_blur_enabled(c: &mut BehaviorConfig, v: bool)
    ensures
        *final(c) == with_blur_enabled(*old(c), v),
{
    c.blur_enabled = v;
    reveal(with_blur_enabled);
}

/// The section with another `shadow_enabled`.
#[verifier::opaque]
pub open spec fn with_shadow_enabled(c: BehaviorConfig, v: bool) -> BehaviorConfig {
    BehaviorConfig { shadow_enabled: v, ..c }
}

fn set_shadow_enabled(c: &mut BehaviorConfig, v: bool)
    ensures
        *final(c) == with_shadow_enabled(*old(c), v),
{
    c.shadow_enabled = v;
    reveal(with_shadow_enabled);
}

/// The section with another `compositor`.
#[verifier::opaque]
pub open spec fn with_compositor(c: BehaviorConfig, v: bool) -> BehaviorConfig {
    BehaviorConfig { compositor: v, ..c }
}

fn set_compositor(c: &mut BehaviorConfig, v: bool)
    ensures
        *final(c) == with_compositor(*old(c), v),
{
    c.compositor = v;
    reveal(with_compositor);
}

/// The section with another `fading`.
#[verifier::opaque]
pub open spec fn with_fading(c: BehaviorConfig, v: bool) -> BehaviorConfig {
    BehaviorConfig { fading: v, ..c }
}

fn set_fading(c: &mut BehaviorConfig, v: bool)
    ensures
        *final(c) == with_fading(*old(c), v),
{
    c.fading = v;
    reveal(with_fading);
}

/// The section with another `wobbly_windows`.
#[verifier::opaque]
pub open spec fn with_wobbly_windows(c: BehaviorConfig, v: bool) -> BehaviorConfig {
    BehaviorConfig { wobbly_windows: v, ..c }
}

fn set_wobbly_windows(c: &mut BehaviorConfig, v: bool)
    ensures
        *final(c) == with_wobbly_windows(*old(c), v),
{
    c.wobbly_windows = v;
    reveal(with_wobbly_windows);
}

/// The section with another `motion_trail`.
#[verifier::opaque]
pub open spec fn with_motion_trail(c: BehaviorConfig, v: bool) -> BehaviorConfig {
    BehaviorConfig { motion_trail: v, ..c }
}

fn set_motion_trail(c: &mut BehaviorConfig, v: bool)
    ensures
        *final(c) == with_motion_trail(*old(c), v),
{
    c.motion_trail = v;
    reveal(with_motion_trail);
}

/// The section with another `screenshot_freeze_enabled`.
#[verifier::opaque]
pub open spec fn with_screenshot_freeze_enabled(c: BehaviorConfig, v: bool) -> BehaviorConfig {
    BehaviorConfig { screenshot_freeze_enabled: v, ..c }
}

fn set_screenshot_freeze_enabled(c: &mut BehaviorConfig, v: bool)
    ensures
        *final(c) == with_screenshot_freeze_enabled(*old(c), v),
{
    c.screenshot_freeze_enabled = v;
    reveal(with_screenshot_freeze_enabled);
}

/// The section with another `recording_audio_enabled`.
#[verifier::opaque]
pub open spec fn with_recording_audio_enabled(c: BehaviorConfig, v: bool) -> BehaviorConfig {
    BehaviorConfig { recording_audio_enabled: v, ..c }
}

fn set_recording_audio_enabled(c: &mut BehaviorConfig, v: bool)
    ensures
        *final(c) == with_recording_audio_enabled(*old(c), v),
{
    c.recording_audio_enabled = v;
    reveal(with_recording_audio_enabled);
}

/// The `behavior` section with a flag changed.
pub open spec fn behavior_with_flag(c: BehaviorConfig, key: HotKey, v: bool) -> BehaviorConfig {
    match key {
        HotKey::WallpaperColors => with_wallpaper_colors(c, v),
        HotKey::ResourceRows => with_resource_rows(c, v),
        HotKey::ClipboardHistory => with_clipboard_history(c, v),
        HotKey::BlurEnabled => with_blur_enabled(c, v),
        HotKey::ShadowEnabled => with_shadow_enabled(c, v),
        HotKey::Compositor => with_compositor(c, v),
        HotKey::Fading => with_fading(c, v),
        HotKey::WobblyWindows => with_wobbly_windows(c, v),
        HotKey::MotionTrail => with_motion_trail(c, v),
        HotKey::ScreenshotFreezeEnabled => with_screenshot_freeze_enabled(c, v),
        HotKey::RecordingAudioEnabled => with_recording_audio_enabled(c, v),
        _ => c,
    }
}

fn set_behavior_flag(c: &mut BehaviorConfig, key: HotKey, v: bool)
    ensures
        *final(c) == behavior_with_flag(*old(c), key, v),
{
    match key {
        HotKey::WallpaperColors => set_wallpaper_colors(c, v),
        HotKey::ResourceRows => set_resource_rows(c, v),
        HotKey::ClipboardHistory => set_clipboard_history(c, v),
        HotKey::BlurEnabled => set_blur_enabled(c, v),
        HotKey::ShadowEnabled => set_shadow_enabled(c, v),
        HotKey::Compositor => set_compositor(c, v),
        HotKey::Fading => set_fading(c, v),
        HotKey::WobblyWindows => set_wobbly_windows(c, v),
        HotKey::MotionTrail => set_motion_trail(c, v),
        HotKey::ScreenshotFreezeEnabled => set_screenshot_freeze_enabled(c, v),
        HotKey::RecordingAudioEnabled => set_recording_audio_enabled(c, v),
        _ => {},
    }
}

/// The document with a flag changed.
pub open spec fn with_flag(c: TomlConfig, key: HotKey, v: bool) -> TomlConfig {
    match key.section() {
        Section::Appearance => c,
        Section::Layout => c,
        Section::StatusBar => TomlConfig { status_bar: status_bar_with_flag(c.status_bar, key, v), ..c },
        Section::Behavior => TomlConfig { behavior: behavior_with_flag(c.behavior, key, v), ..c },
    }
}

/// The section with another `border_color_focused`.
#[verifier::opaque]
pub open spec fn with_border_color_focused(c: BehaviorConfig, v: [F32; 4]) -> BehaviorConfig {
    BehaviorConfig { border_color_focused: v, ..c }
}

fn set_border_color_focused(c: &mut BehaviorConfig, v: [F32; 4])
    ensures
        *final(c) == with_border_color_focused(*old(c), v),
{
    c.border_color_focused = v;
    reveal(with_border_color_focused);
}

/// The section with another `border_gradient_color_a`.
#[verifier::opaque]
pub open spec fn with_border_gradient_color_a(c: BehaviorConfig, v: [F32; 4]) -> BehaviorConfig {
    BehaviorConfig { border_gradient_color_a: v, ..c }
}

fn set_border_gradient_color_a(c: &mut BehaviorConfig, v: [F32; 4])
    ensures
        *final(c) == with_border_gradient_color_a(*old(c), v),
{
    c.border_gradient_color_a = v;
    reveal(with_border_gradient_color_a);
}

/// The section with another `border_gradient_color_b`.
#[verifier::opaque]
pub open spec fn with_border_gradient_color_b(c: BehaviorConfig, v: [F32; 4]) -> BehaviorConfig {
    BehaviorConfig { border_gradient_color_b: v, ..c }
}

fn set_border_gradient_color_b(c: &mut BehaviorConfig, v: [F32; 4])
    ensures
        *final(c) == with_border_gradient_color_b(*old(c), v),
{
    c.border_gradient_color_b = v;
    reveal(with_border_gradient_color_b);
}

/// The section with another `border_glow_color`.
#[verifier::opaque]
pub open spec fn with_border_glow_color(c: BehaviorConfig, v: [F32; 4]) -> BehaviorConfig {
    BehaviorConfig { border_glow_color: v, ..c }
}

fn set_border_glow_color(c: &mut BehaviorConfig, v: [F32; 4])
    ensures
        *final(c) == with_border_glow_color(*old(c), v),
{
    c.border_glow_color = v;
    reveal(with_border_glow_color);
}

/// The `behavior` section with a colour changed.
pub open spec fn behavior_with_color(c: BehaviorConfig, key: HotKey, v: [F32; 4]) -> BehaviorConfig {
    match key {
        HotKey::BorderColorFocused => with_border_color_focused(c, v),
        HotKey::BorderGradientColorA => with_border_gradient_color_a(c, v),
        HotKey::BorderGradientColorB => with_border_gradient_color_b(c, v),
        HotKey::BorderGlowColor => with_border_glow_color(c, v),
        _ => c,
    }
}

fn set_behavior_color(c: &mut BehaviorConfig, key: HotKey, v: [F32; 4])
    ensures
        *final(c) == behavior_with_color(*old(c), key, v),
{
    match key {
        HotKey::BorderColorFocused => set_border_color_focused(c, v),
        HotKey::BorderGradientColorA => set_border_gradient_color_a(c, v),
        HotKey::BorderGradientColorB => set_border_gradient_color_b(c, v),
        HotKey::BorderGlowColor => set_border_glow_color(c, v),
        _ => {},
    }
}

/// The document with a colour changed.
pub open spec fn with_color(c: TomlConfig, key: HotKey, v: [F32; 4]) -> TomlConfig {
    match key.section() {
        Section::Appearance => c,
        Section::Layout => c,
        Section::StatusBar => c,
        Section::Behavior => TomlConfig { behavior: behavior_with_color(c.behavior, key, v), ..c },
    }
}

/// The `appearance` section with a text changed.
pub open spec fn appearance_with_text(c: AppearanceConfig, key: HotKey, v: String) -> AppearanceConfig {
    match key {
        HotKey::CursorTheme => AppearanceConfig { cursor_theme: v, ..c },
        HotKey::UiTheme => AppearanceConfig { ui_theme: v, ..c },
        _ => c,
    }
}

fn set_appearance_text(c: &mut AppearanceConfig, key: HotKey, v: String)
    ensures
        *final(c) == appearance_with_text(*old(c), key, v),
{
    match key {
        HotKey::CursorTheme => c.cursor_theme = v,
        HotKey::UiTheme => c.ui_theme = v,
        _ => {},
    }
}

/// The section with another `new_client_position`.
#[verifier::opaque]
pub open spec fn with_new_client_position(c: BehaviorConfig, v: String) -> BehaviorConfig {
    BehaviorConfig { new_client_position: v, ..c }
}

fn set_new_client_position(c: &mut BehaviorConfig, v: String)
    ensures
        *final(c) == with_new_client_position(*old(c), v),
{
    c.new_client_position = v;
    reveal(with_new_client_position);
}

/// The section with another `client_moveresize`.
#[verifier::opaque]
pub open spec fn with_client_moveresize(c: BehaviorConfig, v: String) -> BehaviorConfig {
    BehaviorConfig { client_moveresize: v, ..c }
}

fn set_client_moveresize(c: &mut BehaviorConfig, v: String)
    ensures
        *final(c) == with_client_moveresize(*old(c), v),
{
    c.client_moveresize = v;
    reveal(with_client_moveresize);
}

/// The section with another `wallpaper`.
#[verifier::opaque]
pub open spec fn with_wallpaper(c: BehaviorConfig, v: String) -> BehaviorConfig {
    BehaviorConfig { wallpaper: v, ..c }
}

fn set_wallpaper(c: &mut BehaviorConfig, v: String)
    ensures
        *final(c) == with_wallpaper(*old(c), v),
{
    c.wallpaper = v;
    reveal(with_wallpaper);
}

/// The section with another `wallpaper_mode`.
#[verifier::opaque]
pub open spec fn with_wallpaper_mode(c: BehaviorConfig, v: String) -> BehaviorConfig {
    BehaviorConfig { wallpaper_mode: v, ..c }
}

fn set_wallpaper_mode(c: &mut BehaviorConfig, v: String)
    ensures
        *final(c) == with_wallpaper_mode(*old(c), v),
{
    c.wallpaper_mode = v;
    reveal(with_wallpaper_mode);
}

/// The section with another `wallpaper_dir`.
#[verifier::opaque]
pub open spec fn with_wallpaper_dir(c: BehaviorConfig, v: String) -> BehaviorConfig {
    BehaviorConfig { wallpaper_dir: v, ..c }
}

fn set_wallpaper_dir(c: &mut BehaviorConfig, v: String)
    ensures
        *final(c) == with_wallpaper_dir(*old(c), v),
{
    c.wallpaper_dir = v;
    reveal(with_wallpaper_dir);
}

/// The section with another `idle_screen_off_command`.
#[verifier::opaque]
pub open spec fn with_idle_screen_off_command(c: BehaviorConfig, v: String) -> BehaviorConfig {
    BehaviorConfig { idle_screen_off_command: v, ..c }
}

fn set_idle_screen_off_command(c: &mut BehaviorConfig, v: String)
    ensures
        *final(c) == with_idle_screen_off_command(*old(c), v),
{
    c.idle_screen_off_command = v;
    reveal(with_idle_screen_off_command);
}

/// The section with another `idle_screen_on_command`.
#[verifier::opaque]
pub open spec fn with_idle_screen_on_command(c: BehaviorConfig, v: String) -> BehaviorConfig {
    BehaviorConfig { idle_screen_on_command: v, ..c }
}

fn set_idle_screen_on_command(c: &mut BehaviorConfig, v: String)
    ensures
        *final(c) == with_idle_screen_on_command(*old(c), v),
{
    c.idle_screen_on_command = v;
    reveal(with_idle_screen_on_command);
}

/// The section with another `recording_audio_device`.
#[verifier::opaque]
pub open spec fn with_recording_audio_device(c: BehaviorConfig, v: String) -> BehaviorConfig {
    BehaviorConfig { recording_audio_device: v, ..c }
}

fn set_recording_audio_device(c: &mut BehaviorConfig, v: String)
    ensures
        *final(c) == with_recording_audio_device(*old(c), v),
{
    c.recording_audio_device = v;
    reveal(with_recording_audio_device);
}

/// The section with another `recording_audio_bitrate`.
#[verifier::opaque]
pub open spec fn with_recording_audio_bitrate(c: BehaviorConfig, v: String) -> BehaviorConfig {
    BehaviorConfig { recording_audio_bitrate: v, ..c }
}

fn set_recording_audio_bitrate(c: &mut BehaviorConfig, v: String)
    ensures
        *final(c) == with_recording_audio_bitrate(*old(c), v),
{
    c.recording_audio_bitrate = v;
    reveal(with_recording_audio_bitrate);
}

/// The section with another `audio_recording_backend`.
#[verifier::opaque]
pub open spec fn with_audio_recording_backend(c: BehaviorConfig, v: String) -> BehaviorConfig {
    BehaviorConfig { audio_recording_backend: v, ..c }
}

fn set_audio_recording_backend(c: &mut BehaviorConfig, v: String)
    ensures
        *final(c) == with_audio_recording_backend(*old(c), v),
{
    c.audio_recording_backend = v;
    reveal(with_audio_recording_backend);
}

/// The section with another `audio_recording_format`.
#[verifier::opaque]
pub open spec fn with_audio_recording_format(c: BehaviorConfig, v: String) -> BehaviorConfig {
    BehaviorConfig { audio_recording_format: v, ..c }
}

fn set_audio_recording_format(c: &mut BehaviorConfig, v: String)
    ensures
        *final(c) == with_audio_recording_format(*old(c), v),
{
    c.audio_recording_format = v;
    reveal(with_audio_recording_format);
}

/// The section with another `audio_recording_bitrate`.
#[verifier::opaque]
pub open spec fn with_audio_recording_bitrate(c: BehaviorConfig, v: String) -> BehaviorConfig {
    BehaviorConfig { audio_recording_bitrate: v, ..c }
}

fn set_audio_recording_bitrate(c: &mut BehaviorConfig, v: String)
    ensures
        *final(c) == with_audio_recording_bitrate(*old(c), v),
{
    c.audio_recording_bitrate = v;
    reveal(with_audio_recording_bitrate);
}

/// The `behavior` section with a text changed.
pub open spec fn behavior_with_text(c: BehaviorConfig, key: HotKey, v: String) -> BehaviorConfig {
    match key {
        HotKey::NewClientPosition => with_new_client_position(c, v),
        HotKey::ClientMoveresize => with_client_moveresize(c, v),
        HotKey::Wallpaper => with_wallpaper(c, v),
        HotKey::WallpaperMode => with_wallpaper_mode(c, v),
        HotKey::WallpaperDir => with_wallpaper_dir(c, v),
        HotKey::IdleScreenOffCommand => with_idle_screen_off_command(c, v),
        HotKey::IdleScreenOnCommand => with_idle_screen_on_command(c, v),
        HotKey::RecordingAudioDevice => with_recording_audio_device(c, v),
        HotKey::RecordingAudioBitrate => with_recording_audio_bitrate(c, v),
        HotKey::AudioRecordingBackend => with_audio_recording_backend(c, v),
        HotKey::AudioRecordingFormat => with_audio_recording_format(c, v),
        HotKey::AudioRecordingBitrate => with_audio_recording_bitrate(c, v),
        _ => c,
    }
}

fn set_behavior_text(c: &mut BehaviorConfig, key: HotKey, v: String)
    ensures
        *final(c) == behavior_with_text(*old(c), key, v),
{
    match key {
        HotKey::NewClientPosition => set_new_client_position(c, v),
        HotKey::ClientMoveresize => set_client_moveresize(c, v),
        HotKey::Wallpaper => set_wallpaper(c, v),
        HotKey::WallpaperMode => set_wallpaper_mode(c, v),
        HotKey::WallpaperDir => set_wallpaper_dir(c, v),
        HotKey::IdleScreenOffCommand => set_idle_screen_off_command(c, v),
        HotKey::IdleScreenOnCommand => set_idle_screen_on_command(c, v),
        HotKey::RecordingAudioDevice => set_recording_audio_device(c, v),
        HotKey::RecordingAudioBitrate => set_recording_audio_bitrate(c, v),
        HotKey::AudioRecordingBackend => set_audio_recording_backend(c, v),
        HotKey::AudioRecordingFormat => set_audio_recording_format(c, v),
        HotKey::AudioRecordingBitrate => set_audio_recording_bitrate(c, v),
        _ => {},
    }
}

/// The document with a text changed.
pub open spec fn with_text(c: TomlConfig, key: HotKey, v: String) -> TomlConfig {
    match key.section() {
        Section::Appearance => TomlConfig { appearance: appearance_with_text(c.appearance, key, v), ..c },
        Section::Layout => c,
        Section::StatusBar => c,
        Section::Behavior => TomlConfig { behavior: behavior_with_text(c.behavior, key, v), ..c },
    }
}

/// The document with one setting changed.
pub open spec fn with_setting(c: TomlConfig, key: HotKey, value: Setting) -> TomlConfig {
    match value {
        Setting::Number(v) => with_number(c, key, v),
        Setting::Real(v) => with_real(c, key, v),
        Setting::Flag(v) => with_flag(c, key, v),
        Setting::Color(v) => with_color(c, key, v),
        Setting::Text(v) => with_text(c, key, v),
    }
}

/// A decoded value, or the refusal of a key or value.
pub open spec fn stated(key: Seq<char>, value: JsonValue) -> Decoded {
    match hot_key(key) {
        Some(k) => decoded(key, k.rule_of(), value),
        None => Err(m3(t("set_config: unknown or non-hot-tunable key '"), w(key), t("'"))),
    }
}

/// The document after a value was stated for a key.
pub open spec fn changed_to(
    before: TomlConfig,
    key: Seq<char>,
    value: JsonValue,
    after: TomlConfig,
) -> bool {
    exists|s: Setting|
        #![trigger s@]
        stated(key, value) == Ok::<SettingView, Seq<FragmentView>>(s@) && hot_key(key) is Some
            && after == with_setting(before, hot_key(key)->0, s)
}

/// A key and its value.
pub type Change = (String, JsonValue);

/// The document after the first `count` of `settings`.
pub open spec fn with_settings(
    c: TomlConfig,
    settings: Seq<(HotKey, Setting)>,
    count: int,
) -> TomlConfig
    decreases count,
{
    if count <= 0 {
        c
    } else {
        with_setting(
            with_settings(c, settings, count - 1),
            settings[count - 1].0,
            settings[count - 1].1,
        )
    }
}

/// Whether `settings` are what the changes state.
pub open spec fn settings_of(changes: Seq<Change>, settings: Seq<(HotKey, Setting)>) -> bool {
    &&& settings.len() == changes.len()
    &&& forall|i: int|
        #![trigger settings[i]]
        0 <= i < changes.len() ==> hot_key(changes[i].0@) == Some(settings[i].0) && stated(
            changes[i].0@,
            changes[i].1,
        ) == Ok::<SettingView, Seq<FragmentView>>(settings[i].1@)
}

/// The position of the first change that is refused, or the length.
pub open spec fn first_refused(changes: Seq<Change>) -> int
    decreases changes.len(),
{
    if changes.len() == 0 || stated(changes[0].0@, changes[0].1) is Err {
        0
    } else {
        1 + first_refused(changes.drop_first())
    }
}

proof fn accepted_before(changes: Seq<Change>, count: int)
    requires
        0 <= count <= changes.len(),
        forall|i: int| 0 <= i < count ==> stated((#[trigger] changes[i]).0@, changes[i].1) is Ok,
        count < changes.len() ==> stated(changes[count].0@, changes[count].1) is Err,
    ensures
        first_refused(changes) == count,
    decreases count,
{
    if count > 0 {
        assert(stated(changes[0].0@, changes[0].1) is Ok);
        assert forall|i: int| 0 <= i < count - 1 implies stated(
            (#[trigger] changes.drop_first()[i]).0@,
            changes.drop_first()[i].1,
        ) is Ok by {
            assert(changes[i + 1] == changes.drop_first()[i]);
        }
        accepted_before(changes.drop_first(), count - 1);
    }
}

fn state(key: &str, value: &JsonValue) -> (r: Result<(HotKey, Setting), Message>)
    ensures
        match r {
            Ok((k, s)) => hot_key(key@) == Some(k) && stated(key@, *value) == Ok::<
                SettingView,
                Seq<FragmentView>,
            >(s@),
            Err(e) => stated(key@, *value) == Err::<SettingView, Seq<FragmentView>>(e@),
        },
{
    match hot_key_named(key) {
        Some(k) => match decode_setting(key, k.rule(), value) {
            Ok(s) => Ok((k, s)),
            Err(e) => Err(e),
        },
        None => Err(
            Message::new().text("set_config: unknown or non-hot-tunable key '").text(key).text("'"),
        ),
    }
}

impl Config {
    fn apply_number(&mut self, key: HotKey, v: u32)
        ensures
            final(self).inner == with_number(old(self).inner, key, v),
    {
        match key.section_of() {
            Section::Appearance => {
                set_appearance_number(&mut self.inner.appearance, key, v);
                return;
            },
            Section::Layout => {
                set_layout_number(&mut self.inner.layout, key, v);
                return;
            },
            Section::StatusBar => {
                return;
            },
            Section::Behavior => {
                set_behavior_number(&mut self.inner.behavior, key, v);
                return;
            },
        }
    }

    fn apply_real(&mut self, key: HotKey, v: F32)
        ensures
            final(self).inner == with_real(old(self).inner, key, v),
    {
        match key.section_of() {
            Section::Appearance => {
                return;
            },
            Section::Layout => {
                set_layout_real(&mut self.inner.layout, key, v);
                return;
            },
            Section::StatusBar => {
                return;
            },
            Section::Behavior => {
                set_behavior_real(&mut self.inner.behavior, key, v);
                return;
            },
        }
    }

    fn apply_flag(&mut self, key: HotKey, v: bool)
        ensures
            final(self).inner == with_flag(old(self).inner, key, v),
    {
        match key.section_of() {
            Section::Appearance => {
                return;
            },
            Section::Layout => {
                return;
            },
            Section::StatusBar => {
                set_status_bar_flag(&mut self.inner.status_bar, key, v);
                return;
            },
            Section::Behavior => {
                set_behavior_flag(&mut self.inner.behavior, key, v);
                return;
            },
        }
    }

    fn apply_color(&mut self, key: HotKey, v: [F32; 4])
        ensures
            final(self).inner == with_color(old(self).inner, key, v),
    {
        match key.section_of() {
            Section::Appearance => {
                return;
            },
            Section::Layout => {
                return;
            },
            Section::StatusBar => {
                return;
            },
            Section::Behavior => {
                set_behavior_color(&mut self.inner.behavior, key, v);
                return;
            },
        }
    }

    fn apply_text(&mut self, key: HotKey, v: String)
        ensures
            final(self).inner == with_text(old(self).inner, key, v),
    {
        match key.section_of() {
            Section::Appearance => {
                set_appearance_text(&mut self.inner.appearance, key, v);
                return;
            },
            Section::Layout => {
                return;
            },
            Section::StatusBar => {
                return;
            },
            Section::Behavior => {
                set_behavior_text(&mut self.inner.behavior, key, v);
                return;
            },
        }
    }

    fn apply(&mut self, key: HotKey, value: Setting)
        ensures
            final(self).inner == with_setting(old(self).inner, key, value),
    {
        match value {
            Setting::Number(v) => self.apply_number(key, v),
            Setting::Real(v) => self.apply_real(key, v),
            Setting::Flag(v) => self.apply_flag(key, v),
            Setting::Color(v) => self.apply_color(key, v),
            Setting::Text(v) => self.apply_text(key, v),
        }
    }

    /// Changes one setting in memory. Only a small set of settings can be
    /// changed while running; any other key, and any value a setting does not
    /// take, is refused and leaves the configuration as it was.
    pub fn set_value(&mut self, key: &str, value: &JsonValue) -> (r: Result<(), Message>)
        ensures
            match r {
                Ok(_) => changed_to(old(self).inner, key@, *value, final(self).inner),
                Err(e) => stated(key@, *value) == Err::<SettingView, Seq<FragmentView>>(e@)
                    && *final(self) == *old(self),
            },
            r is Ok <==> stated(key@, *value) is Ok,
    {
        match state(key, value) {
            Ok((k, s)) => {
                let ghost setting = s;
                self.apply(k, s);
                assert(changed_to(old(self).inner, key@, *value, self.inner)) by {
                    assert(stated(key@, *value) == Ok::<SettingView, Seq<FragmentView>>(setting@));
                }
                Ok(())
            },
            Err(e) => Err(e),
        }
    }

    /// Changes several settings in memory, in order, or none of them: the
    /// configuration is unchanged when any of the changes is refused, and the
    /// first refusal is reported.
    pub fn set_values(&mut self, changes: &Vec<Change>) -> (r: Result<(), Message>)
        ensures
            match r {
                Ok(_) => batch_leads(old(self).inner, changes@, final(self).inner)
                    && changes_lead(old(self).inner, changes@, final(self).inner),
                Err(e) => {
                    let i = first_refused(changes@);
                    &&& i < changes@.len()
                    &&& stated(changes@[i].0@, changes@[i].1) == Err::<
                        SettingView,
                        Seq<FragmentView>,
                    >(e@)
                    &&& *final(self) == *old(self)
                },
            },
            r is Ok <==> first_refused(changes@) == changes@.len(),
    {
        let mut settings: Vec<(HotKey, Setting)> = Vec::new();
        let mut i: usize = 0;
        while i < changes.len()
            invariant
                i <= changes@.len(),
                *self == *old(self),
                settings@.len() == i,
                forall|k: int|
                    #![trigger settings@[k]]
                    0 <= k < i ==> hot_key(changes@[k].0@) == Some(settings@[k].0) && stated(
                        changes@[k].0@,
                        changes@[k].1,
                    ) == Ok::<SettingView, Seq<FragmentView>>(settings@[k].1@),
            decreases changes@.len() - i,
        {
            match state(changes[i].0.as_str(), &changes[i].1) {
                Ok(setting) => {
                    settings.push(setting);
                },
                Err(e) => {
                    proof {
                        assert forall|k: int| 0 <= k < i implies stated(
                            (#[trigger] changes@[k]).0@,
                            changes@[k].1,
                        ) is Ok by {
                            assert(settings@[k] == settings@[k]);
                        }
                        accepted_before(changes@, i as int);
                    }
                    return Err(e);
                },
            }
            i += 1;
        }
        proof {
            assert forall|k: int| 0 <= k < changes@.len() implies stated(
                (#[trigger] changes@[k]).0@,
                changes@[k].1,
            ) is Ok by {
                assert(settings@[k] == settings@[k]);
            }
            accepted_before(changes@, changes@.len() as int);
        }
        let ghost all = settings@;
        let ghost start = self.inner;
        let ghost mut j: int = 0;
        assert(all.skip(0) == all);
        while settings.len() > 0
            invariant
                0 <= j,
                j + settings@.len() == all.len(),
                settings@ == all.skip(j),
                self.inner == with_settings(start, all, j),
            decreases settings@.len(),
        {
            let (key, value) = settings.remove(0);
            assert(all.skip(j)[0] == all[j]);
            self.apply(key, value);
            proof {
                j = j + 1;
            }
            assert(settings@ == all.skip(j));
        }
        assert(settings_of(changes@, all));
        proof {
            settings_lead(start, changes@, all);
        }
        Ok(())
    }
}

/// A refused change leaves no trace of the changes before it: a batch takes
/// effect as a whole or not at all.
pub proof fn batches_are_atomic(changes: Seq<Change>, settings: Seq<(HotKey, Setting)>)
    requires
        settings_of(changes, settings),
    ensures
        first_refused(changes) == changes.len(),
{
    assert forall|k: int| 0 <= k < changes.len() implies stated(
        (#[trigger] changes[k]).0@,
        changes[k].1,
    ) is Ok by {
        assert(settings[k] == settings[k]);
    }
    accepted_before(changes, changes.len() as int);
}

/// Whether a batch of changes leads from one document to the other: what
/// `Config::set_values` makes of it.
pub open spec fn batch_leads(before: TomlConfig, changes: Seq<Change>, after: TomlConfig) -> bool {
    exists|settings: Seq<(HotKey, Setting)>|
        #[trigger] settings_of(changes, settings) && after == with_settings(
            before,
            settings,
            settings.len() as int,
        )
}

/// Whether each document comes from the one before it by one change: what
/// `Config::set_value` makes of the changes in order.
pub open spec fn changed_one_by_one(documents: Seq<TomlConfig>, changes: Seq<Change>) -> bool {
    &&& documents.len() == changes.len() + 1
    &&& forall|i: int|
        0 <= i < changes.len() ==> changed_to(
            documents[i],
            (#[trigger] changes[i]).0@,
            changes[i].1,
            documents[i + 1],
        )
}

/// Whether changes made one by one, in order, lead from one document to the
/// other.
pub open spec fn changes_lead(before: TomlConfig, changes: Seq<Change>, after: TomlConfig) -> bool {
    exists|documents: Seq<TomlConfig>|
        #[trigger] changed_one_by_one(documents, changes) && documents[0] == before
            && documents.last() == after
}

/// A setting that takes one document to the next.
spec fn setting_between(
    documents: Seq<TomlConfig>,
    changes: Seq<Change>,
    i: int,
) -> (HotKey, Setting) {
    let key = changes[i].0@;
    (
        hot_key(key)->0,
        choose|s: Setting|
            #![trigger s@]
            stated(key, changes[i].1) == Ok::<SettingView, Seq<FragmentView>>(s@) && hot_key(
                key,
            ) is Some && documents[i + 1] == with_setting(documents[i], hot_key(key)->0, s),
    )
}

proof fn settings_lead(before: TomlConfig, changes: Seq<Change>, settings: Seq<(HotKey, Setting)>)
    requires
        settings_of(changes, settings),
    ensures
        changes_lead(before, changes, with_settings(before, settings, settings.len() as int)),
{
    let documents = Seq::new(
        changes.len() + 1,
        |i: int| with_settings(before, settings, i),
    );
    assert forall|i: int| 0 <= i < changes.len() implies changed_to(
        documents[i],
        (#[trigger] changes[i]).0@,
        changes[i].1,
        documents[i + 1],
    ) by {
        let s = settings[i].1;
        assert(stated(changes[i].0@, changes[i].1) == Ok::<SettingView, Seq<FragmentView>>(s@));
    }
    assert(changed_one_by_one(documents, changes));
}

proof fn documents_follow(
    documents: Seq<TomlConfig>,
    settings: Seq<(HotKey, Setting)>,
    count: int,
)
    requires
        0 <= count <= settings.len(),
        documents.len() == settings.len() + 1,
        forall|i: int|
            0 <= i < settings.len() ==> documents[i + 1] == with_setting(
                documents[i],
                (#[trigger] settings[i]).0,
                settings[i].1,
            ),
    ensures
        with_settings(documents[0], settings, count) == documents[count],
    decreases count,
{
    if count > 0 {
        documents_follow(documents, settings, count - 1);
        assert(documents[count - 1 + 1] == with_setting(
            documents[count - 1],
            settings[count - 1].0,
            settings[count - 1].1,
        ));
    }
}

proof fn refused_first(changes: Seq<Change>)
    ensures
        0 <= first_refused(changes) <= changes.len(),
        forall|i: int|
            0 <= i < first_refused(changes) ==> stated(
                (#[trigger] changes[i]).0@,
                changes[i].1,
            ) is Ok,
        first_refused(changes) < changes.len() ==> stated(
            changes[first_refused(changes)].0@,
            changes[first_refused(changes)].1,
        ) is Err,
    decreases changes.len(),
{
    if changes.len() > 0 && stated(changes[0].0@, changes[0].1) is Ok {
        let rest = changes.drop_first();
        refused_first(rest);
        assert forall|i: int| 0 <= i < first_refused(changes) implies stated(
            (#[trigger] changes[i]).0@,
            changes[i].1,
        ) is Ok by {
            if i > 0 {
                assert(rest[i - 1] == changes[i]);
            }
        }
        if first_refused(rest) < rest.len() {
            assert(rest[first_refused(rest)] == changes[first_refused(rest) + 1]);
        }
    }
}

/// A batch is its changes made one by one in order: it is accepted exactly
/// where each of them is, it leads exactly where they lead, and it is refused
/// with the first of them that is.
pub proof fn a_batch_is_its_changes_in_order(
    before: TomlConfig,
    changes: Seq<Change>,
    after: TomlConfig,
)
    ensures
        batch_leads(before, changes, after) <==> changes_lead(before, changes, after),
        first_refused(changes) == changes.len() <==> forall|i: int|
            0 <= i < changes.len() ==> stated((#[trigger] changes[i]).0@, changes[i].1) is Ok,
        first_refused(changes) < changes.len() ==> stated(
            changes[first_refused(changes)].0@,
            changes[first_refused(changes)].1,
        ) is Err,
{
    refused_first(changes);
    if batch_leads(before, changes, after) {
        let settings = choose|settings: Seq<(HotKey, Setting)>|
            #[trigger] settings_of(changes, settings) && after == with_settings(
                before,
                settings,
                settings.len() as int,
            );
        settings_lead(before, changes, settings);
    }
    if changes_lead(before, changes, after) {
        let documents = choose|documents: Seq<TomlConfig>|
            #[trigger] changed_one_by_one(documents, changes) && documents[0] == before
                && documents.last() == after;
        let settings = Seq::new(changes.len(), |i: int| setting_between(documents, changes, i));
        assert forall|i: int| #![trigger settings[i]] 0 <= i < changes.len() implies hot_key(
            changes[i].0@,
        ) == Some(settings[i].0) && stated(changes[i].0@, changes[i].1) == Ok::<
            SettingView,
            Seq<FragmentView>,
        >(settings[i].1@) && documents[i + 1] == with_setting(
            documents[i],
            settings[i].0,
            settings[i].1,
        ) by {
            assert(changed_to(documents[i], changes[i].0@, changes[i].1, documents[i + 1]));
        }
        assert(settings_of(changes, settings));
        documents_follow(documents, settings, settings.len() as int);
    }
}

} // verus!
