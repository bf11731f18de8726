//! Window-manager actions, their arguments, and the bindings that carry them.
use crate::catalog::LayoutEnum;
use crate::ieee::F32;
use crate::text::str_eq;
use vstd::prelude::*;

verus! {

/// An action the window manager performs.
#[derive(Debug, Clone, Copy, PartialEq, Eq, Structural)]
pub enum WMFunc {
    Spawn,
    AppLauncher,
    MonitorLayout,
    LockScreen,
    Focusstack,
    Focusmon,
    TakeScreenshot,
    TakeScreenshotFullscreen,
    Quit,
    Restart,
    Killclient,
    Minimize,
    Zoom,
    Setlayout,
    Lastlayout,
    Togglefloating,
    Togglebar,
    Setmfact,
    Setgaps,
    Setcfact,
    Incnmaster,
    Movestack,
    View,
    Tag,
    Toggleview,
    Toggletag,
    Tagmon,
    Loopview,
    Movemouse,
    Resizemouse,
    ShowKeybindings,
    Cyclelayout,
    LayoutPicker,
    Togglesticky,
    Togglescratchpad,
    Togglepip,
    Togglecompositor,
    Togglepartialdamage,
    ToggleDebugHud,
    ToggleWaterlily,
    WaterlilyCase,
    WaterlilyPalette,
    ToggleOverview,
    CycleOverview,
    ToggleMagnifier,
    TogglePeek,
    ToggleAnnotation,
    SaveSession,
    RestoreSession,
    ToggleExpose,
    ToggleRecording,
    VolumeAdjust,
    VolumeMute,
    BrightnessAdjust,
    ControlCenter,
    NotificationCenter,
    MediaPlayPause,
    MediaNext,
    MediaPrevious,
    MediaStop,
    SessionMenu,
    ToggleNightLight,
    ToggleIdleInhibit,
    ToggleWifi,
    WifiPicker,
    AudioOutputPicker,
    AudioInputPicker,
    BluetoothPicker,
    Calendar,
    ClipboardPicker,
    WallpaperPicker,
    ToggleBluetooth,
    AdjustRecordingRegion,
    ToggleAudioRecording,
    ScrollingFocusColumn,
    ScrollingMoveColumn,
    ScrollingConsume,
    ScrollingExpel,
    ScrollingFocusWindow,
    ScrollingToggleAttachMode,
    FocusNone,
    FocusWindow,
    FocusTab,
    Refocus,
    ToggleDnd,
}

/// The argument an action is performed with.
#[derive(Debug, Clone, PartialEq, Eq)]
pub enum WMArgEnum {
    Int(i32),
    UInt(u32),
    UInt64(u64),
    Float(F32),
    StringVec(Vec<String>),
    Layout(LayoutEnum),
}

/// An argument as a mathematical value.
pub enum ArgView {
    Int(int),
    UInt(int),
    UInt64(int),
    Float(F32),
    StringVec(Seq<Seq<char>>),
    Layout(LayoutEnum),
}

impl View for WMArgEnum {
    type V = ArgView;

    open spec fn view(&self) -> ArgView {
        match *self {
            WMArgEnum::Int(n) => ArgView::Int(n as int),
            WMArgEnum::UInt(n) => ArgView::UInt(n as int),
            WMArgEnum::UInt64(n) => ArgView::UInt64(n as int),
            WMArgEnum::Float(x) => ArgView::Float(x),
            WMArgEnum::StringVec(v) => ArgView::StringVec(crate::text::views(v@)),
            WMArgEnum::Layout(l) => ArgView::Layout(l),
        }
    }
}

/// The modifier keys held with a key or button.
#[derive(Debug, Clone, Copy, PartialEq, Eq, Structural)]
pub struct Mods {
    pub shift: bool,
    pub control: bool,
    pub alt: bool,
    pub sup: bool,
    pub caps: bool,
    pub mod2: bool,
    pub mod3: bool,
    pub mod5: bool,
}

impl Mods {
    /// No modifier.
    pub open spec fn none() -> Mods {
        Mods {
            shift: false,
            control: false,
            alt: false,
            sup: false,
            caps: false,
            mod2: false,
            mod3: false,
            mod5: false,
        }
    }

    /// Alt and Control.
    pub open spec fn alt_control() -> Mods {
        Mods { alt: true, control: true, ..Mods::none() }
    }

    /// Alt and Shift.
    pub open spec fn alt_shift() -> Mods {
        Mods { alt: true, shift: true, ..Mods::none() }
    }

    /// No modifier.
    pub fn empty() -> (r: Mods)
        ensures
            r == Mods::none(),
    {
        Mods {
            shift: false,
            control: false,
            alt: false,
            sup: false,
            caps: false,
            mod2: false,
            mod3: false,
            mod5: false,
        }
    }

    /// These modifiers and Control.
    pub fn with_control(self) -> (r: Mods)
        ensures
            r == (Mods { control: true, ..self }),
    {
        Mods { control: true, ..self }
    }

    /// These modifiers and Shift.
    pub fn with_shift(self) -> (r: Mods)
        ensures
            r == (Mods { shift: true, ..self }),
    {
        Mods { shift: true, ..self }
    }

    /// These modifiers and Alt.
    pub fn with_alt(self) -> (r: Mods)
        ensures
            r == (Mods { alt: true, ..self }),
    {
        Mods { alt: true, ..self }
    }
}

/// A key binding ready for use.
#[derive(Debug, Clone)]
pub struct WMKey {
    pub mask: Mods,
    pub key_sym: u32,
    pub func: WMFunc,
    pub arg: WMArgEnum,
    pub repeatable: bool,
}

/// A key binding as a mathematical value.
pub struct KeyView {
    pub mask: Mods,
    pub key_sym: u32,
    pub func: WMFunc,
    pub arg: ArgView,
    pub repeatable: bool,
}

impl View for WMKey {
    type V = KeyView;

    open spec fn view(&self) -> KeyView {
        KeyView {
            mask: self.mask,
            key_sym: self.key_sym,
            func: self.func,
            arg: self.arg@,
            repeatable: self.repeatable,
        }
    }
}

/// What a click landed on.
#[derive(Debug, Clone, Copy, PartialEq, Eq, Structural)]
pub enum WMClickType {
    ClickClientWin,
    ClickRootWin,
}

/// A mouse binding ready for use.
#[derive(Debug, Clone)]
pub struct WMButton {
    pub click_type: WMClickType,
    pub mask: Mods,
    pub button: u8,
    pub func: WMFunc,
    pub arg: WMArgEnum,
}

/// A mouse binding as a mathematical value.
pub struct ButtonView {
    pub click_type: WMClickType,
    pub mask: Mods,
    pub button: u8,
    pub func: WMFunc,
    pub arg: ArgView,
}

impl View for WMButton {
    type V = ButtonView;

    open spec fn view(&self) -> ButtonView {
        ButtonView {
            click_type: self.click_type,
            mask: self.mask,
            button: self.button,
            func: self.func,
            arg: self.arg@,
        }
    }
}

/// A placement rule for new windows.
#[derive(Debug, Clone, PartialEq, Eq)]
pub struct WMRule {
    pub class: String,
    pub instance: String,
    pub name: String,
    pub tags: usize,
    pub is_floating: bool,
    pub monitor: i32,
}

/// The action a binding names. `toggle_slime` is the former name of
/// `toggle_waterlily`.
pub open spec fn function_named(name: Seq<char>) -> Option<WMFunc> {
    if name == "spawn"@ {
        Some(WMFunc::Spawn)
    } else if name == "app_launcher"@ {
        Some(WMFunc::AppLauncher)
    } else if name == "monitor_layout"@ {
        Some(WMFunc::MonitorLayout)
    } else if name == "lock_screen"@ {
        Some(WMFunc::LockScreen)
    } else if name == "focusstack"@ {
        Some(WMFunc::Focusstack)
    } else if name == "focusmon"@ {
        Some(WMFunc::Focusmon)
    } else if name == "take_screenshot"@ {
        Some(WMFunc::TakeScreenshot)
    } else if name == "take_screenshot_fullscreen"@ {
        Some(WMFunc::TakeScreenshotFullscreen)
    } else if name == "quit"@ {
        Some(WMFunc::Quit)
    } else if name == "restart"@ {
        Some(WMFunc::Restart)
    } else if name == "killclient"@ {
        Some(WMFunc::Killclient)
    } else if name == "minimize"@ {
        Some(WMFunc::Minimize)
    } else if name == "zoom"@ {
        Some(WMFunc::Zoom)
    } else if name == "setlayout"@ {
        Some(WMFunc::Setlayout)
    } else if name == "lastlayout"@ {
        Some(WMFunc::Lastlayout)
    } else if name == "togglefloating"@ {
        Some(WMFunc::Togglefloating)
    } else if name == "togglebar"@ {
        Some(WMFunc::Togglebar)
    } else if name == "setmfact"@ {
        Some(WMFunc::Setmfact)
    } else if name == "setgaps"@ {
        Some(WMFunc::Setgaps)
    } else if name == "setcfact"@ {
        Some(WMFunc::Setcfact)
    } else if name == "incnmaster"@ {
        Some(WMFunc::Incnmaster)
    } else if name == "movestack"@ {
        Some(WMFunc::Movestack)
    } else if name == "view"@ {
        Some(WMFunc::View)
    } else if name == "tag"@ {
        Some(WMFunc::Tag)
    } else if name == "toggleview"@ {
        Some(WMFunc::Toggleview)
    } else if name == "toggletag"@ {
        Some(WMFunc::Toggletag)
    } else if name == "tagmon"@ {
        Some(WMFunc::Tagmon)
    } else if name == "loopview"@ {
        Some(WMFunc::Loopview)
    } else if name == "movemouse"@ {
        Some(WMFunc::Movemouse)
    } else if name == "resizemouse"@ {
        Some(WMFunc::Resizemouse)
    } else if name == "show_keybindings"@ {
        Some(WMFunc::ShowKeybindings)
    } else if name == "cyclelayout"@ {
        Some(WMFunc::Cyclelayout)
    } else if name == "layout_picker"@ {
        Some(WMFunc::LayoutPicker)
    } else if name == "togglesticky"@ {
        Some(WMFunc::Togglesticky)
    } else if name == "togglescratchpad"@ {
        Some(WMFunc::Togglescratchpad)
    } else if name == "togglepip"@ {
        Some(WMFunc::Togglepip)
    } else if name == "togglecompositor"@ {
        Some(WMFunc::Togglecompositor)
    } else if name == "togglepartialdamage"@ {
        Some(WMFunc::Togglepartialdamage)
    } else if name == "toggle_debug_hud"@ {
        Some(WMFunc::ToggleDebugHud)
    } else if name == "toggle_waterlily"@ {
        Some(WMFunc::ToggleWaterlily)
    } else if name == "waterlily_case"@ {
        Some(WMFunc::WaterlilyCase)
    } else if name == "waterlily_palette"@ {
        Some(WMFunc::WaterlilyPalette)
    } else if name == "toggle_overview"@ {
        Some(WMFunc::ToggleOverview)
    } else if name == "cycle_overview"@ {
        Some(WMFunc::CycleOverview)
    } else if name == "toggle_magnifier"@ {
        Some(WMFunc::ToggleMagnifier)
    } else if name == "toggle_peek"@ {
        Some(WMFunc::TogglePeek)
    } else if name == "toggle_annotation"@ {
        Some(WMFunc::ToggleAnnotation)
    } else if name == "save_session"@ {
        Some(WMFunc::SaveSession)
    } else if name == "restore_session"@ {
        Some(WMFunc::RestoreSession)
    } else if name == "toggle_expose"@ {
        Some(WMFunc::ToggleExpose)
    } else if name == "toggle_recording"@ {
        Some(WMFunc::ToggleRecording)
    } else if name == "volume_adjust"@ {
        Some(WMFunc::VolumeAdjust)
    } else if name == "volume_mute"@ {
        Some(WMFunc::VolumeMute)
    } else if name == "brightness_adjust"@ {
        Some(WMFunc::BrightnessAdjust)
    } else if name == "control_center"@ {
        Some(WMFunc::ControlCenter)
    } else if name == "notification_center"@ {
        Some(WMFunc::NotificationCenter)
    } else if name == "media_play_pause"@ {
        Some(WMFunc::MediaPlayPause)
    } else if name == "media_next"@ {
        Some(WMFunc::MediaNext)
    } else if name == "media_previous"@ {
        Some(WMFunc::MediaPrevious)
    } else if name == "media_stop"@ {
        Some(WMFunc::MediaStop)
    } else if name == "session_menu"@ {
        Some(WMFunc::SessionMenu)
    } else if name == "toggle_night_light"@ {
        Some(WMFunc::ToggleNightLight)
    } else if name == "toggle_idle_inhibit"@ {
        Some(WMFunc::ToggleIdleInhibit)
    } else if name == "toggle_wifi"@ {
        Some(WMFunc::ToggleWifi)
    } else if name == "wifi_picker"@ {
        Some(WMFunc::WifiPicker)
    } else if name == "audio_output_picker"@ {
        Some(WMFunc::AudioOutputPicker)
    } else if name == "audio_input_picker"@ {
        Some(WMFunc::AudioInputPicker)
    } else if name == "bluetooth_picker"@ {
        Some(WMFunc::BluetoothPicker)
    } else if name == "calendar"@ {
        Some(WMFunc::Calendar)
    } else if name == "clipboard_picker"@ {
        Some(WMFunc::ClipboardPicker)
    } else if name == "wallpaper_picker"@ {
        Some(WMFunc::WallpaperPicker)
    } else if name == "toggle_bluetooth"@ {
        Some(WMFunc::ToggleBluetooth)
    } else if name == "adjust_recording_region"@ {
        Some(WMFunc::AdjustRecordingRegion)
    } else if name == "toggle_audio_recording"@ {
        Some(WMFunc::ToggleAudioRecording)
    } else if name == "scrolling_focus_column"@ {
        Some(WMFunc::ScrollingFocusColumn)
    } else if name == "scrolling_move_column"@ {
        Some(WMFunc::ScrollingMoveColumn)
    } else if name == "scrolling_consume"@ {
        Some(WMFunc::ScrollingConsume)
    } else if name == "scrolling_expel"@ {
        Some(WMFunc::ScrollingExpel)
    } else if name == "scrolling_focus_window"@ {
        Some(WMFunc::ScrollingFocusWindow)
    } else if name == "scrolling_toggle_attach_mode"@ {
        Some(WMFunc::ScrollingToggleAttachMode)
    } else if name == "toggle_slime"@ {
        Some(WMFunc::ToggleWaterlily)
    } else {
        None
    }
}

/// The action a binding names.
pub fn function_by_name(name: &str) -> (r: Option<WMFunc>)
    ensures
        r == function_named(name@),
{
    if str_eq(name, "spawn") {
        Some(WMFunc::Spawn)
    } else if str_eq(name, "app_launcher") {
        Some(WMFunc::AppLauncher)
    } else if str_eq(name, "monitor_layout") {
        Some(WMFunc::MonitorLayout)
    } else if str_eq(name, "lock_screen") {
        Some(WMFunc::LockScreen)
    } else if str_eq(name, "focusstack") {
        Some(WMFunc::Focusstack)
    } else if str_eq(name, "focusmon") {
        Some(WMFunc::Focusmon)
    } else if str_eq(name, "take_screenshot") {
        Some(WMFunc::TakeScreenshot)
    } else if str_eq(name, "take_screenshot_fullscreen") {
        Some(WMFunc::TakeScreenshotFullscreen)
    } else if str_eq(name, "quit") {
        Some(WMFunc::Quit)
    } else if str_eq(name, "restart") {
        Some(WMFunc::Restart)
    } else if str_eq(name, "killclient") {
        Some(WMFunc::Killclient)
    } else if str_eq(name, "minimize") {
        Some(WMFunc::Minimize)
    } else if str_eq(name, "zoom") {
        Some(WMFunc::Zoom)
    } else if str_eq(name, "setlayout") {
        Some(WMFunc::Setlayout)
    } else if str_eq(name, "lastlayout") {
        Some(WMFunc::Lastlayout)
    } else if str_eq(name, "togglefloating") {
        Some(WMFunc::Togglefloating)
    } else if str_eq(name, "togglebar") {
        Some(WMFunc::Togglebar)
    } else if str_eq(name, "setmfact") {
        Some(WMFunc::Setmfact)
    } else if str_eq(name, "setgaps") {
        Some(WMFunc::Setgaps)
    } else if str_eq(name, "setcfact") {
        Some(WMFunc::Setcfact)
    } else if str_eq(name, "incnmaster") {
        Some(WMFunc::Incnmaster)
    } else if str_eq(name, "movestack") {
        Some(WMFunc::Movestack)
    } else if str_eq(name, "view") {
        Some(WMFunc::View)
    } else if str_eq(name, "tag") {
        Some(WMFunc::Tag)
    } else if str_eq(name, "toggleview") {
        Some(WMFunc::Toggleview)
    } else if str_eq(name, "toggletag") {
        Some(WMFunc::Toggletag)
    } else if str_eq(name, "tagmon") {
        Some(WMFunc::Tagmon)
    } else if str_eq(name, "loopview") {
        Some(WMFunc::Loopview)
    } else if str_eq(name, "movemouse") {
        Some(WMFunc::Movemouse)
    } else if str_eq(name, "resizemouse") {
        Some(WMFunc::Resizemouse)
    } else if str_eq(name, "show_keybindings") {
        Some(WMFunc::ShowKeybindings)
    } else if str_eq(name, "cyclelayout") {
        Some(WMFunc::Cyclelayout)
    } else if str_eq(name, "layout_picker") {
        Some(WMFunc::LayoutPicker)
    } else if str_eq(name, "togglesticky") {
        Some(WMFunc::Togglesticky)
    } else if str_eq(name, "togglescratchpad") {
        Some(WMFunc::Togglescratchpad)
    } else if str_eq(name, "togglepip") {
        Some(WMFunc::Togglepip)
    } else if str_eq(name, "togglecompositor") {
        Some(WMFunc::Togglecompositor)
    } else if str_eq(name, "togglepartialdamage") {
        Some(WMFunc::Togglepartialdamage)
    } else if str_eq(name, "toggle_debug_hud") {
        Some(WMFunc::ToggleDebugHud)
    } else if str_eq(name, "toggle_waterlily") {
        Some(WMFunc::ToggleWaterlily)
    } else if str_eq(name, "waterlily_case") {
        Some(WMFunc::WaterlilyCase)
    } else if str_eq(name, "waterlily_palette") {
        Some(WMFunc::WaterlilyPalette)
    } else if str_eq(name, "toggle_overview") {
        Some(WMFunc::ToggleOverview)
    } else if str_eq(name, "cycle_overview") {
        Some(WMFunc::CycleOverview)
    } else if str_eq(name, "toggle_magnifier") {
        Some(WMFunc::ToggleMagnifier)
    } else if str_eq(name, "toggle_peek") {
        Some(WMFunc::TogglePeek)
    } else if str_eq(name, "toggle_annotation") {
        Some(WMFunc::ToggleAnnotation)
    } else if str_eq(name, "save_session") {
        Some(WMFunc::SaveSession)
    } else if str_eq(name, "restore_session") {
        Some(WMFunc::RestoreSession)
    } else if str_eq(name, "toggle_expose") {
        Some(WMFunc::ToggleExpose)
    } else if str_eq(name, "toggle_recording") {
        Some(WMFunc::ToggleRecording)
    } else if str_eq(name, "volume_adjust") {
        Some(WMFunc::VolumeAdjust)
    } else if str_eq(name, "volume_mute") {
        Some(WMFunc::VolumeMute)
    } else if str_eq(name, "brightness_adjust") {
        Some(WMFunc::BrightnessAdjust)
    } else if str_eq(name, "control_center") {
        Some(WMFunc::ControlCenter)
    } else if str_eq(name, "notification_center") {
        Some(WMFunc::NotificationCenter)
    } else if str_eq(name, "media_play_pause") {
        Some(WMFunc::MediaPlayPause)
    } else if str_eq(name, "media_next") {
        Some(WMFunc::MediaNext)
    } else if str_eq(name, "media_previous") {
        Some(WMFunc::MediaPrevious)
    } else if str_eq(name, "media_stop") {
        Some(WMFunc::MediaStop)
    } else if str_eq(name, "session_menu") {
        Some(WMFunc::SessionMenu)
    } else if str_eq(name, "toggle_night_light") {
        Some(WMFunc::ToggleNightLight)
    } else if str_eq(name, "toggle_idle_inhibit") {
        Some(WMFunc::ToggleIdleInhibit)
    } else if str_eq(name, "toggle_wifi") {
        Some(WMFunc::ToggleWifi)
    } else if str_eq(name, "wifi_picker") {
        Some(WMFunc::WifiPicker)
    } else if str_eq(name, "audio_output_picker") {
        Some(WMFunc::AudioOutputPicker)
    } else if str_eq(name, "audio_input_picker") {
        Some(WMFunc::AudioInputPicker)
    } else if str_eq(name, "bluetooth_picker") {
        Some(WMFunc::BluetoothPicker)
    } else if str_eq(name, "calendar") {
        Some(WMFunc::Calendar)
    } else if str_eq(name, "clipboard_picker") {
        Some(WMFunc::ClipboardPicker)
    } else if str_eq(name, "wallpaper_picker") {
        Some(WMFunc::WallpaperPicker)
    } else if str_eq(name, "toggle_bluetooth") {
        Some(WMFunc::ToggleBluetooth)
    } else if str_eq(name, "adjust_recording_region") {
        Some(WMFunc::AdjustRecordingRegion)
    } else if str_eq(name, "toggle_audio_recording") {
        Some(WMFunc::ToggleAudioRecording)
    } else if str_eq(name, "scrolling_focus_column") {
        Some(WMFunc::ScrollingFocusColumn)
    } else if str_eq(name, "scrolling_move_column") {
        Some(WMFunc::ScrollingMoveColumn)
    } else if str_eq(name, "scrolling_consume") {
        Some(WMFunc::ScrollingConsume)
    } else if str_eq(name, "scrolling_expel") {
        Some(WMFunc::ScrollingExpel)
    } else if str_eq(name, "scrolling_focus_window") {
        Some(WMFunc::ScrollingFocusWindow)
    } else if str_eq(name, "scrolling_toggle_attach_mode") {
        Some(WMFunc::ScrollingToggleAttachMode)
    } else if str_eq(name, "toggle_slime") {
        Some(WMFunc::ToggleWaterlily)
    } else {
        None
    }
}

/// The X11 key symbol a key name stands for.
pub open spec fn keysym_named(key: Seq<char>) -> Option<u32> {
    if key == "Return"@ {
        Some(0xff0d)
    } else if key == "Tab"@ {
        Some(0xff09)
    } else if key == "space"@ {
        Some(0x20)
    } else if key == "Page_Up"@ {
        Some(0xff55)
    } else if key == "Page_Down"@ {
        Some(0xff56)
    } else if key == "comma"@ {
        Some(0x2c)
    } else if key == "period"@ {
        Some(0x2e)
    } else if key == "a"@ {
        Some(0x61)
    } else if key == "b"@ {
        Some(0x62)
    } else if key == "c"@ {
        Some(0x63)
    } else if key == "d"@ {
        Some(0x64)
    } else if key == "e"@ {
        Some(0x65)
    } else if key == "f"@ {
        Some(0x66)
    } else if key == "g"@ {
        Some(0x67)
    } else if key == "h"@ {
        Some(0x68)
    } else if key == "i"@ {
        Some(0x69)
    } else if key == "j"@ {
        Some(0x6a)
    } else if key == "k"@ {
        Some(0x6b)
    } else if key == "l"@ {
        Some(0x6c)
    } else if key == "m"@ {
        Some(0x6d)
    } else if key == "n"@ {
        Some(0x6e)
    } else if key == "o"@ {
        Some(0x6f)
    } else if key == "p"@ {
        Some(0x70)
    } else if key == "q"@ {
        Some(0x71)
    } else if key == "r"@ {
        Some(0x72)
    } else if key == "s"@ {
        Some(0x73)
    } else if key == "t"@ {
        Some(0x74)
    } else if key == "u"@ {
        Some(0x75)
    } else if key == "v"@ {
        Some(0x76)
    } else if key == "w"@ {
        Some(0x77)
    } else if key == "x"@ {
        Some(0x78)
    } else if key == "y"@ {
        Some(0x79)
    } else if key == "z"@ {
        Some(0x7a)
    } else if key == "0"@ {
        Some(0x30)
    } else if key == "1"@ {
        Some(0x31)
    } else if key == "2"@ {
        Some(0x32)
    } else if key == "3"@ {
        Some(0x33)
    } else if key == "4"@ {
        Some(0x34)
    } else if key == "5"@ {
        Some(0x35)
    } else if key == "6"@ {
        Some(0x36)
    } else if key == "7"@ {
        Some(0x37)
    } else if key == "8"@ {
        Some(0x38)
    } else if key == "9"@ {
        Some(0x39)
    } else if key == "F1"@ {
        Some(0xffbe)
    } else if key == "F2"@ {
        Some(0xffbf)
    } else if key == "F3"@ {
        Some(0xffc0)
    } else if key == "F4"@ {
        Some(0xffc1)
    } else if key == "F5"@ {
        Some(0xffc2)
    } else if key == "F6"@ {
        Some(0xffc3)
    } else if key == "F7"@ {
        Some(0xffc4)
    } else if key == "F8"@ {
        Some(0xffc5)
    } else if key == "F9"@ {
        Some(0xffc6)
    } else if key == "F10"@ {
        Some(0xffc7)
    } else if key == "F11"@ {
        Some(0xffc8)
    } else if key == "F12"@ {
        Some(0xffc9)
    } else if key == "Left"@ {
        Some(0xff51)
    } else if key == "Right"@ {
        Some(0xff53)
    } else if key == "Up"@ {
        Some(0xff52)
    } else if key == "Down"@ {
        Some(0xff54)
    } else if key == "slash"@ {
        Some(0x2f)
    } else if key == "question"@ {
        Some(0x3f)
    } else if key == "grave"@ {
        Some(0x60)
    } else if key == "Escape"@ {
        Some(0xff1b)
    } else if key == "BackSpace"@ {
        Some(0xff08)
    } else if key == "Delete"@ {
        Some(0xffff)
    } else if key == "Home"@ {
        Some(0xff50)
    } else if key == "End"@ {
        Some(0xff57)
    } else if key == "XF86AudioRaiseVolume"@ {
        Some(0x1008ff13)
    } else if key == "XF86AudioLowerVolume"@ {
        Some(0x1008ff11)
    } else if key == "XF86AudioMute"@ {
        Some(0x1008ff12)
    } else if key == "XF86AudioPlay"@ {
        Some(0x1008ff14)
    } else if key == "XF86AudioPause"@ {
        Some(0x1008ff31)
    } else if key == "XF86AudioNext"@ {
        Some(0x1008ff17)
    } else if key == "XF86AudioPrev"@ {
        Some(0x1008ff16)
    } else if key == "XF86AudioStop"@ {
        Some(0x1008ff15)
    } else if key == "XF86MonBrightnessUp"@ {
        Some(0x1008ff02)
    } else if key == "XF86MonBrightnessDown"@ {
        Some(0x1008ff03)
    } else {
        None
    }
}

/// The X11 key symbol a key name stands for.
pub fn keysym_by_name(key: &str) -> (r: Option<u32>)
    ensures
        r == keysym_named(key@),
{
    if str_eq(key, "Return") {
        Some(0xff0d)
    } else if str_eq(key, "Tab") {
        Some(0xff09)
    } else if str_eq(key, "space") {
        Some(0x20)
    } else if str_eq(key, "Page_Up") {
        Some(0xff55)
    } else if str_eq(key, "Page_Down") {
        Some(0xff56)
    } else if str_eq(key, "comma") {
        Some(0x2c)
    } else if str_eq(key, "period") {
        Some(0x2e)
    } else if str_eq(key, "a") {
        Some(0x61)
    } else if str_eq(key, "b") {
        Some(0x62)
    } else if str_eq(key, "c") {
        Some(0x63)
    } else if str_eq(key, "d") {
        Some(0x64)
    } else if str_eq(key, "e") {
        Some(0x65)
    } else if str_eq(key, "f") {
        Some(0x66)
    } else if str_eq(key, "g") {
        Some(0x67)
    } else if str_eq(key, "h") {
        Some(0x68)
    } else if str_eq(key, "i") {
        Some(0x69)
    } else if str_eq(key, "j") {
        Some(0x6a)
    } else if str_eq(key, "k") {
        Some(0x6b)
    } else if str_eq(key, "l") {
        Some(0x6c)
    } else if str_eq(key, "m") {
        Some(0x6d)
    } else if str_eq(key, "n") {
        Some(0x6e)
    } else if str_eq(key, "o") {
        Some(0x6f)
    } else if str_eq(key, "p") {
        Some(0x70)
    } else if str_eq(key, "q") {
        Some(0x71)
    } else if str_eq(key, "r") {
        Some(0x72)
    } else if str_eq(key, "s") {
        Some(0x73)
    } else if str_eq(key, "t") {
        Some(0x74)
    } else if str_eq(key, "u") {
        Some(0x75)
    } else if str_eq(key, "v") {
        Some(0x76)
    } else if str_eq(key, "w") {
        Some(0x77)
    } else if str_eq(key, "x") {
        Some(0x78)
    } else if str_eq(key, "y") {
        Some(0x79)
    } else if str_eq(key, "z") {
        Some(0x7a)
    } else if str_eq(key, "0") {
        Some(0x30)
    } else if str_eq(key, "1") {
        Some(0x31)
    } else if str_eq(key, "2") {
        Some(0x32)
    } else if str_eq(key, "3") {
        Some(0x33)
    } else if str_eq(key, "4") {
        Some(0x34)
    } else if str_eq(key, "5") {
        Some(0x35)
    } else if str_eq(key, "6") {
        Some(0x36)
    } else if str_eq(key, "7") {
        Some(0x37)
    } else if str_eq(key, "8") {
        Some(0x38)
    } else if str_eq(key, "9") {
        Some(0x39)
    } else if str_eq(key, "F1") {
        Some(0xffbe)
    } else if str_eq(key, "F2") {
        Some(0xffbf)
    } else if str_eq(key, "F3") {
        Some(0xffc0)
    } else if str_eq(key, "F4") {
        Some(0xffc1)
    } else if str_eq(key, "F5") {
        Some(0xffc2)
    } else if str_eq(key, "F6") {
        Some(0xffc3)
    } else if str_eq(key, "F7") {
        Some(0xffc4)
    } else if str_eq(key, "F8") {
        Some(0xffc5)
    } else if str_eq(key, "F9") {
        Some(0xffc6)
    } else if str_eq(key, "F10") {
        Some(0xffc7)
    } else if str_eq(key, "F11") {
        Some(0xffc8)
    } else if str_eq(key, "F12") {
        Some(0xffc9)
    } else if str_eq(key, "Left") {
        Some(0xff51)
    } else if str_eq(key, "Right") {
        Some(0xff53)
    } else if str_eq(key, "Up") {
        Some(0xff52)
    } else if str_eq(key, "Down") {
        Some(0xff54)
    } else if str_eq(key, "slash") {
        Some(0x2f)
    } else if str_eq(key, "question") {
        Some(0x3f)
    } else if str_eq(key, "grave") {
        Some(0x60)
    } else if str_eq(key, "Escape") {
        Some(0xff1b)
    } else if str_eq(key, "BackSpace") {
        Some(0xff08)
    } else if str_eq(key, "Delete") {
        Some(0xffff)
    } else if str_eq(key, "Home") {
        Some(0xff50)
    } else if str_eq(key, "End") {
        Some(0xff57)
    } else if str_eq(key, "XF86AudioRaiseVolume") {
        Some(0x1008ff13)
    } else if str_eq(key, "XF86AudioLowerVolume") {
        Some(0x1008ff11)
    } else if str_eq(key, "XF86AudioMute") {
        Some(0x1008ff12)
    } else if str_eq(key, "XF86AudioPlay") {
        Some(0x1008ff14)
    } else if str_eq(key, "XF86AudioPause") {
        Some(0x1008ff31)
    } else if str_eq(key, "XF86AudioNext") {
        Some(0x1008ff17)
    } else if str_eq(key, "XF86AudioPrev") {
        Some(0x1008ff16)
    } else if str_eq(key, "XF86AudioStop") {
        Some(0x1008ff15)
    } else if str_eq(key, "XF86MonBrightnessUp") {
        Some(0x1008ff02)
    } else if str_eq(key, "XF86MonBrightnessDown") {
        Some(0x1008ff03)
    } else {
        None
    }
}

} // verus!
