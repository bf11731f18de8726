//! The built-in configuration.
use super::bindings::{click_named, modifier_named};
use super::types::{
    AnimationConfig, AppearanceConfig, ArgumentConfig, BehaviorConfig, ButtonConfig, ChordConfig,
    ColorsConfig, Config, KeyBindingsConfig, KeyConfig, LayoutConfig, MouseBindingsConfig,
    StatusBarConfig, TomlConfig,
};
use crate::actions::{function_named, keysym_named};
use crate::ieee::{F32, F64};
use crate::text::views;
use vstd::prelude::*;

verus! {

/// Matches the bar that is installed when the user does not select another
/// implementation explicitly.
pub const STATUS_BAR_NAME: &'static str = "tao_pixels_bar";

/// How long a two-step shortcut waits, in milliseconds, where a document does
/// not say.
pub const DEFAULT_CHORD_TIMEOUT_MS: u64 = 1500;

/// Fraction of normal brightness while dimmed, 0.4.
pub const DEFAULT_DIM_LEVEL: u32 = 0x3ecc_cccd;

/// A document argument as a mathematical value.
pub enum ArgumentView {
    Int(int),
    UInt(int),
    Float(F32),
    String(Seq<char>),
    StringVec(Seq<Seq<char>>),
}

impl View for ArgumentConfig {
    type V = ArgumentView;

    open spec fn view(&self) -> ArgumentView {
        match *self {
            ArgumentConfig::Int(i) => ArgumentView::Int(i as int),
            ArgumentConfig::UInt(u) => ArgumentView::UInt(u as int),
            ArgumentConfig::Float(x) => ArgumentView::Float(x),
            ArgumentConfig::String(s) => ArgumentView::String(s@),
            ArgumentConfig::StringVec(v) => ArgumentView::StringVec(views(v@)),
        }
    }
}

/// A key entry as a mathematical value.
pub struct KeyConfigView {
    pub modifier: Seq<Seq<char>>,
    pub key: Seq<char>,
    pub function: Seq<char>,
    pub argument: ArgumentView,
}

impl View for KeyConfig {
    type V = KeyConfigView;

    open spec fn view(&self) -> KeyConfigView {
        KeyConfigView {
            modifier: views(self.modifier@),
            key: self.key@,
            function: self.function@,
            argument: self.argument@,
        }
    }
}

/// A button entry as a mathematical value.
pub struct ButtonConfigView {
    pub click_type: Seq<char>,
    pub modifier: Seq<Seq<char>>,
    pub button: u8,
    pub function: Seq<char>,
    pub argument: ArgumentView,
}

impl View for ButtonConfig {
    type V = ButtonConfigView;

    open spec fn view(&self) -> ButtonConfigView {
        ButtonConfigView {
            click_type: self.click_type@,
            modifier: views(self.modifier@),
            button: self.button,
            function: self.function@,
            argument: self.argument@,
        }
    }
}

/// The views of key entries.
pub open spec fn key_entries(keys: Seq<KeyConfig>) -> Seq<KeyConfigView> {
    keys.map_values(|k: KeyConfig| k@)
}

/// The views of button entries.
pub open spec fn button_entries(buttons: Seq<ButtonConfig>) -> Seq<ButtonConfigView> {
    buttons.map_values(|b: ButtonConfig| b@)
}

/// The modifiers the built-in bindings use.
#[derive(Debug, Clone, Copy, PartialEq, Eq, Structural)]
pub enum Held {
    Plain,
    Alt,
    AltControl,
    AltShift,
    AltControlShift,
}

impl Held {
    /// The modifiers by their names in the document.
    pub open spec fn names(self) -> Seq<Seq<char>> {
        match self {
            Held::Plain => Seq::empty(),
            Held::Alt => seq!["Mod1"@],
            Held::AltControl => seq!["Mod1"@, "Control"@],
            Held::AltShift => seq!["Mod1"@, "Shift"@],
            Held::AltControlShift => seq!["Mod1"@, "Control"@, "Shift"@],
        }
    }

    fn strings(self) -> (r: Vec<String>)
        ensures
            views(r@) == self.names(),
    {
        let names: Vec<String> = match self {
            Held::Plain => Vec::new(),
            Held::Alt => vec!["Mod1".to_string()],
            Held::AltControl => vec!["Mod1".to_string(), "Control".to_string()],
            Held::AltShift => vec!["Mod1".to_string(), "Shift".to_string()],
            Held::AltControlShift => vec![
                "Mod1".to_string(),
                "Control".to_string(),
                "Shift".to_string(),
            ],
        };
        assert(views(names@) == self.names());
        names
    }
}

/// A key entry.
pub open spec fn entry(
    held: Held,
    key: Seq<char>,
    function: Seq<char>,
    argument: ArgumentView,
) -> KeyConfigView {
    KeyConfigView { modifier: held.names(), key, function, argument }
}

fn bind(
    keys: &mut Vec<KeyConfig>,
    held: Held,
    key: &str,
    function: &str,
    argument: ArgumentConfig,
)
    ensures
        key_entries(final(keys)@) == key_entries(old(keys)@).push(
            entry(held, key@, function@, argument@),
        ),
{
    keys.push(
        KeyConfig {
            modifier: held.strings(),
            key: key.to_string(),
            function: function.to_string(),
            argument,
        },
    );
    assert(key_entries(keys@) == key_entries(old(keys)@).push(
        entry(held, key@, function@, argument@),
    ));
}

/// A command line of one argument.
fn one(a: &str) -> (r: ArgumentConfig)
    ensures
        r@ == ArgumentView::StringVec(seq![a@]),
{
    let v: Vec<String> = vec![a.to_string()];
    assert(views(v@) == seq![a@]);
    ArgumentConfig::StringVec(v)
}

/// A command line of two arguments.
fn two(a: &str, b: &str) -> (r: ArgumentConfig)
    ensures
        r@ == ArgumentView::StringVec(seq![a@, b@]),
{
    let v: Vec<String> = vec![a.to_string(), b.to_string()];
    assert(views(v@) == seq![a@, b@]);
    ArgumentConfig::StringVec(v)
}

/// Part of the built-in key entries.
pub open spec fn overlay_keys() -> Seq<KeyConfigView> {
    seq![
        entry(Held::Alt, "e"@, "toggle_expose"@, ArgumentView::Int(0)),
        entry(Held::Alt, "p"@, "toggle_peek"@, ArgumentView::Int(0)),
        entry(Held::AltControl, "r"@, "toggle_recording"@, ArgumentView::Int(0)),
        entry(Held::AltControlShift, "r"@, "adjust_recording_region"@, ArgumentView::Int(0)),
        entry(Held::AltControl, "m"@, "toggle_audio_recording"@, ArgumentView::Int(0)),
        entry(Held::AltControl, "o"@, "monitor_layout"@, ArgumentView::Int(0)),
        entry(Held::Alt, "r"@, "app_launcher"@, ArgumentView::Int(0)),
        entry(Held::AltControl, "Escape"@, "lock_screen"@, ArgumentView::Int(0)),
        entry(Held::Plain, "XF86AudioRaiseVolume"@, "volume_adjust"@, ArgumentView::Int(5)),
        entry(Held::Plain, "XF86AudioLowerVolume"@, "volume_adjust"@, ArgumentView::Int(-5)),
    ]
}

fn push_overlay_keys(keys: &mut Vec<KeyConfig>)
    ensures
        key_entries(final(keys)@) == key_entries(old(keys)@) + overlay_keys(),
{
    bind(keys, Held::Alt, "e", "toggle_expose", ArgumentConfig::Int(0));
    bind(keys, Held::Alt, "p", "toggle_peek", ArgumentConfig::Int(0));
    bind(keys, Held::AltControl, "r", "toggle_recording", ArgumentConfig::Int(0));
    bind(keys, Held::AltControlShift, "r", "adjust_recording_region", ArgumentConfig::Int(0));
    bind(keys, Held::AltControl, "m", "toggle_audio_recording", ArgumentConfig::Int(0));
    bind(keys, Held::AltControl, "o", "monitor_layout", ArgumentConfig::Int(0));
    bind(keys, Held::Alt, "r", "app_launcher", ArgumentConfig::Int(0));
    bind(keys, Held::AltControl, "Escape", "lock_screen", ArgumentConfig::Int(0));
    bind(keys, Held::Plain, "XF86AudioRaiseVolume", "volume_adjust", ArgumentConfig::Int(5));
    bind(keys, Held::Plain, "XF86AudioLowerVolume", "volume_adjust", ArgumentConfig::Int(-5));
    assert(key_entries(keys@) == key_entries(old(keys)@) + overlay_keys());
}

/// Part of the built-in key entries.
pub open spec fn panel_keys() -> Seq<KeyConfigView> {
    seq![
        entry(Held::Plain, "XF86AudioMute"@, "volume_mute"@, ArgumentView::Int(0)),
        entry(Held::Plain, "XF86MonBrightnessUp"@, "brightness_adjust"@, ArgumentView::Int(5)),
        entry(Held::Plain, "XF86MonBrightnessDown"@, "brightness_adjust"@, ArgumentView::Int(-5)),
        entry(Held::Alt, "F10"@, "control_center"@, ArgumentView::Int(0)),
        entry(Held::Alt, "F11"@, "notification_center"@, ArgumentView::Int(0)),
        entry(Held::Alt, "F12"@, "wifi_picker"@, ArgumentView::Int(0)),
        entry(Held::AltControl, "F12"@, "bluetooth_picker"@, ArgumentView::Int(0)),
        entry(Held::Alt, "F9"@, "calendar"@, ArgumentView::Int(0)),
        entry(Held::AltControl, "w"@, "wallpaper_picker"@, ArgumentView::Int(0)),
        entry(Held::AltControl, "v"@, "clipboard_picker"@, ArgumentView::Int(0)),
    ]
}

fn push_panel_keys(keys: &mut Vec<KeyConfig>)
    ensures
        key_entries(final(keys)@) == key_entries(old(keys)@) + panel_keys(),
{
    bind(keys, Held::Plain, "XF86AudioMute", "volume_mute", ArgumentConfig::Int(0));
    bind(keys, Held::Plain, "XF86MonBrightnessUp", "brightness_adjust", ArgumentConfig::Int(5));
    bind(keys, Held::Plain, "XF86MonBrightnessDown", "brightness_adjust", ArgumentConfig::Int(-5));
    bind(keys, Held::Alt, "F10", "control_center", ArgumentConfig::Int(0));
    bind(keys, Held::Alt, "F11", "notification_center", ArgumentConfig::Int(0));
    bind(keys, Held::Alt, "F12", "wifi_picker", ArgumentConfig::Int(0));
    bind(keys, Held::AltControl, "F12", "bluetooth_picker", ArgumentConfig::Int(0));
    bind(keys, Held::Alt, "F9", "calendar", ArgumentConfig::Int(0));
    bind(keys, Held::AltControl, "w", "wallpaper_picker", ArgumentConfig::Int(0));
    bind(keys, Held::AltControl, "v", "clipboard_picker", ArgumentConfig::Int(0));
    assert(key_entries(keys@) == key_entries(old(keys)@) + panel_keys());
}

/// Part of the built-in key entries.
pub open spec fn session_keys(terminal: Seq<Seq<char>>) -> Seq<KeyConfigView> {
    seq![
        entry(Held::AltShift, "Escape"@, "session_menu"@, ArgumentView::Int(0)),
        entry(Held::Plain, "XF86AudioPlay"@, "media_play_pause"@, ArgumentView::Int(0)),
        entry(Held::Plain, "XF86AudioNext"@, "media_next"@, ArgumentView::Int(0)),
        entry(Held::Plain, "XF86AudioPrev"@, "media_previous"@, ArgumentView::Int(0)),
        entry(Held::AltShift, "Return"@, "spawn"@, ArgumentView::StringVec(terminal)),
        entry(Held::Alt, "b"@, "togglebar"@, ArgumentView::Int(0)),
        entry(Held::AltShift, "b"@, "setgaps"@, ArgumentView::Int(5)),
        entry(Held::AltControl, "b"@, "setgaps"@, ArgumentView::Int(-5)),
        entry(Held::AltShift, "x"@, "togglecompositor"@, ArgumentView::Int(0)),
        entry(Held::AltShift, "d"@, "togglepartialdamage"@, ArgumentView::Int(0)),
    ]
}

fn push_session_keys(keys: &mut Vec<KeyConfig>, terminal: Vec<String>)
    ensures
        key_entries(final(keys)@) == key_entries(old(keys)@) + session_keys(views(terminal@)),
{
    bind(keys, Held::AltShift, "Escape", "session_menu", ArgumentConfig::Int(0));
    bind(keys, Held::Plain, "XF86AudioPlay", "media_play_pause", ArgumentConfig::Int(0));
    bind(keys, Held::Plain, "XF86AudioNext", "media_next", ArgumentConfig::Int(0));
    bind(keys, Held::Plain, "XF86AudioPrev", "media_previous", ArgumentConfig::Int(0));
    bind(keys, Held::AltShift, "Return", "spawn", ArgumentConfig::StringVec(terminal));
    bind(keys, Held::Alt, "b", "togglebar", ArgumentConfig::Int(0));
    bind(keys, Held::AltShift, "b", "setgaps", ArgumentConfig::Int(5));
    bind(keys, Held::AltControl, "b", "setgaps", ArgumentConfig::Int(-5));
    bind(keys, Held::AltShift, "x", "togglecompositor", ArgumentConfig::Int(0));
    bind(keys, Held::AltShift, "d", "togglepartialdamage", ArgumentConfig::Int(0));
    assert(key_entries(keys@) == key_entries(old(keys)@) + session_keys(views(terminal@)));
}

/// Part of the built-in key entries.
pub open spec fn effect_and_focus_keys() -> Seq<KeyConfigView> {
    seq![
        entry(Held::AltShift, "F12"@, "toggle_debug_hud"@, ArgumentView::Int(0)),
        entry(Held::AltShift, "F11"@, "toggle_waterlily"@, ArgumentView::Int(0)),
        entry(Held::AltShift, "F10"@, "waterlily_case"@, ArgumentView::StringVec(seq!["next"@])),
        entry(Held::AltShift, "F9"@, "waterlily_palette"@, ArgumentView::StringVec(seq!["next"@])),
        entry(Held::AltShift, "a"@, "toggle_annotation"@, ArgumentView::Int(0)),
        entry(Held::Alt, "j"@, "focusstack"@, ArgumentView::Int(1)),
        entry(Held::Alt, "k"@, "focusstack"@, ArgumentView::Int(-1)),
        entry(Held::Alt, "i"@, "incnmaster"@, ArgumentView::Int(1)),
        entry(Held::Alt, "d"@, "incnmaster"@, ArgumentView::Int(-1)),
        entry(Held::Alt, "h"@, "setmfact"@, ArgumentView::Float(F32 { bits: 0xbccc_cccd })),
    ]
}

fn push_effect_and_focus_keys(keys: &mut Vec<KeyConfig>)
    ensures
        key_entries(final(keys)@) == key_entries(old(keys)@) + effect_and_focus_keys(),
{
    bind(keys, Held::AltShift, "F12", "toggle_debug_hud", ArgumentConfig::Int(0));
    bind(keys, Held::AltShift, "F11", "toggle_waterlily", ArgumentConfig::Int(0));
    bind(keys, Held::AltShift, "F10", "waterlily_case", one("next"));
    bind(keys, Held::AltShift, "F9", "waterlily_palette", one("next"));
    bind(keys, Held::AltShift, "a", "toggle_annotation", ArgumentConfig::Int(0));
    bind(keys, Held::Alt, "j", "focusstack", ArgumentConfig::Int(1));
    bind(keys, Held::Alt, "k", "focusstack", ArgumentConfig::Int(-1));
    bind(keys, Held::Alt, "i", "incnmaster", ArgumentConfig::Int(1));
    bind(keys, Held::Alt, "d", "incnmaster", ArgumentConfig::Int(-1));
    bind(keys, Held::Alt, "h", "setmfact", ArgumentConfig::Float(F32 { bits: 0xbccc_cccd }));
    assert(key_entries(keys@) == key_entries(old(keys)@) + effect_and_focus_keys());
}

/// Part of the built-in key entries.
pub open spec fn arrangement_keys() -> Seq<KeyConfigView> {
    seq![
        entry(Held::Alt, "l"@, "setmfact"@, ArgumentView::Float(F32 { bits: 0x3ccc_cccd })),
        entry(Held::AltShift, "h"@, "setcfact"@, ArgumentView::Float(F32 { bits: 0x3e4c_cccd })),
        entry(Held::AltShift, "l"@, "setcfact"@, ArgumentView::Float(F32 { bits: 0xbe4c_cccd })),
        entry(Held::AltShift, "o"@, "setcfact"@, ArgumentView::Float(F32 { bits: 0x0000_0000 })),
        entry(Held::AltShift, "j"@, "movestack"@, ArgumentView::Int(1)),
        entry(Held::AltShift, "k"@, "movestack"@, ArgumentView::Int(-1)),
        entry(Held::Alt, "Return"@, "zoom"@, ArgumentView::Int(0)),
        entry(Held::AltControl, "Tab"@, "toggle_overview"@, ArgumentView::Int(1)),
        entry(Held::Alt, "Tab"@, "loopview"@, ArgumentView::Int(1)),
        entry(Held::AltShift, "Tab"@, "loopview"@, ArgumentView::Int(-1)),
    ]
}

fn push_arrangement_keys(keys: &mut Vec<KeyConfig>)
    ensures
        key_entries(final(keys)@) == key_entries(old(keys)@) + arrangement_keys(),
{
    bind(keys, Held::Alt, "l", "setmfact", ArgumentConfig::Float(F32 { bits: 0x3ccc_cccd }));
    bind(keys, Held::AltShift, "h", "setcfact", ArgumentConfig::Float(F32 { bits: 0x3e4c_cccd }));
    bind(keys, Held::AltShift, "l", "setcfact", ArgumentConfig::Float(F32 { bits: 0xbe4c_cccd }));
    bind(keys, Held::AltShift, "o", "setcfact", ArgumentConfig::Float(F32 { bits: 0x0000_0000 }));
    bind(keys, Held::AltShift, "j", "movestack", ArgumentConfig::Int(1));
    bind(keys, Held::AltShift, "k", "movestack", ArgumentConfig::Int(-1));
    bind(keys, Held::Alt, "Return", "zoom", ArgumentConfig::Int(0));
    bind(keys, Held::AltControl, "Tab", "toggle_overview", ArgumentConfig::Int(1));
    bind(keys, Held::Alt, "Tab", "loopview", ArgumentConfig::Int(1));
    bind(keys, Held::AltShift, "Tab", "loopview", ArgumentConfig::Int(-1));
    assert(key_entries(keys@) == key_entries(old(keys)@) + arrangement_keys());
}

/// Part of the built-in key entries.
pub open spec fn window_and_layout_keys() -> Seq<KeyConfigView> {
    seq![
        entry(Held::Alt, "Page_Up"@, "loopview"@, ArgumentView::Int(-1)),
        entry(Held::Alt, "Page_Down"@, "loopview"@, ArgumentView::Int(1)),
        entry(Held::AltShift, "c"@, "killclient"@, ArgumentView::Int(0)),
        entry(Held::Alt, "n"@, "minimize"@, ArgumentView::Int(0)),
        entry(Held::Alt, "t"@, "setlayout"@, ArgumentView::String("tile"@)),
        entry(Held::AltShift, "t"@, "setlayout"@, ArgumentView::String("fibonacci"@)),
        entry(Held::Alt, "f"@, "setlayout"@, ArgumentView::String("float"@)),
        entry(Held::Alt, "m"@, "setlayout"@, ArgumentView::String("monocle"@)),
        entry(Held::Alt, "u"@, "setlayout"@, ArgumentView::String("centeredmaster"@)),
        entry(Held::AltShift, "u"@, "setlayout"@, ArgumentView::String("bstack"@)),
    ]
}

fn push_window_and_layout_keys(keys: &mut Vec<KeyConfig>)
    ensures
        key_entries(final(keys)@) == key_entries(old(keys)@) + window_and_layout_keys(),
{
    bind(keys, Held::Alt, "Page_Up", "loopview", ArgumentConfig::Int(-1));
    bind(keys, Held::Alt, "Page_Down", "loopview", ArgumentConfig::Int(1));
    bind(keys, Held::AltShift, "c", "killclient", ArgumentConfig::Int(0));
    bind(keys, Held::Alt, "n", "minimize", ArgumentConfig::Int(0));
    bind(keys, Held::Alt, "t", "setlayout", ArgumentConfig::String("tile".to_string()));
    bind(keys, Held::AltShift, "t", "setlayout", ArgumentConfig::String("fibonacci".to_string()));
    bind(keys, Held::Alt, "f", "setlayout", ArgumentConfig::String("float".to_string()));
    bind(keys, Held::Alt, "m", "setlayout", ArgumentConfig::String("monocle".to_string()));
    bind(keys, Held::Alt, "u", "setlayout", ArgumentConfig::String("centeredmaster".to_string()));
    bind(keys, Held::AltShift, "u", "setlayout", ArgumentConfig::String("bstack".to_string()));
    assert(key_entries(keys@) == key_entries(old(keys)@) + window_and_layout_keys());
}

/// Part of the built-in key entries.
pub open spec fn layout_keys() -> Seq<KeyConfigView> {
    seq![
        entry(Held::Alt, "g"@, "setlayout"@, ArgumentView::String("grid"@)),
        entry(Held::AltShift, "g"@, "setlayout"@, ArgumentView::String("deck"@)),
        entry(Held::Alt, "y"@, "setlayout"@, ArgumentView::String("threecol"@)),
        entry(Held::AltShift, "y"@, "setlayout"@, ArgumentView::String("tatami"@)),
        entry(Held::AltShift, "slash"@, "show_keybindings"@, ArgumentView::Int(0)),
        entry(Held::Alt, "space"@, "cyclelayout"@, ArgumentView::Int(1)),
        entry(Held::AltShift, "space"@, "cyclelayout"@, ArgumentView::Int(-1)),
        entry(Held::Alt, "grave"@, "lastlayout"@, ArgumentView::Int(0)),
        entry(Held::AltShift, "f"@, "setlayout"@, ArgumentView::String("fullscreen"@)),
        entry(Held::Alt, "0"@, "view"@, ArgumentView::UInt(0xffff_ffff)),
    ]
}

fn push_layout_keys(keys: &mut Vec<KeyConfig>)
    ensures
        key_entries(final(keys)@) == key_entries(old(keys)@) + layout_keys(),
{
    bind(keys, Held::Alt, "g", "setlayout", ArgumentConfig::String("grid".to_string()));
    bind(keys, Held::AltShift, "g", "setlayout", ArgumentConfig::String("deck".to_string()));
    bind(keys, Held::Alt, "y", "setlayout", ArgumentConfig::String("threecol".to_string()));
    bind(keys, Held::AltShift, "y", "setlayout", ArgumentConfig::String("tatami".to_string()));
    bind(keys, Held::AltShift, "slash", "show_keybindings", ArgumentConfig::Int(0));
    bind(keys, Held::Alt, "space", "cyclelayout", ArgumentConfig::Int(1));
    bind(keys, Held::AltShift, "space", "cyclelayout", ArgumentConfig::Int(-1));
    bind(keys, Held::Alt, "grave", "lastlayout", ArgumentConfig::Int(0));
    bind(keys, Held::AltShift, "f", "setlayout", ArgumentConfig::String("fullscreen".to_string()));
    bind(keys, Held::Alt, "0", "view", ArgumentConfig::UInt(0xffff_ffff));
    assert(key_entries(keys@) == key_entries(old(keys)@) + layout_keys());
}

/// Part of the built-in key entries.
pub open spec fn monitor_and_scratchpad_keys() -> Seq<KeyConfigView> {
    seq![
        entry(Held::AltShift, "0"@, "tag"@, ArgumentView::UInt(0xffff_ffff)),
        entry(Held::Alt, "comma"@, "focusmon"@, ArgumentView::Int(-1)),
        entry(Held::Alt, "period"@, "focusmon"@, ArgumentView::Int(1)),
        entry(Held::Alt, "s"@, "take_screenshot"@, ArgumentView::Int(0)),
        entry(Held::AltShift, "s"@, "take_screenshot_fullscreen"@, ArgumentView::Int(0)),
        entry(Held::AltShift, "comma"@, "tagmon"@, ArgumentView::Int(-1)),
        entry(Held::AltShift, "period"@, "tagmon"@, ArgumentView::Int(1)),
        entry(Held::AltShift, "n"@, "togglescratchpad"@, ArgumentView::StringVec(seq!["term"@])),
        entry(Held::AltShift, "m"@, "togglescratchpad"@, ArgumentView::StringVec(seq!["music"@, "spotify"@])),
        entry(Held::AltControl, "c"@, "togglescratchpad"@, ArgumentView::StringVec(seq!["calc"@, "qalculate-gtk"@])),
    ]
}

fn push_monitor_and_scratchpad_keys(keys: &mut Vec<KeyConfig>)
    ensures
        key_entries(final(keys)@) == key_entries(old(keys)@) + monitor_and_scratchpad_keys(),
{
    bind(keys, Held::AltShift, "0", "tag", ArgumentConfig::UInt(0xffff_ffff));
    bind(keys, Held::Alt, "comma", "focusmon", ArgumentConfig::Int(-1));
    bind(keys, Held::Alt, "period", "focusmon", ArgumentConfig::Int(1));
    bind(keys, Held::Alt, "s", "take_screenshot", ArgumentConfig::Int(0));
    bind(keys, Held::AltShift, "s", "take_screenshot_fullscreen", ArgumentConfig::Int(0));
    bind(keys, Held::AltShift, "comma", "tagmon", ArgumentConfig::Int(-1));
    bind(keys, Held::AltShift, "period", "tagmon", ArgumentConfig::Int(1));
    bind(keys, Held::AltShift, "n", "togglescratchpad", one("term"));
    bind(keys, Held::AltShift, "m", "togglescratchpad", two("music", "spotify"));
    bind(keys, Held::AltControl, "c", "togglescratchpad", two("calc", "qalculate-gtk"));
    assert(key_entries(keys@) == key_entries(old(keys)@) + monitor_and_scratchpad_keys());
}

/// Part of the built-in key entries.
pub open spec fn strip_keys() -> Seq<KeyConfigView> {
    seq![
        entry(Held::AltControl, "s"@, "togglesticky"@, ArgumentView::Int(0)),
        entry(Held::AltShift, "p"@, "togglepip"@, ArgumentView::Int(0)),
        entry(Held::Alt, "w"@, "setlayout"@, ArgumentView::String("scrolling"@)),
        entry(Held::Alt, "v"@, "setlayout"@, ArgumentView::String("vstack"@)),
        entry(Held::AltControl, "a"@, "scrolling_toggle_attach_mode"@, ArgumentView::Int(0)),
        entry(Held::AltControl, "h"@, "scrolling_consume"@, ArgumentView::Int(-1)),
        entry(Held::AltControl, "l"@, "scrolling_consume"@, ArgumentView::Int(1)),
        entry(Held::AltControlShift, "h"@, "scrolling_expel"@, ArgumentView::Int(-1)),
        entry(Held::AltControlShift, "l"@, "scrolling_expel"@, ArgumentView::Int(1)),
        entry(Held::AltShift, "q"@, "quit"@, ArgumentView::Int(0)),
    ]
}

fn push_strip_keys(keys: &mut Vec<KeyConfig>)
    ensures
        key_entries(final(keys)@) == key_entries(old(keys)@) + strip_keys(),
{
    bind(keys, Held::AltControl, "s", "togglesticky", ArgumentConfig::Int(0));
    bind(keys, Held::AltShift, "p", "togglepip", ArgumentConfig::Int(0));
    bind(keys, Held::Alt, "w", "setlayout", ArgumentConfig::String("scrolling".to_string()));
    bind(keys, Held::Alt, "v", "setlayout", ArgumentConfig::String("vstack".to_string()));
    bind(keys, Held::AltControl, "a", "scrolling_toggle_attach_mode", ArgumentConfig::Int(0));
    bind(keys, Held::AltControl, "h", "scrolling_consume", ArgumentConfig::Int(-1));
    bind(keys, Held::AltControl, "l", "scrolling_consume", ArgumentConfig::Int(1));
    bind(keys, Held::AltControlShift, "h", "scrolling_expel", ArgumentConfig::Int(-1));
    bind(keys, Held::AltControlShift, "l", "scrolling_expel", ArgumentConfig::Int(1));
    bind(keys, Held::AltShift, "q", "quit", ArgumentConfig::Int(0));
    assert(key_entries(keys@) == key_entries(old(keys)@) + strip_keys());
}

/// Part of the built-in key entries.
pub open spec fn restart_keys() -> Seq<KeyConfigView> {
    seq![
        entry(Held::AltShift, "r"@, "restart"@, ArgumentView::Int(0)),
    ]
}

fn push_restart_keys(keys: &mut Vec<KeyConfig>)
    ensures
        key_entries(final(keys)@) == key_entries(old(keys)@) + restart_keys(),
{
    bind(keys, Held::AltShift, "r", "restart", ArgumentConfig::Int(0));
    assert(key_entries(keys@) == key_entries(old(keys)@) + restart_keys());
}

/// The built-in key entries, in order; `terminal` is the terminal to open.
pub open spec fn default_keys(terminal: Seq<Seq<char>>) -> Seq<KeyConfigView> {
    overlay_keys() + panel_keys() + session_keys(terminal) + effect_and_focus_keys() + arrangement_keys() + window_and_layout_keys() + layout_keys() + monitor_and_scratchpad_keys() + strip_keys() + restart_keys()
}

/// The built-in button entries.
pub open spec fn default_buttons() -> Seq<ButtonConfigView> {
    seq![
        button_entry(1, "movemouse"@),
        button_entry(2, "togglefloating"@),
        button_entry(3, "resizemouse"@),
    ]
}

/// A button entry for a window held with Alt.
pub open spec fn button_entry(button: u8, function: Seq<char>) -> ButtonConfigView {
    ButtonConfigView {
        click_type: "ClkClientWin"@,
        modifier: seq!["Mod1"@],
        button,
        function,
        argument: ArgumentView::Int(0),
    }
}

fn window_button(button: u8, function: &str) -> (r: ButtonConfig)
    ensures
        r@ == button_entry(button, function@),
{
    ButtonConfig {
        click_type: "ClkClientWin".to_string(),
        modifier: Held::Alt.strings(),
        button,
        function: function.to_string(),
        argument: ArgumentConfig::Int(0),
    }
}

impl Config {
    /// The built-in key entries, in order; `terminal` is the terminal to open.
    pub fn get_default_keys(terminal: Vec<String>) -> (r: Vec<KeyConfig>)
        ensures
            key_entries(r@) == default_keys(views(terminal@)),
    {
        let mut keys: Vec<KeyConfig> = Vec::new();
        push_overlay_keys(&mut keys);
        push_panel_keys(&mut keys);
        push_session_keys(&mut keys, terminal);
        push_effect_and_focus_keys(&mut keys);
        push_arrangement_keys(&mut keys);
        push_window_and_layout_keys(&mut keys);
        push_layout_keys(&mut keys);
        push_monitor_and_scratchpad_keys(&mut keys);
        push_strip_keys(&mut keys);
        push_restart_keys(&mut keys);
        assert(key_entries(keys@) == default_keys(views(terminal@)));
        keys
    }

    /// The built-in button entries.
    pub fn get_default_button_configs() -> (r: Vec<ButtonConfig>)
        ensures
            button_entries(r@) == default_buttons(),
    {
        let buttons = vec![
            window_button(1, "movemouse"),
            window_button(2, "togglefloating"),
            window_button(3, "resizemouse"),
        ];
        assert(button_entries(buttons@) == default_buttons());
        buttons
    }
}

/// The built-in appearance.
pub open spec fn is_default_appearance(r: AppearanceConfig) -> bool {
    &&& r.border_px == 3
    &&& r.gap_px == 5
    &&& r.snap == 32
    &&& r.system_ui_font@ == "SauceCodePro Nerd Font Regular 11"@
    &&& r.status_bar_padding == 5
    &&& r.status_bar_height == 42
    &&& r.cursor_theme@ == ""@
    &&& r.cursor_size == 0
    &&& r.ui_theme@ == "glass"@
}

/// The built-in appearance.
fn default_appearance() -> (r: AppearanceConfig)
    ensures
        is_default_appearance(r),
{
    let r = AppearanceConfig {
        border_px: 3,
        gap_px: 5,
        snap: 32,
        system_ui_font: "SauceCodePro Nerd Font Regular 11".to_string(),
        status_bar_padding: 5,
        status_bar_height: 42,
        cursor_theme: "".to_string(),
        cursor_size: 0,
        ui_theme: "glass".to_string(),
    };
    r
}

/// The built-in behaviour; `wallpaper` is the path of the wallpaper.
pub open spec fn is_default_behavior(r: BehaviorConfig, wallpaper: Seq<char>) -> bool {
    &&& !r.focus_follows_new_window
    &&& r.new_client_position@ == "master"@
    &&& r.drag_threshold_px == 12
    &&& r.client_moveresize@ == "floating-only"@
    &&& r.resize_hints
    &&& r.lock_fullscreen
    &&& r.compositor
    &&& r.compositor_api@ == "egl"@
    &&& r.corner_radius == (F32 { bits: 0x4120_0000 })  // 10.0
    &&& r.shadow_enabled
    &&& r.shadow_radius == (F32 { bits: 0x41c0_0000 })  // 24.0
    &&& r.shadow_offset@ == seq![F32 { bits: 0x4080_0000 }, F32 { bits: 0x4080_0000 }]  // [4.0, 4.0]
    &&& r.shadow_color@ == seq![F32 { bits: 0x0000_0000 }, F32 { bits: 0x0000_0000 }, F32 { bits: 0x0000_0000 }, F32 { bits: 0x3f00_0000 }]  // [0.0, 0.0, 0.0, 0.5]
    &&& r.shadow_inactive_opacity == (F32 { bits: 0x3f26_6666 })  // 0.65
    &&& r.inactive_opacity == (F32 { bits: 0x3f7a_e148 })  // 0.98
    &&& r.active_opacity == (F32 { bits: 0x3f80_0000 })  // 1.0
    &&& r.blur_enabled
    &&& r.blur_strength == 3
    &&& r.blur_quality_auto
    &&& r.fading
    &&& r.fade_in_step == (F32 { bits: 0x3cf5_c28f })  // 0.03
    &&& r.fade_out_step == (F32 { bits: 0x3cf5_c28f })  // 0.03
    &&& r.shadow_exclude@.len() == 0
    &&& r.opacity_rules@.len() == 0
    &&& r.blur_exclude@.len() == 0
    &&& r.blur_status_bar
    &&& r.blur_temporal_enabled
    &&& r.blur_temporal_mix_ratio == (F32 { bits: 0x3f4c_cccd })  // 0.8
    &&& r.blur_strength_by_hz@ == "60:2,75:2.5,90:3,120:3.5,144:4"@
    &&& r.blur_quality_by_monitor@ == ""@
    &&& r.rounded_corners_exclude@.len() == 0
    &&& r.detect_client_opacity
    &&& r.fullscreen_unredirect
    &&& r.vsync_method@ == "global"@
    &&& r.enable_audio_sync
    &&& r.audio_buffer_latency_ms == 50
    &&& r.present_enabled
    &&& r.vrr_enabled
    &&& r.vrr_min_fps == 30
    &&& r.vrr_max_fps == 240
    &&& r.game_classes@.len() == 0
    &&& !r.wlr_output_mgmt_allow_modeset
    &&& r.wayland_enable_screencopy
    &&& r.wayland_enable_tearing_control
    &&& !r.wayland_enable_color_management
    &&& r.wayland_enable_output_management
    &&& r.wayland_enable_output_power
    &&& r.wayland_enable_workspace
    &&& r.wayland_enable_image_copy_capture
    &&& r.wayland_enable_gamma_control
    &&& r.wayland_enable_foreign_toplevel_management
    &&& r.wayland_enable_virtual_pointer
    &&& r.border_enabled
    &&& r.border_width == (F32 { bits: 0x4000_0000 })  // 2.0
    &&& r.border_color_focused@ == seq![F32 { bits: 0x3ecc_cccd }, F32 { bits: 0x3f19_999a }, F32 { bits: 0x3f66_6666 }, F32 { bits: 0x3f80_0000 }]  // [0.4, 0.6, 0.9, 1.0]
    &&& r.border_color_unfocused@ == seq![F32 { bits: 0x3e99_999a }, F32 { bits: 0x3e99_999a }, F32 { bits: 0x3e99_999a }, F32 { bits: 0x3f19_999a }]  // [0.3, 0.3, 0.3, 0.6]
    &&& r.border_glow_enabled
    &&& r.border_glow_focused_only
    &&& r.border_glow_radius == (F32 { bits: 0x41e0_0000 })  // 28.0
    &&& r.border_glow_intensity == (F32 { bits: 0x3f80_0000 })  // 1.0
    &&& r.border_glow_color@ == seq![F32 { bits: 0x0000_0000 }, F32 { bits: 0x3f0c_cccd }, F32 { bits: 0x3f80_0000 }, F32 { bits: 0x3ec2_8f5c }]  // [0.0, 0.55, 1.0, 0.38]
    &&& r.border_glow_include@.len() == 0
    &&& r.border_glow_exclude@.len() == 0
    &&& r.border_gradient_enabled
    &&& r.border_gradient_color_a@ == seq![F32 { bits: 0x3e75_c28f }, F32 { bits: 0x3f26_6666 }, F32 { bits: 0x3f80_0000 }, F32 { bits: 0x3f80_0000 }]  // [0.24, 0.65, 1.0, 1.0]
    &&& r.border_gradient_color_b@ == seq![F32 { bits: 0x3f38_51ec }, F32 { bits: 0x3eb3_3333 }, F32 { bits: 0x3f80_0000 }, F32 { bits: 0x3f80_0000 }]  // [0.72, 0.35, 1.0, 1.0]
    &&& r.border_gradient_angle == (F32 { bits: 0x4234_0000 })  // 45.0
    &&& r.border_gradient_speed == (F32 { bits: 0x0000_0000 })  // 0.0
    &&& r.corner_radius_rules@.len() == 0
    &&& r.scale_rules@.len() == 0
    &&& r.color_temperature == (F32 { bits: 0x0000_0000 })  // 0.0
    &&& r.saturation == (F32 { bits: 0x3f80_0000 })  // 1.0
    &&& r.brightness == (F32 { bits: 0x3f80_0000 })  // 1.0
    &&& r.contrast == (F32 { bits: 0x3f80_0000 })  // 1.0
    &&& !r.invert_colors
    &&& !r.grayscale
    &&& !r.hdr_enabled
    &&& r.hdr_peak_nits == (F32 { bits: 0x43c8_0000 })  // 400.0
    &&& r.tone_mapping_method@ == "aces"@
    &&& !r.color_management_render_path
    &&& !r.scene_linear_compositing
    &&& !r.kms_color_pipeline_offload
    &&& !r.debug_hud
    &&& !r.profiling_enabled
    &&& r.direct_scanout_enabled
    &&& r.gl_state_tracking_enabled
    &&& !r.blur_use_frame_extents
    &&& r.shadow_bottom_extra == (F32 { bits: 0x4080_0000 })  // 4.0
    &&& r.transition_mode@ == "none"@
    &&& !r.window_animation
    &&& r.window_animation_scale == (F32 { bits: 0x3f59_999a })  // 0.85
    &&& r.inactive_dim == (F32 { bits: 0x3f80_0000 })  // 1.0
    &&& r.inactive_desaturate == (F32 { bits: 0x3e80_0000 })  // 0.25
    &&& !r.edge_glow
    &&& r.edge_glow_color@ == seq![F32 { bits: 0x3e99_999a }, F32 { bits: 0x3f00_0000 }, F32 { bits: 0x3f80_0000 }, F32 { bits: 0x3f19_999a }]  // [0.3, 0.5, 1.0, 0.6]
    &&& r.edge_glow_width == (F32 { bits: 0x4248_0000 })  // 50.0
    &&& r.attention_animation
    &&& r.attention_color@ == seq![F32 { bits: 0x3f80_0000 }, F32 { bits: 0x3ecc_cccd }, F32 { bits: 0x3dcc_cccd }, F32 { bits: 0x3f80_0000 }]  // [1.0, 0.4, 0.1, 1.0]
    &&& r.pip_border_color@ == seq![F32 { bits: 0x0000_0000 }, F32 { bits: 0x3f4c_cccd }, F32 { bits: 0x3f80_0000 }, F32 { bits: 0x3f4c_cccd }]  // [0.0, 0.8, 1.0, 0.8]
    &&& r.pip_border_width == (F32 { bits: 0x4040_0000 })  // 3.0
    &&& !r.night_light
    &&& r.night_light_temp == (F32 { bits: 0x3ecc_cccd })  // 0.4
    &&& r.night_light_start@ == "20:00"@
    &&& r.night_light_end@ == "06:00"@
    &&& r.night_light_transition_mins == 30
    &&& r.suspend_command@ == "systemctl suspend"@
    &&& r.hibernate_command@ == "systemctl hibernate"@
    &&& r.reboot_command@ == "systemctl reboot"@
    &&& r.shutdown_command@ == "systemctl poweroff"@
    &&& !r.magnifier_enabled
    &&& r.magnifier_radius == (F32 { bits: 0x42c8_0000 })  // 100.0
    &&& r.magnifier_zoom == (F32 { bits: 0x4000_0000 })  // 2.0
    &&& !r.window_tilt
    &&& r.tilt_amount == (F32 { bits: 0x3e85_1eb8 })  // 0.26
    &&& r.tilt_perspective == (F32 { bits: 0x4448_0000 })  // 800.0
    &&& r.tilt_speed == (F32 { bits: 0x4140_0000 })  // 12.0
    &&& r.tilt_grid == 8
    &&& r.frosted_glass_rules@.len() == 0
    &&& r.frosted_glass_strength == 2
    &&& r.overview_enabled
    &&& r.overview_thumbnail_gap == (F32 { bits: 0x41a0_0000 })  // 20.0
    &&& !r.wobbly_windows
    &&& r.wobbly_stiffness == (F32 { bits: 0x43c8_0000 })  // 400.0
    &&& r.wobbly_damping == (F32 { bits: 0x41c8_0000 })  // 25.0
    &&& r.wobbly_restore_stiffness == (F32 { bits: 0x4348_0000 })  // 200.0
    &&& r.wobbly_grid_size == 8
    &&& !r.particle_effects
    &&& r.particle_count == 150
    &&& r.particle_lifetime == (F32 { bits: 0x3f4c_cccd })  // 0.8
    &&& r.particle_gravity == (F32 { bits: 0x4448_0000 })  // 800.0
    &&& r.expose_enabled
    &&& r.expose_gap == (F32 { bits: 0x41a0_0000 })  // 20.0
    &&& r.snap_preview
    &&& r.snap_preview_color@ == seq![F32 { bits: 0x3e99_999a }, F32 { bits: 0x3f00_0000 }, F32 { bits: 0x3f80_0000 }, F32 { bits: 0x3e99_999a }]  // [0.3, 0.5, 1.0, 0.3]
    &&& r.snap_animation_duration_ms == 200
    &&& r.peek_enabled
    &&& r.peek_exclude@.len() == 0
    &&& r.window_tabs
    &&& r.tab_bar_height == (F32 { bits: 0x41e0_0000 })  // 28.0
    &&& r.motion_trail
    &&& r.motion_trail_frames == 5
    &&& r.motion_trail_opacity == (F32 { bits: 0x3e99_999a })  // 0.3
    &&& r.genie_minimize
    &&& r.genie_duration_ms == 300
    &&& !r.ripple_on_open
    &&& r.ripple_duration == (F32 { bits: 0x3f19_999a })  // 0.6
    &&& r.ripple_amplitude == (F32 { bits: 0x3c75_c28f })  // 0.015
    &&& r.focus_highlight
    &&& r.focus_highlight_color@ == seq![F32 { bits: 0x3ecc_cccd }, F32 { bits: 0x3f33_3333 }, F32 { bits: 0x3f80_0000 }, F32 { bits: 0x3f66_6666 }]  // [0.4, 0.7, 1.0, 0.9]
    &&& r.focus_highlight_duration_ms == 300
    &&& r.wallpaper_crossfade
    &&& r.wallpaper_crossfade_duration_ms == 500
    &&& r.colorblind_mode@ == ""@
    &&& r.annotation_color@ == seq![F32 { bits: 0x3f80_0000 }, F32 { bits: 0x0000_0000 }, F32 { bits: 0x0000_0000 }, F32 { bits: 0x3f80_0000 }]  // [1.0, 0.0, 0.0, 1.0]
    &&& r.annotation_line_width == (F32 { bits: 0x4040_0000 })  // 3.0
    &&& r.screenshot_freeze_enabled
    &&& !r.shader_hot_reload
    &&& r.shader_dir@ == ""@
    &&& !r.debug_hud_extended
    &&& r.recording_fps == 30
    &&& r.recording_bitrate@ == "20M"@
    &&& r.recording_quality == 23
    &&& r.recording_encoder@ == "auto"@
    &&& r.recording_output_dir@ == ""@
    &&& r.recording_audio_enabled
    &&& r.recording_audio_device@ == "default"@
    &&& r.recording_audio_bitrate@ == "128k"@
    &&& r.audio_recording_device@ == "default"@
    &&& r.audio_recording_backend@ == "auto"@
    &&& r.audio_recording_format@ == "wav"@
    &&& r.audio_recording_bitrate@ == "128k"@
    &&& r.audio_recording_output_dir@ == ""@
    &&& r.audio_recording_sample_rate == 48_000
    &&& r.audio_recording_channels == 1
    &&& r.idle_dim_secs == 120
    &&& r.idle_dim_level == (F32 { bits: DEFAULT_DIM_LEVEL })  // 0.4
    &&& r.idle_lock_secs == 0
    &&& r.idle_screen_off_secs == 0
    &&& r.idle_screen_off_command@ == ""@
    &&& r.idle_screen_on_command@ == ""@
    &&& r.resource_rows
    &&& r.wallpaper@ == wallpaper
    &&& r.wallpaper_mode@ == "fill"@
    &&& r.clipboard_history
    &&& r.layout_picker
    &&& r.wallpaper_dir@ == ""@
    &&& r.wallpaper_colors
    &&& r.wallpaper_monitors@.len() == 0
    &&& r.wallpaper_tags@.len() == 0
    &&& r.swallow_enabled
    &&& r.swallow_terminals@.len() == 0
    &&& r.swallow_exceptions@.len() == 0
    &&& r.scrolling_column_width_rules@.len() == 0
    &&& r.gesture_swipe@.len() == 0
    &&& r.gesture_swipe_threshold == (F64 { bits: 0x4054_0000_0000_0000 })  // 80.0
    &&& !r.do_not_disturb
}

/// The built-in behaviour; `wallpaper` is the path of the wallpaper.
fn default_behavior(wallpaper: String) -> (r: BehaviorConfig)
    ensures
        is_default_behavior(r, wallpaper@),
{
    let r = BehaviorConfig {
        focus_follows_new_window: false,
        new_client_position: "master".to_string(),
        drag_threshold_px: 12,
        client_moveresize: "floating-only".to_string(),
        resize_hints: true,
        lock_fullscreen: true,
        compositor: true,
        compositor_api: "egl".to_string(),
        corner_radius: F32 { bits: 0x4120_0000 },  // 10.0
        shadow_enabled: true,
        shadow_radius: F32 { bits: 0x41c0_0000 },  // 24.0
        shadow_offset: [F32 { bits: 0x4080_0000 }, F32 { bits: 0x4080_0000 }],  // [4.0, 4.0]
        shadow_color: [F32 { bits: 0x0000_0000 }, F32 { bits: 0x0000_0000 }, F32 { bits: 0x0000_0000 }, F32 { bits: 0x3f00_0000 }],  // [0.0, 0.0, 0.0, 0.5]
        shadow_inactive_opacity: F32 { bits: 0x3f26_6666 },  // 0.65
        inactive_opacity: F32 { bits: 0x3f7a_e148 },  // 0.98
        active_opacity: F32 { bits: 0x3f80_0000 },  // 1.0
        blur_enabled: true,
        blur_strength: 3,
        blur_quality_auto: true,
        fading: true,
        fade_in_step: F32 { bits: 0x3cf5_c28f },  // 0.03
        fade_out_step: F32 { bits: 0x3cf5_c28f },  // 0.03
        shadow_exclude: Vec::new(),
        opacity_rules: Vec::new(),
        blur_exclude: Vec::new(),
        blur_status_bar: true,
        blur_temporal_enabled: true,
        blur_temporal_mix_ratio: F32 { bits: 0x3f4c_cccd },  // 0.8
        blur_strength_by_hz: "60:2,75:2.5,90:3,120:3.5,144:4".to_string(),
        blur_quality_by_monitor: "".to_string(),
        rounded_corners_exclude: Vec::new(),
        detect_client_opacity: true,
        fullscreen_unredirect: true,
        vsync_method: "global".to_string(),
        enable_audio_sync: true,
        audio_buffer_latency_ms: 50,
        present_enabled: true,
        vrr_enabled: true,
        vrr_min_fps: 30,
        vrr_max_fps: 240,
        game_classes: Vec::new(),
        wlr_output_mgmt_allow_modeset: false,
        wayland_enable_screencopy: true,
        wayland_enable_tearing_control: true,
        wayland_enable_color_management: false,
        wayland_enable_output_management: true,
        wayland_enable_output_power: true,
        wayland_enable_workspace: true,
        wayland_enable_image_copy_capture: true,
        wayland_enable_gamma_control: true,
        wayland_enable_foreign_toplevel_management: true,
        wayland_enable_virtual_pointer: true,
        border_enabled: true,
        border_width: F32 { bits: 0x4000_0000 },  // 2.0
        border_color_focused: [F32 { bits: 0x3ecc_cccd }, F32 { bits: 0x3f19_999a }, F32 { bits: 0x3f66_6666 }, F32 { bits: 0x3f80_0000 }],  // [0.4, 0.6, 0.9, 1.0]
        border_color_unfocused: [F32 { bits: 0x3e99_999a }, F32 { bits: 0x3e99_999a }, F32 { bits: 0x3e99_999a }, F32 { bits: 0x3f19_999a }],  // [0.3, 0.3, 0.3, 0.6]
        border_glow_enabled: true,
        border_glow_focused_only: true,
        border_glow_radius: F32 { bits: 0x41e0_0000 },  // 28.0
        border_glow_intensity: F32 { bits: 0x3f80_0000 },  // 1.0
        border_glow_color: [F32 { bits: 0x0000_0000 }, F32 { bits: 0x3f0c_cccd }, F32 { bits: 0x3f80_0000 }, F32 { bits: 0x3ec2_8f5c }],  // [0.0, 0.55, 1.0, 0.38]
        border_glow_include: Vec::new(),
        border_glow_exclude: Vec::new(),
        border_gradient_enabled: true,
        border_gradient_color_a: [F32 { bits: 0x3e75_c28f }, F32 { bits: 0x3f26_6666 }, F32 { bits: 0x3f80_0000 }, F32 { bits: 0x3f80_0000 }],  // [0.24, 0.65, 1.0, 1.0]
        border_gradient_color_b: [F32 { bits: 0x3f38_51ec }, F32 { bits: 0x3eb3_3333 }, F32 { bits: 0x3f80_0000 }, F32 { bits: 0x3f80_0000 }],  // [0.72, 0.35, 1.0, 1.0]
        border_gradient_angle: F32 { bits: 0x4234_0000 },  // 45.0
        border_gradient_speed: F32 { bits: 0x0000_0000 },  // 0.0
        corner_radius_rules: Vec::new(),
        scale_rules: Vec::new(),
        color_temperature: F32 { bits: 0x0000_0000 },  // 0.0
        saturation: F32 { bits: 0x3f80_0000 },  // 1.0
        brightness: F32 { bits: 0x3f80_0000 },  // 1.0
        contrast: F32 { bits: 0x3f80_0000 },  // 1.0
        invert_colors: false,
        grayscale: false,
        hdr_enabled: false,
        hdr_peak_nits: F32 { bits: 0x43c8_0000 },  // 400.0
        tone_mapping_method: "aces".to_string(),
        color_management_render_path: false,
        scene_linear_compositing: false,
        kms_color_pipeline_offload: false,
        debug_hud: false,
        profiling_enabled: false,
        direct_scanout_enabled: true,
        gl_state_tracking_enabled: true,
        blur_use_frame_extents: false,
        shadow_bottom_extra: F32 { bits: 0x4080_0000 },  // 4.0
        transition_mode: "none".to_string(),
        window_animation: false,
        window_animation_scale: F32 { bits: 0x3f59_999a },  // 0.85
        inactive_dim: F32 { bits: 0x3f80_0000 },  // 1.0
        inactive_desaturate: F32 { bits: 0x3e80_0000 },  // 0.25
        edge_glow: false,
        edge_glow_color: [F32 { bits: 0x3e99_999a }, F32 { bits: 0x3f00_0000 }, F32 { bits: 0x3f80_0000 }, F32 { bits: 0x3f19_999a }],  // [0.3, 0.5, 1.0, 0.6]
        edge_glow_width: F32 { bits: 0x4248_0000 },  // 50.0
        attention_animation: true,
        attention_color: [F32 { bits: 0x3f80_0000 }, F32 { bits: 0x3ecc_cccd }, F32 { bits: 0x3dcc_cccd }, F32 { bits: 0x3f80_0000 }],  // [1.0, 0.4, 0.1, 1.0]
        pip_border_color: [F32 { bits: 0x0000_0000 }, F32 { bits: 0x3f4c_cccd }, F32 { bits: 0x3f80_0000 }, F32 { bits: 0x3f4c_cccd }],  // [0.0, 0.8, 1.0, 0.8]
        pip_border_width: F32 { bits: 0x4040_0000 },  // 3.0
        night_light: false,
        night_light_temp: F32 { bits: 0x3ecc_cccd },  // 0.4
        night_light_start: "20:00".to_string(),
        night_light_end: "06:00".to_string(),
        night_light_transition_mins: 30,
        suspend_command: "systemctl suspend".to_string(),
        hibernate_command: "systemctl hibernate".to_string(),
        reboot_command: "systemctl reboot".to_string(),
        shutdown_command: "systemctl poweroff".to_string(),
        magnifier_enabled: false,
        magnifier_radius: F32 { bits: 0x42c8_0000 },  // 100.0
        magnifier_zoom: F32 { bits: 0x4000_0000 },  // 2.0
        window_tilt: false,
        tilt_amount: F32 { bits: 0x3e85_1eb8 },  // 0.26
        tilt_perspective: F32 { bits: 0x4448_0000 },  // 800.0
        tilt_speed: F32 { bits: 0x4140_0000 },  // 12.0
        tilt_grid: 8,
        frosted_glass_rules: Vec::new(),
        frosted_glass_strength: 2,
        overview_enabled: true,
        overview_thumbnail_gap: F32 { bits: 0x41a0_0000 },  // 20.0
        wobbly_windows: false,
        wobbly_stiffness: F32 { bits: 0x43c8_0000 },  // 400.0
        wobbly_damping: F32 { bits: 0x41c8_0000 },  // 25.0
        wobbly_restore_stiffness: F32 { bits: 0x4348_0000 },  // 200.0
        wobbly_grid_size: 8,
        particle_effects: false,
        particle_count: 150,
        particle_lifetime: F32 { bits: 0x3f4c_cccd },  // 0.8
        particle_gravity: F32 { bits: 0x4448_0000 },  // 800.0
        expose_enabled: true,
        expose_gap: F32 { bits: 0x41a0_0000 },  // 20.0
        snap_preview: true,
        snap_preview_color: [F32 { bits: 0x3e99_999a }, F32 { bits: 0x3f00_0000 }, F32 { bits: 0x3f80_0000 }, F32 { bits: 0x3e99_999a }],  // [0.3, 0.5, 1.0, 0.3]
        snap_animation_duration_ms: 200,
        peek_enabled: true,
        peek_exclude: Vec::new(),
        window_tabs: true,
        tab_bar_height: F32 { bits: 0x41e0_0000 },  // 28.0
        motion_trail: true,
        motion_trail_frames: 5,
        motion_trail_opacity: F32 { bits: 0x3e99_999a },  // 0.3
        genie_minimize: true,
        genie_duration_ms: 300,
        ripple_on_open: false,
        ripple_duration: F32 { bits: 0x3f19_999a },  // 0.6
        ripple_amplitude: F32 { bits: 0x3c75_c28f },  // 0.015
        focus_highlight: true,
        focus_highlight_color: [F32 { bits: 0x3ecc_cccd }, F32 { bits: 0x3f33_3333 }, F32 { bits: 0x3f80_0000 }, F32 { bits: 0x3f66_6666 }],  // [0.4, 0.7, 1.0, 0.9]
        focus_highlight_duration_ms: 300,
        wallpaper_crossfade: true,
        wallpaper_crossfade_duration_ms: 500,
        colorblind_mode: "".to_string(),
        annotation_color: [F32 { bits: 0x3f80_0000 }, F32 { bits: 0x0000_0000 }, F32 { bits: 0x0000_0000 }, F32 { bits: 0x3f80_0000 }],  // [1.0, 0.0, 0.0, 1.0]
        annotation_line_width: F32 { bits: 0x4040_0000 },  // 3.0
        screenshot_freeze_enabled: true,
        shader_hot_reload: false,
        shader_dir: "".to_string(),
        debug_hud_extended: false,
        recording_fps: 30,
        recording_bitrate: "20M".to_string(),
        recording_quality: 23,
        recording_encoder: "auto".to_string(),
        recording_output_dir: "".to_string(),
        recording_audio_enabled: true,
        recording_audio_device: "default".to_string(),
        recording_audio_bitrate: "128k".to_string(),
        audio_recording_device: "default".to_string(),
        audio_recording_backend: "auto".to_string(),
        audio_recording_format: "wav".to_string(),
        audio_recording_bitrate: "128k".to_string(),
        audio_recording_output_dir: "".to_string(),
        audio_recording_sample_rate: 48_000,
        audio_recording_channels: 1,
        idle_dim_secs: 120,
        idle_dim_level: F32 { bits: DEFAULT_DIM_LEVEL },  // 0.4
        idle_lock_secs: 0,
        idle_screen_off_secs: 0,
        idle_screen_off_command: "".to_string(),
        idle_screen_on_command: "".to_string(),
        resource_rows: true,
        wallpaper: wallpaper,
        wallpaper_mode: "fill".to_string(),
        clipboard_history: true,
        layout_picker: true,
        wallpaper_dir: "".to_string(),
        wallpaper_colors: true,
        wallpaper_monitors: Vec::new(),
        wallpaper_tags: Vec::new(),
        swallow_enabled: true,
        swallow_terminals: Vec::new(),
        swallow_exceptions: Vec::new(),
        scrolling_column_width_rules: Vec::new(),
        gesture_swipe: Vec::new(),
        gesture_swipe_threshold: F64 { bits: 0x4054_0000_0000_0000 },  // 80.0
        do_not_disturb: false,
    };
    assert(r.shadow_offset@ == seq![F32 { bits: 0x4080_0000 }, F32 { bits: 0x4080_0000 }]);
    assert(r.shadow_color@ == seq![F32 { bits: 0x0000_0000 }, F32 { bits: 0x0000_0000 }, F32 { bits: 0x0000_0000 }, F32 { bits: 0x3f00_0000 }]);
    assert(r.border_color_focused@ == seq![F32 { bits: 0x3ecc_cccd }, F32 { bits: 0x3f19_999a }, F32 { bits: 0x3f66_6666 }, F32 { bits: 0x3f80_0000 }]);
    assert(r.border_color_unfocused@ == seq![F32 { bits: 0x3e99_999a }, F32 { bits: 0x3e99_999a }, F32 { bits: 0x3e99_999a }, F32 { bits: 0x3f19_999a }]);
    assert(r.border_glow_color@ == seq![F32 { bits: 0x0000_0000 }, F32 { bits: 0x3f0c_cccd }, F32 { bits: 0x3f80_0000 }, F32 { bits: 0x3ec2_8f5c }]);
    assert(r.border_gradient_color_a@ == seq![F32 { bits: 0x3e75_c28f }, F32 { bits: 0x3f26_6666 }, F32 { bits: 0x3f80_0000 }, F32 { bits: 0x3f80_0000 }]);
    assert(r.border_gradient_color_b@ == seq![F32 { bits: 0x3f38_51ec }, F32 { bits: 0x3eb3_3333 }, F32 { bits: 0x3f80_0000 }, F32 { bits: 0x3f80_0000 }]);
    assert(r.edge_glow_color@ == seq![F32 { bits: 0x3e99_999a }, F32 { bits: 0x3f00_0000 }, F32 { bits: 0x3f80_0000 }, F32 { bits: 0x3f19_999a }]);
    assert(r.attention_color@ == seq![F32 { bits: 0x3f80_0000 }, F32 { bits: 0x3ecc_cccd }, F32 { bits: 0x3dcc_cccd }, F32 { bits: 0x3f80_0000 }]);
    assert(r.pip_border_color@ == seq![F32 { bits: 0x0000_0000 }, F32 { bits: 0x3f4c_cccd }, F32 { bits: 0x3f80_0000 }, F32 { bits: 0x3f4c_cccd }]);
    assert(r.snap_preview_color@ == seq![F32 { bits: 0x3e99_999a }, F32 { bits: 0x3f00_0000 }, F32 { bits: 0x3f80_0000 }, F32 { bits: 0x3e99_999a }]);
    assert(r.focus_highlight_color@ == seq![F32 { bits: 0x3ecc_cccd }, F32 { bits: 0x3f33_3333 }, F32 { bits: 0x3f80_0000 }, F32 { bits: 0x3f66_6666 }]);
    assert(r.annotation_color@ == seq![F32 { bits: 0x3f80_0000 }, F32 { bits: 0x0000_0000 }, F32 { bits: 0x0000_0000 }, F32 { bits: 0x3f80_0000 }]);
    r
}

/// The built-in colours.
pub open spec fn is_default_colors(r: ColorsConfig) -> bool {
    &&& r.dark_sea_green1@ == "#afffd7"@
    &&& r.dark_sea_green2@ == "#afffaf"@
    &&& r.pale_turquoise1@ == "#afffff"@
    &&& r.light_sky_blue1@ == "#afd7ff"@
    &&& r.grey84@ == "#d7d7d7"@
    &&& r.cyan@ == "#00ffd7"@
    &&& r.white@ == "#ffffff"@
    &&& r.black@ == "#000000"@
    &&& r.transparent == 0
    &&& r.opaque == 255
}

/// The built-in colours.
fn default_colors() -> (r: ColorsConfig)
    ensures
        is_default_colors(r),
{
    let r = ColorsConfig {
        dark_sea_green1: "#afffd7".to_string(),
        dark_sea_green2: "#afffaf".to_string(),
        pale_turquoise1: "#afffff".to_string(),
        light_sky_blue1: "#afd7ff".to_string(),
        grey84: "#d7d7d7".to_string(),
        cyan: "#00ffd7".to_string(),
        white: "#ffffff".to_string(),
        black: "#000000".to_string(),
        transparent: 0,
        opaque: 255,
    };
    r
}

impl AnimationConfig {
    /// The built-in animation settings.
    pub fn default_value() -> (r: AnimationConfig)
        ensures
            r.enabled,
            r.duration_ms == 250,
            r.easing@ == "ease-out"@,
            r.speed@ == "normal"@,
    {
        AnimationConfig {
            enabled: true,
            duration_ms: 250,
            easing: "ease-out".to_string(),
            speed: "normal".to_string(),
        }
    }
}

impl Default for ArgumentConfig {
    /// The argument of a binding that states none.
    fn default() -> (r: ArgumentConfig)
        ensures
            r@ == ArgumentView::Int(0),
    {
        ArgumentConfig::Int(0)
    }
}

impl Default for ChordConfig {
    /// No two-step shortcuts.
    fn default() -> (r: ChordConfig)
        ensures
            r.leader_modifier@.len() == 0,
            r.leader_key@.len() == 0,
            r.timeout_ms == 0,
            r.bindings@.len() == 0,
    {
        ChordConfig {
            leader_modifier: Vec::new(),
            leader_key: String::new(),
            timeout_ms: 0,
            bindings: Vec::new(),
        }
    }
}

impl Config {
    /// The built-in configuration, given the terminal to open and the path of
    /// the wallpaper.
    pub open spec fn is_built_in(
        self,
        terminal: Seq<Seq<char>>,
        wallpaper: Seq<char>,
    ) -> bool {
        let c = self.inner;
        &&& is_default_appearance(c.appearance)
        &&& is_default_behavior(c.behavior, wallpaper)
        &&& is_default_colors(c.colors)
        &&& c.status_bar.name@ == STATUS_BAR_NAME@
        &&& c.status_bar.show_bar
        &&& c.layout.m_fact == (F32 { bits: 0x3f0c_cccd })  // 0.55
        &&& c.layout.n_master == 1
        &&& c.layout.tags_length == 9
        &&& c.layout.persist_tags
        &&& c.layout.tags@.len() == 0
        &&& c.animation.enabled
        &&& c.animation.duration_ms == 250
        &&& c.animation.easing@ == "ease-out"@
        &&& c.animation.speed@ == "normal"@
        &&& c.keybindings.modkey@ == "Mod1"@
        &&& key_entries(c.keybindings.keys@) == default_keys(terminal)
        &&& c.keybindings.chord.leader_modifier@.len() == 0
        &&& c.keybindings.chord.leader_key@.len() == 0
        &&& c.keybindings.chord.timeout_ms == 0
        &&& c.keybindings.chord.bindings@.len() == 0
        &&& button_entries(c.mouse_bindings.buttons@) == default_buttons()
        &&& c.rules@.len() == 0
    }

    /// The built-in configuration, given the terminal to open and the path of
    /// the wallpaper.
    pub fn built_in(terminal: Vec<String>, wallpaper: String) -> (r: Config)
        ensures
            r.is_built_in(views(terminal@), wallpaper@),
    {
        Config {
            inner: TomlConfig {
                appearance: default_appearance(),
                behavior: default_behavior(wallpaper),
                status_bar: StatusBarConfig {
                    name: STATUS_BAR_NAME.to_string(),
                    show_bar: true,
                },
                colors: default_colors(),
                layout: LayoutConfig {
                    m_fact: F32 { bits: 0x3f0c_cccd },  // 0.55
                    n_master: 1,
                    tags_length: 9,
                    persist_tags: true,
                    tags: Vec::new(),
                },
                animation: AnimationConfig::default_value(),
                keybindings: KeyBindingsConfig {
                    modkey: "Mod1".to_string(),
                    keys: Self::get_default_keys(terminal),
                    chord: ChordConfig::default(),
                },
                mouse_bindings: MouseBindingsConfig {
                    buttons: Self::get_default_button_configs(),
                },
                rules: Vec::new(),
            },
        }
    }
}

/// Whether an entry names modifiers, a key and an action that are known.
pub open spec fn is_known(e: KeyConfigView) -> bool {
    &&& keysym_named(e.key) is Some
    &&& function_named(e.function) is Some
    &&& forall|i: int| 0 <= i < e.modifier.len() ==> modifier_named(#[trigger] e.modifier[i]) is Some
}

spec fn all_known(keys: Seq<KeyConfigView>) -> bool {
    forall|i: int| 0 <= i < keys.len() ==> is_known(#[trigger] keys[i])
}

proof fn both_known(a: Seq<KeyConfigView>, b: Seq<KeyConfigView>)
    requires
        all_known(a),
        all_known(b),
    ensures
        all_known(a + b),
{
    let all = a + b;
    assert forall|i: int| 0 <= i < all.len() implies is_known(#[trigger] all[i]) by {
        if i < a.len() {
            assert(all[i] == a[i]);
        } else {
            assert(all[i] == b[i - a.len()]);
        }
    }
}

proof fn held_names_are_known(held: Held)
    ensures
        forall|i: int|
            0 <= i < held.names().len() ==> modifier_named(#[trigger] held.names()[i]) is Some,
{
    assert forall|i: int| 0 <= i < held.names().len() implies modifier_named(
        #[trigger] held.names()[i],
    ) is Some by {
        assert(held.names()[i] == "Mod1"@ || held.names()[i] == "Control"@ || held.names()[i]
            == "Shift"@);
    }
}

/// Every built-in binding takes effect: its modifiers, its key and its action
/// are known, and so are the actions of the mouse buttons.
pub proof fn built_in_bindings_are_known(terminal: Seq<Seq<char>>, i: int)
    ensures
        0 <= i < default_keys(terminal).len() ==> is_known(default_keys(terminal)[i]),
        0 <= i < default_buttons().len() ==> function_named(default_buttons()[i].function) is Some
            && click_named(default_buttons()[i].click_type) is Some,
{
    held_names_are_known(Held::Plain);
    held_names_are_known(Held::Alt);
    held_names_are_known(Held::AltControl);
    held_names_are_known(Held::AltShift);
    held_names_are_known(Held::AltControlShift);
    let all = overlay_keys();
    assert(all_known(all));
    let more = panel_keys();
    assert(all_known(more));
    both_known(all, more);
    let all = all + more;
    let more = session_keys(terminal);
    assert(all_known(more));
    both_known(all, more);
    let all = all + more;
    let more = effect_and_focus_keys();
    assert(all_known(more));
    both_known(all, more);
    let all = all + more;
    let more = arrangement_keys();
    assert(all_known(more));
    both_known(all, more);
    let all = all + more;
    let more = window_and_layout_keys();
    assert(all_known(more));
    both_known(all, more);
    let all = all + more;
    let more = layout_keys();
    assert(all_known(more));
    both_known(all, more);
    let all = all + more;
    let more = monitor_and_scratchpad_keys();
    assert(all_known(more));
    both_known(all, more);
    let all = all + more;
    let more = strip_keys();
    assert(all_known(more));
    both_known(all, more);
    let all = all + more;
    let more = restart_keys();
    assert(all_known(more));
    both_known(all, more);
    let all = all + more;
    assert(all == default_keys(terminal));
}

} // verus!
