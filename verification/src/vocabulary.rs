//! The names of the actions, in bindings and in commands.
use crate::actions::{function_named, ArgView, WMFunc};
use crate::catalog::LayoutEnum;
use crate::commands::{command_named, dispatched, DispatchError};
use crate::ieee::F32;
use crate::ipc::dispatch_commands_names;
use crate::json::JsonValue;
use crate::text::among;
use vstd::prelude::*;

verus! {

/// The name an action goes by.
pub open spec fn action_name(func: WMFunc) -> Seq<char> {
    match func {
        WMFunc::Spawn => "spawn"@,
        WMFunc::AppLauncher => "app_launcher"@,
        WMFunc::MonitorLayout => "monitor_layout"@,
        WMFunc::LockScreen => "lock_screen"@,
        WMFunc::Focusstack => "focusstack"@,
        WMFunc::Focusmon => "focusmon"@,
        WMFunc::TakeScreenshot => "take_screenshot"@,
        WMFunc::TakeScreenshotFullscreen => "take_screenshot_fullscreen"@,
        WMFunc::Quit => "quit"@,
        WMFunc::Restart => "restart"@,
        WMFunc::Killclient => "killclient"@,
        WMFunc::Minimize => "minimize"@,
        WMFunc::Zoom => "zoom"@,
        WMFunc::Setlayout => "setlayout"@,
        WMFunc::Lastlayout => "lastlayout"@,
        WMFunc::Togglefloating => "togglefloating"@,
        WMFunc::Togglebar => "togglebar"@,
        WMFunc::Setmfact => "setmfact"@,
        WMFunc::Setgaps => "setgaps"@,
        WMFunc::Setcfact => "setcfact"@,
        WMFunc::Incnmaster => "incnmaster"@,
        WMFunc::Movestack => "movestack"@,
        WMFunc::View => "view"@,
        WMFunc::Tag => "tag"@,
        WMFunc::Toggleview => "toggleview"@,
        WMFunc::Toggletag => "toggletag"@,
        WMFunc::Tagmon => "tagmon"@,
        WMFunc::Loopview => "loopview"@,
        WMFunc::Movemouse => "movemouse"@,
        WMFunc::Resizemouse => "resizemouse"@,
        WMFunc::ShowKeybindings => "show_keybindings"@,
        WMFunc::Cyclelayout => "cyclelayout"@,
        WMFunc::LayoutPicker => "layout_picker"@,
        WMFunc::Togglesticky => "togglesticky"@,
        WMFunc::Togglescratchpad => "togglescratchpad"@,
        WMFunc::Togglepip => "togglepip"@,
        WMFunc::Togglecompositor => "togglecompositor"@,
        WMFunc::Togglepartialdamage => "togglepartialdamage"@,
        WMFunc::ToggleDebugHud => "toggle_debug_hud"@,
        WMFunc::ToggleWaterlily => "toggle_waterlily"@,
        WMFunc::WaterlilyCase => "waterlily_case"@,
        WMFunc::WaterlilyPalette => "waterlily_palette"@,
        WMFunc::ToggleOverview => "toggle_overview"@,
        WMFunc::CycleOverview => "cycle_overview"@,
        WMFunc::ToggleMagnifier => "toggle_magnifier"@,
        WMFunc::TogglePeek => "toggle_peek"@,
        WMFunc::ToggleAnnotation => "toggle_annotation"@,
        WMFunc::SaveSession => "save_session"@,
        WMFunc::RestoreSession => "restore_session"@,
        WMFunc::ToggleExpose => "toggle_expose"@,
        WMFunc::ToggleRecording => "toggle_recording"@,
        WMFunc::VolumeAdjust => "volume_adjust"@,
        WMFunc::VolumeMute => "volume_mute"@,
        WMFunc::BrightnessAdjust => "brightness_adjust"@,
        WMFunc::ControlCenter => "control_center"@,
        WMFunc::NotificationCenter => "notification_center"@,
        WMFunc::MediaPlayPause => "media_play_pause"@,
        WMFunc::MediaNext => "media_next"@,
        WMFunc::MediaPrevious => "media_previous"@,
        WMFunc::MediaStop => "media_stop"@,
        WMFunc::SessionMenu => "session_menu"@,
        WMFunc::ToggleNightLight => "toggle_night_light"@,
        WMFunc::ToggleIdleInhibit => "toggle_idle_inhibit"@,
        WMFunc::ToggleWifi => "toggle_wifi"@,
        WMFunc::WifiPicker => "wifi_picker"@,
        WMFunc::AudioOutputPicker => "audio_output_picker"@,
        WMFunc::AudioInputPicker => "audio_input_picker"@,
        WMFunc::BluetoothPicker => "bluetooth_picker"@,
        WMFunc::Calendar => "calendar"@,
        WMFunc::ClipboardPicker => "clipboard_picker"@,
        WMFunc::WallpaperPicker => "wallpaper_picker"@,
        WMFunc::ToggleBluetooth => "toggle_bluetooth"@,
        WMFunc::AdjustRecordingRegion => "adjust_recording_region"@,
        WMFunc::ToggleAudioRecording => "toggle_audio_recording"@,
        WMFunc::ScrollingFocusColumn => "scrolling_focus_column"@,
        WMFunc::ScrollingMoveColumn => "scrolling_move_column"@,
        WMFunc::ScrollingConsume => "scrolling_consume"@,
        WMFunc::ScrollingExpel => "scrolling_expel"@,
        WMFunc::ScrollingFocusWindow => "scrolling_focus_window"@,
        WMFunc::ScrollingToggleAttachMode => "scrolling_toggle_attach_mode"@,
        WMFunc::FocusNone => "focus_none"@,
        WMFunc::FocusWindow => "focus_window"@,
        WMFunc::FocusTab => "focus_tab"@,
        WMFunc::Refocus => "refocus"@,
        WMFunc::ToggleDnd => "toggle_dnd"@,
    }
}

/// Whether an action is one that only the protocol asks for.
pub open spec fn protocol_only(func: WMFunc) -> bool {
    func == WMFunc::FocusNone || func == WMFunc::FocusWindow || func == WMFunc::FocusTab || func
        == WMFunc::Refocus || func == WMFunc::ToggleDnd
}

/// A binding reaches every action by the action's own name, except those that
/// only the protocol asks for; one action has a former name besides.
#[verifier::rlimit(100)]
#[verifier::spinoff_prover]
pub proof fn actions_go_by_their_names(func: WMFunc)
    ensures
        function_named(action_name(func)) == (if protocol_only(func) {
            None
        } else {
            Some(func)
        }),
        function_named("toggle_slime"@) == Some(WMFunc::ToggleWaterlily),
        action_name(func) != "toggle_slime"@,
        forall|other: WMFunc|
            protocol_only(other) && #[trigger] action_name(other) == action_name(func) ==> other
                == func,
{
    reveal_strlit("tag");
    reveal_strlit("quit");
    reveal_strlit("zoom");
    reveal_strlit("view");
    reveal_strlit("spawn");
    reveal_strlit("tagmon");
    reveal_strlit("restart");
    reveal_strlit("setgaps");
    reveal_strlit("refocus");
    reveal_strlit("focusmon");
    reveal_strlit("minimize");
    reveal_strlit("setmfact");
    reveal_strlit("setcfact");
    reveal_strlit("loopview");
    reveal_strlit("calendar");
    reveal_strlit("setlayout");
    reveal_strlit("togglebar");
    reveal_strlit("movestack");
    reveal_strlit("toggletag");
    reveal_strlit("movemouse");
    reveal_strlit("togglepip");
    reveal_strlit("focus_tab");
    reveal_strlit("focusstack");
    reveal_strlit("killclient");
    reveal_strlit("lastlayout");
    reveal_strlit("incnmaster");
    reveal_strlit("toggleview");
    reveal_strlit("media_next");
    reveal_strlit("media_stop");
    reveal_strlit("focus_none");
    reveal_strlit("toggle_dnd");
    reveal_strlit("lock_screen");
    reveal_strlit("resizemouse");
    reveal_strlit("cyclelayout");
    reveal_strlit("toggle_peek");
    reveal_strlit("volume_mute");
    reveal_strlit("toggle_wifi");
    reveal_strlit("wifi_picker");
    reveal_strlit("app_launcher");
    reveal_strlit("togglesticky");
    reveal_strlit("save_session");
    reveal_strlit("session_menu");
    reveal_strlit("focus_window");
    reveal_strlit("toggle_slime");
    reveal_strlit("layout_picker");
    reveal_strlit("toggle_expose");
    reveal_strlit("volume_adjust");
    reveal_strlit("monitor_layout");
    reveal_strlit("togglefloating");
    reveal_strlit("waterlily_case");
    reveal_strlit("cycle_overview");
    reveal_strlit("control_center");
    reveal_strlit("media_previous");
    reveal_strlit("take_screenshot");
    reveal_strlit("toggle_overview");
    reveal_strlit("restore_session");
    reveal_strlit("scrolling_expel");
    reveal_strlit("show_keybindings");
    reveal_strlit("togglescratchpad");
    reveal_strlit("togglecompositor");
    reveal_strlit("toggle_debug_hud");
    reveal_strlit("toggle_waterlily");
    reveal_strlit("toggle_magnifier");
    reveal_strlit("toggle_recording");
    reveal_strlit("media_play_pause");
    reveal_strlit("bluetooth_picker");
    reveal_strlit("clipboard_picker");
    reveal_strlit("wallpaper_picker");
    reveal_strlit("toggle_bluetooth");
    reveal_strlit("waterlily_palette");
    reveal_strlit("toggle_annotation");
    reveal_strlit("brightness_adjust");
    reveal_strlit("scrolling_consume");
    reveal_strlit("toggle_night_light");
    reveal_strlit("audio_input_picker");
    reveal_strlit("togglepartialdamage");
    reveal_strlit("notification_center");
    reveal_strlit("toggle_idle_inhibit");
    reveal_strlit("audio_output_picker");
    reveal_strlit("scrolling_move_column");
    reveal_strlit("toggle_audio_recording");
    reveal_strlit("scrolling_focus_column");
    reveal_strlit("scrolling_focus_window");
    reveal_strlit("adjust_recording_region");
    reveal_strlit("take_screenshot_fullscreen");
    reveal_strlit("scrolling_toggle_attach_mode");
    assert("tag"@.len() == 3);
    assert("quit"@.len() == 4 && "quit"@[0] == 'q');
    assert("zoom"@.len() == 4 && "zoom"@[0] == 'z');
    assert("view"@.len() == 4 && "view"@[0] == 'v');
    assert("spawn"@.len() == 5);
    assert("tagmon"@.len() == 6);
    assert("restart"@.len() == 7 && "restart"@[2] == 's');
    assert("setgaps"@.len() == 7 && "setgaps"@[2] == 't');
    assert("refocus"@.len() == 7 && "refocus"@[2] == 'f');
    assert("focusmon"@.len() == 8 && "focusmon"@[3] == 'u');
    assert("minimize"@.len() == 8 && "minimize"@[3] == 'i');
    assert("setmfact"@.len() == 8 && "setmfact"@[3] == 'm');
    assert("setcfact"@.len() == 8 && "setcfact"@[3] == 'c');
    assert("loopview"@.len() == 8 && "loopview"@[3] == 'p');
    assert("calendar"@.len() == 8 && "calendar"@[3] == 'e');
    assert("setlayout"@.len() == 9 && "setlayout"@[8] == 't');
    assert("togglebar"@.len() == 9 && "togglebar"@[8] == 'r');
    assert("movestack"@.len() == 9 && "movestack"@[8] == 'k');
    assert("toggletag"@.len() == 9 && "toggletag"@[8] == 'g');
    assert("movemouse"@.len() == 9 && "movemouse"@[8] == 'e');
    assert("togglepip"@.len() == 9 && "togglepip"@[8] == 'p');
    assert("focus_tab"@.len() == 9 && "focus_tab"@[8] == 'b');
    assert("focusstack"@.len() == 10 && "focusstack"@[0] == 'f' && "focusstack"@[6] == 't');
    assert("killclient"@.len() == 10 && "killclient"@[0] == 'k' && "killclient"@[6] == 'i');
    assert("lastlayout"@.len() == 10 && "lastlayout"@[0] == 'l' && "lastlayout"@[6] == 'y');
    assert("incnmaster"@.len() == 10 && "incnmaster"@[0] == 'i' && "incnmaster"@[6] == 's');
    assert("toggleview"@.len() == 10 && "toggleview"@[0] == 't' && "toggleview"@[6] == 'v');
    assert("media_next"@.len() == 10 && "media_next"@[0] == 'm' && "media_next"@[6] == 'n');
    assert("media_stop"@.len() == 10 && "media_stop"@[0] == 'm' && "media_stop"@[6] == 's');
    assert("focus_none"@.len() == 10 && "focus_none"@[0] == 'f' && "focus_none"@[6] == 'n');
    assert("toggle_dnd"@.len() == 10 && "toggle_dnd"@[0] == 't' && "toggle_dnd"@[6] == '_');
    assert("lock_screen"@.len() == 11 && "lock_screen"@[7] == 'r');
    assert("resizemouse"@.len() == 11 && "resizemouse"@[7] == 'o');
    assert("cyclelayout"@.len() == 11 && "cyclelayout"@[7] == 'y');
    assert("toggle_peek"@.len() == 11 && "toggle_peek"@[7] == 'p');
    assert("volume_mute"@.len() == 11 && "volume_mute"@[7] == 'm');
    assert("toggle_wifi"@.len() == 11 && "toggle_wifi"@[7] == 'w');
    assert("wifi_picker"@.len() == 11 && "wifi_picker"@[7] == 'c');
    assert("app_launcher"@.len() == 12 && "app_launcher"@[6] == 'u');
    assert("togglesticky"@.len() == 12 && "togglesticky"@[6] == 's');
    assert("save_session"@.len() == 12 && "save_session"@[6] == 'e');
    assert("session_menu"@.len() == 12 && "session_menu"@[6] == 'n');
    assert("focus_window"@.len() == 12 && "focus_window"@[6] == 'w');
    assert("toggle_slime"@.len() == 12 && "toggle_slime"@[6] == '_');
    assert("layout_picker"@.len() == 13 && "layout_picker"@[0] == 'l');
    assert("toggle_expose"@.len() == 13 && "toggle_expose"@[0] == 't');
    assert("volume_adjust"@.len() == 13 && "volume_adjust"@[0] == 'v');
    assert("monitor_layout"@.len() == 14 && "monitor_layout"@[6] == 'r');
    assert("togglefloating"@.len() == 14 && "togglefloating"@[6] == 'f');
    assert("waterlily_case"@.len() == 14 && "waterlily_case"@[6] == 'i');
    assert("cycle_overview"@.len() == 14 && "cycle_overview"@[6] == 'o');
    assert("control_center"@.len() == 14 && "control_center"@[6] == 'l');
    assert("media_previous"@.len() == 14 && "media_previous"@[6] == 'p');
    assert("take_screenshot"@.len() == 15 && "take_screenshot"@[1] == 'a');
    assert("toggle_overview"@.len() == 15 && "toggle_overview"@[1] == 'o');
    assert("restore_session"@.len() == 15 && "restore_session"@[1] == 'e');
    assert("scrolling_expel"@.len() == 15 && "scrolling_expel"@[1] == 'c');
    assert("show_keybindings"@.len() == 16 && "show_keybindings"@[0] == 's' && "show_keybindings"@[7] == 'y');
    assert("togglescratchpad"@.len() == 16 && "togglescratchpad"@[0] == 't' && "togglescratchpad"@[7] == 'c');
    assert("togglecompositor"@.len() == 16 && "togglecompositor"@[0] == 't' && "togglecompositor"@[7] == 'o');
    assert("toggle_debug_hud"@.len() == 16 && "toggle_debug_hud"@[0] == 't' && "toggle_debug_hud"@[7] == 'd');
    assert("toggle_waterlily"@.len() == 16 && "toggle_waterlily"@[0] == 't' && "toggle_waterlily"@[7] == 'w');
    assert("toggle_magnifier"@.len() == 16 && "toggle_magnifier"@[0] == 't' && "toggle_magnifier"@[7] == 'm');
    assert("toggle_recording"@.len() == 16 && "toggle_recording"@[0] == 't' && "toggle_recording"@[7] == 'r');
    assert("media_play_pause"@.len() == 16 && "media_play_pause"@[0] == 'm' && "media_play_pause"@[7] == 'l');
    assert("bluetooth_picker"@.len() == 16 && "bluetooth_picker"@[0] == 'b' && "bluetooth_picker"@[7] == 't');
    assert("clipboard_picker"@.len() == 16 && "clipboard_picker"@[0] == 'c' && "clipboard_picker"@[7] == 'r');
    assert("wallpaper_picker"@.len() == 16 && "wallpaper_picker"@[0] == 'w' && "wallpaper_picker"@[7] == 'e');
    assert("toggle_bluetooth"@.len() == 16 && "toggle_bluetooth"@[0] == 't' && "toggle_bluetooth"@[7] == 'b');
    assert("waterlily_palette"@.len() == 17 && "waterlily_palette"@[0] == 'w');
    assert("toggle_annotation"@.len() == 17 && "toggle_annotation"@[0] == 't');
    assert("brightness_adjust"@.len() == 17 && "brightness_adjust"@[0] == 'b');
    assert("scrolling_consume"@.len() == 17 && "scrolling_consume"@[0] == 's');
    assert("toggle_night_light"@.len() == 18 && "toggle_night_light"@[0] == 't');
    assert("audio_input_picker"@.len() == 18 && "audio_input_picker"@[0] == 'a');
    assert("togglepartialdamage"@.len() == 19 && "togglepartialdamage"@[6] == 'p');
    assert("notification_center"@.len() == 19 && "notification_center"@[6] == 'c');
    assert("toggle_idle_inhibit"@.len() == 19 && "toggle_idle_inhibit"@[6] == '_');
    assert("audio_output_picker"@.len() == 19 && "audio_output_picker"@[6] == 'o');
    assert("scrolling_move_column"@.len() == 21);
    assert("toggle_audio_recording"@.len() == 22 && "toggle_audio_recording"@[16] == 'o');
    assert("scrolling_focus_column"@.len() == 22 && "scrolling_focus_column"@[16] == 'c');
    assert("scrolling_focus_window"@.len() == 22 && "scrolling_focus_window"@[16] == 'w');
    assert("adjust_recording_region"@.len() == 23);
    assert("take_screenshot_fullscreen"@.len() == 26);
    assert("scrolling_toggle_attach_mode"@.len() == 28);
}

/// No binding names an action by another action's name, and no two actions
/// have the same name.
pub proof fn names_stand_for_one_action(name: Seq<char>, a: WMFunc, b: WMFunc)
    ensures
        function_named(name) == Some(a) ==> name == action_name(a) || name == "toggle_slime"@ && a
            == WMFunc::ToggleWaterlily,
        action_name(a) == action_name(b) ==> a == b,
{
    actions_go_by_their_names(a);
    actions_go_by_their_names(b);
}

proof fn commands_are_named_for_actions(name: Seq<char>)
    requires
        among(name, dispatch_commands_names()),
    ensures
        command_named(name) is Some,
        action_name((command_named(name)->0).0) == name,
{
    let all = dispatch_commands_names();
    let i = choose|i: int| 0 <= i < all.len() && #[trigger] all[i]@ == name;
    assert forall|f: WMFunc| #[trigger] action_name(f) != "toggle_slime"@ by {
        actions_go_by_their_names(f);
    }
    assert(all[0]@ == action_name(WMFunc::AppLauncher));
    assert(all[1]@ == action_name(WMFunc::CycleOverview));
    assert(all[2]@ == action_name(WMFunc::Cyclelayout));
    assert(all[3]@ == action_name(WMFunc::FocusNone));
    assert(all[4]@ == action_name(WMFunc::FocusTab));
    assert(all[5]@ == action_name(WMFunc::FocusWindow));
    assert(all[6]@ == action_name(WMFunc::Focusmon));
    assert(all[7]@ == action_name(WMFunc::Focusstack));
    assert(all[8]@ == action_name(WMFunc::Incnmaster));
    assert(all[9]@ == action_name(WMFunc::Killclient));
    assert(all[10]@ == action_name(WMFunc::LockScreen));
    assert(all[11]@ == action_name(WMFunc::Loopview));
    assert(all[12]@ == action_name(WMFunc::MonitorLayout));
    assert(all[13]@ == action_name(WMFunc::Movestack));
    assert(all[14]@ == action_name(WMFunc::Quit));
    assert(all[15]@ == action_name(WMFunc::Refocus));
    assert(all[16]@ == action_name(WMFunc::Restart));
    assert(all[17]@ == action_name(WMFunc::RestoreSession));
    assert(all[18]@ == action_name(WMFunc::SaveSession));
    assert(all[19]@ == action_name(WMFunc::ScrollingConsume));
    assert(all[20]@ == action_name(WMFunc::ScrollingExpel));
    assert(all[21]@ == action_name(WMFunc::ScrollingFocusColumn));
    assert(all[22]@ == action_name(WMFunc::ScrollingFocusWindow));
    assert(all[23]@ == action_name(WMFunc::ScrollingMoveColumn));
    assert(all[24]@ == action_name(WMFunc::ScrollingToggleAttachMode));
    assert(all[25]@ == action_name(WMFunc::Setcfact));
    assert(all[26]@ == action_name(WMFunc::Setlayout));
    assert(all[27]@ == action_name(WMFunc::Setmfact));
    assert(all[28]@ == action_name(WMFunc::Spawn));
    assert(all[29]@ == action_name(WMFunc::Tag));
    assert(all[30]@ == action_name(WMFunc::Tagmon));
    assert(all[31]@ == action_name(WMFunc::ToggleAnnotation));
    assert(all[32]@ == action_name(WMFunc::AdjustRecordingRegion));
    assert(all[33]@ == action_name(WMFunc::ToggleAudioRecording));
    assert(all[34]@ == action_name(WMFunc::ToggleDnd));
    assert(all[35]@ == action_name(WMFunc::ToggleMagnifier));
    assert(all[36]@ == action_name(WMFunc::ToggleOverview));
    assert(all[37]@ == action_name(WMFunc::TogglePeek));
    assert(all[38]@ == action_name(WMFunc::ToggleRecording));
    assert(all[39]@ == action_name(WMFunc::ToggleWaterlily));
    assert(all[40]@ == action_name(WMFunc::Togglebar));
    assert(all[41]@ == action_name(WMFunc::Togglecompositor));
    assert(all[42]@ == action_name(WMFunc::Togglefloating));
    assert(all[43]@ == action_name(WMFunc::Togglepartialdamage));
    assert(all[44]@ == action_name(WMFunc::Togglepip));
    assert(all[45]@ == action_name(WMFunc::Togglescratchpad));
    assert(all[46]@ == action_name(WMFunc::Togglesticky));
    assert(all[47]@ == action_name(WMFunc::Toggletag));
    assert(all[48]@ == action_name(WMFunc::Toggleview));
    assert(all[49]@ == action_name(WMFunc::View));
    assert(all[50]@ == action_name(WMFunc::WaterlilyCase));
    assert(all[51]@ == action_name(WMFunc::Zoom));
}

/// A command does what a binding of the same name does, whatever its argument;
/// a command that no binding can name is one that only the protocol asks for.
pub proof fn commands_do_what_their_bindings_do(name: Seq<char>, args: JsonValue)
    requires
        among(name, dispatch_commands_names()),
    ensures
        !(dispatched(name, args) matches Err(DispatchError::UnknownCommand)),
        dispatched(name, args) matches Ok((func, _)) ==> {
            &&& action_name(func) == name
            &&& function_named(name) == (if protocol_only(func) {
                None
            } else {
                Some(func)
            })
        },
{
    commands_are_named_for_actions(name);
    actions_go_by_their_names((command_named(name)->0).0);
}

/// Two commands never do the same.
pub proof fn commands_differ(a: Seq<char>, x: JsonValue, b: Seq<char>, y: JsonValue)
    requires
        among(a, dispatch_commands_names()),
        among(b, dispatch_commands_names()),
        dispatched(a, x) is Ok,
        dispatched(b, y) is Ok,
    ensures
        (dispatched(a, x)->Ok_0).0 == (dispatched(b, y)->Ok_0).0 <==> a == b,
{
    commands_are_named_for_actions(a);
    commands_are_named_for_actions(b);
}

/// Whether an action moves one step where nothing else is said.
pub open spec fn moves_a_step(func: WMFunc) -> bool {
    match func {
        WMFunc::Focusstack | WMFunc::Movestack | WMFunc::Incnmaster => true,
        WMFunc::ScrollingFocusColumn | WMFunc::ScrollingMoveColumn => true,
        WMFunc::ScrollingFocusWindow | WMFunc::ScrollingConsume | WMFunc::ScrollingExpel => true,
        WMFunc::Cyclelayout | WMFunc::CycleOverview | WMFunc::Loopview => true,
        WMFunc::Focusmon | WMFunc::Tagmon => true,
        _ => false,
    }
}

/// Whether an action takes a tag mask.
pub open spec fn takes_tags(func: WMFunc) -> bool {
    func == WMFunc::View || func == WMFunc::Tag || func == WMFunc::Toggleview || func
        == WMFunc::Toggletag
}

/// A command without an argument does the usual thing: a step forward, no tag,
/// no change of a part, the tile layout, the terminal, the first tab, the next
/// case. Only the window to focus and the program to start must be given.
pub proof fn commands_without_arguments(name: Seq<char>)
    requires
        among(name, dispatch_commands_names()),
    ensures
        match dispatched(name, JsonValue::Null) {
            Ok((func, arg)) => {
                &&& moves_a_step(func) ==> arg == ArgView::Int(1)
                &&& takes_tags(func) ==> arg == ArgView::UInt(0)
                &&& func == WMFunc::Setlayout ==> arg == ArgView::Layout(LayoutEnum::TILE)
                &&& func == WMFunc::Setmfact || func == WMFunc::Setcfact ==> arg
                    == ArgView::Float(F32 { bits: 0 })
                &&& func == WMFunc::Togglescratchpad ==> arg == ArgView::StringVec(seq!["term"@])
                &&& func == WMFunc::FocusTab ==> arg == ArgView::StringVec(seq!["0"@, "0"@])
                &&& func == WMFunc::WaterlilyCase ==> arg == ArgView::StringVec(seq!["next"@])
                &&& arg is Int ==> arg == ArgView::Int(0) || moves_a_step(func)
                &&& arg is UInt ==> takes_tags(func)
                &&& arg is Layout ==> func == WMFunc::Setlayout
                &&& arg is Float ==> func == WMFunc::Setmfact || func == WMFunc::Setcfact
            },
            Err(_) => name == "focus_window"@ || name == "spawn"@,
        },
        name == "focus_window"@ || name == "spawn"@ ==> dispatched(name, JsonValue::Null) is Err,
{
    commands_are_named_for_actions(name);
    names_stand_for_one_action(name, WMFunc::FocusWindow, (command_named(name)->0).0);
    names_stand_for_one_action(name, WMFunc::Spawn, (command_named(name)->0).0);
}

} // verus!
