//! Mapping protocol commands to window-manager actions.
use crate::actions::{ArgView, WMArgEnum, WMFunc};
use crate::catalog::LayoutEnum;
use crate::ieee::{F32, F64};
use crate::ipc::{dispatch_commands_names, string_texts};
use crate::json::{field, field_of, first_field, first_field_of, JsonNumber, JsonValue};
use crate::text::{among, decimal, lowered, push_nat, str_eq, trim, trimmed, views};
use vstd::prelude::*;

verus! {

/// What a command takes when its argument is left out.
#[derive(Debug, Clone, Copy, PartialEq, Eq, Structural)]
pub enum CommandDefault {
    /// Nothing: the argument is required.
    Required,
    /// The terminal scratchpad.
    Terminal,
    /// The first tab of the first group.
    FirstTab,
    /// The next one.
    Next,
}

/// The argument a command takes.
#[derive(Debug, Clone, Copy, PartialEq, Eq, Structural)]
pub enum ArgKind {
    /// None; the action receives 0.
    Fixed,
    /// An integer with this default.
    Int(i32),
    /// A tag mask.
    Mask,
    /// A real number with default 0.
    Float,
    /// A window identifier.
    WindowId,
    /// A layout name.
    Layout,
    /// A command line.
    Command(CommandDefault),
}

/// The action and the argument of a command. `toggle_slime` is accepted as the
/// former name of `toggle_waterlily` and is not advertised.
pub open spec fn command_named(name: Seq<char>) -> Option<(WMFunc, ArgKind)> {
    if name == "focusstack"@ {
        Some((WMFunc::Focusstack, ArgKind::Int(1)))
    } else if name == "app_launcher"@ {
        Some((WMFunc::AppLauncher, ArgKind::Fixed))
    } else if name == "monitor_layout"@ {
        Some((WMFunc::MonitorLayout, ArgKind::Fixed))
    } else if name == "lock_screen"@ {
        Some((WMFunc::LockScreen, ArgKind::Fixed))
    } else if name == "killclient"@ {
        Some((WMFunc::Killclient, ArgKind::Int(0)))
    } else if name == "zoom"@ {
        Some((WMFunc::Zoom, ArgKind::Int(0)))
    } else if name == "togglefloating"@ {
        Some((WMFunc::Togglefloating, ArgKind::Int(0)))
    } else if name == "togglesticky"@ {
        Some((WMFunc::Togglesticky, ArgKind::Int(0)))
    } else if name == "togglepip"@ {
        Some((WMFunc::Togglepip, ArgKind::Int(0)))
    } else if name == "togglescratchpad"@ {
        Some((WMFunc::Togglescratchpad, ArgKind::Command(CommandDefault::Terminal)))
    } else if name == "movestack"@ {
        Some((WMFunc::Movestack, ArgKind::Int(1)))
    } else if name == "focus_none"@ {
        Some((WMFunc::FocusNone, ArgKind::Int(0)))
    } else if name == "focus_window"@ {
        Some((WMFunc::FocusWindow, ArgKind::WindowId))
    } else if name == "focus_tab"@ {
        Some((WMFunc::FocusTab, ArgKind::Command(CommandDefault::FirstTab)))
    } else if name == "refocus"@ {
        Some((WMFunc::Refocus, ArgKind::Int(0)))
    } else if name == "setmfact"@ {
        Some((WMFunc::Setmfact, ArgKind::Float))
    } else if name == "setcfact"@ {
        Some((WMFunc::Setcfact, ArgKind::Float))
    } else if name == "incnmaster"@ {
        Some((WMFunc::Incnmaster, ArgKind::Int(1)))
    } else if name == "scrolling_toggle_attach_mode"@ {
        Some((WMFunc::ScrollingToggleAttachMode, ArgKind::Int(0)))
    } else if name == "scrolling_focus_column"@ {
        Some((WMFunc::ScrollingFocusColumn, ArgKind::Int(1)))
    } else if name == "scrolling_move_column"@ {
        Some((WMFunc::ScrollingMoveColumn, ArgKind::Int(1)))
    } else if name == "scrolling_focus_window"@ {
        Some((WMFunc::ScrollingFocusWindow, ArgKind::Int(1)))
    } else if name == "scrolling_consume"@ {
        Some((WMFunc::ScrollingConsume, ArgKind::Int(1)))
    } else if name == "scrolling_expel"@ {
        Some((WMFunc::ScrollingExpel, ArgKind::Int(1)))
    } else if name == "setlayout"@ {
        Some((WMFunc::Setlayout, ArgKind::Layout))
    } else if name == "cyclelayout"@ {
        Some((WMFunc::Cyclelayout, ArgKind::Int(1)))
    } else if name == "togglebar"@ {
        Some((WMFunc::Togglebar, ArgKind::Int(0)))
    } else if name == "view"@ {
        Some((WMFunc::View, ArgKind::Mask))
    } else if name == "tag"@ {
        Some((WMFunc::Tag, ArgKind::Mask))
    } else if name == "toggleview"@ {
        Some((WMFunc::Toggleview, ArgKind::Mask))
    } else if name == "toggletag"@ {
        Some((WMFunc::Toggletag, ArgKind::Mask))
    } else if name == "loopview"@ {
        Some((WMFunc::Loopview, ArgKind::Int(1)))
    } else if name == "focusmon"@ {
        Some((WMFunc::Focusmon, ArgKind::Int(1)))
    } else if name == "tagmon"@ {
        Some((WMFunc::Tagmon, ArgKind::Int(1)))
    } else if name == "spawn"@ {
        Some((WMFunc::Spawn, ArgKind::Command(CommandDefault::Required)))
    } else if name == "quit"@ {
        Some((WMFunc::Quit, ArgKind::Int(0)))
    } else if name == "restart"@ {
        Some((WMFunc::Restart, ArgKind::Int(0)))
    } else if name == "togglecompositor"@ {
        Some((WMFunc::Togglecompositor, ArgKind::Int(0)))
    } else if name == "togglepartialdamage"@ {
        Some((WMFunc::Togglepartialdamage, ArgKind::Int(0)))
    } else if name == "toggle_waterlily"@ {
        Some((WMFunc::ToggleWaterlily, ArgKind::Int(0)))
    } else if name == "waterlily_case"@ {
        Some((WMFunc::WaterlilyCase, ArgKind::Command(CommandDefault::Next)))
    } else if name == "toggle_slime"@ {
        Some((WMFunc::ToggleWaterlily, ArgKind::Int(0)))
    } else if name == "toggle_overview"@ {
        Some((WMFunc::ToggleOverview, ArgKind::Int(0)))
    } else if name == "cycle_overview"@ {
        Some((WMFunc::CycleOverview, ArgKind::Int(1)))
    } else if name == "toggle_magnifier"@ {
        Some((WMFunc::ToggleMagnifier, ArgKind::Int(0)))
    } else if name == "toggle_peek"@ {
        Some((WMFunc::TogglePeek, ArgKind::Int(0)))
    } else if name == "toggle_annotation"@ {
        Some((WMFunc::ToggleAnnotation, ArgKind::Int(0)))
    } else if name == "toggle_recording"@ {
        Some((WMFunc::ToggleRecording, ArgKind::Int(0)))
    } else if name == "adjust_recording_region"@ {
        Some((WMFunc::AdjustRecordingRegion, ArgKind::Int(0)))
    } else if name == "toggle_audio_recording"@ {
        Some((WMFunc::ToggleAudioRecording, ArgKind::Int(0)))
    } else if name == "toggle_dnd"@ {
        Some((WMFunc::ToggleDnd, ArgKind::Int(0)))
    } else if name == "save_session"@ {
        Some((WMFunc::SaveSession, ArgKind::Int(0)))
    } else if name == "restore_session"@ {
        Some((WMFunc::RestoreSession, ArgKind::Int(0)))
    } else {
        None
    }
}

fn lookup(name: &str) -> (r: Option<(WMFunc, ArgKind)>)
    ensures
        r == command_named(name@),
{
    if str_eq(name, "focusstack") {
        Some((WMFunc::Focusstack, ArgKind::Int(1)))
    } else if str_eq(name, "app_launcher") {
        Some((WMFunc::AppLauncher, ArgKind::Fixed))
    } else if str_eq(name, "monitor_layout") {
        Some((WMFunc::MonitorLayout, ArgKind::Fixed))
    } else if str_eq(name, "lock_screen") {
        Some((WMFunc::LockScreen, ArgKind::Fixed))
    } else if str_eq(name, "killclient") {
        Some((WMFunc::Killclient, ArgKind::Int(0)))
    } else if str_eq(name, "zoom") {
        Some((WMFunc::Zoom, ArgKind::Int(0)))
    } else if str_eq(name, "togglefloating") {
        Some((WMFunc::Togglefloating, ArgKind::Int(0)))
    } else if str_eq(name, "togglesticky") {
        Some((WMFunc::Togglesticky, ArgKind::Int(0)))
    } else if str_eq(name, "togglepip") {
        Some((WMFunc::Togglepip, ArgKind::Int(0)))
    } else if str_eq(name, "togglescratchpad") {
        Some((WMFunc::Togglescratchpad, ArgKind::Command(CommandDefault::Terminal)))
    } else if str_eq(name, "movestack") {
        Some((WMFunc::Movestack, ArgKind::Int(1)))
    } else if str_eq(name, "focus_none") {
        Some((WMFunc::FocusNone, ArgKind::Int(0)))
    } else if str_eq(name, "focus_window") {
        Some((WMFunc::FocusWindow, ArgKind::WindowId))
    } else if str_eq(name, "focus_tab") {
        Some((WMFunc::FocusTab, ArgKind::Command(CommandDefault::FirstTab)))
    } else if str_eq(name, "refocus") {
        Some((WMFunc::Refocus, ArgKind::Int(0)))
    } else if str_eq(name, "setmfact") {
        Some((WMFunc::Setmfact, ArgKind::Float))
    } else if str_eq(name, "setcfact") {
        Some((WMFunc::Setcfact, ArgKind::Float))
    } else if str_eq(name, "incnmaster") {
        Some((WMFunc::Incnmaster, ArgKind::Int(1)))
    } else if str_eq(name, "scrolling_toggle_attach_mode") {
        Some((WMFunc::ScrollingToggleAttachMode, ArgKind::Int(0)))
    } else if str_eq(name, "scrolling_focus_column") {
        Some((WMFunc::ScrollingFocusColumn, ArgKind::Int(1)))
    } else if str_eq(name, "scrolling_move_column") {
        Some((WMFunc::ScrollingMoveColumn, ArgKind::Int(1)))
    } else if str_eq(name, "scrolling_focus_window") {
        Some((WMFunc::ScrollingFocusWindow, ArgKind::Int(1)))
    } else if str_eq(name, "scrolling_consume") {
        Some((WMFunc::ScrollingConsume, ArgKind::Int(1)))
    } else if str_eq(name, "scrolling_expel") {
        Some((WMFunc::ScrollingExpel, ArgKind::Int(1)))
    } else if str_eq(name, "setlayout") {
        Some((WMFunc::Setlayout, ArgKind::Layout))
    } else if str_eq(name, "cyclelayout") {
        Some((WMFunc::Cyclelayout, ArgKind::Int(1)))
    } else if str_eq(name, "togglebar") {
        Some((WMFunc::Togglebar, ArgKind::Int(0)))
    } else if str_eq(name, "view") {
        Some((WMFunc::View, ArgKind::Mask))
    } else if str_eq(name, "tag") {
        Some((WMFunc::Tag, ArgKind::Mask))
    } else if str_eq(name, "toggleview") {
        Some((WMFunc::Toggleview, ArgKind::Mask))
    } else if str_eq(name, "toggletag") {
        Some((WMFunc::Toggletag, ArgKind::Mask))
    } else if str_eq(name, "loopview") {
        Some((WMFunc::Loopview, ArgKind::Int(1)))
    } else if str_eq(name, "focusmon") {
        Some((WMFunc::Focusmon, ArgKind::Int(1)))
    } else if str_eq(name, "tagmon") {
        Some((WMFunc::Tagmon, ArgKind::Int(1)))
    } else if str_eq(name, "spawn") {
        Some((WMFunc::Spawn, ArgKind::Command(CommandDefault::Required)))
    } else if str_eq(name, "quit") {
        Some((WMFunc::Quit, ArgKind::Int(0)))
    } else if str_eq(name, "restart") {
        Some((WMFunc::Restart, ArgKind::Int(0)))
    } else if str_eq(name, "togglecompositor") {
        Some((WMFunc::Togglecompositor, ArgKind::Int(0)))
    } else if str_eq(name, "togglepartialdamage") {
        Some((WMFunc::Togglepartialdamage, ArgKind::Int(0)))
    } else if str_eq(name, "toggle_waterlily") {
        Some((WMFunc::ToggleWaterlily, ArgKind::Int(0)))
    } else if str_eq(name, "waterlily_case") {
        Some((WMFunc::WaterlilyCase, ArgKind::Command(CommandDefault::Next)))
    } else if str_eq(name, "toggle_slime") {
        Some((WMFunc::ToggleWaterlily, ArgKind::Int(0)))
    } else if str_eq(name, "toggle_overview") {
        Some((WMFunc::ToggleOverview, ArgKind::Int(0)))
    } else if str_eq(name, "cycle_overview") {
        Some((WMFunc::CycleOverview, ArgKind::Int(1)))
    } else if str_eq(name, "toggle_magnifier") {
        Some((WMFunc::ToggleMagnifier, ArgKind::Int(0)))
    } else if str_eq(name, "toggle_peek") {
        Some((WMFunc::TogglePeek, ArgKind::Int(0)))
    } else if str_eq(name, "toggle_annotation") {
        Some((WMFunc::ToggleAnnotation, ArgKind::Int(0)))
    } else if str_eq(name, "toggle_recording") {
        Some((WMFunc::ToggleRecording, ArgKind::Int(0)))
    } else if str_eq(name, "adjust_recording_region") {
        Some((WMFunc::AdjustRecordingRegion, ArgKind::Int(0)))
    } else if str_eq(name, "toggle_audio_recording") {
        Some((WMFunc::ToggleAudioRecording, ArgKind::Int(0)))
    } else if str_eq(name, "toggle_dnd") {
        Some((WMFunc::ToggleDnd, ArgKind::Int(0)))
    } else if str_eq(name, "save_session") {
        Some((WMFunc::SaveSession, ArgKind::Int(0)))
    } else if str_eq(name, "restore_session") {
        Some((WMFunc::RestoreSession, ArgKind::Int(0)))
    } else {
        None
    }
}

/// Every advertised command maps to an action, and every command that does is
/// advertised but for the former name of `toggle_waterlily`.
pub proof fn advertised_commands_are_bindable(name: Seq<char>)
    ensures
        among(name, dispatch_commands_names()) ==> command_named(name) is Some,
        command_named(name) is Some ==> among(name, dispatch_commands_names()) || name
            == "toggle_slime"@,
{
    let all = dispatch_commands_names();
    if among(name, all) {
        let i = choose|i: int| 0 <= i < all.len() && #[trigger] all[i]@ == name;
    }
    if command_named(name) is Some && name != "toggle_slime"@ {
        assert(all[0]@ == "app_launcher"@);
        assert(all[1]@ == "cycle_overview"@);
        assert(all[2]@ == "cyclelayout"@);
        assert(all[3]@ == "focus_none"@);
        assert(all[4]@ == "focus_tab"@);
        assert(all[5]@ == "focus_window"@);
        assert(all[6]@ == "focusmon"@);
        assert(all[7]@ == "focusstack"@);
        assert(all[8]@ == "incnmaster"@);
        assert(all[9]@ == "killclient"@);
        assert(all[10]@ == "lock_screen"@);
        assert(all[11]@ == "loopview"@);
        assert(all[12]@ == "monitor_layout"@);
        assert(all[13]@ == "movestack"@);
        assert(all[14]@ == "quit"@);
        assert(all[15]@ == "refocus"@);
        assert(all[16]@ == "restart"@);
        assert(all[17]@ == "restore_session"@);
        assert(all[18]@ == "save_session"@);
        assert(all[19]@ == "scrolling_consume"@);
        assert(all[20]@ == "scrolling_expel"@);
        assert(all[21]@ == "scrolling_focus_column"@);
        assert(all[22]@ == "scrolling_focus_window"@);
        assert(all[23]@ == "scrolling_move_column"@);
        assert(all[24]@ == "scrolling_toggle_attach_mode"@);
        assert(all[25]@ == "setcfact"@);
        assert(all[26]@ == "setlayout"@);
        assert(all[27]@ == "setmfact"@);
        assert(all[28]@ == "spawn"@);
        assert(all[29]@ == "tag"@);
        assert(all[30]@ == "tagmon"@);
        assert(all[31]@ == "toggle_annotation"@);
        assert(all[32]@ == "adjust_recording_region"@);
        assert(all[33]@ == "toggle_audio_recording"@);
        assert(all[34]@ == "toggle_dnd"@);
        assert(all[35]@ == "toggle_magnifier"@);
        assert(all[36]@ == "toggle_overview"@);
        assert(all[37]@ == "toggle_peek"@);
        assert(all[38]@ == "toggle_recording"@);
        assert(all[39]@ == "toggle_waterlily"@);
        assert(all[40]@ == "togglebar"@);
        assert(all[41]@ == "togglecompositor"@);
        assert(all[42]@ == "togglefloating"@);
        assert(all[43]@ == "togglepartialdamage"@);
        assert(all[44]@ == "togglepip"@);
        assert(all[45]@ == "togglescratchpad"@);
        assert(all[46]@ == "togglesticky"@);
        assert(all[47]@ == "toggletag"@);
        assert(all[48]@ == "toggleview"@);
        assert(all[49]@ == "view"@);
        assert(all[50]@ == "waterlily_case"@);
        assert(all[51]@ == "zoom"@);
    }
}

/// What an argument should have been.
#[derive(Debug, Clone, Copy, PartialEq, Eq, Structural)]
pub enum Expected {
    Int,
    Number,
    Mask,
    LayoutName,
}

impl Expected {
    /// The object fields an argument may stand in, in order of preference.
    pub open spec fn keys(self) -> Seq<&'static str> {
        match self {
            Expected::Int => seq!["value", "v"],
            Expected::Number => seq!["value", "v"],
            Expected::Mask => seq!["tag", "value", "v"],
            Expected::LayoutName => seq!["layout", "value"],
        }
    }

    /// The argument in words.
    pub open spec fn words(self) -> Seq<char> {
        match self {
            Expected::Int => "an i32 integer"@,
            Expected::Number => "a finite number"@,
            Expected::Mask => "a u32 tag mask"@,
            Expected::LayoutName => "a layout name"@,
        }
    }

    /// The quoted object fields, separated by slashes.
    pub open spec fn quoted_keys(self) -> Seq<char> {
        match self {
            Expected::Int => "'value'/'v'"@,
            Expected::Number => "'value'/'v'"@,
            Expected::Mask => "'tag'/'value'/'v'"@,
            Expected::LayoutName => "'layout'/'value'"@,
        }
    }

    fn key_list(self) -> (r: Vec<&'static str>)
        ensures
            r@ == self.keys(),
    {
        let keys = match self {
            Expected::Int => vec!["value", "v"],
            Expected::Number => vec!["value", "v"],
            Expected::Mask => vec!["tag", "value", "v"],
            Expected::LayoutName => vec!["layout", "value"],
        };
        assert(keys@ == self.keys());
        keys
    }

    fn phrase(self) -> (r: &'static str)
        ensures
            r@ == self.words(),
    {
        match self {
            Expected::Int => "an i32 integer",
            Expected::Number => "a finite number",
            Expected::Mask => "a u32 tag mask",
            Expected::LayoutName => "a layout name",
        }
    }

    fn key_phrase(self) -> (r: &'static str)
        ensures
            r@ == self.quoted_keys(),
    {
        match self {
            Expected::Int => "'value'/'v'",
            Expected::Number => "'value'/'v'",
            Expected::Mask => "'tag'/'value'/'v'",
            Expected::LayoutName => "'layout'/'value'",
        }
    }
}

/// Why an argument is not accepted, with the value in question.
#[derive(Debug, Clone, Copy)]
pub enum ArgError<'a> {
    /// A non-empty object without a supported field.
    Unsupported(Expected),
    /// A value of another type.
    WrongType(Expected, &'a JsonValue),
    /// A number that is no non-negative integer, for a tag mask.
    NotMask(&'a JsonValue),
    /// An integer outside the i32 range.
    IntRange(&'a JsonValue),
    /// A tag mask outside the u32 range.
    MaskRange(&'a JsonValue),
    /// A number outside the finite f32 range.
    FloatRange(&'a JsonValue),
    /// No window identifier.
    MissingWindowId,
    /// A value that is no non-empty layout name.
    NotLayoutName(&'a JsonValue),
    /// A layout name that nothing goes by.
    UnknownLayout(&'a JsonValue),
    /// An object without the field `cmd`.
    MissingCommand,
    /// A value that is neither a string nor an array.
    NotCommand(&'a JsonValue),
    /// An array element that is no string.
    Element(usize, &'a JsonValue),
    /// An empty array.
    EmptyCommand,
    /// A program name of white space only.
    BlankProgram,
}

/// Why a command is not dispatched.
#[derive(Debug, Clone, Copy)]
pub enum DispatchError<'a> {
    /// No such command.
    UnknownCommand,
    /// Its argument is not accepted.
    Argument(ArgError<'a>),
    /// Its command line is not accepted; the message names the command.
    CommandLine(ArgError<'a>),
}

/// The argument a value holds: absent, a value, or an object without a
/// supported field.
pub enum Scalar {
    Absent,
    Value(JsonValue),
    Unsupported,
}

/// The scalar argument of `args`. `null`, `{}` and a `null` field mean that it
/// was left out; a non-empty object without a supported field is an error.
pub open spec fn scalar_of(args: JsonValue, expected: Expected) -> Scalar {
    match args {
        JsonValue::Null => Scalar::Absent,
        JsonValue::Object(fields) => match first_field_of(fields@, expected.keys()) {
            Some(v) => if v is Null {
                Scalar::Absent
            } else {
                Scalar::Value(v)
            },
            None => if fields@.len() == 0 {
                Scalar::Absent
            } else {
                Scalar::Unsupported
            },
        },
        _ => Scalar::Value(args),
    }
}

fn scalar_arg_value<'a>(args: &'a JsonValue, expected: Expected) -> (r: Result<
    Option<&'a JsonValue>,
    ArgError<'a>,
>)
    ensures
        match r {
            Ok(None) => scalar_of(*args, expected) is Absent,
            Ok(Some(v)) => scalar_of(*args, expected) == Scalar::Value(*v),
            Err(e) => scalar_of(*args, expected) is Unsupported && e == ArgError::Unsupported(
                expected,
            ),
        },
{
    match args {
        JsonValue::Null => Ok(None),
        JsonValue::Object(fields) => {
            let keys = expected.key_list();
            match first_field(fields, keys.as_slice()) {
                Some(v) => match v {
                    JsonValue::Null => Ok(None),
                    _ => Ok(Some(v)),
                },
                None => if fields.len() == 0 {
                    Ok(None)
                } else {
                    Err(ArgError::Unsupported(expected))
                },
            }
        },
        _ => Ok(Some(args)),
    }
}

/// An integer argument.
pub open spec fn int_arg<'a>(args: JsonValue, default: i32) -> Result<ArgView, ArgError<'a>> {
    match scalar_of(args, Expected::Int) {
        Scalar::Absent => Ok(ArgView::Int(default as int)),
        Scalar::Unsupported => Err(ArgError::Unsupported(Expected::Int)),
        Scalar::Value(v) => match v {
            JsonValue::Number(n) => {
                let value = if n.signed is Some {
                    Some(n.signed->0 as int)
                } else if n.unsigned is Some {
                    Some(n.unsigned->0 as int)
                } else {
                    None
                };
                match value {
                    Some(i) => if i32::MIN <= i <= i32::MAX {
                        Ok(ArgView::Int(i))
                    } else {
                        Err(ArgError::IntRange(&v))
                    },
                    None => Err(ArgError::WrongType(Expected::Int, &v)),
                }
            },
            _ => Err(ArgError::WrongType(Expected::Int, &v)),
        },
    }
}

/// Whether an argument came out as stated.
pub open spec fn same_arg<'a>(
    r: Result<WMArgEnum, ArgError<'a>>,
    stated: Result<ArgView, ArgError<'a>>,
) -> bool {
    match r {
        Ok(arg) => stated == Ok::<ArgView, ArgError<'a>>(arg@),
        Err(e) => stated == Err::<ArgView, ArgError<'a>>(e),
    }
}

fn parse_int_arg<'a>(args: &'a JsonValue, default: i32) -> (r: Result<WMArgEnum, ArgError<'a>>)
    ensures
        same_arg(r, int_arg(*args, default)),
{
    let value = match scalar_arg_value(args, Expected::Int) {
        Err(e) => return Err(e),
        Ok(None) => return Ok(WMArgEnum::Int(default)),
        Ok(Some(value)) => value,
    };
    match value {
        JsonValue::Number(n) => {
            if let Some(i) = n.signed {
                if i < i32::MIN as i64 || i > i32::MAX as i64 {
                    Err(ArgError::IntRange(value))
                } else {
                    Ok(WMArgEnum::Int(i as i32))
                }
            } else if let Some(u) = n.unsigned {
                if u > i32::MAX as u64 {
                    Err(ArgError::IntRange(value))
                } else {
                    Ok(WMArgEnum::Int(u as i32))
                }
            } else {
                Err(ArgError::WrongType(Expected::Int, value))
            }
        },
        _ => Err(ArgError::WrongType(Expected::Int, value)),
    }
}

/// Whether a double lies in the finite single-precision range.
pub open spec fn fits_single(x: F64) -> bool {
    x.magnitude() <= 0x47ef_ffff_e000_0000
}

/// A real-number argument.
pub open spec fn float_arg<'a>(args: JsonValue) -> Result<ArgView, ArgError<'a>> {
    match scalar_of(args, Expected::Number) {
        Scalar::Absent => Ok(ArgView::Float(F32 { bits: 0 })),
        Scalar::Unsupported => Err(ArgError::Unsupported(Expected::Number)),
        Scalar::Value(v) => match v {
            JsonValue::Number(n) => if fits_single(n.wide) {
                Ok(ArgView::Float(n.single))
            } else {
                Err(ArgError::FloatRange(&v))
            },
            _ => Err(ArgError::WrongType(Expected::Number, &v)),
        },
    }
}

fn parse_float_arg<'a>(args: &'a JsonValue) -> (r: Result<WMArgEnum, ArgError<'a>>)
    ensures
        same_arg(r, float_arg(*args)),
{
    let value = match scalar_arg_value(args, Expected::Number) {
        Err(e) => return Err(e),
        Ok(None) => return Ok(WMArgEnum::Float(F32 { bits: 0 })),
        Ok(Some(value)) => value,
    };
    match value {
        JsonValue::Number(n) => {
            let bits: u64 = n.wide.bits;
            let magnitude: u64 = if bits >= 0x8000_0000_0000_0000 {
                bits - 0x8000_0000_0000_0000
            } else {
                bits
            };
            if magnitude <= 0x47ef_ffff_e000_0000 {
                Ok(WMArgEnum::Float(n.single))
            } else {
                Err(ArgError::FloatRange(value))
            }
        },
        _ => Err(ArgError::WrongType(Expected::Number, value)),
    }
}

/// A tag-mask argument.
pub open spec fn mask_arg<'a>(args: JsonValue) -> Result<ArgView, ArgError<'a>> {
    match scalar_of(args, Expected::Mask) {
        Scalar::Absent => Ok(ArgView::UInt(0)),
        Scalar::Unsupported => Err(ArgError::Unsupported(Expected::Mask)),
        Scalar::Value(v) => match v {
            JsonValue::Number(n) => match n.unsigned {
                Some(u) => if u <= u32::MAX {
                    Ok(ArgView::UInt(u as int))
                } else {
                    Err(ArgError::MaskRange(&v))
                },
                None => Err(ArgError::NotMask(&v)),
            },
            _ => Err(ArgError::WrongType(Expected::Mask, &v)),
        },
    }
}

fn parse_uint_arg<'a>(args: &'a JsonValue) -> (r: Result<WMArgEnum, ArgError<'a>>)
    ensures
        same_arg(r, mask_arg(*args)),
{
    let value = match scalar_arg_value(args, Expected::Mask) {
        Err(e) => return Err(e),
        Ok(None) => return Ok(WMArgEnum::UInt(0)),
        Ok(Some(value)) => value,
    };
    match value {
        JsonValue::Number(n) => match n.unsigned {
            Some(u) => if u <= u32::MAX as u64 {
                Ok(WMArgEnum::UInt(u as u32))
            } else {
                Err(ArgError::MaskRange(value))
            },
            None => Err(ArgError::NotMask(value)),
        },
        _ => Err(ArgError::WrongType(Expected::Mask, value)),
    }
}

/// The unsigned integer a value is.
pub open spec fn unsigned_of(v: Option<JsonValue>) -> Option<u64> {
    match v {
        Some(JsonValue::Number(n)) => n.unsigned,
        _ => None,
    }
}

/// A window identifier, directly or as the first of the fields `id`, `value`
/// and `v` that is present.
pub open spec fn window_id_arg<'a>(args: JsonValue) -> Result<ArgView, ArgError<'a>> {
    let id = match args {
        JsonValue::Object(fields) => unsigned_of(
            first_field_of(fields@, seq!["id", "value", "v"]),
        ),
        _ => unsigned_of(Some(args)),
    };
    match id {
        Some(id) => Ok(ArgView::UInt64(id as int)),
        None => Err(ArgError::MissingWindowId),
    }
}

fn parse_window_id_arg<'a>(args: &'a JsonValue) -> (r: Result<WMArgEnum, ArgError<'a>>)
    ensures
        same_arg(r, window_id_arg(*args)),
{
    let keys: Vec<&'static str> = vec!["id", "value", "v"];
    assert(keys@ == seq!["id", "value", "v"]);
    let holder: Option<&JsonValue> = match args {
        JsonValue::Object(fields) => first_field(fields, keys.as_slice()),
        _ => Some(args),
    };
    match holder {
        Some(JsonValue::Number(n)) => match n.unsigned {
            Some(id) => Ok(WMArgEnum::UInt64(id)),
            None => Err(ArgError::MissingWindowId),
        },
        _ => Err(ArgError::MissingWindowId),
    }
}

/// What `str::to_lowercase` returns.
pub uninterp spec fn unicode_lowercase(s: Seq<char>) -> Seq<char>;

/// Whether every character is ASCII.
pub open spec fn ascii_only(s: Seq<char>) -> bool {
    forall|i: int| 0 <= i < s.len() ==> (#[trigger] s[i] as u32) < 128
}

/// `str::to_lowercase`: the Unicode lower-case mapping, a function of the text
/// alone. On ASCII text it is the ASCII lower-case mapping; what it does to
/// other characters is not stated.
#[verifier::external_body]
fn to_lowercase(s: &str) -> (r: String)
    ensures
        r@ == unicode_lowercase(s@),
        ascii_only(s@) ==> r@ == lowered(s@),
{
    s.to_lowercase()
}

/// The layout a lower-case protocol name stands for. Three layouts also go by
/// a name with underscores.
pub open spec fn protocol_layout(name: Seq<char>) -> Option<LayoutEnum> {
    if name == "centered_master"@ {
        Some(LayoutEnum::CENTERED_MASTER)
    } else if name == "three_col"@ {
        Some(LayoutEnum::THREE_COL)
    } else if name == "v_stack"@ {
        Some(LayoutEnum::VSTACK)
    } else {
        LayoutEnum::named(name)
    }
}

/// The layout a lower-case protocol name stands for.
pub fn layout_by_protocol_name(name: &str) -> (r: Option<LayoutEnum>)
    ensures
        r == protocol_layout(name@),
{
    if str_eq(name, "centered_master") {
        Some(LayoutEnum::CENTERED_MASTER)
    } else if str_eq(name, "three_col") {
        Some(LayoutEnum::THREE_COL)
    } else if str_eq(name, "v_stack") {
        Some(LayoutEnum::VSTACK)
    } else {
        LayoutEnum::by_name(name)
    }
}

/// A layout argument; the tile layout when left out.
pub open spec fn layout_arg<'a>(args: JsonValue) -> Result<ArgView, ArgError<'a>> {
    match scalar_of(args, Expected::LayoutName) {
        Scalar::Absent => Ok(ArgView::Layout(LayoutEnum::TILE)),
        Scalar::Unsupported => Err(ArgError::Unsupported(Expected::LayoutName)),
        Scalar::Value(v) => match v {
            JsonValue::String(name) => if trimmed(name@).len() == 0 {
                Err(ArgError::NotLayoutName(&v))
            } else {
                match protocol_layout(unicode_lowercase(name@)) {
                    Some(layout) => Ok(ArgView::Layout(layout)),
                    None => Err(ArgError::UnknownLayout(&v)),
                }
            },
            _ => Err(ArgError::NotLayoutName(&v)),
        },
    }
}

fn parse_layout_arg<'a>(args: &'a JsonValue) -> (r: Result<WMArgEnum, ArgError<'a>>)
    ensures
        same_arg(r, layout_arg(*args)),
{
    let value = match scalar_arg_value(args, Expected::LayoutName) {
        Err(e) => return Err(e),
        Ok(None) => return Ok(WMArgEnum::Layout(LayoutEnum::TILE)),
        Ok(Some(value)) => value,
    };
    match value {
        JsonValue::String(name) => {
            if trim(name.as_str()).as_str().is_empty() {
                return Err(ArgError::NotLayoutName(value));
            }
            let lower = to_lowercase(name.as_str());
            match layout_by_protocol_name(lower.as_str()) {
                Some(layout) => Ok(WMArgEnum::Layout(layout)),
                None => Err(ArgError::UnknownLayout(value)),
            }
        },
        _ => Err(ArgError::NotLayoutName(value)),
    }
}

/// The position of the first value that is no string, or the length.
pub open spec fn first_non_string(items: Seq<JsonValue>) -> int
    decreases items.len(),
{
    if items.len() == 0 || !(items[0] is String) {
        0
    } else {
        1 + first_non_string(items.drop_first())
    }
}

/// A command line: a string, an array of strings, or either in the field
/// `cmd`; its program name must not be blank.
pub open spec fn command_arg<'a>(args: JsonValue) -> Result<ArgView, ArgError<'a>> {
    let value = match args {
        JsonValue::Object(fields) => field_of(fields@, "cmd"@),
        _ => Some(args),
    };
    match value {
        None => Err(ArgError::MissingCommand),
        Some(v) => match v {
            JsonValue::String(text) => if trimmed(text@).len() == 0 {
                Err(ArgError::BlankProgram)
            } else {
                Ok(ArgView::StringVec(seq![text@]))
            },
            JsonValue::Array(items) => {
                let bad = first_non_string(items@);
                if bad < items@.len() {
                    Err(ArgError::Element(bad as usize, &items@[bad]))
                } else if items@.len() == 0 {
                    Err(ArgError::EmptyCommand)
                } else if trimmed(items@[0]->String_0@).len() == 0 {
                    Err(ArgError::BlankProgram)
                } else {
                    Ok(ArgView::StringVec(string_texts(items@)))
                }
            },
            _ => Err(ArgError::NotCommand(&v)),
        },
    }
}

proof fn strings_before(items: Seq<JsonValue>, n: int)
    requires
        0 <= n <= items.len(),
        forall|i: int| 0 <= i < n ==> #[trigger] items[i] is String,
        n < items.len() ==> !(items[n] is String),
    ensures
        first_non_string(items) == n,
    decreases n,
{
    if n > 0 {
        assert(items[0] is String);
        assert forall|i: int| 0 <= i < n - 1 implies #[trigger] items.drop_first()[i] is String by {
            assert(items[i + 1] is String);
        }
        strings_before(items.drop_first(), n - 1);
    }
}

fn parse_string_vec_arg<'a>(args: &'a JsonValue) -> (r: Result<Vec<String>, ArgError<'a>>)
    ensures
        match r {
            Ok(v) => command_arg(*args) == Ok::<ArgView, ArgError<'a>>(
                ArgView::StringVec(views(v@)),
            ),
            Err(e) => command_arg(*args) == Err::<ArgView, ArgError<'a>>(e),
        },
{
    let value: &'a JsonValue = match args {
        JsonValue::Object(fields) => match field(fields, "cmd") {
            Some(v) => v,
            None => return Err(ArgError::MissingCommand),
        },
        _ => args,
    };
    match value {
        JsonValue::String(text) => {
            if trim(text.as_str()).as_str().is_empty() {
                return Err(ArgError::BlankProgram);
            }
            let command: Vec<String> = vec![text.clone()];
            assert(views(command@) == seq![text@]);
            Ok(command)
        },
        JsonValue::Array(items) => {
            let mut command: Vec<String> = Vec::new();
            let mut i: usize = 0;
            while i < items.len()
                invariant
                    i <= items@.len(),
                    command@.len() == i,
                    forall|k: int| 0 <= k < i ==> #[trigger] items@[k] is String,
                    forall|k: int| 0 <= k < i ==> #[trigger] command@[k]@ == items@[k]->String_0@,
                    *value == JsonValue::Array(*items),
                    command_arg::<'a>(*args) == command_arg::<'a>(*value),
                decreases items@.len() - i,
            {
                match &items[i] {
                    JsonValue::String(text) => {
                        command.push(text.clone());
                    },
                    _ => {
                        proof {
                            strings_before(items@, i as int);
                        }
                        return Err(ArgError::Element(i, &items[i]));
                    },
                }
                i += 1;
            }
            proof {
                strings_before(items@, items@.len() as int);
            }
            if command.len() == 0 {
                return Err(ArgError::EmptyCommand);
            }
            if trim(command[0].as_str()).as_str().is_empty() {
                return Err(ArgError::BlankProgram);
            }
            assert(views(command@) == string_texts(items@));
            Ok(command)
        },
        _ => Err(ArgError::NotCommand(value)),
    }
}

/// Whether an argument was left out.
pub open spec fn omitted(args: JsonValue) -> bool {
    match args {
        JsonValue::Null => true,
        JsonValue::Object(fields) => fields@.len() == 0,
        _ => false,
    }
}

fn argument_is_omitted(args: &JsonValue) -> (r: bool)
    ensures
        r == omitted(*args),
{
    match args {
        JsonValue::Null => true,
        JsonValue::Object(fields) => fields.len() == 0,
        _ => false,
    }
}

/// The command line taken when none is given.
pub open spec fn default_command(default: CommandDefault) -> Seq<Seq<char>> {
    match default {
        CommandDefault::Required => Seq::empty(),
        CommandDefault::Terminal => seq!["term"@],
        CommandDefault::FirstTab => seq!["0"@, "0"@],
        CommandDefault::Next => seq!["next"@],
    }
}

/// The argument of a command.
pub open spec fn argument_of<'a>(kind: ArgKind, args: JsonValue) -> Result<
    ArgView,
    DispatchError<'a>,
> {
    match kind {
        ArgKind::Fixed => Ok(ArgView::Int(0)),
        ArgKind::Int(default) => wrap(int_arg(args, default)),
        ArgKind::Mask => wrap(mask_arg(args)),
        ArgKind::Float => wrap(float_arg(args)),
        ArgKind::WindowId => wrap(window_id_arg(args)),
        ArgKind::Layout => wrap(layout_arg(args)),
        ArgKind::Command(default) => if default != CommandDefault::Required && omitted(args) {
            Ok(ArgView::StringVec(default_command(default)))
        } else {
            match command_arg::<'a>(args) {
                Ok(arg) => Ok(arg),
                Err(e) => Err(DispatchError::CommandLine(e)),
            }
        },
    }
}

/// An argument error as a dispatch error.
pub open spec fn wrap<'a>(r: Result<ArgView, ArgError<'a>>) -> Result<ArgView, DispatchError<'a>> {
    match r {
        Ok(arg) => Ok(arg),
        Err(e) => Err(DispatchError::Argument(e)),
    }
}

fn lift<'a>(r: Result<WMArgEnum, ArgError<'a>>) -> (s: Result<WMArgEnum, DispatchError<'a>>)
    ensures
        match (r, s) {
            (Ok(a), Ok(b)) => a == b,
            (Err(e), Err(f)) => f == DispatchError::Argument(e),
            _ => false,
        },
{
    match r {
        Ok(arg) => Ok(arg),
        Err(e) => Err(DispatchError::Argument(e)),
    }
}

fn parse_argument<'a>(kind: ArgKind, args: &'a JsonValue) -> (r: Result<
    WMArgEnum,
    DispatchError<'a>,
>)
    ensures
        match r {
            Ok(arg) => argument_of(kind, *args) == Ok::<ArgView, DispatchError<'a>>(arg@),
            Err(e) => argument_of(kind, *args) == Err::<ArgView, DispatchError<'a>>(e),
        },
{
    match kind {
        ArgKind::Fixed => Ok(WMArgEnum::Int(0)),
        ArgKind::Int(default) => lift(parse_int_arg(args, default)),
        ArgKind::Mask => lift(parse_uint_arg(args)),
        ArgKind::Float => lift(parse_float_arg(args)),
        ArgKind::WindowId => lift(parse_window_id_arg(args)),
        ArgKind::Layout => lift(parse_layout_arg(args)),
        ArgKind::Command(default) => {
            if default != CommandDefault::Required && argument_is_omitted(args) {
                let command: Vec<String> = match default {
                    CommandDefault::Required => Vec::new(),
                    CommandDefault::Terminal => vec!["term".to_string()],
                    CommandDefault::FirstTab => vec!["0".to_string(), "0".to_string()],
                    CommandDefault::Next => vec!["next".to_string()],
                };
                assert(views(command@) == default_command(default));
                return Ok(WMArgEnum::StringVec(command));
            }
            match parse_string_vec_arg(args) {
                Ok(command) => Ok(WMArgEnum::StringVec(command)),
                Err(e) => Err(DispatchError::CommandLine(e)),
            }
        },
    }
}

/// The action and argument a command stands for.
pub open spec fn dispatched<'a>(name: Seq<char>, args: JsonValue) -> Result<
    (WMFunc, ArgView),
    DispatchError<'a>,
> {
    match command_named(name) {
        None => Err(DispatchError::UnknownCommand),
        Some((func, kind)) => match argument_of::<'a>(kind, args) {
            Ok(arg) => Ok((func, arg)),
            Err(e) => Err(e),
        },
    }
}

/// Maps a command and its argument to an action. `null` and `{}` stand for an
/// argument that was left out.
pub fn dispatch_command<'a>(name: &str, args: &'a JsonValue) -> (r: Result<
    (WMFunc, WMArgEnum),
    DispatchError<'a>,
>)
    ensures
        match r {
            Ok((func, arg)) => dispatched(name@, *args) == Ok::<
                (WMFunc, ArgView),
                DispatchError<'a>,
            >((func, arg@)),
            Err(e) => dispatched(name@, *args) == Err::<(WMFunc, ArgView), DispatchError<'a>>(e),
        },
{
    match lookup(name) {
        None => Err(DispatchError::UnknownCommand),
        Some((func, kind)) => match parse_argument(kind, args) {
            Ok(arg) => Ok((func, arg)),
            Err(e) => Err(e),
        },
    }
}

/// Whether `name` identifies a command, whatever argument it is given.
pub fn is_known_command(name: &str) -> (r: bool)
    ensures
        r == (command_named(name@) is Some),
{
    match dispatch_command(name, &JsonValue::Null) {
        Ok(_) => true,
        Err(DispatchError::UnknownCommand) => false,
        Err(_) => true,
    }
}

/// `before` and `after` in one text.
fn pair(before: &str, after: &str) -> (r: String)
    ensures
        r@ == before@ + after@,
{
    before.to_string().concat(after)
}

/// `before`, `middle` and `after` in one text.
fn sentence(before: &str, middle: &str, after: &str) -> (r: String)
    ensures
        r@ == before@ + middle@ + after@,
{
    let mut out = String::new();
    out.append(before);
    out.append(middle);
    out.append(after);
    assert(out@ == before@ + middle@ + after@);
    out
}

impl<'a> ArgError<'a> {
    /// The value in question, where there is one.
    pub open spec fn subject_of(self) -> Option<JsonValue> {
        match self {
            ArgError::WrongType(_, v) => Some(*v),
            ArgError::NotMask(v) => Some(*v),
            ArgError::IntRange(v) => Some(*v),
            ArgError::MaskRange(v) => Some(*v),
            ArgError::FloatRange(v) => Some(*v),
            ArgError::NotLayoutName(v) => Some(*v),
            ArgError::UnknownLayout(v) => Some(*v),
            ArgError::NotCommand(v) => Some(*v),
            ArgError::Element(_, v) => Some(*v),
            _ => None,
        }
    }

    /// The value in question, where there is one.
    pub fn subject(&self) -> (r: Option<&'a JsonValue>)
        ensures
            match r {
                Some(v) => self.subject_of() == Some(*v),
                None => self.subject_of() is None,
            },
    {
        match *self {
            ArgError::WrongType(_, v) => Some(v),
            ArgError::NotMask(v) => Some(v),
            ArgError::IntRange(v) => Some(v),
            ArgError::MaskRange(v) => Some(v),
            ArgError::FloatRange(v) => Some(v),
            ArgError::NotLayoutName(v) => Some(v),
            ArgError::UnknownLayout(v) => Some(v),
            ArgError::NotCommand(v) => Some(v),
            ArgError::Element(_, v) => Some(v),
            _ => None,
        }
    }

    /// The text of the error, `got` being the JSON text of the subject.
    pub open spec fn text(self, got: Seq<char>) -> Seq<char> {
        match self {
            ArgError::Unsupported(e) => "expected "@ + e.words() + (" directly or in field "@ + e.quoted_keys()),
            ArgError::WrongType(e, _) => "expected "@ + e.words() + (", got "@ + got),
            ArgError::NotMask(_) => "expected a non-negative integer tag mask, got "@ + got,
            ArgError::IntRange(_) => "integer argument "@ + got + " is outside the i32 range"@,
            ArgError::MaskRange(_) => "tag mask "@ + got + " is outside the u32 range"@,
            ArgError::FloatRange(_) => "floating-point argument "@ + got
                + " is outside the finite f32 range"@,
            ArgError::MissingWindowId => "focus_window requires an \"id\" argument (window id as u64)"@,
            ArgError::NotLayoutName(_) => "expected a non-empty layout name, got "@ + got,
            ArgError::UnknownLayout(v) => "unknown layout: "@ + (match *v {
                JsonValue::String(name) => name@,
                _ => got,
            }),
            ArgError::MissingCommand => "expected a command string or string array in field 'cmd'"@,
            ArgError::NotCommand(_) => "expected a command string or string array, got "@ + got,
            ArgError::Element(i, _) => "command element "@ + decimal(i as int)
                + (" must be a string, got "@ + got),
            ArgError::EmptyCommand => "command array must not be empty"@,
            ArgError::BlankProgram => "command program must not be empty"@,
        }
    }

    /// The text of the error, `got` being the JSON text of the subject.
    pub fn message(&self, got: &str) -> (r: String)
        ensures
            r@ == self.text(got@),
    {
        match *self {
            ArgError::Unsupported(e) => {
                let tail = pair(" directly or in field ", e.key_phrase());
                sentence("expected ", e.phrase(), tail.as_str())
            },
            ArgError::WrongType(e, _) => {
                let tail = pair(", got ", got);
                sentence("expected ", e.phrase(), tail.as_str())
            },
            ArgError::NotMask(_) => pair("expected a non-negative integer tag mask, got ", got),
            ArgError::IntRange(_) => sentence(
                "integer argument ",
                got,
                " is outside the i32 range",
            ),
            ArgError::MaskRange(_) => sentence("tag mask ", got, " is outside the u32 range"),
            ArgError::FloatRange(_) => sentence(
                "floating-point argument ",
                got,
                " is outside the finite f32 range",
            ),
            ArgError::MissingWindowId => "focus_window requires an \"id\" argument (window id as u64)".to_string(),
            ArgError::NotLayoutName(_) => pair("expected a non-empty layout name, got ", got),
            ArgError::UnknownLayout(v) => match v {
                JsonValue::String(name) => pair("unknown layout: ", name.as_str()),
                _ => pair("unknown layout: ", got),
            },
            ArgError::MissingCommand => "expected a command string or string array in field 'cmd'".to_string(),
            ArgError::NotCommand(_) => pair("expected a command string or string array, got ", got),
            ArgError::Element(i, _) => {
                let mut index = String::new();
                push_nat(&mut index, i as u64);
                let tail = pair(" must be a string, got ", got);
                sentence("command element ", index.as_str(), tail.as_str())
            },
            ArgError::EmptyCommand => "command array must not be empty".to_string(),
            ArgError::BlankProgram => "command program must not be empty".to_string(),
        }
    }
}

impl<'a> DispatchError<'a> {
    /// The text of the error for the command `name`, `got` being the JSON text
    /// of the value in question.
    pub open spec fn text(self, name: Seq<char>, got: Seq<char>) -> Seq<char> {
        match self {
            DispatchError::UnknownCommand => "unknown command: "@ + name,
            DispatchError::Argument(e) => e.text(got),
            DispatchError::CommandLine(e) => name + ": "@ + e.text(got),
        }
    }

    /// The text of the error for the command `name`, `got` being the JSON text
    /// of the value in question.
    pub fn message(&self, name: &str, got: &str) -> (r: String)
        ensures
            r@ == self.text(name@, got@),
    {
        match self {
            DispatchError::UnknownCommand => pair("unknown command: ", name),
            DispatchError::Argument(e) => e.message(got),
            DispatchError::CommandLine(e) => {
                let text = e.message(got);
                sentence(name, ": ", text.as_str())
            },
        }
    }
}

/// Whether a value can be an argument by itself.
pub open spec fn is_scalar(v: JsonValue) -> bool {
    !(v is Null) && !(v is Object)
}

/// An argument means the same by itself and in a field: `value` before `v`, and
/// for some kinds a field of their own before both.
pub proof fn arguments_stand_alone_or_in_a_field<'a>(
    fields: Vec<(String, JsonValue)>,
    key: &str,
    default: i32,
)
    requires
        field_of(fields@, key@) is Some,
        is_scalar(field_of(fields@, key@)->0),
    ensures
        ({
            let v = field_of(fields@, key@)->0;
            let all = JsonValue::Object(fields);
            let no_value = field_of(fields@, "value"@) is None;
            let plain = key@ == "value"@ || key@ == "v"@ && no_value;
            &&& plain ==> int_arg::<'a>(all, default) == int_arg::<'a>(v, default)
            &&& plain ==> float_arg::<'a>(all) == float_arg::<'a>(v)
            &&& key@ == "tag"@ || plain && field_of(fields@, "tag"@) is None ==> mask_arg::<'a>(all)
                == mask_arg::<'a>(v)
            &&& key@ == "layout"@ || key@ == "value"@ && field_of(fields@, "layout"@) is None
                ==> layout_arg::<'a>(all) == layout_arg::<'a>(v)
            &&& key@ == "id"@ || plain && field_of(fields@, "id"@) is None ==> window_id_arg::<'a>(
                all,
            ) == window_id_arg::<'a>(v)
            &&& key@ == "cmd"@ ==> command_arg::<'a>(all) == command_arg::<'a>(v)
        }),
{
    let plain = seq!["value", "v"];
    let tag = seq!["tag", "value", "v"];
    let layout = seq!["layout", "value"];
    let id = seq!["id", "value", "v"];
    reveal_with_fuel(first_field_of, 4);
    assert(plain.drop_first() =~= seq!["v"]);
    assert(tag.drop_first() =~= plain);
    assert(layout.drop_first() =~= seq!["value"]);
    assert(id.drop_first() =~= plain);
}

/// A number is taken as it is where it fits, and refused where it does not.
pub proof fn numbers_are_taken_as_they_are<'a>(num: JsonNumber, default: i32)
    ensures
        ({
            let v = JsonValue::Number(num);
            &&& num.signed matches Some(i) ==> {
                &&& i32::MIN <= i <= i32::MAX ==> int_arg::<'a>(v, default) == Ok::<
                    ArgView,
                    ArgError<'a>,
                >(ArgView::Int(i as int))
                &&& !(i32::MIN <= i <= i32::MAX) ==> int_arg::<'a>(v, default) is Err
            }
            &&& num.signed is None && num.unsigned is None ==> int_arg::<'a>(v, default) is Err
            &&& num.unsigned matches Some(u) ==> {
                &&& u <= u32::MAX ==> mask_arg::<'a>(v) == Ok::<ArgView, ArgError<'a>>(
                    ArgView::UInt(u as int),
                )
                &&& u > u32::MAX ==> mask_arg::<'a>(v) is Err
                &&& window_id_arg::<'a>(v) == Ok::<ArgView, ArgError<'a>>(
                    ArgView::UInt64(u as int),
                )
            }
            &&& num.unsigned is None ==> mask_arg::<'a>(v) is Err && window_id_arg::<'a>(v) is Err
            &&& float_arg::<'a>(v) is Ok ==> float_arg::<'a>(v)->Ok_0 == ArgView::Float(num.single)
            &&& num.wide.magnitude() <= 0x47ef_ffff_e000_0000 <==> float_arg::<'a>(v) is Ok
        }),
{
}

/// Texts are no numbers, and numbers are no names.
pub proof fn kinds_are_not_mixed<'a>(text: String, num: JsonNumber, default: i32)
    ensures
        int_arg::<'a>(JsonValue::String(text), default) is Err,
        float_arg::<'a>(JsonValue::String(text)) is Err,
        mask_arg::<'a>(JsonValue::String(text)) is Err,
        window_id_arg::<'a>(JsonValue::String(text)) is Err,
        layout_arg::<'a>(JsonValue::Number(num)) is Err,
        command_arg::<'a>(JsonValue::Number(num)) is Err,
        window_id_arg::<'a>(JsonValue::Null) is Err,
        command_arg::<'a>(JsonValue::Null) is Err,
{
}

/// A command line is the words of an array, in order, or one word.
pub proof fn words_are_kept<'a>(text: String, items: Vec<JsonValue>)
    ensures
        trimmed(text@).len() > 0 ==> command_arg::<'a>(JsonValue::String(text)) == Ok::<
            ArgView,
            ArgError<'a>,
        >(ArgView::StringVec(seq![text@])),
        trimmed(text@).len() == 0 ==> command_arg::<'a>(JsonValue::String(text)) is Err,
        command_arg::<'a>(JsonValue::Array(items)) is Ok ==> {
            let words = command_arg::<'a>(JsonValue::Array(items))->Ok_0;
            &&& words is StringVec
            &&& words->StringVec_0.len() == items@.len() > 0
            &&& trimmed(words->StringVec_0[0]).len() > 0
            &&& forall|i: int|
                0 <= i < items@.len() ==> (#[trigger] items@[i]) is String
                    && words->StringVec_0[i] == items@[i]->String_0@
        },
{
    if first_non_string(items@) >= items@.len() {
        all_are_strings(items@);
    }
}

proof fn all_are_strings(items: Seq<JsonValue>)
    requires
        first_non_string(items) >= items.len(),
    ensures
        forall|i: int| 0 <= i < items.len() ==> (#[trigger] items[i]) is String,
    decreases items.len(),
{
    if items.len() > 0 {
        let rest = items.drop_first();
        all_are_strings(rest);
        assert(forall|i: int| 1 <= i < items.len() ==> #[trigger] items[i] == rest[i - 1]);
    }
}

/// Every layout goes by its own name in the protocol too.
pub proof fn layouts_go_by_their_names(layout: LayoutEnum)
    requires
        layout != LayoutEnum::ANY,
    ensures
        protocol_layout(layout.name_of()) == Some(layout),
{
    crate::catalog::name_round_trips(layout);
    reveal_strlit("centered_master");
    reveal_strlit("three_col");
    reveal_strlit("v_stack");
    reveal_strlit("tile");
    reveal_strlit("fibonacci");
    reveal_strlit("centeredmaster");
    reveal_strlit("bstack");
    reveal_strlit("grid");
    reveal_strlit("deck");
    reveal_strlit("threecol");
    reveal_strlit("tatami");
    reveal_strlit("monocle");
    reveal_strlit("fullscreen");
    reveal_strlit("scrolling");
    reveal_strlit("vstack");
    reveal_strlit("float");
    assert("centered_master"@.len() == 15);
    assert("three_col"@.len() == 9 && "three_col"@[0] == 't');
    assert("v_stack"@.len() == 7 && "v_stack"@[0] == 'v');
    assert("tile"@.len() == 4 && "grid"@.len() == 4 && "deck"@.len() == 4);
    assert("fibonacci"@.len() == 9 && "fibonacci"@[0] == 'f');
    assert("scrolling"@.len() == 9 && "scrolling"@[0] == 's');
    assert("centeredmaster"@.len() == 14 && "threecol"@.len() == 8 && "fullscreen"@.len() == 10);
    assert("bstack"@.len() == 6 && "tatami"@.len() == 6 && "vstack"@.len() == 6);
    assert("monocle"@.len() == 7 && "monocle"@[0] == 'm');
    assert("float"@.len() == 5);
}

} // verus!
