//! The newline-delimited JSON control protocol: discovery, messages, and the
//! commands that map to window-manager actions.
use crate::ieee::F32;
use crate::json::{JsonValue, field, field_of, is_repeated, occurrences};
use crate::text::{
    among, ascending, first_difference, insert_sorted, neighbours_ascend, one_of, precedes, str_eq,
    views,
};
use vstd::prelude::*;

verus! {

/// Commands that map to a window-manager action.
pub open spec fn dispatch_commands_names() -> Seq<&'static str> {
    seq![
        "app_launcher",
        "cycle_overview",
        "cyclelayout",
        "focus_none",
        "focus_tab",
        "focus_window",
        "focusmon",
        "focusstack",
        "incnmaster",
        "killclient",
        "lock_screen",
        "loopview",
        "monitor_layout",
        "movestack",
        "quit",
        "refocus",
        "restart",
        "restore_session",
        "save_session",
        "scrolling_consume",
        "scrolling_expel",
        "scrolling_focus_column",
        "scrolling_focus_window",
        "scrolling_move_column",
        "scrolling_toggle_attach_mode",
        "setcfact",
        "setlayout",
        "setmfact",
        "spawn",
        "tag",
        "tagmon",
        "toggle_annotation",
        "adjust_recording_region",
        "toggle_audio_recording",
        "toggle_dnd",
        "toggle_magnifier",
        "toggle_overview",
        "toggle_peek",
        "toggle_recording",
        "toggle_waterlily",
        "togglebar",
        "togglecompositor",
        "togglefloating",
        "togglepartialdamage",
        "togglepip",
        "togglescratchpad",
        "togglesticky",
        "toggletag",
        "toggleview",
        "view",
        "waterlily_case",
        "zoom",
    ]
}

/// Commands that map to a window-manager action.
pub fn dispatch_commands() -> (r: Vec<&'static str>)
    ensures
        r@ == dispatch_commands_names(),
{
    let names = vec![
        "app_launcher",
        "cycle_overview",
        "cyclelayout",
        "focus_none",
        "focus_tab",
        "focus_window",
        "focusmon",
        "focusstack",
        "incnmaster",
        "killclient",
        "lock_screen",
        "loopview",
        "monitor_layout",
        "movestack",
        "quit",
        "refocus",
        "restart",
        "restore_session",
        "save_session",
        "scrolling_consume",
        "scrolling_expel",
        "scrolling_focus_column",
        "scrolling_focus_window",
        "scrolling_move_column",
        "scrolling_toggle_attach_mode",
        "setcfact",
        "setlayout",
        "setmfact",
        "spawn",
        "tag",
        "tagmon",
        "toggle_annotation",
        "adjust_recording_region",
        "toggle_audio_recording",
        "toggle_dnd",
        "toggle_magnifier",
        "toggle_overview",
        "toggle_peek",
        "toggle_recording",
        "toggle_waterlily",
        "togglebar",
        "togglecompositor",
        "togglefloating",
        "togglepartialdamage",
        "togglepip",
        "togglescratchpad",
        "togglesticky",
        "toggletag",
        "toggleview",
        "view",
        "waterlily_case",
        "zoom",
    ];
    assert(names@ == dispatch_commands_names());
    names
}

/// Commands the server carries out itself.
pub open spec fn special_commands_names() -> Seq<&'static str> {
    seq![
        "batch",
        "benchmark",
        "command_batch",
        "move_window_to_monitor",
        "reload_config",
        "set_config",
        "set_config_batch",
        "set_hdr_metadata",
        "set_recording_region",
        "start_audio_recording",
        "start_recording",
        "stop_audio_recording",
        "stop_recording",
    ]
}

/// Commands the server carries out itself.
pub fn special_commands() -> (r: Vec<&'static str>)
    ensures
        r@ == special_commands_names(),
{
    let names = vec![
        "batch",
        "benchmark",
        "command_batch",
        "move_window_to_monitor",
        "reload_config",
        "set_config",
        "set_config_batch",
        "set_hdr_metadata",
        "set_recording_region",
        "start_audio_recording",
        "start_recording",
        "stop_audio_recording",
        "stop_recording",
    ];
    assert(names@ == special_commands_names());
    names
}

/// Queries the server answers.
pub open spec fn queries_names() -> Seq<&'static str> {
    seq![
        "benchmark_report",
        "get_audio_recording_status",
        "get_blur_status",
        "get_capabilities",
        "get_capture_status",
        "get_color_management_status",
        "get_config",
        "get_config_status",
        "get_dnd",
        "get_effect_status",
        "get_gesture_status",
        "get_hdr_status",
        "get_metrics",
        "get_monitors",
        "get_recording_status",
        "get_scrolling_status",
        "get_session_lock",
        "get_status",
        "get_tearing_hints",
        "get_tree",
        "get_version",
        "get_wayland_status",
        "get_windows",
        "get_workspaces",
        "get_xwayland_status",
    ]
}

/// Queries the server answers.
pub fn queries() -> (r: Vec<&'static str>)
    ensures
        r@ == queries_names(),
{
    let names = vec![
        "benchmark_report",
        "get_audio_recording_status",
        "get_blur_status",
        "get_capabilities",
        "get_capture_status",
        "get_color_management_status",
        "get_config",
        "get_config_status",
        "get_dnd",
        "get_effect_status",
        "get_gesture_status",
        "get_hdr_status",
        "get_metrics",
        "get_monitors",
        "get_recording_status",
        "get_scrolling_status",
        "get_session_lock",
        "get_status",
        "get_tearing_hints",
        "get_tree",
        "get_version",
        "get_wayland_status",
        "get_windows",
        "get_workspaces",
        "get_xwayland_status",
    ];
    assert(names@ == queries_names());
    names
}

/// Topics a client can subscribe to.
pub open spec fn subscription_topics_names() -> Seq<&'static str> {
    seq![
        "*",
        "audio_recording",
        "config",
        "dnd",
        "layout",
        "monitor",
        "recording",
        "scrolling",
        "tag",
        "window",
    ]
}

/// Topics a client can subscribe to.
pub fn subscription_topics() -> (r: Vec<&'static str>)
    ensures
        r@ == subscription_topics_names(),
{
    let names = vec![
        "*",
        "audio_recording",
        "config",
        "dnd",
        "layout",
        "monitor",
        "recording",
        "scrolling",
        "tag",
        "window",
    ];
    assert(names@ == subscription_topics_names());
    names
}

proof fn queries_ascend()
    ensures
        ascending(queries_names()),
{
    let names = queries_names();
    assert forall|k: int| 0 < k < names.len() implies precedes(
        names[k - 1]@,
        #[trigger] names[k]@,
    ) by {
        if k == 1 {
            reveal_strlit("benchmark_report");
            reveal_strlit("get_audio_recording_status");
            first_difference("benchmark_report"@, "get_audio_recording_status"@, 0);
        } else if k == 2 {
            reveal_strlit("get_audio_recording_status");
            reveal_strlit("get_blur_status");
            first_difference("get_audio_recording_status"@, "get_blur_status"@, 4);
        } else if k == 3 {
            reveal_strlit("get_blur_status");
            reveal_strlit("get_capabilities");
            first_difference("get_blur_status"@, "get_capabilities"@, 4);
        } else if k == 4 {
            reveal_strlit("get_capabilities");
            reveal_strlit("get_capture_status");
            first_difference("get_capabilities"@, "get_capture_status"@, 7);
        } else if k == 5 {
            reveal_strlit("get_capture_status");
            reveal_strlit("get_color_management_status");
            first_difference("get_capture_status"@, "get_color_management_status"@, 5);
        } else if k == 6 {
            reveal_strlit("get_color_management_status");
            reveal_strlit("get_config");
            first_difference("get_color_management_status"@, "get_config"@, 6);
        } else if k == 7 {
            reveal_strlit("get_config");
            reveal_strlit("get_config_status");
            first_difference("get_config"@, "get_config_status"@, 10);
        } else if k == 8 {
            reveal_strlit("get_config_status");
            reveal_strlit("get_dnd");
            first_difference("get_config_status"@, "get_dnd"@, 4);
        } else if k == 9 {
            reveal_strlit("get_dnd");
            reveal_strlit("get_effect_status");
            first_difference("get_dnd"@, "get_effect_status"@, 4);
        } else if k == 10 {
            reveal_strlit("get_effect_status");
            reveal_strlit("get_gesture_status");
            first_difference("get_effect_status"@, "get_gesture_status"@, 4);
        } else if k == 11 {
            reveal_strlit("get_gesture_status");
            reveal_strlit("get_hdr_status");
            first_difference("get_gesture_status"@, "get_hdr_status"@, 4);
        } else if k == 12 {
            reveal_strlit("get_hdr_status");
            reveal_strlit("get_metrics");
            first_difference("get_hdr_status"@, "get_metrics"@, 4);
        } else if k == 13 {
            reveal_strlit("get_metrics");
            reveal_strlit("get_monitors");
            first_difference("get_metrics"@, "get_monitors"@, 5);
        } else if k == 14 {
            reveal_strlit("get_monitors");
            reveal_strlit("get_recording_status");
            first_difference("get_monitors"@, "get_recording_status"@, 4);
        } else if k == 15 {
            reveal_strlit("get_recording_status");
            reveal_strlit("get_scrolling_status");
            first_difference("get_recording_status"@, "get_scrolling_status"@, 4);
        } else if k == 16 {
            reveal_strlit("get_scrolling_status");
            reveal_strlit("get_session_lock");
            first_difference("get_scrolling_status"@, "get_session_lock"@, 5);
        } else if k == 17 {
            reveal_strlit("get_session_lock");
            reveal_strlit("get_status");
            first_difference("get_session_lock"@, "get_status"@, 5);
        } else if k == 18 {
            reveal_strlit("get_status");
            reveal_strlit("get_tearing_hints");
            first_difference("get_status"@, "get_tearing_hints"@, 4);
        } else if k == 19 {
            reveal_strlit("get_tearing_hints");
            reveal_strlit("get_tree");
            first_difference("get_tearing_hints"@, "get_tree"@, 5);
        } else if k == 20 {
            reveal_strlit("get_tree");
            reveal_strlit("get_version");
            first_difference("get_tree"@, "get_version"@, 4);
        } else if k == 21 {
            reveal_strlit("get_version");
            reveal_strlit("get_wayland_status");
            first_difference("get_version"@, "get_wayland_status"@, 4);
        } else if k == 22 {
            reveal_strlit("get_wayland_status");
            reveal_strlit("get_windows");
            first_difference("get_wayland_status"@, "get_windows"@, 5);
        } else if k == 23 {
            reveal_strlit("get_windows");
            reveal_strlit("get_workspaces");
            first_difference("get_windows"@, "get_workspaces"@, 5);
        } else {
            reveal_strlit("get_workspaces");
            reveal_strlit("get_xwayland_status");
            first_difference("get_workspaces"@, "get_xwayland_status"@, 4);
        }
    }
    assert forall|i: int, j: int| 0 <= i < j < names.len() implies precedes(
        #[trigger] names[i]@,
        #[trigger] names[j]@,
    ) by {
        neighbours_ascend(names, i, j);
    }
}

proof fn topics_ascend()
    ensures
        ascending(subscription_topics_names()),
{
    let names = subscription_topics_names();
    assert forall|k: int| 0 < k < names.len() implies precedes(
        names[k - 1]@,
        #[trigger] names[k]@,
    ) by {
        if k == 1 {
            reveal_strlit("*");
            reveal_strlit("audio_recording");
            first_difference("*"@, "audio_recording"@, 0);
        } else if k == 2 {
            reveal_strlit("audio_recording");
            reveal_strlit("config");
            first_difference("audio_recording"@, "config"@, 0);
        } else if k == 3 {
            reveal_strlit("config");
            reveal_strlit("dnd");
            first_difference("config"@, "dnd"@, 0);
        } else if k == 4 {
            reveal_strlit("dnd");
            reveal_strlit("layout");
            first_difference("dnd"@, "layout"@, 0);
        } else if k == 5 {
            reveal_strlit("layout");
            reveal_strlit("monitor");
            first_difference("layout"@, "monitor"@, 0);
        } else if k == 6 {
            reveal_strlit("monitor");
            reveal_strlit("recording");
            first_difference("monitor"@, "recording"@, 0);
        } else if k == 7 {
            reveal_strlit("recording");
            reveal_strlit("scrolling");
            first_difference("recording"@, "scrolling"@, 0);
        } else if k == 8 {
            reveal_strlit("scrolling");
            reveal_strlit("tag");
            first_difference("scrolling"@, "tag"@, 0);
        } else {
            reveal_strlit("tag");
            reveal_strlit("window");
            first_difference("tag"@, "window"@, 0);
        }
    }
    assert forall|i: int, j: int| 0 <= i < j < names.len() implies precedes(
        #[trigger] names[i]@,
        #[trigger] names[j]@,
    ) by {
        neighbours_ascend(names, i, j);
    }
}

/// Static discovery data of the protocol.
pub struct IpcRegistry {
    pub dispatch_commands: Vec<&'static str>,
    pub special_commands: Vec<&'static str>,
    pub queries: Vec<&'static str>,
    pub subscription_topics: Vec<&'static str>,
}

/// The discovery data of the protocol.
pub fn ipc_registry() -> (r: IpcRegistry)
    ensures
        r.dispatch_commands@ == dispatch_commands_names(),
        r.special_commands@ == special_commands_names(),
        r.queries@ == queries_names(),
        r.subscription_topics@ == subscription_topics_names(),
{
    IpcRegistry {
        dispatch_commands: dispatch_commands(),
        special_commands: special_commands(),
        queries: queries(),
        subscription_topics: subscription_topics(),
    }
}

/// Discovery data for clients, version 1.
#[derive(Debug, Clone)]
pub struct IpcCapabilitiesV1 {
    pub schema_version: u32,
    pub commands: Vec<&'static str>,
    pub queries: Vec<&'static str>,
    pub subscription_topics: Vec<&'static str>,
}

/// Stable discovery data: every command, query and topic once, in ascending
/// order.
pub fn ipc_capabilities() -> (r: IpcCapabilitiesV1)
    ensures
        r.schema_version == 1,
        ascending(r.commands@),
        forall|name: Seq<char>|
            #![trigger among(name, r.commands@)]
            among(name, r.commands@) <==> among(name, dispatch_commands_names()) || among(
                name,
                special_commands_names(),
            ),
        r.queries@ == queries_names(),
        ascending(r.queries@),
        r.subscription_topics@ == subscription_topics_names(),
        ascending(r.subscription_topics@),
{
    let mut commands: Vec<&'static str> = Vec::new();
    let dispatch = dispatch_commands();
    let special = special_commands();
    let mut i: usize = 0;
    while i < dispatch.len()
        invariant
            i <= dispatch@.len(),
            ascending(commands@),
            forall|name: Seq<char>|
                #![trigger among(name, commands@)]
                among(name, commands@) <==> among(name, dispatch@.take(i as int)),
        decreases dispatch@.len() - i,
    {
        insert_sorted(&mut commands, dispatch[i]);
        proof {
            assert forall|name: Seq<char>| #![trigger among(name, commands@)] among(
                name,
                commands@,
            ) <==> among(name, dispatch@.take(i + 1)) by {
                grown_choices(name, dispatch@, i as int);
            }
        }
        i += 1;
    }
    assert(dispatch@.take(dispatch@.len() as int) == dispatch@);
    let mut j: usize = 0;
    while j < special.len()
        invariant
            j <= special@.len(),
            ascending(commands@),
            forall|name: Seq<char>|
                #![trigger among(name, commands@)]
                among(name, commands@) <==> among(name, dispatch@) || among(
                    name,
                    special@.take(j as int),
                ),
        decreases special@.len() - j,
    {
        insert_sorted(&mut commands, special[j]);
        proof {
            assert forall|name: Seq<char>| #![trigger among(name, commands@)] among(
                name,
                commands@,
            ) <==> among(name, dispatch@) || among(name, special@.take(j + 1)) by {
                grown_choices(name, special@, j as int);
            }
        }
        j += 1;
    }
    assert(special@.take(special@.len() as int) == special@);
    proof {
        queries_ascend();
        topics_ascend();
    }
    IpcCapabilitiesV1 {
        schema_version: 1,
        commands,
        queries: queries(),
        subscription_topics: subscription_topics(),
    }
}

/// One more choice adds exactly that choice.
proof fn grown_choices(name: Seq<char>, choices: Seq<&str>, n: int)
    requires
        0 <= n < choices.len(),
    ensures
        among(name, choices.take(n + 1)) <==> among(name, choices.take(n)) || name
            == choices[n]@,
{
    let more = choices.take(n + 1);
    let less = choices.take(n);
    if among(name, more) {
        let k = choose|k: int| 0 <= k < more.len() && #[trigger] more[k]@ == name;
        if k < n {
            assert(less[k]@ == name);
        }
    }
    if among(name, less) {
        let k = choose|k: int| 0 <= k < less.len() && #[trigger] less[k]@ == name;
        assert(more[k]@ == name);
    }
    if name == choices[n]@ {
        assert(more[n]@ == name);
    }
}

/// Whether `name` is a query the server answers.
pub fn is_supported_query(name: &str) -> (r: bool)
    ensures
        r == among(name@, queries_names()),
{
    let known = queries();
    one_of(name, known.as_slice())
}

/// Whether the running window manager is in order.
#[derive(Debug, Clone, Copy, PartialEq, Eq, Structural)]
pub enum RuntimeHealthStatus {
    Healthy,
    Degraded,
}

/// Health with the reasons for a degraded state.
#[derive(Debug, Clone)]
pub struct RuntimeHealth {
    pub status: RuntimeHealthStatus,
    pub reasons: Vec<String>,
}

impl RuntimeHealth {
    /// Degraded exactly when there is a reason.
    pub fn from_reasons(reasons: Vec<String>) -> (r: RuntimeHealth)
        ensures
            r.reasons == reasons,
            r.status == RuntimeHealthStatus::Healthy <==> reasons@.len() == 0,
    {
        let status = if reasons.len() == 0 {
            RuntimeHealthStatus::Healthy
        } else {
            RuntimeHealthStatus::Degraded
        };
        RuntimeHealth { status, reasons }
    }
}

/// How many windows, monitors and workspaces there are.
#[derive(Debug, Clone, Copy, PartialEq, Eq, Structural)]
pub struct RuntimeCounts {
    pub windows: usize,
    pub monitors: usize,
    pub workspaces: usize,
}

/// Which features are active.
#[derive(Debug, Clone, Copy, PartialEq, Eq, Structural)]
pub struct RuntimeFeatureStates {
    pub do_not_disturb: bool,
    pub screenshot: bool,
    pub overview: bool,
    pub recording: bool,
    pub audio_recording: bool,
    pub magnifier: bool,
    pub system_ui: bool,
    pub peek: bool,
    pub expose: bool,
    pub annotation: bool,
}

/// Backend-neutral live status. New fields may be added within a schema
/// version; incompatible changes require incrementing `schema_version`.
#[derive(Debug)]
pub struct RuntimeStatusV1 {
    pub schema_version: u32,
    pub version: String,
    pub backend: String,
    pub uptime_ms: u64,
    pub health: RuntimeHealth,
    pub counts: RuntimeCounts,
    pub config: JsonValue,
    pub features: RuntimeFeatureStates,
    pub compositor_metrics: Option<JsonValue>,
}

/// One managed window.
#[derive(Debug, Clone)]
pub struct WindowInfo {
    pub id: u64,
    pub name: String,
    pub class: String,
    pub instance: String,
    pub tags: u32,
    pub monitor: i32,
    pub x: i32,
    pub y: i32,
    pub w: i32,
    pub h: i32,
    pub is_floating: bool,
    pub is_fullscreen: bool,
    pub is_urgent: bool,
    pub is_sticky: bool,
    pub is_pip: bool,
    pub is_focused: bool,
}

/// One workspace.
#[derive(Debug, Clone)]
pub struct WorkspaceInfo {
    pub tag_mask: u32,
    pub tag_index: usize,
    pub monitor: i32,
    pub layout: String,
    pub m_fact: F32,
    pub n_master: u32,
    pub num_clients: usize,
    pub focused: bool,
}

/// One monitor.
#[derive(Debug, Clone)]
pub struct MonitorInfoIpc {
    pub num: i32,
    pub x: i32,
    pub y: i32,
    pub w: i32,
    pub h: i32,
    pub active_tags: u32,
    pub layout: String,
    pub focused: bool,
}

/// A monitor and the windows on it.
#[derive(Debug, Clone)]
pub struct TreeNode {
    pub monitor: MonitorInfoIpc,
    pub windows: Vec<WindowInfo>,
}

/// The answer to a request.
#[derive(Debug)]
pub struct IpcResponse {
    pub success: bool,
    pub data: Option<JsonValue>,
    pub error: Option<String>,
}

impl IpcResponse {
    /// A successful answer.
    pub fn ok(data: Option<JsonValue>) -> (r: IpcResponse)
        ensures
            r.success,
            r.data == data,
            r.error is None,
    {
        IpcResponse { success: true, data, error: None }
    }

    /// A failure with its message.
    pub fn err(msg: &str) -> (r: IpcResponse)
        ensures
            !r.success,
            r.data is None,
            r.error is Some,
            r.error->0@ == msg@,
    {
        IpcResponse { success: false, data: None, error: Some(msg.to_string()) }
    }
}

/// An event sent to subscribed clients.
#[derive(Debug)]
pub struct IpcEvent {
    pub event: String,
    pub payload: JsonValue,
}

/// A request to carry out a command.
#[derive(Debug)]
pub struct IpcCommand {
    pub command: String,
    pub args: JsonValue,
}

/// A request for information.
#[derive(Debug)]
pub struct IpcQuery {
    pub query: String,
    pub args: JsonValue,
}

/// A request to receive events.
#[derive(Debug)]
pub struct IpcSubscribe {
    pub subscribe: Vec<String>,
}

/// One message of a client.
#[derive(Debug)]
pub enum IpcMessage {
    Command(IpcCommand),
    Query(IpcQuery),
    Subscribe(IpcSubscribe),
}

/// Why a JSON value is no message.
#[derive(Debug, Clone, Copy, PartialEq, Eq, Structural)]
pub enum IpcMessageError {
    /// It does not name exactly one of the three requests.
    NotExactlyOne,
    /// A field of the request occurs more than once.
    RepeatedField,
    /// `command` is not a string.
    CommandNotString,
    /// `query` is not a string.
    QueryNotString,
    /// `subscribe` is not an array of strings.
    TopicsNotStrings,
}

impl IpcMessageError {
    /// The text of the error.
    pub open spec fn text(self) -> Seq<char> {
        match self {
            IpcMessageError::NotExactlyOne => "a message must state exactly one of command, query and subscribe"@,
            IpcMessageError::RepeatedField => "a field must not occur more than once"@,
            IpcMessageError::CommandNotString => "command must be a string"@,
            IpcMessageError::QueryNotString => "query must be a string"@,
            IpcMessageError::TopicsNotStrings => "subscribe must be an array of strings"@,
        }
    }

    /// The text of the error.
    pub fn message(&self) -> (r: &'static str)
        ensures
            r@ == self.text(),
    {
        match *self {
            IpcMessageError::NotExactlyOne => "a message must state exactly one of command, query and subscribe",
            IpcMessageError::RepeatedField => "a field must not occur more than once",
            IpcMessageError::CommandNotString => "command must be a string",
            IpcMessageError::QueryNotString => "query must be a string",
            IpcMessageError::TopicsNotStrings => "subscribe must be an array of strings",
        }
    }
}

/// A message as a mathematical value.
pub enum MessageView {
    Command(Seq<char>, JsonValue),
    Query(Seq<char>, JsonValue),
    Subscribe(Seq<Seq<char>>),
}

impl View for IpcMessage {
    type V = MessageView;

    open spec fn view(&self) -> MessageView {
        match *self {
            IpcMessage::Command(c) => MessageView::Command(c.command@, c.args),
            IpcMessage::Query(q) => MessageView::Query(q.query@, q.args),
            IpcMessage::Subscribe(s) => MessageView::Subscribe(views(s.subscribe@)),
        }
    }
}

/// The `args` field, `null` when absent.
pub open spec fn args_of(fields: Seq<(String, JsonValue)>) -> JsonValue {
    match field_of(fields, "args"@) {
        Some(v) => v,
        None => JsonValue::Null,
    }
}

/// Whether every value is a string.
pub open spec fn all_strings(items: Seq<JsonValue>) -> bool {
    forall|i: int| 0 <= i < items.len() ==> #[trigger] items[i] is String
}

/// The texts of string values.
pub open spec fn string_texts(items: Seq<JsonValue>) -> Seq<Seq<char>> {
    items.map_values(|v: JsonValue| v->String_0@)
}

/// Whether a request and its arguments are each stated no more than once.
pub open spec fn stated_once(fields: Seq<(String, JsonValue)>, request: Seq<char>) -> bool {
    occurrences(fields, request) <= 1 && occurrences(fields, "args"@) <= 1
}

/// The message that the fields of an object state: exactly one of `command`,
/// `query` and `subscribe`, of the right type, and none of its fields twice.
pub open spec fn message_of_fields(fields: Seq<(String, JsonValue)>) -> Result<
    MessageView,
    IpcMessageError,
> {
    let c = field_of(fields, "command"@);
    let q = field_of(fields, "query"@);
    let s = field_of(fields, "subscribe"@);
    if c is Some && q is None && s is None {
        if !stated_once(fields, "command"@) {
            Err(IpcMessageError::RepeatedField)
        } else {
            match c->0 {
                JsonValue::String(name) => Ok(MessageView::Command(name@, args_of(fields))),
                _ => Err(IpcMessageError::CommandNotString),
            }
        }
    } else if c is None && q is Some && s is None {
        if !stated_once(fields, "query"@) {
            Err(IpcMessageError::RepeatedField)
        } else {
            match q->0 {
                JsonValue::String(name) => Ok(MessageView::Query(name@, args_of(fields))),
                _ => Err(IpcMessageError::QueryNotString),
            }
        }
    } else if c is None && q is None && s is Some {
        if occurrences(fields, "subscribe"@) > 1 {
            Err(IpcMessageError::RepeatedField)
        } else {
            match s->0 {
                JsonValue::Array(items) => if all_strings(items@) {
                    Ok(MessageView::Subscribe(string_texts(items@)))
                } else {
                    Err(IpcMessageError::TopicsNotStrings)
                },
                _ => Err(IpcMessageError::TopicsNotStrings),
            }
        }
    } else {
        Err(IpcMessageError::NotExactlyOne)
    }
}

/// The message that the items of an array state, without the names of the
/// fields: a command and perhaps its arguments, or the topics alone.
pub open spec fn message_of_items(items: Seq<JsonValue>) -> Result<MessageView, IpcMessageError> {
    if items.len() == 0 || items.len() > 2 {
        Err(IpcMessageError::NotExactlyOne)
    } else {
        match items[0] {
            JsonValue::String(name) => Ok(
                MessageView::Command(
                    name@,
                    if items.len() == 2 {
                        items[1]
                    } else {
                        JsonValue::Null
                    },
                ),
            ),
            JsonValue::Array(topics) => if items.len() == 1 {
                if all_strings(topics@) {
                    Ok(MessageView::Subscribe(string_texts(topics@)))
                } else {
                    Err(IpcMessageError::TopicsNotStrings)
                }
            } else {
                Err(IpcMessageError::NotExactlyOne)
            },
            _ => Err(IpcMessageError::NotExactlyOne),
        }
    }
}

/// The message that a JSON value states.
pub open spec fn message_of(value: JsonValue) -> Result<MessageView, IpcMessageError> {
    match value {
        JsonValue::Object(fields) => message_of_fields(fields@),
        JsonValue::Array(items) => message_of_items(items@),
        _ => Err(IpcMessageError::NotExactlyOne),
    }
}

/// The value of the `args` field, taken out of the object.
fn take_args(object: Vec<(String, JsonValue)>) -> (r: JsonValue)
    ensures
        r == args_of(object@),
{
    let mut fields = object;
    let ghost all = object@;
    let mut i: usize = 0;
    assert(all.skip(0) == all);
    while i < fields.len()
        invariant
            fields@ == all,
            all == object@,
            i <= all.len(),
            field_of(all, "args"@) == field_of(all.skip(i as int), "args"@),
        decreases all.len() - i,
    {
        assert(all.skip(i as int)[0] == all[i as int]);
        assert(all.skip(i as int).drop_first() == all.skip(i + 1));
        if str_eq(fields[i].0.as_str(), "args") {
            let (_, value) = fields.remove(i);
            return value;
        }
        i += 1;
    }
    JsonValue::Null
}

/// The texts of an array of strings.
fn strings_of(items: &Vec<JsonValue>) -> (r: Option<Vec<String>>)
    ensures
        match r {
            Some(texts) => all_strings(items@) && views(texts@) == string_texts(items@),
            None => !all_strings(items@),
        },
{
    let mut texts: Vec<String> = Vec::new();
    let mut i: usize = 0;
    while i < items.len()
        invariant
            i <= items@.len(),
            all_strings(items@.take(i as int)),
            views(texts@) == string_texts(items@.take(i as int)),
        decreases items@.len() - i,
    {
        match &items[i] {
            JsonValue::String(text) => {
                let ghost before = views(texts@);
                let ghost all = items@.take(i + 1);
                texts.push(text.clone());
                assert(views(texts@) == before.push(text@));
                assert(string_texts(all) == string_texts(items@.take(i as int)).push(text@));
                assert forall|k: int| 0 <= k < all.len() implies #[trigger] all[k] is String by {
                    if k < i {
                        assert(items@.take(i as int)[k] is String);
                    }
                }
            },
            _ => {
                assert(!(items@[i as int] is String));
                return None;
            },
        }
        i += 1;
    }
    assert(items@.take(items@.len() as int) == items@);
    Some(texts)
}

fn decode_fields(fields: Vec<(String, JsonValue)>) -> (r: Result<IpcMessage, IpcMessageError>)
    ensures
        match r {
            Ok(m) => message_of_fields(fields@) == Ok::<MessageView, IpcMessageError>(m@),
            Err(e) => message_of_fields(fields@) == Err::<MessageView, IpcMessageError>(e),
        },
{
    let command = field(&fields, "command");
    let query = field(&fields, "query");
    let subscribe = field(&fields, "subscribe");
    match (command, query, subscribe) {
        (Some(v), None, None) => {
            if is_repeated(&fields, "command") || is_repeated(&fields, "args") {
                return Err(IpcMessageError::RepeatedField);
            }
            match v {
                JsonValue::String(name) => {
                    let command = name.clone();
                    Ok(IpcMessage::Command(IpcCommand { command, args: take_args(fields) }))
                },
                _ => Err(IpcMessageError::CommandNotString),
            }
        },
        (None, Some(v), None) => {
            if is_repeated(&fields, "query") || is_repeated(&fields, "args") {
                return Err(IpcMessageError::RepeatedField);
            }
            match v {
                JsonValue::String(name) => {
                    let query = name.clone();
                    Ok(IpcMessage::Query(IpcQuery { query, args: take_args(fields) }))
                },
                _ => Err(IpcMessageError::QueryNotString),
            }
        },
        (None, None, Some(v)) => {
            if is_repeated(&fields, "subscribe") {
                return Err(IpcMessageError::RepeatedField);
            }
            match v {
                JsonValue::Array(items) => match strings_of(items) {
                    Some(subscribe) => Ok(IpcMessage::Subscribe(IpcSubscribe { subscribe })),
                    None => Err(IpcMessageError::TopicsNotStrings),
                },
                _ => Err(IpcMessageError::TopicsNotStrings),
            }
        },
        _ => Err(IpcMessageError::NotExactlyOne),
    }
}

fn decode_items(items: Vec<JsonValue>) -> (r: Result<IpcMessage, IpcMessageError>)
    ensures
        match r {
            Ok(m) => message_of_items(items@) == Ok::<MessageView, IpcMessageError>(m@),
            Err(e) => message_of_items(items@) == Err::<MessageView, IpcMessageError>(e),
        },
{
    let n: usize = items.len();
    if n == 0 || n > 2 {
        return Err(IpcMessageError::NotExactlyOne);
    }
    let mut rest = items;
    let first = rest.remove(0);
    match first {
        JsonValue::String(command) => {
            let args = if n == 2 { rest.remove(0) } else { JsonValue::Null };
            Ok(IpcMessage::Command(IpcCommand { command, args }))
        },
        JsonValue::Array(topics) => if n == 1 {
            match strings_of(&topics) {
                Some(subscribe) => Ok(IpcMessage::Subscribe(IpcSubscribe { subscribe })),
                None => Err(IpcMessageError::TopicsNotStrings),
            }
        } else {
            Err(IpcMessageError::NotExactlyOne)
        },
        _ => Err(IpcMessageError::NotExactlyOne),
    }
}

/// Reads a message. A value that states no request, or more than one, is
/// rejected rather than guessed at.
pub fn decode_message(value: JsonValue) -> (r: Result<IpcMessage, IpcMessageError>)
    ensures
        match r {
            Ok(m) => message_of(value) == Ok::<MessageView, IpcMessageError>(m@),
            Err(e) => message_of(value) == Err::<MessageView, IpcMessageError>(e),
        },
{
    match value {
        JsonValue::Object(fields) => decode_fields(fields),
        JsonValue::Array(items) => decode_items(items),
        _ => Err(IpcMessageError::NotExactlyOne),
    }
}

/// A command means the same as an array of its name and its arguments and as an
/// object with these fields.
pub proof fn arrays_and_objects_agree(
    name: String,
    args: JsonValue,
    fields: Vec<(String, JsonValue)>,
    items: Vec<JsonValue>,
)
    requires
        fields@.len() == 2,
        fields@[0].0@ == "command"@,
        fields@[0].1 == JsonValue::String(name),
        fields@[1].0@ == "args"@,
        fields@[1].1 == args,
        items@ == seq![JsonValue::String(name), args],
    ensures
        message_of(JsonValue::Object(fields)) == message_of(JsonValue::Array(items)),
        message_of(JsonValue::Array(items)) == Ok::<MessageView, IpcMessageError>(
            MessageView::Command(name@, args),
        ),
{
    let f = fields@;
    reveal_strlit("command");
    reveal_strlit("args");
    reveal_strlit("query");
    reveal_strlit("subscribe");
    assert("command"@.len() == 7 && "args"@.len() == 4 && "query"@.len() == 5 && "subscribe"@.len()
        == 9);
    reveal_with_fuel(field_of, 4);
    reveal_with_fuel(occurrences, 4);
    assert(f.drop_first() =~= seq![f[1]]);
    assert(f.drop_first().drop_first() =~= Seq::empty());
    assert(f.drop_last() =~= seq![f[0]]);
    assert(f.drop_last().drop_last() =~= Seq::empty());
}

/// Whatever fields an object has besides, it states the one request whose field
/// it has, by the text of that field and the value of `args`.
pub proof fn objects_state_their_request(fields: Seq<(String, JsonValue)>)
    ensures
        match message_of_fields(fields) {
            Ok(MessageView::Command(name, args)) => {
                &&& field_of(fields, "command"@) is Some
                &&& field_of(fields, "command"@)->0 is String
                &&& field_of(fields, "command"@)->0->String_0@ == name
                &&& field_of(fields, "query"@) is None
                &&& field_of(fields, "subscribe"@) is None
                &&& field_of(fields, "args"@) is Some ==> args == field_of(fields, "args"@)->0
                &&& field_of(fields, "args"@) is None ==> args is Null
            },
            Ok(MessageView::Query(name, args)) => {
                &&& field_of(fields, "query"@) is Some
                &&& field_of(fields, "query"@)->0 is String
                &&& field_of(fields, "query"@)->0->String_0@ == name
                &&& field_of(fields, "command"@) is None
                &&& field_of(fields, "subscribe"@) is None
                &&& field_of(fields, "args"@) is Some ==> args == field_of(fields, "args"@)->0
                &&& field_of(fields, "args"@) is None ==> args is Null
            },
            Ok(MessageView::Subscribe(topics)) => {
                &&& field_of(fields, "subscribe"@) is Some
                &&& field_of(fields, "subscribe"@)->0 is Array
                &&& ({
                    let items = field_of(fields, "subscribe"@)->0->Array_0@;
                    &&& topics.len() == items.len()
                    &&& forall|i: int|
                        0 <= i < items.len() ==> (#[trigger] items[i]) is String && topics[i]
                            == items[i]->String_0@
                })
                &&& field_of(fields, "command"@) is None
                &&& field_of(fields, "query"@) is None
            },
            Err(_) => true,
        },
{
}

} // verus!
