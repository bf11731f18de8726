//! Messages, commands and queries.
use jwm::actions::WMArgEnum;
use jwm::catalog::LayoutEnum;
use jwm::commands::{dispatch_command, is_known_command, layout_by_protocol_name};
use jwm::ieee::{F32, F64};
use jwm::ipc::{
    IpcCommand, IpcMessage, IpcMessageError, IpcQuery, IpcResponse, RuntimeHealth,
    RuntimeHealthStatus, decode_message, ipc_capabilities, ipc_registry, is_supported_query,
};
use jwm::ipc_server::{IpcClient, ReadStep};
use jwm::json::{JsonNumber, JsonValue};

fn single(x: f32) -> F32 {
    F32 { bits: x.to_bits() }
}

fn value_of(value: &serde_json::Value) -> JsonValue {
    match value {
        serde_json::Value::Null => JsonValue::Null,
        serde_json::Value::Bool(b) => JsonValue::Bool(*b),
        serde_json::Value::Number(n) => {
            let wide = n.as_f64().unwrap();
            JsonValue::Number(JsonNumber {
                signed: n.as_i64(),
                unsigned: n.as_u64(),
                wide: F64 {
                    bits: wide.to_bits(),
                },
                single: single(wide as f32),
            })
        }
        serde_json::Value::String(s) => JsonValue::String(s.clone()),
        serde_json::Value::Array(items) => JsonValue::Array(items.iter().map(value_of).collect()),
        serde_json::Value::Object(fields) => JsonValue::Object(
            fields
                .iter()
                .map(|(key, value)| (key.clone(), value_of(value)))
                .collect(),
        ),
    }
}

fn json(text: &str) -> JsonValue {
    value_of(&serde_json::from_str(text).unwrap())
}

#[test]
fn parse_command_message() {
    let msg = decode_message(json(r#"{"command": "view", "args": {"tag": 2}}"#)).unwrap();
    assert!(
        matches!(msg, IpcMessage::Command(IpcCommand { command, .. }) if command == "view")
    );
}

#[test]
fn parse_query_message() {
    let msg = decode_message(json(r#"{"query": "get_windows"}"#)).unwrap();
    assert!(matches!(msg, IpcMessage::Query(IpcQuery { query, .. }) if query == "get_windows"));
}

#[test]
fn parse_subscribe_message() {
    let msg = decode_message(json(r#"{"subscribe": ["window", "tag"]}"#)).unwrap();
    match msg {
        IpcMessage::Subscribe(sub) => {
            assert_eq!(sub.subscribe, vec!["window", "tag"]);
        }
        _ => panic!("expected Subscribe"),
    }
}

#[test]
fn ambiguous_wire_message_is_rejected_without_dispatching_a_command() {
    let mut client = IpcClient::new();
    let (messages, step) = client.begin_read(64);
    assert!(messages.is_empty());
    assert!(matches!(step, ReadStep::Read));
    assert!(client.receive(b"{\"command\":\"quit\",\"query\":\"get_version\"}\n"));
    let lines = client.finish_read(messages, 64).unwrap();
    assert_eq!(lines.len(), 1);

    let error = match decode_message(json(&lines[0])) {
        Ok(_) => panic!("ambiguous message unexpectedly accepted"),
        Err(error) => error,
    };
    let response = IpcResponse::err(&format!("parse error: {}", error.message()));
    assert!(!response.success);
    let said = response.error.unwrap();
    assert!(said.contains("exactly one"), "{said}");
}

#[test]
fn capabilities_are_sorted_without_repetition() {
    let capabilities = ipc_capabilities();
    for names in [
        &capabilities.commands,
        &capabilities.queries,
        &capabilities.subscription_topics,
    ] {
        assert!(names.windows(2).all(|pair| pair[0] < pair[1]));
    }
    assert!(!capabilities.commands.contains(&"toggle_slime"));
}

#[test]
fn dispatch_known_commands() {
    // view
    let args = json(r#"{"tag": 4}"#);
    let (_, arg) = dispatch_command("view", &args).unwrap();
    assert_eq!(arg, WMArgEnum::UInt(4));

    // focusstack
    let args = json(r#"{"value": -1}"#);
    let (_, arg) = dispatch_command("focusstack", &args).unwrap();
    assert_eq!(arg, WMArgEnum::Int(-1));

    // setmfact
    let args = json("0.05");
    let (_, arg) = dispatch_command("setmfact", &args).unwrap();
    assert_eq!(arg, WMArgEnum::Float(single(0.05)));

    // killclient (no args)
    let args = json("null");
    let (_, arg) = dispatch_command("killclient", &args).unwrap();
    assert_eq!(arg, WMArgEnum::Int(0));

    // display layout modal
    let (_, arg) = dispatch_command("monitor_layout", &args).unwrap();
    assert_eq!(arg, WMArgEnum::Int(0));

    // The old name remains accepted only as a migration alias.
    let (canonical, _) =
        dispatch_command("toggle_waterlily", &JsonValue::Null).unwrap();
    let (deprecated, _) = dispatch_command("toggle_slime", &JsonValue::Null).unwrap();
    assert_eq!(canonical, deprecated);
}

#[test]
fn dispatch_unknown_command_errors() {
    let args = json("null");
    assert!(dispatch_command("nonexistent", &args).is_err());
    assert!(!is_known_command("nonexistent"));
    assert!(is_known_command("focusstack"));
    assert!(
        is_known_command("spawn"),
        "argument validation must not make a known command look unknown"
    );
}

#[test]
fn dispatch_spawn_command() {
    let args = json(r#"{"cmd": ["alacritty", "--title", "test"]}"#);
    let (_, arg) = dispatch_command("spawn", &args).unwrap();
    assert_eq!(
        arg,
        WMArgEnum::StringVec(vec!["alacritty".into(), "--title".into(), "test".into()])
    );

    let (_, arg) = dispatch_command("spawn", &json(r#""alacritty""#)).unwrap();
    assert_eq!(arg, WMArgEnum::StringVec(vec!["alacritty".into()]));
}

#[test]
fn dispatch_spawn_rejects_empty_or_non_string_commands() {
    for args in [
        json("[]"),
        json(r#"{"cmd": []}"#),
        json("[1]"),
        json(r#"["alacritty", 1]"#),
        json(r#"{"cmd": [false]}"#),
        json(r#""""#),
        json(r#"{"cmd": ["   "]}"#),
    ] {
        let error = dispatch_command("spawn", &args)
            .unwrap_err()
            .message("spawn", "a value");
        assert!(error.starts_with("spawn:"), "unexpected error: {error}");
    }
}

#[test]
fn optional_string_vector_commands_default_only_when_omitted() {
    let (_, arg) = dispatch_command("togglescratchpad", &JsonValue::Null).unwrap();
    assert_eq!(arg, WMArgEnum::StringVec(vec!["term".into()]));

    let (_, arg) = dispatch_command("focus_tab", &json("{}")).unwrap();
    assert_eq!(arg, WMArgEnum::StringVec(vec!["0".into(), "0".into()]));

    assert!(dispatch_command("togglescratchpad", &json(r#"{"bad": 1}"#)).is_err());
    assert!(dispatch_command("focus_tab", &json(r#"["0", 1]"#)).is_err());
}

#[test]
fn integer_arguments_reject_wrong_types_and_overflow() {
    for args in [
        json(r#""1""#),
        json("1.5"),
        json(r#"{"value": false}"#),
        json(r#"{"unexpected": 1}"#),
        json(&(i64::from(i32::MAX) + 1).to_string()),
        json(&(i64::from(i32::MIN) - 1).to_string()),
    ] {
        assert!(
            dispatch_command("focusstack", &args).is_err(),
            "accepted invalid integer argument: {args:?}"
        );
    }

    let (_, arg) = dispatch_command("focusstack", &json(&i32::MAX.to_string())).unwrap();
    assert_eq!(arg, WMArgEnum::Int(i32::MAX));
    let (_, arg) = dispatch_command("focusstack", &json(&format!("{{\"v\": {}}}", i32::MIN))).unwrap();
    assert_eq!(arg, WMArgEnum::Int(i32::MIN));
}

#[test]
fn omitted_integer_arguments_keep_existing_defaults() {
    let (_, arg) = dispatch_command("focusstack", &JsonValue::Null).unwrap();
    assert_eq!(arg, WMArgEnum::Int(1));
    let (_, arg) = dispatch_command("killclient", &json("{}")).unwrap();
    assert_eq!(arg, WMArgEnum::Int(0));
    let (_, arg) = dispatch_command("focusstack", &json(r#"{"value": null}"#)).unwrap();
    assert_eq!(arg, WMArgEnum::Int(1));
}

#[test]
fn float_arguments_reject_wrong_types_and_non_f32_values() {
    for args in [
        json(r#""0.1""#),
        json(r#"{"value": true}"#),
        json(r#"{"unexpected": 0.1}"#),
        json("1.0e100"),
        json("-1.0e100"),
    ] {
        assert!(
            dispatch_command("setmfact", &args).is_err(),
            "accepted invalid float argument: {args:?}"
        );
    }

    let (_, arg) = dispatch_command("setmfact", &json(r#"{"value": 1}"#)).unwrap();
    assert_eq!(arg, WMArgEnum::Float(single(1.0)));
    let (_, arg) = dispatch_command("setmfact", &JsonValue::Null).unwrap();
    assert_eq!(arg, WMArgEnum::Float(single(0.0)));
}

#[test]
fn tag_arguments_reject_wrong_types_negative_values_and_overflow() {
    for args in [
        json(r#""2""#),
        json("-1"),
        json("2.5"),
        json(r#"{"tag": false}"#),
        json(r#"{"unexpected": 2}"#),
        json(&(u64::from(u32::MAX) + 1).to_string()),
    ] {
        assert!(
            dispatch_command("view", &args).is_err(),
            "accepted invalid tag argument: {args:?}"
        );
    }

    let (_, arg) = dispatch_command("view", &json(&format!("{{\"tag\": {}}}", u32::MAX))).unwrap();
    assert_eq!(arg, WMArgEnum::UInt(u32::MAX));
    let (_, arg) = dispatch_command("view", &JsonValue::Null).unwrap();
    assert_eq!(arg, WMArgEnum::UInt(0));
}

#[test]
fn dispatch_layout_command() {
    let args = json(r#"{"layout": "monocle"}"#);
    let result = dispatch_command("setlayout", &args);
    assert!(result.is_ok());
    let (_, arg) = result.unwrap();
    assert!(matches!(arg, WMArgEnum::Layout(_)));
}

#[test]
fn layout_arguments_default_only_when_omitted_and_reject_invalid_shapes() {
    for args in [JsonValue::Null, json("{}")] {
        let (_, arg) = dispatch_command("setlayout", &args).unwrap();
        let WMArgEnum::Layout(layout) = arg else {
            panic!("expected layout argument");
        };
        assert_eq!(layout, LayoutEnum::TILE);
    }

    for args in [
        json(r#"{"layuot": "monocle"}"#),
        json("7"),
        json("[]"),
        json(r#"{"layout": ""}"#),
        json(r#"{"layout": false}"#),
    ] {
        assert!(
            dispatch_command("setlayout", &args).is_err(),
            "accepted invalid layout argument: {args:?}"
        );
    }
}

#[test]
fn dispatch_scrolling_layout_command() {
    let args = json(r#"{"layout": "scrolling"}"#);
    let result = dispatch_command("setlayout", &args);
    assert!(result.is_ok());
    let (_, arg) = result.unwrap();
    let WMArgEnum::Layout(layout) = arg else {
        panic!("expected layout arg");
    };
    assert_eq!(layout, LayoutEnum::SCROLLING);
}

#[test]
fn dispatch_scrolling_navigation_commands() {
    let args = json(r#"{"value": -1}"#);
    for command in [
        "scrolling_focus_column",
        "scrolling_move_column",
        "scrolling_focus_window",
        "scrolling_consume",
        "scrolling_expel",
    ] {
        let (_, arg) = dispatch_command(command, &args).unwrap();
        assert!(matches!(arg, WMArgEnum::Int(-1)));
    }
}

#[test]
fn registry_dispatch_commands_are_all_bindable() {
    for command in ipc_registry().dispatch_commands {
        assert!(
            is_known_command(command),
            "registry contains non-dispatch command {command:?}"
        );
    }
}

#[test]
fn capabilities_include_special_commands_queries_and_topics() {
    let capabilities = ipc_capabilities();
    assert_eq!(capabilities.schema_version, 1);
    assert!(
        capabilities
            .commands
            .iter()
            .any(|name| *name == "focusstack")
    );
    assert!(
        capabilities
            .commands
            .iter()
            .any(|name| *name == "reload_config")
    );
    assert!(
        capabilities
            .commands
            .iter()
            .any(|name| *name == "start_recording")
    );
    assert!(
        capabilities
            .commands
            .iter()
            .any(|name| *name == "toggle_waterlily")
    );
    assert!(
        !capabilities
            .commands
            .iter()
            .any(|name| *name == "toggle_slime"),
        "deprecated aliases must not be advertised"
    );
    assert!(capabilities.queries.iter().any(|name| *name == "get_status"));
    assert!(
        capabilities
            .queries
            .iter()
            .any(|name| *name == "get_capabilities")
    );
    assert!(
        capabilities
            .subscription_topics
            .iter()
            .any(|name| *name == "window")
    );
    assert!(is_supported_query("benchmark_report"));
    assert!(!is_supported_query("not_a_query"));
}

#[test]
fn a_message_names_exactly_one_thing() {
    for text in [
        r#"{"command": "quit", "query": "get_version"}"#,
        r#"{"args": {}}"#,
        "[]",
        "null",
    ] {
        assert!(matches!(
            decode_message(json(text)),
            Err(IpcMessageError::NotExactlyOne)
        ));
    }
    assert!(IpcMessageError::NotExactlyOne.message().contains("exactly one"));
    assert!(matches!(
        decode_message(json(r#"{"command": 3}"#)),
        Err(IpcMessageError::CommandNotString)
    ));
    assert!(matches!(
        decode_message(json(r#"{"query": null}"#)),
        Err(IpcMessageError::QueryNotString)
    ));
    assert!(matches!(
        decode_message(json(r#"{"subscribe": ["a", 1]}"#)),
        Err(IpcMessageError::TopicsNotStrings)
    ));
}

#[test]
fn a_message_may_be_an_array_of_its_values() {
    for (text, with_args) in [
        (r#"["quit"]"#, false),
        (r#"["quit", null]"#, false),
        (r#"["quit", 3]"#, true),
    ] {
        let Ok(IpcMessage::Command(command)) = decode_message(json(text)) else {
            panic!("expected a command: {text}");
        };
        assert_eq!(command.command, "quit");
        assert_eq!(matches!(command.args, JsonValue::Number(_)), with_args);
    }
    for (text, topics) in [(r#"[["a", "b"]]"#, vec!["a", "b"]), ("[[]]", vec![])] {
        let Ok(IpcMessage::Subscribe(asked)) = decode_message(json(text)) else {
            panic!("expected a subscription: {text}");
        };
        assert_eq!(asked.subscribe, topics);
    }
    for text in ["[]", "[3]", r#"["quit", null, 1]"#, r#"[["a"], 1]"#, "[{}]"] {
        assert!(matches!(
            decode_message(json(text)),
            Err(IpcMessageError::NotExactlyOne)
        ));
    }
    assert!(matches!(
        decode_message(json("[[1]]")),
        Err(IpcMessageError::TopicsNotStrings)
    ));
}

fn object(fields: &[(&str, &str)]) -> JsonValue {
    JsonValue::Object(
        fields
            .iter()
            .map(|(name, value)| (name.to_string(), json(value)))
            .collect(),
    )
}

#[test]
fn a_field_of_a_message_occurs_once() {
    for fields in [
        vec![("command", r#""quit""#), ("command", r#""view""#)],
        vec![("command", r#""quit""#), ("args", "1"), ("args", "1")],
        vec![("query", r#""a""#), ("query", r#""a""#)],
        vec![("args", "1"), ("query", r#""a""#), ("args", "2")],
        vec![("subscribe", "[]"), ("subscribe", "[]")],
    ] {
        assert!(matches!(
            decode_message(object(&fields)),
            Err(IpcMessageError::RepeatedField)
        ));
    }
    // What a message does not read may occur as often as it likes.
    assert!(matches!(
        decode_message(object(&[("subscribe", "[]"), ("args", "1"), ("args", "2")])),
        Ok(IpcMessage::Subscribe(_))
    ));
    assert!(matches!(
        decode_message(object(&[("id", "1"), ("command", r#""quit""#), ("id", "2")])),
        Ok(IpcMessage::Command(_))
    ));
    assert!(IpcMessageError::RepeatedField.message().contains("more than once"));
}

#[test]
fn missing_arguments_read_as_null() {
    let Ok(IpcMessage::Command(command)) = decode_message(json(r#"{"command": "quit"}"#)) else {
        panic!("expected a command");
    };
    assert!(matches!(command.args, JsonValue::Null));
}

#[test]
fn layout_names_are_read_without_regard_to_case() {
    let args = json(r#"{"layout": "CENTERED_Master"}"#);
    let (_, arg) = dispatch_command("setlayout", &args).unwrap();
    assert_eq!(arg, WMArgEnum::Layout(LayoutEnum::CENTERED_MASTER));
    assert_eq!(layout_by_protocol_name("v_stack"), Some(LayoutEnum::VSTACK));
    assert_eq!(layout_by_protocol_name("V_STACK"), None);
}

#[test]
fn refusals_say_what_was_wanted() {
    let args = json("2.5");
    let error = dispatch_command("view", &args).unwrap_err();
    assert_eq!(
        error.message("view", "2.5"),
        "expected a non-negative integer tag mask, got 2.5"
    );
    let nothing = JsonValue::Null;
    let unknown = dispatch_command("nonexistent", &nothing).unwrap_err();
    assert!(unknown.message("nonexistent", "").contains("nonexistent"));
}

#[test]
fn health_follows_the_reasons() {
    assert_eq!(
        RuntimeHealth::from_reasons(Vec::new()).status,
        RuntimeHealthStatus::Healthy
    );
    let degraded = RuntimeHealth::from_reasons(vec!["slow".to_string()]);
    assert_eq!(degraded.status, RuntimeHealthStatus::Degraded);
    assert_eq!(degraded.reasons, ["slow"]);
}

#[test]
fn responses_carry_data_or_an_error() {
    let ok = IpcResponse::ok(Some(json("1")));
    assert!(ok.success && ok.data.is_some() && ok.error.is_none());
    let refused = IpcResponse::err("bad command");
    assert!(!refused.success && refused.data.is_none());
    assert_eq!(refused.error.as_deref(), Some("bad command"));
}
