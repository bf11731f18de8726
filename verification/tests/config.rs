//! The configuration: what is built in, how bindings are read, what is
//! checked, and what may be changed while running.
use jwm::actions::{Mods, WMArgEnum};
use jwm::config::access::{
    MAX_CURSOR_SIZE, config_file_name, resolve_cursor_size, scene_linear_render_path_requested,
};
use jwm::config::bindings::{
    canonical_modifier, key_function_is_repeatable, migrate_legacy_terminal_argument,
};
use jwm::config::defaults::STATUS_BAR_NAME;
use jwm::config::diagnostics::{ConfigDiagnosticLevel, ConfigDiagnostics};
use jwm::config::files::{LinkProbe, LinkStep, MAX_SYMLINK_DEPTH, link_step, temporary_name};
use jwm::config::literals::toml_string_literal;
use jwm::config::{
    ArgumentConfig, BackendFamily, ButtonConfig, ClientMoveResize, Config, GestureSwipeConfig,
    KeyConfig, LayoutTagConfig, NewClientPosition, WallpaperMonitorConfig, WallpaperTagConfig,
};
use jwm::ieee::{F32, F64};
use jwm::json::{JsonNumber, JsonValue};
use jwm::message::{Fragment, Message};
use jwm::terminals::{
    EnvValue, TerminalOverrideError, configured_scratchpad_terminal,
    configured_terminal_execution_prefix, keeps_its_process, known_terminals,
    parse_terminal_override, runs_commands,
};

fn single(x: f32) -> F32 {
    F32 { bits: x.to_bits() }
}

fn env(value: &str) -> EnvValue {
    EnvValue::Text(value.to_string())
}

fn number(value: i64) -> JsonValue {
    JsonValue::Number(JsonNumber {
        signed: Some(value),
        unsigned: u64::try_from(value).ok(),
        wide: F64 {
            bits: (value as f64).to_bits(),
        },
        single: single(value as f32),
    })
}

fn fraction(value: f64) -> JsonValue {
    JsonValue::Number(JsonNumber {
        signed: None,
        unsigned: None,
        wide: F64 {
            bits: value.to_bits(),
        },
        single: single(value as f32),
    })
}

fn text(value: &str) -> JsonValue {
    JsonValue::String(value.to_string())
}

fn built_in() -> Config {
    Config::built_in(vec!["frost".to_string()], String::new())
}

fn diagnose(config: &Config) -> ConfigDiagnostics {
    let factors = config
        .width_factor_texts()
        .iter()
        .map(|text| {
            text.as_ref()
                .and_then(|text| text.parse::<f32>().ok())
                .map(single)
        })
        .collect();
    config.diagnostics(&factors)
}

fn plain(message: &Message) -> String {
    message
        .parts
        .iter()
        .map(|part| match part {
            Fragment::Text(text) => text.clone(),
            Fragment::Quoted(text) => format!("{text:?}"),
            Fragment::Single(value) => f32::from_bits(value.bits).to_string(),
            Fragment::Double(value) => f64::from_bits(value.bits).to_string(),
        })
        .collect()
}

fn layout_tag(tag: usize, monitor: i32, layout: &str) -> LayoutTagConfig {
    LayoutTagConfig {
        tag,
        monitor,
        layout: layout.to_owned(),
        alt: "tile".to_owned(),
        n_master: Some(2),
        m_fact: Some(single(0.62)),
        gap: Some(8),
    }
}

fn saved(existing: &str, entries: &[LayoutTagConfig]) -> String {
    let facts: Vec<String> = entries
        .iter()
        .map(|entry| {
            entry
                .m_fact
                .map(|fact| format!("{:?}", f32::from_bits(fact.bits)))
                .unwrap_or_default()
        })
        .collect();
    Config::replace_layout_tag_blocks(existing, entries, &facts)
}

#[test]
fn built_in_configuration_has_no_semantic_diagnostics() {
    let diagnostics = diagnose(&built_in());
    assert!(diagnostics.is_empty(), "{diagnostics:?}");
}

#[test]
fn scene_linear_render_path_requires_both_config_gates() {
    assert!(!scene_linear_render_path_requested(false, false));
    assert!(!scene_linear_render_path_requested(false, true));
    assert!(!scene_linear_render_path_requested(true, false));
    assert!(scene_linear_render_path_requested(true, true));
}

#[test]
fn generated_legacy_terminal_commands_migrate_without_rewriting_other_arguments() {
    let migrated = migrate_legacy_terminal_argument(
        "spawn",
        WMArgEnum::StringVec(vec!["jterm4".into(), "--profile".into()]),
    );
    assert_eq!(
        migrated,
        WMArgEnum::StringVec(vec!["frost".into(), "--profile".into()])
    );

    let scratchpad = migrate_legacy_terminal_argument(
        "togglescratchpad",
        WMArgEnum::StringVec(vec![
            "term".into(),
            "jterm1".into(),
            "--safe-mode".into(),
        ]),
    );
    assert_eq!(
        scratchpad,
        WMArgEnum::StringVec(vec![
            "term".into(),
            "forge".into(),
            "--safe-mode".into(),
        ])
    );

    let explicit_path = WMArgEnum::StringVec(vec!["/opt/jterm4".into()]);
    assert_eq!(
        migrate_legacy_terminal_argument("spawn", explicit_path.clone()),
        explicit_path
    );
}

#[test]
fn terminal_override_parsing_preserves_safe_argv_boundaries() {
    assert_eq!(parse_terminal_override(&EnvValue::Unset), Ok(None));
    assert_eq!(parse_terminal_override(&env("   ")), Ok(None));
    assert_eq!(
        parse_terminal_override(&env("\"\" --profile tools")),
        Err(TerminalOverrideError::EmptyProgram)
    );
    assert!(parse_terminal_override(&env("'   '")).is_err());
    assert_eq!(
        parse_terminal_override(&env("custom-terminal --profile 'Focused work'")),
        Ok(Some(vec![
            "custom-terminal".into(),
            "--profile".into(),
            "Focused work".into(),
        ]))
    );
    assert!(parse_terminal_override(&env("terminal 'unfinished")).is_err());
    assert_eq!(
        TerminalOverrideError::EmptyProgram.message(),
        "command program is empty"
    );
    assert_eq!(
        parse_terminal_override(&EnvValue::NotUtf8),
        Err(TerminalOverrideError::NotUtf8)
    );
}

#[test]
fn terminal_execution_prefix_uses_declared_capabilities() {
    assert_eq!(
        configured_terminal_execution_prefix(vec!["gnome-terminal".into()]),
        Some(vec!["gnome-terminal".into(), "--".into()])
    );
    assert_eq!(
        configured_terminal_execution_prefix(vec!["terminator".into()]),
        Some(vec!["terminator".into(), "-x".into()])
    );
    assert_eq!(
        configured_terminal_execution_prefix(vec!["frost".into()]),
        None
    );
    assert_eq!(
        configured_terminal_execution_prefix(vec![
            "custom-terminal".into(),
            "--profile".into(),
            "work".into(),
        ]),
        Some(vec![
            "custom-terminal".into(),
            "--profile".into(),
            "work".into(),
            "-e".into(),
        ])
    );
}

#[test]
fn scratchpad_override_rejects_known_pid_unstable_terminals() {
    assert_eq!(
        configured_scratchpad_terminal(vec!["gnome-terminal".into()]),
        None
    );
    assert_eq!(
        configured_scratchpad_terminal(vec!["frost".into(), "--profile".into()]),
        Some(vec!["frost".into(), "--profile".into()])
    );
    assert_eq!(
        configured_scratchpad_terminal(vec!["custom-terminal".into(), "--safe".into()]),
        Some(vec!["custom-terminal".into(), "--safe".into()])
    );
}

#[test]
fn string_spawn_bindings_are_parsed_as_argv_instead_of_one_program_name() {
    let config = built_in();
    let binding = KeyConfig {
        modifier: vec!["Mod1".into()],
        key: "F8".into(),
        function: "spawn".into(),
        argument: ArgumentConfig::String("custom-terminal --profile 'Focused work'".into()),
    };
    let runtime = config.convert_key_config(&binding).expect("valid binding");
    assert_eq!(
        runtime.arg,
        WMArgEnum::StringVec(vec![
            "custom-terminal".into(),
            "--profile".into(),
            "Focused work".into(),
        ])
    );

    let button = ButtonConfig {
        click_type: "ClkRootWin".into(),
        modifier: vec![],
        button: 3,
        function: "spawn".into(),
        argument: ArgumentConfig::String("launcher --label 'Mouse menu'".into()),
    };
    let runtime = config
        .convert_button_config(&button)
        .expect("valid button binding");
    assert_eq!(
        runtime.arg,
        WMArgEnum::StringVec(vec![
            "launcher".into(),
            "--label".into(),
            "Mouse menu".into(),
        ])
    );

    let mut malformed = binding;
    malformed.argument = ArgumentConfig::String("terminal 'unfinished".into());
    assert!(config.convert_key_config(&malformed).is_none());
    let mut malformed_config = built_in();
    malformed_config.inner.keybindings.keys = vec![malformed];
    assert!(diagnose(&malformed_config).has_errors());
}

#[test]
fn waterlily_binding_and_migration_alias_resolve_to_the_canonical_action() {
    let config = built_in();
    assert!(
        config
            .inner
            .keybindings
            .keys
            .iter()
            .any(|key| key.function == "toggle_waterlily")
    );
    assert!(
        !config
            .inner
            .keybindings
            .keys
            .iter()
            .any(|key| key.function == "toggle_slime")
    );

    let canonical = config.parse_function("toggle_waterlily").unwrap();
    let deprecated = config.parse_function("toggle_slime").unwrap();
    assert_eq!(canonical, deprecated);
}

#[test]
fn built_in_status_bar_matches_installer_default() {
    let expected = format!("JWM_BAR_NAME=\"{STATUS_BAR_NAME}\"");
    assert_eq!(expected, "JWM_BAR_NAME=\"tao_pixels_bar\"");
    assert_eq!(built_in().status_bar_name(), STATUS_BAR_NAME);
}

#[test]
fn duplicate_shortcut_is_reported_as_unreachable() {
    let mut config = built_in();
    let first = config.inner.keybindings.keys[0].clone();
    config.inner.keybindings.keys.push(first);

    let diagnostics = diagnose(&config);
    assert!(diagnostics.issues().iter().any(|issue| {
        issue.level == ConfigDiagnosticLevel::Warning
            && issue.path.contains("keybindings.keys")
            && plain(&issue.message).contains("unreachable")
    }));
}

#[test]
fn semantic_validation_preserves_supported_compact_spawn_syntax() {
    let mut config = built_in();
    let spawn = config
        .inner
        .keybindings
        .keys
        .iter_mut()
        .find(|binding| binding.function == "spawn")
        .unwrap();
    spawn.argument = ArgumentConfig::String("alacritty".into());
    config.inner.behavior.shadow_enabled = false;
    config.inner.behavior.shadow_radius = single(0.0);
    config.inner.behavior.magnifier_enabled = false;
    config.inner.behavior.magnifier_radius = single(0.0);
    config.inner.behavior.magnifier_zoom = single(0.0);

    let diagnostics = diagnose(&config);
    assert!(!diagnostics.has_errors(), "{diagnostics:?}");
}

#[test]
fn semantic_validation_keeps_degradable_features_non_blocking() {
    let mut config = built_in();
    config.inner.status_bar.show_bar = false;
    config.inner.appearance.status_bar_height = 0;
    config.inner.behavior.vrr_enabled = false;
    config.inner.behavior.vrr_min_fps = 0;
    config.inner.behavior.vrr_max_fps = 0;
    config.inner.behavior.recording_fps = 0;
    config.inner.behavior.audio_recording_sample_rate = 0;
    config.inner.behavior.audio_recording_channels = 0;

    let diagnostics = diagnose(&config);
    assert!(!diagnostics.has_errors(), "{diagnostics:?}");
    assert!(diagnostics.warning_count() >= 3, "{diagnostics:?}");
}

#[test]
fn semantic_validation_bounds_compositor_effect_work_and_durations() {
    let mut config = built_in();
    config.inner.behavior.fading = true;
    config.inner.behavior.ripple_on_open = true;
    config.inner.behavior.particle_effects = true;
    config.inner.behavior.genie_minimize = true;
    config.inner.behavior.fade_in_step = single(0.0);
    config.inner.behavior.fade_out_step = single(0.0);
    config.inner.behavior.ripple_duration = single(0.0);
    config.inner.behavior.particle_lifetime = single(f32::NAN);
    config.inner.behavior.genie_duration_ms = 0;
    config.inner.behavior.wobbly_grid_size = u32::MAX;
    config.inner.behavior.motion_trail_frames = u32::MAX;
    config.inner.behavior.particle_count = u32::MAX;

    let diagnostics = diagnose(&config);
    for path in [
        "behavior.fade_in_step",
        "behavior.fade_out_step",
        "behavior.ripple_duration",
        "behavior.particle_lifetime",
        "behavior.genie_duration_ms",
    ] {
        assert!(
            diagnostics.issues().iter().any(|issue| {
                issue.level == ConfigDiagnosticLevel::Error && issue.path == path
            }),
            "missing error for {path}: {diagnostics:?}"
        );
    }
    for path in [
        "behavior.wobbly_grid_size",
        "behavior.motion_trail_frames",
        "behavior.particle_count",
    ] {
        assert!(
            diagnostics.issues().iter().any(|issue| {
                issue.level == ConfigDiagnosticLevel::Warning && issue.path == path
            }),
            "missing clamp warning for {path}: {diagnostics:?}"
        );
    }
}

#[test]
fn disabled_compositor_effects_accept_zero_durations() {
    let mut config = built_in();
    config.inner.behavior.particle_effects = false;
    config.inner.behavior.particle_lifetime = single(0.0);
    config.inner.behavior.ripple_on_open = false;
    config.inner.behavior.ripple_duration = single(0.0);
    config.inner.behavior.genie_minimize = false;
    config.inner.behavior.genie_duration_ms = 0;
    config.inner.behavior.focus_highlight = false;
    config.inner.behavior.focus_highlight_duration_ms = 0;
    config.inner.behavior.wallpaper_crossfade = false;
    config.inner.behavior.wallpaper_crossfade_duration_ms = 0;

    let diagnostics = diagnose(&config);
    assert!(!diagnostics.has_errors(), "{diagnostics:?}");
}

#[test]
fn semantic_validation_matches_case_insensitive_runtime_choices() {
    let mut config = built_in();
    config.inner.behavior.wallpaper_mode = "Fill".into();
    config
        .inner
        .behavior
        .wallpaper_monitors
        .push(WallpaperMonitorConfig {
            monitor: 0,
            path: String::new(),
            mode: "FIT".into(),
        });
    config
        .inner
        .behavior
        .wallpaper_tags
        .push(WallpaperTagConfig {
            tag: 0,
            monitor: -1,
            path: String::new(),
            mode: "Center".into(),
        });
    config
        .inner
        .behavior
        .gesture_swipe
        .push(GestureSwipeConfig {
            fingers: 3,
            direction: "Left".into(),
            function: "loopview".into(),
            argument: ArgumentConfig::Int(1),
        });

    let diagnostics = diagnose(&config);
    assert!(diagnostics.is_empty(), "{diagnostics:?}");
}

#[test]
fn unknown_gesture_command_is_a_non_blocking_warning() {
    let mut config = built_in();
    config
        .inner
        .behavior
        .gesture_swipe
        .push(GestureSwipeConfig {
            fingers: 3,
            direction: "left".into(),
            function: "typo_command".into(),
            argument: ArgumentConfig::Int(0),
        });

    let diagnostics = diagnose(&config);
    assert!(!diagnostics.has_errors(), "{diagnostics:?}");
    assert!(diagnostics.issues().iter().any(|issue| {
        issue.path.ends_with(".function") && plain(&issue.message).contains("unknown IPC command")
    }));
}

#[test]
fn unsafe_tag_count_is_a_validation_error() {
    let mut config = built_in();
    config.inner.layout.tags_length = 32;

    let diagnostics = diagnose(&config);
    assert!(diagnostics.has_errors());
    assert!(
        diagnostics
            .issues()
            .iter()
            .any(|issue| issue.path == "layout.tags_length")
    );
}

#[test]
fn a_monitor_specific_entry_is_preferred_over_the_shared_one() {
    let mut config = built_in();
    config.set_layout_tags(vec![layout_tag(1, -1, "grid"), layout_tag(1, 2, "deck")]);
    assert_eq!(config.layout_for_tag(2, 1).unwrap().layout, "deck");
    assert_eq!(config.layout_for_tag(0, 1).unwrap().layout, "grid");
    assert!(config.layout_for_tag(0, 7).is_none());
}

#[test]
fn key_repeat_policy_only_allows_incremental_actions() {
    assert!(key_function_is_repeatable("focusstack"));
    assert!(key_function_is_repeatable("setmfact"));
    assert!(key_function_is_repeatable("scrolling_focus_column"));

    assert!(!key_function_is_repeatable("spawn"));
    assert!(!key_function_is_repeatable("killclient"));
    assert!(!key_function_is_repeatable("take_screenshot"));
}

#[test]
fn legacy_key_list_gets_non_conflicting_audio_recording_fallback() {
    let mut cfg = built_in();
    cfg.inner
        .keybindings
        .keys
        .retain(|key| key.function != "toggle_audio_recording");

    let key_sym = cfg.parse_keysym("m").unwrap();
    let keys = cfg.get_keys();
    assert!(
        keys.iter()
            .any(|key| { key.key_sym == key_sym && key.mask == Mods::empty().with_alt().with_control() })
    );
}

#[test]
fn legacy_audio_fallback_does_not_override_occupied_chord() {
    let mut cfg = built_in();
    cfg.inner
        .keybindings
        .keys
        .retain(|key| key.function != "toggle_audio_recording");
    cfg.inner.keybindings.keys.push(KeyConfig {
        modifier: vec!["Mod1".into(), "Control".into()],
        key: "m".into(),
        function: "spawn".into(),
        argument: ArgumentConfig::StringVec(vec!["true".into()]),
    });

    let key_sym = cfg.parse_keysym("m").unwrap();
    let matches = cfg
        .get_keys()
        .into_iter()
        .filter(|key| key.key_sym == key_sym && key.mask == Mods::empty().with_alt().with_control())
        .count();
    assert_eq!(matches, 1);
}

#[test]
fn legacy_key_list_gets_non_conflicting_monitor_layout_fallback() {
    let mut cfg = built_in();
    cfg.inner
        .keybindings
        .keys
        .retain(|key| key.function != "monitor_layout");

    let key_sym = cfg.parse_keysym("o").unwrap();
    let keys = cfg.get_keys();
    assert!(
        keys.iter()
            .any(|key| { key.key_sym == key_sym && key.mask == Mods::empty().with_alt().with_control() })
    );
}

#[test]
fn legacy_monitor_layout_fallback_does_not_override_occupied_chord() {
    let mut cfg = built_in();
    cfg.inner
        .keybindings
        .keys
        .retain(|key| key.function != "monitor_layout");
    cfg.inner.keybindings.keys.push(KeyConfig {
        modifier: vec!["Mod1".into(), "Control".into()],
        key: "o".into(),
        function: "spawn".into(),
        argument: ArgumentConfig::StringVec(vec!["true".into()]),
    });

    let key_sym = cfg.parse_keysym("o").unwrap();
    let matches = cfg
        .get_keys()
        .into_iter()
        .filter(|key| key.key_sym == key_sym && key.mask == Mods::empty().with_alt().with_control())
        .count();
    assert_eq!(matches, 1);
}

#[test]
fn legacy_duplicate_shortcuts_are_migrated_in_memory_when_targets_are_free() {
    let mut config = built_in();
    config
        .inner
        .keybindings
        .keys
        .iter_mut()
        .find(|binding| binding.function == "togglescratchpad" && binding.key == "c")
        .unwrap()
        .modifier = vec!["Mod1".into(), "Shift".into()];
    config
        .inner
        .keybindings
        .keys
        .iter_mut()
        .find(|binding| binding.function == "togglesticky" && binding.key == "s")
        .unwrap()
        .modifier = vec!["Mod1".into(), "Shift".into()];

    let c = config.parse_keysym("c").unwrap();
    let s = config.parse_keysym("s").unwrap();
    let keys = config.get_keys();
    assert!(keys.iter().any(|binding| {
        binding.mask == Mods::empty().with_alt().with_control()
            && binding.key_sym == c
            && matches!(
                &binding.arg,
                WMArgEnum::StringVec(command)
                    if command.first().is_some_and(|name| name == "calc")
            )
    }));
    assert!(keys.iter().any(|binding| {
        binding.mask == Mods::empty().with_alt().with_control() && binding.key_sym == s
    }));
}

#[test]
fn set_values_applies_valid_batch_atomically() {
    let mut cfg = built_in();
    let changes = vec![
        ("appearance.gap_px".to_string(), number(12)),
        ("layout.m_fact".to_string(), fraction(0.6)),
    ];

    cfg.set_values(&changes).unwrap();

    assert_eq!(cfg.gap_px(), 12);
    assert_eq!(cfg.m_fact(), single(0.6));
}

#[test]
fn set_values_rejects_invalid_batch_without_partial_apply() {
    let mut cfg = built_in();
    let original_gap = cfg.gap_px();
    let original_m_fact = cfg.m_fact();
    let changes = vec![
        ("appearance.gap_px".to_string(), number(12)),
        ("layout.m_fact".to_string(), fraction(9.0)),
    ];

    assert!(cfg.set_values(&changes).is_err());
    assert_eq!(cfg.gap_px(), original_gap);
    assert_eq!(cfg.m_fact(), original_m_fact);
}

#[test]
fn recording_fps_hot_override_is_range_checked() {
    let mut cfg = built_in();
    cfg.set_value("behavior.recording_fps", &number(30))
        .unwrap();
    assert_eq!(cfg.behavior().recording_fps, 30);
    assert!(
        cfg.set_value("behavior.recording_fps", &number(0))
            .is_err()
    );
    assert_eq!(cfg.behavior().recording_fps, 30);
}

#[test]
fn screenshot_freeze_is_hot_tunable() {
    let mut cfg = built_in();
    cfg.set_value(
        "behavior.screenshot_freeze_enabled",
        &JsonValue::Bool(false),
    )
    .unwrap();
    assert!(!cfg.behavior().screenshot_freeze_enabled);
    assert!(
        cfg.set_value(
            "behavior.screenshot_freeze_enabled",
            &text("false"),
        )
        .is_err()
    );
}

#[test]
fn recording_audio_hot_overrides_are_validated() {
    let mut cfg = built_in();
    cfg.set_value(
        "behavior.recording_audio_enabled",
        &JsonValue::Bool(false),
    )
    .unwrap();
    cfg.set_value(
        "behavior.recording_audio_device",
        &text("hw:1,0"),
    )
    .unwrap();
    cfg.set_value(
        "behavior.recording_audio_bitrate",
        &text("160k"),
    )
    .unwrap();
    assert!(!cfg.behavior().recording_audio_enabled);
    assert_eq!(cfg.behavior().recording_audio_device, "hw:1,0");
    assert_eq!(cfg.behavior().recording_audio_bitrate, "160k");
    assert!(
        cfg.set_value("behavior.recording_audio_device", &text(""))
            .is_err()
    );
}

#[test]
fn standalone_audio_backend_and_format_are_validated() {
    let mut cfg = built_in();
    cfg.set_value(
        "behavior.audio_recording_backend",
        &text("ffmpeg"),
    )
    .unwrap();
    cfg.set_value(
        "behavior.audio_recording_format",
        &text("opus"),
    )
    .unwrap();
    assert_eq!(cfg.behavior().audio_recording_backend, "ffmpeg");
    assert_eq!(cfg.behavior().audio_recording_format, "opus");
    assert!(
        cfg.set_value(
            "behavior.audio_recording_backend",
            &text("unknown")
        )
        .is_err()
    );
    assert!(
        cfg.set_value("behavior.audio_recording_format", &text("aac"))
            .is_err()
    );
}

#[test]
fn compositor_effect_hot_overrides_are_applied() {
    let mut cfg = built_in();
    cfg.set_value("behavior.corner_radius", &fraction(18.0))
        .unwrap();
    cfg.set_value("behavior.fading", &JsonValue::Bool(true))
        .unwrap();
    cfg.set_value("behavior.wobbly_windows", &JsonValue::Bool(true))
        .unwrap();
    cfg.set_value("behavior.motion_trail", &JsonValue::Bool(true))
        .unwrap();
    assert_eq!(cfg.behavior().corner_radius, single(18.0));
    assert!(
        cfg.behavior().fading && cfg.behavior().wobbly_windows && cfg.behavior().motion_trail
    );
    assert!(
        cfg.set_value("behavior.corner_radius", &fraction(65.0))
            .is_err()
    );
}

#[test]
fn cursor_settings_default_to_environment_sentinels() {
    let cfg = built_in();
    // Out-of-the-box the config defers to the environment (empty/zero).
    assert_eq!(cfg.cursor_theme(), "");
    assert_eq!(cfg.cursor_size(), 0);
}

#[test]
fn explicit_cursor_config_wins_over_environment() {
    let mut cfg = built_in();
    cfg.inner.appearance.cursor_theme = "Bibata-Modern-Ice".into();
    cfg.inner.appearance.cursor_size = 48;
    // Configured values take precedence and never consult the environment.
    let (theme, size) = cfg.resolved_cursor(&env("Adwaita"), &env("32"));
    assert_eq!(theme, "Bibata-Modern-Ice");
    assert_eq!(size, 48);
}

#[test]
fn cursor_size_resolution_never_overflows_signed_backend_dimensions() {
    assert_eq!(resolve_cursor_size(0, &EnvValue::Unset), 24);
    assert_eq!(resolve_cursor_size(0, &env(" 48 ")), 48);
    assert_eq!(resolve_cursor_size(0, &env("0")), 24);
    assert_eq!(resolve_cursor_size(0, &env("4294967295")), 24);
    assert_eq!(resolve_cursor_size(u32::MAX, &EnvValue::Unset), MAX_CURSOR_SIZE);
}

#[test]
fn ui_theme_defaults_to_glass_and_only_accepts_known_themes() {
    let mut cfg = built_in();
    // An untouched config gets the flagship look.
    assert_eq!(cfg.ui_theme(), "glass");

    cfg.set_value("appearance.ui_theme", &text("Material"))
        .expect("a known theme is accepted, case-insensitively");
    assert_eq!(cfg.ui_theme(), "material");

    // Underscores normalize to the canonical hyphenated name.
    cfg.set_value("appearance.ui_theme", &text("Tokyo_Night"))
        .expect("a known theme is accepted with underscores");
    assert_eq!(cfg.ui_theme(), "tokyo-night");

    cfg.set_value("appearance.ui_theme", &text("neumorphic"))
        .expect_err("an unknown theme is rejected instead of silently applied");
    // The rejected write leaves the previous theme in place.
    assert_eq!(cfg.ui_theme(), "tokyo-night");
}

#[test]
fn client_moveresize_parses_its_choices() {
    assert_eq!(
        ClientMoveResize::from_str("always"),
        ClientMoveResize::Always
    );
    assert_eq!(ClientMoveResize::from_str("Never"), ClientMoveResize::Never);
    assert_eq!(
        ClientMoveResize::from_str(" floating-only "),
        ClientMoveResize::FloatingOnly
    );
    // Anything unknown falls back to the safe default instead of failing.
    assert_eq!(
        ClientMoveResize::from_str("nonsense"),
        ClientMoveResize::FloatingOnly
    );
}

#[test]
fn client_moveresize_is_hot_tunable_via_set_value() {
    let mut cfg = built_in();
    cfg.set_value("behavior.client_moveresize", &text("always"))
        .unwrap();
    assert_eq!(cfg.client_moveresize(), ClientMoveResize::Always);
    assert!(
        cfg.set_value("behavior.client_moveresize", &text("maybe"))
            .is_err()
    );
    cfg.set_value("behavior.drag_threshold_px", &number(24))
        .unwrap();
    assert_eq!(cfg.drag_threshold_px(), 24);
}

#[test]
fn new_client_position_parses_its_choices() {
    assert_eq!(NewClientPosition::from_str("tail"), NewClientPosition::Tail);
    assert_eq!(NewClientPosition::from_str("Tail"), NewClientPosition::Tail);
    assert_eq!(
        NewClientPosition::from_str(" after_focused "),
        NewClientPosition::AfterFocused
    );
    // Anything unknown falls back to the default instead of failing.
    assert_eq!(
        NewClientPosition::from_str("nonsense"),
        NewClientPosition::Master
    );
}

#[test]
fn new_client_position_is_hot_tunable_via_set_value() {
    let mut cfg = built_in();
    cfg.set_value("behavior.new_client_position", &text("Tail"))
        .unwrap();
    assert_eq!(cfg.new_client_position(), NewClientPosition::Tail);
    assert!(
        cfg.set_value("behavior.new_client_position", &text("middle"))
            .is_err()
    );
}

#[test]
fn cursor_settings_are_hot_tunable_via_set_value() {
    let mut cfg = built_in();
    cfg.set_value("appearance.cursor_theme", &text("macOS"))
        .unwrap();
    cfg.set_value("appearance.cursor_size", &number(32))
        .unwrap();
    assert_eq!(cfg.cursor_theme(), "macOS");
    assert_eq!(cfg.cursor_size(), 32);
    assert!(
        cfg.set_value("appearance.cursor_size", &number(9999))
            .is_err()
    );
}

const HANDWRITTEN: &str = "\
# my window manager
[layout]
m_fact = 0.55 # golden-ish
n_master = 1
tags_length = 9

[appearance]
border_px = 3
";

const HEADER: &str = "# --- per-tag layout, saved by jwm ---";

#[test]
fn saving_per_tag_layouts_leaves_the_rest_of_the_file_alone() {
    let written = saved(HANDWRITTEN, &[layout_tag(1, 0, "monocle")]);
    assert!(written.starts_with(HANDWRITTEN), "{written}");
    assert!(written.contains("m_fact = 0.55 # golden-ish"));
    assert!(written.contains("[[layout.tags]]"));
    assert!(written.contains("layout = \"monocle\""));
    assert!(written.contains("m_fact = 0.62"));
}

#[test]
fn saved_layouts_are_replaced_and_not_appended() {
    let first = saved(
        HANDWRITTEN,
        &[layout_tag(1, 0, "monocle"), layout_tag(2, 0, "grid")],
    );
    let written = saved(&first, &[layout_tag(1, 0, "deck")]);
    assert_eq!(written.matches("[[layout.tags]]").count(), 1, "{written}");
    assert!(!written.contains("layout = \"monocle\""), "{written}");
    assert_eq!(written, saved(HANDWRITTEN, &[layout_tag(1, 0, "deck")]));
}

#[test]
fn saving_no_layouts_takes_the_block_and_its_header_away() {
    let first = saved(HANDWRITTEN, &[layout_tag(1, 0, "deck")]);
    let written = saved(&first, &[]);
    assert!(!written.contains("[[layout.tags]]"), "{written}");
    assert!(!written.contains(HEADER), "{written}");
    assert_eq!(Config::strip_layout_tag_blocks(&first), written);
}

#[test]
fn saving_the_same_layouts_twice_changes_nothing() {
    let entries = [layout_tag(1, 0, "deck"), layout_tag(2, 0, "grid")];
    let first = saved(HANDWRITTEN, &entries);
    let second = saved(&first, &entries);
    assert_eq!(first, second);
    assert_eq!(first.matches(HEADER).count(), 1, "{first}");
}

#[test]
fn a_block_in_the_middle_of_the_file_is_cut_out_cleanly() {
    let document = "\
[layout]
m_fact = 0.55
n_master = 1
tags_length = 9

[[layout.tags]]
tag = 4
monitor = -1
layout = \"grid\"

[appearance]
border_px = 3
";
    let written = saved(document, &[layout_tag(1, 0, "deck")]);
    assert!(!written.contains("tag = 4"), "{written}");
    assert!(written.contains("[appearance]\nborder_px = 3"), "{written}");
    assert_eq!(written.matches("[[layout.tags]]").count(), 1);
    assert_eq!(
        saved(document, &[]),
        "\
[layout]
m_fact = 0.55
n_master = 1
tags_length = 9

[appearance]
border_px = 3
"
    );
}

#[test]
fn nothing_to_save_leaves_a_document_without_a_block_as_it_is() {
    for document in [
        "",
        "\n",
        "[layout]\nn_master = 1\n\n\n",
        "[layout]\nn_master = 1",
        "[layout]\r\nn_master = 1\r\n \t\n",
        HANDWRITTEN,
    ] {
        assert_eq!(saved(document, &[]), document);
        assert_eq!(Config::strip_layout_tag_blocks(document), document);
    }
}

#[test]
fn a_saved_block_comes_out_with_its_blank_line_alone() {
    let entries = [layout_tag(1, 0, "deck"), layout_tag(2, 0, "grid")];
    for document in ["", "\n", "\n\n", "a = 1\n", "a = 1\n\n\n", "a = 1\r\n\r\n"] {
        let first = saved(document, &entries);
        assert!(first.starts_with(document), "{first}");
        assert_eq!(saved(&first, &entries), first);
        assert_eq!(saved(&first, &[]), document);
        let more = first.clone() + "[bar]\n\n";
        assert_eq!(saved(&more, &[]), document.to_string() + "[bar]\n\n");
    }
    let first = saved("a = 1", &entries);
    assert!(first.starts_with("a = 1\n\n# --- per-tag layout"), "{first}");
    assert_eq!(saved(&first, &entries), first);
    assert_eq!(saved(&first, &[]), "a = 1\n");
}

#[test]
fn entries_by_hand_come_out_alone() {
    let document = "a = 1\n\n[[layout.tags]]\ntag = 1\n# mine\n\n[[layout.tags]]\ntag = 2\n[b]\n\n";
    assert_eq!(
        Config::strip_layout_tag_blocks(document),
        "a = 1\n\n[b]\n\n"
    );
}

#[test]
fn a_whole_fraction_keeps_its_point() {
    let mut entry = layout_tag(1, 0, "tile");
    entry.m_fact = Some(single(1.0));
    assert!(saved("", &[entry]).contains("\nm_fact = 1.0\n"));
}

#[test]
fn an_unwritable_fraction_is_left_out() {
    let mut entry = layout_tag(1, 0, "tile");
    entry.m_fact = Some(single(f32::NAN));
    entry.n_master = None;
    let written = Config::render_layout_tag_blocks(&[entry], &["NaN".to_string()]);
    assert!(!written.contains("m_fact"), "{written}");
    assert!(!written.contains("n_master"), "{written}");
    assert!(written.contains("gap = 8"), "{written}");
}

#[test]
fn string_literals_are_escaped() {
    assert_eq!(toml_string_literal("a\"b\\c"), "\"a\\\"b\\\\c\"");
    assert_eq!(toml_string_literal("x\ny"), "\"x\\ny\"");
}

#[test]
fn compositor_api_defaults_to_egl() {
    let config = built_in();
    assert_eq!(config.behavior().compositor_api, "egl");
}

#[test]
fn new_clients_become_master_by_default() {
    let cfg = built_in();
    assert_eq!(cfg.new_client_position(), NewClientPosition::Master);
    assert_eq!(cfg.behavior().new_client_position, "master");
}

#[test]
fn client_moveresize_defaults_to_floating_only() {
    let cfg = built_in();
    assert_eq!(cfg.client_moveresize(), ClientMoveResize::FloatingOnly);
    assert_eq!(cfg.drag_threshold_px(), 12);
    assert_eq!(cfg.behavior().client_moveresize, "floating-only");
    assert_eq!(cfg.behavior().drag_threshold_px, 12);
}

#[test]
fn loading_rejects_semantically_unsafe_configuration() {
    let mut config = built_in();
    config.inner.layout.tags_length = 32;
    let error = match Config::validated(config.inner, &Vec::new()) {
        Ok(_) => panic!("unsafe configuration unexpectedly loaded"),
        Err(error) => error,
    };
    assert!(error.has_errors());
    assert!(Config::validated(built_in().inner, &Vec::new()).is_ok());
}

#[test]
fn known_terminals_come_in_order() {
    let names = known_terminals();
    assert_eq!(names[0], "frost");
    assert_eq!(names.len(), 6);
    let running: Vec<_> = names.iter().filter(|name| runs_commands(name)).collect();
    assert_eq!(running, [&"forge", &"anvil", &"terminator", &"gnome-terminal"]);
    let stable: Vec<_> = names.iter().filter(|name| keeps_its_process(name)).collect();
    assert_eq!(stable, [&"frost", &"ember", &"forge", &"anvil"]);
}

#[test]
fn a_batch_is_its_single_changes_in_order() {
    let changes = vec![
        ("appearance.gap_px".to_string(), number(12)),
        ("layout.m_fact".to_string(), fraction(0.6)),
        ("appearance.gap_px".to_string(), number(7)),
    ];
    let mut batch = built_in();
    batch.set_values(&changes).unwrap();
    let mut single_steps = built_in();
    for (key, value) in &changes {
        single_steps.set_value(key, value).unwrap();
    }
    assert_eq!(batch.gap_px(), 7);
    assert_eq!(batch.gap_px(), single_steps.gap_px());
    assert_eq!(batch.inner.layout.m_fact, single_steps.inner.layout.m_fact);
}

#[test]
fn built_in_settings_are_the_documented_ones() {
    let config = built_in();
    assert_eq!(config.behavior().compositor_api, "egl");
    assert!(config.behavior().screenshot_freeze_enabled);
    assert_eq!(config.new_client_position(), NewClientPosition::Master);
    assert_eq!(config.client_moveresize(), ClientMoveResize::FloatingOnly);
    assert_eq!(config.drag_threshold_px(), 12);
    assert_eq!(config.system_ui_font(), "SauceCodePro Nerd Font Regular 11");
    assert_eq!(config.tags_length(), 9);
    assert_eq!(config.tagmask(), 0x1ff);
    assert!(matches!(ArgumentConfig::default(), ArgumentConfig::Int(0)));
}

#[test]
fn the_tag_mask_covers_the_tags() {
    let mut config = built_in();
    config.inner.layout.tags_length = 3;
    assert_eq!(config.tagmask(), 0b111);
    config.inner.layout.tags_length = 31;
    assert_eq!(config.tagmask(), 0x7fff_ffff);
}

#[test]
fn hot_changes_of_unknown_keys_are_refused() {
    let mut config = built_in();
    let refusal = config.set_value("appearance.nothing", &number(1)).unwrap_err();
    assert!(plain(&refusal).contains("appearance.nothing"), "{refusal:?}");
    assert!(config.set_value("behavior.fading", &number(1)).is_err());
    assert!(config.set_value("layout.n_master", &number(-1)).is_err());
}

#[test]
fn modifiers_have_several_names() {
    assert_eq!(canonical_modifier("Mod1"), canonical_modifier("Alt"));
    assert_eq!(canonical_modifier("Mod4"), canonical_modifier("Super"));
    assert!(canonical_modifier("Hyper7").is_none());
}

#[test]
fn links_are_followed_up_to_a_depth() {
    assert_eq!(link_step(0, LinkProbe::End), LinkStep::Write);
    assert_eq!(link_step(0, LinkProbe::Link), LinkStep::Follow);
    assert_eq!(
        link_step(MAX_SYMLINK_DEPTH - 1, LinkProbe::Link),
        LinkStep::TooDeep
    );
    assert_eq!(link_step(3, LinkProbe::Failed), LinkStep::Fail);
    assert_eq!(temporary_name("config.toml", 77, 5), ".config.toml.tmp-77-5");
}

#[test]
fn each_family_has_its_file() {
    assert_ne!(
        config_file_name(BackendFamily::X11),
        config_file_name(BackendFamily::Wayland)
    );
}

#[test]
fn terminals_are_chosen_by_what_is_stated_and_found() {
    let strings = |words: &[&str]| -> Vec<String> { words.iter().map(|w| w.to_string()).collect() };
    assert_eq!(
        Config::get_termcmd(&env("foot --title x"), Some("kitty")),
        strings(&["foot", "--title", "x"])
    );
    assert_eq!(
        Config::get_termcmd(&EnvValue::Unset, Some("kitty")),
        strings(&["kitty"])
    );
    assert_eq!(Config::get_termcmd(&EnvValue::NotUtf8, None), strings(&["frost"]));
    assert_eq!(
        Config::get_terminal_exec_prefix(&env("gnome-terminal"), None),
        strings(&["gnome-terminal", "--"])
    );
    assert_eq!(
        Config::get_scratchpad_termcmd(&env("gnome-terminal"), Some("kitty")),
        strings(&["kitty"])
    );
}

#[test]
fn only_finite_settings_pass_the_checks() {
    let mut config = built_in();
    config.inner.layout.m_fact = single(f32::INFINITY);
    let diagnostics = diagnose(&config);
    assert!(diagnostics.has_errors());
    assert!(diagnostics.issues().iter().any(|issue| issue.path == "layout.m_fact"));
    let factors = vec![None; config.width_factor_texts().len()];
    assert!(Config::validated(config.inner, &factors).is_err());
    assert!(Config::validated(built_in().inner, &Vec::new()).is_ok());
}
