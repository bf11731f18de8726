//! How the state of the bar is shown as controls.
use jwm::bar::controls::{
    BarPresentation, ControlSpec, ControlState, InputBindings, PresentationProjector,
    STATUS_ORDER_RIGHT_TO_LEFT, UNKNOWN_VALUE, control, percent_value,
};
use jwm::bar::model::{
    AudioState, BarSnapshot, BatteryState, BrightnessState, LayoutId, MonitorId, Percent,
    SystemState, TagId, TagState, ThemeMode, UserAction,
};
use jwm::bar::presentation::{
    IconSet, LayoutChoice, MetricTone, NodeId, PresentationConfig, PresentationVisibility,
    UsageThresholds, VolumeLevel,
};

fn percent(value: f64) -> Percent {
    Percent::from_hundredths((value * 100.0).round() as u32).expect("valid test percentage")
}

fn snapshot() -> BarSnapshot {
    BarSnapshot {
        wm_available: true,
        wm_sequence: Some(7),
        tags: vec![TagState::default()],
        active_tag: None,
        monitor: MonitorId(2),
        geometry: None,
        layout_symbol: "[]=".to_owned(),
        client_name: "terminal".to_owned(),
        time: "12:34".to_owned(),
        show_seconds: false,
        layout_selector_open: false,
        theme: ThemeMode::Dark,
        audio: AudioState::default(),
        audio_device: None,
        system: SystemState::default(),
        system_details: None,
        brightness: BrightnessState::default(),
        battery: BatteryState::absent(),
    }
}

fn by_id(presentation: &BarPresentation, id: NodeId) -> &ControlSpec {
    presentation
        .status
        .iter()
        .find(|control| control.id == id)
        .expect("status control exists")
}

#[test]
fn text_joins_empty_parts_without_stray_whitespace() {
    let mut control = control(
        NodeId::Clock,
        String::new(),
        String::new(),
        None,
        None,
        None,
        ControlState::default(),
        InputBindings::default(),
    );
    assert_eq!(control.text(), "");
    control.icon = "I".to_owned();
    assert_eq!(control.text(), "I");
    control.icon.clear();
    control.value = "V".to_owned();
    assert_eq!(control.text(), "V");
    control.icon = "I".to_owned();
    assert_eq!(control.text(), "I V");
}

#[test]
fn tags_preserve_distinct_transport_state_and_existing_actions() {
    let mut snapshot = snapshot();
    snapshot.tags = vec![
        TagState {
            selected: false,
            urgent: true,
            filled: true,
            occupied: false,
        },
        TagState {
            selected: true,
            urgent: false,
            filled: false,
            occupied: true,
        },
    ];
    snapshot.active_tag = TagId::new(0);
    let config = PresentationConfig {
        tag_labels: vec!["A".to_owned()],
        ..PresentationConfig::default()
    };

    let projected = PresentationProjector::project(&snapshot, &config);
    assert_eq!(projected.tags[0].icon, "A");
    assert_eq!(projected.tags[1].icon, "2");
    assert!(projected.tags[0].state.selected);
    assert!(projected.tags[0].state.urgent);
    assert!(projected.tags[0].state.filled);
    assert!(!projected.tags[0].state.occupied);
    assert!(!projected.tags[1].state.filled);
    assert!(projected.tags[1].state.occupied);
    assert_eq!(
        projected.tags[0].bindings.primary,
        Some(UserAction::ViewTag(TagId::new(0).unwrap()))
    );
    assert_eq!(
        projected.tags[0].bindings.secondary,
        Some(UserAction::ToggleTag(TagId::new(0).unwrap()))
    );
    assert!(projected.tags[0].state.enabled);
    assert!(!projected.tags[0].state.hovered);
    assert!(!projected.tags[0].state.pressed);
}

#[test]
fn layout_projection_is_dynamic_and_only_expands_when_open() {
    let mut snapshot = snapshot();
    snapshot.layout_symbol.clear();
    let config = PresentationConfig {
        layouts: vec![
            LayoutChoice {
                id: LayoutId(11),
                label: "spiral".to_owned(),
            },
            LayoutChoice {
                id: LayoutId(42),
                label: "deck".to_owned(),
            },
        ],
        ..PresentationConfig::default()
    };

    let closed = PresentationProjector::project(&snapshot, &config);
    assert_eq!(closed.layout_button.text(), "?");
    assert_eq!(
        closed.layout_button.bindings.primary,
        Some(UserAction::ToggleLayoutSelector)
    );
    assert!(closed.layout_choices.is_empty());

    snapshot.layout_selector_open = true;
    let open = PresentationProjector::project(&snapshot, &config);
    assert!(open.layout_button.state.selected);
    assert_eq!(
        open.layout_choices
            .iter()
            .map(|control| control.id)
            .collect::<Vec<_>>(),
        vec![
            NodeId::LayoutOption(LayoutId(11)),
            NodeId::LayoutOption(LayoutId(42))
        ]
    );
    assert_eq!(
        open.layout_choices[1].bindings.primary,
        Some(UserAction::SetLayout(LayoutId(42)))
    );
}

#[test]
fn status_order_visibility_and_client_match_layout_semantics() {
    let snapshot = snapshot();
    let mut config = PresentationConfig::default();
    let all = PresentationProjector::project(&snapshot, &config);
    assert_eq!(
        all.status
            .iter()
            .map(|control| control.id)
            .collect::<Vec<_>>(),
        STATUS_ORDER_RIGHT_TO_LEFT
    );
    assert_eq!(all.client_name.as_ref().unwrap().value, "terminal");

    config.visibility = PresentationVisibility {
        client_name: false,
        monitor: true,
        system: false,
        audio: true,
        brightness: false,
        battery: true,
        theme: false,
        screenshot: true,
        clock: false,
    };
    let filtered = PresentationProjector::project(&snapshot, &config);
    assert_eq!(
        filtered
            .status
            .iter()
            .map(|control| control.id)
            .collect::<Vec<_>>(),
        vec![
            NodeId::Screenshot,
            NodeId::Battery,
            NodeId::Audio,
            NodeId::Monitor,
        ]
    );
    assert!(filtered.client_name.is_none());
}

#[test]
fn unknown_metrics_are_visible_unavailable_and_have_no_progress() {
    let snapshot = snapshot();
    let projected =
        PresentationProjector::project(&snapshot, &PresentationConfig::default());

    for id in [
        NodeId::Battery,
        NodeId::Brightness,
        NodeId::Audio,
        NodeId::Memory,
        NodeId::Cpu,
    ] {
        let control = by_id(&projected, id);
        assert_eq!(control.value, UNKNOWN_VALUE);
        assert_eq!(control.tone, Some(MetricTone::Unavailable));
        assert_eq!(control.progress, None);
        assert!(!control.available);
    }
    assert_eq!(
        by_id(&projected, NodeId::Audio).volume_level,
        Some(VolumeLevel::Unavailable)
    );
}

#[test]
fn metrics_keep_exact_progress_tones_levels_and_actions() {
    let mut snapshot = snapshot();
    snapshot.system = SystemState::new(Some(percent(80.01)), Some(percent(30.0)));
    snapshot.brightness = BrightnessState::new(Some(percent(49.49)));
    snapshot.battery = BatteryState::present(Some(percent(20.0)), true);
    snapshot.audio = AudioState::new(Some(percent(50.0)), false);

    let projected =
        PresentationProjector::project(&snapshot, &PresentationConfig::default());
    assert_eq!(
        by_id(&projected, NodeId::Cpu).tone,
        Some(MetricTone::Critical)
    );
    assert_eq!(
        by_id(&projected, NodeId::Memory).tone,
        Some(MetricTone::Good)
    );
    assert_eq!(
        by_id(&projected, NodeId::Battery).tone,
        Some(MetricTone::Critical)
    );
    assert_eq!(
        by_id(&projected, NodeId::Battery).progress,
        Some(percent(20.0))
    );
    assert!(by_id(&projected, NodeId::Battery).available);
    assert_eq!(by_id(&projected, NodeId::Brightness).value, "49%");
    assert_eq!(by_id(&projected, NodeId::Brightness).tone, None);
    assert_eq!(
        by_id(&projected, NodeId::Audio).volume_level,
        Some(VolumeLevel::Medium)
    );
    assert_eq!(
        by_id(&projected, NodeId::Audio).bindings,
        InputBindings {
            primary: Some(UserAction::ToggleMute),
            secondary: Some(UserAction::OpenAudioControl),
            scroll_up: Some(UserAction::VolumeUp),
            scroll_down: Some(UserAction::VolumeDown),
        }
    );
    assert!(!by_id(&projected, NodeId::Cpu).state.enabled);
    assert!(by_id(&projected, NodeId::Audio).state.enabled);
}

#[test]
fn projector_honors_custom_thresholds_and_wm_availability() {
    let mut snapshot = snapshot();
    snapshot.wm_available = false;
    snapshot.system = SystemState::new(Some(percent(25.0)), None);
    let config = PresentationConfig {
        usage_thresholds: UsageThresholds::new(
            percent(10.0),
            percent(20.0),
            percent(30.0),
        )
        .unwrap(),
        ..PresentationConfig::default()
    };

    let projected = PresentationProjector::project(&snapshot, &config);

    assert_eq!(by_id(&projected, NodeId::Cpu).tone, Some(MetricTone::High));
    assert!(!projected.tags[0].available);
    assert!(!projected.tags[0].state.enabled);
    assert!(!projected.layout_button.available);
    assert!(!projected.layout_button.state.enabled);
    assert!(!by_id(&projected, NodeId::Monitor).available);
}

#[test]
fn projector_uses_band_aware_icons_when_a_preset_is_installed() {
    let mut snapshot = snapshot();
    snapshot.audio = AudioState::new(Some(percent(50.0)), false);
    let icons = IconSet::nerd_font();
    let config = PresentationConfig::default().with_icon_set(&icons);

    let projected = PresentationProjector::project(&snapshot, &config);

    assert_eq!(by_id(&projected, NodeId::Audio).icon, icons.volume_medium);
    assert_eq!(by_id(&projected, NodeId::Monitor).value, "M2");
    assert_eq!(projected.tags[0].icon, icons.tag_icon(0));
}

#[test]
fn thresholds_must_ascend() {
    let ok = UsageThresholds::new(percent(10.0), percent(20.0), percent(30.0));
    assert!(ok.is_some());
    assert!(UsageThresholds::new(percent(30.0), percent(20.0), percent(10.0)).is_none());
    let tones = ok.unwrap();
    assert_eq!(tones.tone(None), MetricTone::Unavailable);
    assert_eq!(tones.tone(Some(percent(30.01))), MetricTone::Critical);
}

#[test]
fn percentages_round_to_the_nearest_whole() {
    assert_eq!(percent_value(None), "--");
    assert_eq!(percent_value(Some(percent(49.49))), "49%");
    assert_eq!(percent_value(Some(percent(49.50))), "50%");
    assert_eq!(percent_value(Some(percent(100.0))), "100%");
    assert_eq!(Percent::from_hundredths(10001), None);
    assert_eq!(Percent::from_whole(101), None);
}

#[test]
fn hidden_controls_keep_the_order_of_the_others() {
    let snapshot = snapshot();
    let mut config = PresentationConfig::default();
    config.visibility.theme = false;
    config.visibility.audio = false;
    let ids: Vec<NodeId> = PresentationProjector::project(&snapshot, &config)
        .status
        .iter()
        .map(|control| control.id)
        .collect();
    let expected: Vec<NodeId> = STATUS_ORDER_RIGHT_TO_LEFT
        .iter()
        .copied()
        .filter(|id| *id != NodeId::Theme && *id != NodeId::Audio)
        .collect();
    assert_eq!(ids, expected);
}
