//! Delivery of the state of the bar to a frontend.
use jwm::bar::frontend::{
    ActionRequest, ActionRequestError, FrontendEnvelope, FrontendPartitions, FrontendSession,
    SnapshotCursor, snapshot_changes,
};
use jwm::bar::model::{
    AudioState, BarSnapshot, BatteryState, BrightnessState, DirtyBits, LayoutId, MAX_MODEL_TAGS,
    MonitorGeometry, MonitorId, Percent, SystemState, TagId, ThemeMode, UserAction,
};
use jwm::bar::runtime::{
    BarEffect, BarModel, BarRuntime, RuntimeFrame, RuntimeSchedule, RuntimeUpdate,
};

fn percent(value: u32) -> Percent {
    Percent::from_whole(value).unwrap()
}

fn snapshot() -> BarSnapshot {
    BarModel::default().snapshot()
}

#[test]
fn envelope_preserves_optional_model_semantics_and_layout_text() {
    let mut state = snapshot();
    state.geometry = None;
    state.battery = BatteryState::absent();
    state.layout_symbol = "tile s: literal".to_owned();

    let envelope = FrontendEnvelope::new(7, DirtyBits::default(), state.clone());

    assert_eq!(envelope.snapshot, state);
    assert_eq!(envelope.snapshot.geometry, None);
    assert_eq!(envelope.snapshot.battery, BatteryState::absent());
    assert_eq!(envelope.snapshot.layout_symbol, "tile s: literal");
}

#[test]
fn envelope_and_cursor_accept_a_coherent_runtime_frame() {
    let frame = RuntimeFrame {
        revision: 21,
        snapshot: snapshot(),
        update: RuntimeUpdate {
            changes: DirtyBits::new(DirtyBits::AUDIO_CHANGED),
            ..RuntimeUpdate::default()
        },
    };

    let envelope = FrontendEnvelope::from_runtime_frame(&frame);
    assert_eq!(envelope.revision, 21);
    assert_eq!(envelope.changes, frame.update.changes);
    assert_eq!(envelope.snapshot, frame.snapshot);

    let mut cursor = SnapshotCursor::new();
    let initial = cursor.update_frame(&frame).unwrap();
    assert_eq!(initial.revision, 21);
    assert_eq!(initial.changes, DirtyBits::all());
}

#[test]
fn partitions_map_requested_dirty_groups_only() {
    let monitor = FrontendPartitions::from_dirty(DirtyBits::new(
        DirtyBits::MONITOR_CHANGED
            | DirtyBits::GEOMETRY_CHANGED
            | DirtyBits::LAYOUT_CHANGED
            | DirtyBits::CLIENT_CHANGED,
    ));
    assert_eq!(monitor.bits(), FrontendPartitions::MONITOR);

    let system = FrontendPartitions::from_dirty(DirtyBits::new(
        DirtyBits::SYSTEM_CHANGED | DirtyBits::BATTERY_CHANGED,
    ));
    assert_eq!(system.bits(), FrontendPartitions::SYSTEM);

    let controls = FrontendPartitions::from_dirty(DirtyBits::new(
        DirtyBits::AUDIO_CHANGED | DirtyBits::BRIGHTNESS_CHANGED,
    ));
    assert!(controls.contains(FrontendPartitions::AUDIO));
    assert!(controls.contains(FrontendPartitions::BRIGHTNESS));
    assert!(!controls.contains(FrontendPartitions::MONITOR));

    let unrelated = FrontendPartitions::from_dirty(DirtyBits::new(
        DirtyBits::TIME_CHANGED | DirtyBits::THEME_CHANGED,
    ));
    assert!(unrelated.is_empty());
    assert_eq!(
        FrontendPartitions::from_dirty(DirtyBits::all()),
        FrontendPartitions::all()
    );
}

#[test]
fn cursor_deduplicates_orders_replays_and_resets() {
    let state = snapshot();
    let mut cursor = SnapshotCursor::new();

    let initial = cursor
        .update(10, DirtyBits::default(), state.clone())
        .unwrap();
    assert_eq!(initial.changes, DirtyBits::all());
    assert_eq!(initial.partition_changes, Some(FrontendPartitions::all()));
    assert!(cursor.update(10, DirtyBits::all(), state.clone()).is_none());

    // A newer no-op revision advances ordering without emitting payload.
    assert!(cursor.update(12, DirtyBits::all(), state.clone()).is_none());
    assert_eq!(cursor.revision(), Some(12));

    let replay = cursor.replay().unwrap();
    assert_eq!(replay.revision, 12);
    assert_eq!(replay.changes, DirtyBits::all());

    let mut stale = state.clone();
    stale.client_name = "stale".to_owned();
    assert!(cursor.update(11, DirtyBits::default(), stale).is_none());
    assert_eq!(cursor.previous_snapshot(), Some(&state));

    let mut current = state;
    current.geometry = Some(MonitorGeometry {
        x: 10,
        y: 20,
        width: 1920,
        height: 1080,
    });
    current.battery = BatteryState::present(Some(Percent::from_whole(42).unwrap()), false);
    let update = cursor
        .update(12, DirtyBits::default(), current.clone())
        .unwrap();
    assert!(update.changes.contains(DirtyBits::GEOMETRY_CHANGED));
    assert!(update.changes.contains(DirtyBits::BATTERY_CHANGED));
    assert!(
        update
            .effective_partition_changes()
            .contains(FrontendPartitions::MONITOR)
    );
    assert!(
        update
            .effective_partition_changes()
            .contains(FrontendPartitions::SYSTEM)
    );

    cursor.reset();
    assert_eq!(cursor.revision(), None);
    assert_eq!(cursor.previous_snapshot(), None);
    assert_eq!(cursor.replay(), None);
    assert_eq!(
        cursor
            .update(1, DirtyBits::default(), current)
            .unwrap()
            .changes,
        DirtyBits::all()
    );
}

#[test]
fn cursor_coalesces_opaque_sequence_metadata_but_retains_it_for_replay() {
    let state = snapshot();
    let mut cursor = SnapshotCursor::new();
    cursor
        .update(4, DirtyBits::default(), state.clone())
        .unwrap();

    let mut metadata_only = state;
    metadata_only.wm_sequence = Some(99);
    assert!(
        cursor
            .update(4, DirtyBits::default(), metadata_only.clone())
            .is_none()
    );
    assert_eq!(cursor.previous_snapshot(), Some(&metadata_only));
    assert_eq!(cursor.replay().unwrap().snapshot.wm_sequence, Some(99));
}

#[test]
fn snapshot_diff_classifies_every_serialized_state_group() {
    let original = snapshot();
    let assert_exact = |changed: BarSnapshot, expected| {
        let actual = snapshot_changes(&original, &changed);
        assert_eq!(actual, DirtyBits::new(expected));
    };

    let mut changed = original.clone();
    changed.wm_available = true;
    assert_exact(changed, DirtyBits::MONITOR_CHANGED);

    let mut changed = original.clone();
    changed.wm_sequence = Some(1);
    assert_exact(changed, DirtyBits::NONE);

    let mut changed = original.clone();
    changed.geometry = Some(MonitorGeometry {
        x: 0,
        y: 0,
        width: 1,
        height: 1,
    });
    assert_exact(changed, DirtyBits::GEOMETRY_CHANGED);

    let mut changed = original.clone();
    changed.layout_symbol = "monocle".to_owned();
    assert_exact(changed, DirtyBits::LAYOUT_CHANGED);

    let mut changed = original.clone();
    changed.client_name = "client".to_owned();
    assert_exact(changed, DirtyBits::CLIENT_CHANGED);

    let mut changed = original.clone();
    changed.time = "12:34".to_owned();
    assert_exact(changed, DirtyBits::TIME_CHANGED);

    let mut changed = original.clone();
    changed.theme = ThemeMode::Light;
    assert_exact(changed, DirtyBits::THEME_CHANGED);

    let mut changed = original.clone();
    changed.audio = AudioState::new(Some(percent(50)), false);
    assert_exact(changed, DirtyBits::AUDIO_CHANGED);

    let mut changed = original.clone();
    changed.system = SystemState::new(Some(percent(25)), Some(percent(30)));
    assert_exact(changed, DirtyBits::SYSTEM_CHANGED);

    let mut changed = original.clone();
    changed.brightness = BrightnessState::new(Some(percent(80)));
    assert_exact(changed, DirtyBits::BRIGHTNESS_CHANGED);

    let mut changed = original.clone();
    changed.battery = BatteryState::present(None, true);
    assert_exact(changed, DirtyBits::BATTERY_CHANGED);
}

#[test]
fn every_action_request_converts_to_the_typed_model_action() {
    let tag = TagId::new(2).unwrap();
    let cases = [
        (
            ActionRequest::ViewTag { tag_index: 2 },
            UserAction::ViewTag(tag),
        ),
        (
            ActionRequest::ToggleTag { tag_index: 2 },
            UserAction::ToggleTag(tag),
        ),
        (
            ActionRequest::ViewTagOn {
                tag_index: 2,
                monitor_id: -1,
            },
            UserAction::ViewTagOn {
                tag,
                monitor: MonitorId(-1),
            },
        ),
        (
            ActionRequest::ToggleTagOn {
                tag_index: 2,
                monitor_id: 3,
            },
            UserAction::ToggleTagOn {
                tag,
                monitor: MonitorId(3),
            },
        ),
        (
            ActionRequest::ToggleLayoutSelector,
            UserAction::ToggleLayoutSelector,
        ),
        (
            ActionRequest::SetLayout { layout_id: 4 },
            UserAction::SetLayout(LayoutId(4)),
        ),
        (
            ActionRequest::SetLayoutOn {
                layout_id: 4,
                monitor_id: 3,
            },
            UserAction::SetLayoutOn {
                layout: LayoutId(4),
                monitor: MonitorId(3),
            },
        ),
        (ActionRequest::ToggleSeconds, UserAction::ToggleSeconds),
        (ActionRequest::ToggleTheme, UserAction::ToggleTheme),
        (ActionRequest::ToggleMute, UserAction::ToggleMute),
        (ActionRequest::VolumeUp, UserAction::VolumeUp),
        (ActionRequest::VolumeDown, UserAction::VolumeDown),
        (
            ActionRequest::AdjustVolume { delta: -7 },
            UserAction::AdjustVolume(-7),
        ),
        (ActionRequest::BrightnessUp, UserAction::BrightnessUp),
        (ActionRequest::BrightnessDown, UserAction::BrightnessDown),
        (
            ActionRequest::AdjustBrightness { delta: 9 },
            UserAction::AdjustBrightness(9),
        ),
        (ActionRequest::RefreshBattery, UserAction::RefreshBattery),
        (ActionRequest::Screenshot, UserAction::Screenshot),
        (
            ActionRequest::OpenAudioControl,
            UserAction::OpenAudioControl,
        ),
    ];

    for (request, expected) in cases {
        assert_eq!(request.into_user_action().unwrap(), expected);
    }
}

#[test]
fn action_request_rejects_out_of_protocol_tag_index() {
    let error = ActionRequest::ViewTag {
        tag_index: MAX_MODEL_TAGS,
    }
    .into_user_action()
    .unwrap_err();

    assert_eq!(
        error,
        ActionRequestError::TagOutOfRange {
            tag_index: MAX_MODEL_TAGS,
            max_exclusive: MAX_MODEL_TAGS,
        }
    );
    assert_eq!(
        error.to_string(),
        format!("tag_index must be in 0..{MAX_MODEL_TAGS}, got {MAX_MODEL_TAGS}")
    );
}

#[test]
fn action_request_can_dispatch_a_coherent_runtime_frame() {
    let mut runtime = BarRuntime::default();
    let _ = runtime.current_frame();

    let frame = ActionRequest::ToggleTheme
        .dispatch_frame(&mut runtime)
        .unwrap();

    assert_eq!(frame.snapshot.theme, ThemeMode::Light);
    assert!(frame.changes().contains(DirtyBits::THEME_CHANGED));
}

#[test]
fn frontend_session_services_dispatches_deduplicates_and_replays() {
    let now = 1_000;
    let mut session = FrontendSession::default();

    let initial = session.service_at(now);
    assert_eq!(initial.envelope.as_ref().unwrap().changes, DirtyBits::all());
    assert_eq!(initial.frame.revision, 1);

    let unchanged = session.service_at(now + 100);
    assert!(unchanged.envelope.is_none());

    let themed = session.dispatch(ActionRequest::ToggleTheme).unwrap();
    assert_eq!(themed.frame.snapshot.theme, ThemeMode::Light);
    assert!(
        themed
            .envelope
            .as_ref()
            .unwrap()
            .changes
            .contains(DirtyBits::THEME_CHANGED)
    );

    let platform_only = session.dispatch(ActionRequest::Screenshot).unwrap();
    assert!(platform_only.envelope.is_none());
    assert_eq!(
        platform_only.frame.update.platform_effects,
        vec![BarEffect::Screenshot]
    );
    assert_eq!(
        session.replay().unwrap().revision,
        platform_only.frame.revision
    );

    session.reset_delivery();
    assert!(session.replay().is_none());
    assert!(
        session
            .dispatch(ActionRequest::ToggleSeconds)
            .unwrap()
            .envelope
            .is_some()
    );
}

#[test]
fn unknown_bits_are_dropped() {
    assert_eq!(FrontendPartitions::new(u8::MAX), FrontendPartitions::all());
    assert_eq!(DirtyBits::new(u16::MAX), DirtyBits::all());
}

#[test]
fn delivered_revisions_never_go_back() {
    let state = snapshot();
    let mut cursor = SnapshotCursor::new();
    let mut seen = 0;
    for (revision, name) in [(3, "a"), (2, "b"), (5, "c"), (4, "d"), (5, "e")] {
        let mut next = state.clone();
        next.client_name = name.to_owned();
        if let Some(envelope) = cursor.update(revision, DirtyBits::default(), next) {
            assert!(envelope.revision >= seen);
            seen = envelope.revision;
        }
    }
    assert_eq!(cursor.revision(), Some(5));
    assert_eq!(cursor.replay().unwrap().snapshot.client_name, "e");
}

#[test]
fn a_schedule_is_due_after_its_interval() {
    let mut session = FrontendSession::with_schedule(
        BarRuntime::default(),
        RuntimeSchedule {
            interval_ms: 250,
            due_ms: None,
        },
    );
    assert_eq!(session.next_service_deadline(40), 40);
    let _ = session.service_at(40);
    assert_eq!(session.next_service_deadline(40), 290);
    assert_eq!(session.next_service_deadline(400), 290);
}
