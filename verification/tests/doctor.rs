//! The checks of the environment and their report.
use jwm::config::Config;
use jwm::config::diagnostics::ConfigDiagnostics;
use jwm::doctor::{
    BackendChoice, BarProbe, CommandLookup, ConfigProbe, DeviceProbe, DirectoryProbe, DoctorCheck,
    DoctorInputs, DoctorReport, DoctorStatus, DoctorSummary, card_names, check_backend_requirements,
    check_config, check_dbus, check_dri, check_jwm_tool, check_runtime_dir, check_status_bar,
    command_lookup, diagnose, is_executable, judge_status_bar,
};
use jwm::terminals::EnvValue;

fn diagnostics(tags_length: usize) -> ConfigDiagnostics {
    let mut config = Config::built_in(vec!["frost".to_string()], String::new());
    config.inner.layout.tags_length = tags_length;
    config.diagnostics(&Vec::new())
}

fn test_inputs() -> DoctorInputs {
    let config = Config::built_in(vec!["frost".to_string()], String::new());
    let bar = config.status_bar_name();
    DoctorInputs {
        config_path: "/home/u/config.toml".to_string(),
        config: ConfigProbe::Checked(diagnostics(9), String::new()),
        status_bar: BarProbe::Configured(
            config.show_bar(),
            bar.to_string(),
            Some(format!("/usr/bin/{bar}")),
        ),
        xdg_runtime_dir: Some("/run/user/7".to_string()),
        runtime_dir: DirectoryProbe::Directory(7, 0o700),
        effective_uid: 7,
        display: Some(":99".to_string()),
        wayland_display: None,
        dri_path: "/dev/dri".to_string(),
        dri: DeviceProbe::Entries(vec!["card0".to_string()]),
        dbus_session_bus_address: EnvValue::Text("unix:path=/tmp/test-bus".to_string()),
        path_is_set: true,
        jwm_tool: Some("/usr/bin/jwm-tool".to_string()),
    }
}

#[test]
fn commands_are_looked_for_where_they_say() {
    assert_eq!(command_lookup("", true), CommandLookup::Nowhere);
    assert_eq!(command_lookup("./bar", true), CommandLookup::File);
    assert_eq!(command_lookup("/bin/bar", false), CommandLookup::File);
    assert_eq!(command_lookup("bar", true), CommandLookup::Directories);
    assert_eq!(command_lookup("bar", false), CommandLookup::Nowhere);
}

#[test]
fn report_aggregates_status_and_serializes_stable_levels() {
    let report = DoctorReport::from_checks(
        BackendChoice::X11rb,
        vec![
            DoctorCheck::new(DoctorStatus::Pass, "a", "ok", None, None),
            DoctorCheck::new(DoctorStatus::Warning, "b", "warn", None, None),
            DoctorCheck::new(DoctorStatus::Error, "c", "bad", None, None),
        ],
    );
    assert_eq!(report.status, DoctorStatus::Error);
    assert_eq!(
        report.summary,
        DoctorSummary {
            passed: 1,
            warnings: 1,
            errors: 1,
        }
    );
    assert_eq!(report.checks[0].status, DoctorStatus::Pass);
    assert!(report.checks[0].detail.is_none());
    assert!(report.checks[0].hint.is_none());
}

#[test]
fn an_empty_report_passes() {
    let empty = DoctorReport::from_checks(BackendChoice::WaylandUdev, Vec::new());
    assert_eq!(empty.status, DoctorStatus::Pass);
    let report = DoctorReport::from_checks(BackendChoice::X11rb, Vec::new());
    assert_eq!(report.backend, "x11rb");
}

#[test]
fn runtime_dir_check_covers_path_owner_and_mode_without_env_mutation() {
    let runtime = Some("/run/user/7".to_string());
    let relative = Some("relative/runtime".to_string());
    let private = DirectoryProbe::Directory(7, 0o700);
    let open = DirectoryProbe::Directory(7, 0o755);
    let status = |path: &Option<String>, probe: &DirectoryProbe, uid: u32, required: bool| {
        check_runtime_dir(path, probe, uid, required).status
    };

    assert_eq!(status(&runtime, &private, 7, true), DoctorStatus::Pass);
    assert_eq!(status(&relative, &private, 7, true), DoctorStatus::Error);
    assert_eq!(status(&runtime, &private, 8, true), DoctorStatus::Error);
    assert_eq!(status(&runtime, &open, 7, true), DoctorStatus::Error);
    assert_eq!(status(&None, &private, 7, false), DoctorStatus::Warning);
    assert_eq!(status(&relative, &private, 7, false), DoctorStatus::Warning);
    assert_eq!(status(&runtime, &open, 7, false), DoctorStatus::Warning);
    assert_eq!(status(&None, &private, 7, true), DoctorStatus::Error);
    assert_eq!(
        status(&runtime, &DirectoryProbe::NotDirectory, 7, true),
        DoctorStatus::Error
    );
    assert_eq!(
        status(&runtime, &DirectoryProbe::Failed("gone".to_string()), 7, false),
        DoctorStatus::Warning
    );
}

#[test]
fn backend_checks_distinguish_x11_winit_and_kms_requirements() {
    let none = None;
    let display = Some(":1".to_string());
    let wayland = Some("wayland-1".to_string());
    let missing = DeviceProbe::Missing("no such file".to_string());
    let check = |choice, display: &Option<String>, wayland: &Option<String>, dri: &DeviceProbe| {
        check_backend_requirements(choice, display, wayland, "/dev/dri", dri).status
    };

    assert_eq!(
        check(BackendChoice::X11rb, &none, &none, &missing),
        DoctorStatus::Error
    );
    assert_eq!(
        check(BackendChoice::WaylandX11, &display, &none, &missing),
        DoctorStatus::Pass
    );
    assert_eq!(
        check(BackendChoice::WaylandWinit, &none, &wayland, &missing),
        DoctorStatus::Pass
    );
    assert_eq!(
        check(
            BackendChoice::WaylandUdev,
            &none,
            &none,
            &DeviceProbe::Entries(Vec::new())
        ),
        DoctorStatus::Error
    );
    assert_eq!(
        check(
            BackendChoice::WaylandUdev,
            &none,
            &none,
            &DeviceProbe::Entries(vec!["card0".to_string()])
        ),
        DoctorStatus::Pass
    );
}

#[test]
fn path_check_requires_an_executable_jwm_tool() {
    assert!(!is_executable(true, 0o600));
    assert!(is_executable(true, 0o700));
    assert!(!is_executable(false, 0o700));
    assert_eq!(check_jwm_tool(true, None).status, DoctorStatus::Warning);
    assert_eq!(check_jwm_tool(false, None).status, DoctorStatus::Warning);

    let check = check_jwm_tool(true, Some("/opt/jwm-tool".to_string()));
    assert_eq!(check.status, DoctorStatus::Pass);
    assert_eq!(check.detail.as_deref(), Some("/opt/jwm-tool"));
}

#[test]
fn config_check_preserves_structured_semantic_diagnostics() {
    let valid = check_config(
        "/c.toml",
        ConfigProbe::Checked(diagnostics(9), String::new()),
        BackendChoice::X11rb,
    );
    assert_eq!(valid.len(), 2);
    assert_eq!(valid[1].status, DoctorStatus::Pass);

    let checks = check_config(
        "/c.toml",
        ConfigProbe::Checked(diagnostics(32), "layout.tags_length".to_string()),
        BackendChoice::X11rb,
    );
    assert_eq!(checks[1].status, DoctorStatus::Error);
    assert!(
        checks[1]
            .config_diagnostics
            .as_ref()
            .is_some_and(ConfigDiagnostics::has_errors)
    );
}

#[test]
fn full_diagnosis_uses_injected_snapshot_and_never_process_environment() {
    let report = diagnose(BackendChoice::X11rb, test_inputs());
    assert_eq!(report.status, DoctorStatus::Pass);
    assert_eq!(report.summary.errors, 0);
    assert_eq!(report.summary.warnings, 0);
    assert_eq!(
        report
            .checks
            .iter()
            .map(|check| check.id.as_str())
            .collect::<Vec<_>>(),
        vec![
            "config.file",
            "config.validation",
            "command.status_bar",
            "runtime.xdg_runtime_dir",
            "backend.display",
            "session.dbus",
            "command.jwm_tool",
        ]
    );
}

#[test]
fn only_the_validation_carries_diagnostics() {
    let report = diagnose(BackendChoice::X11rb, test_inputs());
    for check in &report.checks {
        assert_eq!(
            check.config_diagnostics.is_some(),
            check.id == "config.validation"
        );
    }
}

#[test]
fn a_missing_configuration_is_only_a_warning() {
    let mut inputs = test_inputs();
    inputs.config = ConfigProbe::Missing;
    let report = diagnose(BackendChoice::X11rb, inputs);
    assert_eq!(report.status, DoctorStatus::Warning);
    assert_eq!(report.checks[0].id, "config.file");
    for probe in [
        ConfigProbe::Failed("denied".to_string()),
        ConfigProbe::NotFile,
        ConfigProbe::Invalid("line 3".to_string()),
    ] {
        let checks = check_config("/c.toml", probe, BackendChoice::Xcb);
        assert_eq!(checks.last().unwrap().status, DoctorStatus::Error);
    }
}

#[test]
fn the_bar_is_quoted_in_what_is_said_of_it() {
    let probe = BarProbe::Configured(true, "a\"b".to_string(), None);
    let check = check_status_bar(&probe);
    assert_eq!(check.status, DoctorStatus::Warning);
    let said = format!("{} {:?}", check.summary, check.detail);
    assert!(said.contains("a\\"), "{said}");
    let judged = judge_status_bar(&probe, "\"a\\\"b\"");
    assert_eq!(judged.summary, check.summary);
    assert_eq!(judged.detail, check.detail);
}

#[test]
fn graphics_cards_are_told_from_other_devices() {
    let entries = |names: &[&str]| -> Vec<String> { names.iter().map(|n| n.to_string()).collect() };
    assert_eq!(
        card_names(&entries(&["renderD128", "card1", "by-path", "card0", "cardx"])),
        ["card0", "card1"]
    );
    let unreadable = DeviceProbe::Unreadable("denied".to_string());
    assert_eq!(check_dri("/dev/dri", &unreadable).status, DoctorStatus::Error);
    assert_eq!(
        check_dri("/dev/dri", &DeviceProbe::NotDirectory).status,
        DoctorStatus::Error
    );
}

#[test]
fn the_bus_address_must_be_set() {
    assert_eq!(check_dbus(&EnvValue::Unset).status, DoctorStatus::Warning);
    assert_eq!(
        check_dbus(&EnvValue::Text("unix:path=/x".to_string())).status,
        DoctorStatus::Pass
    );
}
