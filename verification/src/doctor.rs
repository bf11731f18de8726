//! Startup health: what was found out about the session, judged check by check.
//!
//! The caller looks: at the environment, at files, at devices. The checks here
//! judge what it saw.
use crate::bar::model::text_of;
use crate::config::diagnostics::{ConfigDiagnosticLevel, ConfigDiagnostics, count_level};
use crate::config::types::BackendFamily;
use crate::terminals::EnvValue;
use crate::text::{
    begins_with, chars_of, decimal, is_before, is_digit, joined, numeral, precedes, push_nat,
    push_numeral, split_at_first, split_once, starts_with, trim, trimmed, views,
};
use vstd::prelude::*;

verus! {

/// The display servers and hosts to run on.
#[derive(Debug, Clone, Copy, PartialEq, Eq, Structural)]
pub enum BackendChoice {
    X11rb,
    Xcb,
    WaylandX11,
    WaylandWinit,
    WaylandUdev,
}

impl BackendChoice {
    /// The name of the choice.
    pub open spec fn name(self) -> Seq<char> {
        match self {
            BackendChoice::X11rb => "x11rb"@,
            BackendChoice::Xcb => "xcb"@,
            BackendChoice::WaylandX11 => "wayland-x11"@,
            BackendChoice::WaylandWinit => "wayland-winit"@,
            BackendChoice::WaylandUdev => "wayland-udev"@,
        }
    }

    /// The name of the choice.
    pub fn as_str(self) -> (r: &'static str)
        ensures
            r@ == self.name(),
    {
        match self {
            BackendChoice::X11rb => "x11rb",
            BackendChoice::Xcb => "xcb",
            BackendChoice::WaylandX11 => "wayland-x11",
            BackendChoice::WaylandWinit => "wayland-winit",
            BackendChoice::WaylandUdev => "wayland-udev",
        }
    }

    /// The family of the choice.
    pub fn family(self) -> (r: BackendFamily)
        ensures
            r == (match self {
                BackendChoice::X11rb | BackendChoice::Xcb => BackendFamily::X11,
                _ => BackendFamily::Wayland,
            }),
    {
        match self {
            BackendChoice::X11rb | BackendChoice::Xcb => BackendFamily::X11,
            _ => BackendFamily::Wayland,
        }
    }
}

/// How serious a check is, or the report as a whole.
#[derive(Debug, Clone, Copy, PartialEq, Eq, Structural)]
pub enum DoctorStatus {
    Pass,
    Warning,
    Error,
}

impl DoctorStatus {
    /// How serious, as a number.
    pub open spec fn weight(self) -> int {
        match self {
            DoctorStatus::Pass => 0,
            DoctorStatus::Warning => 1,
            DoctorStatus::Error => 2,
        }
    }

    fn rank(self) -> (r: u8)
        ensures
            r == self.weight(),
    {
        match self {
            DoctorStatus::Pass => 0,
            DoctorStatus::Warning => 1,
            DoctorStatus::Error => 2,
        }
    }
}

/// One check.
#[derive(Debug)]
pub struct DoctorCheck {
    pub status: DoctorStatus,
    pub id: String,
    pub summary: String,
    pub detail: Option<String>,
    pub hint: Option<String>,
    pub config_diagnostics: Option<ConfigDiagnostics>,
}

/// One check as plain values.
#[verifier::ext_equal]
pub struct CheckView {
    pub status: DoctorStatus,
    pub id: Seq<char>,
    pub summary: Seq<char>,
    pub detail: Option<Seq<char>>,
    pub hint: Option<Seq<char>>,
    pub config_diagnostics: Option<ConfigDiagnostics>,
}

impl CheckView {
    /// The same check with the diagnostics that it rests on.
    pub open spec fn resting_on(self, diagnostics: ConfigDiagnostics) -> CheckView {
        CheckView { config_diagnostics: Some(diagnostics), ..self }
    }
}

impl View for DoctorCheck {
    type V = CheckView;

    open spec fn view(&self) -> CheckView {
        CheckView {
            status: self.status,
            id: self.id@,
            summary: self.summary@,
            detail: text_of(self.detail),
            hint: text_of(self.hint),
            config_diagnostics: self.config_diagnostics,
        }
    }
}

impl DoctorCheck {
    /// A check that holds no diagnostics.
    pub fn new(
        status: DoctorStatus,
        id: &str,
        summary: &str,
        detail: Option<String>,
        hint: Option<&str>,
    ) -> (r: DoctorCheck)
        ensures
            r@ == (CheckView {
                status,
                id: id@,
                summary: summary@,
                detail: text_of(detail),
                hint: match hint {
                    Some(h) => Some(h@),
                    None => None,
                },
                config_diagnostics: None,
            }),
    {
        DoctorCheck {
            status,
            id: id.to_string(),
            summary: summary.to_string(),
            detail,
            hint: match hint {
                Some(h) => Some(h.to_string()),
                None => None,
            },
            config_diagnostics: None,
        }
    }

    /// The same check with the diagnostics that it rests on.
    pub fn with_config_diagnostics(self, diagnostics: ConfigDiagnostics) -> (r: DoctorCheck)
        ensures
            r@ == self@.resting_on(diagnostics),
    {
        DoctorCheck {
            status: self.status,
            id: self.id,
            summary: self.summary,
            detail: self.detail,
            hint: self.hint,
            config_diagnostics: Some(diagnostics),
        }
    }
}

/// How many checks came out how.
#[derive(Debug, Clone, Copy, PartialEq, Eq, Structural)]
pub struct DoctorSummary {
    pub passed: usize,
    pub warnings: usize,
    pub errors: usize,
}

impl Default for DoctorSummary {
    fn default() -> (r: DoctorSummary)
        ensures
            r == (DoctorSummary { passed: 0, warnings: 0, errors: 0 }),
    {
        DoctorSummary { passed: 0, warnings: 0, errors: 0 }
    }
}

/// The report.
#[derive(Debug)]
pub struct DoctorReport {
    pub schema_version: u32,
    pub backend: String,
    pub status: DoctorStatus,
    pub summary: DoctorSummary,
    pub checks: Vec<DoctorCheck>,
}

/// How many of the first `n` checks have a status.
pub open spec fn count_of(checks: Seq<DoctorCheck>, status: DoctorStatus, n: int) -> nat
    decreases n,
{
    if n <= 0 {
        0
    } else {
        count_of(checks, status, n - 1) + if checks[n - 1].status == status {
            1nat
        } else {
            0
        }
    }
}

/// The most serious status of the first `n` checks.
pub open spec fn worst_of(checks: Seq<DoctorCheck>, n: int) -> DoctorStatus
    decreases n,
{
    if n <= 0 {
        DoctorStatus::Pass
    } else {
        let before = worst_of(checks, n - 1);
        if checks[n - 1].status.weight() > before.weight() {
            checks[n - 1].status
        } else {
            before
        }
    }
}

proof fn counts_bounded(checks: Seq<DoctorCheck>, n: int)
    requires
        0 <= n,
    ensures
        count_of(checks, DoctorStatus::Pass, n) + count_of(checks, DoctorStatus::Warning, n)
            + count_of(checks, DoctorStatus::Error, n) == n,
    decreases n,
{
    if n > 0 {
        counts_bounded(checks, n - 1);
    }
}

/// The status of a report is that of its most serious check: no check is more
/// serious, and one is as serious unless there is none; and every check is
/// counted once.
pub proof fn report_is_as_serious_as_its_checks(checks: Seq<DoctorCheck>)
    ensures
        forall|i: int|
            0 <= i < checks.len() ==> (#[trigger] checks[i]).status.weight() <= worst_of(
                checks,
                checks.len() as int,
            ).weight(),
        worst_of(checks, checks.len() as int) != DoctorStatus::Pass ==> exists|i: int|
            0 <= i < checks.len() && (#[trigger] checks[i]).status == worst_of(
                checks,
                checks.len() as int,
            ),
        count_of(checks, DoctorStatus::Pass, checks.len() as int) + count_of(
            checks,
            DoctorStatus::Warning,
            checks.len() as int,
        ) + count_of(checks, DoctorStatus::Error, checks.len() as int) == checks.len(),
{
    counts_bounded(checks, checks.len() as int);
    worst_is_reached(checks, checks.len() as int);
}

proof fn worst_is_reached(checks: Seq<DoctorCheck>, n: int)
    requires
        0 <= n <= checks.len(),
    ensures
        forall|i: int|
            0 <= i < n ==> (#[trigger] checks[i]).status.weight() <= worst_of(
                checks,
                n,
            ).weight(),
        worst_of(checks, n) != DoctorStatus::Pass ==> exists|i: int|
            0 <= i < n && (#[trigger] checks[i]).status == worst_of(checks, n),
    decreases n,
{
    if n > 0 {
        worst_is_reached(checks, n - 1);
        if worst_of(checks, n) != DoctorStatus::Pass {
            if checks[n - 1].status.weight() <= worst_of(checks, n - 1).weight() {
                let i = choose|i: int|
                    0 <= i < n - 1 && (#[trigger] checks[i]).status == worst_of(checks, n - 1);
                assert(checks[i].status == worst_of(checks, n));
            } else {
                assert(checks[n - 1].status == worst_of(checks, n));
            }
        }
    }
}

impl DoctorReport {
    /// The report of these checks.
    pub fn from_checks(choice: BackendChoice, checks: Vec<DoctorCheck>) -> (r: DoctorReport)
        ensures
            r.schema_version == 1,
            r.backend@ == choice.name(),
            r.checks == checks,
            r.status == worst_of(checks@, checks@.len() as int),
            r.summary.passed == count_of(checks@, DoctorStatus::Pass, checks@.len() as int),
            r.summary.warnings == count_of(checks@, DoctorStatus::Warning, checks@.len() as int),
            r.summary.errors == count_of(checks@, DoctorStatus::Error, checks@.len() as int),
    {
        let mut summary = DoctorSummary::default();
        let mut status = DoctorStatus::Pass;
        let mut i: usize = 0;
        while i < checks.len()
            invariant
                i <= checks@.len(),
                status == worst_of(checks@, i as int),
                summary.passed == count_of(checks@, DoctorStatus::Pass, i as int),
                summary.warnings == count_of(checks@, DoctorStatus::Warning, i as int),
                summary.errors == count_of(checks@, DoctorStatus::Error, i as int),
            decreases checks@.len() - i,
        {
            proof {
                counts_bounded(checks@, i as int);
            }
            let found: DoctorStatus = checks[i].status;
            match found {
                DoctorStatus::Pass => {
                    summary.passed = summary.passed + 1;
                },
                DoctorStatus::Warning => {
                    summary.warnings = summary.warnings + 1;
                },
                DoctorStatus::Error => {
                    summary.errors = summary.errors + 1;
                },
            }
            if found.rank() > status.rank() {
                status = found;
            }
            i = i + 1;
        }
        DoctorReport {
            schema_version: 1,
            backend: choice.as_str().to_string(),
            status,
            summary,
            checks,
        }
    }
}

/// `name` and `value` as an assignment.
pub open spec fn assignment(name: Seq<char>, value: Seq<char>) -> Seq<char> {
    name + "="@ + value
}

fn display_value(name: &str, value: &str) -> (r: String)
    ensures
        r@ == assignment(name@, value@),
{
    let mut r = name.to_string();
    r.append("=");
    r.append(value);
    r
}

/// A value that is set and not empty.
pub open spec fn set_value(value: Option<Seq<char>>) -> Option<Seq<char>> {
    match value {
        Some(v) => if v.len() > 0 {
            Some(v)
        } else {
            None
        },
        None => None,
    }
}

fn is_set(value: &Option<String>) -> (r: bool)
    ensures
        r == (set_value(text_of(*value)) is Some),
{
    match value {
        Some(v) => v.as_str().unicode_len() > 0,
        None => false,
    }
}

/// What looking for the devices of the graphics drivers found.
#[derive(Debug)]
pub enum DeviceProbe {
    /// There is nothing at the path; how the error reads.
    Missing(String),
    NotDirectory,
    /// The directory cannot be read; how the error reads.
    Unreadable(String),
    /// The names of its entries.
    Entries(Vec<String>),
}

/// Whether a device is a graphics card: `card` and a number.
pub open spec fn is_card(name: Seq<char>) -> bool {
    &&& begins_with(name, "card"@)
    &&& name.len() > 4
    &&& forall|i: int| 4 <= i < name.len() ==> is_digit(#[trigger] name[i])
}

fn card_name(name: &str) -> (r: bool)
    ensures
        r == is_card(name@),
{
    proof {
        reveal_strlit("card");
    }
    if !starts_with(name, "card") {
        return false;
    }
    let chars = chars_of(name);
    if chars.len() <= 4 {
        return false;
    }
    let mut i: usize = 4;
    while i < chars.len()
        invariant
            4 <= i <= chars@.len(),
            chars@ == name@,
            forall|j: int| 4 <= j < i ==> is_digit(#[trigger] name@[j]),
        decreases chars@.len() - i,
    {
        if !('0' <= chars[i] && chars[i] <= '9') {
            assert(!is_digit(name@[i as int]));
            return false;
        }
        i = i + 1;
    }
    true
}

/// `name` put into a sorted list, after those that do not come after it.
pub open spec fn placed(sorted: Seq<Seq<char>>, name: Seq<char>) -> Seq<Seq<char>>
    decreases sorted.len(),
{
    if sorted.len() > 0 && precedes(name, sorted.last()) {
        placed(sorted.drop_last(), name).push(sorted.last())
    } else {
        sorted.push(name)
    }
}

/// The graphics cards among the first `n` names, sorted.
pub open spec fn cards_in(names: Seq<Seq<char>>, n: int) -> Seq<Seq<char>>
    decreases n,
{
    if n <= 0 {
        Seq::empty()
    } else if is_card(names[n - 1]) {
        placed(cards_in(names, n - 1), names[n - 1])
    } else {
        cards_in(names, n - 1)
    }
}

fn place(sorted: &mut Vec<String>, name: String)
    ensures
        views(final(sorted)@) == placed(views(old(sorted)@), name@),
    decreases old(sorted)@.len(),
{
    let ghost before = sorted@;
    match sorted.pop() {
        None => {
            sorted.push(name);
            assert(views(sorted@) =~= views(before).push(name@));
        },
        Some(last) => {
            assert(views(sorted@) =~= views(before).drop_last());
            let ghost rest = sorted@;
            if is_before(name.as_str(), last.as_str()) {
                place(sorted, name);
                let ghost with_name = sorted@;
                sorted.push(last);
                assert(views(sorted@) =~= views(with_name).push(last@));
            } else {
                sorted.push(last);
                sorted.push(name);
                assert(views(sorted@) =~= views(before).push(name@));
            }
        },
    }
}

/// The graphics cards among the entries, sorted.
pub fn card_names(entries: &Vec<String>) -> (r: Vec<String>)
    ensures
        views(r@) == cards_in(views(entries@), entries@.len() as int),
{
    let mut cards: Vec<String> = Vec::new();
    assert(views(cards@) =~= Seq::empty());
    let mut i: usize = 0;
    while i < entries.len()
        invariant
            i <= entries@.len(),
            views(cards@) == cards_in(views(entries@), i as int),
        decreases entries@.len() - i,
    {
        if card_name(entries[i].as_str()) {
            place(&mut cards, entries[i].clone());
        }
        i = i + 1;
    }
    cards
}

/// Texts with a separator between them.
fn join_strings(parts: &Vec<String>, sep: &str) -> (r: String)
    ensures
        r@ == joined(views(parts@), sep@),
{
    let mut r = String::new();
    let mut i: usize = 0;
    assert(views(parts@).take(0) =~= Seq::empty());
    while i < parts.len()
        invariant
            i <= parts@.len(),
            r@ == joined(views(parts@).take(i as int), sep@),
        decreases parts@.len() - i,
    {
        if i > 0 {
            r.append(sep);
        }
        r.append(parts[i].as_str());
        proof {
            let t = views(parts@).take(i + 1);
            assert(t.drop_last() =~= views(parts@).take(i as int));
            assert(t.last() == parts@[i as int]@);
        }
        i = i + 1;
    }
    assert(views(parts@).take(i as int) =~= views(parts@));
    r
}

/// A check as plain values.
pub open spec fn check(
    status: DoctorStatus,
    id: Seq<char>,
    summary: Seq<char>,
    detail: Option<Seq<char>>,
    hint: Option<Seq<char>>,
) -> CheckView {
    CheckView { status, id, summary, detail, hint, config_diagnostics: None }
}

/// What looking at the configuration file found.
#[derive(Debug)]
pub enum ConfigProbe {
    Missing,
    /// It cannot be inspected; how the error reads.
    Failed(String),
    NotFile,
    /// It cannot be read as a configuration; how the error reads.
    Invalid(String),
    /// It was read and checked; how the diagnostics read.
    Checked(ConfigDiagnostics, String),
}

/// How serious diagnostics are.
pub open spec fn diagnosed(diagnostics: ConfigDiagnostics) -> DoctorStatus {
    if count_level(diagnostics@, ConfigDiagnosticLevel::Error) > 0 {
        DoctorStatus::Error
    } else if count_level(diagnostics@, ConfigDiagnosticLevel::Warning) > 0 {
        DoctorStatus::Warning
    } else {
        DoctorStatus::Pass
    }
}

/// How the checks of a configuration file come out: one check of the file, and
/// one of its contents where there is a file.
pub open spec fn config_checks(
    displayed: Seq<char>,
    probe: ConfigProbe,
    choice: BackendChoice,
) -> Seq<CheckView> {
    let file = check(
        DoctorStatus::Pass,
        "config.file"@,
        "The selected backend configuration exists"@,
        Some(displayed),
        None,
    );
    match probe {
        ConfigProbe::Missing => Seq::empty().push(
            check(
                DoctorStatus::Warning,
                "config.file"@,
                "The selected backend configuration does not exist yet"@,
                Some(displayed),
                Some("Run `jwm --gen-config`; first startup can also generate defaults"@),
            ),
        ),
        ConfigProbe::Failed(error) => Seq::empty().push(
            check(
                DoctorStatus::Error,
                "config.file"@,
                "The selected backend configuration cannot be inspected"@,
                Some(displayed + ": "@ + error@),
                Some("Check the path and its parent-directory permissions"@),
            ),
        ),
        ConfigProbe::NotFile => Seq::empty().push(
            check(
                DoctorStatus::Error,
                "config.file"@,
                "The selected configuration path is not a regular file"@,
                Some(displayed),
                Some("Move the directory or special file aside, then run `jwm --gen-config`"@),
            ),
        ),
        ConfigProbe::Invalid(error) => Seq::empty().push(file).push(
            check(
                DoctorStatus::Error,
                "config.validation"@,
                "Configuration syntax or structure is invalid"@,
                Some(error@),
                Some(
                    "Fix the file, then run `jwm --backend "@ + choice.name()
                        + " --check-config`"@,
                ),
            ),
        ),
        ConfigProbe::Checked(diagnostics, described) => Seq::empty().push(file).push(
            check(
                diagnosed(diagnostics),
                "config.validation"@,
                match diagnosed(diagnostics) {
                    DoctorStatus::Pass => "Configuration syntax and semantics are valid"@,
                    DoctorStatus::Warning => "Configuration is usable with "@ + decimal(
                        count_level(diagnostics@, ConfigDiagnosticLevel::Warning) as int,
                    ) + " warning(s)"@,
                    DoctorStatus::Error => "Configuration has "@ + decimal(
                        count_level(diagnostics@, ConfigDiagnosticLevel::Error) as int,
                    ) + " semantic error(s)"@,
                },
                if diagnostics@.len() > 0 {
                    Some(described@)
                } else {
                    None
                },
                if diagnosed(diagnostics) != DoctorStatus::Pass {
                    Some(
                        "Fix the reported values, then run `jwm --backend "@ + choice.name()
                            + " --check-config`"@,
                    )
                } else {
                    None
                },
            ).resting_on(diagnostics),
        ),
    }
}

/// The views of checks.
pub open spec fn check_views(checks: Seq<DoctorCheck>) -> Seq<CheckView> {
    Seq::new(checks.len(), |i: int| checks[i]@)
}

fn counted(before: &str, n: usize, after: &str) -> (r: String)
    ensures
        r@ == before@ + decimal(n as int) + after@,
{
    let mut r = before.to_string();
    push_nat(&mut r, n as u64);
    r.append(after);
    r
}

fn around(before: &str, middle: &str, after: &str) -> (r: String)
    ensures
        r@ == before@ + middle@ + after@,
{
    let mut r = before.to_string();
    r.append(middle);
    r.append(after);
    r
}

fn one_check(c: DoctorCheck) -> (r: Vec<DoctorCheck>)
    ensures
        check_views(r@) == Seq::empty().push(c@),
{
    let mut r: Vec<DoctorCheck> = Vec::new();
    r.push(c);
    assert(check_views(r@) =~= Seq::empty().push(c@));
    r
}

fn two_checks(a: DoctorCheck, b: DoctorCheck) -> (r: Vec<DoctorCheck>)
    ensures
        check_views(r@) == Seq::empty().push(a@).push(b@),
{
    let mut r: Vec<DoctorCheck> = Vec::new();
    r.push(a);
    r.push(b);
    assert(check_views(r@) =~= Seq::empty().push(a@).push(b@));
    r
}

fn config_file_exists(displayed: &str) -> (r: DoctorCheck)
    ensures
        r@ == check(
            DoctorStatus::Pass,
            "config.file"@,
            "The selected backend configuration exists"@,
            Some(displayed@),
            None,
        ),
{
    DoctorCheck::new(
        DoctorStatus::Pass,
        "config.file",
        "The selected backend configuration exists",
        Some(displayed.to_string()),
        None,
    )
}

/// Judges the configuration file.
pub fn check_config(displayed: &str, probe: ConfigProbe, choice: BackendChoice) -> (r: Vec<
    DoctorCheck,
>)
    ensures
        check_views(r@) == config_checks(displayed@, probe, choice),
{
    match probe {
        ConfigProbe::Missing => one_check(
            DoctorCheck::new(
                DoctorStatus::Warning,
                "config.file",
                "The selected backend configuration does not exist yet",
                Some(displayed.to_string()),
                Some("Run `jwm --gen-config`; first startup can also generate defaults"),
            ),
        ),
        ConfigProbe::Failed(error) => one_check(
            DoctorCheck::new(
                DoctorStatus::Error,
                "config.file",
                "The selected backend configuration cannot be inspected",
                Some(around(displayed, ": ", error.as_str())),
                Some("Check the path and its parent-directory permissions"),
            ),
        ),
        ConfigProbe::NotFile => one_check(
            DoctorCheck::new(
                DoctorStatus::Error,
                "config.file",
                "The selected configuration path is not a regular file",
                Some(displayed.to_string()),
                Some("Move the directory or special file aside, then run `jwm --gen-config`"),
            ),
        ),
        ConfigProbe::Invalid(error) => {
            let hint = around(
                "Fix the file, then run `jwm --backend ",
                choice.as_str(),
                " --check-config`",
            );
            two_checks(
                config_file_exists(displayed),
                DoctorCheck::new(
                    DoctorStatus::Error,
                    "config.validation",
                    "Configuration syntax or structure is invalid",
                    Some(error),
                    Some(hint.as_str()),
                ),
            )
        },
        ConfigProbe::Checked(diagnostics, described) => {
            let hint = around(
                "Fix the reported values, then run `jwm --backend ",
                choice.as_str(),
                " --check-config`",
            );
            let errors: usize = diagnostics.error_count();
            let warnings: usize = diagnostics.warning_count();
            let detail = if diagnostics.is_empty() { None } else { Some(described) };
            let validation = if errors > 0 {
                let summary = counted("Configuration has ", errors, " semantic error(s)");
                DoctorCheck::new(
                    DoctorStatus::Error,
                    "config.validation",
                    summary.as_str(),
                    detail,
                    Some(hint.as_str()),
                )
            } else if warnings > 0 {
                let summary = counted("Configuration is usable with ", warnings, " warning(s)");
                DoctorCheck::new(
                    DoctorStatus::Warning,
                    "config.validation",
                    summary.as_str(),
                    detail,
                    Some(hint.as_str()),
                )
            } else {
                DoctorCheck::new(
                    DoctorStatus::Pass,
                    "config.validation",
                    "Configuration syntax and semantics are valid",
                    detail,
                    None,
                )
            };
            two_checks(
                config_file_exists(displayed),
                validation.with_config_diagnostics(diagnostics),
            )
        },
    }
}

/// What looking at the runtime directory found.
#[derive(Debug)]
pub enum DirectoryProbe {
    /// It cannot be inspected; how the error reads.
    Failed(String),
    NotDirectory,
    /// Its owner and its mode.
    Directory(u32, u32),
}

/// The permissions of a mode.
pub open spec fn permissions(mode: u32) -> u32 {
    mode & 511
}

/// Permissions in octal, four digits wide.
pub open spec fn octal(mode: u32) -> Seq<char> {
    let digits = numeral(permissions(mode) as nat, 8);
    Seq::new((4 - digits.len()) as nat, |i: int| '0') + digits
}

/// What is wrong with an owner and a mode.
pub open spec fn directory_problems(owner: u32, mode: u32, uid: u32) -> Seq<Seq<char>> {
    let p = permissions(mode);
    let s = Seq::empty();
    let s = if owner != uid {
        s.push(
            "owned by uid "@ + decimal(owner as int) + ", but the effective uid is "@ + decimal(
                uid as int,
            ),
        )
    } else {
        s
    };
    let s = if p & 63 != 0 {
        s.push("mode "@ + octal(mode) + " grants access to group or other users"@)
    } else {
        s
    };
    if p & 448 != 448 {
        s.push("mode "@ + octal(mode) + " does not grant owner rwx access"@)
    } else {
        s
    }
}

/// How the check of the runtime directory comes out. Where a private directory
/// is required, whatever is wrong with it is an error, else a warning.
pub open spec fn runtime_dir_check(
    path: Option<Seq<char>>,
    probe: DirectoryProbe,
    uid: u32,
    required: bool,
) -> CheckView {
    let failure = if required {
        DoctorStatus::Error
    } else {
        DoctorStatus::Warning
    };
    let id = "runtime.xdg_runtime_dir"@;
    match set_value(path) {
        None => check(
            failure,
            id,
            "XDG_RUNTIME_DIR is not set"@,
            Some(
                if required {
                    "Wayland socket creation requires a private runtime directory"@
                } else {
                    "JWM IPC will use its private /tmp fallback"@
                },
            ),
            Some("Use the login-session value, normally /run/user/$(id -u)"@),
        ),
        Some(path) => if path[0] != '/' {
            check(
                failure,
                id,
                "XDG_RUNTIME_DIR must be an absolute path"@,
                Some(path),
                Some("Set it to the absolute runtime directory created by the login session"@),
            )
        } else {
            match probe {
                DirectoryProbe::Failed(error) => check(
                    failure,
                    id,
                    "XDG_RUNTIME_DIR cannot be inspected"@,
                    Some(path + ": "@ + error@),
                    Some(
                        "Ensure the login session created the directory and that it is accessible"@,
                    ),
                ),
                DirectoryProbe::NotDirectory => check(
                    failure,
                    id,
                    "XDG_RUNTIME_DIR is not a directory"@,
                    Some(path),
                    Some(
                        "Point XDG_RUNTIME_DIR at the login session's private runtime directory"@,
                    ),
                ),
                DirectoryProbe::Directory(owner, mode) => if directory_problems(
                    owner,
                    mode,
                    uid,
                ).len() > 0 {
                    check(
                        failure,
                        id,
                        "XDG_RUNTIME_DIR ownership or permissions are unsafe"@,
                        Some(path + ": "@ + joined(directory_problems(owner, mode, uid), "; "@)),
                        Some("Use a directory owned by the current user with mode 0700"@),
                    )
                } else {
                    check(
                        DoctorStatus::Pass,
                        id,
                        "XDG_RUNTIME_DIR is private and usable"@,
                        Some(
                            path + " (uid "@ + decimal(owner as int) + ", mode "@ + octal(mode)
                                + ")"@,
                        ),
                        None,
                    )
                },
            }
        },
    }
}

proof fn octal_is_short(n: nat)
    requires
        n <= 511,
    ensures
        numeral(n, 8).len() <= 3,
{
    reveal_with_fuel(numeral, 4);
}

fn push_octal(r: &mut String, mode: u32)
    ensures
        final(r)@ == old(r)@ + octal(mode),
{
    let p: u32 = mode & 511;
    assert(mode & 511 <= 511) by (bit_vector);
    let ghost before = r@;
    let ghost digits = numeral(p as nat, 8);
    proof {
        octal_is_short(p as nat);
        reveal_with_fuel(numeral, 4);
    }
    r.push('0');
    if p < 64 {
        r.push('0');
        if p < 8 {
            r.push('0');
        }
    }
    push_numeral(r, p as u64, 8);
    assert(r@ =~= before + octal(mode));
}

fn push_problem(problems: &mut Vec<String>, problem: String)
    ensures
        views(final(problems)@) == views(old(problems)@).push(problem@),
{
    let ghost before = problems@;
    problems.push(problem);
    assert(views(problems@) =~= views(before).push(problem@));
}

fn find_problems(owner: u32, mode: u32, uid: u32) -> (r: Vec<String>)
    ensures
        views(r@) == directory_problems(owner, mode, uid),
        r@.len() == directory_problems(owner, mode, uid).len(),
{
    let p: u32 = mode & 511;
    let mut problems: Vec<String> = Vec::new();
    assert(views(problems@) =~= Seq::empty());
    if owner != uid {
        let mut text = "owned by uid ".to_string();
        push_nat(&mut text, owner as u64);
        text.append(", but the effective uid is ");
        push_nat(&mut text, uid as u64);
        push_problem(&mut problems, text);
    }
    if p & 63 != 0 {
        let mut text = "mode ".to_string();
        push_octal(&mut text, mode);
        text.append(" grants access to group or other users");
        push_problem(&mut problems, text);
    }
    if p & 448 != 448 {
        let mut text = "mode ".to_string();
        push_octal(&mut text, mode);
        text.append(" does not grant owner rwx access");
        push_problem(&mut problems, text);
    }
    assert(views(problems@).len() == problems@.len());
    problems
}

/// Judges the runtime directory.
pub fn check_runtime_dir(
    path: &Option<String>,
    probe: &DirectoryProbe,
    effective_uid: u32,
    required: bool,
) -> (r: DoctorCheck)
    ensures
        r@ == runtime_dir_check(text_of(*path), *probe, effective_uid, required),
{
    let failure = if required { DoctorStatus::Error } else { DoctorStatus::Warning };
    let id = "runtime.xdg_runtime_dir";
    if !is_set(path) {
        return DoctorCheck::new(
            failure,
            id,
            "XDG_RUNTIME_DIR is not set",
            Some(
                if required {
                    "Wayland socket creation requires a private runtime directory".to_string()
                } else {
                    "JWM IPC will use its private /tmp fallback".to_string()
                },
            ),
            Some("Use the login-session value, normally /run/user/$(id -u)"),
        );
    }
    let shown: String = match path {
        Some(p) => p.clone(),
        None => String::new(),
    };
    if shown.as_str().get_char(0) != '/' {
        return DoctorCheck::new(
            failure,
            id,
            "XDG_RUNTIME_DIR must be an absolute path",
            Some(shown),
            Some("Set it to the absolute runtime directory created by the login session"),
        );
    }
    match probe {
        DirectoryProbe::Failed(error) => DoctorCheck::new(
            failure,
            id,
            "XDG_RUNTIME_DIR cannot be inspected",
            Some(around(shown.as_str(), ": ", error.as_str())),
            Some("Ensure the login session created the directory and that it is accessible"),
        ),
        DirectoryProbe::NotDirectory => DoctorCheck::new(
            failure,
            id,
            "XDG_RUNTIME_DIR is not a directory",
            Some(shown),
            Some("Point XDG_RUNTIME_DIR at the login session's private runtime directory"),
        ),
        DirectoryProbe::Directory(owner, mode) => {
            let problems = find_problems(*owner, *mode, effective_uid);
            if problems.len() > 0 {
                let all = join_strings(&problems, "; ");
                DoctorCheck::new(
                    failure,
                    id,
                    "XDG_RUNTIME_DIR ownership or permissions are unsafe",
                    Some(around(shown.as_str(), ": ", all.as_str())),
                    Some("Use a directory owned by the current user with mode 0700"),
                )
            } else {
                let mut detail = shown;
                detail.append(" (uid ");
                push_nat(&mut detail, *owner as u64);
                detail.append(", mode ");
                push_octal(&mut detail, *mode);
                detail.append(")");
                DoctorCheck::new(
                    DoctorStatus::Pass,
                    id,
                    "XDG_RUNTIME_DIR is private and usable",
                    Some(detail),
                    None,
                )
            }
        },
    }
}

/// A directory passes exactly when it is an absolute path that exists, belongs
/// to the user, and is open to the user alone; and what does not pass is an
/// error exactly where the directory is required.
pub proof fn runtime_dir_must_be_private(
    path: Option<Seq<char>>,
    probe: DirectoryProbe,
    uid: u32,
    required: bool,
)
    ensures
        ({
            let status = runtime_dir_check(path, probe, uid, required).status;
            &&& status == DoctorStatus::Pass <==> {
                &&& path is Some && path->0.len() > 0 && path->0[0] == '/'
                &&& probe matches DirectoryProbe::Directory(owner, mode) && owner == uid
                    && permissions(mode) & 63 == 0 && permissions(mode) & 448 == 448
            }
            &&& status != DoctorStatus::Pass ==> (status == DoctorStatus::Error <==> required)
        }),
{
}

/// How the check of the graphics devices comes out.
pub open spec fn dri_check(path: Seq<char>, probe: DeviceProbe) -> CheckView {
    let id = "backend.dri"@;
    match probe {
        DeviceProbe::Missing(error) => check(
            DoctorStatus::Error,
            id,
            "The DRM/KMS backend cannot find /dev/dri"@,
            Some(path + ": "@ + error@),
            Some("Use a DRM-capable system/session or select a nested backend"@),
        ),
        DeviceProbe::NotDirectory => check(
            DoctorStatus::Error,
            id,
            "The configured DRM path is not a directory"@,
            Some(path),
            Some("Expected a device directory containing card0/card1-style nodes"@),
        ),
        DeviceProbe::Unreadable(error) => check(
            DoctorStatus::Error,
            id,
            "The DRM device directory cannot be read"@,
            Some(error@),
            Some("Check device permissions and the active seat/session"@),
        ),
        DeviceProbe::Entries(entries) => {
            let cards = cards_in(views(entries@), entries@.len() as int);
            if cards.len() == 0 {
                check(
                    DoctorStatus::Error,
                    id,
                    "No DRM card device is present"@,
                    Some(path),
                    Some("Check kernel DRM drivers, device permissions and seat assignment"@),
                )
            } else {
                check(
                    DoctorStatus::Pass,
                    id,
                    "At least one DRM/KMS card device is present"@,
                    Some(joined(cards, ", "@)),
                    None,
                )
            }
        },
    }
}

/// Judges the graphics devices.
pub fn check_dri(path: &str, probe: &DeviceProbe) -> (r: DoctorCheck)
    ensures
        r@ == dri_check(path@, *probe),
{
    let id = "backend.dri";
    match probe {
        DeviceProbe::Missing(error) => DoctorCheck::new(
            DoctorStatus::Error,
            id,
            "The DRM/KMS backend cannot find /dev/dri",
            Some(around(path, ": ", error.as_str())),
            Some("Use a DRM-capable system/session or select a nested backend"),
        ),
        DeviceProbe::NotDirectory => DoctorCheck::new(
            DoctorStatus::Error,
            id,
            "The configured DRM path is not a directory",
            Some(path.to_string()),
            Some("Expected a device directory containing card0/card1-style nodes"),
        ),
        DeviceProbe::Unreadable(error) => DoctorCheck::new(
            DoctorStatus::Error,
            id,
            "The DRM device directory cannot be read",
            Some(error.clone()),
            Some("Check device permissions and the active seat/session"),
        ),
        DeviceProbe::Entries(entries) => {
            let cards = card_names(entries);
            assert(views(cards@).len() == cards@.len());
            if cards.len() == 0 {
                DoctorCheck::new(
                    DoctorStatus::Error,
                    id,
                    "No DRM card device is present",
                    Some(path.to_string()),
                    Some("Check kernel DRM drivers, device permissions and seat assignment"),
                )
            } else {
                DoctorCheck::new(
                    DoctorStatus::Pass,
                    id,
                    "At least one DRM/KMS card device is present",
                    Some(join_strings(&cards, ", ")),
                    None,
                )
            }
        },
    }
}

/// How the check of what a backend needs comes out: an X display, a display of
/// either kind, or graphics devices.
pub open spec fn backend_check(
    choice: BackendChoice,
    display: Option<Seq<char>>,
    wayland_display: Option<Seq<char>>,
    dri_path: Seq<char>,
    dri: DeviceProbe,
) -> CheckView {
    match choice {
        BackendChoice::X11rb | BackendChoice::Xcb | BackendChoice::WaylandX11 => match set_value(
            display,
        ) {
            Some(value) => check(
                DoctorStatus::Pass,
                "backend.display"@,
                "An X11 host display is configured"@,
                Some(assignment("DISPLAY"@, value)),
                None,
            ),
            None => check(
                DoctorStatus::Error,
                "backend.display"@,
                "The selected backend requires DISPLAY"@,
                Some("backend="@ + choice.name()),
                Some("Run JWM from an X11 session or select a different backend"@),
            ),
        },
        BackendChoice::WaylandWinit => {
            let id = "backend.host_display"@;
            let summary = "A graphical host display is configured for winit"@;
            match (set_value(wayland_display), set_value(display)) {
                (None, None) => check(
                    DoctorStatus::Error,
                    id,
                    "The winit backend needs a Wayland or X11 host display"@,
                    Some("Neither WAYLAND_DISPLAY nor DISPLAY is set"@),
                    Some("Run it inside an existing graphical session"@),
                ),
                (Some(w), None) => check(
                    DoctorStatus::Pass,
                    id,
                    summary,
                    Some(assignment("WAYLAND_DISPLAY"@, w)),
                    None,
                ),
                (None, Some(d)) => check(
                    DoctorStatus::Pass,
                    id,
                    summary,
                    Some(assignment("DISPLAY"@, d)),
                    None,
                ),
                (Some(w), Some(d)) => check(
                    DoctorStatus::Pass,
                    id,
                    summary,
                    Some(assignment("WAYLAND_DISPLAY"@, w) + ", "@ + assignment("DISPLAY"@, d)),
                    None,
                ),
            }
        },
        BackendChoice::WaylandUdev => dri_check(dri_path, dri),
    }
}

fn assigned(name: &str, value: &Option<String>) -> (r: Option<String>)
    ensures
        text_of(r) == (match set_value(text_of(*value)) {
            Some(v) => Some(assignment(name@, v)),
            None => None,
        }),
{
    if !is_set(value) {
        return None;
    }
    match value {
        Some(v) => Some(display_value(name, v.as_str())),
        None => None,
    }
}

/// Judges what a backend needs.
pub fn check_backend_requirements(
    choice: BackendChoice,
    display: &Option<String>,
    wayland_display: &Option<String>,
    dri_path: &str,
    dri: &DeviceProbe,
) -> (r: DoctorCheck)
    ensures
        r@ == backend_check(
            choice,
            text_of(*display),
            text_of(*wayland_display),
            dri_path@,
            *dri,
        ),
{
    match choice {
        BackendChoice::X11rb | BackendChoice::Xcb | BackendChoice::WaylandX11 => match assigned(
            "DISPLAY",
            display,
        ) {
            Some(detail) => DoctorCheck::new(
                DoctorStatus::Pass,
                "backend.display",
                "An X11 host display is configured",
                Some(detail),
                None,
            ),
            None => {
                let mut detail = "backend=".to_string();
                detail.append(choice.as_str());
                DoctorCheck::new(
                    DoctorStatus::Error,
                    "backend.display",
                    "The selected backend requires DISPLAY",
                    Some(detail),
                    Some("Run JWM from an X11 session or select a different backend"),
                )
            },
        },
        BackendChoice::WaylandWinit => {
            let id = "backend.host_display";
            let summary = "A graphical host display is configured for winit";
            match (assigned("WAYLAND_DISPLAY", wayland_display), assigned("DISPLAY", display)) {
                (None, None) => DoctorCheck::new(
                    DoctorStatus::Error,
                    id,
                    "The winit backend needs a Wayland or X11 host display",
                    Some("Neither WAYLAND_DISPLAY nor DISPLAY is set".to_string()),
                    Some("Run it inside an existing graphical session"),
                ),
                (Some(w), None) => DoctorCheck::new(DoctorStatus::Pass, id, summary, Some(w), None),
                (None, Some(d)) => DoctorCheck::new(DoctorStatus::Pass, id, summary, Some(d), None),
                (Some(w), Some(d)) => DoctorCheck::new(
                    DoctorStatus::Pass,
                    id,
                    summary,
                    Some(around(w.as_str(), ", ", d.as_str())),
                    None,
                ),
            }
        },
        BackendChoice::WaylandUdev => check_dri(dri_path, dri),
    }
}

/// How the check of the message bus comes out.
pub open spec fn dbus_check(address: EnvValue) -> CheckView {
    let id = "session.dbus"@;
    let unset = check(
        DoctorStatus::Warning,
        id,
        "DBUS_SESSION_BUS_ADDRESS is not set"@,
        Some("JWM will try the systemd user bus and then dbus-launch"@),
        Some("Start JWM from a normal login session if application activation fails"@),
    );
    match address {
        EnvValue::Unset => unset,
        EnvValue::NotUtf8 => check(
            DoctorStatus::Warning,
            id,
            "DBUS_SESSION_BUS_ADDRESS is not valid UTF-8"@,
            None,
            Some("Use the address exported by the login session"@),
        ),
        EnvValue::Text(text) => if text@.len() == 0 {
            unset
        } else {
            check(
                DoctorStatus::Pass,
                id,
                "A D-Bus session address is configured"@,
                Some(
                    "transport="@ + (match split_at_first(text@, ':') {
                        Some((scheme, _)) => scheme,
                        None => "unknown"@,
                    }),
                ),
                None,
            )
        },
    }
}

fn no_bus() -> (r: DoctorCheck)
    ensures
        r@ == dbus_check(EnvValue::Unset),
{
    DoctorCheck::new(
        DoctorStatus::Warning,
        "session.dbus",
        "DBUS_SESSION_BUS_ADDRESS is not set",
        Some("JWM will try the systemd user bus and then dbus-launch".to_string()),
        Some("Start JWM from a normal login session if application activation fails"),
    )
}

/// Judges the message bus.
pub fn check_dbus(address: &EnvValue) -> (r: DoctorCheck)
    ensures
        r@ == dbus_check(*address),
{
    match address {
        EnvValue::Unset => no_bus(),
        EnvValue::NotUtf8 => DoctorCheck::new(
            DoctorStatus::Warning,
            "session.dbus",
            "DBUS_SESSION_BUS_ADDRESS is not valid UTF-8",
            None,
            Some("Use the address exported by the login session"),
        ),
        EnvValue::Text(text) => {
            if text.as_str().unicode_len() == 0 {
                return no_bus();
            }
            let mut detail = "transport=".to_string();
            match split_once(text.as_str(), ':') {
                Some((scheme, _)) => detail.append(scheme.as_str()),
                None => detail.append("unknown"),
            }
            DoctorCheck::new(
                DoctorStatus::Pass,
                "session.dbus",
                "A D-Bus session address is configured",
                Some(detail),
                None,
            )
        },
    }
}

/// How the check of the command line tool comes out, where `found` is its path.
pub open spec fn tool_check(path_is_set: bool, found: Option<Seq<char>>) -> CheckView {
    let id = "command.jwm_tool"@;
    if !path_is_set {
        check(
            DoctorStatus::Warning,
            id,
            "PATH is empty, so jwm-tool cannot be discovered"@,
            None,
            Some("Install jwm-tool and add its directory to PATH"@),
        )
    } else {
        match found {
            Some(executable) => check(
                DoctorStatus::Pass,
                id,
                "jwm-tool is available in PATH"@,
                Some(executable),
                None,
            ),
            None => check(
                DoctorStatus::Warning,
                id,
                "jwm-tool is not executable from PATH"@,
                None,
                Some("Install the matching jwm-tool binary or add its directory to PATH"@),
            ),
        }
    }
}

/// Judges the command line tool.
pub fn check_jwm_tool(path_is_set: bool, found: Option<String>) -> (r: DoctorCheck)
    ensures
        r@ == tool_check(path_is_set, text_of(found)),
{
    let id = "command.jwm_tool";
    if !path_is_set {
        return DoctorCheck::new(
            DoctorStatus::Warning,
            id,
            "PATH is empty, so jwm-tool cannot be discovered",
            None,
            Some("Install jwm-tool and add its directory to PATH"),
        );
    }
    match found {
        Some(executable) => DoctorCheck::new(
            DoctorStatus::Pass,
            id,
            "jwm-tool is available in PATH",
            Some(executable),
            None,
        ),
        None => DoctorCheck::new(
            DoctorStatus::Warning,
            id,
            "jwm-tool is not executable from PATH",
            None,
            Some("Install the matching jwm-tool binary or add its directory to PATH"),
        ),
    }
}

/// Whether a file can be run: a regular file that someone may execute.
pub fn is_executable(is_file: bool, mode: u32) -> (r: bool)
    ensures
        r == (is_file && mode & 73 != 0),
{
    is_file && mode & 73 != 0
}

/// Where the file that a command runs is looked for.
#[derive(Debug, Clone, Copy, PartialEq, Eq, Structural)]
pub enum CommandLookup {
    /// Nowhere: there is no command, or no list of directories.
    Nowhere,
    /// The command is the path of the file.
    File,
    /// In the directories of PATH.
    Directories,
}

/// Where the file that a command runs is looked for.
pub open spec fn lookup_of(command: Seq<char>, path_given: bool) -> CommandLookup {
    if command.len() == 0 {
        CommandLookup::Nowhere
    } else if command.contains('/') {
        CommandLookup::File
    } else if path_given {
        CommandLookup::Directories
    } else {
        CommandLookup::Nowhere
    }
}

/// Where the file that a command runs is looked for.
pub fn command_lookup(command: &str, path_given: bool) -> (r: CommandLookup)
    ensures
        r == lookup_of(command@, path_given),
{
    let chars = chars_of(command);
    if chars.len() == 0 {
        return CommandLookup::Nowhere;
    }
    let mut i: usize = 0;
    while i < chars.len()
        invariant
            chars@ == command@,
            chars@.len() > 0,
            i <= chars@.len(),
            forall|k: int| 0 <= k < i ==> command@[k] != '/',
        decreases chars@.len() - i,
    {
        if chars[i] == '/' {
            assert(command@[i as int] == '/');
            return CommandLookup::File;
        }
        i += 1;
    }
    if path_given { CommandLookup::Directories } else { CommandLookup::Nowhere }
}

/// The command of the status bar that a configuration asks for.
pub open spec fn bar_command(name: Seq<char>) -> Seq<char> {
    trimmed(name)
}

/// What is known of the status bar.
#[derive(Debug)]
pub enum BarProbe {
    /// The configuration cannot be read; how the error reads.
    Invalid(String),
    /// Whether a bar is shown, the name of its program, and where that was
    /// found.
    Configured(bool, String, Option<String>),
}

/// How the check of the status bar comes out, where `quoted` is how its command
/// reads in quotes.
pub open spec fn status_bar_check(probe: BarProbe, quoted: Seq<char>) -> CheckView {
    let id = "command.status_bar"@;
    match probe {
        BarProbe::Invalid(error) => check(
            DoctorStatus::Warning,
            id,
            "Status bar discovery was skipped because configuration is invalid"@,
            Some(error@),
            Some("Fix the configuration errors reported above"@),
        ),
        BarProbe::Configured(show, name, found) => if !show {
            check(
                DoctorStatus::Pass,
                id,
                "The status bar is disabled by configuration"@,
                None,
                None,
            )
        } else if bar_command(name@).len() == 0 {
            check(
                DoctorStatus::Error,
                id,
                "The status bar is enabled but no executable is configured"@,
                None,
                Some("Set status_bar.name or disable status_bar.show_bar"@),
            )
        } else {
            match found {
                Some(executable) => check(
                    DoctorStatus::Pass,
                    id,
                    "Configured status bar "@ + quoted + " is executable"@,
                    Some(executable@),
                    None,
                ),
                None => check(
                    DoctorStatus::Warning,
                    id,
                    "Configured status bar "@ + quoted + " is not executable from PATH"@,
                    None,
                    Some("Install the configured bar or update status_bar.name"@),
                ),
            }
        },
    }
}

/// Judges the status bar, where `quoted` is how its command reads in quotes.
pub fn judge_status_bar(probe: &BarProbe, quoted: &str) -> (r: DoctorCheck)
    ensures
        r@ == status_bar_check(*probe, quoted@),
{
    let id = "command.status_bar";
    match probe {
        BarProbe::Invalid(error) => DoctorCheck::new(
            DoctorStatus::Warning,
            id,
            "Status bar discovery was skipped because configuration is invalid",
            Some(error.clone()),
            Some("Fix the configuration errors reported above"),
        ),
        BarProbe::Configured(show, name, found) => {
            if !*show {
                return DoctorCheck::new(
                    DoctorStatus::Pass,
                    id,
                    "The status bar is disabled by configuration",
                    None,
                    None,
                );
            }
            let command = trim(name.as_str());
            if command.as_str().unicode_len() == 0 {
                return DoctorCheck::new(
                    DoctorStatus::Error,
                    id,
                    "The status bar is enabled but no executable is configured",
                    None,
                    Some("Set status_bar.name or disable status_bar.show_bar"),
                );
            }
            match found {
                Some(executable) => {
                    let summary = around("Configured status bar ", quoted, " is executable");
                    DoctorCheck::new(
                        DoctorStatus::Pass,
                        id,
                        summary.as_str(),
                        Some(executable.clone()),
                        None,
                    )
                },
                None => {
                    let summary = around(
                        "Configured status bar ",
                        quoted,
                        " is not executable from PATH",
                    );
                    DoctorCheck::new(
                        DoctorStatus::Warning,
                        id,
                        summary.as_str(),
                        None,
                        Some("Install the configured bar or update status_bar.name"),
                    )
                },
            }
        },
    }
}

/// How a text reads in quotes, with escapes where they are needed.
pub uninterp spec fn debug_text(s: Seq<char>) -> Seq<char>;

/// Calls the `Debug` formatting of `str` in std. Its result depends on the text
/// alone; what is escaped and how is left to std.
#[verifier::external_body]
fn quote(s: &str) -> (r: String)
    ensures
        r@ == debug_text(s@),
{
    format!("{:?}", s)
}

/// Judges the status bar.
pub fn check_status_bar(probe: &BarProbe) -> (r: DoctorCheck)
    ensures
        r@ == status_bar_check(
            *probe,
            match *probe {
                BarProbe::Configured(_, name, _) => debug_text(bar_command(name@)),
                BarProbe::Invalid(_) => Seq::empty(),
            },
        ),
{
    match probe {
        BarProbe::Configured(_, name, _) => {
            let command = trim(name.as_str());
            let quoted = quote(command.as_str());
            judge_status_bar(probe, quoted.as_str())
        },
        BarProbe::Invalid(_) => {
            let quoted = String::new();
            judge_status_bar(probe, quoted.as_str())
        },
    }
}

/// Everything that was seen.
#[derive(Debug)]
pub struct DoctorInputs {
    /// How the path of the configuration file reads.
    pub config_path: String,
    pub config: ConfigProbe,
    pub status_bar: BarProbe,
    pub xdg_runtime_dir: Option<String>,
    pub runtime_dir: DirectoryProbe,
    pub effective_uid: u32,
    pub display: Option<String>,
    pub wayland_display: Option<String>,
    pub dri_path: String,
    pub dri: DeviceProbe,
    pub dbus_session_bus_address: EnvValue,
    pub path_is_set: bool,
    pub jwm_tool: Option<String>,
}

/// All checks in their order.
pub open spec fn all_checks(choice: BackendChoice, inputs: DoctorInputs) -> Seq<CheckView> {
    config_checks(inputs.config_path@, inputs.config, choice).push(
        status_bar_check(
            inputs.status_bar,
            match inputs.status_bar {
                BarProbe::Configured(_, name, _) => debug_text(bar_command(name@)),
                BarProbe::Invalid(_) => Seq::empty(),
            },
        ),
    ).push(
        runtime_dir_check(
            text_of(inputs.xdg_runtime_dir),
            inputs.runtime_dir,
            inputs.effective_uid,
            choice != BackendChoice::X11rb && choice != BackendChoice::Xcb,
        ),
    ).push(
        backend_check(
            choice,
            text_of(inputs.display),
            text_of(inputs.wayland_display),
            inputs.dri_path@,
            inputs.dri,
        ),
    ).push(dbus_check(inputs.dbus_session_bus_address)).push(
        tool_check(inputs.path_is_set, text_of(inputs.jwm_tool)),
    )
}

fn add_check(checks: &mut Vec<DoctorCheck>, c: DoctorCheck)
    ensures
        check_views(final(checks)@) == check_views(old(checks)@).push(c@),
{
    let ghost before = checks@;
    checks.push(c);
    assert(check_views(checks@) =~= check_views(before).push(c@));
}

/// Judges everything that was seen.
pub fn diagnose(choice: BackendChoice, inputs: DoctorInputs) -> (r: DoctorReport)
    ensures
        check_views(r.checks@) == all_checks(choice, inputs),
        r.schema_version == 1,
        r.backend@ == choice.name(),
        r.status == worst_of(r.checks@, r.checks@.len() as int),
        r.summary.passed == count_of(r.checks@, DoctorStatus::Pass, r.checks@.len() as int),
        r.summary.warnings == count_of(r.checks@, DoctorStatus::Warning, r.checks@.len() as int),
        r.summary.errors == count_of(r.checks@, DoctorStatus::Error, r.checks@.len() as int),
{
    let required = match choice.family() {
        BackendFamily::Wayland => true,
        BackendFamily::X11 => false,
    };
    let status_bar = check_status_bar(&inputs.status_bar);
    let runtime_dir = check_runtime_dir(
        &inputs.xdg_runtime_dir,
        &inputs.runtime_dir,
        inputs.effective_uid,
        required,
    );
    let backend = check_backend_requirements(
        choice,
        &inputs.display,
        &inputs.wayland_display,
        inputs.dri_path.as_str(),
        &inputs.dri,
    );
    let dbus = check_dbus(&inputs.dbus_session_bus_address);
    let tool = check_jwm_tool(inputs.path_is_set, inputs.jwm_tool);
    let mut checks = check_config(inputs.config_path.as_str(), inputs.config, choice);
    add_check(&mut checks, status_bar);
    add_check(&mut checks, runtime_dir);
    add_check(&mut checks, backend);
    add_check(&mut checks, dbus);
    add_check(&mut checks, tool);
    DoctorReport::from_checks(choice, checks)
}

/// A backend has what it needs just where its display is set, and one that draws
/// on the devices itself where there is a graphics card; else that is an error.
pub proof fn backends_need_their_display(
    choice: BackendChoice,
    display: Option<Seq<char>>,
    wayland_display: Option<Seq<char>>,
    dri_path: Seq<char>,
    dri: DeviceProbe,
)
    ensures
        ({
            let status = backend_check(choice, display, wayland_display, dri_path, dri).status;
            let x11 = display is Some && display->0.len() > 0;
            let wayland = wayland_display is Some && wayland_display->0.len() > 0;
            let card = dri matches DeviceProbe::Entries(entries) && exists|i: int|
                0 <= i < entries@.len() && is_card(#[trigger] entries@[i]@);
            let enough = match choice {
                BackendChoice::X11rb => x11,
                BackendChoice::Xcb => x11,
                BackendChoice::WaylandX11 => x11,
                BackendChoice::WaylandWinit => x11 || wayland,
                BackendChoice::WaylandUdev => card,
            };
            &&& enough ==> status == DoctorStatus::Pass
            &&& !enough ==> status == DoctorStatus::Error
        }),
{
    if let DeviceProbe::Entries(entries) = dri {
        let names = views(entries@);
        let n = names.len() as int;
        some_card_is_listed(names, n);
        if cards_in(names, n).len() > 0 {
            let i = choose|i: int| 0 <= i < n && is_card(#[trigger] names[i]);
            assert(is_card(entries@[i]@));
        }
        if exists|i: int| 0 <= i < entries@.len() && is_card(#[trigger] entries@[i]@) {
            let i = choose|i: int| 0 <= i < entries@.len() && is_card(#[trigger] entries@[i]@);
            assert(is_card(names[i]));
        }
    }
}

proof fn some_card_is_listed(names: Seq<Seq<char>>, n: int)
    requires
        0 <= n <= names.len(),
    ensures
        cards_in(names, n).len() > 0 <==> exists|i: int|
            0 <= i < n && is_card(#[trigger] names[i]),
    decreases n,
{
    if n > 0 {
        some_card_is_listed(names, n - 1);
        placed_is_longer(cards_in(names, n - 1), names[n - 1]);
        if is_card(names[n - 1]) {
            assert(is_card(names[n - 1]));
        }
    }
}

proof fn placed_is_longer(sorted: Seq<Seq<char>>, name: Seq<char>)
    ensures
        placed(sorted, name).len() == sorted.len() + 1,
        placed(sorted, name).contains(name),
        forall|x: Seq<char>| #[trigger] sorted.contains(x) ==> placed(sorted, name).contains(x),
        forall|x: Seq<char>| #[trigger]
            placed(sorted, name).contains(x) ==> x == name || sorted.contains(x),
    decreases sorted.len(),
{
    let r = placed(sorted, name);
    if sorted.len() > 0 && precedes(name, sorted.last()) {
        let front = sorted.drop_last();
        placed_is_longer(front, name);
        let p = placed(front, name);
        assert(r == p.push(sorted.last()));
        assert(forall|k: int| 0 <= k < p.len() ==> #[trigger] r[k] == p[k]);
        assert(r[p.len() as int] == sorted.last());
        assert forall|x: Seq<char>| #[trigger] sorted.contains(x) implies r.contains(x) by {
            let k = choose|k: int| 0 <= k < sorted.len() && sorted[k] == x;
            if k < front.len() {
                assert(front[k] == x);
                assert(front.contains(x));
                let q = choose|q: int| 0 <= q < p.len() && p[q] == x;
                assert(r[q] == x);
            }
        }
        assert forall|x: Seq<char>| #[trigger] r.contains(x) implies x == name || sorted.contains(
            x,
        ) by {
            let k = choose|k: int| 0 <= k < r.len() && r[k] == x;
            if k < p.len() {
                assert(p.contains(x));
                if x != name {
                    let q = choose|q: int| 0 <= q < front.len() && front[q] == x;
                    assert(sorted[q] == x);
                }
            } else {
                assert(sorted[sorted.len() - 1] == x);
            }
        }
        let q = choose|q: int| 0 <= q < p.len() && p[q] == name;
        assert(r[q] == name);
    } else {
        assert(r == sorted.push(name));
        assert(r[sorted.len() as int] == name);
        assert(forall|k: int| 0 <= k < sorted.len() ==> #[trigger] r[k] == sorted[k]);
        assert forall|x: Seq<char>| #[trigger] sorted.contains(x) implies r.contains(x) by {
            let k = choose|k: int| 0 <= k < sorted.len() && sorted[k] == x;
            assert(r[k] == x);
        }
        assert forall|x: Seq<char>| #[trigger] r.contains(x) implies x == name || sorted.contains(
            x,
        ) by {
            let k = choose|k: int| 0 <= k < r.len() && r[k] == x;
            if k < sorted.len() {
                assert(sorted[k] == x);
            }
        }
    }
}

/// The cards that are listed are the graphics cards among the names, and all of
/// them.
pub proof fn the_cards_are_listed(names: Seq<Seq<char>>, n: int, name: Seq<char>)
    requires
        0 <= n <= names.len(),
    ensures
        cards_in(names, n).contains(name) <==> is_card(name) && exists|i: int|
            0 <= i < n && #[trigger] names[i] == name,
    decreases n,
{
    if n > 0 {
        the_cards_are_listed(names, n - 1, name);
        placed_is_longer(cards_in(names, n - 1), names[n - 1]);
        if names[n - 1] == name {
            assert(names[n - 1] == name);
        }
    } else {
        assert(!cards_in(names, n).contains(name));
    }
}

/// A status bar passes where none is shown or its program was found, is an
/// error where one is shown and none is named, and else a warning.
pub proof fn bars_need_their_program(probe: BarProbe, quoted: Seq<char>)
    ensures
        ({
            let status = status_bar_check(probe, quoted).status;
            match probe {
                BarProbe::Invalid(_) => status == DoctorStatus::Warning,
                BarProbe::Configured(show, name, found) => {
                    &&& !show ==> status == DoctorStatus::Pass
                    &&& show && trimmed(name@).len() == 0 ==> status == DoctorStatus::Error
                    &&& show && trimmed(name@).len() > 0 && found is Some ==> status
                        == DoctorStatus::Pass
                    &&& show && trimmed(name@).len() > 0 && found is None ==> status
                        == DoctorStatus::Warning
                },
            }
        }),
{
}

/// What is only a convenience is never an error: the message bus passes where
/// its address is set, the tool where it was found.
pub proof fn conveniences_are_never_errors(
    address: EnvValue,
    path_is_set: bool,
    found: Option<Seq<char>>,
)
    ensures
        dbus_check(address).status == (if address matches EnvValue::Text(text) && text@.len() > 0 {
            DoctorStatus::Pass
        } else {
            DoctorStatus::Warning
        }),
        tool_check(path_is_set, found).status == (if path_is_set && found is Some {
            DoctorStatus::Pass
        } else {
            DoctorStatus::Warning
        }),
{
}

/// Whether a check says what to do just where it does not pass.
pub open spec fn helps(c: CheckView) -> bool {
    c.status == DoctorStatus::Pass <==> c.hint is None
}

/// Every check says what to do just where it does not pass, and the checks come
/// in one order: the configuration, the bar, the directory, the backend, the bus,
/// the tool.
#[verifier::spinoff_prover]
#[verifier::rlimit(60)]
pub proof fn checks_help_in_order(choice: BackendChoice, inputs: DoctorInputs, i: int)
    requires
        0 <= i < all_checks(choice, inputs).len(),
    ensures
        ({
            let all = all_checks(choice, inputs);
            let n = all.len() as int;
            &&& n == 6 || n == 7
            &&& helps(all[i])
            &&& all[0].id == "config.file"@
            &&& n == 7 ==> all[1].id == "config.validation"@
            &&& all[n - 5].id == "command.status_bar"@
            &&& all[n - 4].id == "runtime.xdg_runtime_dir"@
            &&& all[n - 2].id == "session.dbus"@
            &&& all[n - 1].id == "command.jwm_tool"@
            &&& n == 7 <==> inputs.config is Invalid || inputs.config is Checked
        }),
{
}

/// A configuration is as serious as the most serious finding in it; one that is
/// missing is a warning, and one that cannot be used an error.
pub proof fn configurations_are_judged_by_their_findings(
    displayed: Seq<char>,
    probe: ConfigProbe,
    choice: BackendChoice,
)
    ensures
        ({
            let last = config_checks(displayed, probe, choice).last().status;
            match probe {
                ConfigProbe::Missing => last == DoctorStatus::Warning,
                ConfigProbe::Failed(_) => last == DoctorStatus::Error,
                ConfigProbe::NotFile => last == DoctorStatus::Error,
                ConfigProbe::Invalid(_) => last == DoctorStatus::Error,
                ConfigProbe::Checked(d, _) => {
                    let errors = count_level(d@, ConfigDiagnosticLevel::Error);
                    let warnings = count_level(d@, ConfigDiagnosticLevel::Warning);
                    &&& last == DoctorStatus::Error <==> errors > 0
                    &&& last == DoctorStatus::Pass <==> errors == 0 && warnings == 0
                },
            }
        }),
{
}

/// A card goes by the word and its number: a name without a number is none, and
/// neither is one with anything else behind the word.
pub proof fn cards_have_a_number(name: Seq<char>, number: Seq<char>)
    ensures
        is_card("card"@ + number) <==> number.len() > 0 && forall|i: int|
            0 <= i < number.len() ==> is_digit(#[trigger] number[i]),
        is_card(name) ==> name == "card"@ + name.skip(4),
{
    reveal_strlit("card");
    let word = "card"@;
    let whole = word + number;
    assert(whole.take(4) =~= word);
    assert(forall|i: int| 0 <= i < number.len() ==> #[trigger] number[i] == whole[i + 4]);
    if is_card(whole) {
        assert forall|i: int| 0 <= i < number.len() implies is_digit(#[trigger] number[i]) by {
            assert(is_digit(whole[i + 4]));
        }
    }
    if number.len() > 0 && forall|i: int|
        0 <= i < number.len() ==> is_digit(#[trigger] number[i]) {
        assert forall|i: int| 4 <= i < whole.len() implies is_digit(#[trigger] whole[i]) by {
            assert(whole[i] == number[i - 4]);
        }
    }
    if is_card(name) {
        assert(name =~= word + name.skip(4));
    }
}

} // verus!
