//! How a bar is presented: labels, icons, thresholds and what is visible.
use super::model::{AudioState, BatteryState, LayoutId, MonitorId, Percent, TagId};
use crate::config::bindings::clone_strings;
use crate::text::{decimal, push_int, push_nat, views};
use vstd::prelude::*;

verus! {

/// Names one control of a bar.
#[derive(Debug, Clone, Copy, PartialEq, Eq, Structural)]
pub enum NodeId {
    Tag(TagId),
    LayoutButton,
    LayoutOption(LayoutId),
    Client,
    Clock,
    Screenshot,
    Theme,
    Battery,
    Brightness,
    Audio,
    Memory,
    Cpu,
    Monitor,
}

/// How serious a metric is.
#[derive(Debug, Clone, Copy, PartialEq, Eq, Structural)]
pub enum MetricTone {
    Unavailable,
    Good,
    Moderate,
    High,
    Critical,
}

/// The band that a volume falls into.
#[derive(Debug, Clone, Copy, PartialEq, Eq, Structural)]
pub enum VolumeLevel {
    Unavailable,
    Muted,
    Low,
    Medium,
    High,
}

/// Where a load becomes moderate, high and critical: above these shares.
#[derive(Debug, Clone, Copy, PartialEq, Eq, Structural)]
pub struct UsageThresholds {
    moderate: Percent,
    high: Percent,
    critical: Percent,
}

impl UsageThresholds {
    /// The three shares, in hundredths of a percent.
    pub closed spec fn shares(self) -> (int, int, int) {
        (self.moderate.exact(), self.high.exact(), self.critical.exact())
    }

    /// These shares, where they do not fall.
    pub fn new(moderate: Percent, high: Percent, critical: Percent) -> (r: Option<UsageThresholds>)
        ensures
            match r {
                Some(t) => moderate.exact() <= high.exact() <= critical.exact() && t.shares() == (
                    moderate.exact(),
                    high.exact(),
                    critical.exact(),
                ),
                None => !(moderate.exact() <= high.exact() <= critical.exact()),
            },
    {
        if moderate.hundredths() <= high.hundredths() && high.hundredths()
            <= critical.hundredths() {
            Some(UsageThresholds { moderate, high, critical })
        } else {
            None
        }
    }

    /// How serious a load is.
    pub open spec fn judged(self, load: Option<Percent>) -> MetricTone {
        match load {
            None => MetricTone::Unavailable,
            Some(p) => if p.exact() > self.shares().2 {
                MetricTone::Critical
            } else if p.exact() > self.shares().1 {
                MetricTone::High
            } else if p.exact() > self.shares().0 {
                MetricTone::Moderate
            } else {
                MetricTone::Good
            },
        }
    }

    /// How serious a load is.
    pub fn tone(&self, load: Option<Percent>) -> (r: MetricTone)
        ensures
            r == self.judged(load),
    {
        match load {
            None => MetricTone::Unavailable,
            Some(p) => if p.hundredths() > self.critical.hundredths() {
                MetricTone::Critical
            } else if p.hundredths() > self.high.hundredths() {
                MetricTone::High
            } else if p.hundredths() > self.moderate.hundredths() {
                MetricTone::Moderate
            } else {
                MetricTone::Good
            },
        }
    }
}

/// The share of `value` percent, at most the whole.
fn whole(value: u32) -> (r: Percent)
    requires
        value <= 100,
    ensures
        r.exact() == 100 * value,
{
    Percent::from_whole(value).unwrap()
}

impl Default for UsageThresholds {
    fn default() -> (r: UsageThresholds)
        ensures
            r.shares() == (4000int, 6000int, 8000int),
    {
        UsageThresholds { moderate: whole(40), high: whole(60), critical: whole(80) }
    }
}

/// Where a battery becomes critical, low and middling: at or below these
/// shares.
#[derive(Debug, Clone, Copy, PartialEq, Eq, Structural)]
pub struct BatteryThresholds {
    critical: Percent,
    low: Percent,
    middling: Percent,
}

impl BatteryThresholds {
    /// The three shares, in hundredths of a percent.
    pub closed spec fn shares(self) -> (int, int, int) {
        (self.critical.exact(), self.low.exact(), self.middling.exact())
    }

    /// How serious the state of a battery is.
    pub open spec fn judged(self, battery: BatteryState) -> MetricTone {
        match battery.percent {
            Some(p) if battery.present => if p.exact() <= self.shares().0 {
                MetricTone::Critical
            } else if p.exact() <= self.shares().1 {
                MetricTone::High
            } else if p.exact() <= self.shares().2 {
                MetricTone::Moderate
            } else {
                MetricTone::Good
            },
            _ => MetricTone::Unavailable,
        }
    }

    /// How serious the state of a battery is.
    pub fn tone_for(&self, battery: BatteryState) -> (r: MetricTone)
        ensures
            r == self.judged(battery),
    {
        if !battery.present {
            return MetricTone::Unavailable;
        }
        match battery.percent {
            None => MetricTone::Unavailable,
            Some(p) => if p.hundredths() <= self.critical.hundredths() {
                MetricTone::Critical
            } else if p.hundredths() <= self.low.hundredths() {
                MetricTone::High
            } else if p.hundredths() <= self.middling.hundredths() {
                MetricTone::Moderate
            } else {
                MetricTone::Good
            },
        }
    }
}

impl Default for BatteryThresholds {
    fn default() -> (r: BatteryThresholds)
        ensures
            r.shares() == (2000int, 4000int, 6000int),
    {
        BatteryThresholds { critical: whole(20), low: whole(40), middling: whole(60) }
    }
}

/// Where a volume stops being low and medium: above these shares.
#[derive(Debug, Clone, Copy, PartialEq, Eq, Structural)]
pub struct VolumeThresholds {
    low: Percent,
    medium: Percent,
}

impl VolumeThresholds {
    /// The two shares, in hundredths of a percent.
    pub closed spec fn shares(self) -> (int, int) {
        (self.low.exact(), self.medium.exact())
    }

    /// The band of a volume.
    pub open spec fn judged(self, audio: AudioState) -> VolumeLevel {
        match audio.volume_percent {
            None => VolumeLevel::Unavailable,
            Some(p) => if audio.muted {
                VolumeLevel::Muted
            } else if p.exact() <= self.shares().0 {
                VolumeLevel::Low
            } else if p.exact() <= self.shares().1 {
                VolumeLevel::Medium
            } else {
                VolumeLevel::High
            },
        }
    }

    /// The band of a volume.
    pub fn level_for(&self, audio: AudioState) -> (r: VolumeLevel)
        ensures
            r == self.judged(audio),
    {
        match audio.volume_percent {
            None => VolumeLevel::Unavailable,
            Some(p) => if audio.muted {
                VolumeLevel::Muted
            } else if p.hundredths() <= self.low.hundredths() {
                VolumeLevel::Low
            } else if p.hundredths() <= self.medium.hundredths() {
                VolumeLevel::Medium
            } else {
                VolumeLevel::High
            },
        }
    }
}

impl Default for VolumeThresholds {
    fn default() -> (r: VolumeThresholds)
        ensures
            r.shares() == (3300int, 6600int),
    {
        VolumeThresholds { low: whole(33), medium: whole(66) }
    }
}

/// Which controls are shown.
#[derive(Debug, Clone, Copy, PartialEq, Eq, Structural)]
pub struct PresentationVisibility {
    pub client_name: bool,
    pub monitor: bool,
    pub system: bool,
    pub audio: bool,
    pub brightness: bool,
    pub battery: bool,
    pub theme: bool,
    pub screenshot: bool,
    pub clock: bool,
}

impl Default for PresentationVisibility {
    fn default() -> (r: PresentationVisibility)
        ensures
            r == (PresentationVisibility {
                client_name: true,
                monitor: true,
                system: true,
                audio: true,
                brightness: true,
                battery: true,
                theme: true,
                screenshot: true,
                clock: true,
            }),
    {
        PresentationVisibility {
            client_name: true,
            monitor: true,
            system: true,
            audio: true,
            brightness: true,
            battery: true,
            theme: true,
            screenshot: true,
            clock: true,
        }
    }
}

/// The words beside the values.
#[derive(Debug, Clone, PartialEq)]
pub struct PresentationLabels {
    pub clock: String,
    pub screenshot: String,
    pub theme_dark: String,
    pub theme_light: String,
    pub charging: String,
    pub battery: String,
    pub brightness: String,
    pub muted: String,
    pub audio: String,
    pub memory: String,
    pub cpu: String,
    pub monitor: String,
}

impl Default for PresentationLabels {
    fn default() -> (r: PresentationLabels)
        ensures
            r.clock@ == ""@,
            r.screenshot@ == "shot"@,
            r.theme_dark@ == "dark"@,
            r.theme_light@ == "light"@,
            r.charging@ == "chg"@,
            r.battery@ == "bat"@,
            r.brightness@ == "bri"@,
            r.muted@ == "mute"@,
            r.audio@ == "vol"@,
            r.memory@ == "mem"@,
            r.cpu@ == "cpu"@,
            r.monitor@ == "mon"@,
    {
        PresentationLabels {
            clock: "".to_string(),
            screenshot: "shot".to_string(),
            theme_dark: "dark".to_string(),
            theme_light: "light".to_string(),
            charging: "chg".to_string(),
            battery: "bat".to_string(),
            brightness: "bri".to_string(),
            muted: "mute".to_string(),
            audio: "vol".to_string(),
            memory: "mem".to_string(),
            cpu: "cpu".to_string(),
            monitor: "mon".to_string(),
        }
    }
}

/// Icons for what changes its band.
#[derive(Debug, Clone, PartialEq)]
pub struct IconSet {
    pub volume_unavailable: String,
    pub volume_muted: String,
    pub volume_low: String,
    pub volume_medium: String,
    pub volume_high: String,
    pub battery_absent: String,
    pub battery_charging: String,
    pub battery_discharging: String,
    /// What stands before the number of a monitor.
    pub monitor_prefix: String,
    pub tags: Vec<String>,
}

impl IconSet {
    /// The icon of a volume.
    pub open spec fn volume_of(self, level: VolumeLevel) -> Seq<char> {
        match level {
            VolumeLevel::Unavailable => self.volume_unavailable@,
            VolumeLevel::Muted => self.volume_muted@,
            VolumeLevel::Low => self.volume_low@,
            VolumeLevel::Medium => self.volume_medium@,
            VolumeLevel::High => self.volume_high@,
        }
    }

    /// The icon of a battery.
    pub open spec fn battery_of(self, battery: BatteryState) -> Seq<char> {
        if !battery.present {
            self.battery_absent@
        } else if battery.charging {
            self.battery_charging@
        } else {
            self.battery_discharging@
        }
    }

    /// The icon of a volume.
    pub fn volume_icon(&self, level: VolumeLevel) -> (r: String)
        ensures
            r@ == self.volume_of(level),
    {
        match level {
            VolumeLevel::Unavailable => self.volume_unavailable.clone(),
            VolumeLevel::Muted => self.volume_muted.clone(),
            VolumeLevel::Low => self.volume_low.clone(),
            VolumeLevel::Medium => self.volume_medium.clone(),
            VolumeLevel::High => self.volume_high.clone(),
        }
    }

    /// The icon of a battery.
    pub fn battery_icon(&self, battery: BatteryState) -> (r: String)
        ensures
            r@ == self.battery_of(battery),
    {
        if !battery.present {
            self.battery_absent.clone()
        } else if battery.charging {
            self.battery_charging.clone()
        } else {
            self.battery_discharging.clone()
        }
    }

    /// How a monitor is named.
    pub fn monitor_label(&self, monitor: MonitorId) -> (r: String)
        ensures
            r@ == self.monitor_prefix@ + decimal(monitor.0 as int),
    {
        let mut r = self.monitor_prefix.clone();
        push_int(&mut r, monitor.0 as i64);
        r
    }

    /// The icon of a tag; past the last one, its number.
    pub fn tag_icon(&self, index: usize) -> (r: String)
        ensures
            r@ == if index < self.tags@.len() {
                self.tags@[index as int]@
            } else {
                decimal(next_number(index))
            },
    {
        if index < self.tags.len() {
            self.tags[index].clone()
        } else {
            number_after(index)
        }
    }

    /// Glyphs of the Nerd Fonts.
    pub fn nerd_font() -> (r: IconSet)
        ensures
            r.volume_unavailable@ == "\u{f026}?"@,
            r.volume_muted@ == "\u{eee8}"@,
            r.volume_low@ == "\u{f026}"@,
            r.volume_medium@ == "\u{f027}"@,
            r.volume_high@ == "\u{f028}"@,
            r.battery_absent@ == "\u{f1e6}"@,
            r.battery_charging@ == "\u{f0e7}"@,
            r.battery_discharging@ == "\u{f240}"@,
            r.monitor_prefix@ == "M"@,
            views(r.tags@) == seq![
                "\u{f120}"@,
                "\u{f0ac}"@,
                "\u{f121}"@,
                "\u{f07b}"@,
                "\u{f075}"@,
                "\u{f001}"@,
                "\u{f03d}"@,
                "\u{f11b}"@,
                "\u{f013}"@,
            ],
    {
        let mut tags: Vec<String> = Vec::new();
        tags.push("\u{f120}".to_string());
        tags.push("\u{f0ac}".to_string());
        tags.push("\u{f121}".to_string());
        tags.push("\u{f07b}".to_string());
        tags.push("\u{f075}".to_string());
        tags.push("\u{f001}".to_string());
        tags.push("\u{f03d}".to_string());
        tags.push("\u{f11b}".to_string());
        tags.push("\u{f013}".to_string());
        IconSet {
            volume_unavailable: "\u{f026}?".to_string(),
            volume_muted: "\u{eee8}".to_string(),
            volume_low: "\u{f026}".to_string(),
            volume_medium: "\u{f027}".to_string(),
            volume_high: "\u{f028}".to_string(),
            battery_absent: "\u{f1e6}".to_string(),
            battery_charging: "\u{f0e7}".to_string(),
            battery_discharging: "\u{f240}".to_string(),
            monitor_prefix: "M".to_string(),
            tags,
        }
    }
}

/// The number of a tag as people count: one more than its index, no more than
/// a number holds.
pub open spec fn next_number(index: usize) -> int {
    if index < usize::MAX {
        index + 1
    } else {
        index as int
    }
}

pub(crate) fn number_after(index: usize) -> (r: String)
    ensures
        r@ == decimal(next_number(index)),
{
    let mut r = String::new();
    let number: usize = if index < usize::MAX { index + 1 } else { index };
    push_nat(&mut r, number as u64);
    r
}

/// A layout that can be chosen.
#[derive(Debug, Clone, PartialEq)]
pub struct LayoutChoice {
    pub id: LayoutId,
    pub label: String,
}

/// Everything that decides how a bar is presented.
#[derive(Debug, Clone, PartialEq)]
pub struct PresentationConfig {
    pub tag_labels: Vec<String>,
    pub layouts: Vec<LayoutChoice>,
    pub visibility: PresentationVisibility,
    pub labels: PresentationLabels,
    pub icon_set: Option<IconSet>,
    pub usage_thresholds: UsageThresholds,
    pub battery_thresholds: BatteryThresholds,
    pub volume_thresholds: VolumeThresholds,
}

impl Default for PresentationConfig {
    fn default() -> (r: PresentationConfig)
        ensures
            r.tag_labels@ == Seq::<String>::empty(),
            r.layouts@ == Seq::<LayoutChoice>::empty(),
            call_ensures(PresentationLabels::default, (), r.labels),
            r.visibility == (PresentationVisibility {
                client_name: true,
                monitor: true,
                system: true,
                audio: true,
                brightness: true,
                battery: true,
                theme: true,
                screenshot: true,
                clock: true,
            }),
            r.icon_set is None,
            r.usage_thresholds.shares() == (4000int, 6000int, 8000int),
            r.battery_thresholds.shares() == (2000int, 4000int, 6000int),
            r.volume_thresholds.shares() == (3300int, 6600int),
    {
        PresentationConfig {
            tag_labels: Vec::new(),
            layouts: Vec::new(),
            visibility: PresentationVisibility::default(),
            labels: PresentationLabels::default(),
            icon_set: None,
            usage_thresholds: UsageThresholds::default(),
            battery_thresholds: BatteryThresholds::default(),
            volume_thresholds: VolumeThresholds::default(),
        }
    }
}

impl PresentationConfig {
    /// The same presentation with icons, which label the tags too.
    pub fn with_icon_set(self, icons: &IconSet) -> (r: PresentationConfig)
        ensures
            r.icon_set is Some,
            r.icon_set->0.same_icons(*icons),
            views(r.tag_labels@) == views(icons.tags@),
            r.layouts == self.layouts,
            r.visibility == self.visibility,
            r.labels == self.labels,
            r.usage_thresholds == self.usage_thresholds,
            r.battery_thresholds == self.battery_thresholds,
            r.volume_thresholds == self.volume_thresholds,
    {
        PresentationConfig {
            tag_labels: clone_strings(icons.tags.as_slice()),
            layouts: self.layouts,
            visibility: self.visibility,
            labels: self.labels,
            icon_set: Some(icons.copy()),
            usage_thresholds: self.usage_thresholds,
            battery_thresholds: self.battery_thresholds,
            volume_thresholds: self.volume_thresholds,
        }
    }
}

impl IconSet {
    /// The two sets show the same icons.
    pub open spec fn same_icons(self, other: IconSet) -> bool {
        &&& self.volume_unavailable@ == other.volume_unavailable@
        &&& self.volume_muted@ == other.volume_muted@
        &&& self.volume_low@ == other.volume_low@
        &&& self.volume_medium@ == other.volume_medium@
        &&& self.volume_high@ == other.volume_high@
        &&& self.battery_absent@ == other.battery_absent@
        &&& self.battery_charging@ == other.battery_charging@
        &&& self.battery_discharging@ == other.battery_discharging@
        &&& self.monitor_prefix@ == other.monitor_prefix@
        &&& views(self.tags@) == views(other.tags@)
    }

    fn copy(&self) -> (r: IconSet)
        ensures
            r.same_icons(*self),
    {
        IconSet {
            volume_unavailable: self.volume_unavailable.clone(),
            volume_muted: self.volume_muted.clone(),
            volume_low: self.volume_low.clone(),
            volume_medium: self.volume_medium.clone(),
            volume_high: self.volume_high.clone(),
            battery_absent: self.battery_absent.clone(),
            battery_charging: self.battery_charging.clone(),
            battery_discharging: self.battery_discharging.clone(),
            monitor_prefix: self.monitor_prefix.clone(),
            tags: clone_strings(self.tags.as_slice()),
        }
    }
}

} // verus!
