//! The controls of a bar, without geometry or colours: what each says, how
//! serious it is, and what pointing at it does.
use super::model::{
    AudioState, BarSnapshot, BatteryState, MAX_MODEL_TAGS, MonitorId, Percent, SnapshotView, TagId,
    ThemeMode, UserAction, tag_at,
};
use super::presentation::{
    IconSet, MetricTone, NodeId, PresentationConfig, PresentationLabels, VolumeLevel, next_number,
    number_after,
};
use crate::text::{decimal, push_int, push_nat};
use vstd::prelude::*;

verus! {

/// Stands for a value that is not known.
pub const UNKNOWN_VALUE: &'static str = "--";

/// The status controls, from the right edge to the left. Hidden ones are left
/// out; the others keep this order.
pub const STATUS_ORDER_RIGHT_TO_LEFT: [NodeId; 9] = [
    NodeId::Clock,
    NodeId::Screenshot,
    NodeId::Theme,
    NodeId::Battery,
    NodeId::Brightness,
    NodeId::Audio,
    NodeId::Memory,
    NodeId::Cpu,
    NodeId::Monitor,
];

/// The state of a control.
#[derive(Debug, Clone, Copy, PartialEq, Eq, Structural)]
pub struct ControlState {
    pub hovered: bool,
    pub pressed: bool,
    pub selected: bool,
    pub urgent: bool,
    pub filled: bool,
    pub occupied: bool,
    pub enabled: bool,
}

/// Nothing set.
pub open spec fn idle() -> ControlState {
    ControlState {
        hovered: false,
        pressed: false,
        selected: false,
        urgent: false,
        filled: false,
        occupied: false,
        enabled: false,
    }
}

impl Default for ControlState {
    fn default() -> (r: ControlState)
        ensures
            r == idle(),
    {
        ControlState {
            hovered: false,
            pressed: false,
            selected: false,
            urgent: false,
            filled: false,
            occupied: false,
            enabled: false,
        }
    }
}

/// What pointing at a control does.
#[derive(Debug, Clone, Copy, PartialEq, Eq, Structural)]
pub struct InputBindings {
    pub primary: Option<UserAction>,
    pub secondary: Option<UserAction>,
    pub scroll_up: Option<UserAction>,
    pub scroll_down: Option<UserAction>,
}

/// Nothing.
pub open spec fn unbound() -> InputBindings {
    InputBindings { primary: None, secondary: None, scroll_up: None, scroll_down: None }
}

impl Default for InputBindings {
    fn default() -> (r: InputBindings)
        ensures
            r == unbound(),
    {
        InputBindings { primary: None, secondary: None, scroll_up: None, scroll_down: None }
    }
}

impl InputBindings {
    /// Whether pointing does nothing.
    pub fn is_empty(self) -> (r: bool)
        ensures
            r == (self == unbound()),
    {
        self.primary.is_none() && self.secondary.is_none() && self.scroll_up.is_none()
            && self.scroll_down.is_none()
    }
}

/// One control.
#[derive(Debug, Clone, PartialEq)]
pub struct ControlSpec {
    pub id: NodeId,
    /// A glyph or a short word.
    pub icon: String,
    /// What changes; [`UNKNOWN_VALUE`] where a metric is not known.
    pub value: String,
    /// How serious a metric is; nothing for what is no metric.
    pub tone: Option<MetricTone>,
    /// The band of a volume.
    pub volume_level: Option<VolumeLevel>,
    pub progress: Option<Percent>,
    /// Whether what the control shows is known.
    pub available: bool,
    pub state: ControlState,
    pub bindings: InputBindings,
}

/// One control as plain values.
#[verifier::ext_equal]
pub struct ControlView {
    pub id: NodeId,
    pub icon: Seq<char>,
    pub value: Seq<char>,
    pub tone: Option<MetricTone>,
    pub volume_level: Option<VolumeLevel>,
    pub progress: Option<Percent>,
    pub available: bool,
    pub state: ControlState,
    pub bindings: InputBindings,
}

impl View for ControlSpec {
    type V = ControlView;

    open spec fn view(&self) -> ControlView {
        ControlView {
            id: self.id,
            icon: self.icon@,
            value: self.value@,
            tone: self.tone,
            volume_level: self.volume_level,
            progress: self.progress,
            available: self.available,
            state: self.state,
            bindings: self.bindings,
        }
    }
}

/// Icon and value with a space between them, where there are both.
pub open spec fn joined_text(icon: Seq<char>, value: Seq<char>) -> Seq<char> {
    if icon.len() == 0 {
        value
    } else if value.len() == 0 {
        icon
    } else {
        icon + seq![' '] + value
    }
}

impl ControlSpec {
    /// What the control says.
    pub fn text(&self) -> (r: String)
        ensures
            r@ == joined_text(self.icon@, self.value@),
    {
        let bare_icon = is_empty(self.icon.as_str());
        let bare_value = is_empty(self.value.as_str());
        if bare_icon {
            self.value.clone()
        } else if bare_value {
            self.icon.clone()
        } else {
            let mut r = self.icon.clone();
            r.push(' ');
            r.append(self.value.as_str());
            assert(r@ =~= self.icon@ + seq![' '] + self.value@);
            r
        }
    }

    /// The control of something that the window manager has to be there for.
    fn needing(self, available: bool) -> (r: ControlSpec)
        ensures
            r@ == self@.needing(available),
    {
        let mut c = self;
        c.available = available;
        c.state.enabled = available && !c.bindings.is_empty();
        c
    }

    fn known(self, available: bool) -> (r: ControlSpec)
        ensures
            r@ == (ControlView { available, ..self@ }),
    {
        let mut c = self;
        c.available = available;
        c
    }
}

/// What a text says never begins or ends with a space that neither part has.
pub proof fn no_stray_space(icon: Seq<char>, value: Seq<char>)
    ensures
        icon.len() == 0 ==> joined_text(icon, value) == value,
        value.len() == 0 ==> joined_text(icon, value) == icon,
{
    if icon.len() == 0 && value.len() == 0 {
        assert(icon =~= value);
    }
}

impl ControlView {
    /// The control of something that the window manager has to be there for.
    pub open spec fn needing(self, available: bool) -> ControlView {
        ControlView {
            available,
            state: ControlState {
                enabled: available && self.bindings != unbound(),
                ..self.state
            },
            ..self
        }
    }
}

fn is_empty(s: &str) -> (r: bool)
    ensures
        r == (s@.len() == 0),
{
    s.unicode_len() == 0
}

/// A control: available unless its metric is not, enabled where pointing at it
/// does something.
pub open spec fn control_of(
    id: NodeId,
    icon: Seq<char>,
    value: Seq<char>,
    tone: Option<MetricTone>,
    volume_level: Option<VolumeLevel>,
    progress: Option<Percent>,
    state: ControlState,
    bindings: InputBindings,
) -> ControlView {
    ControlView {
        id,
        icon,
        value,
        tone,
        volume_level,
        progress,
        available: tone != Some(MetricTone::Unavailable),
        state: ControlState { enabled: bindings != unbound(), ..state },
        bindings,
    }
}

/// A control.
pub fn control(
    id: NodeId,
    icon: String,
    value: String,
    tone: Option<MetricTone>,
    volume_level: Option<VolumeLevel>,
    progress: Option<Percent>,
    state: ControlState,
    bindings: InputBindings,
) -> (r: ControlSpec)
    ensures
        r@ == control_of(id, icon@, value@, tone, volume_level, progress, state, bindings),
{
    let mut state = state;
    state.enabled = !bindings.is_empty();
    let unavailable = match tone {
        Some(MetricTone::Unavailable) => true,
        _ => false,
    };
    ControlSpec {
        id,
        icon,
        value,
        tone,
        volume_level,
        progress,
        available: !unavailable,
        state,
        bindings,
    }
}

/// How a share reads: in whole percents, or not known.
pub open spec fn percent_text(value: Option<Percent>) -> Seq<char> {
    match value {
        Some(p) => decimal(p.nearest()) + seq!['%'],
        None => UNKNOWN_VALUE@,
    }
}

/// How a share reads.
pub fn percent_value(value: Option<Percent>) -> (r: String)
    ensures
        r@ == percent_text(value),
{
    match value {
        Some(p) => {
            let mut r = String::new();
            push_nat(&mut r, p.rounded() as u64);
            r.push('%');
            assert(r@ =~= percent_text(value));
            r
        },
        None => UNKNOWN_VALUE.to_string(),
    }
}

/// The tone of something that is not known.
pub open spec fn unknown_tone(unknown: bool) -> Option<MetricTone> {
    if unknown {
        Some(MetricTone::Unavailable)
    } else {
        None
    }
}

fn tone_if_unknown(unknown: bool) -> (r: Option<MetricTone>)
    ensures
        r == unknown_tone(unknown),
{
    if unknown { Some(MetricTone::Unavailable) } else { None }
}

/// The label of a theme.
pub open spec fn theme_icon(theme: ThemeMode, labels: PresentationLabels) -> Seq<char> {
    match theme {
        ThemeMode::Dark => labels.theme_dark@,
        ThemeMode::Light => labels.theme_light@,
    }
}

fn theme_label(theme: ThemeMode, labels: &PresentationLabels) -> (r: String)
    ensures
        r@ == theme_icon(theme, *labels),
{
    match theme {
        ThemeMode::Dark => labels.theme_dark.clone(),
        ThemeMode::Light => labels.theme_light.clone(),
    }
}

/// The icon of a battery, or its label where there are no icons.
pub open spec fn battery_icon_of(battery: BatteryState, config: PresentationConfig) -> Seq<char> {
    match config.icon_set {
        Some(icons) => icons.battery_of(battery),
        None => if battery.present && battery.charging {
            config.labels.charging@
        } else {
            config.labels.battery@
        },
    }
}

fn battery_label(battery: BatteryState, config: &PresentationConfig) -> (r: String)
    ensures
        r@ == battery_icon_of(battery, *config),
{
    match &config.icon_set {
        Some(icons) => icons.battery_icon(battery),
        None => if battery.present && battery.charging {
            config.labels.charging.clone()
        } else {
            config.labels.battery.clone()
        },
    }
}

/// The icon of a volume, or its label where there are no icons.
pub open spec fn audio_icon_of(audio: AudioState, config: PresentationConfig) -> Seq<char> {
    match config.icon_set {
        Some(icons) => icons.volume_of(config.volume_thresholds.judged(audio)),
        None => if audio.muted {
            config.labels.muted@
        } else {
            config.labels.audio@
        },
    }
}

fn audio_label(audio: AudioState, config: &PresentationConfig) -> (r: String)
    ensures
        r@ == audio_icon_of(audio, *config),
{
    match &config.icon_set {
        Some(icons) => icons.volume_icon(config.volume_thresholds.level_for(audio)),
        None => if audio.muted {
            config.labels.muted.clone()
        } else {
            config.labels.audio.clone()
        },
    }
}

/// How a monitor is named.
pub open spec fn monitor_text(monitor: MonitorId, icons: Option<IconSet>) -> Seq<char> {
    match icons {
        Some(icons) => icons.monitor_prefix@ + decimal(monitor.0 as int),
        None => decimal(monitor.0 as int),
    }
}

fn monitor_value(monitor: MonitorId, icons: &Option<IconSet>) -> (r: String)
    ensures
        r@ == monitor_text(monitor, *icons),
{
    match icons {
        Some(icons) => icons.monitor_label(monitor),
        None => {
            let mut r = String::new();
            push_int(&mut r, monitor.0 as i64);
            assert(r@ =~= decimal(monitor.0 as int));
            r
        },
    }
}

/// The control of the clock.
pub open spec fn clock_control(view: SnapshotView, config: PresentationConfig) -> ControlView {
    let labels = config.labels;
    control_of(
        NodeId::Clock,
        labels.clock@,
        view.time,
        None,
        None,
        None,
        idle(),
        InputBindings { primary: Some(UserAction::ToggleSeconds), secondary: None, scroll_up: None, scroll_down: None },
    )
}

fn clock(view: &BarSnapshot, config: &PresentationConfig) -> (r: ControlSpec)
    ensures
        r@ == clock_control(view@, *config),
{
    let labels = &config.labels;
    control(
        NodeId::Clock,
        labels.clock.clone(),
        view.time.clone(),
        None,
        None,
        None,
        ControlState::default(),
        InputBindings { primary: Some(UserAction::ToggleSeconds), secondary: None, scroll_up: None, scroll_down: None },
    )
}

/// The control of the screenshot.
pub open spec fn screenshot_control(view: SnapshotView, config: PresentationConfig) -> ControlView {
    let labels = config.labels;
    control_of(
        NodeId::Screenshot,
        labels.screenshot@,
        Seq::empty(),
        None,
        None,
        None,
        idle(),
        InputBindings { primary: Some(UserAction::Screenshot), secondary: None, scroll_up: None, scroll_down: None },
    )
}

fn screenshot(view: &BarSnapshot, config: &PresentationConfig) -> (r: ControlSpec)
    ensures
        r@ == screenshot_control(view@, *config),
{
    let labels = &config.labels;
    control(
        NodeId::Screenshot,
        labels.screenshot.clone(),
        String::new(),
        None,
        None,
        None,
        ControlState::default(),
        InputBindings { primary: Some(UserAction::Screenshot), secondary: None, scroll_up: None, scroll_down: None },
    )
}

/// The control of the theme.
pub open spec fn theme_control(view: SnapshotView, config: PresentationConfig) -> ControlView {
    let labels = config.labels;
    control_of(
        NodeId::Theme,
        theme_icon(view.theme, labels),
        Seq::empty(),
        None,
        None,
        None,
        idle(),
        InputBindings { primary: Some(UserAction::ToggleTheme), secondary: None, scroll_up: None, scroll_down: None },
    )
}

fn theme(view: &BarSnapshot, config: &PresentationConfig) -> (r: ControlSpec)
    ensures
        r@ == theme_control(view@, *config),
{
    let labels = &config.labels;
    control(
        NodeId::Theme,
        theme_label(view.theme, labels),
        String::new(),
        None,
        None,
        None,
        ControlState::default(),
        InputBindings { primary: Some(UserAction::ToggleTheme), secondary: None, scroll_up: None, scroll_down: None },
    )
}

/// The control of the battery.
pub open spec fn battery_control(view: SnapshotView, config: PresentationConfig) -> ControlView {
    let labels = config.labels;
    control_of(
        NodeId::Battery,
        battery_icon_of(view.battery, config),
        percent_text(view.battery.percent),
        Some(config.battery_thresholds.judged(view.battery)),
        None,
        view.battery.percent,
        idle(),
        InputBindings { primary: Some(UserAction::RefreshBattery), secondary: None, scroll_up: None, scroll_down: None },
    )
}

fn battery(view: &BarSnapshot, config: &PresentationConfig) -> (r: ControlSpec)
    ensures
        r@ == battery_control(view@, *config),
{
    let labels = &config.labels;
    control(
        NodeId::Battery,
        battery_label(view.battery, config),
        percent_value(view.battery.percent),
        Some(config.battery_thresholds.tone_for(view.battery)),
        None,
        view.battery.percent,
        ControlState::default(),
        InputBindings { primary: Some(UserAction::RefreshBattery), secondary: None, scroll_up: None, scroll_down: None },
    )
}

/// The control of the brightness.
pub open spec fn brightness_control(view: SnapshotView, config: PresentationConfig) -> ControlView {
    let labels = config.labels;
    control_of(
        NodeId::Brightness,
        labels.brightness@,
        percent_text(view.brightness.percent),
        unknown_tone(view.brightness.percent is None),
        None,
        view.brightness.percent,
        idle(),
        InputBindings { primary: Some(UserAction::BrightnessUp), secondary: Some(UserAction::BrightnessDown), scroll_up: Some(UserAction::BrightnessUp), scroll_down: Some(UserAction::BrightnessDown) },
    )
}

fn brightness(view: &BarSnapshot, config: &PresentationConfig) -> (r: ControlSpec)
    ensures
        r@ == brightness_control(view@, *config),
{
    let labels = &config.labels;
    control(
        NodeId::Brightness,
        labels.brightness.clone(),
        percent_value(view.brightness.percent),
        tone_if_unknown(view.brightness.percent.is_none()),
        None,
        view.brightness.percent,
        ControlState::default(),
        InputBindings { primary: Some(UserAction::BrightnessUp), secondary: Some(UserAction::BrightnessDown), scroll_up: Some(UserAction::BrightnessUp), scroll_down: Some(UserAction::BrightnessDown) },
    )
}

/// The control of the audio.
pub open spec fn audio_control(view: SnapshotView, config: PresentationConfig) -> ControlView {
    let labels = config.labels;
    control_of(
        NodeId::Audio,
        audio_icon_of(view.audio, config),
        percent_text(view.audio.volume_percent),
        unknown_tone(config.volume_thresholds.judged(view.audio) == VolumeLevel::Unavailable),
        Some(config.volume_thresholds.judged(view.audio)),
        view.audio.volume_percent,
        idle(),
        InputBindings { primary: Some(UserAction::ToggleMute), secondary: Some(UserAction::OpenAudioControl), scroll_up: Some(UserAction::VolumeUp), scroll_down: Some(UserAction::VolumeDown) },
    )
}

fn audio(view: &BarSnapshot, config: &PresentationConfig) -> (r: ControlSpec)
    ensures
        r@ == audio_control(view@, *config),
{
    let labels = &config.labels;
    control(
        NodeId::Audio,
        audio_label(view.audio, config),
        percent_value(view.audio.volume_percent),
        tone_if_unknown(config.volume_thresholds.level_for(view.audio) == VolumeLevel::Unavailable),
        Some(config.volume_thresholds.level_for(view.audio)),
        view.audio.volume_percent,
        ControlState::default(),
        InputBindings { primary: Some(UserAction::ToggleMute), secondary: Some(UserAction::OpenAudioControl), scroll_up: Some(UserAction::VolumeUp), scroll_down: Some(UserAction::VolumeDown) },
    )
}

/// The control of the memory.
pub open spec fn memory_control(view: SnapshotView, config: PresentationConfig) -> ControlView {
    let labels = config.labels;
    control_of(
        NodeId::Memory,
        labels.memory@,
        percent_text(view.system.memory_percent),
        Some(config.usage_thresholds.judged(view.system.memory_percent)),
        None,
        view.system.memory_percent,
        idle(),
        InputBindings { primary: None, secondary: None, scroll_up: None, scroll_down: None },
    )
}

fn memory(view: &BarSnapshot, config: &PresentationConfig) -> (r: ControlSpec)
    ensures
        r@ == memory_control(view@, *config),
{
    let labels = &config.labels;
    control(
        NodeId::Memory,
        labels.memory.clone(),
        percent_value(view.system.memory_percent),
        Some(config.usage_thresholds.tone(view.system.memory_percent)),
        None,
        view.system.memory_percent,
        ControlState::default(),
        InputBindings { primary: None, secondary: None, scroll_up: None, scroll_down: None },
    )
}

/// The control of the processor.
pub open spec fn cpu_control(view: SnapshotView, config: PresentationConfig) -> ControlView {
    let labels = config.labels;
    control_of(
        NodeId::Cpu,
        labels.cpu@,
        percent_text(view.system.cpu_percent),
        Some(config.usage_thresholds.judged(view.system.cpu_percent)),
        None,
        view.system.cpu_percent,
        idle(),
        InputBindings { primary: None, secondary: None, scroll_up: None, scroll_down: None },
    )
}

fn cpu(view: &BarSnapshot, config: &PresentationConfig) -> (r: ControlSpec)
    ensures
        r@ == cpu_control(view@, *config),
{
    let labels = &config.labels;
    control(
        NodeId::Cpu,
        labels.cpu.clone(),
        percent_value(view.system.cpu_percent),
        Some(config.usage_thresholds.tone(view.system.cpu_percent)),
        None,
        view.system.cpu_percent,
        ControlState::default(),
        InputBindings { primary: None, secondary: None, scroll_up: None, scroll_down: None },
    )
}

/// The control of the monitor.
pub open spec fn monitor_control(view: SnapshotView, config: PresentationConfig) -> ControlView {
    ControlView {
        available: view.wm_available,
        ..control_of(
            NodeId::Monitor,
            config.labels.monitor@,
            monitor_text(view.monitor, config.icon_set),
            None,
            None,
            None,
            idle(),
            unbound(),
        )
    }
}

fn monitor(view: &BarSnapshot, config: &PresentationConfig) -> (r: ControlSpec)
    ensures
        r@ == monitor_control(view@, *config),
{
    control(
        NodeId::Monitor,
        config.labels.monitor.clone(),
        monitor_value(view.monitor, &config.icon_set),
        None,
        None,
        None,
        ControlState::default(),
        InputBindings::default(),
    ).known(view.wm_available)
}

/// The views of controls.
pub open spec fn control_views(controls: Seq<ControlSpec>) -> Seq<ControlView> {
    Seq::new(controls.len(), |i: int| controls[i]@)
}

/// `controls` with one more, where it is shown.
pub open spec fn shown_if(
    controls: Seq<ControlView>,
    visible: bool,
    control: ControlView,
) -> Seq<ControlView> {
    if visible {
        controls.push(control)
    } else {
        controls
    }
}

/// The status controls that are shown, from the right edge to the left.
pub open spec fn status_of(view: SnapshotView, config: PresentationConfig) -> Seq<ControlView> {
    let v = config.visibility;
    let s = Seq::empty();
    let s = shown_if(s, v.clock, clock_control(view, config));
    let s = shown_if(s, v.screenshot, screenshot_control(view, config));
    let s = shown_if(s, v.theme, theme_control(view, config));
    let s = shown_if(s, v.battery, battery_control(view, config));
    let s = shown_if(s, v.brightness, brightness_control(view, config));
    let s = shown_if(s, v.audio, audio_control(view, config));
    let s = shown_if(s, v.system, memory_control(view, config));
    let s = shown_if(s, v.system, cpu_control(view, config));
    shown_if(s, v.monitor, monitor_control(view, config))
}

fn show(controls: &mut Vec<ControlSpec>, control: ControlSpec)
    ensures
        control_views(final(controls)@) == control_views(old(controls)@).push(control@),
{
    let ghost before = controls@;
    controls.push(control);
    assert(control_views(controls@) =~= control_views(before).push(control@));
}

fn status_controls(view: &BarSnapshot, config: &PresentationConfig) -> (r: Vec<ControlSpec>)
    ensures
        control_views(r@) == status_of(view@, *config),
{
    let v = config.visibility;
    let mut status: Vec<ControlSpec> = Vec::new();
    assert(control_views(status@) =~= Seq::empty());
    if v.clock {
        show(&mut status, clock(view, config));
    }
    if v.screenshot {
        show(&mut status, screenshot(view, config));
    }
    if v.theme {
        show(&mut status, theme(view, config));
    }
    if v.battery {
        show(&mut status, battery(view, config));
    }
    if v.brightness {
        show(&mut status, brightness(view, config));
    }
    if v.audio {
        show(&mut status, audio(view, config));
    }
    if v.system {
        show(&mut status, memory(view, config));
        show(&mut status, cpu(view, config));
    }
    if v.monitor {
        show(&mut status, monitor(view, config));
    }
    status
}

/// The control of tag `i`.
pub open spec fn tag_control(view: SnapshotView, config: PresentationConfig, i: int) -> ControlView {
    let id = tag_at(i as usize);
    let tag = view.tags[i];
    control_of(
        NodeId::Tag(id),
        if i < config.tag_labels@.len() {
            config.tag_labels@[i]@
        } else {
            decimal(next_number(i as usize))
        },
        Seq::empty(),
        None,
        None,
        None,
        ControlState {
            selected: tag.selected || view.active_tag == Some(id),
            urgent: tag.urgent,
            filled: tag.filled,
            occupied: tag.occupied,
            ..idle()
        },
        InputBindings {
            primary: Some(UserAction::ViewTag(id)),
            secondary: Some(UserAction::ToggleTag(id)),
            scroll_up: None,
            scroll_down: None,
        },
    ).needing(view.wm_available)
}

/// How many tags are shown.
pub open spec fn tags_shown(view: SnapshotView) -> nat {
    if view.tags.len() <= MAX_MODEL_TAGS {
        view.tags.len()
    } else {
        MAX_MODEL_TAGS as nat
    }
}

/// The controls of the tags.
pub open spec fn tags_of(view: SnapshotView, config: PresentationConfig) -> Seq<ControlView> {
    Seq::new(tags_shown(view), |i: int| tag_control(view, config, i))
}

fn tag_controls(view: &BarSnapshot, config: &PresentationConfig) -> (r: Vec<ControlSpec>)
    ensures
        control_views(r@) == tags_of(view@, *config),
{
    let mut tags: Vec<ControlSpec> = Vec::new();
    let ghost whole = tags_of(view@, *config);
    let mut i: usize = 0;
    assert(control_views(tags@) =~= whole.take(0));
    while i < view.tags.len() && i < MAX_MODEL_TAGS
        invariant
            i <= view.tags@.len(),
            i <= MAX_MODEL_TAGS,
            whole == tags_of(view@, *config),
            control_views(tags@) == whole.take(i as int),
        decreases view.tags@.len() - i,
    {
        let id = TagId::new(i).unwrap();
        let tag = view.tags[i];
        let icon = if i < config.tag_labels.len() {
            config.tag_labels[i].clone()
        } else {
            number_after(i)
        };
        let mut state = ControlState::default();
        let active = match view.active_tag {
            Some(active) => active == id,
            None => false,
        };
        state.selected = tag.selected || active;
        state.urgent = tag.urgent;
        state.filled = tag.filled;
        state.occupied = tag.occupied;
        let c = control(
            NodeId::Tag(id),
            icon,
            String::new(),
            None,
            None,
            None,
            state,
            InputBindings {
                primary: Some(UserAction::ViewTag(id)),
                secondary: Some(UserAction::ToggleTag(id)),
                scroll_up: None,
                scroll_down: None,
            },
        ).needing(view.wm_available);
        assert(c@ =~= tag_control(view@, *config, i as int));
        show(&mut tags, c);
        assert(whole.take(i + 1) =~= whole.take(i as int).push(whole[i as int]));
        i = i + 1;
    }
    assert(whole.take(i as int) =~= whole);
    tags
}

/// The button that opens the choice of layouts.
pub open spec fn layout_button_of(view: SnapshotView) -> ControlView {
    control_of(
        NodeId::LayoutButton,
        Seq::empty(),
        if view.layout_symbol.len() == 0 {
            "?"@
        } else {
            view.layout_symbol
        },
        None,
        None,
        None,
        ControlState { selected: view.layout_selector_open, ..idle() },
        InputBindings { primary: Some(UserAction::ToggleLayoutSelector), ..unbound() },
    ).needing(view.wm_available)
}

fn layout_button(view: &BarSnapshot) -> (r: ControlSpec)
    ensures
        r@ == layout_button_of(view@),
{
    let mut state = ControlState::default();
    state.selected = view.layout_selector_open;
    let mut bindings = InputBindings::default();
    bindings.primary = Some(UserAction::ToggleLayoutSelector);
    let c = control(
        NodeId::LayoutButton,
        String::new(),
        if is_empty(view.layout_symbol.as_str()) {
            "?".to_string()
        } else {
            view.layout_symbol.clone()
        },
        None,
        None,
        None,
        state,
        bindings,
    ).needing(view.wm_available);
    assert(c@ =~= layout_button_of(view@));
    c
}

/// The layouts to choose from, in their configured order, while the choice is
/// open.
pub open spec fn choices_of(view: SnapshotView, config: PresentationConfig) -> Seq<ControlView> {
    if !view.layout_selector_open {
        Seq::empty()
    } else {
        Seq::new(
            config.layouts@.len(),
            |i: int|
                control_of(
                    NodeId::LayoutOption(config.layouts@[i].id),
                    Seq::empty(),
                    config.layouts@[i].label@,
                    None,
                    None,
                    None,
                    idle(),
                    InputBindings {
                        primary: Some(UserAction::SetLayout(config.layouts@[i].id)),
                        ..unbound()
                    },
                ).needing(view.wm_available),
        )
    }
}

fn layout_choices(view: &BarSnapshot, config: &PresentationConfig) -> (r: Vec<ControlSpec>)
    ensures
        control_views(r@) == choices_of(view@, *config),
{
    let mut choices: Vec<ControlSpec> = Vec::new();
    let ghost whole = choices_of(view@, *config);
    assert(control_views(choices@) =~= whole.take(0));
    if !view.layout_selector_open {
        assert(control_views(choices@) =~= whole);
        return choices;
    }
    let mut i: usize = 0;
    while i < config.layouts.len()
        invariant
            i <= config.layouts@.len(),
            view.layout_selector_open,
            whole == choices_of(view@, *config),
            control_views(choices@) == whole.take(i as int),
        decreases config.layouts@.len() - i,
    {
        let id = config.layouts[i].id;
        let mut bindings = InputBindings::default();
        bindings.primary = Some(UserAction::SetLayout(id));
        let c = control(
            NodeId::LayoutOption(id),
            String::new(),
            config.layouts[i].label.clone(),
            None,
            None,
            None,
            ControlState::default(),
            bindings,
        ).needing(view.wm_available);
        assert(c@ =~= whole[i as int]);
        show(&mut choices, c);
        assert(whole.take(i + 1) =~= whole.take(i as int).push(whole[i as int]));
        i = i + 1;
    }
    assert(whole.take(i as int) =~= whole);
    choices
}

/// The name of the focused window, where it is shown and there is one.
pub open spec fn client_name_of(view: SnapshotView, config: PresentationConfig) -> Option<
    ControlView,
> {
    if config.visibility.client_name && view.client_name.len() > 0 {
        Some(
            control_of(
                NodeId::Client,
                Seq::empty(),
                view.client_name,
                None,
                None,
                None,
                idle(),
                unbound(),
            ),
        )
    } else {
        None
    }
}

/// A bar as controls.
#[derive(Debug, Clone, PartialEq)]
pub struct BarPresentation {
    pub theme: ThemeMode,
    pub tags: Vec<ControlSpec>,
    pub layout_button: ControlSpec,
    /// Nothing while the choice of layouts is closed.
    pub layout_choices: Vec<ControlSpec>,
    pub client_name: Option<ControlSpec>,
    /// The status controls that are shown, from the right edge to the left.
    pub status: Vec<ControlSpec>,
}

/// Turns what a bar shows into controls.
#[derive(Debug, Clone, Copy, PartialEq, Eq)]
pub struct PresentationProjector;

impl PresentationProjector {
    /// The controls of a bar.
    pub fn project(view: &BarSnapshot, config: &PresentationConfig) -> (r: BarPresentation)
        ensures
            r.theme == view.theme,
            control_views(r.tags@) == tags_of(view@, *config),
            r.layout_button@ == layout_button_of(view@),
            control_views(r.layout_choices@) == choices_of(view@, *config),
            (match r.client_name {
                Some(c) => Some(c@),
                None => None,
            }) == client_name_of(view@, *config),
            control_views(r.status@) == status_of(view@, *config),
    {
        let client_name = if config.visibility.client_name && !is_empty(
            view.client_name.as_str(),
        ) {
            Some(
                control(
                    NodeId::Client,
                    String::new(),
                    view.client_name.clone(),
                    None,
                    None,
                    None,
                    ControlState::default(),
                    InputBindings::default(),
                ),
            )
        } else {
            None
        };
        BarPresentation {
            theme: view.theme,
            tags: tag_controls(view, config),
            layout_button: layout_button(view),
            layout_choices: layout_choices(view, config),
            client_name,
            status: status_controls(view, config),
        }
    }
}

/// The names of controls.
pub open spec fn ids_of(controls: Seq<ControlView>) -> Seq<NodeId> {
    Seq::new(controls.len(), |i: int| controls[i].id)
}

/// With everything visible, the status controls stand in their fixed order.
pub proof fn everything_visible_in_order(view: SnapshotView, config: PresentationConfig)
    requires
        config.visibility.clock,
        config.visibility.screenshot,
        config.visibility.theme,
        config.visibility.battery,
        config.visibility.brightness,
        config.visibility.audio,
        config.visibility.system,
        config.visibility.monitor,
    ensures
        ids_of(status_of(view, config)) == STATUS_ORDER_RIGHT_TO_LEFT@,
{
    assert(ids_of(status_of(view, config)) =~= STATUS_ORDER_RIGHT_TO_LEFT@);
}

/// Where a status control stands in the fixed order.
pub open spec fn rank(id: NodeId) -> int {
    match id {
        NodeId::Clock => 0,
        NodeId::Screenshot => 1,
        NodeId::Theme => 2,
        NodeId::Battery => 3,
        NodeId::Brightness => 4,
        NodeId::Audio => 5,
        NodeId::Memory => 6,
        NodeId::Cpu => 7,
        _ => 8,
    }
}

/// Controls in the fixed order, none after `last`.
spec fn ascending_to(controls: Seq<ControlView>, last: int) -> bool {
    &&& forall|i: int, j: int|
        0 <= i < j < controls.len() ==> rank((#[trigger] controls[i]).id) < rank(
            (#[trigger] controls[j]).id,
        )
    &&& forall|i: int| 0 <= i < controls.len() ==> rank((#[trigger] controls[i]).id) <= last
}

proof fn one_more(controls: Seq<ControlView>, visible: bool, control: ControlView, last: int)
    requires
        ascending_to(controls, last),
        rank(control.id) > last,
    ensures
        ascending_to(shown_if(controls, visible, control), rank(control.id)),
{
}

/// Whatever is hidden, the status controls that are shown keep their order.
pub proof fn hiding_keeps_the_order(view: SnapshotView, config: PresentationConfig, i: int, j: int)
    requires
        0 <= i < j < status_of(view, config).len(),
    ensures
        rank(status_of(view, config)[i].id) < rank(status_of(view, config)[j].id),
{
    let v = config.visibility;
    let s0 = Seq::<ControlView>::empty();
    one_more(s0, v.clock, clock_control(view, config), -1);
    let s1 = shown_if(s0, v.clock, clock_control(view, config));
    one_more(s1, v.screenshot, screenshot_control(view, config), 0);
    let s2 = shown_if(s1, v.screenshot, screenshot_control(view, config));
    one_more(s2, v.theme, theme_control(view, config), 1);
    let s3 = shown_if(s2, v.theme, theme_control(view, config));
    one_more(s3, v.battery, battery_control(view, config), 2);
    let s4 = shown_if(s3, v.battery, battery_control(view, config));
    one_more(s4, v.brightness, brightness_control(view, config), 3);
    let s5 = shown_if(s4, v.brightness, brightness_control(view, config));
    one_more(s5, v.audio, audio_control(view, config), 4);
    let s6 = shown_if(s5, v.audio, audio_control(view, config));
    one_more(s6, v.system, memory_control(view, config), 5);
    let s7 = shown_if(s6, v.system, memory_control(view, config));
    one_more(s7, v.system, cpu_control(view, config), 6);
    let s8 = shown_if(s7, v.system, cpu_control(view, config));
    one_more(s8, v.monitor, monitor_control(view, config), 7);
}

} // verus!
