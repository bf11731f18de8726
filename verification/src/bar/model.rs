//! What the status bar shows.
use crate::text::str_eq;
use vstd::prelude::*;

verus! {

/// Which parts of a snapshot changed.
#[derive(Debug, Clone, Copy, PartialEq, Eq, Structural)]
pub struct DirtyBits {
    bits: u16,
}

impl DirtyBits {
    pub const NONE: u16 = 0;

    pub const MONITOR_CHANGED: u16 = 1;

    pub const GEOMETRY_CHANGED: u16 = 2;

    pub const LAYOUT_CHANGED: u16 = 4;

    pub const CLIENT_CHANGED: u16 = 8;

    pub const TIME_CHANGED: u16 = 16;

    pub const THEME_CHANGED: u16 = 32;

    pub const AUDIO_CHANGED: u16 = 64;

    pub const SYSTEM_CHANGED: u16 = 128;

    pub const BRIGHTNESS_CHANGED: u16 = 256;

    pub const BATTERY_CHANGED: u16 = 512;

    /// All of the above.
    pub const KNOWN: u16 = 1023;

    /// The bits.
    pub closed spec fn value(self) -> u16 {
        self.bits
    }

    /// These bits, without those that mean nothing.
    pub fn new(bits: u16) -> (r: DirtyBits)
        ensures
            r.value() == bits & 1023,
    {
        DirtyBits { bits: bits & 1023 }
    }

    /// The bits.
    pub fn bits(self) -> (r: u16)
        ensures
            r == self.value(),
    {
        self.bits
    }

    /// Whether nothing changed.
    pub fn is_empty(self) -> (r: bool)
        ensures
            r == (self.value() == 0),
    {
        self.bits == 0
    }

    /// Whether one of these bits is set.
    pub fn contains(self, flag: u16) -> (r: bool)
        ensures
            r == (self.value() & flag != 0),
    {
        self.bits & flag != 0
    }

    /// Whether the two have a bit in common.
    pub fn intersects(self, other: DirtyBits) -> (r: bool)
        ensures
            r == (self.value() & other.value() != 0),
    {
        self.bits & other.bits != 0
    }

    /// Sets these bits, without those that mean nothing.
    pub fn set(&mut self, flag: u16)
        ensures
            final(self).value() == old(self).value() | (flag & 1023),
    {
        self.bits = self.bits | (flag & 1023);
    }

    /// The bits of either.
    pub fn union(self, other: DirtyBits) -> (r: DirtyBits)
        ensures
            r.value() == self.value() | other.value(),
    {
        DirtyBits { bits: self.bits | other.bits }
    }

    /// Everything changed.
    pub fn all() -> (r: DirtyBits)
        ensures
            r.value() == DirtyBits::KNOWN,
    {
        DirtyBits { bits: 1023 }
    }
}

/// Two sets with the same bits are the same.
pub proof fn same_bits(a: DirtyBits, b: DirtyBits)
    ensures
        a.value() == b.value() <==> a == b,
{
}

impl Default for DirtyBits {
    fn default() -> (r: DirtyBits)
        ensures
            r.value() == 0,
    {
        DirtyBits { bits: 0 }
    }
}

/// How many tags a bar can show.
pub const MAX_MODEL_TAGS: usize = 32;

/// One of the tags, counted from zero.
#[derive(Debug, Clone, Copy, PartialEq, Eq, Structural)]
pub struct TagId {
    index: usize,
}

impl TagId {
    /// The tag at `index`, where a bar can show it.
    pub fn new(index: usize) -> (r: Option<TagId>)
        ensures
            match r {
                Some(tag) => index < MAX_MODEL_TAGS && tag == tag_at(index),
                None => index >= MAX_MODEL_TAGS,
            },
    {
        if index < MAX_MODEL_TAGS { Some(TagId { index }) } else { None }
    }

    /// Which tag it is.
    pub fn index(self) -> (r: usize)
        ensures
            r == self.position(),
    {
        self.index
    }

    /// Which tag it is.
    pub closed spec fn position(self) -> int {
        self.index as int
    }
}

/// The tag at `index`.
pub closed spec fn tag_at(index: usize) -> TagId {
    TagId { index }
}

/// Different positions are different tags.
pub proof fn tags_by_position(a: usize, b: usize)
    ensures
        tag_at(a).position() == a,
        tag_at(a) == tag_at(b) <==> a == b,
{
}

#[derive(Debug, Clone, Copy, PartialEq, Eq, Structural)]
pub struct MonitorId(pub i32);

#[derive(Debug, Clone, Copy, PartialEq, Eq, Structural)]
pub struct LayoutId(pub u32);

/// A share of a whole, in hundredths of a percent.
#[derive(Debug, Clone, Copy, PartialEq, Eq, Structural)]
pub struct Percent {
    hundredths: u16,
}

impl Percent {
    /// The hundredths of a percent.
    pub closed spec fn exact(self) -> int {
        self.hundredths as int
    }

    /// A share of `value` hundredths of a percent, at most the whole.
    pub fn from_hundredths(value: u32) -> (r: Option<Percent>)
        ensures
            match r {
                Some(p) => value <= 10000 && p.exact() == value,
                None => value > 10000,
            },
    {
        if value <= 10000 { Some(Percent { hundredths: value as u16 }) } else { None }
    }

    /// A share of `value` percent, at most the whole.
    pub fn from_whole(value: u32) -> (r: Option<Percent>)
        ensures
            match r {
                Some(p) => value <= 100 && p.exact() == 100 * value,
                None => value > 100,
            },
    {
        if value <= 100 { Some(Percent { hundredths: (100 * value) as u16 }) } else { None }
    }

    /// The nearest whole percent; half a percent counts up.
    pub open spec fn nearest(self) -> int {
        (self.exact() + 50) / 100
    }

    /// The nearest whole percent.
    pub fn rounded(self) -> (r: u32)
        ensures
            r == self.nearest(),
    {
        (self.hundredths as u32 + 50) / 100
    }

    /// The hundredths of a percent.
    pub fn hundredths(self) -> (r: u32)
        ensures
            r == self.exact(),
    {
        self.hundredths as u32
    }
}

/// What the window manager says of one tag.
#[derive(Debug, Clone, Copy, PartialEq, Eq, Structural)]
pub struct TagState {
    pub selected: bool,
    pub urgent: bool,
    pub filled: bool,
    pub occupied: bool,
}

impl Default for TagState {
    fn default() -> (r: TagState)
        ensures
            r == (TagState { selected: false, urgent: false, filled: false, occupied: false }),
    {
        TagState { selected: false, urgent: false, filled: false, occupied: false }
    }
}

/// Where the monitor of the bar is.
#[derive(Debug, Clone, Copy, PartialEq, Eq, Structural)]
pub struct MonitorGeometry {
    pub x: i32,
    pub y: i32,
    pub width: u32,
    pub height: u32,
}

#[derive(Debug, Clone, Copy, PartialEq, Eq, Structural)]
pub enum ThemeMode {
    Dark,
    Light,
}

#[derive(Debug, Clone, Copy, PartialEq, Eq, Structural)]
pub struct AudioState {
    pub volume_percent: Option<Percent>,
    pub muted: bool,
}

impl AudioState {
    /// A volume, and whether it is muted.
    pub fn new(volume_percent: Option<Percent>, muted: bool) -> (r: AudioState)
        ensures
            r == (AudioState { volume_percent, muted }),
    {
        AudioState { volume_percent, muted }
    }
}

impl Default for AudioState {
    fn default() -> (r: AudioState)
        ensures
            r == (AudioState { volume_percent: None, muted: false }),
    {
        AudioState { volume_percent: None, muted: false }
    }
}

#[derive(Debug, Clone, Copy, PartialEq, Eq, Structural)]
pub struct SystemState {
    pub cpu_percent: Option<Percent>,
    pub memory_percent: Option<Percent>,
}

impl SystemState {
    /// The load of processor and memory.
    pub fn new(cpu_percent: Option<Percent>, memory_percent: Option<Percent>) -> (r: SystemState)
        ensures
            r == (SystemState { cpu_percent, memory_percent }),
    {
        SystemState { cpu_percent, memory_percent }
    }
}

impl Default for SystemState {
    fn default() -> (r: SystemState)
        ensures
            r == (SystemState { cpu_percent: None, memory_percent: None }),
    {
        SystemState { cpu_percent: None, memory_percent: None }
    }
}

#[derive(Debug, Clone, Copy, PartialEq, Eq, Structural)]
pub struct BrightnessState {
    pub percent: Option<Percent>,
}

impl BrightnessState {
    /// The brightness of the screen.
    pub fn new(percent: Option<Percent>) -> (r: BrightnessState)
        ensures
            r == (BrightnessState { percent }),
    {
        BrightnessState { percent }
    }
}

impl Default for BrightnessState {
    fn default() -> (r: BrightnessState)
        ensures
            r == (BrightnessState { percent: None }),
    {
        BrightnessState { percent: None }
    }
}

#[derive(Debug, Clone, Copy, PartialEq, Eq, Structural)]
pub struct BatteryState {
    pub present: bool,
    pub percent: Option<Percent>,
    pub charging: bool,
}

impl BatteryState {
    /// No battery.
    pub fn absent() -> (r: BatteryState)
        ensures
            r == (BatteryState { present: false, percent: None, charging: false }),
    {
        BatteryState { present: false, percent: None, charging: false }
    }

    /// A battery.
    pub fn present(percent: Option<Percent>, charging: bool) -> (r: BatteryState)
        ensures
            r == (BatteryState { present: true, percent, charging }),
    {
        BatteryState { present: true, percent, charging }
    }
}

/// Everything that the bar shows.
#[derive(Debug, Clone, PartialEq)]
pub struct BarSnapshot {
    pub wm_available: bool,
    /// A number that the window manager counts its messages by.
    pub wm_sequence: Option<u64>,
    pub tags: Vec<TagState>,
    pub active_tag: Option<TagId>,
    pub monitor: MonitorId,
    pub geometry: Option<MonitorGeometry>,
    pub layout_symbol: String,
    pub client_name: String,
    pub time: String,
    pub show_seconds: bool,
    pub layout_selector_open: bool,
    pub theme: ThemeMode,
    pub audio: AudioState,
    pub audio_device: Option<String>,
    pub system: SystemState,
    pub system_details: Option<String>,
    pub brightness: BrightnessState,
    pub battery: BatteryState,
}

/// A text that may be missing, as its characters.
pub open spec fn text_of(s: Option<String>) -> Option<Seq<char>> {
    match s {
        Some(s) => Some(s@),
        None => None,
    }
}

/// A snapshot as plain values.
#[verifier::ext_equal]
pub struct SnapshotView {
    pub wm_available: bool,
    pub wm_sequence: Option<u64>,
    pub tags: Seq<TagState>,
    pub active_tag: Option<TagId>,
    pub monitor: MonitorId,
    pub geometry: Option<MonitorGeometry>,
    pub layout_symbol: Seq<char>,
    pub client_name: Seq<char>,
    pub time: Seq<char>,
    pub show_seconds: bool,
    pub layout_selector_open: bool,
    pub theme: ThemeMode,
    pub audio: AudioState,
    pub audio_device: Option<Seq<char>>,
    pub system: SystemState,
    pub system_details: Option<Seq<char>>,
    pub brightness: BrightnessState,
    pub battery: BatteryState,
}

impl View for BarSnapshot {
    type V = SnapshotView;

    open spec fn view(&self) -> SnapshotView {
        SnapshotView {
            wm_available: self.wm_available,
            wm_sequence: self.wm_sequence,
            tags: self.tags@,
            active_tag: self.active_tag,
            monitor: self.monitor,
            geometry: self.geometry,
            layout_symbol: self.layout_symbol@,
            client_name: self.client_name@,
            time: self.time@,
            show_seconds: self.show_seconds,
            layout_selector_open: self.layout_selector_open,
            theme: self.theme,
            audio: self.audio,
            audio_device: text_of(self.audio_device),
            system: self.system,
            system_details: text_of(self.system_details),
            brightness: self.brightness,
            battery: self.battery,
        }
    }
}

/// What a bar shows before it was told anything.
pub open spec fn blank() -> SnapshotView {
    SnapshotView {
        wm_available: false,
        wm_sequence: None,
        tags: Seq::empty(),
        active_tag: None,
        monitor: MonitorId(0),
        geometry: None,
        layout_symbol: Seq::empty(),
        client_name: Seq::empty(),
        time: Seq::empty(),
        show_seconds: false,
        layout_selector_open: false,
        theme: ThemeMode::Dark,
        audio: AudioState { volume_percent: None, muted: false },
        audio_device: None,
        system: SystemState { cpu_percent: None, memory_percent: None },
        system_details: None,
        brightness: BrightnessState { percent: None },
        battery: BatteryState { present: false, percent: None, charging: false },
    }
}

pub(crate) fn same_texts(a: &Option<String>, b: &Option<String>) -> (r: bool)
    ensures
        r == (text_of(*a) == text_of(*b)),
{
    match (a, b) {
        (Some(x), Some(y)) => str_eq(x.as_str(), y.as_str()),
        (None, None) => true,
        _ => false,
    }
}

pub(crate) fn same_tags(a: &Vec<TagState>, b: &Vec<TagState>) -> (r: bool)
    ensures
        r == (a@ == b@),
{
    if a.len() != b.len() {
        return false;
    }
    let mut i: usize = 0;
    while i < a.len()
        invariant
            i <= a@.len() == b@.len(),
            forall|j: int| 0 <= j < i ==> a@[j] == b@[j],
        decreases a@.len() - i,
    {
        if a[i] != b[i] {
            return false;
        }
        i = i + 1;
    }
    assert(a@ =~= b@);
    true
}

fn copy_tags(tags: &Vec<TagState>) -> (r: Vec<TagState>)
    ensures
        r@ == tags@,
{
    let mut r: Vec<TagState> = Vec::new();
    let mut i: usize = 0;
    while i < tags.len()
        invariant
            i <= tags@.len(),
            r@ == tags@.take(i as int),
        decreases tags@.len() - i,
    {
        r.push(tags[i]);
        assert(tags@.take(i + 1) =~= tags@.take(i as int).push(tags@[i as int]));
        i = i + 1;
    }
    assert(tags@.take(i as int) =~= tags@);
    r
}

fn copy_text(s: &Option<String>) -> (r: Option<String>)
    ensures
        text_of(r) == text_of(*s),
{
    match s {
        Some(s) => Some(s.clone()),
        None => None,
    }
}

impl BarSnapshot {
    /// Another snapshot with the same contents.
    pub fn copy(&self) -> (r: BarSnapshot)
        ensures
            r@ == self@,
    {
        BarSnapshot {
            wm_available: self.wm_available,
            wm_sequence: self.wm_sequence,
            tags: copy_tags(&self.tags),
            active_tag: self.active_tag,
            monitor: self.monitor,
            geometry: self.geometry,
            layout_symbol: self.layout_symbol.clone(),
            client_name: self.client_name.clone(),
            time: self.time.clone(),
            show_seconds: self.show_seconds,
            layout_selector_open: self.layout_selector_open,
            theme: self.theme,
            audio: self.audio,
            audio_device: copy_text(&self.audio_device),
            system: self.system,
            system_details: copy_text(&self.system_details),
            brightness: self.brightness,
            battery: self.battery,
        }
    }

    /// A snapshot of a bar that was told nothing.
    pub fn blank() -> (r: BarSnapshot)
        ensures
            r@ == blank(),
    {
        let r = BarSnapshot {
            wm_available: false,
            wm_sequence: None,
            tags: Vec::new(),
            active_tag: None,
            monitor: MonitorId(0),
            geometry: None,
            layout_symbol: String::new(),
            client_name: String::new(),
            time: String::new(),
            show_seconds: false,
            layout_selector_open: false,
            theme: ThemeMode::Dark,
            audio: AudioState::default(),
            audio_device: None,
            system: SystemState::default(),
            system_details: None,
            brightness: BrightnessState::default(),
            battery: BatteryState::absent(),
        };
        assert(r@ =~= blank());
        r
    }
}

/// What a user asks of the bar.
#[derive(Debug, Clone, Copy, PartialEq, Eq, Structural)]
pub enum UserAction {
    ViewTag(TagId),
    ToggleTag(TagId),
    ViewTagOn { tag: TagId, monitor: MonitorId },
    ToggleTagOn { tag: TagId, monitor: MonitorId },
    ToggleLayoutSelector,
    SetLayout(LayoutId),
    SetLayoutOn { layout: LayoutId, monitor: MonitorId },
    ToggleSeconds,
    ToggleTheme,
    ToggleMute,
    VolumeUp,
    VolumeDown,
    AdjustVolume(i32),
    BrightnessUp,
    BrightnessDown,
    AdjustBrightness(i32),
    RefreshBattery,
    Screenshot,
    OpenAudioControl,
}

} // verus!
