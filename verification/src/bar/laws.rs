//! What a bar shows and what pointing at it does.
use super::controls::{
    audio_control, battery_control, brightness_control, choices_of, client_name_of, clock_control,
    cpu_control, layout_button_of, memory_control, monitor_control, percent_text,
    screenshot_control, shown_if, status_of, tags_of, theme_control, unbound, ControlView,
};
use super::frontend::{differences, flag, ActionRequest};
use super::model::{
    tag_at, tags_by_position, AudioState, BatteryState, DirtyBits, MonitorId, LayoutId, Percent,
    SnapshotView, TagId, UserAction, MAX_MODEL_TAGS,
};
use super::presentation::{
    next_number, BatteryThresholds, IconSet, MetricTone, NodeId, PresentationConfig,
    UsageThresholds, VolumeLevel, VolumeThresholds,
};
use super::runtime::{applied, changed_by, effects_of, later, next_revision};
use vstd::prelude::*;

verus! {

proof fn flags_stand_alone(
    a: bool,
    b: bool,
    c: bool,
    d: bool,
    e: bool,
    f: bool,
    g: bool,
    h: bool,
    i: bool,
    j: bool,
)
    ensures
        ({
            let bits = flag(a, 1) | flag(b, 2) | flag(c, 4) | flag(d, 8) | flag(e, 16) | flag(
                f,
                32,
            ) | flag(g, 64) | flag(h, 128) | flag(i, 256) | flag(j, 512);
            &&& bits & 1 != 0 <==> a
            &&& bits & 2 != 0 <==> b
            &&& bits & 4 != 0 <==> c
            &&& bits & 8 != 0 <==> d
            &&& bits & 16 != 0 <==> e
            &&& bits & 32 != 0 <==> f
            &&& bits & 64 != 0 <==> g
            &&& bits & 128 != 0 <==> h
            &&& bits & 256 != 0 <==> i
            &&& bits & 512 != 0 <==> j
            &&& !a && !b && !d && !g && !h && !i && !j ==> {
                &&& bits == 0 <==> !c && !e && !f
                &&& c && !e && !f ==> bits == 4
                &&& !c && e && !f ==> bits == 16
                &&& !c && !e && f ==> bits == 32
            }
        }),
{
    assert({
        let bits = flag(a, 1) | flag(b, 2) | flag(c, 4) | flag(d, 8) | flag(e, 16) | flag(f, 32)
            | flag(g, 64) | flag(h, 128) | flag(i, 256) | flag(j, 512);
        &&& (bits & 1 != 0 <==> a)
        &&& (bits & 2 != 0 <==> b)
        &&& (bits & 4 != 0 <==> c)
        &&& (bits & 8 != 0 <==> d)
        &&& (bits & 16 != 0 <==> e)
        &&& (bits & 32 != 0 <==> f)
        &&& (bits & 64 != 0 <==> g)
        &&& (bits & 128 != 0 <==> h)
        &&& (bits & 256 != 0 <==> i)
        &&& (bits & 512 != 0 <==> j)
        &&& (!a && !b && !d && !g && !h && !i && !j ==> {
            &&& (bits == 0 <==> !c && !e && !f)
            &&& (c && !e && !f ==> bits == 4)
            &&& (!c && e && !f ==> bits == 16)
            &&& (!c && !e && f ==> bits == 32)
        })
    }) by (bit_vector);
}

/// A change is told by its own bit and by no other.
pub proof fn changes_have_their_bits(p: SnapshotView, c: SnapshotView)
    ensures
        ({
            let d = differences(p, c);
            &&& d & DirtyBits::MONITOR_CHANGED != 0 <==> p.wm_available != c.wm_available || p.tags
                != c.tags || p.active_tag != c.active_tag || p.monitor != c.monitor
            &&& d & DirtyBits::GEOMETRY_CHANGED != 0 <==> p.geometry != c.geometry
            &&& d & DirtyBits::LAYOUT_CHANGED != 0 <==> p.layout_symbol != c.layout_symbol
                || p.layout_selector_open != c.layout_selector_open
            &&& d & DirtyBits::CLIENT_CHANGED != 0 <==> p.client_name != c.client_name
            &&& d & DirtyBits::TIME_CHANGED != 0 <==> p.time != c.time || p.show_seconds
                != c.show_seconds
            &&& d & DirtyBits::THEME_CHANGED != 0 <==> p.theme != c.theme
            &&& d & DirtyBits::AUDIO_CHANGED != 0 <==> p.audio != c.audio || p.audio_device
                != c.audio_device
            &&& d & DirtyBits::SYSTEM_CHANGED != 0 <==> p.system != c.system || p.system_details
                != c.system_details
            &&& d & DirtyBits::BRIGHTNESS_CHANGED != 0 <==> p.brightness != c.brightness
            &&& d & DirtyBits::BATTERY_CHANGED != 0 <==> p.battery != c.battery
        }),
{
    flags_stand_alone(
        p.wm_available != c.wm_available || p.tags != c.tags || p.active_tag != c.active_tag
            || p.monitor != c.monitor,
        p.geometry != c.geometry,
        p.layout_symbol != c.layout_symbol || p.layout_selector_open != c.layout_selector_open,
        p.client_name != c.client_name,
        p.time != c.time || p.show_seconds != c.show_seconds,
        p.theme != c.theme,
        p.audio != c.audio || p.audio_device != c.audio_device,
        p.system != c.system || p.system_details != c.system_details,
        p.brightness != c.brightness,
        p.battery != c.battery,
    );
}

/// An action changes just what its bits tell, and done twice it changes nothing;
/// what it does not do to the bar itself is left to the host.
pub proof fn actions_change_what_they_tell(state: SnapshotView, action: UserAction)
    ensures
        differences(state, applied(state, action)) == changed_by(action),
        applied(applied(state, action), action) == state,
        changed_by(action) != 0 <==> applied(state, action) != state,
        changed_by(action) != 0 <==> effects_of(action).len() == 0,
        effects_of(action).len() <= 1,
{
    let c = applied(state, action);
    flags_stand_alone(
        state.wm_available != c.wm_available || state.tags != c.tags || state.active_tag
            != c.active_tag || state.monitor != c.monitor,
        state.geometry != c.geometry,
        state.layout_symbol != c.layout_symbol || state.layout_selector_open
            != c.layout_selector_open,
        state.client_name != c.client_name,
        state.time != c.time || state.show_seconds != c.show_seconds,
        state.theme != c.theme,
        state.audio != c.audio || state.audio_device != c.audio_device,
        state.system != c.system || state.system_details != c.system_details,
        state.brightness != c.brightness,
        state.battery != c.battery,
    );
}

/// The toggles change what they are named for.
pub proof fn toggles_change_their_own(state: SnapshotView)
    ensures
        applied(state, UserAction::ToggleTheme).theme != state.theme,
        applied(state, UserAction::ToggleSeconds).show_seconds != state.show_seconds,
        applied(state, UserAction::ToggleLayoutSelector).layout_selector_open
            != state.layout_selector_open,
{
}

/// Whether a request is accepted and means an action.
pub open spec fn means(request: ActionRequest, action: UserAction) -> bool {
    request.meaning() is Ok && request.meaning()->Ok_0 == action
}

/// A request for a tag means the action of its name on the tag at that place,
/// and is refused just where there is no such tag.
pub proof fn requests_name_their_tag(index: usize, monitor: i32)
    ensures
        index >= MAX_MODEL_TAGS ==> {
            &&& (ActionRequest::ViewTag { tag_index: index }).meaning() is Err
            &&& (ActionRequest::ToggleTag { tag_index: index }).meaning() is Err
            &&& (ActionRequest::ViewTagOn { tag_index: index, monitor_id: monitor }).meaning() is Err
            &&& (ActionRequest::ToggleTagOn {
                tag_index: index,
                monitor_id: monitor,
            }).meaning() is Err
        },
        index < MAX_MODEL_TAGS ==> exists|tag: TagId|
            #![trigger tag.position()]
            {
                let on = MonitorId(monitor);
                &&& tag.position() == index
                &&& means(ActionRequest::ViewTag { tag_index: index }, UserAction::ViewTag(tag))
                &&& means(ActionRequest::ToggleTag { tag_index: index }, UserAction::ToggleTag(tag))
                &&& means(ActionRequest::ViewTagOn { tag_index: index, monitor_id: monitor }, UserAction::ViewTagOn { tag, monitor: on })
                &&& means(ActionRequest::ToggleTagOn { tag_index: index, monitor_id: monitor, }, UserAction::ToggleTagOn { tag, monitor: on })
            },
{
    tags_by_position(index, index);
    let tag = tag_at(index);
    assert(tag.position() == index);
}

/// Every other request means the action of its name, with the same number.
pub proof fn requests_mean_their_action(request: ActionRequest)
    ensures
        request matches ActionRequest::SetLayout { layout_id } ==> means(request, UserAction::SetLayout(LayoutId(layout_id))),
        request matches ActionRequest::SetLayoutOn { layout_id, monitor_id } ==> means(request, UserAction::SetLayoutOn { layout: LayoutId(layout_id), monitor: MonitorId(monitor_id) }),
        request matches ActionRequest::AdjustVolume { delta } ==> means(request, UserAction::AdjustVolume(delta)),
        request matches ActionRequest::AdjustBrightness { delta } ==> means(request, UserAction::AdjustBrightness(delta)),
        request.meaning() is Ok ==> {
            let action = request.meaning()->Ok_0;
            &&& request is ToggleLayoutSelector <==> action is ToggleLayoutSelector
            &&& request is ToggleSeconds <==> action is ToggleSeconds
            &&& request is ToggleTheme <==> action is ToggleTheme
            &&& request is ToggleMute <==> action is ToggleMute
            &&& request is VolumeUp <==> action is VolumeUp
            &&& request is VolumeDown <==> action is VolumeDown
            &&& request is BrightnessUp <==> action is BrightnessUp
            &&& request is BrightnessDown <==> action is BrightnessDown
            &&& request is RefreshBattery <==> action is RefreshBattery
            &&& request is Screenshot <==> action is Screenshot
            &&& request is OpenAudioControl <==> action is OpenAudioControl
        },
{
}

/// Whole percents are the nearest ones, a half counting up.
pub proof fn percents_are_nearest(p: Percent)
    ensures
        -50 < 100 * p.nearest() - p.exact() <= 50,
{
}

/// How grave a tone is.
pub open spec fn gravity(tone: MetricTone) -> int {
    match tone {
        MetricTone::Unavailable => 0,
        MetricTone::Good => 1,
        MetricTone::Moderate => 2,
        MetricTone::High => 3,
        MetricTone::Critical => 4,
    }
}

/// A greater load is never judged less grave; each band begins just above its
/// threshold, and only an unknown load is unavailable.
pub proof fn greater_loads_are_graver(t: UsageThresholds, p: Percent, q: Percent)
    requires
        t.shares().0 <= t.shares().1 <= t.shares().2,
    ensures
        p.exact() <= q.exact() ==> gravity(t.judged(Some(p))) <= gravity(t.judged(Some(q))),
        gravity(t.judged(Some(p))) >= 2 <==> p.exact() > t.shares().0,
        gravity(t.judged(Some(p))) >= 3 <==> p.exact() > t.shares().1,
        gravity(t.judged(Some(p))) >= 4 <==> p.exact() > t.shares().2,
        t.judged(Some(p)) != MetricTone::Unavailable,
        t.judged(None) == MetricTone::Unavailable,
{
}

/// A fuller battery is never judged graver; each band ends at its threshold,
/// and only a battery that is not there or not known is unavailable.
pub proof fn emptier_batteries_are_graver(
    t: BatteryThresholds,
    p: Percent,
    q: Percent,
    charging: bool,
    other: bool,
)
    requires
        t.shares().0 <= t.shares().1 <= t.shares().2,
    ensures
        ({
            let a = t.judged(BatteryState { present: true, percent: Some(p), charging });
            let b = t.judged(BatteryState { present: true, percent: Some(q), charging: other });
            &&& p.exact() <= q.exact() ==> gravity(a) >= gravity(b)
            &&& gravity(a) >= 2 <==> p.exact() <= t.shares().2
            &&& gravity(a) >= 3 <==> p.exact() <= t.shares().1
            &&& gravity(a) >= 4 <==> p.exact() <= t.shares().0
            &&& gravity(a) >= 1
        }),
        t.judged(BatteryState { present: false, percent: Some(p), charging })
            == MetricTone::Unavailable,
        t.judged(BatteryState { present: true, percent: None, charging })
            == MetricTone::Unavailable,
{
}

/// How loud a band is.
pub open spec fn loudness(level: VolumeLevel) -> int {
    match level {
        VolumeLevel::Unavailable => 0,
        VolumeLevel::Muted => 0,
        VolumeLevel::Low => 1,
        VolumeLevel::Medium => 2,
        VolumeLevel::High => 3,
    }
}

/// A louder volume is never in a lower band; each band ends at its threshold,
/// and a muted one is muted however loud.
pub proof fn louder_volumes_are_higher(t: VolumeThresholds, p: Percent, q: Percent)
    requires
        t.shares().0 <= t.shares().1,
    ensures
        ({
            let a = t.judged(AudioState { volume_percent: Some(p), muted: false });
            let b = t.judged(AudioState { volume_percent: Some(q), muted: false });
            &&& p.exact() <= q.exact() ==> loudness(a) <= loudness(b)
            &&& loudness(a) >= 1
            &&& loudness(a) >= 2 <==> p.exact() > t.shares().0
            &&& loudness(a) >= 3 <==> p.exact() > t.shares().1
        }),
        t.judged(AudioState { volume_percent: Some(p), muted: true }) == VolumeLevel::Muted,
        t.judged(AudioState { volume_percent: None, muted: true }) == VolumeLevel::Unavailable,
        t.judged(AudioState { volume_percent: None, muted: false }) == VolumeLevel::Unavailable,
{
}

/// Whether a status control shows its own metric and acts on it.
pub open spec fn shows_its_own(c: ControlView, view: SnapshotView) -> bool {
    let b = c.bindings;
    &&& c.state.enabled <==> b != unbound()
    &&& c.id == NodeId::Clock ==> c.value == view.time && b.primary == Some(
        UserAction::ToggleSeconds,
    )
    &&& c.id == NodeId::Screenshot ==> b.primary == Some(UserAction::Screenshot)
    &&& c.id == NodeId::Theme ==> b.primary == Some(UserAction::ToggleTheme)
    &&& c.id == NodeId::Battery ==> {
        &&& c.progress == view.battery.percent
        &&& c.value == percent_text(view.battery.percent)
        &&& c.available <==> view.battery.present && view.battery.percent is Some
        &&& b.primary == Some(UserAction::RefreshBattery)
    }
    &&& c.id == NodeId::Brightness ==> {
        &&& c.progress == view.brightness.percent
        &&& c.value == percent_text(view.brightness.percent)
        &&& c.available <==> view.brightness.percent is Some
        &&& b.scroll_up == Some(UserAction::BrightnessUp) && b.primary == b.scroll_up
        &&& b.scroll_down == Some(UserAction::BrightnessDown) && b.secondary == b.scroll_down
    }
    &&& c.id == NodeId::Audio ==> {
        &&& c.progress == view.audio.volume_percent
        &&& c.value == percent_text(view.audio.volume_percent)
        &&& c.available <==> view.audio.volume_percent is Some
        &&& b.primary == Some(UserAction::ToggleMute)
        &&& b.scroll_up == Some(UserAction::VolumeUp)
        &&& b.scroll_down == Some(UserAction::VolumeDown)
    }
    &&& c.id == NodeId::Memory ==> {
        &&& c.progress == view.system.memory_percent
        &&& c.value == percent_text(view.system.memory_percent)
        &&& c.available <==> view.system.memory_percent is Some
        &&& b == unbound()
    }
    &&& c.id == NodeId::Cpu ==> {
        &&& c.progress == view.system.cpu_percent
        &&& c.value == percent_text(view.system.cpu_percent)
        &&& c.available <==> view.system.cpu_percent is Some
        &&& b == unbound()
    }
    &&& c.id == NodeId::Monitor ==> (c.available <==> view.wm_available) && b == unbound()
}

spec fn all_show(controls: Seq<ControlView>, view: SnapshotView) -> bool {
    forall|k: int| 0 <= k < controls.len() ==> shows_its_own(#[trigger] controls[k], view)
}

/// Whether a control of this name is among them.
pub open spec fn has_control(controls: Seq<ControlView>, id: NodeId) -> bool {
    exists|k: int| 0 <= k < controls.len() && (#[trigger] controls[k]).id == id
}

proof fn one_more_shows(
    controls: Seq<ControlView>,
    visible: bool,
    c: ControlView,
    view: SnapshotView,
    id: NodeId,
)
    requires
        all_show(controls, view),
        shows_its_own(c, view),
    ensures
        all_show(shown_if(controls, visible, c), view),
        has_control(shown_if(controls, visible, c), id) <==> has_control(controls, id) || visible
            && c.id == id,
{
    let after = shown_if(controls, visible, c);
    if has_control(controls, id) {
        let k = choose|k: int| 0 <= k < controls.len() && (#[trigger] controls[k]).id == id;
        assert(after[k].id == id);
    }
    if visible && c.id == id {
        assert(after[after.len() - 1].id == id);
    }
}

/// Every status control shows its own metric and acts on it, and is there just
/// where it is to be shown.
pub proof fn status_controls_show_their_own(
    view: SnapshotView,
    config: PresentationConfig,
    id: NodeId,
)
    ensures
        ({
            let s = status_of(view, config);
            let v = config.visibility;
            &&& forall|k: int| 0 <= k < s.len() ==> shows_its_own(#[trigger] s[k], view)
            &&& has_control(s, id) <==> match id {
                NodeId::Clock => v.clock,
                NodeId::Screenshot => v.screenshot,
                NodeId::Theme => v.theme,
                NodeId::Battery => v.battery,
                NodeId::Brightness => v.brightness,
                NodeId::Audio => v.audio,
                NodeId::Memory => v.system,
                NodeId::Cpu => v.system,
                NodeId::Monitor => v.monitor,
                _ => false,
            }
        }),
{
    let v = config.visibility;
    let s0 = Seq::<ControlView>::empty();
    let s1 = shown_if(s0, v.clock, clock_control(view, config));
    let s2 = shown_if(s1, v.screenshot, screenshot_control(view, config));
    let s3 = shown_if(s2, v.theme, theme_control(view, config));
    let s4 = shown_if(s3, v.battery, battery_control(view, config));
    let s5 = shown_if(s4, v.brightness, brightness_control(view, config));
    let s6 = shown_if(s5, v.audio, audio_control(view, config));
    let s7 = shown_if(s6, v.system, memory_control(view, config));
    let s8 = shown_if(s7, v.system, cpu_control(view, config));
    one_more_shows(s0, v.clock, clock_control(view, config), view, id);
    one_more_shows(s1, v.screenshot, screenshot_control(view, config), view, id);
    one_more_shows(s2, v.theme, theme_control(view, config), view, id);
    one_more_shows(s3, v.battery, battery_control(view, config), view, id);
    one_more_shows(s4, v.brightness, brightness_control(view, config), view, id);
    one_more_shows(s5, v.audio, audio_control(view, config), view, id);
    one_more_shows(s6, v.system, memory_control(view, config), view, id);
    one_more_shows(s7, v.system, cpu_control(view, config), view, id);
    one_more_shows(s8, v.monitor, monitor_control(view, config), view, id);
}

/// The control of a tag shows the state of this tag and acts on it and on no
/// other, and does so only while the window manager is there.
pub proof fn tag_controls_act_on_their_tag(
    view: SnapshotView,
    config: PresentationConfig,
    i: int,
    j: int,
)
    requires
        0 <= i < tags_of(view, config).len(),
        0 <= j < tags_of(view, config).len(),
    ensures
        ({
            let c = tags_of(view, config)[i];
            let tag = view.tags[i];
            &&& exists|id: TagId|
                #![trigger id.position()]
                {
                    &&& id.position() == i
                    &&& c.id == NodeId::Tag(id)
                    &&& c.bindings.primary == Some(UserAction::ViewTag(id))
                    &&& c.bindings.secondary == Some(UserAction::ToggleTag(id))
                    &&& c.state.selected <==> tag.selected || view.active_tag == Some(id)
                }
            &&& c.state.urgent == tag.urgent
            &&& c.state.filled == tag.filled
            &&& c.state.occupied == tag.occupied
            &&& c.state.enabled == view.wm_available
            &&& c.available == view.wm_available
            &&& i < config.tag_labels@.len() ==> c.icon == config.tag_labels@[i]@
            &&& tags_of(view, config)[j].bindings.primary == c.bindings.primary <==> i == j
        }),
        tags_of(view, config).len() == view.tags.len() || tags_of(view, config).len() == 32 < view.tags.len(),
{
    tags_by_position(i as usize, j as usize);
    let id = tag_at(i as usize);
    assert(id.position() == i);
}

/// Choosing a layout sets the one that the choice is named for.
pub proof fn choices_set_their_layout(view: SnapshotView, config: PresentationConfig, i: int)
    requires
        0 <= i < config.layouts@.len(),
    ensures
        view.layout_selector_open ==> {
            let all = choices_of(view, config);
            let choice = config.layouts@[i];
            &&& all.len() == config.layouts@.len()
            &&& all[i].id == NodeId::LayoutOption(choice.id)
            &&& all[i].value == choice.label@
            &&& all[i].bindings.primary == Some(UserAction::SetLayout(choice.id))
            &&& all[i].state.enabled == view.wm_available
        },
        !view.layout_selector_open ==> choices_of(view, config).len() == 0,
{
}

/// The next look at a bar is an interval away, and never before now.
pub proof fn looks_are_an_interval_apart(now: u64, interval: u64)
    ensures
        later(now, interval) >= now,
        now + interval <= u64::MAX ==> later(now, interval) - now == interval,
        later(now, interval) - now <= interval,
{
}

/// Every change of a bar makes a new revision, as long as numbers last.
pub proof fn revisions_ascend(revision: u64)
    ensures
        revision < u64::MAX ==> next_revision(revision) == revision + 1,
        next_revision(revision) >= revision,
{
}

/// What is left to the host is the action itself: two different actions never
/// leave it the same work.
pub proof fn different_actions_are_different_work(a: UserAction, b: UserAction)
    requires
        effects_of(a).len() > 0,
        effects_of(a) == effects_of(b),
    ensures
        a == b,
{
    assert(effects_of(b).len() > 0);
    assert(effects_of(a)[0] is Forward ==> effects_of(a)[0]->0 == a);
    assert(effects_of(b)[0] is Forward ==> effects_of(b)[0]->0 == b);
    assert(effects_of(a)[0] is Screenshot <==> a == UserAction::Screenshot);
    assert(effects_of(b)[0] is Screenshot <==> b == UserAction::Screenshot);
    assert(effects_of(a)[0] == effects_of(b)[0]);
}

/// Icons that differ tell the volumes apart, and likewise the batteries that are
/// there, that are charged and that are not.
pub proof fn icons_tell_states_apart(icons: IconSet, a: VolumeLevel, b: VolumeLevel)
    requires
        a != b,
        icons.volume_unavailable@ != icons.volume_muted@,
        icons.volume_unavailable@ != icons.volume_low@,
        icons.volume_unavailable@ != icons.volume_medium@,
        icons.volume_unavailable@ != icons.volume_high@,
        icons.volume_muted@ != icons.volume_low@,
        icons.volume_muted@ != icons.volume_medium@,
        icons.volume_muted@ != icons.volume_high@,
        icons.volume_low@ != icons.volume_medium@,
        icons.volume_low@ != icons.volume_high@,
        icons.volume_medium@ != icons.volume_high@,
    ensures
        icons.volume_of(a) != icons.volume_of(b),
        icons.volume_of(VolumeLevel::Muted) == icons.volume_muted@,
        icons.volume_of(VolumeLevel::Low) == icons.volume_low@,
        icons.volume_of(VolumeLevel::Medium) == icons.volume_medium@,
        icons.volume_of(VolumeLevel::High) == icons.volume_high@,
{
}

/// A battery that is not there has the icon for that, whatever else is said of
/// it; one that is there shows whether it is charged.
pub proof fn batteries_show_whether_they_charge(icons: IconSet, battery: BatteryState)
    ensures
        !battery.present ==> icons.battery_of(battery) == icons.battery_absent@,
        battery.present && battery.charging ==> icons.battery_of(battery)
            == icons.battery_charging@,
        battery.present && !battery.charging ==> icons.battery_of(battery)
            == icons.battery_discharging@,
{
}

/// Tags are counted from one, in their order.
pub proof fn tags_are_counted_from_one(index: usize)
    requires
        index < usize::MAX,
    ensures
        next_number(0) == 1,
        index > 0 ==> next_number(index) == next_number((index - 1) as usize) + 1,
{
}

/// The layout button shows the layout in view and whether the choice of layouts
/// is open, and pressing it opens or closes that; nothing of it works without the
/// window manager.
pub proof fn the_layout_button_opens_the_choice(view: SnapshotView)
    ensures
        ({
            let button = layout_button_of(view);
            &&& button.id == NodeId::LayoutButton
            &&& view.layout_symbol.len() > 0 ==> button.value == view.layout_symbol
            &&& button.state.selected == view.layout_selector_open
            &&& button.state.enabled == view.wm_available
            &&& button.available == view.wm_available
            &&& button.bindings.primary is Some
            &&& applied(view, button.bindings.primary->0).layout_selector_open
                != view.layout_selector_open
        }),
{
}

/// The name of the focused window is shown as it is, just where names are shown
/// and there is one; pointing at it does nothing.
pub proof fn the_focused_window_is_named(view: SnapshotView, config: PresentationConfig)
    ensures
        client_name_of(view, config) is Some <==> config.visibility.client_name
            && view.client_name.len() > 0,
        client_name_of(view, config) is Some ==> {
            let control = client_name_of(view, config)->0;
            &&& control.id == NodeId::Client
            &&& control.value == view.client_name
            &&& control.bindings == unbound()
            &&& !control.state.enabled
        },
{
}

} // verus!
