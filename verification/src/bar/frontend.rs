//! Delivery of the bar to frontends: complete, numbered states, each handed
//! out once, and the requests that come back.
use super::model::{
    BarSnapshot, DirtyBits, LayoutId, MAX_MODEL_TAGS, MonitorId, SnapshotView, TagId, UserAction,
    same_tags, same_texts, tag_at,
};
use super::runtime::{
    BarEffect, BarRuntime, RuntimeFrame, RuntimeSchedule, RuntimeUpdate, applied, changed_by,
    effects_of, later, next_revision,
};
use crate::text::{decimal, push_nat, str_eq};
use vstd::prelude::*;

verus! {

/// `bit` where `cond` holds.
pub open spec fn mark(cond: bool, bit: u8) -> u8 {
    if cond {
        bit
    } else {
        0
    }
}

/// The sections that changes concern: monitor, geometry, layout and window
/// name the first, system and battery the second, then sound and brightness.
pub open spec fn sections_of(changes: u16) -> u8 {
    mark(changes & 15 != 0, 1) | mark(changes & 640 != 0, 2) | mark(changes & 64 != 0, 4) | mark(
        changes & 256 != 0,
        8,
    )
}

/// Coarse sections of a frontend: which of its stores a change concerns.
#[derive(Debug, Clone, Copy, PartialEq, Eq, Structural)]
pub struct FrontendPartitions {
    bits: u8,
}

impl FrontendPartitions {
    pub const NONE: u8 = 0;

    pub const MONITOR: u8 = 1;

    pub const SYSTEM: u8 = 2;

    pub const AUDIO: u8 = 4;

    pub const BRIGHTNESS: u8 = 8;

    /// The bits.
    pub closed spec fn value(self) -> u8 {
        self.bits
    }

    /// These sections, without bits that mean nothing.
    pub fn new(bits: u8) -> (r: FrontendPartitions)
        ensures
            r.value() == bits & 15,
    {
        FrontendPartitions { bits: bits & 15 }
    }

    /// The bits.
    pub fn bits(self) -> (r: u8)
        ensures
            r == self.value(),
    {
        self.bits
    }

    /// Whether no section is concerned.
    pub fn is_empty(self) -> (r: bool)
        ensures
            r == (self.value() == 0),
    {
        self.bits == 0
    }

    /// Whether one of these sections is concerned.
    pub fn contains(self, partition: u8) -> (r: bool)
        ensures
            r == (self.value() & partition != 0),
    {
        self.bits & partition != 0
    }

    /// All sections.
    pub fn all() -> (r: FrontendPartitions)
        ensures
            r.value() == 15,
    {
        FrontendPartitions { bits: 15 }
    }

    /// The sections that changes concern.
    pub fn from_dirty(changes: DirtyBits) -> (r: FrontendPartitions)
        ensures
            r.value() == sections_of(changes.value()),
    {
        let monitor: u8 = if changes.contains(15) { 1 } else { 0 };
        let system: u8 = if changes.contains(640) { 2 } else { 0 };
        let audio: u8 = if changes.contains(DirtyBits::AUDIO_CHANGED) { 4 } else { 0 };
        let brightness: u8 = if changes.contains(DirtyBits::BRIGHTNESS_CHANGED) { 8 } else { 0 };
        FrontendPartitions { bits: monitor | system | audio | brightness }
    }
}

impl Default for FrontendPartitions {
    fn default() -> (r: FrontendPartitions)
        ensures
            r.value() == 0,
    {
        FrontendPartitions { bits: 0 }
    }
}

/// A section is named exactly when one of its changes is; time and theme belong
/// to none, and all changes together concern all sections.
pub proof fn sections_are_exact(changes: u16)
    ensures
        sections_of(changes) & 1 != 0 <==> changes & 15 != 0,
        sections_of(changes) & 2 != 0 <==> changes & 640 != 0,
        sections_of(changes) & 4 != 0 <==> changes & 64 != 0,
        sections_of(changes) & 8 != 0 <==> changes & 256 != 0,
        sections_of(changes & 48) == 0,
        sections_of(DirtyBits::KNOWN) == 15,
{
    let (a, b, c, d) = (
        changes & 15 != 0,
        changes & 640 != 0,
        changes & 64 != 0,
        changes & 256 != 0,
    );
    let s = sections_of(changes);
    assert((s & 1 != 0 <==> a) && (s & 2 != 0 <==> b) && (s & 4 != 0 <==> c) && (s & 8 != 0
        <==> d)) by (bit_vector)
        requires
            s == mark(a, 1) | mark(b, 2) | mark(c, 4) | mark(d, 8),
    ;
    assert(changes & 48 & 15 == 0 && changes & 48 & 640 == 0 && changes & 48 & 64 == 0 && changes
        & 48 & 256 == 0 && 0u8 | 0u8 == 0u8) by (bit_vector);
    assert(1023u16 & 15 != 0 && 1023u16 & 640 != 0 && 1023u16 & 64 != 0 && 1023u16 & 256 != 0
        && 1u8 | 2u8 | 4u8 | 8u8 == 15u8) by (bit_vector);
}

/// A complete, numbered state for a frontend.
#[derive(Debug, Clone, PartialEq)]
pub struct FrontendEnvelope {
    pub revision: u64,
    /// What changed since the revision before.
    pub changes: DirtyBits,
    pub snapshot: BarSnapshot,
    /// The sections concerned, for frontends that keep a store for each.
    pub partition_changes: Option<FrontendPartitions>,
}

/// A state for a frontend as plain values.
#[verifier::ext_equal]
pub struct EnvelopeView {
    pub revision: u64,
    pub changes: u16,
    pub snapshot: SnapshotView,
    pub sections: Option<u8>,
}

impl View for FrontendEnvelope {
    type V = EnvelopeView;

    open spec fn view(&self) -> EnvelopeView {
        EnvelopeView {
            revision: self.revision,
            changes: self.changes.value(),
            snapshot: self.snapshot@,
            sections: match self.partition_changes {
                Some(p) => Some(p.value()),
                None => None,
            },
        }
    }
}

impl FrontendEnvelope {
    /// A state, with the sections left to be derived.
    pub fn new(revision: u64, changes: DirtyBits, snapshot: BarSnapshot) -> (r: FrontendEnvelope)
        ensures
            r@ == (EnvelopeView {
                revision,
                changes: changes.value(),
                snapshot: snapshot@,
                sections: None,
            }),
            r.changes == changes,
    {
        FrontendEnvelope { revision, changes, snapshot, partition_changes: None }
    }

    /// The state of a frame; what the host has to do stays with the frame.
    pub fn from_runtime_frame(frame: &RuntimeFrame) -> (r: FrontendEnvelope)
        ensures
            r@ == (EnvelopeView {
                revision: frame.revision,
                changes: frame.update.changes.value(),
                snapshot: frame.snapshot@,
                sections: None,
            }),
    {
        FrontendEnvelope::new(frame.revision, frame.changes(), frame.snapshot.copy())
    }

    /// The same state with the sections that its changes concern.
    pub fn with_derived_partition_changes(self) -> (r: FrontendEnvelope)
        ensures
            r@ == (EnvelopeView {
                sections: Some(sections_of(self@.changes)),
                ..self@
            }),
    {
        let sections = FrontendPartitions::from_dirty(self.changes);
        FrontendEnvelope {
            revision: self.revision,
            changes: self.changes,
            snapshot: self.snapshot,
            partition_changes: Some(sections),
        }
    }

    /// The sections given, or else those that the changes concern.
    pub fn effective_partition_changes(&self) -> (r: FrontendPartitions)
        ensures
            r.value() == (match self@.sections {
                Some(p) => p,
                None => sections_of(self@.changes),
            }),
    {
        match self.partition_changes {
            Some(p) => p,
            None => FrontendPartitions::from_dirty(self.changes),
        }
    }
}

/// `bit` where `cond` holds.
pub open spec fn flag(cond: bool, bit: u16) -> u16 {
    if cond {
        bit
    } else {
        0
    }
}

/// What changed from one snapshot to another, as a frontend sees it: the number
/// that the window manager counts by is not shown.
pub open spec fn differences(p: SnapshotView, c: SnapshotView) -> u16 {
    flag(
        p.wm_available != c.wm_available || p.tags != c.tags || p.active_tag != c.active_tag
            || p.monitor != c.monitor,
        1,
    ) | flag(p.geometry != c.geometry, 2) | flag(
        p.layout_symbol != c.layout_symbol || p.layout_selector_open != c.layout_selector_open,
        4,
    ) | flag(p.client_name != c.client_name, 8) | flag(
        p.time != c.time || p.show_seconds != c.show_seconds,
        16,
    ) | flag(p.theme != c.theme, 32) | flag(
        p.audio != c.audio || p.audio_device != c.audio_device,
        64,
    ) | flag(p.system != c.system || p.system_details != c.system_details, 128) | flag(
        p.brightness != c.brightness,
        256,
    ) | flag(p.battery != c.battery, 512)
}

/// What changed from one snapshot to another.
pub fn snapshot_changes(previous: &BarSnapshot, current: &BarSnapshot) -> (r: DirtyBits)
    ensures
        r.value() == differences(previous@, current@),
{
    let (p, c) = (previous, current);
    let monitor = p.wm_available != c.wm_available || !same_tags(&p.tags, &c.tags)
        || p.active_tag != c.active_tag || p.monitor != c.monitor;
    let geometry = p.geometry != c.geometry;
    let layout = !str_eq(p.layout_symbol.as_str(), c.layout_symbol.as_str())
        || p.layout_selector_open != c.layout_selector_open;
    let client = !str_eq(p.client_name.as_str(), c.client_name.as_str());
    let time = !str_eq(p.time.as_str(), c.time.as_str()) || p.show_seconds != c.show_seconds;
    let theme = p.theme != c.theme;
    let audio = p.audio != c.audio || !same_texts(&p.audio_device, &c.audio_device);
    let system = p.system != c.system || !same_texts(&p.system_details, &c.system_details);
    let brightness = p.brightness != c.brightness;
    let battery = p.battery != c.battery;
    let bits: u16 = pick(monitor, 1) | pick(geometry, 2) | pick(layout, 4) | pick(client, 8)
        | pick(time, 16) | pick(theme, 32) | pick(audio, 64) | pick(system, 128) | pick(
        brightness,
        256,
    ) | pick(battery, 512);
    proof {
        flags_are_known(
            monitor,
            geometry,
            layout,
            client,
            time,
            theme,
            audio,
            system,
            brightness,
            battery,
        );
    }
    DirtyBits::new(bits)
}

fn pick(cond: bool, bit: u16) -> (r: u16)
    ensures
        r == flag(cond, bit),
{
    if cond { bit } else { 0 }
}

proof fn flags_are_known(
    a: bool,
    b: bool,
    c: bool,
    d: bool,
    e: bool,
    f: bool,
    g: bool,
    h: bool,
    i: bool,
    j: bool,
)
    ensures
        ({
            let bits = flag(a, 1) | flag(b, 2) | flag(c, 4) | flag(d, 8) | flag(e, 16) | flag(
                f,
                32,
            ) | flag(g, 64) | flag(h, 128) | flag(i, 256) | flag(j, 512);
            &&& bits & 1023 == bits
            &&& bits == 0 <==> !(a || b || c || d || e || f || g || h || i || j)
        }),
{
    assert({
        let bits = flag(a, 1) | flag(b, 2) | flag(c, 4) | flag(d, 8) | flag(e, 16) | flag(f, 32)
            | flag(g, 64) | flag(h, 128) | flag(i, 256) | flag(j, 512);
        &&& bits & 1023 == bits
        &&& (bits == 0 <==> !(a || b || c || d || e || f || g || h || i || j))
    }) by (bit_vector);
}

/// Nothing changed exactly when the snapshots agree in all that is shown.
pub proof fn no_difference_means_same(p: SnapshotView, c: SnapshotView)
    ensures
        differences(p, c) == 0 <==> p == (SnapshotView { wm_sequence: p.wm_sequence, ..c }),
        differences(p, p) == 0,
{
    flags_are_known(
        p.wm_available != c.wm_available || p.tags != c.tags || p.active_tag != c.active_tag
            || p.monitor != c.monitor,
        p.geometry != c.geometry,
        p.layout_symbol != c.layout_symbol || p.layout_selector_open != c.layout_selector_open,
        p.client_name != c.client_name,
        p.time != c.time || p.show_seconds != c.show_seconds,
        p.theme != c.theme,
        p.audio != c.audio || p.audio_device != c.audio_device,
        p.system != c.system || p.system_details != c.system_details,
        p.brightness != c.brightness,
        p.battery != c.battery,
    );
    flags_are_known(
        false,
        false,
        false,
        false,
        false,
        false,
        false,
        false,
        false,
        false,
    );
}

/// What a frontend was last told.
#[derive(Debug, Clone, PartialEq)]
pub struct SnapshotCursor {
    revision: Option<u64>,
    previous_snapshot: Option<BarSnapshot>,
}

/// What a frontend was last told, as plain values.
#[verifier::ext_equal]
pub struct CursorView {
    pub revision: Option<u64>,
    pub previous: Option<SnapshotView>,
}

impl View for SnapshotCursor {
    type V = CursorView;

    closed spec fn view(&self) -> CursorView {
        CursorView {
            revision: self.revision,
            previous: match self.previous_snapshot {
                Some(s) => Some(s@),
                None => None,
            },
        }
    }
}

/// A state with the sections that its changes concern.
pub open spec fn envelope_of(revision: u64, changes: u16, snapshot: SnapshotView) -> EnvelopeView {
    EnvelopeView { revision, changes, snapshot, sections: Some(sections_of(changes)) }
}

impl CursorView {
    /// Whether a revision is older than what the frontend was told.
    pub open spec fn is_stale(self, revision: u64) -> bool {
        self.revision is Some && revision < self.revision->0
    }

    /// What the frontend was told after an update: nothing new by one that is
    /// stale.
    pub open spec fn advanced(self, revision: u64, snapshot: SnapshotView) -> CursorView {
        if self.is_stale(revision) {
            self
        } else {
            CursorView { revision: Some(revision), previous: Some(snapshot) }
        }
    }

    /// What an update delivers: everything to a frontend that was told nothing,
    /// and else a state that differs in what is shown, or was said to.
    pub open spec fn delivered(self, revision: u64, changes: u16, snapshot: SnapshotView) -> Option<
        EnvelopeView,
    > {
        if self.is_stale(revision) {
            None
        } else {
            match self.previous {
                None => Some(envelope_of(revision, DirtyBits::KNOWN, snapshot)),
                Some(previous) => if previous == snapshot || changes | differences(
                    previous,
                    snapshot,
                ) == 0 {
                    None
                } else {
                    Some(
                        envelope_of(
                            revision,
                            changes | differences(previous, snapshot),
                            snapshot,
                        ),
                    )
                },
            }
        }
    }

    /// The last state, complete.
    pub open spec fn replayed(self) -> Option<EnvelopeView> {
        match (self.revision, self.previous) {
            (Some(revision), Some(snapshot)) => Some(
                envelope_of(revision, DirtyBits::KNOWN, snapshot),
            ),
            _ => None,
        }
    }
}

/// An envelope as plain values, where there is one.
pub open spec fn envelope_view(e: Option<FrontendEnvelope>) -> Option<EnvelopeView> {
    match e {
        Some(e) => Some(e@),
        None => None,
    }
}

impl SnapshotCursor {
    /// The cursor of a frontend that was told nothing.
    pub fn new() -> (r: SnapshotCursor)
        ensures
            r@ == (CursorView { revision: None, previous: None }),
    {
        SnapshotCursor { revision: None, previous_snapshot: None }
    }

    /// Takes a state, and returns it where the frontend has to be told.
    pub fn update(&mut self, revision: u64, changes: DirtyBits, snapshot: BarSnapshot) -> (r:
        Option<FrontendEnvelope>)
        ensures
            final(self)@ == old(self)@.advanced(revision, snapshot@),
            envelope_view(r) == old(self)@.delivered(revision, changes.value(), snapshot@),
    {
        if let Some(current) = self.revision {
            if revision < current {
                return None;
            }
        }
        let mut previous: Option<BarSnapshot> = None;
        std::mem::swap(&mut previous, &mut self.previous_snapshot);
        self.revision = Some(revision);
        match previous {
            None => {
                self.previous_snapshot = Some(snapshot.copy());
                Some(
                    FrontendEnvelope::new(
                        revision,
                        DirtyBits::all(),
                        snapshot,
                    ).with_derived_partition_changes(),
                )
            },
            Some(previous) => {
                let found = snapshot_changes(&previous, &snapshot);
                let unchanged = found.is_empty() && previous.wm_sequence == snapshot.wm_sequence;
                proof {
                    no_difference_means_same(previous@, snapshot@);
                    assert(unchanged ==> previous@ =~= snapshot@);
                }
                let changes = changes.union(found);
                if unchanged || changes.is_empty() {
                    self.previous_snapshot = Some(snapshot);
                    None
                } else {
                    self.previous_snapshot = Some(snapshot.copy());
                    Some(
                        FrontendEnvelope::new(
                            revision,
                            changes,
                            snapshot,
                        ).with_derived_partition_changes(),
                    )
                }
            },
        }
    }

    /// The same for a state that the caller keeps.
    pub fn update_ref(&mut self, revision: u64, changes: DirtyBits, snapshot: &BarSnapshot) -> (r:
        Option<FrontendEnvelope>)
        ensures
            final(self)@ == old(self)@.advanced(revision, snapshot@),
            envelope_view(r) == old(self)@.delivered(revision, changes.value(), snapshot@),
    {
        self.update(revision, changes, snapshot.copy())
    }

    /// The same for the state of a frame.
    pub fn update_frame(&mut self, frame: &RuntimeFrame) -> (r: Option<FrontendEnvelope>)
        ensures
            final(self)@ == old(self)@.advanced(frame.revision, frame.snapshot@),
            envelope_view(r) == old(self)@.delivered(
                frame.revision,
                frame.update.changes.value(),
                frame.snapshot@,
            ),
    {
        self.update_ref(frame.revision, frame.changes(), &frame.snapshot)
    }

    /// The last state again, complete.
    pub fn replay(&self) -> (r: Option<FrontendEnvelope>)
        ensures
            envelope_view(r) == self@.replayed(),
    {
        match (self.revision, &self.previous_snapshot) {
            (Some(revision), Some(snapshot)) => Some(
                FrontendEnvelope::new(
                    revision,
                    DirtyBits::all(),
                    snapshot.copy(),
                ).with_derived_partition_changes(),
            ),
            _ => None,
        }
    }

    /// Forgets what the frontend was told.
    pub fn reset(&mut self)
        ensures
            final(self)@ == (CursorView { revision: None, previous: None }),
    {
        self.revision = None;
        self.previous_snapshot = None;
    }

    /// The last revision.
    pub fn revision(&self) -> (r: Option<u64>)
        ensures
            r == self@.revision,
    {
        self.revision
    }

    /// The last snapshot.
    pub fn previous_snapshot(&self) -> (r: Option<&BarSnapshot>)
        ensures
            match r {
                Some(s) => self@.previous == Some(s@),
                None => self@.previous is None,
            },
    {
        match &self.previous_snapshot {
            Some(s) => Some(s),
            None => None,
        }
    }
}

/// Delivery never goes backwards: a stale state is not delivered and changes
/// nothing, and the revision never falls.
pub proof fn delivery_never_goes_back(
    cursor: CursorView,
    revision: u64,
    changes: u16,
    snapshot: SnapshotView,
)
    ensures
        cursor.is_stale(revision) ==> cursor.delivered(revision, changes, snapshot) is None
            && cursor.advanced(revision, snapshot) == cursor,
        cursor.revision is Some ==> cursor.advanced(revision, snapshot).revision is Some
            && cursor.advanced(revision, snapshot).revision->0 >= cursor.revision->0,
        cursor.delivered(revision, changes, snapshot) is Some ==> cursor.delivered(
            revision,
            changes,
            snapshot,
        )->0.snapshot == snapshot && cursor.delivered(revision, changes, snapshot)->0.revision
            == revision,
{
}

/// A state that was taken is not delivered twice, whatever is said of its
/// changes.
pub proof fn states_are_delivered_once(
    cursor: CursorView,
    revision: u64,
    again: u64,
    changes: u16,
    snapshot: SnapshotView,
)
    requires
        !cursor.is_stale(revision),
    ensures
        cursor.advanced(revision, snapshot).delivered(again, changes, snapshot) is None,
{
}

/// A frontend that was told nothing, or whose cursor was reset, is told
/// everything.
pub proof fn the_first_state_is_complete(revision: u64, changes: u16, snapshot: SnapshotView)
    ensures
        ({
            let fresh = CursorView { revision: None, previous: None };
            &&& fresh.replayed() is None
            &&& fresh.delivered(revision, changes, snapshot) == Some(
                EnvelopeView {
                    revision,
                    changes: DirtyBits::KNOWN,
                    snapshot,
                    sections: Some(15u8),
                },
            )
        }),
{
    sections_are_exact(DirtyBits::KNOWN);
}

/// Whatever was taken last is what a replay shows, delivered or not.
pub proof fn replay_shows_the_last_state(cursor: CursorView, revision: u64, snapshot: SnapshotView)
    requires
        !cursor.is_stale(revision),
    ensures
        cursor.advanced(revision, snapshot).replayed() == Some(
            envelope_of(revision, DirtyBits::KNOWN, snapshot),
        ),
{
}

/// A change that is shown is delivered, and its bit is set, though nobody said
/// that anything changed.
pub proof fn visible_changes_are_delivered(
    cursor: CursorView,
    revision: u64,
    changes: u16,
    snapshot: SnapshotView,
)
    requires
        !cursor.is_stale(revision),
        cursor.previous is Some,
        differences(cursor.previous->0, snapshot) != 0,
    ensures
        ({
            let r = cursor.delivered(revision, changes, snapshot);
            let d = differences(cursor.previous->0, snapshot);
            &&& r is Some
            &&& r->0.changes & d == d
            &&& r->0.changes & changes == changes
        }),
{
    let d = differences(cursor.previous->0, snapshot);
    no_difference_means_same(cursor.previous->0, snapshot);
    assert(d != 0 ==> changes | d != 0 && (changes | d) & d == d && (changes | d) & changes
        == changes) by (bit_vector);
}

/// One turn of a session: the frame, and the state to be delivered.
#[derive(Debug, Clone, PartialEq)]
pub struct SessionOutput {
    pub frame: RuntimeFrame,
    pub envelope: Option<FrontendEnvelope>,
}

impl SessionOutput {
    /// Frame and state apart.
    pub fn into_parts(self) -> (r: (RuntimeFrame, Option<FrontendEnvelope>))
        ensures
            r == (self.frame, self.envelope),
    {
        (self.frame, self.envelope)
    }
}

/// A runtime, its schedule, and the cursor of the frontend that it serves.
#[derive(Debug, Clone, PartialEq)]
pub struct FrontendSession {
    runtime: BarRuntime,
    schedule: RuntimeSchedule,
    cursor: SnapshotCursor,
}

impl Default for FrontendSession {
    fn default() -> (r: FrontendSession)
        ensures
            r.state().at() == 1,
            r.state().state() == super::model::blank(),
            r.told() == (CursorView { revision: None, previous: None }),
            r.plan() == (RuntimeSchedule { interval_ms: 1000, due_ms: None }),
    {
        FrontendSession {
            runtime: BarRuntime::default(),
            schedule: RuntimeSchedule::default(),
            cursor: SnapshotCursor::new(),
        }
    }
}

impl FrontendSession {
    /// The runtime.
    pub closed spec fn state(self) -> BarRuntime {
        self.runtime
    }

    /// What the frontend was told.
    pub closed spec fn told(self) -> CursorView {
        self.cursor@
    }

    /// The schedule.
    pub closed spec fn plan(self) -> RuntimeSchedule {
        self.schedule
    }

    /// A session of a runtime.
    pub fn new(runtime: BarRuntime) -> (r: FrontendSession)
        ensures
            r.state() == runtime,
            r.plan() == (RuntimeSchedule { interval_ms: 1000, due_ms: None }),
            r.told() == (CursorView { revision: None, previous: None }),
    {
        FrontendSession::with_schedule(runtime, RuntimeSchedule::default())
    }

    /// A session of a runtime on a schedule of its own.
    pub fn with_schedule(runtime: BarRuntime, schedule: RuntimeSchedule) -> (r: FrontendSession)
        ensures
            r.state() == runtime,
            r.plan() == schedule,
            r.told() == (CursorView { revision: None, previous: None }),
    {
        FrontendSession { runtime, schedule, cursor: SnapshotCursor::new() }
    }

    /// Looks at the runtime at a time in milliseconds, and delivers what
    /// changed.
    pub fn service_at(&mut self, now_ms: u64) -> (r: SessionOutput)
        ensures
            final(self).state() == old(self).state(),
            final(self).plan() == (RuntimeSchedule {
                due_ms: Some(later(now_ms, old(self).plan().interval_ms)),
                ..old(self).plan()
            }),
            r.frame.revision == old(self).state().at(),
            r.frame.snapshot@ == old(self).state().state(),
            r.frame.update.changes.value() == 0,
            r.frame.update.platform_effects@ == Seq::<BarEffect>::empty(),
            r.frame.update.issues@ == Seq::<String>::empty(),
            final(self).told() == old(self).told().advanced(r.frame.revision, r.frame.snapshot@),
            envelope_view(r.envelope) == old(self).told().delivered(
                r.frame.revision,
                0,
                r.frame.snapshot@,
            ),
    {
        let frame = self.schedule.service_frame_at(&self.runtime, now_ms);
        let envelope = self.cursor.update_frame(&frame);
        SessionOutput { frame, envelope }
    }

    /// Checks and performs a request, and delivers what it changed. A request
    /// that is refused changes nothing.
    pub fn dispatch(&mut self, request: ActionRequest) -> (r: Result<
        SessionOutput,
        ActionRequestError,
    >)
        ensures
            final(self).plan() == old(self).plan(),
            match request.meaning() {
                Err(e) => r == Err::<SessionOutput, ActionRequestError>(e) && *final(self) == *old(
                    self,
                ),
                Ok(action) => {
                    &&& r is Ok
                    &&& final(self).state().state() == applied(old(self).state().state(), action)
                    &&& final(self).state().at() == if changed_by(action) != 0 {
                        next_revision(old(self).state().at())
                    } else {
                        old(self).state().at()
                    }
                    &&& r->Ok_0.frame.revision == final(self).state().at()
                    &&& r->Ok_0.frame.snapshot@ == final(self).state().state()
                    &&& r->Ok_0.frame.update.changes.value() == changed_by(action)
                    &&& r->Ok_0.frame.update.platform_effects@ == effects_of(action)
                    &&& r->Ok_0.frame.update.issues@ == Seq::<String>::empty()
                    &&& final(self).told() == old(self).told().advanced(
                        r->Ok_0.frame.revision,
                        r->Ok_0.frame.snapshot@,
                    )
                    &&& envelope_view(r->Ok_0.envelope) == old(self).told().delivered(
                        r->Ok_0.frame.revision,
                        changed_by(action),
                        r->Ok_0.frame.snapshot@,
                    )
                },
            },
    {
        match request.dispatch_frame(&mut self.runtime) {
            Err(e) => Err(e),
            Ok(frame) => {
                let envelope = self.cursor.update_frame(&frame);
                Ok(SessionOutput { frame, envelope })
            },
        }
    }

    /// The last state again, complete.
    pub fn replay(&self) -> (r: Option<FrontendEnvelope>)
        ensures
            envelope_view(r) == self.told().replayed(),
    {
        self.cursor.replay()
    }

    /// Lets the next delivery be complete; runtime and schedule stay.
    pub fn reset_delivery(&mut self)
        ensures
            final(self).told() == (CursorView { revision: None, previous: None }),
            final(self).state() == old(self).state(),
            final(self).plan() == old(self).plan(),
    {
        self.cursor.reset();
    }

    /// When the runtime has to be looked at, at the latest.
    pub fn next_service_deadline(&self, now_ms: u64) -> (r: u64)
        ensures
            r == (match self.plan().due_ms {
                Some(due) => due,
                None => now_ms,
            }),
    {
        self.schedule.next_service_deadline(now_ms)
    }

    /// The runtime.
    pub fn runtime(&self) -> (r: &BarRuntime)
        ensures
            *r == self.state(),
    {
        &self.runtime
    }

    /// The runtime, to be changed.
    pub fn runtime_mut(&mut self) -> (r: &mut BarRuntime)
        ensures
            *r == old(self).state(),
            final(self).state() == *final(r),
            final(self).told() == old(self).told(),
            final(self).plan() == old(self).plan(),
    {
        &mut self.runtime
    }

    /// The schedule.
    pub fn schedule(&self) -> (r: &RuntimeSchedule)
        ensures
            *r == self.plan(),
    {
        &self.schedule
    }

    /// The schedule, to be changed.
    pub fn schedule_mut(&mut self) -> (r: &mut RuntimeSchedule)
        ensures
            *r == old(self).plan(),
            final(self).plan() == *final(r),
            final(self).told() == old(self).told(),
            final(self).state() == old(self).state(),
    {
        &mut self.schedule
    }

    /// What the frontend was told.
    pub fn cursor(&self) -> (r: &SnapshotCursor)
        ensures
            r@ == self.told(),
    {
        &self.cursor
    }
}

/// A request of a frontend.
#[derive(Debug, Clone, Copy, PartialEq, Eq, Structural)]
pub enum ActionRequest {
    ViewTag { tag_index: usize },
    ToggleTag { tag_index: usize },
    ViewTagOn { tag_index: usize, monitor_id: i32 },
    ToggleTagOn { tag_index: usize, monitor_id: i32 },
    ToggleLayoutSelector,
    SetLayout { layout_id: u32 },
    SetLayoutOn { layout_id: u32, monitor_id: i32 },
    ToggleSeconds,
    ToggleTheme,
    ToggleMute,
    VolumeUp,
    VolumeDown,
    AdjustVolume { delta: i32 },
    BrightnessUp,
    BrightnessDown,
    AdjustBrightness { delta: i32 },
    RefreshBattery,
    Screenshot,
    OpenAudioControl,
}

/// Why a request is refused.
#[derive(Debug, Clone, Copy, PartialEq, Eq, Structural)]
pub enum ActionRequestError {
    TagOutOfRange { tag_index: usize, max_exclusive: usize },
}

impl ActionRequestError {
    /// How the refusal reads.
    pub fn to_string(&self) -> (r: String)
        ensures
            match *self {
                ActionRequestError::TagOutOfRange { tag_index, max_exclusive } => r@
                    == "tag_index must be in 0.."@ + decimal(max_exclusive as int) + ", got "@
                    + decimal(tag_index as int),
            },
    {
        match self {
            ActionRequestError::TagOutOfRange { tag_index, max_exclusive } => {
                let mut r = String::new();
                r.append("tag_index must be in 0..");
                push_nat(&mut r, *max_exclusive as u64);
                r.append(", got ");
                push_nat(&mut r, *tag_index as u64);
                r
            },
        }
    }
}

/// `action` on the tag at `index`, where there is such a tag.
pub open spec fn on_tag(
    index: usize,
    action: spec_fn(TagId) -> UserAction,
) -> Result<UserAction, ActionRequestError> {
    if index < MAX_MODEL_TAGS {
        Ok(action(tag_at(index)))
    } else {
        Err(
            ActionRequestError::TagOutOfRange {
                tag_index: index,
                max_exclusive: MAX_MODEL_TAGS,
            },
        )
    }
}

impl ActionRequest {
    /// The action that a request means; it is refused when it names a tag that
    /// a bar cannot show, and only then.
    pub open spec fn meaning(self) -> Result<UserAction, ActionRequestError> {
        match self {
            ActionRequest::ViewTag { tag_index } => on_tag(
                tag_index,
                |tag: TagId| UserAction::ViewTag(tag),
            ),
            ActionRequest::ToggleTag { tag_index } => on_tag(
                tag_index,
                |tag: TagId| UserAction::ToggleTag(tag),
            ),
            ActionRequest::ViewTagOn { tag_index, monitor_id } => on_tag(
                tag_index,
                |tag: TagId| UserAction::ViewTagOn { tag, monitor: MonitorId(monitor_id) },
            ),
            ActionRequest::ToggleTagOn { tag_index, monitor_id } => on_tag(
                tag_index,
                |tag: TagId| UserAction::ToggleTagOn { tag, monitor: MonitorId(monitor_id) },
            ),
            ActionRequest::ToggleLayoutSelector => Ok(UserAction::ToggleLayoutSelector),
            ActionRequest::SetLayout { layout_id } => Ok(
                UserAction::SetLayout(LayoutId(layout_id)),
            ),
            ActionRequest::SetLayoutOn { layout_id, monitor_id } => Ok(
                UserAction::SetLayoutOn {
                    layout: LayoutId(layout_id),
                    monitor: MonitorId(monitor_id),
                },
            ),
            ActionRequest::ToggleSeconds => Ok(UserAction::ToggleSeconds),
            ActionRequest::ToggleTheme => Ok(UserAction::ToggleTheme),
            ActionRequest::ToggleMute => Ok(UserAction::ToggleMute),
            ActionRequest::VolumeUp => Ok(UserAction::VolumeUp),
            ActionRequest::VolumeDown => Ok(UserAction::VolumeDown),
            ActionRequest::AdjustVolume { delta } => Ok(UserAction::AdjustVolume(delta)),
            ActionRequest::BrightnessUp => Ok(UserAction::BrightnessUp),
            ActionRequest::BrightnessDown => Ok(UserAction::BrightnessDown),
            ActionRequest::AdjustBrightness { delta } => Ok(UserAction::AdjustBrightness(delta)),
            ActionRequest::RefreshBattery => Ok(UserAction::RefreshBattery),
            ActionRequest::Screenshot => Ok(UserAction::Screenshot),
            ActionRequest::OpenAudioControl => Ok(UserAction::OpenAudioControl),
        }
    }

    /// The action that the request means.
    pub fn into_user_action(self) -> (r: Result<UserAction, ActionRequestError>)
        ensures
            r == self.meaning(),
    {
        match self {
            ActionRequest::ViewTag { tag_index } => match checked_tag(tag_index) {
                Ok(tag) => Ok(UserAction::ViewTag(tag)),
                Err(e) => Err(e),
            },
            ActionRequest::ToggleTag { tag_index } => match checked_tag(tag_index) {
                Ok(tag) => Ok(UserAction::ToggleTag(tag)),
                Err(e) => Err(e),
            },
            ActionRequest::ViewTagOn { tag_index, monitor_id } => match checked_tag(tag_index) {
                Ok(tag) => Ok(UserAction::ViewTagOn { tag, monitor: MonitorId(monitor_id) }),
                Err(e) => Err(e),
            },
            ActionRequest::ToggleTagOn { tag_index, monitor_id } => match checked_tag(tag_index) {
                Ok(tag) => Ok(UserAction::ToggleTagOn { tag, monitor: MonitorId(monitor_id) }),
                Err(e) => Err(e),
            },
            ActionRequest::ToggleLayoutSelector => Ok(UserAction::ToggleLayoutSelector),
            ActionRequest::SetLayout { layout_id } => Ok(
                UserAction::SetLayout(LayoutId(layout_id)),
            ),
            ActionRequest::SetLayoutOn { layout_id, monitor_id } => Ok(
                UserAction::SetLayoutOn {
                    layout: LayoutId(layout_id),
                    monitor: MonitorId(monitor_id),
                },
            ),
            ActionRequest::ToggleSeconds => Ok(UserAction::ToggleSeconds),
            ActionRequest::ToggleTheme => Ok(UserAction::ToggleTheme),
            ActionRequest::ToggleMute => Ok(UserAction::ToggleMute),
            ActionRequest::VolumeUp => Ok(UserAction::VolumeUp),
            ActionRequest::VolumeDown => Ok(UserAction::VolumeDown),
            ActionRequest::AdjustVolume { delta } => Ok(UserAction::AdjustVolume(delta)),
            ActionRequest::BrightnessUp => Ok(UserAction::BrightnessUp),
            ActionRequest::BrightnessDown => Ok(UserAction::BrightnessDown),
            ActionRequest::AdjustBrightness { delta } => Ok(UserAction::AdjustBrightness(delta)),
            ActionRequest::RefreshBattery => Ok(UserAction::RefreshBattery),
            ActionRequest::Screenshot => Ok(UserAction::Screenshot),
            ActionRequest::OpenAudioControl => Ok(UserAction::OpenAudioControl),
        }
    }

    /// Checks and performs the request.
    pub fn dispatch(self, runtime: &mut BarRuntime) -> (r: Result<
        RuntimeUpdate,
        ActionRequestError,
    >)
        ensures
            match self.meaning() {
                Err(e) => r == Err::<RuntimeUpdate, ActionRequestError>(e) && *final(runtime)
                    == *old(runtime),
                Ok(action) => {
                    &&& r is Ok
                    &&& final(runtime).state() == applied(old(runtime).state(), action)
                    &&& final(runtime).at() == if changed_by(action) != 0 {
                        next_revision(old(runtime).at())
                    } else {
                        old(runtime).at()
                    }
                    &&& r->Ok_0.changes.value() == changed_by(action)
                    &&& r->Ok_0.platform_effects@ == effects_of(action)
                    &&& r->Ok_0.issues@ == Seq::<String>::empty()
                },
            },
    {
        match self.into_user_action() {
            Err(e) => Err(e),
            Ok(action) => Ok(runtime.dispatch(action)),
        }
    }

    /// Checks and performs the request, and returns the state that it led to.
    pub fn dispatch_frame(self, runtime: &mut BarRuntime) -> (r: Result<
        RuntimeFrame,
        ActionRequestError,
    >)
        ensures
            match self.meaning() {
                Err(e) => r == Err::<RuntimeFrame, ActionRequestError>(e) && *final(runtime)
                    == *old(runtime),
                Ok(action) => {
                    &&& r is Ok
                    &&& final(runtime).state() == applied(old(runtime).state(), action)
                    &&& final(runtime).at() == if changed_by(action) != 0 {
                        next_revision(old(runtime).at())
                    } else {
                        old(runtime).at()
                    }
                    &&& r->Ok_0.revision == final(runtime).at()
                    &&& r->Ok_0.snapshot@ == final(runtime).state()
                    &&& r->Ok_0.update.changes.value() == changed_by(action)
                    &&& r->Ok_0.update.platform_effects@ == effects_of(action)
                    &&& r->Ok_0.update.issues@ == Seq::<String>::empty()
                },
            },
    {
        match self.into_user_action() {
            Err(e) => Err(e),
            Ok(action) => Ok(runtime.dispatch_frame(action)),
        }
    }
}

fn checked_tag(tag_index: usize) -> (r: Result<TagId, ActionRequestError>)
    ensures
        r == if tag_index < MAX_MODEL_TAGS {
            Ok::<TagId, ActionRequestError>(tag_at(tag_index))
        } else {
            Err::<TagId, ActionRequestError>(
                ActionRequestError::TagOutOfRange { tag_index, max_exclusive: MAX_MODEL_TAGS },
            )
        },
{
    match TagId::new(tag_index) {
        Some(tag) => Ok(tag),
        None => Err(
            ActionRequestError::TagOutOfRange { tag_index, max_exclusive: MAX_MODEL_TAGS },
        ),
    }
}

/// Only a state older than the one that was told is passed over: one of the same
/// revision or a later one that differs is delivered.
pub proof fn only_older_states_are_passed_over(
    cursor: CursorView,
    revision: u64,
    changes: u16,
    snapshot: SnapshotView,
)
    requires
        cursor.revision is Some,
        cursor.previous is Some,
        cursor.revision->0 <= revision,
        cursor.previous->0 != snapshot,
        changes != 0,
    ensures
        cursor.delivered(revision, changes, snapshot) is Some,
        cursor.advanced(revision, snapshot).revision == Some(revision),
        cursor.advanced(revision, snapshot).previous == Some(snapshot),
{
    let d = differences(cursor.previous->0, snapshot);
    assert(changes != 0 ==> changes | d != 0) by (bit_vector);
}

} // verus!
