//! The state behind the bar: what actions change in it, and the frames that it
//! hands out.
use super::model::{BarSnapshot, DirtyBits, SnapshotView, ThemeMode, UserAction, blank};
use vstd::prelude::*;

verus! {

/// Work that the host has to do.
#[derive(Debug, Clone, Copy, PartialEq, Eq, Structural)]
pub enum BarEffect {
    Screenshot,
    OpenAudioControl,
    /// An action of the window manager or of a device.
    Forward(UserAction),
}

/// What one step of the runtime came to.
#[derive(Debug, Clone, PartialEq)]
pub struct RuntimeUpdate {
    pub changes: DirtyBits,
    pub platform_effects: Vec<BarEffect>,
    pub issues: Vec<String>,
}

impl Default for RuntimeUpdate {
    fn default() -> (r: RuntimeUpdate)
        ensures
            r.changes.value() == 0,
            r.platform_effects@ == Seq::<BarEffect>::empty(),
            r.issues@ == Seq::<String>::empty(),
    {
        RuntimeUpdate {
            changes: DirtyBits::default(),
            platform_effects: Vec::new(),
            issues: Vec::new(),
        }
    }
}

/// A snapshot together with the step that led to it.
#[derive(Debug, Clone, PartialEq)]
pub struct RuntimeFrame {
    pub revision: u64,
    pub snapshot: BarSnapshot,
    pub update: RuntimeUpdate,
}

impl RuntimeFrame {
    /// What changed.
    pub fn changes(&self) -> (r: DirtyBits)
        ensures
            r == self.update.changes,
    {
        self.update.changes
    }
}

/// The model of a bar.
#[derive(Debug, Clone, PartialEq)]
pub struct BarModel {
    state: BarSnapshot,
}

impl View for BarModel {
    type V = SnapshotView;

    closed spec fn view(&self) -> SnapshotView {
        self.state@
    }
}

impl Default for BarModel {
    fn default() -> (r: BarModel)
        ensures
            r@ == blank(),
    {
        BarModel { state: BarSnapshot::blank() }
    }
}

/// The bits that an action changes by itself.
pub open spec fn changed_by(action: UserAction) -> u16 {
    match action {
        UserAction::ToggleTheme => DirtyBits::THEME_CHANGED,
        UserAction::ToggleSeconds => DirtyBits::TIME_CHANGED,
        UserAction::ToggleLayoutSelector => DirtyBits::LAYOUT_CHANGED,
        _ => 0,
    }
}

/// The bar after an action.
pub open spec fn applied(state: SnapshotView, action: UserAction) -> SnapshotView {
    match action {
        UserAction::ToggleTheme => SnapshotView {
            theme: match state.theme {
                ThemeMode::Dark => ThemeMode::Light,
                ThemeMode::Light => ThemeMode::Dark,
            },
            ..state
        },
        UserAction::ToggleSeconds => SnapshotView { show_seconds: !state.show_seconds, ..state },
        UserAction::ToggleLayoutSelector => SnapshotView {
            layout_selector_open: !state.layout_selector_open,
            ..state
        },
        _ => state,
    }
}

/// The work that an action leaves to the host.
pub open spec fn effects_of(action: UserAction) -> Seq<BarEffect> {
    match action {
        UserAction::ToggleTheme | UserAction::ToggleSeconds
        | UserAction::ToggleLayoutSelector => Seq::empty(),
        UserAction::Screenshot => Seq::empty().push(BarEffect::Screenshot),
        UserAction::OpenAudioControl => Seq::empty().push(BarEffect::OpenAudioControl),
        _ => Seq::empty().push(BarEffect::Forward(action)),
    }
}

impl BarModel {
    /// What the bar shows.
    pub fn snapshot(&self) -> (r: BarSnapshot)
        ensures
            r@ == self@,
    {
        self.state.copy()
    }

    /// Takes over what the window manager and the devices said.
    pub fn replace(&mut self, state: BarSnapshot)
        ensures
            final(self)@ == state@,
    {
        self.state = state;
    }

    fn apply(&mut self, action: UserAction)
        ensures
            final(self)@ == applied(old(self)@, action),
    {
        match action {
            UserAction::ToggleTheme => {
                self.state.theme = match self.state.theme {
                    ThemeMode::Dark => ThemeMode::Light,
                    ThemeMode::Light => ThemeMode::Dark,
                };
            },
            UserAction::ToggleSeconds => {
                self.state.show_seconds = !self.state.show_seconds;
            },
            UserAction::ToggleLayoutSelector => {
                self.state.layout_selector_open = !self.state.layout_selector_open;
            },
            _ => {},
        }
    }
}

/// A bar that actions change, and the number of its present state.
#[derive(Debug, Clone, PartialEq)]
pub struct BarRuntime {
    model: BarModel,
    revision: u64,
}

/// The next revision.
pub open spec fn next_revision(revision: u64) -> u64 {
    if revision < u64::MAX {
        (revision + 1) as u64
    } else {
        revision
    }
}

impl Default for BarRuntime {
    fn default() -> (r: BarRuntime)
        ensures
            r.state() == blank(),
            r.at() == 1,
    {
        BarRuntime { model: BarModel::default(), revision: 1 }
    }
}

impl BarRuntime {
    /// What the bar shows.
    pub closed spec fn state(self) -> SnapshotView {
        self.model@
    }

    /// The number of the state.
    pub closed spec fn at(self) -> u64 {
        self.revision
    }

    /// The state as it is, with nothing changed.
    pub fn current_frame(&self) -> (r: RuntimeFrame)
        ensures
            r.revision == self.at(),
            r.snapshot@ == self.state(),
            r.update.changes.value() == 0,
            r.update.platform_effects@ == Seq::<BarEffect>::empty(),
            r.update.issues@ == Seq::<String>::empty(),
    {
        RuntimeFrame {
            revision: self.revision,
            snapshot: self.model.snapshot(),
            update: RuntimeUpdate::default(),
        }
    }

    /// Performs an action. A change of the bar makes a new revision; what the
    /// host has to do is handed out.
    pub fn dispatch(&mut self, action: UserAction) -> (r: RuntimeUpdate)
        ensures
            final(self).state() == applied(old(self).state(), action),
            final(self).at() == if changed_by(action) != 0 {
                next_revision(old(self).at())
            } else {
                old(self).at()
            },
            r.changes.value() == changed_by(action),
            r.platform_effects@ == effects_of(action),
            r.issues@ == Seq::<String>::empty(),
    {
        self.model.apply(action);
        let mut changes = DirtyBits::default();
        let mut platform_effects: Vec<BarEffect> = Vec::new();
        assert(0u16 | (32u16 & 1023u16) == 32u16 && 0u16 | (16u16 & 1023u16) == 16u16 && 0u16 | (
        4u16 & 1023u16) == 4u16) by (bit_vector);
        match action {
            UserAction::ToggleTheme => {
                changes.set(DirtyBits::THEME_CHANGED);
            },
            UserAction::ToggleSeconds => {
                changes.set(DirtyBits::TIME_CHANGED);
            },
            UserAction::ToggleLayoutSelector => {
                changes.set(DirtyBits::LAYOUT_CHANGED);
            },
            UserAction::Screenshot => {
                platform_effects.push(BarEffect::Screenshot);
            },
            UserAction::OpenAudioControl => {
                platform_effects.push(BarEffect::OpenAudioControl);
            },
            _ => {
                platform_effects.push(BarEffect::Forward(action));
            },
        }
        if !changes.is_empty() && self.revision < u64::MAX {
            self.revision = self.revision + 1;
        }
        RuntimeUpdate { changes, platform_effects, issues: Vec::new() }
    }

    /// Performs an action, and returns the state that it led to.
    pub fn dispatch_frame(&mut self, action: UserAction) -> (r: RuntimeFrame)
        ensures
            final(self).state() == applied(old(self).state(), action),
            final(self).at() == if changed_by(action) != 0 {
                next_revision(old(self).at())
            } else {
                old(self).at()
            },
            r.revision == final(self).at(),
            r.snapshot@ == final(self).state(),
            r.update.changes.value() == changed_by(action),
            r.update.platform_effects@ == effects_of(action),
            r.update.issues@ == Seq::<String>::empty(),
    {
        let update = self.dispatch(action);
        RuntimeFrame { revision: self.revision, snapshot: self.model.snapshot(), update }
    }

    /// Takes over what the window manager and the devices said, as a new
    /// revision.
    pub fn replace_state(&mut self, state: BarSnapshot)
        ensures
            final(self).state() == state@,
            final(self).at() == next_revision(old(self).at()),
    {
        self.model.replace(state);
        if self.revision < u64::MAX {
            self.revision = self.revision + 1;
        }
    }
}

/// When the runtime is looked at again, in milliseconds.
#[derive(Debug, Clone, Copy, PartialEq, Eq, Structural)]
pub struct RuntimeSchedule {
    pub interval_ms: u64,
    pub due_ms: Option<u64>,
}

impl Default for RuntimeSchedule {
    fn default() -> (r: RuntimeSchedule)
        ensures
            r == (RuntimeSchedule { interval_ms: 1000, due_ms: None }),
    {
        RuntimeSchedule { interval_ms: 1000, due_ms: None }
    }
}

/// `interval` after `now`, no later than the clock can tell.
pub open spec fn later(now: u64, interval: u64) -> u64 {
    if now + interval <= u64::MAX {
        (now + interval) as u64
    } else {
        u64::MAX
    }
}

impl RuntimeSchedule {
    /// Looks at the runtime; the next look is due an interval later.
    pub fn service_frame_at(&mut self, runtime: &BarRuntime, now_ms: u64) -> (r: RuntimeFrame)
        ensures
            *final(self) == (RuntimeSchedule {
                due_ms: Some(later(now_ms, old(self).interval_ms)),
                ..*old(self)
            }),
            r.revision == runtime.at(),
            r.snapshot@ == runtime.state(),
            r.update.changes.value() == 0,
            r.update.platform_effects@ == Seq::<BarEffect>::empty(),
            r.update.issues@ == Seq::<String>::empty(),
    {
        let due: u64 = if now_ms <= u64::MAX - self.interval_ms {
            now_ms + self.interval_ms
        } else {
            u64::MAX
        };
        self.due_ms = Some(due);
        runtime.current_frame()
    }

    /// When the next look is due: now, where there was none yet.
    pub fn next_service_deadline(&self, now_ms: u64) -> (r: u64)
        ensures
            r == (match self.due_ms {
                Some(due) => due,
                None => now_ms,
            }),
    {
        match self.due_ms {
            Some(due) => due,
            None => now_ms,
        }
    }
}

} // verus!
