//! Maximize decisions: which axes a request means, whether it is admitted, and
//! what becomes of the window's rectangle.
//!
//! Rectangles follow the client geometry convention: outer corner, inner size,
//! the border drawn outside the content.
use crate::geometry::{Rect, larger, saturated};
use crate::layout::{divide, narrow, quotient};
use vstd::prelude::*;

verus! {

/// The axes along which a window fills its work area.
#[derive(Debug, Clone, Copy, PartialEq, Eq, Structural)]
pub struct MaximizeAxes {
    pub vert: bool,
    pub horz: bool,
}

/// What a request does to the state it names.
#[derive(Debug, Clone, Copy, PartialEq, Eq, Structural)]
pub enum NetWmAction {
    Add,
    Remove,
    Toggle,
}

/// The window states of the desktop protocol.
#[derive(Debug, Clone, Copy, PartialEq, Eq, Structural)]
pub enum NetWmState {
    Modal,
    Sticky,
    MaximizedVert,
    MaximizedHorz,
    Shaded,
    SkipTaskbar,
    SkipPager,
    Hidden,
    Fullscreen,
    Above,
    Below,
    DemandsAttention,
    Focused,
}

impl Default for MaximizeAxes {
    fn default() -> (r: MaximizeAxes)
        ensures
            !r.vert && !r.horz,
    {
        MaximizeAxes { vert: false, horz: false }
    }
}

/// No axis.
pub open spec fn no_axes() -> MaximizeAxes {
    MaximizeAxes { vert: false, horz: false }
}

/// Both axes.
pub open spec fn both_axes() -> MaximizeAxes {
    MaximizeAxes { vert: true, horz: true }
}

impl MaximizeAxes {
    /// Whether an axis is set.
    pub open spec fn some_axis(self) -> bool {
        self.vert || self.horz
    }

    /// The axes of either.
    pub open spec fn joined(self, other: MaximizeAxes) -> MaximizeAxes {
        MaximizeAxes { vert: self.vert || other.vert, horz: self.horz || other.horz }
    }

    /// These axes without those of `other`.
    pub open spec fn less(self, other: MaximizeAxes) -> MaximizeAxes {
        MaximizeAxes { vert: self.vert && !other.vert, horz: self.horz && !other.horz }
    }

    /// Whether an axis is set here that `current` lacks.
    pub open spec fn exceeds(self, current: MaximizeAxes) -> bool {
        (self.vert && !current.vert) || (self.horz && !current.horz)
    }

    /// The axes given one by one.
    pub fn new(vert: bool, horz: bool) -> (r: MaximizeAxes)
        ensures
            r == (MaximizeAxes { vert, horz }),
    {
        MaximizeAxes { vert, horz }
    }

    /// Whether an axis is set.
    pub fn any(&self) -> (r: bool)
        ensures
            r == self.some_axis(),
    {
        self.vert || self.horz
    }

    /// Whether both axes are set.
    pub fn both(&self) -> (r: bool)
        ensures
            r == (*self == both_axes()),
    {
        self.vert && self.horz
    }

    /// The axes of either.
    pub fn union(self, other: MaximizeAxes) -> (r: MaximizeAxes)
        ensures
            r == self.joined(other),
    {
        MaximizeAxes { vert: self.vert || other.vert, horz: self.horz || other.horz }
    }

    /// These axes without those of `other`.
    pub fn without(self, other: MaximizeAxes) -> (r: MaximizeAxes)
        ensures
            r == self.less(other),
    {
        MaximizeAxes { vert: self.vert && !other.vert, horz: self.horz && !other.horz }
    }

    /// Whether an axis is set here that `current` lacks.
    pub fn gains_over(self, current: MaximizeAxes) -> (r: bool)
        ensures
            r == self.exceeds(current),
    {
        (self.vert && !current.vert) || (self.horz && !current.horz)
    }

    /// The axis that a window state names.
    pub fn from_net_wm_state(state: NetWmState) -> (r: Option<MaximizeAxes>)
        ensures
            r == (match state {
                NetWmState::MaximizedVert => Some(MaximizeAxes { vert: true, horz: false }),
                NetWmState::MaximizedHorz => Some(MaximizeAxes { vert: false, horz: true }),
                _ => None,
            }),
    {
        match state {
            NetWmState::MaximizedVert => Some(MaximizeAxes { vert: true, horz: false }),
            NetWmState::MaximizedHorz => Some(MaximizeAxes { vert: false, horz: true }),
            _ => None,
        }
    }

    /// These axes with the one that a window state names set or cleared.
    pub fn with_net_wm_state(self, state: NetWmState, on: bool) -> (r: MaximizeAxes)
        ensures
            r == (match state {
                NetWmState::MaximizedVert => MaximizeAxes { vert: on, ..self },
                NetWmState::MaximizedHorz => MaximizeAxes { horz: on, ..self },
                _ => self,
            }),
    {
        match state {
            NetWmState::MaximizedVert => MaximizeAxes { vert: on, horz: self.horz },
            NetWmState::MaximizedHorz => MaximizeAxes { vert: self.vert, horz: on },
            _ => self,
        }
    }
}

/// Who asked for a maximize change; decides whether a window may leave the
/// layout that manages it.
#[derive(Debug, Clone, Copy, PartialEq, Eq, Structural)]
pub enum MaximizeOrigin {
    /// A client or a taskbar, through a protocol.
    Client,
    /// A command or key of the user.
    User,
    /// State that was already set when the window was first managed.
    Adopt,
}

/// Outcome of [`admit_maximize`].
#[derive(Debug, Clone, Copy, PartialEq, Eq, Structural)]
pub enum MaximizeAdmission {
    /// Change the state in place.
    Apply,
    /// Pull a window out of the layout that manages it.
    Promote,
    /// Refuse, and republish the state as it is.
    Reject,
}

/// What admission depends on.
#[derive(Debug, Clone, Copy, PartialEq, Eq, Structural)]
pub struct MaximizeFacts {
    /// Whether the window floats once transient modes end.
    pub resting_floating: bool,
    /// Whether the monitor shows the floating layout.
    pub float_layout: bool,
    /// Whether the window is fullscreen or picture-in-picture.
    pub suspended: bool,
    pub is_fixed: bool,
    pub is_dock: bool,
    pub has_work_area: bool,
}

impl Default for MaximizeFacts {
    fn default() -> (r: MaximizeFacts)
        ensures
            r == (MaximizeFacts {
                resting_floating: false,
                float_layout: false,
                suspended: false,
                is_fixed: false,
                is_dock: false,
                has_work_area: false,
            }),
    {
        MaximizeFacts {
            resting_floating: false,
            float_layout: false,
            suspended: false,
            is_fixed: false,
            is_dock: false,
            has_work_area: false,
        }
    }
}

/// Where the rectangle is kept that a window takes once transient modes end.
#[derive(Debug, Clone, Copy, PartialEq, Eq, Structural)]
pub enum RestingSlot {
    /// The live rectangle.
    Live,
    /// The rectangle to restore after the window was hidden.
    HiddenRestore,
    /// The rectangle to return to from fullscreen.
    FullscreenReturn,
    /// The rectangle to return to from picture-in-picture.
    PipReturn,
}

/// Everything that [`plan_maximize`] needs, read from one window.
#[derive(Debug, Clone, Copy, PartialEq, Eq, Structural)]
pub struct MaximizeInput {
    pub current: MaximizeAxes,
    pub restore: Option<Rect>,
    /// The rectangle to restore to when entering from no axis.
    pub restore_hint: Option<Rect>,
    /// Content rectangle of the resting slot.
    pub resting: Rect,
    pub area: Rect,
    pub border_w: i32,
}

/// The state and resting geometry that one maximize transition commits.
#[derive(Debug, Clone, Copy, PartialEq, Eq, Structural)]
pub struct MaximizePlan {
    pub axes: MaximizeAxes,
    pub restore_rect: Option<Rect>,
    pub resting_rect: Rect,
}

/// Maximize state captured when a drag begins; reinstated when it is cancelled.
#[derive(Debug, Clone, Copy, PartialEq, Eq, Structural)]
pub struct MaximizeSnapshot {
    pub axes: MaximizeAxes,
    pub restore_rect: Option<Rect>,
    pub restore_tiled: bool,
    /// The floating rectangle when the drag began.
    pub floating_rect: Rect,
}

/// The axes that a request asks for. A request that names both axes and
/// toggles means: fill the area, unless the window fills it already.
pub open spec fn resolved(
    current: MaximizeAxes,
    action: NetWmAction,
    named: MaximizeAxes,
) -> MaximizeAxes {
    if !named.some_axis() {
        current
    } else {
        match action {
            NetWmAction::Add => current.joined(named),
            NetWmAction::Remove => current.less(named),
            NetWmAction::Toggle => if named == both_axes() {
                if current == both_axes() {
                    no_axes()
                } else {
                    both_axes()
                }
            } else {
                MaximizeAxes {
                    vert: current.vert != named.vert,
                    horz: current.horz != named.horz,
                }
            },
        }
    }
}

/// The axes that a request asks for.
pub fn requested_axes(current: MaximizeAxes, action: NetWmAction, named: MaximizeAxes) -> (r:
    MaximizeAxes)
    ensures
        r == resolved(current, action, named),
{
    if !named.any() {
        return current;
    }
    match action {
        NetWmAction::Add => current.union(named),
        NetWmAction::Remove => current.without(named),
        NetWmAction::Toggle => if named.both() {
            if current.both() {
                MaximizeAxes { vert: false, horz: false }
            } else {
                MaximizeAxes { vert: true, horz: true }
            }
        } else {
            MaximizeAxes { vert: current.vert != named.vert, horz: current.horz != named.horz }
        },
    }
}

/// Adding axes twice is adding them once, and so is removing them; removing
/// what was just added leaves what was there and not named.
pub proof fn requests_settle(current: MaximizeAxes, named: MaximizeAxes)
    ensures
        ({
            let added = resolved(current, NetWmAction::Add, named);
            let removed = resolved(current, NetWmAction::Remove, named);
            &&& resolved(added, NetWmAction::Add, named) == added
            &&& resolved(removed, NetWmAction::Remove, named) == removed
            &&& resolved(added, NetWmAction::Remove, named) == removed
        }),
{
}

/// Toggling twice changes nothing: always for one axis, and for both axes
/// unless just one of them was set.
pub proof fn toggling_twice_is_nothing(current: MaximizeAxes, named: MaximizeAxes)
    requires
        named != both_axes() || current == both_axes() || current == no_axes(),
    ensures
        resolved(
            resolved(current, NetWmAction::Toggle, named),
            NetWmAction::Toggle,
            named,
        ) == current,
{
}

/// Whether a change of axes goes through: losing axes always does; gaining
/// needs a work area and a resizable window. A window that a layout manages is
/// promoted only for the user or under the floating layout, and never while
/// it is suspended.
pub open spec fn admitted(
    current: MaximizeAxes,
    next: MaximizeAxes,
    facts: MaximizeFacts,
    origin: MaximizeOrigin,
) -> MaximizeAdmission {
    if !next.exceeds(current) {
        MaximizeAdmission::Apply
    } else if !facts.has_work_area || facts.is_dock || facts.is_fixed {
        MaximizeAdmission::Reject
    } else if facts.resting_floating {
        MaximizeAdmission::Apply
    } else if !facts.suspended && (facts.float_layout || origin == MaximizeOrigin::User) {
        MaximizeAdmission::Promote
    } else {
        MaximizeAdmission::Reject
    }
}

/// Whether a change of axes goes through.
pub fn admit_maximize(
    current: MaximizeAxes,
    next: MaximizeAxes,
    facts: MaximizeFacts,
    origin: MaximizeOrigin,
) -> (r: MaximizeAdmission)
    ensures
        r == admitted(current, next, facts, origin),
{
    if !next.gains_over(current) {
        return MaximizeAdmission::Apply;
    }
    if !facts.has_work_area || facts.is_dock || facts.is_fixed {
        return MaximizeAdmission::Reject;
    }
    if facts.resting_floating {
        return MaximizeAdmission::Apply;
    }
    if facts.suspended {
        return MaximizeAdmission::Reject;
    }
    if facts.float_layout || origin == MaximizeOrigin::User {
        MaximizeAdmission::Promote
    } else {
        MaximizeAdmission::Reject
    }
}

/// A client, a taskbar or adopted state never takes a window out of a tiling
/// layout, and giving up axes is never refused.
pub proof fn layouts_keep_their_windows(
    current: MaximizeAxes,
    next: MaximizeAxes,
    facts: MaximizeFacts,
    origin: MaximizeOrigin,
)
    ensures
        !facts.float_layout && origin != MaximizeOrigin::User ==> admitted(
            current,
            next,
            facts,
            origin,
        ) != MaximizeAdmission::Promote,
        !facts.resting_floating && !facts.float_layout && origin != MaximizeOrigin::User
            && next.exceeds(current) ==> admitted(current, next, facts, origin)
            == MaximizeAdmission::Reject,
        !next.exceeds(current) ==> admitted(current, next, facts, origin)
            == MaximizeAdmission::Apply,
        admitted(current, current.less(next), facts, origin) == MaximizeAdmission::Apply,
{
}

/// The slot that holds the resting rectangle.
pub fn resting_slot(is_fullscreen: bool, is_pip: bool, parked: bool) -> (r: RestingSlot)
    ensures
        r == (if is_fullscreen {
            RestingSlot::FullscreenReturn
        } else if is_pip {
            RestingSlot::PipReturn
        } else if parked {
            RestingSlot::HiddenRestore
        } else {
            RestingSlot::Live
        }),
{
    if is_fullscreen {
        RestingSlot::FullscreenReturn
    } else if is_pip {
        RestingSlot::PipReturn
    } else if parked {
        RestingSlot::HiddenRestore
    } else {
        RestingSlot::Live
    }
}

/// Both borders together.
pub open spec fn borders(border_w: int) -> int {
    saturated(2 * border_w)
}

/// What borders on both sides leave of an extent: at least one pixel.
pub open spec fn inner(extent: int, border_w: int) -> int {
    larger(saturated(extent - borders(border_w)), 1)
}

/// The rectangle of a window that fills `area` along `axes` and is as in
/// `restore` along the others.
pub open spec fn target(restore: Rect, area: Rect, axes: MaximizeAxes, border_w: int) -> Rect {
    Rect {
        x: if axes.horz {
            area.x
        } else {
            restore.x
        },
        w: if axes.horz {
            inner(area.w as int, border_w) as i32
        } else {
            restore.w
        },
        y: if axes.vert {
            area.y
        } else {
            restore.y
        },
        h: if axes.vert {
            inner(area.h as int, border_w) as i32
        } else {
            restore.h
        },
    }
}

fn double(border_w: i32) -> (r: i32)
    ensures
        r == borders(border_w as int),
{
    narrow(2 * (border_w as i64))
}

fn inner_extent(extent: i32, border_w: i32) -> (r: i32)
    ensures
        r == inner(extent as int, border_w as int),
        r >= 1,
{
    let left: i32 = narrow(extent as i64 - double(border_w) as i64);
    if left >= 1 { left } else { 1 }
}

/// The rectangle of a window that fills `area` along `axes`.
pub fn maximize_target(restore: Rect, area: Rect, axes: MaximizeAxes, border_w: i32) -> (r: Rect)
    ensures
        r == target(restore, area, axes, border_w as int),
{
    Rect {
        x: if axes.horz { area.x } else { restore.x },
        w: if axes.horz { inner_extent(area.w, border_w) } else { restore.w },
        y: if axes.vert { area.y } else { restore.y },
        h: if axes.vert { inner_extent(area.h, border_w) } else { restore.h },
    }
}

/// `restore` along the maximized axes, `live` along the others.
pub open spec fn mirrored(restore: Rect, live: Rect, axes: MaximizeAxes) -> Rect {
    Rect {
        x: if axes.horz {
            restore.x
        } else {
            live.x
        },
        w: if axes.horz {
            restore.w
        } else {
            live.w
        },
        y: if axes.vert {
            restore.y
        } else {
            live.y
        },
        h: if axes.vert {
            restore.h
        } else {
            live.h
        },
    }
}

/// `restore` with what is not maximized taken from `live`.
pub fn mirror_free_axes(restore: Rect, live: Rect, axes: MaximizeAxes) -> (r: Rect)
    ensures
        r == mirrored(restore, live, axes),
{
    Rect {
        x: if axes.horz { restore.x } else { live.x },
        w: if axes.horz { restore.w } else { live.w },
        y: if axes.vert { restore.y } else { live.y },
        h: if axes.vert { restore.h } else { live.h },
    }
}

/// Whether a window fills nine tenths of its area both ways.
pub open spec fn nearly_full(resting: Rect, area: Rect, border_w: int) -> bool {
    let b = borders(border_w);
    &&& saturated(resting.w + b) * 10 >= area.w * 9
    &&& saturated(resting.h + b) * 10 >= area.h * 9
}

/// Two thirds of an extent, without room for the borders.
pub open spec fn reduced(extent: int, border_w: int) -> int {
    larger(saturated(quotient(2 * extent, 3) - borders(border_w)), 1)
}

/// Where a content of this length is centred in an extent.
pub open spec fn centred(start: int, extent: int, length: int, border_w: int) -> int {
    saturated(
        start + quotient(saturated(extent - saturated(length + borders(border_w))), 2),
    )
}

/// The rectangle to restore to: the resting one, unless that fills the area;
/// then a centred one of two thirds.
pub open spec fn first_restore(resting: Rect, area: Rect, border_w: int) -> Rect {
    if !nearly_full(resting, area, border_w) {
        resting
    } else {
        let w = reduced(area.w as int, border_w);
        let h = reduced(area.h as int, border_w);
        Rect {
            x: centred(area.x as int, area.w as int, w, border_w) as i32,
            y: centred(area.y as int, area.h as int, h, border_w) as i32,
            w: w as i32,
            h: h as i32,
        }
    }
}

fn covers_nine_tenths(outer: i32, available: i32) -> (r: bool)
    ensures
        r == (outer * 10 >= available * 9),
{
    (outer as i64) * 10 >= (available as i64) * 9
}

fn reduce(extent: i32, border_w: i32) -> (r: i32)
    ensures
        r == reduced(extent as int, border_w as int),
        r >= 1,
{
    let part: i64 = divide(2 * (extent as i64), 3);
    let left: i32 = narrow(part - double(border_w) as i64);
    if left >= 1 { left } else { 1 }
}

fn centre(start: i32, extent: i32, length: i32, border_w: i32) -> (r: i32)
    ensures
        r == centred(start as int, extent as int, length as int, border_w as int),
{
    let outer: i32 = narrow(length as i64 + double(border_w) as i64);
    let free: i32 = narrow(extent as i64 - outer as i64);
    narrow(start as i64 + divide(free as i64, 2))
}

/// The rectangle to restore to from a first maximize.
pub fn initial_restore_rect(resting: Rect, area: Rect, border_w: i32) -> (r: Rect)
    ensures
        r == first_restore(resting, area, border_w as int),
{
    let b: i64 = double(border_w) as i64;
    let near_full = covers_nine_tenths(narrow(resting.w as i64 + b), area.w)
        && covers_nine_tenths(narrow(resting.h as i64 + b), area.h);
    if !near_full {
        return resting;
    }
    let w: i32 = reduce(area.w, border_w);
    let h: i32 = reduce(area.h, border_w);
    Rect {
        x: centre(area.x, area.w, w, border_w),
        y: centre(area.y, area.h, h, border_w),
        w,
        h,
    }
}

/// The rectangle that a window has without any maximize axis.
pub open spec fn unmaximized(input: MaximizeInput) -> Rect {
    let fallback = first_restore(input.resting, input.area, input.border_w as int);
    if input.current.some_axis() {
        match input.restore {
            Some(restore) => mirrored(restore, input.resting, input.current),
            None => fallback,
        }
    } else {
        match input.restore_hint {
            Some(hint) => hint,
            None => fallback,
        }
    }
}

/// What a change to the axes `next` commits.
pub open spec fn planned(input: MaximizeInput, next: MaximizeAxes) -> MaximizePlan {
    if next == input.current {
        MaximizePlan {
            axes: input.current,
            restore_rect: input.restore,
            resting_rect: input.resting,
        }
    } else if next.some_axis() {
        MaximizePlan {
            axes: next,
            restore_rect: Some(unmaximized(input)),
            resting_rect: target(unmaximized(input), input.area, next, input.border_w as int),
        }
    } else {
        MaximizePlan { axes: no_axes(), restore_rect: None, resting_rect: unmaximized(input) }
    }
}

/// What a change to the axes `next` commits.
pub fn plan_maximize(input: MaximizeInput, next: MaximizeAxes) -> (r: MaximizePlan)
    ensures
        r == planned(input, next),
{
    if next == input.current {
        return MaximizePlan {
            axes: input.current,
            restore_rect: input.restore,
            resting_rect: input.resting,
        };
    }
    let base = if input.current.any() {
        match input.restore {
            Some(restore) => mirror_free_axes(restore, input.resting, input.current),
            None => initial_restore_rect(input.resting, input.area, input.border_w),
        }
    } else {
        match input.restore_hint {
            Some(hint) => hint,
            None => initial_restore_rect(input.resting, input.area, input.border_w),
        }
    };
    if next.any() {
        MaximizePlan {
            axes: next,
            restore_rect: Some(base),
            resting_rect: maximize_target(base, input.area, next, input.border_w),
        }
    } else {
        MaximizePlan {
            axes: MaximizeAxes { vert: false, horz: false },
            restore_rect: None,
            resting_rect: base,
        }
    }
}

/// A restore rectangle is recorded exactly while an axis is set.
pub proof fn restore_is_kept_while_maximized(input: MaximizeInput, next: MaximizeAxes)
    requires
        input.restore is Some <==> input.current.some_axis(),
    ensures
        planned(input, next).restore_rect is Some <==> planned(input, next).axes.some_axis(),
        planned(input, next).axes == next,
{
}

/// What a window is read as once `plan` is committed.
pub open spec fn after(input: MaximizeInput, plan: MaximizePlan) -> MaximizeInput {
    MaximizeInput {
        current: plan.axes,
        restore: plan.restore_rect,
        resting: plan.resting_rect,
        ..input
    }
}

/// A window that was maximized, through whatever axes, and then released has
/// the rectangle back that it had before: its own, unless a hint was given or
/// it filled the area already.
pub proof fn maximize_and_release_restores(
    input: MaximizeInput,
    first: MaximizeAxes,
    second: MaximizeAxes,
)
    requires
        !input.current.some_axis(),
        first.some_axis(),
        second.some_axis(),
    ensures
        ({
            let one = after(input, planned(input, first));
            let two = after(one, planned(one, second));
            &&& planned(one, no_axes()).resting_rect == unmaximized(input)
            &&& planned(two, no_axes()).resting_rect == unmaximized(input)
            &&& input.restore_hint is None && !nearly_full(
                input.resting,
                input.area,
                input.border_w as int,
            ) ==> planned(two, no_axes()).resting_rect == input.resting
        }),
{
}

pub const CONFIGURE_X: u16 = 1;

pub const CONFIGURE_Y: u16 = 2;

pub const CONFIGURE_WIDTH: u16 = 4;

pub const CONFIGURE_HEIGHT: u16 = 8;

pub const CONFIGURE_BORDER_WIDTH: u16 = 16;

pub const CONFIGURE_SIBLING: u16 = 32;

pub const CONFIGURE_STACK_MODE: u16 = 64;

/// The bits of a configure request that the maximized axes own.
pub open spec fn owned_bits(axes: MaximizeAxes) -> u16 {
    (if axes.horz {
        5u16
    } else {
        0u16
    }) | (if axes.vert {
        10u16
    } else {
        0u16
    })
}

/// A configure request without what the maximized axes own: position and width
/// along the horizontal one, position and height along the vertical one.
pub fn strip_maximized_configure_bits(mask_bits: u16, axes: MaximizeAxes) -> (r: u16)
    ensures
        r == mask_bits & !owned_bits(axes),
{
    let horz: u16 = if axes.horz { CONFIGURE_X | CONFIGURE_WIDTH } else { 0 };
    let vert: u16 = if axes.vert { CONFIGURE_Y | CONFIGURE_HEIGHT } else { 0 };
    assert(1u16 | 4u16 == 5u16) by (bit_vector);
    assert(2u16 | 8u16 == 10u16) by (bit_vector);
    mask_bits & !(horz | vert)
}

/// Whether a configure request asks for a position or a size.
pub fn has_configure_geometry_bits(mask_bits: u16) -> (r: bool)
    ensures
        r == (mask_bits & 15 != 0),
{
    mask_bits & 15 != 0
}

/// A stripped request asks for nothing along the maximized axes, keeps every
/// other bit, and for a window maximized both ways asks for no geometry.
pub proof fn stripping_is_exact(mask_bits: u16, axes: MaximizeAxes)
    ensures
        mask_bits & !owned_bits(axes) & owned_bits(axes) == 0,
        (mask_bits & !owned_bits(axes)) | (mask_bits & owned_bits(axes)) == mask_bits,
        axes == both_axes() ==> mask_bits & !owned_bits(axes) & 15 == 0,
        axes == no_axes() ==> mask_bits & !owned_bits(axes) == mask_bits,
{
    let owned = owned_bits(axes);
    assert(mask_bits & !owned & owned == 0 && (mask_bits & !owned) | (mask_bits & owned)
        == mask_bits) by (bit_vector);
    assert(5u16 | 10u16 == 15u16 && 0u16 | 0u16 == 0u16) by (bit_vector);
    assert(mask_bits & !15u16 & 15 == 0 && mask_bits & !0u16 == mask_bits) by (bit_vector);
}

/// A request changes the axes that it names and no other: it sets, clears or
/// flips them. Only both axes at once are flipped together.
pub proof fn requests_change_what_they_name(current: MaximizeAxes, named: MaximizeAxes)
    ensures
        ({
            let added = resolved(current, NetWmAction::Add, named);
            let removed = resolved(current, NetWmAction::Remove, named);
            let flipped = resolved(current, NetWmAction::Toggle, named);
            &&& named.vert ==> added.vert && !removed.vert
            &&& named.horz ==> added.horz && !removed.horz
            &&& !named.vert ==> added.vert == current.vert && removed.vert == current.vert
                && flipped.vert == current.vert
            &&& !named.horz ==> added.horz == current.horz && removed.horz == current.horz
                && flipped.horz == current.horz
            &&& named.vert && !named.horz ==> flipped.vert != current.vert
            &&& named.horz && !named.vert ==> flipped.horz != current.horz
            &&& named.vert && named.horz ==> flipped.vert == flipped.horz && flipped != current
            &&& named.vert && named.horz && flipped.vert == false ==> current.vert && current.horz
        }),
{
}

/// A window gains an axis only on a monitor with room for it, never as a dock
/// or with a fixed size; a floating one does so in place, and one of a layout by
/// leaving it.
pub proof fn only_resizable_windows_gain(
    current: MaximizeAxes,
    next: MaximizeAxes,
    facts: MaximizeFacts,
    origin: MaximizeOrigin,
)
    requires
        (next.vert && !current.vert) || (next.horz && !current.horz),
    ensures
        ({
            let r = admitted(current, next, facts, origin);
            &&& facts.is_dock || facts.is_fixed || !facts.has_work_area ==> r
                == MaximizeAdmission::Reject
            &&& r == MaximizeAdmission::Apply ==> facts.resting_floating
            &&& r == MaximizeAdmission::Promote ==> !facts.resting_floating && !facts.suspended
            &&& !facts.is_dock && !facts.is_fixed && facts.has_work_area ==> {
                &&& facts.resting_floating ==> r == MaximizeAdmission::Apply
                &&& !facts.resting_floating && !facts.suspended && origin == MaximizeOrigin::User
                    ==> r == MaximizeAdmission::Promote
                &&& !facts.resting_floating && !facts.suspended && facts.float_layout ==> r
                    == MaximizeAdmission::Promote
                &&& !facts.resting_floating && facts.suspended ==> r == MaximizeAdmission::Reject
            }
        }),
{
}

/// A maximized window fills its area along the axes that are set, with its
/// borders inside, and is as it was along the others.
pub proof fn maximized_windows_fill_the_area(input: MaximizeInput, next: MaximizeAxes)
    requires
        next.some_axis(),
        next != input.current,
        0 <= input.border_w,
        2 * input.border_w < input.area.w,
        2 * input.border_w < input.area.h,
    ensures
        ({
            let plan = planned(input, next);
            let r = plan.resting_rect;
            &&& plan.restore_rect is Some
            &&& next.horz ==> r.x == input.area.x && r.w + 2 * input.border_w == input.area.w
            &&& next.vert ==> r.y == input.area.y && r.h + 2 * input.border_w == input.area.h
            &&& !next.horz ==> r.x == plan.restore_rect->0.x && r.w == plan.restore_rect->0.w
            &&& !next.vert ==> r.y == plan.restore_rect->0.y && r.h == plan.restore_rect->0.h
        }),
{
}

/// A window that was moved or resized along a free axis keeps that when it is
/// released; along the others it is as before it was maximized.
pub proof fn free_moves_are_kept(input: MaximizeInput)
    requires
        input.current.some_axis(),
        input.restore is Some,
    ensures
        ({
            let r = planned(input, no_axes()).resting_rect;
            let before = input.restore->0;
            &&& input.current.horz ==> r.x == before.x && r.w == before.w
            &&& !input.current.horz ==> r.x == input.resting.x && r.w == input.resting.w
            &&& input.current.vert ==> r.y == before.y && r.h == before.h
            &&& !input.current.vert ==> r.y == input.resting.y && r.h == input.resting.h
        }),
{
}

/// A window that fills nine tenths of its area both ways is released to two
/// thirds of it, in the middle; any other one to where it was.
pub proof fn full_windows_are_released_smaller(resting: Rect, area: Rect, border_w: i32)
    requires
        0 <= border_w,
        0 <= resting.w,
        0 <= resting.h,
        resting.w + 2 * border_w <= i32::MAX,
        resting.h + 2 * border_w <= i32::MAX,
        3 * border_w < area.w,
        3 * border_w < area.h,
        2 <= area.w,
        2 <= area.h,
        area.x + area.w <= i32::MAX,
        area.y + area.h <= i32::MAX,
    ensures
        ({
            let r = first_restore(resting, area, border_w as int);
            let (w, h) = (r.w + 2 * border_w, r.h + 2 * border_w);
            let full = 10 * (resting.w + 2 * border_w) >= 9 * area.w && 10 * (resting.h + 2
                * border_w) >= 9 * area.h;
            &&& !full ==> r == resting
            &&& full && 2 * area.w >= 6 * border_w + 3 ==> {
                &&& 3 * w <= 2 * area.w < 3 * w + 3
                &&& 0 <= (area.w - w) - 2 * (r.x - area.x) <= 1
            }
            &&& full && 2 * area.h >= 6 * border_w + 3 ==> {
                &&& 3 * h <= 2 * area.h < 3 * h + 3
                &&& 0 <= (area.h - h) - 2 * (r.y - area.y) <= 1
            }
        }),
{
}

/// A stripped request still asks for a position or an extent just where it did
/// and the axis is free; what else it asks for stays.
pub proof fn free_axes_can_be_configured(mask_bits: u16, axes: MaximizeAxes)
    ensures
        ({
            let r = mask_bits & !owned_bits(axes);
            &&& r & CONFIGURE_X != 0 <==> mask_bits & CONFIGURE_X != 0 && !axes.horz
            &&& r & CONFIGURE_WIDTH != 0 <==> mask_bits & CONFIGURE_WIDTH != 0 && !axes.horz
            &&& r & CONFIGURE_Y != 0 <==> mask_bits & CONFIGURE_Y != 0 && !axes.vert
            &&& r & CONFIGURE_HEIGHT != 0 <==> mask_bits & CONFIGURE_HEIGHT != 0 && !axes.vert
            &&& r & CONFIGURE_BORDER_WIDTH == mask_bits & CONFIGURE_BORDER_WIDTH
            &&& r & CONFIGURE_SIBLING == mask_bits & CONFIGURE_SIBLING
            &&& r & CONFIGURE_STACK_MODE == mask_bits & CONFIGURE_STACK_MODE
        }),
{
    let (horz, vert) = (axes.horz, axes.vert);
    let owned = owned_bits(axes);
    let r = mask_bits & !owned;
    assert({
        &&& r & 1 != 0 <==> mask_bits & 1 != 0 && !horz
        &&& r & 4 != 0 <==> mask_bits & 4 != 0 && !horz
        &&& r & 2 != 0 <==> mask_bits & 2 != 0 && !vert
        &&& r & 8 != 0 <==> mask_bits & 8 != 0 && !vert
        &&& r & 16 == mask_bits & 16
        &&& r & 32 == mask_bits & 32
        &&& r & 64 == mask_bits & 64
    }) by (bit_vector)
        requires
            r == mask_bits & !owned,
            owned == (if horz {
                5u16
            } else {
                0u16
            }) | (if vert {
                10u16
            } else {
                0u16
            }),
    ;
}

} // verus!
