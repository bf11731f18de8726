//! Window animations: which run, and when they end.
//!
//! Interpolated positions come from the caller, who computes them with real
//! numbers; instants and durations are nanoseconds of a monotonic clock.
use crate::geometry::Rect;
use crate::ieee::F32;
use crate::text::str_eq;
use std::collections::HashMap;
use vstd::prelude::*;

verus! {

/// A curve from start to end.
#[derive(Debug, Clone, Copy, PartialEq, Eq, Structural)]
pub enum Easing {
    Linear,
    EaseOut,
    EaseInOut,
    EaseIn,
    Bounce,
    Elastic,
}

impl Easing {
    /// The curve a name stands for; any other name is an ease-out.
    pub open spec fn named(s: Seq<char>) -> Easing {
        if s == "linear"@ {
            Easing::Linear
        } else if s == "ease-in-out"@ {
            Easing::EaseInOut
        } else if s == "ease-in"@ {
            Easing::EaseIn
        } else if s == "bounce"@ {
            Easing::Bounce
        } else if s == "elastic"@ {
            Easing::Elastic
        } else {
            Easing::EaseOut
        }
    }

    /// The curve a name stands for; any other name is an ease-out.
    pub fn from_str(s: &str) -> (r: Easing)
        ensures
            r == Easing::named(s@),
    {
        if str_eq(s, "linear") {
            Easing::Linear
        } else if str_eq(s, "ease-in-out") {
            Easing::EaseInOut
        } else if str_eq(s, "ease-in") {
            Easing::EaseIn
        } else if str_eq(s, "bounce") {
            Easing::Bounce
        } else if str_eq(s, "elastic") {
            Easing::Elastic
        } else {
            Easing::EaseOut
        }
    }
}

/// Preset speeds.
#[derive(Debug, Clone, Copy, PartialEq, Eq, Structural)]
pub enum AnimationSpeed {
    /// Very slow animations for accessibility or dramatic effect.
    Slow,
    /// Default speed.
    Normal,
    /// Snappy, responsive animations.
    Fast,
    /// No animation delay.
    Instant,
}

/// The step between neighbouring single-precision numbers at the integer `n`.
pub open spec fn single_step(n: nat) -> nat
    decreases n,
{
    if n < 0x100_0000 {
        1
    } else {
        2 * single_step(n / 2)
    }
}

/// The single-precision number nearest to `n`, ties going to the even one.
pub open spec fn nearest_single(n: nat) -> nat {
    let step = single_step(n);
    let q = n / step;
    let rest = n % step;
    if 2 * rest > step || (2 * rest == step && q % 2 == 1) {
        (q + 1) * step
    } else {
        q * step
    }
}

/// `n` brought into the range of `u64`.
pub open spec fn saturated_u64(n: nat) -> nat {
    if n > u64::MAX {
        u64::MAX as nat
    } else {
        n
    }
}

proof fn single_step_doubles(n: nat, step: nat)
    requires
        step >= 1,
        single_step(n) == step * single_step(n / step),
        n / step >= 0x100_0000,
    ensures
        single_step(n) == (2 * step) * single_step(n / (2 * step)),
{
    assert(n / step / 2 == n / (2 * step)) by (nonlinear_arith)
        requires
            step >= 1,
    ;
    assert(step * (2 * single_step(n / step / 2)) == (2 * step) * single_step(n / step / 2))
        by (nonlinear_arith);
}

impl AnimationSpeed {
    /// The speed a name stands for; any other name is the normal speed.
    pub open spec fn named(s: Seq<char>) -> AnimationSpeed {
        if s == "slow"@ {
            AnimationSpeed::Slow
        } else if s == "fast"@ {
            AnimationSpeed::Fast
        } else if s == "instant"@ {
            AnimationSpeed::Instant
        } else {
            AnimationSpeed::Normal
        }
    }

    /// The speed a name stands for; any other name is the normal speed.
    pub fn from_str(s: &str) -> (r: AnimationSpeed)
        ensures
            r == AnimationSpeed::named(s@),
    {
        if str_eq(s, "slow") {
            AnimationSpeed::Slow
        } else if str_eq(s, "fast") {
            AnimationSpeed::Fast
        } else if str_eq(s, "instant") {
            AnimationSpeed::Instant
        } else {
            AnimationSpeed::Normal
        }
    }

    /// What a duration is multiplied by: two, one, a half or nothing.
    pub fn duration_multiplier(self) -> (r: F32)
        ensures
            r == (match self {
                AnimationSpeed::Slow => F32 { bits: 0x4000_0000 },
                AnimationSpeed::Normal => F32 { bits: 0x3f80_0000 },
                AnimationSpeed::Fast => F32 { bits: 0x3f00_0000 },
                AnimationSpeed::Instant => F32 { bits: 0 },
            }),
    {
        match self {
            AnimationSpeed::Slow => F32 { bits: 0x4000_0000 },
            AnimationSpeed::Normal => F32 { bits: 0x3f80_0000 },
            AnimationSpeed::Fast => F32 { bits: 0x3f00_0000 },
            AnimationSpeed::Instant => F32 { bits: 0 },
        }
    }

    /// What the step of a fade is multiplied by: a half, one, two or a hundred.
    pub fn fade_step_multiplier(self) -> (r: F32)
        ensures
            r == (match self {
                AnimationSpeed::Slow => F32 { bits: 0x3f00_0000 },
                AnimationSpeed::Normal => F32 { bits: 0x3f80_0000 },
                AnimationSpeed::Fast => F32 { bits: 0x4000_0000 },
                AnimationSpeed::Instant => F32 { bits: 0x42c8_0000 },
            }),
    {
        match self {
            AnimationSpeed::Slow => F32 { bits: 0x3f00_0000 },
            AnimationSpeed::Normal => F32 { bits: 0x3f80_0000 },
            AnimationSpeed::Fast => F32 { bits: 0x4000_0000 },
            AnimationSpeed::Instant => F32 { bits: 0x42c8_0000 },
        }
    }

    /// A duration at this speed: twice, once, half or none of it, counted in
    /// single precision and rounded half up.
    pub open spec fn scaled(self, base_ms: nat) -> nat {
        let base = nearest_single(base_ms);
        match self {
            AnimationSpeed::Slow => saturated_u64(2 * base),
            AnimationSpeed::Normal => saturated_u64(base),
            AnimationSpeed::Fast => (base + 1) / 2,
            AnimationSpeed::Instant => 0,
        }
    }

    /// Effective duration in milliseconds given a base duration.
    pub fn apply_duration(self, base_ms: u64) -> (r: u64)
        ensures
            r == self.scaled(base_ms as nat),
    {
        let mut step: u64 = 1;
        assert(base_ms as nat / 1 == base_ms) by (nonlinear_arith);
        assert(1 * single_step(base_ms as nat / 1) == single_step(base_ms as nat))
            by (nonlinear_arith)
            requires
                base_ms as nat / 1 == base_ms,
        ;
        while base_ms / step >= 0x100_0000
            invariant
                1 <= step <= 0x1_0000_0000_0000,
                single_step(base_ms as nat) == step * single_step(base_ms as nat / step as nat),
                step > 1 ==> base_ms as nat / (step as nat / 2) >= 0x100_0000,
            decreases base_ms as nat / step as nat,
        {
            proof {
                single_step_doubles(base_ms as nat, step as nat);
                assert(step as nat * 0x100_0000 <= base_ms) by (nonlinear_arith)
                    requires
                        step >= 1,
                        base_ms as nat / step as nat >= 0x100_0000,
                ;
                assert(step <= 0x100_0000_0000);
                assert(base_ms as nat / (2 * step as nat) < base_ms as nat / step as nat)
                    by (nonlinear_arith)
                    requires
                        step >= 1,
                        base_ms as nat / step as nat >= 0x100_0000,
                ;
            }
            step = step * 2;
        }
        let ghost n = base_ms as nat;
        assert(single_step(n) == step) by {
            assert(single_step(n / step as nat) == 1);
            assert(step * 1 == step) by (nonlinear_arith);
        }
        let q: u64 = base_ms / step;
        let rest: u64 = base_ms % step;
        let up = 2 * rest > step || (2 * rest == step && q % 2 == 1);
        let units: u64 = if up {
            q + 1
        } else {
            q
        };
        assert(units as nat * step as nat <= 0x100_0000 * 0x1_0000_0000_0000) by (nonlinear_arith)
            requires
                units <= 0x100_0000,
                step <= 0x1_0000_0000_0000,
        ;
        assert(units as nat * step as nat <= base_ms as nat + step as nat) by (nonlinear_arith)
            requires
                step >= 1,
                units as nat <= base_ms as nat / step as nat + 1,
        ;
        let base: u128 = units as u128 * step as u128;
        assert(base == nearest_single(n));
        match self {
            AnimationSpeed::Instant => 0,
            AnimationSpeed::Slow => if base * 2 > u64::MAX as u128 {
                u64::MAX
            } else {
                (base * 2) as u64
            },
            AnimationSpeed::Normal => if base > u64::MAX as u128 {
                u64::MAX
            } else {
                base as u64
            },
            AnimationSpeed::Fast => ((base + 1) / 2) as u64,
        }
    }
}

/// Up to sixteen million milliseconds nothing is lost to rounding: the scaled
/// duration is exactly twice, once or half the base.
pub proof fn short_durations_are_exact(base_ms: nat)
    requires
        base_ms < 0x100_0000,
    ensures
        AnimationSpeed::Slow.scaled(base_ms) == 2 * base_ms,
        AnimationSpeed::Normal.scaled(base_ms) == base_ms,
        AnimationSpeed::Fast.scaled(base_ms) == (base_ms + 1) / 2,
        AnimationSpeed::Instant.scaled(base_ms) == 0,
{
    assert(single_step(base_ms) == 1);
    let step = single_step(base_ms);
    assert(base_ms / step == base_ms && base_ms % step == 0 && base_ms * step == base_ms)
        by (nonlinear_arith)
        requires
            step == 1,
    ;
    assert(nearest_single(base_ms) == base_ms);
}

/// What an animation is for.
#[derive(Debug, Clone, Copy, PartialEq, Eq, Structural)]
pub enum AnimationKind {
    Layout,
    Float,
    Appear,
    Hide,
}

/// The animation of one window.
#[derive(Debug, Clone, Copy, PartialEq, Eq, Structural)]
pub struct ClientAnimation {
    pub from: Rect,
    pub to: Rect,
    pub started_at: u64,
    pub duration: u64,
    pub easing: Easing,
    pub kind: AnimationKind,
}

impl ClientAnimation {
    /// The time since the start; none before it.
    pub open spec fn elapsed_at(self, now: u64) -> int {
        if now > self.started_at {
            now - self.started_at
        } else {
            0
        }
    }

    /// The time since the start; none before it.
    pub fn elapsed(&self, now: u64) -> (r: u64)
        ensures
            r == self.elapsed_at(now),
    {
        if now > self.started_at {
            now - self.started_at
        } else {
            0
        }
    }

    /// The rectangle shown and whether the animation is done. While it runs,
    /// that is the interpolated rectangle; afterwards it is the goal.
    pub fn sample(&self, now: u64, interpolated: Rect) -> (r: (Rect, bool))
        ensures
            r == if self.elapsed_at(now) >= self.duration {
                (self.to, true)
            } else {
                (interpolated, false)
            },
    {
        if self.elapsed(now) >= self.duration {
            (self.to, true)
        } else {
            (interpolated, false)
        }
    }
}

/// The animations in progress, by window.
#[derive(Debug)]
pub struct AnimationManager {
    pub active: HashMap<u64, ClientAnimation>,
}

impl View for AnimationManager {
    type V = Map<u64, ClientAnimation>;

    open spec fn view(&self) -> Map<u64, ClientAnimation> {
        self.active@
    }
}

impl AnimationManager {
    /// No animation.
    pub fn new() -> (r: AnimationManager)
        ensures
            r@ == Map::<u64, ClientAnimation>::empty(),
    {
        AnimationManager { active: HashMap::new() }
    }

    /// Starts or retargets the animation of `key` from where the window is
    /// shown; a window already at its goal has none.
    pub fn start(
        &mut self,
        key: u64,
        current_visual: Rect,
        target: Rect,
        now: u64,
        duration: u64,
        easing: Easing,
        kind: AnimationKind,
    )
        ensures
            final(self)@ == if current_visual == target {
                old(self)@.remove(key)
            } else {
                old(self)@.insert(
                    key,
                    ClientAnimation {
                        from: current_visual,
                        to: target,
                        started_at: now,
                        duration,
                        easing,
                        kind,
                    },
                )
            },
    {
        if current_visual == target {
            self.active.remove(&key);
        } else {
            self.active.insert(
                key,
                ClientAnimation {
                    from: current_visual,
                    to: target,
                    started_at: now,
                    duration,
                    easing,
                    kind,
                },
            );
        }
    }

    /// Ends the animation of `key`.
    pub fn remove(&mut self, key: u64)
        ensures
            final(self)@ == old(self)@.remove(key),
    {
        self.active.remove(&key);
    }

    /// Ends the animation of `key` if the window is being hidden. Other
    /// animations go on, so that arranging windows again does not kill a
    /// transition in flight.
    pub fn remove_if_hide(&mut self, key: u64)
        ensures
            final(self)@ == if old(self)@.dom().contains(key) && old(self)@[key].kind
                == AnimationKind::Hide {
                old(self)@.remove(key)
            } else {
                old(self)@
            },
    {
        let hiding = match self.active.get(&key) {
            Some(animation) => animation.kind == AnimationKind::Hide,
            None => false,
        };
        if hiding {
            self.active.remove(&key);
        }
    }

    /// Whether an animation is in progress.
    pub fn has_active(&self) -> (r: bool)
        ensures
            r == (self@.dom().len() != 0),
    {
        self.active.len() != 0
    }

    /// The rectangle shown for `key`, or `None` when it is not animated;
    /// `interpolated` is where the window is while the animation runs.
    pub fn current_visual_rect(&self, key: u64, now: u64, interpolated: Rect) -> (r: Option<Rect>)
        ensures
            r == if self@.dom().contains(key) {
                if self@[key].elapsed_at(now) >= self@[key].duration {
                    Some(self@[key].to)
                } else {
                    Some(interpolated)
                }
            } else {
                None
            },
    {
        match self.active.get(&key) {
            Some(animation) => Some(animation.sample(now, interpolated).0),
            None => None,
        }
    }
}

/// An edge of a window that snaps.
#[derive(Debug, Clone, Copy, PartialEq, Eq, Structural)]
pub enum SnapEdge {
    Left,
    Right,
    Top,
    Bottom,
}

/// A window on its way to a target.
#[derive(Debug, Clone, Copy, PartialEq, Eq, Structural)]
pub struct SnapAttraction {
    pub edge: SnapEdge,
    pub target_pos: F32,
    /// How far from the target it is.
    pub current_offset: F32,
    pub velocity: F32,
}

/// How far the edges of a window are from one target.
#[derive(Debug, Clone, Copy, PartialEq, Eq, Structural)]
pub struct Reach {
    pub left: F32,
    pub right: F32,
}

/// The first target, from `i` on, that an edge is nearer to than `near`, and
/// the edge that snaps to it: the left one before the right.
pub open spec fn first_reach(reaches: Seq<Reach>, near: F32, i: int) -> Option<(int, SnapEdge)>
    decreases reaches.len() - i,
{
    if i < 0 || i >= reaches.len() {
        None
    } else if reaches[i].left.below(near) {
        Some((i, SnapEdge::Left))
    } else if reaches[i].right.below(near) {
        Some((i, SnapEdge::Right))
    } else {
        first_reach(reaches, near, i + 1)
    }
}

/// Whether a distance or a speed is so small that a spring has come to rest:
/// below a half.
pub open spec fn resting(x: F32) -> bool {
    x.absolute().below(F32 { bits: 0x3F00_0000 })
}

fn is_resting(x: F32) -> (r: bool)
    ensures
        r == resting(x),
{
    x.abs().lt(F32 { bits: 0x3F00_0000 })
}

/// The windows that snap to an edge.
#[derive(Debug)]
pub struct MagneticSnap {
    pub snap_distance: F32,
    pub spring_stiffness: F32,
    pub damping: F32,
    pub active_snaps: HashMap<u64, SnapAttraction>,
}

impl MagneticSnap {
    /// No window snaps; the spring pulls with 300 and is damped by 20.
    pub fn new(snap_distance: F32) -> (r: MagneticSnap)
        ensures
            r.snap_distance == snap_distance,
            r.spring_stiffness == (F32 { bits: 0x4396_0000 }),
            r.damping == (F32 { bits: 0x41A0_0000 }),
            r.active_snaps@ == Map::<u64, SnapAttraction>::empty(),
    {
        MagneticSnap {
            snap_distance,
            spring_stiffness: F32 { bits: 0x4396_0000 },
            damping: F32 { bits: 0x41A0_0000 },
            active_snaps: HashMap::new(),
        }
    }

    /// The target that a window snaps to, and its edge.
    pub fn detect_snap(&self, reaches: &[Reach]) -> (r: Option<(usize, SnapEdge)>)
        ensures
            (match r {
                Some((i, edge)) => Some((i as int, edge)),
                None => None,
            }) == first_reach(reaches@, self.snap_distance, 0),
    {
        let mut i: usize = 0;
        while i < reaches.len()
            invariant
                i <= reaches@.len(),
                first_reach(reaches@, self.snap_distance, 0) == first_reach(
                    reaches@,
                    self.snap_distance,
                    i as int,
                ),
            decreases reaches@.len() - i,
        {
            if reaches[i].left.lt(self.snap_distance) {
                return Some((i, SnapEdge::Left));
            }
            if reaches[i].right.lt(self.snap_distance) {
                return Some((i, SnapEdge::Right));
            }
            i = i + 1;
        }
        None
    }

    /// Lets a window snap from `current_offset` away, at rest.
    pub fn start_snap(&mut self, key: u64, edge: SnapEdge, target_pos: F32, current_offset: F32)
        ensures
            final(self).active_snaps@ == old(self).active_snaps@.insert(
                key,
                SnapAttraction { edge, target_pos, current_offset, velocity: F32 { bits: 0 } },
            ),
            final(self).snap_distance == old(self).snap_distance,
            final(self).spring_stiffness == old(self).spring_stiffness,
            final(self).damping == old(self).damping,
    {
        self.active_snaps.insert(
            key,
            SnapAttraction { edge, target_pos, current_offset, velocity: F32 { bits: 0 } },
        );
    }

    /// Moves one window to where its spring has brought it; one that has
    /// settled snaps no more.
    pub fn advance(&mut self, key: u64, current_offset: F32, velocity: F32)
        ensures
            final(self).active_snaps@ == (if !old(self).active_snaps@.dom().contains(key) {
                old(self).active_snaps@
            } else if resting(current_offset) && resting(velocity) {
                old(self).active_snaps@.remove(key)
            } else {
                old(self).active_snaps@.insert(
                    key,
                    SnapAttraction {
                        current_offset,
                        velocity,
                        ..old(self).active_snaps@[key]
                    },
                )
            }),
            final(self).snap_distance == old(self).snap_distance,
            final(self).spring_stiffness == old(self).spring_stiffness,
            final(self).damping == old(self).damping,
    {
        let found: Option<SnapAttraction> = match self.active_snaps.get(&key) {
            Some(snap) => Some(*snap),
            None => None,
        };
        if let Some(snap) = found {
            if is_resting(current_offset) && is_resting(velocity) {
                self.active_snaps.remove(&key);
            } else {
                self.active_snaps.insert(
                    key,
                    SnapAttraction {
                        edge: snap.edge,
                        target_pos: snap.target_pos,
                        current_offset,
                        velocity,
                    },
                );
            }
        }
    }

    /// Lets a window snap no more.
    pub fn cancel(&mut self, key: u64)
        ensures
            final(self).active_snaps@ == old(self).active_snaps@.remove(key),
            final(self).snap_distance == old(self).snap_distance,
            final(self).spring_stiffness == old(self).spring_stiffness,
            final(self).damping == old(self).damping,
    {
        self.active_snaps.remove(&key);
    }

    /// Whether a window snaps.
    pub fn is_active(&self) -> (r: bool)
        ensures
            r == (self.active_snaps@.dom().len() != 0),
    {
        self.active_snaps.len() != 0
    }
}

/// A view that was scrolled past its end and springs back.
#[derive(Debug, Clone, Copy, PartialEq, Eq, Structural)]
pub struct ElasticScroll {
    pub offset: F32,
    pub velocity: F32,
    pub spring_k: F32,
    pub damping: F32,
    pub max_overscroll: F32,
    pub active: bool,
}

impl ElasticScroll {
    /// A view at rest: a spring of 400, damped by 25, stretched by 100 at most.
    pub open spec fn at_rest() -> ElasticScroll {
        ElasticScroll {
            offset: F32 { bits: 0 },
            velocity: F32 { bits: 0 },
            spring_k: F32 { bits: 0x43C8_0000 },
            damping: F32 { bits: 0x41C8_0000 },
            max_overscroll: F32 { bits: 0x42C8_0000 },
            active: false,
        }
    }

    /// A view at rest.
    pub fn new() -> (r: ElasticScroll)
        ensures
            r == ElasticScroll::at_rest(),
    {
        ElasticScroll {
            offset: F32 { bits: 0 },
            velocity: F32 { bits: 0 },
            spring_k: F32 { bits: 0x43C8_0000 },
            damping: F32 { bits: 0x41C8_0000 },
            max_overscroll: F32 { bits: 0x42C8_0000 },
            active: false,
        }
    }

    /// Stretches the view to `reached`, but no further than it goes.
    pub fn apply_scroll(&mut self, reached: F32, velocity: F32) -> (r: F32)
        requires
            old(self).max_overscroll.negated().at_most(old(self).max_overscroll),
        ensures
            r == reached.clamped(old(self).max_overscroll.negated(), old(self).max_overscroll),
            *final(self) == (ElasticScroll { offset: r, velocity, active: true, ..*old(self) }),
    {
        self.offset = reached.clamp(self.max_overscroll.opposite(), self.max_overscroll);
        self.velocity = velocity;
        self.active = true;
        self.offset
    }

    /// Moves the view to where its spring has brought it; once it has settled it
    /// is at rest. Nothing happens to a view at rest.
    pub fn tick(&mut self, offset: F32, velocity: F32) -> (r: bool)
        ensures
            *final(self) == (if !old(self).active {
                *old(self)
            } else if resting(offset) && resting(velocity) {
                ElasticScroll {
                    offset: F32 { bits: 0 },
                    velocity: F32 { bits: 0 },
                    active: false,
                    ..*old(self)
                }
            } else {
                ElasticScroll { offset, velocity, ..*old(self) }
            }),
            r == final(self).active,
    {
        if !self.active {
            return false;
        }
        if is_resting(offset) && is_resting(velocity) {
            self.offset = F32 { bits: 0 };
            self.velocity = F32 { bits: 0 };
            self.active = false;
        } else {
            self.offset = offset;
            self.velocity = velocity;
        }
        self.active
    }

    /// How far the view is stretched.
    pub fn current_offset(&self) -> (r: F32)
        ensures
            r == self.offset,
    {
        self.offset
    }
}

impl Default for ElasticScroll {
    fn default() -> (r: ElasticScroll)
        ensures
            r == ElasticScroll::at_rest(),
    {
        ElasticScroll::new()
    }
}

/// The name of a curve.
pub open spec fn easing_name(easing: Easing) -> Seq<char> {
    match easing {
        Easing::Linear => "linear"@,
        Easing::EaseOut => "ease-out"@,
        Easing::EaseInOut => "ease-in-out"@,
        Easing::EaseIn => "ease-in"@,
        Easing::Bounce => "bounce"@,
        Easing::Elastic => "elastic"@,
    }
}

/// The name of a speed.
pub open spec fn speed_name(speed: AnimationSpeed) -> Seq<char> {
    match speed {
        AnimationSpeed::Slow => "slow"@,
        AnimationSpeed::Normal => "normal"@,
        AnimationSpeed::Fast => "fast"@,
        AnimationSpeed::Instant => "instant"@,
    }
}

/// Every curve goes by its own name, and any other name is an ease-out.
pub proof fn curves_go_by_their_names(easing: Easing, name: Seq<char>)
    ensures
        Easing::named(easing_name(easing)) == easing,
        name == easing_name(Easing::named(name)) || Easing::named(name) == Easing::EaseOut,
{
    reveal_strlit("linear");
    reveal_strlit("ease-out");
    reveal_strlit("ease-in-out");
    reveal_strlit("ease-in");
    reveal_strlit("bounce");
    reveal_strlit("elastic");
    assert("linear"@.len() == 6 && "linear"@[0] == 'l');
    assert("ease-out"@.len() == 8);
    assert("ease-in-out"@.len() == 11);
    assert("ease-in"@.len() == 7 && "ease-in"@[1] == 'a');
    assert("bounce"@.len() == 6 && "bounce"@[0] == 'b');
    assert("elastic"@.len() == 7 && "elastic"@[1] == 'l');
}

/// Every speed goes by its own name, and any other name is the normal speed.
pub proof fn speeds_go_by_their_names(speed: AnimationSpeed, name: Seq<char>)
    ensures
        AnimationSpeed::named(speed_name(speed)) == speed,
        name == speed_name(AnimationSpeed::named(name)) || AnimationSpeed::named(name)
            == AnimationSpeed::Normal,
{
    reveal_strlit("slow");
    reveal_strlit("normal");
    reveal_strlit("fast");
    reveal_strlit("instant");
    assert("slow"@.len() == 4 && "slow"@[0] == 's');
    assert("normal"@.len() == 6);
    assert("fast"@.len() == 4 && "fast"@[0] == 'f');
    assert("instant"@.len() == 7);
}

/// A window snaps to the first target that an edge of it is near to, with the
/// left edge where that one is near; it snaps to none just where none is near.
pub proof fn windows_snap_to_the_first_near_target(reaches: Seq<Reach>, near: F32, i: int)
    requires
        0 <= i <= reaches.len(),
    ensures
        match first_reach(reaches, near, i) {
            Some((t, edge)) => {
                &&& i <= t < reaches.len()
                &&& edge == SnapEdge::Left ==> reaches[t].left.below(near)
                &&& edge == SnapEdge::Right ==> reaches[t].right.below(near)
                    && !reaches[t].left.below(near)
                &&& edge == SnapEdge::Left || edge == SnapEdge::Right
                &&& forall|k: int|
                    i <= k < t ==> !(#[trigger] reaches[k]).left.below(near)
                        && !reaches[k].right.below(near)
            },
            None => forall|k: int|
                i <= k < reaches.len() ==> !(#[trigger] reaches[k]).left.below(near)
                    && !reaches[k].right.below(near),
        },
    decreases reaches.len() - i,
{
    if i < reaches.len() {
        windows_snap_to_the_first_near_target(reaches, near, i + 1);
    }
}

/// Time passes from the start of an animation on, and never backwards.
pub proof fn time_passes_from_the_start(animation: ClientAnimation, now: u64, later: u64)
    requires
        now <= later,
    ensures
        now >= animation.started_at ==> animation.started_at + animation.elapsed_at(now) == now,
        now <= animation.started_at ==> animation.elapsed_at(now) == 0,
        animation.elapsed_at(now) <= animation.elapsed_at(later),
{
}

/// A spring has come to rest where it is within a half of its place, on either
/// side.
pub proof fn springs_rest_within_a_half(x: F32)
    ensures
        resting(x) <==> x.below(F32 { bits: 0x3F00_0000 }) && (F32 { bits: 0xBF00_0000 }).below(x),
        resting(x) == resting(x.negated()),
{
}

proof fn step_fits(n: nat)
    ensures
        single_step(n) >= 1,
        n < 0x100_0000 ==> single_step(n) == 1,
        n >= 0x100_0000 ==> 0x80_0000 * single_step(n) <= n < 0x100_0000 * single_step(n),
    decreases n,
{
    if n >= 0x100_0000 {
        step_fits(n / 2);
    }
}

/// A duration is counted to the nearest multiple of a step that is at most the
/// two to the power of twenty-third part of it.
pub proof fn durations_are_nearest(n: nat)
    ensures
        single_step(n) >= 1,
        n >= 0x100_0000 ==> 0x80_0000 * single_step(n) <= n,
        -single_step(n) <= 2 * (nearest_single(n) - n) <= single_step(n),
        nearest_single(n) % single_step(n) == 0,
{
    step_fits(n);
    let step = single_step(n);
    let q = n / step;
    let rest = n % step;
    vstd::arithmetic::div_mod::lemma_fundamental_div_mod(n as int, step as int);
    vstd::arithmetic::div_mod::lemma_mod_multiples_basic(q as int, step as int);
    vstd::arithmetic::div_mod::lemma_mod_multiples_basic((q + 1) as int, step as int);
    assert((q + 1) * step == q * step + step && q * step == step * q) by (nonlinear_arith);
}

/// Slower is never shorter: the slow speed takes twice as long as the normal
/// one, the fast one half as long, and instant takes no time.
pub proof fn slower_takes_longer(base_ms: nat)
    requires
        AnimationSpeed::Normal.scaled(base_ms) <= 0x7fff_ffff_ffff_ffff,
    ensures
        AnimationSpeed::Slow.scaled(base_ms) == 2 * AnimationSpeed::Normal.scaled(base_ms),
        2 * AnimationSpeed::Fast.scaled(base_ms) - AnimationSpeed::Normal.scaled(base_ms) == 0 || 2
            * AnimationSpeed::Fast.scaled(base_ms) - AnimationSpeed::Normal.scaled(base_ms) == 1,
        AnimationSpeed::Instant.scaled(base_ms) == 0,
{
}

} // verus!
