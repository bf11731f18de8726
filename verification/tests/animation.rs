//! Animations of windows, edge snapping and overscroll.
use jwm::animation::{
    AnimationKind, AnimationManager, AnimationSpeed, ClientAnimation, Easing, ElasticScroll,
    MagneticSnap, Reach, SnapEdge,
};
use jwm::geometry::Rect;
use jwm::ieee::F32;

fn single(x: f32) -> F32 {
    F32 { bits: x.to_bits() }
}

fn float(x: F32) -> f32 {
    f32::from_bits(x.bits)
}

/// Snapping with the springs computed beside it.
struct Snap(MagneticSnap);

impl Snap {
    fn new(snap_distance: f32) -> Snap {
        Snap(MagneticSnap::new(single(snap_distance)))
    }

    fn detect_snap(&self, pos: f32, size: f32, targets: &[f32]) -> Option<(SnapEdge, f32)> {
        let reaches: Vec<Reach> = targets
            .iter()
            .map(|target| Reach {
                left: single((pos - target).abs()),
                right: single((pos + size - target).abs()),
            })
            .collect();
        self.0.detect_snap(&reaches).map(|(i, edge)| {
            let target = match edge {
                SnapEdge::Right => targets[i] - size,
                _ => targets[i],
            };
            (edge, target)
        })
    }

    fn start_snap(&mut self, key: u64, edge: SnapEdge, target: f32, current: f32) {
        self.0.start_snap(key, edge, single(target), single(current - target));
    }

    fn tick(&mut self, dt: f32) -> bool {
        let stiffness = float(self.0.spring_stiffness);
        let damping = float(self.0.damping);
        let keys: Vec<u64> = self.0.active_snaps.keys().copied().collect();
        for key in keys {
            let snap = &self.0.active_snaps[&key];
            let (mut offset, mut velocity) = (float(snap.current_offset), float(snap.velocity));
            velocity += (-stiffness * offset - damping * velocity) * dt;
            offset += velocity * dt;
            self.0.advance(key, single(offset), single(velocity));
        }
        self.0.is_active()
    }

    fn snapped_position(&self, key: u64) -> Option<f32> {
        self.0
            .active_snaps
            .get(&key)
            .map(|snap| float(snap.target_pos) + float(snap.current_offset))
    }

    fn cancel(&mut self, key: u64) {
        self.0.cancel(key);
    }

    fn is_active(&self) -> bool {
        self.0.is_active()
    }
}

/// Overscroll with the spring computed beside it.
struct Scroll(ElasticScroll);

impl Scroll {
    fn new() -> Scroll {
        Scroll(ElasticScroll::new())
    }

    fn default() -> Scroll {
        Scroll(ElasticScroll::default())
    }

    fn active(&self) -> bool {
        self.0.active
    }

    fn current_offset(&self) -> f32 {
        float(self.0.current_offset())
    }

    fn apply_scroll(&mut self, delta: f32) -> f32 {
        let reached = self.current_offset() + delta;
        float(self.0.apply_scroll(single(reached), single(delta * 10.0)))
    }

    fn tick(&mut self, dt: f32) -> bool {
        let (mut offset, mut velocity) = (self.current_offset(), float(self.0.velocity));
        velocity +=
            (-float(self.0.spring_k) * offset - float(self.0.damping) * velocity) * dt;
        offset += velocity * dt;
        self.0.tick(single(offset), single(velocity))
    }
}

fn rect(x: i32, y: i32, w: i32, h: i32) -> Rect {
    Rect::new(x, y, w, h)
}

// -----------------------------------------------------------------------
// Easing::from_str
// -----------------------------------------------------------------------

#[test]
fn test_easing_from_str_variants() {
    assert_eq!(Easing::from_str("linear"), Easing::Linear);
    assert_eq!(Easing::from_str("ease-in-out"), Easing::EaseInOut);
    assert_eq!(Easing::from_str("ease-in"), Easing::EaseIn);
    assert_eq!(Easing::from_str("bounce"), Easing::Bounce);
    assert_eq!(Easing::from_str("elastic"), Easing::Elastic);
}

#[test]
fn test_easing_from_str_default_is_ease_out() {
    assert_eq!(Easing::from_str("unknown"), Easing::EaseOut);
    assert_eq!(Easing::from_str(""), Easing::EaseOut);
}

// -----------------------------------------------------------------------
// AnimationSpeed
// -----------------------------------------------------------------------

#[test]
fn test_animation_speed_from_str() {
    assert_eq!(AnimationSpeed::from_str("slow"), AnimationSpeed::Slow);
    assert_eq!(AnimationSpeed::from_str("fast"), AnimationSpeed::Fast);
    assert_eq!(AnimationSpeed::from_str("instant"), AnimationSpeed::Instant);
    assert_eq!(AnimationSpeed::from_str("normal"), AnimationSpeed::Normal);
    assert_eq!(AnimationSpeed::from_str("unknown"), AnimationSpeed::Normal);
}

#[test]
fn test_animation_speed_duration_multiplier() {
    let multiplier = |speed: AnimationSpeed| float(speed.duration_multiplier());
    assert!((multiplier(AnimationSpeed::Slow) - 2.0).abs() < 1e-4);
    assert!((multiplier(AnimationSpeed::Normal) - 1.0).abs() < 1e-4);
    assert!((multiplier(AnimationSpeed::Fast) - 0.5).abs() < 1e-4);
    assert!((multiplier(AnimationSpeed::Instant) - 0.0).abs() < 1e-4);
    assert_eq!(float(AnimationSpeed::Instant.fade_step_multiplier()), 100.0);
    assert_eq!(float(AnimationSpeed::Slow.fade_step_multiplier()), 0.5);
}

#[test]
fn test_animation_speed_apply_duration_instant_is_zero() {
    assert_eq!(AnimationSpeed::Instant.apply_duration(300), 0);
}

#[test]
fn test_animation_speed_apply_duration_slow() {
    assert_eq!(AnimationSpeed::Slow.apply_duration(150), 300);
}

#[test]
fn test_animation_speed_apply_duration_fast() {
    assert_eq!(AnimationSpeed::Fast.apply_duration(200), 100);
}

// -----------------------------------------------------------------------
// AnimationManager
// -----------------------------------------------------------------------

#[test]
fn test_animation_manager_starts_empty() {
    let mgr = AnimationManager::new();
    assert!(!mgr.has_active());
}

#[test]
fn test_animation_manager_start_adds_animation() {
    let mut mgr = AnimationManager::new();
    let key = 1;
    mgr.start(
        key,
        rect(0, 0, 100, 100),
        rect(200, 200, 100, 100),
        0, 300,
        Easing::EaseOut,
        AnimationKind::Layout,
    );
    assert!(mgr.has_active());
}

#[test]
fn test_animation_manager_start_same_from_to_removes() {
    let mut mgr = AnimationManager::new();
    let key = 1;
    // Insert first
    mgr.start(key, rect(0,0,100,100), rect(200,200,100,100),
        0, 300, Easing::Linear, AnimationKind::Layout);
    assert!(mgr.has_active());
    // Same from == to → should remove
    mgr.start(key, rect(200,200,100,100), rect(200,200,100,100),
        0, 300, Easing::Linear, AnimationKind::Layout);
    assert!(!mgr.has_active());
}

#[test]
fn test_animation_manager_remove() {
    let mut mgr = AnimationManager::new();
    let key = 1;
    mgr.start(key, rect(0,0,100,100), rect(200,0,100,100),
        0, 200, Easing::Linear, AnimationKind::Layout);
    mgr.remove(key);
    assert!(!mgr.has_active());
}

#[test]
fn test_animation_manager_remove_if_hide_only_removes_hide() {
    let mut mgr = AnimationManager::new();
    let (k1, k2) = (1, 2);
    mgr.start(k1, rect(0,0,100,100), rect(200,0,100,100),
        0, 200, Easing::Linear, AnimationKind::Layout);
    mgr.start(k2, rect(0,0,100,100), rect(200,0,100,100),
        0, 200, Easing::Linear, AnimationKind::Hide);
    mgr.remove_if_hide(k1); // should NOT remove Layout
    mgr.remove_if_hide(k2); // should remove Hide
    assert!(mgr.active.contains_key(&k1), "Layout animation should remain");
    assert!(!mgr.active.contains_key(&k2), "Hide animation should be removed");
}

#[test]
fn test_animation_manager_current_visual_rect_returns_none_without_anim() {
    let mgr = AnimationManager::new();
    let key = 1;
    assert!(mgr.current_visual_rect(key, 0, rect(0, 0, 1, 1)).is_none());
}

#[test]
fn test_animation_manager_current_visual_rect_at_start() {
    let mut mgr = AnimationManager::new();
    let key = 1;
    let from = rect(0, 0, 100, 100);
    let to = rect(200, 0, 100, 100);
    mgr.start(key, from, to, 0, 500, Easing::Linear, AnimationKind::Layout);
    // Immediately after start, visual should be near `from`
    let visual = mgr.current_visual_rect(key, 0, from).unwrap();
    assert!((visual.x - from.x).abs() <= 5);
}

#[test]
fn test_client_animation_sample_at_end() {
    let anim = ClientAnimation {
        from: rect(0, 0, 100, 100),
        to: rect(200, 0, 100, 100),
        started_at: 0,
        duration: 300,
        easing: Easing::Linear,
        kind: AnimationKind::Layout,
    };
    let (r, done) = anim.sample(10_000, rect(0, 0, 1, 1));
    assert!(done);
    assert_eq!(r, rect(200, 0, 100, 100));
}

// -----------------------------------------------------------------------
// MagneticSnap
// -----------------------------------------------------------------------

#[test]
fn test_magnetic_snap_detect_snap_within_range() {
    let snap = Snap::new(20.0);
    let result = snap.detect_snap(5.0, 100.0, &[0.0, 200.0]);
    assert!(result.is_some(), "Window edge at 5 should snap to 0");
    let (edge, target) = result.unwrap();
    assert_eq!(edge, SnapEdge::Left);
    assert!((target - 0.0).abs() < 1e-4);
}

#[test]
fn test_magnetic_snap_detect_snap_outside_range() {
    let snap = Snap::new(10.0);
    let result = snap.detect_snap(50.0, 100.0, &[0.0]);
    assert!(result.is_none(), "Window edge at 50 is outside snap range 10");
}

#[test]
fn test_magnetic_snap_detect_right_edge() {
    let snap = Snap::new(20.0);
    // window at x=181, w=100 → right edge at 281, target=300, dist=19 < 20
    let result = snap.detect_snap(181.0, 100.0, &[300.0]);
    assert!(result.is_some(), "Right edge at 281 should snap to 300 (dist=19 < 20)");
    let (edge, _) = result.unwrap();
    assert_eq!(edge, SnapEdge::Right);
}

#[test]
fn test_magnetic_snap_detect_no_targets() {
    let snap = Snap::new(20.0);
    let result = snap.detect_snap(0.0, 100.0, &[]);
    assert!(result.is_none());
}

#[test]
fn test_magnetic_snap_cancel() {
    let mut snap = Snap::new(20.0);
    let key = 1;
    snap.start_snap(key, SnapEdge::Left, 0.0, 5.0);
    assert!(snap.is_active());
    snap.cancel(key);
    assert!(!snap.is_active());
}

#[test]
fn test_magnetic_snap_tick_converges() {
    let mut snap = Snap::new(20.0);
    let key = 1;
    snap.start_snap(key, SnapEdge::Left, 0.0, 10.0);
    // Tick many times until settled
    for _ in 0..1000 {
        let still_active = snap.tick(0.016);
        if !still_active {
            break;
        }
    }
    assert!(!snap.is_active(), "Snap should have settled");
}

#[test]
fn test_magnetic_snap_snapped_position_before_tick() {
    let mut snap = Snap::new(20.0);
    let key = 1;
    snap.start_snap(key, SnapEdge::Left, 100.0, 110.0);
    let pos = snap.snapped_position(key);
    assert!(pos.is_some());
    // Initial: target (100) + offset (10) = 110
    assert!((pos.unwrap() - 110.0).abs() < 1e-3);
}

// -----------------------------------------------------------------------
// ElasticScroll
// -----------------------------------------------------------------------

#[test]
fn test_elastic_scroll_initial_state() {
    let s = Scroll::new();
    assert!((s.current_offset() - 0.0).abs() < 1e-4);
    assert!(!s.active());
}

#[test]
fn test_elastic_scroll_apply_scroll() {
    let mut s = Scroll::new();
    let offset = s.apply_scroll(30.0);
    assert!(offset > 0.0);
    assert!(s.active());
}

#[test]
fn test_elastic_scroll_clamped_at_max() {
    let mut s = Scroll::new();
    // max_overscroll = 100
    s.apply_scroll(200.0);
    assert!((s.current_offset() - 100.0).abs() < 1e-4);
}

#[test]
fn test_elastic_scroll_springs_back_to_zero() {
    let mut s = Scroll::new();
    s.apply_scroll(50.0);
    for _ in 0..2000 {
        if !s.tick(0.016) {
            break;
        }
    }
    assert!(!s.active(), "Elastic scroll should have settled");
    assert!(s.current_offset().abs() < 1e-4);
}

#[test]
fn test_elastic_scroll_tick_inactive_returns_false() {
    let mut s = Scroll::new();
    assert!(!s.tick(0.016));
}

#[test]
fn test_elastic_scroll_default_equals_new() {
    let s1 = Scroll::new();
    let s2 = Scroll::default();
    assert!((s1.current_offset() - s2.current_offset()).abs() < 1e-6);
    assert_eq!(s1.active(), s2.active());
}

#[test]
fn springs_start_with_their_constants() {
    let snap = MagneticSnap::new(single(12.5));
    assert_eq!(float(snap.snap_distance), 12.5);
    assert_eq!(float(snap.spring_stiffness), 300.0);
    assert_eq!(float(snap.damping), 20.0);
    let scroll = ElasticScroll::new();
    assert_eq!(float(scroll.spring_k), 400.0);
    assert_eq!(float(scroll.damping), 25.0);
    assert_eq!(float(scroll.max_overscroll), 100.0);
}

#[test]
fn durations_follow_the_speed() {
    assert_eq!(AnimationSpeed::Normal.apply_duration(77), 77);
    assert_eq!(AnimationSpeed::Fast.apply_duration(75), 38);
    assert_eq!(AnimationSpeed::Slow.apply_duration(75), 150);
}

#[test]
fn a_running_animation_shows_what_lies_between() {
    let anim = ClientAnimation {
        from: rect(0, 0, 100, 100),
        to: rect(200, 0, 100, 100),
        started_at: 100,
        duration: 300,
        easing: Easing::Linear,
        kind: AnimationKind::Float,
    };
    let between = rect(50, 0, 100, 100);
    assert_eq!(anim.elapsed(175), 75);
    assert_eq!(anim.sample(175, between), (between, false));
    assert_eq!(anim.sample(400, between), (anim.to, true));
}

#[test]
fn overscroll_ends_at_the_most_either_way() {
    let mut s = Scroll::new();
    assert_eq!(s.apply_scroll(-250.0), -100.0);
    assert_eq!(s.apply_scroll(30.0), -70.0);
    assert_eq!(s.apply_scroll(500.0), 100.0);
}

#[test]
fn a_snap_rests_once_place_and_speed_are_small() {
    let mut snap = Snap::new(20.0);
    snap.start_snap(1, SnapEdge::Left, 0.0, 10.0);
    snap.0.advance(1, single(-0.49), single(0.5));
    assert!(snap.is_active());
    snap.0.advance(1, single(-0.49), single(-0.49));
    assert!(!snap.is_active());
}
