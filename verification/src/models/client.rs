//! What is kept of one window.
use super::{ClientKey, MonitorKey};
use crate::geometry::{Rect, saturated};
use crate::ieee::F32;
use crate::layout::narrow;
use crate::maximize::MaximizeAxes;
use crate::text::{decimal, push_int, str_eq};
use vstd::prelude::*;

verus! {

/// Where a window is and where it was.
#[derive(Debug, Clone, Copy, PartialEq, Eq, Structural)]
pub struct ClientGeometry {
    pub x: i32,
    pub y: i32,
    pub w: i32,
    pub h: i32,
    pub old_x: i32,
    pub old_y: i32,
    pub old_w: i32,
    pub old_h: i32,
    pub border_w: i32,
    pub old_border_w: i32,
    /// The off-screen x chosen while the window is hidden.
    pub hidden_x: Option<i32>,
    /// The visible rectangle to restore after hiding; kept apart from `old_*`,
    /// which is where fullscreen returns to.
    pub hidden_restore_rect: Option<Rect>,
    /// The rectangle before maximizing, while a maximize axis is set.
    pub maximize_restore_rect: Option<Rect>,
    pub floating_x: i32,
    pub floating_y: i32,
    pub floating_w: i32,
    pub floating_h: i32,
}

impl ClientGeometry {
    /// Nothing set.
    pub open spec fn blank() -> ClientGeometry {
        ClientGeometry {
            x: 0,
            y: 0,
            w: 0,
            h: 0,
            old_x: 0,
            old_y: 0,
            old_w: 0,
            old_h: 0,
            border_w: 0,
            old_border_w: 0,
            hidden_x: None,
            hidden_restore_rect: None,
            maximize_restore_rect: None,
            floating_x: 0,
            floating_y: 0,
            floating_w: 0,
            floating_h: 0,
        }
    }
}

impl Default for ClientGeometry {
    fn default() -> (r: ClientGeometry)
        ensures
            r == ClientGeometry::blank(),
    {
        ClientGeometry {
            x: 0,
            y: 0,
            w: 0,
            h: 0,
            old_x: 0,
            old_y: 0,
            old_w: 0,
            old_h: 0,
            border_w: 0,
            old_border_w: 0,
            hidden_x: None,
            hidden_restore_rect: None,
            maximize_restore_rect: None,
            floating_x: 0,
            floating_y: 0,
            floating_w: 0,
            floating_h: 0,
        }
    }
}

/// The sizes that a window asks to be kept to.
#[derive(Debug, Clone, Copy, PartialEq, Eq, Structural)]
pub struct SizeHints {
    pub base_w: i32,
    pub base_h: i32,
    pub inc_w: i32,
    pub inc_h: i32,
    pub max_w: i32,
    pub max_h: i32,
    pub min_w: i32,
    pub min_h: i32,
    pub min_aspect: F32,
    pub max_aspect: F32,
    pub hints_valid: bool,
}

impl SizeHints {
    /// Nothing set.
    pub open spec fn blank() -> SizeHints {
        SizeHints {
            base_w: 0,
            base_h: 0,
            inc_w: 0,
            inc_h: 0,
            max_w: 0,
            max_h: 0,
            min_w: 0,
            min_h: 0,
            min_aspect: F32 { bits: 0 },
            max_aspect: F32 { bits: 0 },
            hints_valid: false,
        }
    }
}

impl Default for SizeHints {
    fn default() -> (r: SizeHints)
        ensures
            r == SizeHints::blank(),
    {
        SizeHints {
            base_w: 0,
            base_h: 0,
            inc_w: 0,
            inc_h: 0,
            max_w: 0,
            max_h: 0,
            min_w: 0,
            min_h: 0,
            min_aspect: F32 { bits: 0 },
            max_aspect: F32 { bits: 0 },
            hints_valid: false,
        }
    }
}

/// The state of a window.
#[derive(Debug, Clone, Copy, PartialEq, Eq, Structural)]
pub struct ClientState {
    pub tags: u32,
    pub client_fact: F32,
    pub is_fixed: bool,
    pub is_floating: bool,
    /// Floats only because it was dragged out of the layout.
    pub is_drag_floating: bool,
    pub is_urgent: bool,
    pub never_focus: bool,
    /// Whether it floated before fullscreen or picture-in-picture.
    pub old_state: bool,
    pub is_fullscreen: bool,
    pub is_sticky: bool,
    pub is_pip: bool,
    /// Whether it was sticky before picture-in-picture.
    pub pip_restore_sticky: bool,
    pub is_dock: bool,
    /// A desktop icon layer or wallpaper.
    pub is_desktop: bool,
    pub is_maximized_vert: bool,
    pub is_maximized_horz: bool,
    /// Maximizing pulled it out of the layout; clearing the last axis re-tiles it.
    pub maximize_restore_tiled: bool,
    /// The window it stood in front of when it was pulled out.
    pub maximize_restore_anchor: Option<ClientKey>,
    pub is_hidden: bool,
    /// Its turn in the dock of minimized windows; zero when it is not there.
    pub minimized_order: u64,
    /// A terminal hidden behind the program that it started.
    pub is_swallowed: bool,
    pub is_above: bool,
    pub is_below: bool,
    pub demands_attention: bool,
    pub skip_taskbar: bool,
    pub skip_pager: bool,
    pub no_decorations: bool,
    pub sync_counter: Option<u32>,
    pub sync_value: u64,
    /// Its monitor and tags are worth remembering when it closes.
    pub remembers_closed_placement: bool,
}

impl ClientState {
    /// Nothing set.
    pub open spec fn blank() -> ClientState {
        ClientState {
            tags: 0,
            client_fact: F32 { bits: 0 },
            is_fixed: false,
            is_floating: false,
            is_drag_floating: false,
            is_urgent: false,
            never_focus: false,
            old_state: false,
            is_fullscreen: false,
            is_sticky: false,
            is_pip: false,
            pip_restore_sticky: false,
            is_dock: false,
            is_desktop: false,
            is_maximized_vert: false,
            is_maximized_horz: false,
            maximize_restore_tiled: false,
            maximize_restore_anchor: None,
            is_hidden: false,
            minimized_order: 0,
            is_swallowed: false,
            is_above: false,
            is_below: false,
            demands_attention: false,
            skip_taskbar: false,
            skip_pager: false,
            no_decorations: false,
            sync_counter: None,
            sync_value: 0,
            remembers_closed_placement: false,
        }
    }
}

impl Default for ClientState {
    fn default() -> (r: ClientState)
        ensures
            r == ClientState::blank(),
    {
        ClientState {
            tags: 0,
            client_fact: F32 { bits: 0 },
            is_fixed: false,
            is_floating: false,
            is_drag_floating: false,
            is_urgent: false,
            never_focus: false,
            old_state: false,
            is_fullscreen: false,
            is_sticky: false,
            is_pip: false,
            pip_restore_sticky: false,
            is_dock: false,
            is_desktop: false,
            is_maximized_vert: false,
            is_maximized_horz: false,
            maximize_restore_tiled: false,
            maximize_restore_anchor: None,
            is_hidden: false,
            minimized_order: 0,
            is_swallowed: false,
            is_above: false,
            is_below: false,
            demands_attention: false,
            skip_taskbar: false,
            skip_pager: false,
            no_decorations: false,
            sync_counter: None,
            sync_value: 0,
            remembers_closed_placement: false,
        }
    }
}

impl ClientGeometry {
    /// How a geometry reads: size and corner, as in `800x600+10+20`.
    pub open spec fn text(self) -> Seq<char> {
        decimal(self.w as int) + "x"@ + decimal(self.h as int) + "+"@ + decimal(self.x as int)
            + "+"@ + decimal(self.y as int)
    }

    /// How the geometry reads.
    pub fn to_string(&self) -> (r: String)
        ensures
            r@ == self.text(),
    {
        let mut r = String::new();
        push_int(&mut r, self.w as i64);
        r.append("x");
        push_int(&mut r, self.h as i64);
        r.append("+");
        push_int(&mut r, self.x as i64);
        r.append("+");
        push_int(&mut r, self.y as i64);
        r
    }
}

impl ClientState {
    /// The axes along which the window is maximized.
    pub open spec fn axes(self) -> MaximizeAxes {
        MaximizeAxes { vert: self.is_maximized_vert, horz: self.is_maximized_horz }
    }

    /// The axes along which the window is maximized.
    pub fn maximized_axes(&self) -> (r: MaximizeAxes)
        ensures
            r == self.axes(),
    {
        MaximizeAxes { vert: self.is_maximized_vert, horz: self.is_maximized_horz }
    }

    /// Sets both axes at once.
    pub fn set_maximized_axes(&mut self, axes: MaximizeAxes)
        ensures
            *final(self) == (ClientState {
                is_maximized_vert: axes.vert,
                is_maximized_horz: axes.horz,
                ..*old(self)
            }),
    {
        self.is_maximized_vert = axes.vert;
        self.is_maximized_horz = axes.horz;
    }

    /// Whether maximizing owns the live rectangle: an axis is set, and the
    /// window floats, neither fullscreen nor picture-in-picture.
    pub fn is_maximize_realized(&self) -> (r: bool)
        ensures
            r == (self.axes().some_axis() && self.is_floating && !self.is_fullscreen
                && !self.is_pip),
    {
        self.maximized_axes().any() && self.is_floating && !self.is_fullscreen && !self.is_pip
    }
}

/// What setting the axes wrote is what reading them gives back.
pub proof fn axes_round_trip(state: ClientState, axes: MaximizeAxes)
    ensures
        (ClientState {
            is_maximized_vert: axes.vert,
            is_maximized_horz: axes.horz,
            ..state
        }).axes() == axes,
{
}

/// One window.
#[derive(Debug, Clone, PartialEq)]
pub struct WMClient {
    pub name: String,
    pub class: String,
    pub instance: String,
    /// The window of the display server.
    pub win: u64,
    pub geometry: ClientGeometry,
    pub size_hints: SizeHints,
    pub state: ClientState,
    /// The monitor that it is on.
    pub mon: Option<MonitorKey>,
    /// A number kept for older readers; the monitor is the one in `mon`.
    pub monitor_num: u32,
    pub pid: Option<u32>,
    /// The terminal that is hidden behind this window.
    pub swallowing: Option<ClientKey>,
}

/// A length with a border on both sides.
pub open spec fn with_borders(length: int, border_w: int) -> int {
    saturated(length + saturated(2 * border_w))
}

fn add_borders(length: i32, border_w: i32) -> (r: i32)
    ensures
        r == with_borders(length as int, border_w as int),
{
    narrow(length as i64 + narrow(2 * (border_w as i64)) as i64)
}

impl WMClient {
    /// A window of which nothing is known yet.
    pub fn new(win: u64) -> (r: WMClient)
        ensures
            r.name@ == Seq::<char>::empty(),
            r.class@ == Seq::<char>::empty(),
            r.instance@ == Seq::<char>::empty(),
            r.win == win,
            r.geometry == ClientGeometry::blank(),
            r.size_hints == SizeHints::blank(),
            r.state == ClientState::blank(),
            r.mon is None,
            r.monitor_num == 1000,
            r.pid is None,
            r.swallowing is None,
    {
        WMClient {
            name: String::new(),
            class: String::new(),
            instance: String::new(),
            win,
            geometry: ClientGeometry::default(),
            size_hints: SizeHints::default(),
            state: ClientState::default(),
            mon: None,
            monitor_num: 1000,
            pid: None,
            swallowing: None,
        }
    }

    /// The width with both borders.
    pub fn total_width(&self) -> (r: i32)
        ensures
            r == with_borders(self.geometry.w as int, self.geometry.border_w as int),
    {
        add_borders(self.geometry.w, self.geometry.border_w)
    }

    /// The height with both borders.
    pub fn total_height(&self) -> (r: i32)
        ensures
            r == with_borders(self.geometry.h as int, self.geometry.border_w as int),
    {
        add_borders(self.geometry.h, self.geometry.border_w)
    }

    /// Whether the window goes by the name of the status bar.
    pub fn is_status_bar(&self, status_bar_name: &str) -> (r: bool)
        ensures
            r == (self.name@ == status_bar_name@ || self.class@ == status_bar_name@
                || self.instance@ == status_bar_name@),
    {
        str_eq(self.name.as_str(), status_bar_name) || str_eq(self.class.as_str(), status_bar_name)
            || str_eq(self.instance.as_str(), status_bar_name)
    }

    /// Corner and size of the content.
    pub fn rect(&self) -> (r: (i32, i32, i32, i32))
        ensures
            r == (self.geometry.x, self.geometry.y, self.geometry.w, self.geometry.h),
    {
        (self.geometry.x, self.geometry.y, self.geometry.w, self.geometry.h)
    }

    /// How a window reads, where `win` is how its identifier does.
    pub open spec fn text(self, win: Seq<char>) -> Seq<char> {
        "WMClient { name: \""@ + self.name@ + "\", class: \""@ + self.class@ + "\", instance: \""@
            + self.instance@ + "\", win: "@ + win + ", geometry: "@ + self.geometry.text()
            + ", monitor: "@ + (if self.mon is Some {
            "Some"@
        } else {
            "None"@
        }) + " }"@
    }

    /// How the window reads, where `win` is how its identifier does.
    pub fn describe(&self, win: &str) -> (r: String)
        ensures
            r@ == self.text(win@),
    {
        let mut r = String::new();
        r.append("WMClient { name: \"");
        r.append(self.name.as_str());
        r.append("\", class: \"");
        r.append(self.class.as_str());
        r.append("\", instance: \"");
        r.append(self.instance.as_str());
        r.append("\", win: ");
        r.append(win);
        r.append(", geometry: ");
        let geometry = self.geometry.to_string();
        r.append(geometry.as_str());
        r.append(", monitor: ");
        r.append(if self.mon.is_some() { "Some" } else { "None" });
        r.append(" }");
        r
    }
}

/// A window takes up its content and one border on either side of it.
pub proof fn borders_stand_on_both_sides(length: i32, border_w: i32)
    requires
        i32::MIN <= 2 * border_w <= i32::MAX,
        i32::MIN <= length + 2 * border_w <= i32::MAX,
    ensures
        with_borders(length as int, border_w as int) - length == border_w + border_w,
{
}

} // verus!
