//! One monitor: its areas, the tags in view, and the settings of each tag.
use super::ClientKey;
use super::tags::{Pertag, TagSlots, selects_all, slot_in, slot_of, zeros_bound};
use crate::catalog::LayoutEnum;
use crate::geometry::{larger, smaller};
use crate::ieee::F32;
use crate::text::{decimal, push_int};
use vstd::prelude::*;
use vstd::std_specs::bits::u32_trailing_zeros;

verus! {

/// What the layout in view works with.
#[derive(Debug, Clone, Copy, PartialEq, Eq, Structural)]
pub struct MonitorLayout {
    pub m_fact: F32,
    pub n_master: u32,
    pub gap: i32,
}

/// The bits of 0.55, the share of the screen that masters take at first.
pub const DEFAULT_M_FACT: u32 = 0x3F0C_CCCD;

impl Default for MonitorLayout {
    fn default() -> (r: MonitorLayout)
        ensures
            r == (MonitorLayout { m_fact: F32 { bits: DEFAULT_M_FACT }, n_master: 1, gap: 0 }),
    {
        MonitorLayout { m_fact: F32 { bits: DEFAULT_M_FACT }, n_master: 1, gap: 0 }
    }
}

/// The whole monitor (`m_`) and the area that windows may use (`w_`).
#[derive(Debug, Clone, Copy, PartialEq, Eq, Structural)]
pub struct MonitorGeometry {
    pub m_x: i32,
    pub m_y: i32,
    pub m_w: i32,
    pub m_h: i32,
    pub w_x: i32,
    pub w_y: i32,
    pub w_w: i32,
    pub w_h: i32,
}

impl Default for MonitorGeometry {
    fn default() -> (r: MonitorGeometry)
        ensures
            r == (MonitorGeometry {
                m_x: 0,
                m_y: 0,
                m_w: 0,
                m_h: 0,
                w_x: 0,
                w_y: 0,
                w_w: 0,
                w_h: 0,
            }),
    {
        MonitorGeometry { m_x: 0, m_y: 0, m_w: 0, m_h: 0, w_x: 0, w_y: 0, w_w: 0, w_h: 0 }
    }
}

impl MonitorGeometry {
    /// How the areas read.
    pub open spec fn text(self) -> Seq<char> {
        "MonitorGeometry { m_x: "@ + decimal(self.m_x as int) + ", m_y: "@ + decimal(
            self.m_y as int,
        ) + ", m_w: "@ + decimal(self.m_w as int) + ", m_h: "@ + decimal(self.m_h as int)
            + ", w_x: "@ + decimal(self.w_x as int) + ", w_y: "@ + decimal(self.w_y as int)
            + ", w_w: "@ + decimal(self.w_w as int) + ", w_h: "@ + decimal(self.w_h as int)
            + " }"@
    }

    fn push_to(&self, r: &mut String)
        ensures
            final(r)@ == old(r)@ + self.text(),
    {
        let ghost before = r@;
        r.append("MonitorGeometry { m_x: ");
        push_int(r, self.m_x as i64);
        r.append(", m_y: ");
        push_int(r, self.m_y as i64);
        r.append(", m_w: ");
        push_int(r, self.m_w as i64);
        r.append(", m_h: ");
        push_int(r, self.m_h as i64);
        r.append(", w_x: ");
        push_int(r, self.w_x as i64);
        r.append(", w_y: ");
        push_int(r, self.w_y as i64);
        r.append(", w_w: ");
        push_int(r, self.w_w as i64);
        r.append(", w_h: ");
        push_int(r, self.w_h as i64);
        r.append(" }");
        assert(r@ =~= before + self.text());
    }
}

/// One monitor.
#[derive(Debug, Clone, PartialEq)]
pub struct WMMonitor {
    pub num: i32,
    pub lt_symbol: String,
    pub layout: MonitorLayout,
    pub geometry: MonitorGeometry,
    /// Which of the two tag sets is in view.
    pub sel_tags: usize,
    pub tag_set: [u32; 2],
    pub sel: Option<ClientKey>,
    pub lt: LayoutEnum,
    pub prev_lt: LayoutEnum,
    pub pertag: Option<Pertag>,
}

/// A monitor as plain values.
#[verifier::ext_equal]
pub struct MonitorView {
    pub num: i32,
    pub symbol: Seq<char>,
    pub layout: MonitorLayout,
    pub geometry: MonitorGeometry,
    pub sel_tags: usize,
    pub tag_set: Seq<u32>,
    pub sel: Option<ClientKey>,
    pub lt: LayoutEnum,
    pub prev_lt: LayoutEnum,
    pub pertag: Option<TagSlots>,
}

impl View for WMMonitor {
    type V = MonitorView;

    open spec fn view(&self) -> MonitorView {
        MonitorView {
            num: self.num,
            symbol: self.lt_symbol@,
            layout: self.layout,
            geometry: self.geometry,
            sel_tags: self.sel_tags,
            tag_set: self.tag_set@,
            sel: self.sel,
            lt: self.lt,
            prev_lt: self.prev_lt,
            pertag: match self.pertag {
                Some(p) => Some(p@),
                None => None,
            },
        }
    }
}

/// The item at `i`, or `otherwise` past the end.
pub open spec fn at_or<T>(s: Seq<T>, i: int, otherwise: T) -> T {
    if 0 <= i < s.len() {
        s[i]
    } else {
        otherwise
    }
}

fn get_or<T: Copy>(v: &Vec<T>, i: usize, otherwise: T) -> (r: T)
    ensures
        r == at_or(v@, i as int, otherwise),
{
    if i < v.len() { v[i] } else { otherwise }
}

/// `s` with the item at `i` set, where there is one.
pub open spec fn set_at<T>(s: Seq<T>, i: int, value: T) -> Seq<T> {
    if 0 <= i < s.len() {
        s.update(i, value)
    } else {
        s
    }
}

fn put<T>(v: &mut Vec<T>, i: usize, value: T)
    ensures
        final(v)@ == set_at(old(v)@, i as int, value),
{
    if i < v.len() {
        v.set(i, value);
    }
}

impl MonitorView {
    /// The current tag, or `otherwise` where no tag has slots.
    pub open spec fn cur_tag_or(self, otherwise: int) -> int {
        match self.pertag {
            Some(p) => p.cur_tag,
            None => otherwise,
        }
    }

    /// The monitor with the settings of the tag in slot `tag`.
    pub open spec fn loaded(self, tag: int) -> MonitorView {
        match self.pertag {
            Some(p) => {
                let i = slot_in(p.sel.len() as int, tag);
                let lt = at_or(p.lts, i, self.lt);
                MonitorView {
                    symbol: lt.symbol_of(),
                    layout: MonitorLayout {
                        n_master: at_or(p.n_masters, i, self.layout.n_master),
                        m_fact: at_or(p.m_facts, i, self.layout.m_fact),
                        gap: at_or(p.gaps, i, self.layout.gap),
                    },
                    lt,
                    prev_lt: at_or(p.prev_lts, i, self.prev_lt),
                    pertag: Some(TagSlots { prev_tag: p.cur_tag, cur_tag: i, ..p }),
                    ..self
                }
            },
            None => MonitorView { symbol: self.lt.symbol_of(), ..self },
        }
    }

    /// Whether `mask` is all tags that have slots.
    pub open spec fn all_viewed(self, mask: u32) -> bool {
        self.pertag is Some && selects_all(self.pertag->0.tags(), mask)
    }

    /// The slot of a view of the tags in `mask`: 0 for all of them, the
    /// current one while it is among them, else the lowest.
    pub open spec fn slot_viewed(self, mask: u32) -> int {
        let cur = self.cur_tag_or(1);
        if self.all_viewed(mask) {
            0
        } else if 1 <= cur && mask & (1u32 << ((cur - 1) as u32)) > 0 {
            cur
        } else {
            u32_trailing_zeros(mask) + 1
        }
    }

    /// The tags that a view of `mask` shows.
    pub open spec fn tags_viewed(self, mask: u32, toggle: bool) -> u32 {
        if toggle {
            self.tag_set[self.sel_tags as int] ^ mask
        } else {
            mask
        }
    }

    /// The monitor once the tags of `mask` are in view; nothing changes for a
    /// view of no tag.
    pub open spec fn viewed(self, mask: u32, toggle: bool) -> MonitorView {
        let tags = self.tags_viewed(mask, toggle);
        if tags == 0 {
            self
        } else {
            MonitorView {
                sel_tags: (1 - self.sel_tags) as usize,
                tag_set: self.tag_set.update(1 - self.sel_tags, tags),
                ..self.loaded(self.slot_viewed(tags))
            }
        }
    }

    /// The monitor with the settings in view written to the current tag.
    pub open spec fn saved(self) -> MonitorView {
        match self.pertag {
            Some(p) => {
                let i = slot_in(p.sel.len() as int, p.cur_tag);
                MonitorView {
                    pertag: Some(
                        TagSlots {
                            n_masters: set_at(p.n_masters, i, self.layout.n_master),
                            m_facts: set_at(p.m_facts, i, self.layout.m_fact),
                            gaps: set_at(p.gaps, i, self.layout.gap),
                            ..p
                        },
                    ),
                    ..self
                }
            },
            None => self,
        }
    }

    /// The monitor with `client` selected in slot `i`.
    pub open spec fn slot_selects(self, i: int, client: Option<ClientKey>) -> MonitorView {
        match self.pertag {
            Some(p) => MonitorView {
                pertag: Some(TagSlots { sel: set_at(p.sel, i, client), ..p }),
                ..self
            },
            None => self,
        }
    }

    /// The monitor where no slot selects `client`.
    pub open spec fn forgetting(self, client: ClientKey) -> MonitorView {
        MonitorView {
            sel: if self.sel == Some(client) {
                None
            } else {
                self.sel
            },
            pertag: match self.pertag {
                Some(p) => Some(
                    TagSlots {
                        sel: Seq::new(
                            p.sel.len(),
                            |i: int|
                                if p.sel[i] == Some(client) {
                                    None
                                } else {
                                    p.sel[i]
                                },
                        ),
                        ..p
                    },
                ),
                None => None,
            },
            ..self
        }
    }
}

/// The area that a rectangle shares with the usable area of a monitor, no more
/// than a coordinate holds.
pub open spec fn shared_area(g: MonitorGeometry, x: i32, y: i32, w: i32, h: i32) -> int {
    let across = smaller(x + w, g.w_x + g.w_w) - larger(x as int, g.w_x as int);
    let down = smaller(y + h, g.w_y + g.w_h) - larger(y as int, g.w_y as int);
    smaller(larger(across, 0) * larger(down, 0), i32::MAX as int)
}

impl WMMonitor {
    /// A monitor of which nothing is known yet.
    pub fn new() -> (r: WMMonitor)
        ensures
            r.num == 0,
            r.lt_symbol@ == Seq::<char>::empty(),
            r.layout == (MonitorLayout {
                m_fact: F32 { bits: DEFAULT_M_FACT },
                n_master: 1,
                gap: 0,
            }),
            r.geometry == (MonitorGeometry {
                m_x: 0,
                m_y: 0,
                m_w: 0,
                m_h: 0,
                w_x: 0,
                w_y: 0,
                w_w: 0,
                w_h: 0,
            }),
            r.sel_tags == 0,
            r.tag_set@ == seq![0u32, 0u32],
            r.sel is None,
            r.lt == LayoutEnum::FIBONACCI,
            r.prev_lt == LayoutEnum::TILE,
            r.pertag is None,
    {
        WMMonitor {
            num: 0,
            lt_symbol: String::new(),
            layout: MonitorLayout::default(),
            geometry: MonitorGeometry::default(),
            sel_tags: 0,
            tag_set: [0, 0],
            sel: None,
            lt: LayoutEnum::FIBONACCI,
            prev_lt: LayoutEnum::TILE,
            pertag: None,
        }
    }

    /// The area that a rectangle shares with the usable area, no more than a
    /// coordinate holds.
    pub fn intersect_area(&self, x: i32, y: i32, w: i32, h: i32) -> (r: i32)
        ensures
            r == shared_area(self.geometry, x, y, w, h),
    {
        let across: i64 = overlap(x, w, self.geometry.w_x, self.geometry.w_w);
        let down: i64 = overlap(y, h, self.geometry.w_y, self.geometry.w_h);
        assert(0 <= across * down <= 10000000000 * 10000000000) by (nonlinear_arith)
            requires
                0 <= across <= 10000000000,
                0 <= down <= 10000000000,
        ;
        let area: i128 = (across as i128) * (down as i128);
        if area <= 2147483647 { area as i32 } else { 2147483647 }
    }

    /// Loads the settings of the tag in slot `tag`.
    fn apply_pertag_context(&mut self, tag: usize)
        ensures
            final(self)@ == old(self)@.loaded(tag as int),
    {
        let mut pertag: Option<Pertag> = None;
        std::mem::swap(&mut pertag, &mut self.pertag);
        if let Some(mut p) = pertag {
            let i: usize = p.clamp_tag(tag);
            p.prev_tag = p.cur_tag;
            p.cur_tag = i;
            self.layout = MonitorLayout {
                n_master: get_or(&p.n_masters, i, self.layout.n_master),
                m_fact: get_or(&p.m_facts, i, self.layout.m_fact),
                gap: get_or(&p.gaps, i, self.layout.gap),
            };
            self.lt = get_or(&p.lts, i, self.lt);
            self.prev_lt = get_or(&p.prev_lts, i, self.prev_lt);
            self.pertag = Some(p);
        }
        let mut symbol = String::new();
        symbol.append(self.lt.symbol());
        self.lt_symbol = symbol;
        proof {
            assert(self.lt_symbol@ =~= self.lt.symbol_of());
        }
    }

    /// The current tag, or `otherwise` where no tag has slots.
    fn current_or(&self, otherwise: usize) -> (r: usize)
        ensures
            r == self@.cur_tag_or(otherwise as int),
    {
        match &self.pertag {
            Some(p) => p.cur_tag,
            None => otherwise,
        }
    }

    /// Brings the tags of a mask into view, and returns the tag that is then the
    /// current one.
    pub fn view_tag(&mut self, target_tag_mask: u32, toggle: bool) -> (r: usize)
        requires
            toggle || target_tag_mask != 0 ==> old(self).sel_tags < 2,
            ({
                let tags = old(self)@.tags_viewed(target_tag_mask, toggle);
                tags != 0 && !old(self)@.all_viewed(tags) ==> old(self)@.cur_tag_or(1) <= 32
            }),
        ensures
            final(self)@ == old(self)@.viewed(target_tag_mask, toggle),
            r == ({
                let tags = old(self)@.tags_viewed(target_tag_mask, toggle);
                final(self)@.cur_tag_or(
                    if tags == 0 {
                        1
                    } else {
                        old(self)@.slot_viewed(tags)
                    },
                )
            }),
    {
        let ghost before = self@;
        let tags: u32 = if toggle {
            self.tag_set[self.sel_tags] ^ target_tag_mask
        } else {
            target_tag_mask
        };
        if tags == 0 {
            return self.current_or(1);
        }
        let other: usize = 1 - self.sel_tags;
        self.sel_tags = other;
        self.tag_set[other] = tags;
        let all: bool = match &self.pertag {
            Some(p) => p.is_all_tags(tags),
            None => false,
        };
        let slot: usize = if all {
            0
        } else {
            let cur: usize = self.current_or(1);
            if cur > 0 && tags & (1u32 << ((cur - 1) as u32)) > 0 {
                cur
            } else {
                proof {
                    zeros_bound(tags);
                }
                tags.trailing_zeros() as usize + 1
            }
        };
        self.apply_pertag_context(slot);
        proof {
            assert(self@ =~= before.viewed(target_tag_mask, toggle));
        }
        self.current_or(slot)
    }

    /// Loads the settings of the current tag again.
    pub fn reload_current_tag_context(&mut self)
        ensures
            final(self)@ == old(self)@.loaded(old(self)@.cur_tag_or(0)),
    {
        let cur: usize = self.current_or(0);
        self.apply_pertag_context(cur);
    }

    /// Writes the settings in view to the current tag.
    pub fn update_current_tag_layout_params(&mut self)
        ensures
            final(self)@ == old(self)@.saved(),
    {
        let ghost before = self@;
        let mut pertag: Option<Pertag> = None;
        std::mem::swap(&mut pertag, &mut self.pertag);
        if let Some(mut p) = pertag {
            let cur: usize = p.clamp_tag(p.cur_tag);
            put(&mut p.n_masters, cur, self.layout.n_master);
            put(&mut p.m_facts, cur, self.layout.m_fact);
            put(&mut p.gaps, cur, self.layout.gap);
            self.pertag = Some(p);
        }
        proof {
            assert(self@ =~= before.saved());
        }
    }

    /// The window that the current tag selects.
    pub fn get_selected_client_for_current_tag(&self) -> (r: Option<ClientKey>)
        ensures
            r == (match self@.pertag {
                Some(p) => at_or(p.sel, slot_in(p.sel.len() as int, p.cur_tag), None),
                None => None,
            }),
    {
        match &self.pertag {
            Some(p) => get_or(&p.sel, p.clamp_tag(p.cur_tag), None),
            None => None,
        }
    }

    /// Lets a tag that is not in view select `client`, so that viewing it opens
    /// on that window.
    pub fn set_selected_client_for_tag_mask(&mut self, tag_mask: u32, client: Option<ClientKey>)
        ensures
            final(self)@ == (if tag_mask == 0 || old(self)@.pertag is None {
                old(self)@
            } else {
                old(self)@.slot_selects(
                    slot_of(old(self)@.pertag->0.sel.len() as int, tag_mask),
                    client,
                )
            }),
    {
        let ghost before = self@;
        if tag_mask == 0 {
            return;
        }
        let mut pertag: Option<Pertag> = None;
        std::mem::swap(&mut pertag, &mut self.pertag);
        if let Some(mut p) = pertag {
            let i: usize = p.slot_for_mask(tag_mask);
            put(&mut p.sel, i, client);
            self.pertag = Some(p);
        }
        proof {
            if before.pertag is Some {
                assert(self@ =~= before.slot_selects(
                    slot_of(before.pertag->0.sel.len() as int, tag_mask),
                    client,
                ));
            }
        }
    }

    /// Selects a window on the monitor and on its current tag.
    pub fn set_selected_client_for_current_tag(&mut self, client: Option<ClientKey>)
        ensures
            final(self)@ == ({
                let before = old(self)@;
                let slot = match before.pertag {
                    Some(p) => slot_in(p.sel.len() as int, p.cur_tag),
                    None => 0,
                };
                MonitorView { sel: client, ..before.slot_selects(slot, client) }
            }),
    {
        let mut pertag: Option<Pertag> = None;
        std::mem::swap(&mut pertag, &mut self.pertag);
        if let Some(mut p) = pertag {
            let cur: usize = p.clamp_tag(p.cur_tag);
            put(&mut p.sel, cur, client);
            self.pertag = Some(p);
        }
        self.sel = client;
    }

    /// Lets the monitor and all its tags forget a window that has gone.
    pub fn clear_selection_of(&mut self, client: ClientKey)
        ensures
            final(self)@ == old(self)@.forgetting(client),
    {
        let ghost before = self@;
        if let Some(selected) = self.sel {
            if selected == client {
                self.sel = None;
            }
        }
        let mut pertag: Option<Pertag> = None;
        std::mem::swap(&mut pertag, &mut self.pertag);
        if let Some(mut p) = pertag {
            let ghost was = p@;
            let mut i: usize = 0;
            while i < p.sel.len()
                invariant
                    i <= p.sel@.len() == was.sel.len(),
                    p@ == (TagSlots { sel: p.sel@, ..was }),
                    forall|j: int|
                        0 <= j < was.sel.len() ==> #[trigger] p.sel@[j] == (if j < i
                            && was.sel[j] == Some(client) {
                            None
                        } else {
                            was.sel[j]
                        }),
                decreases was.sel.len() - i,
            {
                if let Some(selected) = p.sel[i] {
                    if selected == client {
                        p.sel.set(i, None);
                    }
                }
                i = i + 1;
            }
            self.pertag = Some(p);
            proof {
                assert(self@.pertag->0.sel =~= before.forgetting(client).pertag->0.sel);
            }
        }
    }

    /// The tags in view.
    pub fn get_active_tags(&self) -> (r: u32)
        ensures
            r == self.tag_set@[(self.sel_tags % 2) as int],
    {
        let i: usize = self.sel_tags % 2;
        self.tag_set[i]
    }

    /// How a monitor reads.
    pub fn to_string(&self) -> (r: String)
        ensures
            r@ == "WMMonitor { num: "@ + decimal(self.num as int) + ", geometry: "@
                + self.geometry.text() + ", sel: "@ + (if self.sel is Some {
                "true"@
            } else {
                "false"@
            }) + " }"@,
    {
        let mut r = String::new();
        r.append("WMMonitor { num: ");
        push_int(&mut r, self.num as i64);
        r.append(", geometry: ");
        self.geometry.push_to(&mut r);
        r.append(", sel: ");
        r.append(if self.sel.is_some() { "true" } else { "false" });
        r.append(" }");
        r
    }
}

/// How much two stretches share, never below zero.
fn overlap(a: i32, a_len: i32, b: i32, b_len: i32) -> (r: i64)
    ensures
        r == larger(smaller(a + a_len, b + b_len) - larger(a as int, b as int), 0),
        0 <= r <= 10000000000,
{
    let a_end: i64 = a as i64 + a_len as i64;
    let b_end: i64 = b as i64 + b_len as i64;
    let end: i64 = if a_end <= b_end { a_end } else { b_end };
    let start: i64 = if a >= b { a as i64 } else { b as i64 };
    if end - start >= 0 { end - start } else { 0 }
}

/// The bit of tag `tag`, none past the last.
pub open spec fn tag_bit(tag: int) -> u32 {
    if 1 <= tag <= 32 {
        1u32 << ((tag - 1) as u32)
    } else {
        0
    }
}

impl MonitorView {
    /// The slots brought to `tags_length` tags, new ones as the settings in
    /// view.
    pub open spec fn with_tag_slots(self, tags_length: int) -> Option<TagSlots> {
        match self.pertag {
            Some(p) => Some(
                p.resized(
                    tags_length,
                    self.layout.n_master,
                    self.layout.m_fact,
                    self.layout.gap,
                    self.lt,
                    self.prev_lt,
                    at_or(p.show_bars, 0, true),
                ),
            ),
            None => None,
        }
    }

    /// The tag to view when none of the tags in view is left: the current one,
    /// where it still exists, else the first.
    pub open spec fn live_tag(self, tags_length: int, tagmask: u32) -> int {
        let p = self.with_tag_slots(tags_length)->0;
        let cur = if p.cur_tag == 0 || p.cur_tag > tags_length {
            smaller(1, tags_length)
        } else {
            p.cur_tag
        };
        if tag_bit(cur) & tagmask == 0 {
            1
        } else {
            cur
        }
    }

    /// The monitor once there are `tags_length` tags, those of `tagmask`.
    pub open spec fn synced(self, tags_length: int, tagmask: u32) -> MonitorView {
        let i = self.sel_tags as int % 2;
        let masked = Seq::new(2, |k: int| self.tag_set[k] & tagmask);
        let slots = self.with_tag_slots(tags_length);
        if masked[i] != 0 {
            let ready = MonitorView { tag_set: masked, pertag: slots, ..self };
            ready.loaded(ready.cur_tag_or(0))
        } else if slots is Some {
            let cur = self.live_tag(tags_length, tagmask);
            let bit = if tag_bit(cur) & tagmask == 0 {
                1u32
            } else {
                tag_bit(cur) & tagmask
            };
            let ready = MonitorView {
                tag_set: masked.update(i, bit),
                pertag: Some(TagSlots { cur_tag: cur, ..slots->0 }),
                ..self
            };
            ready.loaded(cur)
        } else {
            let ready = MonitorView { tag_set: masked.update(i, 1u32), pertag: slots, ..self };
            ready.loaded(0)
        }
    }
}

impl WMMonitor {
    /// Follows a change of the number of tags: every tag gets a slot, and tags
    /// that are gone leave the view.
    pub fn sync_tag_slots(&mut self, tags_length: usize, tagmask: u32)
        requires
            tags_length > 0 || old(self).pertag is None || old(self).tag_set@[(
            old(self).sel_tags % 2) as int] & tagmask != 0,
        ensures
            final(self)@ == old(self)@.synced(tags_length as int, tagmask),
    {
        let ghost before = self@;
        let i: usize = self.sel_tags % 2;
        let mut pertag: Option<Pertag> = None;
        std::mem::swap(&mut pertag, &mut self.pertag);
        if let Some(mut p) = pertag {
            let show_bar: bool = get_or(&p.show_bars, 0, true);
            p.resize_for_tags(
                tags_length,
                self.layout.n_master,
                self.layout.m_fact,
                self.layout.gap,
                self.lt,
                self.prev_lt,
                show_bar,
            );
            self.pertag = Some(p);
        }
        assert(self@.pertag == before.with_tag_slots(tags_length as int));
        self.tag_set[0] = self.tag_set[0] & tagmask;
        self.tag_set[1] = self.tag_set[1] & tagmask;
        let ghost masked = Seq::new(2, |k: int| before.tag_set[k] & tagmask);
        assert(self.tag_set@ =~= masked);
        if self.tag_set[i] == 0 {
            let mut pertag: Option<Pertag> = None;
            std::mem::swap(&mut pertag, &mut self.pertag);
            if let Some(mut p) = pertag {
                if p.cur_tag == 0 || p.cur_tag > tags_length {
                    p.cur_tag = 1;
                }
                let bit: u32 = if p.cur_tag <= 32 {
                    1u32 << ((p.cur_tag - 1) as u32)
                } else {
                    0
                };
                let kept: u32 = bit & tagmask;
                proof {
                    assert(0u32 & tagmask == 0 && (1u32 & tagmask == 0 || 1u32 & tagmask == 1))
                        by (bit_vector);
                }
                if kept == 0 {
                    self.tag_set[i] = 1;
                    p.cur_tag = 1;
                } else {
                    self.tag_set[i] = kept;
                }
                let ghost cur = p.cur_tag as int;
                self.pertag = Some(p);
                proof {
                    first_bit();
                    assert(cur == before.live_tag(tags_length as int, tagmask));
                    assert(self.tag_set@ =~= masked.update(
                        i as int,
                        if tag_bit(cur) & tagmask == 0 {
                            1u32
                        } else {
                            tag_bit(cur) & tagmask
                        },
                    ));
                }
            } else {
                self.tag_set[i] = 1;
                assert(self.tag_set@ =~= masked.update(i as int, 1u32));
            }
        }
        self.reload_current_tag_context();
        proof {
            assert(self@ =~= before.synced(tags_length as int, tagmask));
        }
    }
}

proof fn first_bit()
    ensures
        tag_bit(1) == 1,
{
    assert(1u32 << 0u32 == 1u32) by (bit_vector);
}

/// Viewing a tag and viewing it again shows the same tags, and viewing no tag
/// changes nothing.
pub proof fn views_show_their_tags(monitor: MonitorView, mask: u32)
    requires
        monitor.sel_tags < 2,
        monitor.tag_set.len() == 2,
    ensures
        ({
            let after = monitor.viewed(mask, false);
            &&& after.sel_tags < 2
            &&& mask != 0 ==> after.tag_set[after.sel_tags as int] == mask
            &&& mask != 0 ==> after.tag_set[1 - after.sel_tags]
                == monitor.tag_set[monitor.sel_tags as int]
        }),
        monitor.viewed(0, false) == monitor,
{
}

/// After a change of the number of tags some tag is in view.
pub proof fn some_tag_stays_in_view(monitor: MonitorView, tags_length: int, tagmask: u32)
    requires
        monitor.tag_set.len() == 2,
    ensures
        ({
            let after = monitor.synced(tags_length, tagmask);
            after.tag_set[after.sel_tags as int % 2] != 0
        }),
{
}

/// A window that was forgotten is selected nowhere, and no other selection
/// changes.
pub proof fn forgotten_means_gone(monitor: MonitorView, client: ClientKey, i: int)
    ensures
        ({
            let after = monitor.forgetting(client);
            &&& after.sel != Some(client)
            &&& monitor.sel != Some(client) ==> after.sel == monitor.sel
            &&& monitor.pertag is Some && 0 <= i < monitor.pertag->0.sel.len() ==> {
                &&& after.pertag->0.sel[i] != Some(client)
                &&& monitor.pertag->0.sel[i] != Some(client) ==> after.pertag->0.sel[i]
                    == monitor.pertag->0.sel[i]
            }
        }),
{
}

/// The settings in view, once written to the current tag, are what loading the
/// tag again gives back.
pub proof fn saved_settings_are_loaded(monitor: MonitorView)
    requires
        monitor.pertag is Some,
        monitor.pertag->0.has_slots(monitor.pertag->0.sel.len() as int),
        0 <= monitor.pertag->0.cur_tag < monitor.pertag->0.sel.len(),
    ensures
        monitor.saved().loaded(monitor.pertag->0.cur_tag).layout == monitor.layout,
{
}

} // verus!
