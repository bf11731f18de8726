//! What viewing, selecting and following tags come to.
use super::ClientKey;
use super::monitor::{MonitorView, shared_area, tag_bit};
use super::tags::{TagSlots, all_tags, selects_all, slot_of};
use crate::models::monitor::MonitorGeometry;
use vstd::prelude::*;
use vstd::std_specs::bits::u32_trailing_zeros;

verus! {

/// Whether a monitor has a slot for each of its tags in every list, and one for
/// the view of all.
pub open spec fn has_all_slots(monitor: MonitorView) -> bool {
    &&& monitor.sel_tags < 2
    &&& monitor.tag_set.len() == 2
    &&& monitor.pertag is Some
    &&& ({
        let p = monitor.pertag->0;
        let len = p.sel.len();
        &&& 2 <= len <= 32
        &&& p.n_masters.len() == len
        &&& p.m_facts.len() == len
        &&& p.gaps.len() == len
        &&& p.lts.len() == len
        &&& p.prev_lts.len() == len
        &&& p.show_bars.len() == len
        &&& 0 <= p.cur_tag < len
    })
}

/// Whether the settings in view are those of slot `s` of the monitor as it was,
/// and nothing that the slots hold changed.
pub open spec fn shows_slot(before: MonitorView, after: MonitorView, s: int) -> bool {
    let p = before.pertag->0;
    &&& after.lt == p.lts[s]
    &&& after.prev_lt == p.prev_lts[s]
    &&& after.symbol == p.lts[s].symbol_of()
    &&& after.layout.n_master == p.n_masters[s]
    &&& after.layout.m_fact == p.m_facts[s]
    &&& after.layout.gap == p.gaps[s]
    &&& after.pertag == Some(TagSlots { cur_tag: s, prev_tag: p.cur_tag, ..p })
    &&& after.num == before.num
    &&& after.geometry == before.geometry
    &&& after.sel == before.sel
}

proof fn one_tag(k: u32)
    requires
        k < 31,
    ensures
        (1u32 << k) != 0,
        (1u32 << k) != u32::MAX,
        u32_trailing_zeros(1u32 << k) == k,
        forall|c: u32| c < 32 ==> ((1u32 << k) & #[trigger] (1u32 << c) > 0 <==> c == k),
        forall|tags: int| #![trigger selects_all(tags, 1u32 << k)] !selects_all(tags, 1u32 << k),
{
    let m = 1u32 << k;
    assert((1u32 << k) != 0 && (1u32 << k) != u32::MAX) by (bit_vector)
        requires
            k < 31,
    ;
    vstd::std_specs::bits::axiom_u32_trailing_zeros(m);
    let z = u32_trailing_zeros(m);
    assert(z == k) by (bit_vector)
        requires
            k < 31,
            z < 32,
            ((1u32 << k) >> z) & 1u32 == 1u32,
    ;
    assert forall|c: u32| c < 32 implies ((1u32 << k) & #[trigger] (1u32 << c) > 0 <==> c
        == k) by {
        assert((1u32 << k) & (1u32 << c) > 0 <==> c == k) by (bit_vector)
            requires
                k < 31,
                c < 32,
        ;
    }
    assert forall|tags: int|
        #![trigger selects_all(tags, 1u32 << k)]
        !selects_all(tags, 1u32 << k) by {
        if tags >= 32 {
            assert((1u32 << k) & u32::MAX != u32::MAX) by (bit_vector)
                requires
                    k < 31,
            ;
        } else if tags >= 2 {
            let t = tags as u32;
            assert((1u32 << k) & (((1u32 << t) - 1) as u32) != ((1u32 << t) - 1) as u32)
                by (bit_vector)
                requires
                    k < 31,
                    2 <= t < 32,
            ;
        }
    }
}

/// Viewing one tag brings the settings that this tag keeps into view, whatever
/// was in view before: its layout with its symbol, its number of masters, their
/// part, its gap. The tag is the current one, and what the tags keep does not
/// change.
pub proof fn a_tag_is_shown_as_it_was_left(monitor: MonitorView, tag: u32)
    requires
        has_all_slots(monitor),
        1 <= tag < monitor.pertag->0.sel.len(),
    ensures
        ({
            let mask = 1u32 << ((tag - 1) as u32);
            let after = monitor.viewed(mask, false);
            &&& shows_slot(monitor, after, tag as int)
            &&& after.tag_set[after.sel_tags as int] == mask
            &&& after.sel_tags == 1 - monitor.sel_tags
        }),
{
    one_tag((tag - 1) as u32);
}

/// Two tags that keep different layouts are shown with different layouts.
pub proof fn different_tags_are_shown_differently(
    monitor: MonitorView,
    other: MonitorView,
    a: u32,
    b: u32,
)
    requires
        has_all_slots(monitor),
        has_all_slots(other),
        monitor.pertag->0.lts == other.pertag->0.lts,
        monitor.pertag->0.sel.len() == other.pertag->0.sel.len(),
        1 <= a < monitor.pertag->0.sel.len(),
        1 <= b < monitor.pertag->0.sel.len(),
    ensures
        ({
            let first = monitor.viewed(1u32 << ((a - 1) as u32), false);
            let second = other.viewed(1u32 << ((b - 1) as u32), false);
            first.lt == second.lt <==> monitor.pertag->0.lts[a as int]
                == monitor.pertag->0.lts[b as int]
        }),
{
    a_tag_is_shown_as_it_was_left(monitor, a);
    a_tag_is_shown_as_it_was_left(other, b);
}

/// Whatever tags are viewed, one slot comes into view with all its settings:
/// that of the view of all where all tags are asked for, the current one while
/// its tag is among them, else that of the lowest of them.
pub proof fn a_view_shows_one_slot(monitor: MonitorView, mask: u32, toggle: bool)
    requires
        has_all_slots(monitor),
        ({
            let tags = if toggle {
                monitor.tag_set[monitor.sel_tags as int] ^ mask
            } else {
                mask
            };
            tags != 0 && (tags == u32::MAX || tags < 1u32 << ((monitor.pertag->0.sel.len()
                - 1) as u32))
        }),
    ensures
        ({
            let tags = if toggle {
                monitor.tag_set[monitor.sel_tags as int] ^ mask
            } else {
                mask
            };
            let after = monitor.viewed(mask, toggle);
            let s = after.pertag->0.cur_tag;
            let cur = monitor.pertag->0.cur_tag;
            &&& after.tag_set[after.sel_tags as int] == tags
            &&& after.tag_set[1 - after.sel_tags] == monitor.tag_set[monitor.sel_tags as int]
            &&& 0 <= s < monitor.pertag->0.sel.len()
            &&& shows_slot(monitor, after, s)
            &&& tags == u32::MAX ==> s == 0
            &&& s > 0 ==> tags & (1u32 << ((s - 1) as u32)) > 0
            &&& s > 0 && cur > 0 && tags & (1u32 << ((cur - 1) as u32)) > 0 ==> s == cur
            &&& s > 0 && s != cur ==> forall|k: u32|
                k < s - 1 ==> tags & #[trigger] (1u32 << k) == 0
            &&& s == 0 ==> forall|k: u32|
                k < monitor.pertag->0.sel.len() - 1 ==> tags & #[trigger] (1u32 << k) > 0
        }),
{
    let tags = if toggle {
        monitor.tag_set[monitor.sel_tags as int] ^ mask
    } else {
        mask
    };
    let p = monitor.pertag->0;
    let len = p.sel.len();
    vstd::std_specs::bits::axiom_u32_trailing_zeros(tags);
    let z = u32_trailing_zeros(tags);
    let n = (len - 1) as u32;
    if selects_all(len - 1, tags) {
        assert forall|k: u32| k < len - 1 implies tags & #[trigger] (1u32 << k) > 0 by {
            let all = all_tags(len - 1);
            if tags == u32::MAX {
                assert(u32::MAX & (1u32 << k) > 0) by (bit_vector)
                    requires
                        k < 31,
                ;
            } else {
                assert(tags & (1u32 << k) > 0) by (bit_vector)
                    requires
                        k < n,
                        n <= 31,
                        all == ((1u32 << n) - 1) as u32,
                        tags & all == all,
                ;
            }
        }
    } else {
        assert(z < n && tags & (1u32 << z) > 0) by (bit_vector)
            requires
                tags < 1u32 << n,
                n <= 31,
                z < 32,
                (tags >> z) & 1u32 == 1u32,
        ;
        assert forall|k: u32| k < z implies tags & #[trigger] (1u32 << k) == 0 by {
            assert((tags >> k) & 1u32 == 0u32);
            assert(tags & (1u32 << k) == 0) by (bit_vector)
                requires
                    k < 32,
                    (tags >> k) & 1u32 == 0u32,
            ;
        }
    }
}

/// The settings in view are written to the current tag and to no other, and
/// come back when the tag is viewed again.
pub proof fn settings_are_kept_by_their_tag(monitor: MonitorView, tag: u32, other: int)
    requires
        has_all_slots(monitor),
        1 <= tag < monitor.pertag->0.sel.len(),
        monitor.pertag->0.cur_tag == tag,
        0 <= other < monitor.pertag->0.sel.len(),
        other != tag,
    ensures
        ({
            let p = monitor.pertag->0;
            let q = monitor.saved().pertag->0;
            &&& q.n_masters[tag as int] == monitor.layout.n_master
            &&& q.m_facts[tag as int] == monitor.layout.m_fact
            &&& q.gaps[tag as int] == monitor.layout.gap
            &&& q.n_masters[other] == p.n_masters[other]
            &&& q.m_facts[other] == p.m_facts[other]
            &&& q.gaps[other] == p.gaps[other]
            &&& q.lts == p.lts
            &&& q.sel == p.sel
            &&& q.cur_tag == p.cur_tag
        }),
        monitor.saved().viewed(1u32 << ((tag - 1) as u32), false).layout == monitor.layout,
{
    one_tag((tag - 1) as u32);
}

/// A window selected for a tag is the one that the tag selects once it is in
/// view; what the other tags select does not change.
pub proof fn a_tag_opens_on_its_window(
    monitor: MonitorView,
    tag: u32,
    client: Option<ClientKey>,
    other: int,
)
    requires
        has_all_slots(monitor),
        1 <= tag < monitor.pertag->0.sel.len(),
        0 <= other < monitor.pertag->0.sel.len(),
        other != tag,
    ensures
        ({
            let mask = 1u32 << ((tag - 1) as u32);
            let slot = slot_of(monitor.pertag->0.sel.len() as int, mask);
            let after = monitor.slot_selects(slot, client);
            let shown = after.viewed(mask, false).pertag->0;
            &&& slot == tag
            &&& after.pertag->0.sel[tag as int] == client
            &&& after.pertag->0.sel[other] == monitor.pertag->0.sel[other]
            &&& shown.sel[shown.cur_tag] == client
        }),
{
    one_tag((tag - 1) as u32);
    let mask = 1u32 << ((tag - 1) as u32);
    let slot = slot_of(monitor.pertag->0.sel.len() as int, mask);
    let after = monitor.slot_selects(slot, client);
    assert(has_all_slots(after));
    a_tag_is_shown_as_it_was_left(after, tag);
}

/// After a change of the tags none that is gone is in view, the tags in view
/// that stay are still in view, and the settings in view are those of the
/// current tag.
pub proof fn only_live_tags_are_in_view(monitor: MonitorView, tags_length: int, tagmask: u32)
    requires
        has_all_slots(monitor),
        1 <= tags_length <= 31,
        tagmask & 1 == 1,
    ensures
        ({
            let after = monitor.synced(tags_length, tagmask);
            let i = monitor.sel_tags as int;
            let p = after.pertag->0;
            &&& after.sel_tags == monitor.sel_tags
            &&& after.tag_set[i] & !tagmask == 0
            &&& after.tag_set[1 - i] == monitor.tag_set[1 - i] & tagmask
            &&& monitor.tag_set[i] & tagmask != 0 ==> after.tag_set[i] == monitor.tag_set[i]
                & tagmask
            &&& p.sel.len() == tags_length + 1
            &&& 0 <= p.cur_tag <= tags_length
            &&& after.lt == p.lts[p.cur_tag]
            &&& after.symbol == p.lts[p.cur_tag].symbol_of()
            &&& after.layout.n_master == p.n_masters[p.cur_tag]
            &&& after.layout.m_fact == p.m_facts[p.cur_tag]
            &&& after.layout.gap == p.gaps[p.cur_tag]
        }),
{
    let i = monitor.sel_tags as int;
    let a = monitor.tag_set[i];
    assert((a & tagmask) & !tagmask == 0 && 1u32 & !tagmask == 0) by (bit_vector)
        requires
            tagmask & 1 == 1,
    ;
    let cur = monitor.live_tag(tags_length, tagmask);
    let b = super::monitor::tag_bit(cur);
    assert((b & tagmask) & !tagmask == 0) by (bit_vector);
}

/// A rectangle shares nothing with the usable area of a monitor beside it, and
/// all of itself with one that holds it; it never shares more than it has.
pub proof fn shares_are_what_overlaps(g: MonitorGeometry, x: i32, y: i32, w: i32, h: i32)
    requires
        0 <= w,
        0 <= h,
        0 <= g.w_w,
        0 <= g.w_h,
    ensures
        x + w <= g.w_x || g.w_x + g.w_w <= x || y + h <= g.w_y || g.w_y + g.w_h <= y
            ==> shared_area(g, x, y, w, h) == 0,
        g.w_x <= x && x + w <= g.w_x + g.w_w && g.w_y <= y && y + h <= g.w_y + g.w_h && w * h
            <= i32::MAX ==> shared_area(g, x, y, w, h) == w * h,
        0 <= shared_area(g, x, y, w, h) <= w * h,
{
    let across = crate::geometry::larger(
        crate::geometry::smaller(x + w, g.w_x + g.w_w) - crate::geometry::larger(
            x as int,
            g.w_x as int,
        ),
        0,
    );
    let down = crate::geometry::larger(
        crate::geometry::smaller(y + h, g.w_y + g.w_h) - crate::geometry::larger(
            y as int,
            g.w_y as int,
        ),
        0,
    );
    assert(0 <= across * down <= w * h) by (nonlinear_arith)
        requires
            0 <= across <= w,
            0 <= down <= h,
    ;
    assert(across == 0 || down == 0 ==> across * down == 0) by (nonlinear_arith);
}

/// When none of the tags in view is left, the current tag comes into view where
/// it is still one of the tags, and the first tag otherwise.
pub proof fn the_current_tag_stays_where_it_can(
    monitor: MonitorView,
    tags_length: int,
    tagmask: u32,
)
    requires
        monitor.pertag is Some,
        1 <= tags_length <= 31,
    ensures
        ({
            let cur = monitor.with_tag_slots(tags_length)->0.cur_tag;
            let there = 1 <= cur <= tags_length && tag_bit(cur) & tagmask != 0;
            &&& there ==> monitor.live_tag(tags_length, tagmask) == cur
            &&& cur > tags_length || cur == 0 ==> monitor.live_tag(tags_length, tagmask) == 1
        }),
{
}

/// A tag that is added starts with the settings in view, and shows the bar where
/// the view of all tags does.
pub proof fn added_tags_start_with_the_view(monitor: MonitorView, tags_length: int, i: int)
    requires
        monitor.pertag is Some,
        monitor.pertag->0.has_slots(monitor.pertag->0.sel.len() as int),
        0 < monitor.pertag->0.sel.len() <= i <= tags_length <= 31,
    ensures
        ({
            let p = monitor.pertag->0;
            let after = monitor.with_tag_slots(tags_length)->0;
            &&& after.n_masters[i] == monitor.layout.n_master
            &&& after.m_facts[i] == monitor.layout.m_fact
            &&& after.gaps[i] == monitor.layout.gap
            &&& after.lts[i] == monitor.lt
            &&& after.prev_lts[i] == monitor.prev_lt
            &&& after.show_bars[i] == p.show_bars[0]
            &&& after.sel[i] is None
        }),
{
}

} // verus!
