//! The settings that each tag of a monitor keeps for itself.
use super::{ClientKey, fit, fitted};
use crate::catalog::LayoutEnum;
use crate::geometry::{clamped, smaller};
use crate::ieee::F32;
use vstd::prelude::*;
use vstd::std_specs::bits::u32_trailing_zeros;

verus! {

/// One slot for each tag, after slot 0 for the view of all tags.
#[derive(Debug, Clone, PartialEq)]
pub struct Pertag {
    pub cur_tag: usize,
    pub prev_tag: usize,
    pub n_masters: Vec<u32>,
    pub m_facts: Vec<F32>,
    pub gaps: Vec<i32>,
    pub lts: Vec<LayoutEnum>,
    pub prev_lts: Vec<LayoutEnum>,
    pub show_bars: Vec<bool>,
    pub sel: Vec<Option<ClientKey>>,
}

/// The mask of `tags` tags.
pub open spec fn all_tags(tags: int) -> u32 {
    if tags >= 32 {
        u32::MAX
    } else {
        ((1u32 << (tags as u32)) - 1) as u32
    }
}

/// Whether a mask selects every one of `tags` tags. A single tag has no view
/// of all.
pub open spec fn selects_all(tags: int, mask: u32) -> bool {
    mask == u32::MAX || (tags >= 2 && mask & all_tags(tags) == all_tags(tags))
}

/// `idx` brought into a list of `len` slots.
pub open spec fn slot_in(len: int, idx: int) -> int {
    if len == 0 {
        0
    } else {
        smaller(idx, len - 1)
    }
}

/// The slot that a mask addresses: 0 for the view of all, else that of its
/// lowest tag.
pub open spec fn slot_of(len: int, mask: u32) -> int {
    let tags = if len > 0 {
        len - 1
    } else {
        0
    };
    if selects_all(tags, mask) {
        0
    } else {
        slot_in(len, u32_trailing_zeros(mask) + 1)
    }
}

/// `len` times `value`.
pub open spec fn repeated<T>(len: int, value: T) -> Seq<T> {
    Seq::new(len as nat, |i: int| value)
}

/// The slots as plain values.
#[verifier::ext_equal]
pub struct TagSlots {
    pub cur_tag: int,
    pub prev_tag: int,
    pub n_masters: Seq<u32>,
    pub m_facts: Seq<F32>,
    pub gaps: Seq<i32>,
    pub lts: Seq<LayoutEnum>,
    pub prev_lts: Seq<LayoutEnum>,
    pub show_bars: Seq<bool>,
    pub sel: Seq<Option<ClientKey>>,
}

impl View for Pertag {
    type V = TagSlots;

    open spec fn view(&self) -> TagSlots {
        TagSlots {
            cur_tag: self.cur_tag as int,
            prev_tag: self.prev_tag as int,
            n_masters: self.n_masters@,
            m_facts: self.m_facts@,
            gaps: self.gaps@,
            lts: self.lts@,
            prev_lts: self.prev_lts@,
            show_bars: self.show_bars@,
            sel: self.sel@,
        }
    }
}

impl TagSlots {
    /// Every list has `len` slots.
    pub open spec fn has_slots(self, len: int) -> bool {
        &&& self.n_masters.len() == len
        &&& self.m_facts.len() == len
        &&& self.gaps.len() == len
        &&& self.lts.len() == len
        &&& self.prev_lts.len() == len
        &&& self.show_bars.len() == len
        &&& self.sel.len() == len
    }

    /// The number of tags.
    pub open spec fn tags(self) -> int {
        if self.sel.len() > 0 {
            self.sel.len() - 1
        } else {
            0
        }
    }

    /// These slots for `tags_length` tags, new ones set to the given values.
    pub open spec fn resized(
        self,
        tags_length: int,
        n_master: u32,
        m_fact: F32,
        gap: i32,
        lt: LayoutEnum,
        prev_lt: LayoutEnum,
        show_bar: bool,
    ) -> TagSlots {
        let tags = clamped(tags_length, 1, 31);
        let len = tags + 1;
        if self.sel.len() == len {
            self
        } else {
            let cur_tag = smaller(self.cur_tag, tags);
            TagSlots {
                cur_tag,
                prev_tag: if self.prev_tag >= len {
                    cur_tag
                } else {
                    self.prev_tag
                },
                n_masters: fitted(self.n_masters, len, n_master),
                m_facts: fitted(self.m_facts, len, m_fact),
                gaps: fitted(self.gaps, len, gap),
                lts: fitted(self.lts, len, lt),
                prev_lts: fitted(self.prev_lts, len, prev_lt),
                show_bars: fitted(self.show_bars, len, show_bar),
                sel: fitted(self.sel, len, None),
            }
        }
    }
}

impl Pertag {
    /// Fresh slots for `tags_length` tags and the view of all.
    pub fn new(show_bar: bool, tags_length: usize) -> (r: Pertag)
        requires
            tags_length < usize::MAX,
        ensures
            r.cur_tag == 0,
            r.prev_tag == 0,
            r.n_masters@ == repeated(tags_length + 1, 0u32),
            r.m_facts@ == repeated(tags_length + 1, F32 { bits: 0 }),
            r.gaps@ == repeated(tags_length + 1, 0i32),
            r.lts@ == repeated(tags_length + 1, LayoutEnum::FIBONACCI),
            r.prev_lts@ == repeated(tags_length + 1, LayoutEnum::TILE),
            r.show_bars@ == repeated(tags_length + 1, show_bar),
            r.sel@ == repeated(tags_length + 1, None::<ClientKey>),
    {
        let len: usize = tags_length + 1;
        Pertag {
            cur_tag: 0,
            prev_tag: 0,
            n_masters: filled(len, 0u32),
            m_facts: filled(len, F32 { bits: 0 }),
            gaps: filled(len, 0i32),
            lts: filled(len, LayoutEnum::FIBONACCI),
            prev_lts: filled(len, LayoutEnum::TILE),
            show_bars: filled(len, show_bar),
            sel: filled(len, None),
        }
    }

    /// Whether a mask selects every tag of the monitor.
    pub fn is_all_tags(&self, mask: u32) -> (r: bool)
        ensures
            r == selects_all(self@.tags(), mask),
    {
        let tags: usize = if self.sel.len() > 0 { self.sel.len() - 1 } else { 0 };
        if mask == u32::MAX {
            return true;
        }
        if tags < 2 {
            return false;
        }
        let all: u32 = if tags >= 32 {
            u32::MAX
        } else {
            let bit: u32 = tags as u32;
            assert(1u32 << bit >= 1) by (bit_vector)
                requires
                    bit < 32,
            ;
            (1u32 << bit) - 1
        };
        mask & all == all
    }

    /// Brings a slot into the range of the slots.
    pub fn clamp_tag(&self, idx: usize) -> (r: usize)
        ensures
            r == slot_in(self.sel@.len() as int, idx as int),
    {
        let n: usize = self.sel.len();
        if n == 0 {
            0
        } else if idx < n - 1 {
            idx
        } else {
            n - 1
        }
    }

    /// The slot that a mask addresses.
    pub fn slot_for_mask(&self, mask: u32) -> (r: usize)
        ensures
            r == slot_of(self.sel@.len() as int, mask),
    {
        if self.is_all_tags(mask) {
            0
        } else {
            proof {
                zeros_bound(mask);
            }
            self.clamp_tag(mask.trailing_zeros() as usize + 1)
        }
    }

    /// Gives every list a slot for each tag. New slots get the given values,
    /// so that a tag that was just configured can be viewed.
    pub fn resize_for_tags(
        &mut self,
        tags_length: usize,
        n_master: u32,
        m_fact: F32,
        gap: i32,
        lt: LayoutEnum,
        prev_lt: LayoutEnum,
        show_bar: bool,
    )
        ensures
            final(self)@ == old(self)@.resized(
                tags_length as int,
                n_master,
                m_fact,
                gap,
                lt,
                prev_lt,
                show_bar,
            ),
    {
        let tags: usize = if tags_length < 1 {
            1
        } else if tags_length > 31 {
            31
        } else {
            tags_length
        };
        let len: usize = tags + 1;
        if self.sel.len() == len {
            return;
        }
        fit(&mut self.n_masters, len, n_master);
        fit(&mut self.m_facts, len, m_fact);
        fit(&mut self.gaps, len, gap);
        fit(&mut self.lts, len, lt);
        fit(&mut self.prev_lts, len, prev_lt);
        fit(&mut self.show_bars, len, show_bar);
        fit(&mut self.sel, len, None);
        if self.cur_tag >= len {
            self.cur_tag = tags;
        }
        if self.prev_tag >= len {
            self.prev_tag = self.cur_tag;
        }
    }
}

fn filled<T: Copy>(len: usize, value: T) -> (r: Vec<T>)
    ensures
        r@ == repeated(len as int, value),
{
    let mut r: Vec<T> = Vec::new();
    fit(&mut r, len, value);
    r
}

/// A mask has at most 32 zeros below its lowest tag.
pub proof fn zeros_bound(mask: u32)
    ensures
        u32_trailing_zeros(mask) <= 32,
        mask != 0 ==> u32_trailing_zeros(mask) < 32,
{
    vstd::std_specs::bits::axiom_u32_trailing_zeros(mask);
}

/// However the number of tags changes, all lists keep the same number of
/// slots, the slots that stay keep their values, and the current tag is one of
/// them.
pub proof fn resizing_keeps_slots(
    before: TagSlots,
    tags_length: int,
    n_master: u32,
    m_fact: F32,
    gap: i32,
    lt: LayoutEnum,
    prev_lt: LayoutEnum,
    show_bar: bool,
)
    requires
        before.has_slots(before.sel.len() as int),
        0 <= before.cur_tag < before.sel.len(),
        0 <= before.prev_tag < before.sel.len(),
    ensures
        ({
            let after = before.resized(tags_length, n_master, m_fact, gap, lt, prev_lt, show_bar);
            &&& after.has_slots(clamped(tags_length, 1, 31) + 1)
            &&& 0 <= after.cur_tag < after.sel.len()
            &&& 0 <= after.prev_tag < after.sel.len()
            &&& forall|i: int|
                0 <= i < before.sel.len() && i < after.sel.len() ==> {
                    &&& #[trigger] after.n_masters[i] == before.n_masters[i]
                    &&& after.m_facts[i] == before.m_facts[i]
                    &&& after.gaps[i] == before.gaps[i]
                    &&& after.lts[i] == before.lts[i]
                    &&& after.prev_lts[i] == before.prev_lts[i]
                    &&& after.show_bars[i] == before.show_bars[i]
                    &&& after.sel[i] == before.sel[i]
                }
        }),
{
}

} // verus!
