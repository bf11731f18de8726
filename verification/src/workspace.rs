//! Tags of windows and views.
use crate::models::monitor::WMMonitor;
use vstd::prelude::*;

verus! {

/// The tags of a window after a request: those of the mask, or the window's own
/// with those of the mask flipped.
pub open spec fn new_tags(current_tags: u32, mask: u32, toggle: bool) -> u32 {
    if toggle {
        current_tags ^ mask
    } else {
        mask
    }
}

/// Decisions about tags.
pub struct WorkspaceManager;

impl WorkspaceManager {
    /// The tags of a window after a request: those of the mask, or the window's
    /// own with those of the mask flipped.
    pub fn calculate_new_tags(current_tags: u32, mask: u32, toggle: bool) -> (r: u32)
        ensures
            r == new_tags(current_tags, mask, toggle),
    {
        if toggle { current_tags ^ mask } else { mask }
    }

    /// Whether a monitor shows just these tags.
    pub fn is_same_tag(monitor: &WMMonitor, target_tag_mask: u32) -> (r: bool)
        requires
            monitor.sel_tags < 2,
        ensures
            r == (monitor.tag_set@[monitor.sel_tags as int] == target_tag_mask),
    {
        monitor.tag_set[monitor.sel_tags] == target_tag_mask
    }
}

/// Toggling the same tags twice gives the tags back.
pub proof fn toggling_tags_twice_is_nothing(tags: u32, mask: u32)
    ensures
        (tags ^ mask) ^ mask == tags,
{
    assert((tags ^ mask) ^ mask == tags) by (bit_vector);
}

/// Setting tags sets those of the mask; toggling changes just the tags of the
/// mask and leaves the others.
pub proof fn toggling_changes_the_mask(tags: u32, mask: u32, tag: u32)
    requires
        tag < 32,
    ensures
        new_tags(tags, mask, false) == mask,
        new_tags(tags, mask, true) & (1u32 << tag) == tags & (1u32 << tag) <==> mask & (1u32 << tag)
            == 0,
        new_tags(new_tags(tags, mask, true), mask, true) == tags,
{
    assert((tags ^ mask) & (1u32 << tag) == tags & (1u32 << tag) <==> mask & (1u32 << tag) == 0)
        by (bit_vector)
        requires
            tag < 32,
    ;
    toggling_tags_twice_is_nothing(tags, mask);
}

} // verus!
