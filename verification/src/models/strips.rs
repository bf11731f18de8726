//! What the operations on a strip come to.
use super::ClientKey;
use super::scrolling::{
    beside_filled, column_slots, column_with, filled_before, focus_in, gathered, has_slot, ordered,
    overview, OverviewSlot, Strip, strays_in, strip_slots, visible_in, well_kept, windows_of,
    with_strays,
};
use crate::ieee::F32;
use vstd::prelude::*;

verus! {

/// The width factor of column `i`: one where none is kept.
pub open spec fn width_of(strip: Strip, i: int) -> F32 {
    if i < strip.widths.len() {
        strip.widths[i]
    } else {
        F32 { bits: 0x3F80_0000 }
    }
}

/// A column gives the focus to a window of its own: the one remembered for it
/// where that is still there, else the first; only an empty one gives it to none.
pub proof fn columns_focus_their_own(strip: Strip, i: int)
    requires
        0 <= i < strip.columns.len(),
    ensures
        strip.target(i) is None <==> strip.columns[i].len() == 0,
        strip.target(i) is Some ==> strip.columns[i].contains(strip.target(i)->0),
        i < strip.focuses.len() && strip.focuses[i] is Some && strip.columns[i].contains(
            strip.focuses[i]->0,
        ) ==> strip.target(i) == strip.focuses[i],
        (i >= strip.focuses.len() || strip.focuses[i] is None || !strip.columns[i].contains(
            strip.focuses[i]->0,
        )) && strip.columns[i].len() > 0 ==> strip.target(i) == Some(strip.columns[i][0]),
{
    if strip.columns[i].len() > 0 {
        assert(strip.columns[i].contains(strip.columns[i][0]));
    }
}

proof fn column_with_is_first(columns: Seq<Seq<ClientKey>>, key: ClientKey, i: int)
    requires
        0 <= i <= columns.len(),
    ensures
        match column_with(columns, key, i) {
            Some(c) => {
                &&& i <= c < columns.len()
                &&& columns[c].contains(key)
                &&& forall|k: int| i <= k < c ==> !(#[trigger] columns[k]).contains(key)
            },
            None => forall|k: int|
                i <= k < columns.len() ==> !(#[trigger] columns[k]).contains(key),
        },
    decreases columns.len() - i,
{
    if i < columns.len() && !columns[i].contains(key) {
        column_with_is_first(columns, key, i + 1);
    }
}

/// A window that gets the focus has it: the first column that holds it is the
/// focused one and gives the focus to it. No window moves, every other column
/// still gives the focus to the same window, and a window that no column holds
/// changes nothing.
pub proof fn the_focus_follows_the_window(strip: Strip, key: ClientKey, j: int)
    requires
        strip.columns.len() <= usize::MAX,
        0 <= j < strip.columns.len(),
    ensures
        ({
            let after = strip.with_focus(key);
            let f = after.focused_index();
            let held = exists|k: int|
                0 <= k < strip.columns.len() && (#[trigger] strip.columns[k]).contains(key);
            &&& well_kept(after)
            &&& after.columns == strip.columns
            &&& width_of(after, j) == width_of(strip, j)
            &&& after.attach == strip.attach
            &&& after.viewport == strip.viewport
            &&& held ==> {
                &&& f is Some
                &&& strip.columns[f->0 as int].contains(key)
                &&& forall|k: int|
                    0 <= k < f->0 ==> !(#[trigger] strip.columns[k]).contains(key)
                &&& after.target(f->0 as int) == Some(key)
                &&& j != f->0 ==> after.target(j) == strip.target(j)
            }
            &&& !held ==> f == strip.focused_index() && after.target(j) == strip.target(j)
        }),
{
    column_with_is_first(strip.columns, key, 0);
}

/// A new window goes below the windows of the focused column where new windows
/// go there, else to a column of its own behind the others. No other column
/// changes or gives the focus to another window.
pub proof fn new_windows_stand_last(strip: Strip, key: ClientKey, j: int)
    requires
        strip.columns.len() < usize::MAX,
        0 <= j < strip.columns.len(),
    ensures
        ({
            let after = strip.inserted(key);
            let here = if strip.attach {
                strip.focused_index()
            } else {
                None
            };
            &&& well_kept(after)
            &&& here is Some ==> {
                &&& after.columns.len() == strip.columns.len()
                &&& after.columns[here->0 as int] == strip.columns[here->0 as int].push(key)
                &&& after.focused == strip.focused
            }
            &&& here is None ==> {
                &&& windows_of(after.columns) == windows_of(strip.columns).push(key)
                &&& after.columns.len() == strip.columns.len() + 1
                &&& after.columns.last() == seq![key]
                &&& after.focused == Some(strip.columns.len() as usize)
                &&& width_of(after, strip.columns.len() as int).bits == 0x3F80_0000
            }
            &&& here != Some(j as usize) ==> {
                &&& after.columns[j] == strip.columns[j]
                &&& after.target(j) == strip.target(j)
            }
            &&& width_of(after, j) == width_of(strip, j)
            &&& after.attach == strip.attach
            &&& after.viewport == strip.viewport
        }),
{
    let after = strip.inserted(key);
    if !(strip.attach && strip.focused_index() is Some) {
        assert(after.columns.drop_last() =~= strip.columns);
        assert(Seq::<ClientKey>::empty().push(key) =~= seq![key]);
        assert(windows_of(after.columns) =~= windows_of(strip.columns).push(key));
    }
}

proof fn beside_filled_at<T>(columns: Seq<Seq<ClientKey>>, s: Seq<T>, n: int, i: int)
    requires
        0 <= i < n <= columns.len(),
        columns[i].len() > 0,
    ensures
        filled_before(columns, i) < beside_filled(columns, s, n).len(),
        beside_filled(columns, s, n)[filled_before(columns, i) as int] == s[i],
    decreases n,
{
    filled_length(columns, s, n);
    filled_length(columns, s, n - 1);
    if i < n - 1 {
        beside_filled_at(columns, s, n - 1, i);
    }
}

proof fn filled_length<T>(columns: Seq<Seq<ClientKey>>, s: Seq<T>, n: int)
    ensures
        beside_filled(columns, s, n).len() == filled_before(columns, n),
        n >= 0 ==> filled_before(columns, n) <= n,
    decreases n,
{
    if n > 0 {
        filled_length(columns, s, n - 1);
    }
}

/// A column with windows stays as it is when the empty ones go: with its
/// windows, its width, and the window it gives the focus to. It still has the
/// focus where it had it.
pub proof fn compacting_keeps_columns(strip: Strip, i: int)
    requires
        0 <= i < strip.columns.len() <= usize::MAX,
        strip.columns[i].len() > 0,
    ensures
        exists|j: int|
            #![trigger strip.compacted().columns[j]]
            {
                let after = strip.compacted();
                &&& 0 <= j < after.columns.len()
                &&& after.columns[j] == strip.columns[i]
                &&& width_of(after, j) == width_of(strip, i)
                &&& after.target(j) == strip.target(i)
                &&& strip.focused == Some(i as usize) ==> after.focused == Some(j as usize)
            },
        strip.compacted().attach == strip.attach,
        strip.compacted().viewport == strip.viewport,
{
    let n = strip.columns.len() as int;
    let a = strip.aligned();
    let after = strip.compacted();
    let focuses = Seq::new(n as nat, |k: int| focus_in(strip.columns[k], a.focuses[k]));
    let j = filled_before(strip.columns, i) as int;
    beside_filled_at(strip.columns, strip.columns, n, i);
    beside_filled_at(strip.columns, a.widths, n, i);
    beside_filled_at(strip.columns, focuses, n, i);
    assert(after.columns[j] == strip.columns[i]);
    assert(after.focuses[j] == focuses[i]);
    assert(strip.columns[i].contains(strip.columns[i][0]));
    assert(width_of(after, j) == width_of(strip, i));
    assert(after.target(j) == strip.target(i));
}

/// Where the column with the focus goes, or none has it, the first column that is
/// left gets it.
pub proof fn the_first_column_takes_over(strip: Strip)
    requires
        match strip.focused {
            Some(i) => i >= strip.columns.len() || strip.columns[i as int].len() == 0,
            None => true,
        },
    ensures
        strip.compacted().columns.len() > 0 ==> strip.compacted().focused == Some(0usize),
        strip.compacted().columns.len() == 0 ==> strip.compacted().focused is None,
{
}

/// The windows of a strip stand column after column.
pub proof fn windows_stand_by_column(a: Seq<Seq<ClientKey>>, b: Seq<Seq<ClientKey>>)
    ensures
        windows_of(a + b) == windows_of(a) + windows_of(b),
        b.len() == 1 ==> windows_of(b) == b[0],
    decreases b.len(),
{
    if b.len() == 0 {
        assert(a + b =~= a);
        assert(windows_of(a) + windows_of(b) =~= windows_of(a));
    } else {
        windows_stand_by_column(a, b.drop_last());
        assert((a + b).drop_last() =~= a + b.drop_last());
        assert(windows_of(a + b) =~= windows_of(a) + windows_of(b));
        if b.len() == 1 {
            assert(b.drop_last() =~= Seq::empty());
            assert(windows_of(b) =~= b[0]);
        }
    }
}

proof fn gathered_is_filtered(acc: Seq<ClientKey>, keys: Seq<ClientKey>, visible: Seq<ClientKey>)
    requires
        keys.no_duplicates(),
    ensures
        gathered(acc, keys, visible) == acc + keys.filter(
            |k: ClientKey| visible.contains(k) && !acc.contains(k),
        ),
    decreases keys.len(),
{
    let wanted = |k: ClientKey| visible.contains(k) && !acc.contains(k);
    reveal(Seq::filter);
    if keys.len() == 0 {
        assert(acc + keys.filter(wanted) =~= acc);
    } else {
        let front = keys.drop_last();
        let last = keys.last();
        gathered_is_filtered(acc, front, visible);
        let before = gathered(acc, front, visible);
        assert(before == acc + front.filter(wanted));
        assert(!front.contains(last)) by {
            if front.contains(last) {
                let i = choose|i: int| 0 <= i < front.len() && front[i] == last;
                assert(keys[i] == keys[keys.len() - 1]);
            }
        }
        assert(!front.filter(wanted).contains(last)) by {
            if front.filter(wanted).contains(last) {
                front.lemma_filter_contains_rev(wanted, last);
            }
        }
        assert(before.contains(last) <==> acc.contains(last)) by {
            if before.contains(last) {
                let i = choose|i: int| 0 <= i < before.len() && before[i] == last;
                if i >= acc.len() {
                    assert(front.filter(wanted)[i - acc.len()] == last);
                }
            }
            if acc.contains(last) {
                let i = choose|i: int| 0 <= i < acc.len() && acc[i] == last;
                assert(before[i] == last);
            }
        }
        assert(gathered(acc, keys, visible) =~= acc + keys.filter(wanted));
    }
}

/// The visible windows come in the order of the strip, and those that no
/// column holds after them, in the order given.
pub proof fn the_strip_comes_first(columns: Seq<Seq<ClientKey>>, visible: Seq<ClientKey>)
    requires
        windows_of(columns).no_duplicates(),
        visible.no_duplicates(),
    ensures
        ordered(columns, visible) == windows_of(columns).filter(|k: ClientKey| visible.contains(k))
            + visible.filter(|k: ClientKey| !windows_of(columns).contains(k)),
{
    let all = windows_of(columns);
    let none = Seq::<ClientKey>::empty();
    let shown = |k: ClientKey| visible.contains(k);
    let shown_anew = |k: ClientKey| visible.contains(k) && !none.contains(k);
    gathered_is_filtered(none, all, visible);
    same_filter(all, shown, shown_anew);
    let first = gathered(none, all, visible);
    assert(first =~= all.filter(shown));
    gathered_is_filtered(first, visible, visible);
    let rest = |k: ClientKey| visible.contains(k) && !first.contains(k);
    let stray = |k: ClientKey| !all.contains(k);
    assert forall|i: int| 0 <= i < visible.len() implies rest(#[trigger] visible[i]) == stray(
        visible[i],
    ) by {
        let k = visible[i];
        assert(visible.contains(k));
        if all.contains(k) {
            let p = choose|p: int| 0 <= p < all.len() && all[p] == k;
            all.lemma_filter_contains(shown, p);
        }
        if first.contains(k) {
            all.lemma_filter_contains_rev(shown, k);
        }
    }
    same_filter(visible, stray, rest);
}

/// Whether a slot is where its window stands: in its column of the strip, or in
/// a column made up for it alone.
pub open spec fn slot_stands(strip: Strip, visible: Seq<ClientKey>, slot: OverviewSlot) -> bool {
    let c = slot.column_index as int;
    &&& visible.contains(slot.client)
    &&& slot.row < slot.rows
    &&& c < strip.columns.len() ==> {
        &&& strip.columns[c].contains(slot.client)
        &&& slot.focused_column <==> strip.focused_index() == Some(slot.column_index)
    }
    &&& c >= strip.columns.len() ==> slot.rows == 1 && !slot.focused_column
}

/// Whether slot `b` comes after slot `a`: in the next row of its column, or after
/// the last row in the first row of a later column.
pub open spec fn slot_follows(a: OverviewSlot, b: OverviewSlot) -> bool {
    if a.row + 1 < a.rows {
        b.column_index == a.column_index && b.row == a.row + 1 && b.rows == a.rows
    } else {
        b.column_index > a.column_index && b.row == 0
    }
}

/// Whether the slots run through whole columns, from left to right.
pub open spec fn slots_run(slots: Seq<OverviewSlot>) -> bool {
    &&& slots.len() > 0 ==> slots[0].row == 0 && slots.last().row + 1 == slots.last().rows
    &&& forall|k: int| 1 <= k < slots.len() ==> slot_follows(slots[k - 1], #[trigger] slots[k])
}

proof fn runs_join(a: Seq<OverviewSlot>, b: Seq<OverviewSlot>, c: int)
    requires
        slots_run(a),
        slots_run(b),
        forall|k: int| 0 <= k < a.len() ==> (#[trigger] a[k]).column_index < c,
        forall|k: int| 0 <= k < b.len() ==> (#[trigger] b[k]).column_index >= c,
    ensures
        slots_run(a + b),
{
    let all = a + b;
    assert forall|k: int| 1 <= k < all.len() implies slot_follows(all[k - 1], #[trigger] all[k]) by {
        if k < a.len() {
            assert(all[k] == a[k] && all[k - 1] == a[k - 1]);
        } else if k == a.len() {
            assert(all[k] == b[0] && all[k - 1] == a[k - 1]);
            assert(a[k - 1] == a.last());
        } else {
            assert(all[k] == b[k - a.len()] && all[k - 1] == b[k - a.len() - 1]);
        }
    }
    if b.len() > 0 {
        assert(all.last() == b.last());
        if a.len() == 0 {
            assert(all[0] == b[0]);
        }
    } else {
        assert(all =~= a);
    }
}

proof fn visible_facts(keys: Seq<ClientKey>, visible: Seq<ClientKey>)
    ensures
        visible_in(keys, visible).len() <= keys.len(),
        forall|i: int|
            0 <= i < visible_in(keys, visible).len() ==> visible.contains(
                #[trigger] visible_in(keys, visible)[i],
            ) && keys.contains(visible_in(keys, visible)[i]),
    decreases keys.len(),
{
    if keys.len() > 0 {
        let front = keys.drop_last();
        visible_facts(front, visible);
        let shown = visible_in(keys, visible);
        let before = visible_in(front, visible);
        assert forall|i: int| 0 <= i < shown.len() implies visible.contains(#[trigger] shown[i])
            && keys.contains(shown[i]) by {
            if i < before.len() {
                assert(shown[i] == before[i]);
                let p = choose|p: int| 0 <= p < front.len() && front[p] == before[i];
                assert(keys[p] == shown[i]);
            } else {
                assert(keys[keys.len() - 1] == shown[i]);
            }
        }
    }
}

spec fn slots_within(
    strip: Strip,
    visible: Seq<ClientKey>,
    slots: Seq<OverviewSlot>,
    first: int,
    end: int,
) -> bool {
    forall|k: int|
        0 <= k < slots.len() ==> first <= (#[trigger] slots[k]).column_index < end && slot_stands(
            strip,
            visible,
            slots[k],
        )
}

proof fn column_slots_stand(strip: Strip, visible: Seq<ClientKey>, c: int)
    requires
        0 <= c < strip.columns.len() <= usize::MAX,
        strip.columns[c].len() <= usize::MAX,
    ensures
        ({
            let own = column_slots(
                strip.columns[c],
                visible,
                c,
                strip.focused_index() == Some(c as usize),
            );
            slots_run(own) && slots_within(strip, visible, own, c, c + 1)
        }),
{
    let column = strip.columns[c];
    let own = column_slots(column, visible, c, strip.focused_index() == Some(c as usize));
    let shown = visible_in(column, visible);
    visible_facts(column, visible);
    assert forall|k: int| 0 <= k < own.len() implies c <= (#[trigger] own[k]).column_index < c + 1
        && slot_stands(strip, visible, own[k]) by {
        assert(visible.contains(shown[k]) && column.contains(shown[k]));
    }
}

proof fn strip_slots_stand(strip: Strip, visible: Seq<ClientKey>, n: int)
    requires
        0 <= n <= strip.columns.len() <= usize::MAX,
        forall|i: int|
            0 <= i < strip.columns.len() ==> (#[trigger] strip.columns[i]).len() <= usize::MAX,
    ensures
        ({
            let slots = strip_slots(strip.columns, visible, strip.focused_index(), n);
            slots_run(slots) && slots_within(strip, visible, slots, 0, n)
        }),
    decreases n,
{
    if n > 0 {
        strip_slots_stand(strip, visible, n - 1);
        column_slots_stand(strip, visible, n - 1);
        let focused = strip.focused_index();
        let before = strip_slots(strip.columns, visible, focused, n - 1);
        let own = column_slots(
            strip.columns[n - 1],
            visible,
            n - 1,
            focused == Some((n - 1) as usize),
        );
        both_within(strip, visible, before, own, n);
    }
}

proof fn both_within(
    strip: Strip,
    visible: Seq<ClientKey>,
    a: Seq<OverviewSlot>,
    b: Seq<OverviewSlot>,
    n: int,
)
    requires
        n > 0,
        slots_run(a),
        slots_run(b),
        slots_within(strip, visible, a, 0, n - 1),
        slots_within(strip, visible, b, n - 1, n),
    ensures
        slots_run(a + b),
        slots_within(strip, visible, a + b, 0, n),
{
    runs_join(a, b, n - 1);
    let all = a + b;
    assert forall|k: int| 0 <= k < all.len() implies 0 <= (#[trigger] all[k]).column_index < n
        && slot_stands(strip, visible, all[k]) by {
        if k < a.len() {
            assert(all[k] == a[k]);
        } else {
            assert(all[k] == b[k - a.len()]);
        }
    }
}

proof fn strays_stand(
    strip: Strip,
    visible: Seq<ClientKey>,
    slots: Seq<OverviewSlot>,
    keys: Seq<ClientKey>,
)
    requires
        strip.columns.len() + keys.len() <= usize::MAX,
        slots_run(slots),
        forall|k: int|
            0 <= k < slots.len() ==> (#[trigger] slots[k]).column_index < strip.columns.len()
                && slot_stands(strip, visible, slots[k]),
        forall|k: ClientKey| #[trigger] keys.contains(k) ==> visible.contains(k),
    ensures
        ({
            let (all, next) = with_strays(slots, keys, strip.columns.len() as int);
            &&& strip.columns.len() <= next <= strip.columns.len() + keys.len()
            &&& slots_run(all)
            &&& forall|k: int|
                0 <= k < all.len() ==> (#[trigger] all[k]).column_index < next && slot_stands(
                    strip,
                    visible,
                    all[k],
                )
            &&& forall|k: ClientKey| #[trigger] keys.contains(k) ==> has_slot(all, k)
        }),
    decreases keys.len(),
{
    if keys.len() > 0 {
        let front = keys.drop_last();
        let last = keys.last();
        assert forall|k: ClientKey| #[trigger] front.contains(k) implies visible.contains(k) by {
            let p = choose|p: int| 0 <= p < front.len() && front[p] == k;
            assert(keys[p] == k);
            assert(keys.contains(k));
        }
        strays_stand(strip, visible, slots, front);
        assert(keys[keys.len() - 1] == last);
        assert(keys.contains(last));
        let (before, column) = with_strays(slots, front, strip.columns.len() as int);
        let (all, next) = with_strays(slots, keys, strip.columns.len() as int);
        if !has_slot(before, last) {
            let own = OverviewSlot {
                client: last,
                column_index: column as usize,
                row: 0,
                rows: 1,
                focused_column: false,
            };
            runs_join(before, seq![own], column);
            assert(all =~= before + seq![own]);
            assert(all[all.len() - 1].client == last);
        }
        assert forall|k: ClientKey| #[trigger] keys.contains(k) implies has_slot(all, k) by {
            let p = choose|p: int| 0 <= p < keys.len() && keys[p] == k;
            if p < keys.len() - 1 {
                assert(front[p] == k);
                assert(front.contains(k));
                let q = choose|q: int| 0 <= q < before.len() && (#[trigger] before[q]).client == k;
                assert(all[q] == before[q]);
            }
        }
    }
}

/// The overview shows every visible window and no other, each in its own
/// column: the columns of the strip from left to right, every one from its first
/// row to its last, and behind them one column for each window that none holds.
pub proof fn the_overview_shows_the_strip(strip: Strip, visible: Seq<ClientKey>)
    requires
        strip.columns.len() + visible.len() <= usize::MAX,
        forall|i: int|
            0 <= i < strip.columns.len() ==> (#[trigger] strip.columns[i]).len() <= usize::MAX,
    ensures
        slots_run(overview(strip, visible)),
        forall|k: int|
            0 <= k < overview(strip, visible).len() ==> slot_stands(
                strip,
                visible,
                #[trigger] overview(strip, visible)[k],
            ),
        forall|key: ClientKey| #[trigger]
            visible.contains(key) ==> has_slot(overview(strip, visible), key),
{
    let n = strip.columns.len() as int;
    strip_slots_stand(strip, visible, n);
    strays_stand(
        strip,
        visible,
        strip_slots(strip.columns, visible, strip.focused_index(), n),
        visible,
    );
}

/// The strays are the windows that no column holds: none of them where all
/// are in the strip, all where the strip is empty, one more for each one added.
pub proof fn strays_are_counted(columns: Seq<Seq<ClientKey>>, keys: Seq<ClientKey>, key: ClientKey)
    ensures
        strays_in(columns, keys.push(key)) == strays_in(columns, keys) + if exists|i: int|
            0 <= i < columns.len() && (#[trigger] columns[i]).contains(key) {
            0int
        } else {
            1
        },
        strays_in(columns, Seq::empty()) == 0,
{
    assert(keys.push(key).drop_last() =~= keys);
    column_with_is_first(columns, key, 0);
}

proof fn same_filter(s: Seq<ClientKey>, f: spec_fn(ClientKey) -> bool, g: spec_fn(ClientKey) -> bool)
    requires
        forall|i: int| 0 <= i < s.len() ==> f(#[trigger] s[i]) == g(s[i]),
    ensures
        s.filter(f) == s.filter(g),
    decreases s.len(),
{
    reveal(Seq::filter);
    if s.len() > 0 {
        assert(forall|i: int| 0 <= i < s.len() - 1 ==> #[trigger] s.drop_last()[i] == s[i]);
        same_filter(s.drop_last(), f, g);
        assert(f(s[s.len() - 1]) == g(s[s.len() - 1]));
    }
}

} // verus!
