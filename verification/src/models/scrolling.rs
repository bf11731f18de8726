//! The columns of the scrolling layout, and which window of each had the focus
//! last.
use super::{ClientKey, fit, fitted, holds};
use crate::ieee::F32;
use vstd::prelude::*;

verus! {

/// The columns of one strip. The lists of widths and focused windows run
/// beside the columns; they are brought to the same length before they are
/// read.
#[derive(Debug, Clone)]
pub struct ScrollingState {
    pub columns: Vec<Vec<ClientKey>>,
    pub column_width_factors: Vec<F32>,
    pub focused_clients: Vec<Option<ClientKey>>,
    pub focused_column: Option<usize>,
    pub attach_new_windows_to_focused_column: bool,
    pub viewport_x: F32,
}

/// A strip as plain values.
pub struct Strip {
    pub columns: Seq<Seq<ClientKey>>,
    pub widths: Seq<F32>,
    pub focuses: Seq<Option<ClientKey>>,
    pub focused: Option<usize>,
    pub attach: bool,
    pub viewport: F32,
}

/// The width factor of a new column: one.
pub const ONE: u32 = 0x3F80_0000;

/// The first column that holds `key`, from `i` on.
pub open spec fn column_with(columns: Seq<Seq<ClientKey>>, key: ClientKey, i: int) -> Option<int>
    decreases columns.len() - i,
{
    if i < 0 || i >= columns.len() {
        None
    } else if columns[i].contains(key) {
        Some(i)
    } else {
        column_with(columns, key, i + 1)
    }
}

/// The window that a column gives the focus to: the one that had it last,
/// while the column holds it, else the first.
pub open spec fn focus_in(column: Seq<ClientKey>, last: Option<ClientKey>) -> Option<ClientKey> {
    match last {
        Some(key) if column.contains(key) => Some(key),
        _ => if column.len() > 0 {
            Some(column[0])
        } else {
            None
        },
    }
}

/// How many of the first `n` columns hold windows.
pub open spec fn filled_before(columns: Seq<Seq<ClientKey>>, n: int) -> nat
    decreases n,
{
    if n <= 0 {
        0
    } else {
        filled_before(columns, n - 1) + if columns[n - 1].len() > 0 {
            1nat
        } else {
            0
        }
    }
}

/// The items of `s` that stand beside columns with windows, among the first
/// `n`.
pub open spec fn beside_filled<T>(columns: Seq<Seq<ClientKey>>, s: Seq<T>, n: int) -> Seq<T>
    decreases n,
{
    if n <= 0 {
        Seq::empty()
    } else if columns[n - 1].len() > 0 {
        beside_filled(columns, s, n - 1).push(s[n - 1])
    } else {
        beside_filled(columns, s, n - 1)
    }
}

impl Strip {
    /// The strip with its lists as long as its columns.
    pub open spec fn aligned(self) -> Strip {
        Strip {
            widths: fitted(self.widths, self.columns.len() as int, F32 { bits: ONE }),
            focuses: fitted(self.focuses, self.columns.len() as int, None),
            ..self
        }
    }

    /// The strip once `key` has the focus.
    pub open spec fn with_focus(self, key: ClientKey) -> Strip {
        match column_with(self.columns, key, 0) {
            Some(i) => Strip {
                focuses: self.aligned().focuses.update(i, Some(key)),
                focused: Some(i as usize),
                ..self.aligned()
            },
            None => self.aligned(),
        }
    }

    /// The focused column, where it still exists.
    pub open spec fn focused_index(self) -> Option<usize> {
        match self.focused {
            Some(i) if i < self.columns.len() => Some(i),
            _ => None,
        }
    }

    /// The window that column `i` gives the focus to.
    pub open spec fn target(self, i: int) -> Option<ClientKey> {
        if 0 <= i < self.columns.len() {
            focus_in(
                self.columns[i],
                if i < self.focuses.len() {
                    self.focuses[i]
                } else {
                    None
                },
            )
        } else {
            None
        }
    }

    /// The strip without its empty columns. The focused column stays focused;
    /// where it is gone, the first one is.
    pub open spec fn compacted(self) -> Strip {
        let n = self.columns.len() as int;
        let a = self.aligned();
        let focuses = Seq::new(n as nat, |i: int| focus_in(self.columns[i], a.focuses[i]));
        let columns = beside_filled(self.columns, self.columns, n);
        Strip {
            columns,
            widths: beside_filled(self.columns, a.widths, n),
            focuses: beside_filled(self.columns, focuses, n),
            focused: match self.focused {
                Some(i) if i < n && self.columns[i as int].len() > 0 => Some(
                    filled_before(self.columns, i as int) as usize,
                ),
                _ => if columns.len() > 0 {
                    Some(0)
                } else {
                    None
                },
            },
            ..self
        }
    }

    /// The strip with a new window: in the focused column where new windows go
    /// there, else in a column of its own at the end.
    pub open spec fn inserted(self, key: ClientKey) -> Strip {
        let a = self.aligned();
        match self.focused_index() {
            Some(i) if self.attach => Strip {
                columns: self.columns.update(i as int, self.columns[i as int].push(key)),
                focuses: a.focuses.update(i as int, Some(key)),
                ..a
            },
            _ => Strip {
                columns: self.columns.push(Seq::empty().push(key)),
                widths: a.widths.push(F32 { bits: ONE }),
                focuses: a.focuses.push(Some(key)),
                focused: Some(self.columns.len() as usize),
                ..a
            },
        }
    }
}

/// The views of columns.
pub open spec fn column_views(columns: Seq<Vec<ClientKey>>) -> Seq<Seq<ClientKey>> {
    Seq::new(columns.len(), |i: int| columns[i]@)
}

impl View for ScrollingState {
    type V = Strip;

    open spec fn view(&self) -> Strip {
        Strip {
            columns: column_views(self.columns@),
            widths: self.column_width_factors@,
            focuses: self.focused_clients@,
            focused: self.focused_column,
            attach: self.attach_new_windows_to_focused_column,
            viewport: self.viewport_x,
        }
    }
}

proof fn first_column(columns: Seq<Seq<ClientKey>>, key: ClientKey, i: int, j: int)
    requires
        0 <= i <= j <= columns.len(),
        forall|k: int| i <= k < j ==> !(#[trigger] columns[k]).contains(key),
    ensures
        column_with(columns, key, i) == column_with(columns, key, j),
    decreases j - i,
{
    if i < j {
        first_column(columns, key, i + 1, j);
    }
}

impl ScrollingState {
    /// An empty strip.
    pub fn new() -> (r: ScrollingState)
        ensures
            r@.columns == Seq::<Seq<ClientKey>>::empty(),
            r@.widths == Seq::<F32>::empty(),
            r@.focuses == Seq::<Option<ClientKey>>::empty(),
            r@.focused is None,
            !r@.attach,
            r@.viewport == (F32 { bits: 0 }),
    {
        ScrollingState {
            columns: Vec::new(),
            column_width_factors: Vec::new(),
            focused_clients: Vec::new(),
            focused_column: None,
            attach_new_windows_to_focused_column: false,
            viewport_x: F32 { bits: 0 },
        }
    }

    /// Brings the lists beside the columns to their length.
    pub fn ensure_column_metadata(&mut self)
        ensures
            final(self)@ == old(self)@.aligned(),
            final(self).columns@ == old(self).columns@,
    {
        let n: usize = self.columns.len();
        fit(&mut self.column_width_factors, n, F32 { bits: ONE });
        fit(&mut self.focused_clients, n, None);
    }

    /// The first column that holds `key`.
    fn find_column(&self, key: ClientKey) -> (r: Option<usize>)
        ensures
            match r {
                Some(i) => column_with(self@.columns, key, 0) == Some(i as int) && i
                    < self@.columns.len(),
                None => column_with(self@.columns, key, 0) is None,
            },
    {
        let mut i: usize = 0;
        while i < self.columns.len()
            invariant
                i <= self.columns@.len(),
                forall|k: int| 0 <= k < i ==> !(#[trigger] self@.columns[k]).contains(key),
            decreases self.columns@.len() - i,
        {
            if holds(self.columns[i].as_slice(), key) {
                proof {
                    first_column(self@.columns, key, 0, i as int);
                }
                return Some(i);
            }
            i = i + 1;
        }
        proof {
            first_column(self@.columns, key, 0, i as int);
        }
        None
    }

    /// Notes that a window of the strip got the focus.
    pub fn remember_focus(&mut self, client_key: ClientKey)
        ensures
            final(self)@ == old(self)@.with_focus(client_key),
    {
        self.ensure_column_metadata();
        if let Some(i) = self.find_column(client_key) {
            self.focused_clients.set(i, Some(client_key));
            self.focused_column = Some(i);
        }
    }

    /// The focused column, where it still exists.
    pub fn focused_column_index(&self) -> (r: Option<usize>)
        ensures
            r == self@.focused_index(),
    {
        match self.focused_column {
            Some(i) => if i < self.columns.len() { Some(i) } else { None },
            None => None,
        }
    }

    /// Moves the focus to a column that exists.
    pub fn set_focused_column(&mut self, col_idx: usize)
        ensures
            final(self)@ == (if col_idx < old(self)@.columns.len() {
                Strip { focused: Some(col_idx), ..old(self)@ }
            } else {
                old(self)@
            }),
    {
        if col_idx < self.columns.len() {
            self.focused_column = Some(col_idx);
        }
    }

    /// The window that a column gives the focus to.
    pub fn target_for_column(&self, col_idx: usize) -> (r: Option<ClientKey>)
        ensures
            r == self@.target(col_idx as int),
    {
        if col_idx >= self.columns.len() {
            return None;
        }
        let last: Option<ClientKey> = if col_idx < self.focused_clients.len() {
            self.focused_clients[col_idx]
        } else {
            None
        };
        focus_of(&self.columns[col_idx], last)
    }
}

fn focus_of(column: &Vec<ClientKey>, last: Option<ClientKey>) -> (r: Option<ClientKey>)
    ensures
        r == focus_in(column@, last),
{
    if let Some(key) = last {
        if holds(column.as_slice(), key) {
            return Some(key);
        }
    }
    if column.len() > 0 { Some(column[0]) } else { None }
}

proof fn filled_count<T>(columns: Seq<Seq<ClientKey>>, s: Seq<T>, n: int)
    ensures
        beside_filled(columns, s, n).len() == filled_before(columns, n),
        n >= 0 ==> filled_before(columns, n) <= n,
    decreases n,
{
    if n > 0 {
        filled_count(columns, s, n - 1);
    }
}

proof fn filled_views(columns: Seq<Vec<ClientKey>>, n: int)
    requires
        0 <= n <= columns.len(),
    ensures
        column_views(beside_filled(column_views(columns), columns, n)) == beside_filled(
            column_views(columns),
            column_views(columns),
            n,
        ),
    decreases n,
{
    let v = column_views(columns);
    if n > 0 {
        filled_views(columns, n - 1);
        if v[n - 1].len() > 0 {
            assert(column_views(beside_filled(v, columns, n)) =~= column_views(
                beside_filled(v, columns, n - 1),
            ).push(v[n - 1]));
        }
    }
    assert(column_views(beside_filled(v, columns, n)) =~= beside_filled(v, v, n));
}

proof fn nothing_removed<T>(kept: Seq<T>, all: Seq<T>, o: int)
    requires
        0 <= o < all.len(),
    ensures
        (kept + all.skip(o)).remove(kept.len() as int) =~= kept + all.skip(o + 1),
        (kept + all.skip(o))[kept.len() as int] == all[o],
        kept + all.skip(o) =~= kept.push(all[o]) + all.skip(o + 1),
{
}

impl ScrollingState {
    /// Drops the empty columns, and lets every other column give the focus to
    /// a window that it holds.
    pub fn retain_non_empty_columns(&mut self)
        ensures
            final(self)@ == old(self)@.compacted(),
    {
        let ghost before = old(self)@;
        self.ensure_column_metadata();
        let ghost columns = self.columns@;
        let ghost v = column_views(columns);
        let ghost widths = self.column_width_factors@;
        let ghost lasts = self.focused_clients@;
        let ghost focuses = Seq::new(v.len(), |i: int| focus_in(v[i], lasts[i]));
        let n: usize = self.columns.len();
        let old_focus: Option<usize> = self.focused_column;
        let mut new_focus: Option<usize> = None;
        let mut o: usize = 0;
        let mut p: usize = 0;
        proof {
            assert(columns.skip(0) =~= columns);
            assert(widths.skip(0) =~= widths);
            assert(lasts.skip(0) =~= lasts);
            assert(beside_filled(v, columns, 0) + columns.skip(0) =~= columns);
            assert(beside_filled(v, widths, 0) + widths.skip(0) =~= widths);
            assert(beside_filled(v, focuses, 0) + lasts.skip(0) =~= lasts);
        }
        while o < n
            invariant
                o <= n == columns.len(),
                v == column_views(columns),
                widths.len() == n,
                lasts.len() == n,
                focuses == Seq::new(v.len(), |i: int| focus_in(v[i], lasts[i])),
                p == filled_before(v, o as int),
                p <= o,
                self.columns@ == beside_filled(v, columns, o as int) + columns.skip(o as int),
                self.column_width_factors@ == beside_filled(v, widths, o as int) + widths.skip(
                    o as int,
                ),
                self.focused_clients@ == beside_filled(v, focuses, o as int) + lasts.skip(
                    o as int,
                ),
                self.attach_new_windows_to_focused_column == before.attach,
                self.viewport_x == before.viewport,
                new_focus == (match old_focus {
                    Some(i) if i < o && v[i as int].len() > 0 => Some(
                        filled_before(v, i as int) as usize,
                    ),
                    _ => None,
                }),
            decreases n - o,
        {
            proof {
                filled_count(v, columns, o as int);
                filled_count(v, widths, o as int);
                filled_count(v, focuses, o as int);
                nothing_removed(beside_filled(v, columns, o as int), columns, o as int);
                nothing_removed(beside_filled(v, widths, o as int), widths, o as int);
                nothing_removed(beside_filled(v, focuses, o as int), lasts, o as int);
            }
            if self.columns[p].len() == 0 {
                self.columns.remove(p);
                self.column_width_factors.remove(p);
                self.focused_clients.remove(p);
            } else {
                let focus: Option<ClientKey> = focus_of(&self.columns[p], self.focused_clients[p]);
                self.focused_clients.set(p, focus);
                if let Some(i) = old_focus {
                    if i == o {
                        new_focus = Some(p);
                    }
                }
                proof {
                    assert(self.focused_clients@ =~= beside_filled(v, focuses, o as int).push(
                        focuses[o as int],
                    ) + lasts.skip(o + 1));
                }
                p = p + 1;
            }
            o = o + 1;
        }
        proof {
            assert(columns.skip(n as int) =~= Seq::empty());
            assert(widths.skip(n as int) =~= Seq::empty());
            assert(lasts.skip(n as int) =~= Seq::empty());
            assert(self.columns@ =~= beside_filled(v, columns, n as int));
            filled_views(columns, n as int);
            filled_count(v, columns, n as int);
            filled_count(v, v, n as int);
        }
        self.focused_column = match new_focus {
            Some(i) => Some(i),
            None => if self.columns.len() > 0 { Some(0) } else { None },
        };
        proof {
            assert(before.columns =~= v);
            assert(self@.columns =~= before.compacted().columns);
            assert(self@.widths =~= before.compacted().widths);
            assert(focuses =~= Seq::new(
                n as nat,
                |i: int| focus_in(before.columns[i], before.aligned().focuses[i]),
            ));
            assert(self@.focuses =~= before.compacted().focuses);
        }
    }

    /// Adds a window to the strip.
    pub fn insert_new_client(&mut self, client_key: ClientKey)
        ensures
            final(self)@ == old(self)@.inserted(client_key),
    {
        self.ensure_column_metadata();
        if self.attach_new_windows_to_focused_column {
            if let Some(i) = self.focused_column_index() {
                let ghost before = self@;
                let mut column = self.columns.remove(i);
                column.push(client_key);
                self.columns.insert(i, column);
                self.focused_clients.set(i, Some(client_key));
                proof {
                    assert(self@.columns =~= before.columns.update(
                        i as int,
                        before.columns[i as int].push(client_key),
                    ));
                }
                return;
            }
        }
        let ghost before = self@;
        let mut column: Vec<ClientKey> = Vec::new();
        column.push(client_key);
        self.columns.push(column);
        self.column_width_factors.push(F32 { bits: ONE });
        self.focused_clients.push(Some(client_key));
        self.focused_column = Some(self.columns.len() - 1);
        proof {
            assert(self@.columns =~= before.columns.push(Seq::empty().push(client_key)));
        }
    }
}

/// The windows of the columns, from left to right and from top to bottom.
pub open spec fn windows_of(columns: Seq<Seq<ClientKey>>) -> Seq<ClientKey>
    decreases columns.len(),
{
    if columns.len() == 0 {
        Seq::empty()
    } else {
        windows_of(columns.drop_last()) + columns.last()
    }
}

/// `acc` with those of `keys` that are visible and not in it yet.
pub open spec fn gathered(
    acc: Seq<ClientKey>,
    keys: Seq<ClientKey>,
    visible: Seq<ClientKey>,
) -> Seq<ClientKey>
    decreases keys.len(),
{
    if keys.len() == 0 {
        acc
    } else {
        let before = gathered(acc, keys.drop_last(), visible);
        if visible.contains(keys.last()) && !before.contains(keys.last()) {
            before.push(keys.last())
        } else {
            before
        }
    }
}

/// The visible windows in the order of the strip, and after them those that no
/// column holds.
pub open spec fn ordered(columns: Seq<Seq<ClientKey>>, visible: Seq<ClientKey>) -> Seq<ClientKey> {
    gathered(gathered(Seq::empty(), windows_of(columns), visible), visible, visible)
}

/// Adding to what was gathered keeps it free of repetitions and of windows
/// that are not visible, and leaves out no visible window that was asked for.
proof fn gathered_facts(acc: Seq<ClientKey>, keys: Seq<ClientKey>, visible: Seq<ClientKey>)
    requires
        acc.no_duplicates(),
        forall|k: ClientKey| #[trigger] acc.contains(k) ==> visible.contains(k),
    ensures
        gathered(acc, keys, visible).no_duplicates(),
        forall|k: ClientKey|
            #[trigger] gathered(acc, keys, visible).contains(k) ==> visible.contains(k),
        forall|k: ClientKey|
            #![trigger keys.contains(k)]
            keys.contains(k) && visible.contains(k) ==> gathered(acc, keys, visible).contains(k),
        forall|k: ClientKey|
            #![trigger acc.contains(k)]
            acc.contains(k) ==> gathered(acc, keys, visible).contains(k),
    decreases keys.len(),
{
    if keys.len() > 0 {
        let last = keys.last();
        gathered_facts(acc, keys.drop_last(), visible);
        let before = gathered(acc, keys.drop_last(), visible);
        let r = gathered(acc, keys, visible);
        assert forall|k: ClientKey| before.contains(k) implies r.contains(k) by {
            let i = choose|i: int| 0 <= i < before.len() && before[i] == k;
            assert(r[i] == k);
        }
        assert forall|k: ClientKey| #[trigger] r.contains(k) implies visible.contains(k) by {
            let i = choose|i: int| 0 <= i < r.len() && r[i] == k;
            if i < before.len() {
                assert(before[i] == k);
                assert(before.contains(k));
            }
        }
        assert forall|k: ClientKey| #![trigger keys.contains(k)] keys.contains(k)
            && visible.contains(k) implies r.contains(k) by {
            let i = choose|i: int| 0 <= i < keys.len() && keys[i] == k;
            if i < keys.len() - 1 {
                assert(keys.drop_last()[i] == k);
                assert(keys.drop_last().contains(k));
            } else if !before.contains(k) {
                assert(r[r.len() - 1] == k);
            }
        }
    }
}

/// The overview shows every visible window exactly once, and no other.
pub proof fn every_visible_window_once(columns: Seq<Seq<ClientKey>>, visible: Seq<ClientKey>)
    ensures
        ordered(columns, visible).no_duplicates(),
        forall|k: ClientKey| #[trigger]
            ordered(columns, visible).contains(k) <==> visible.contains(k),
{
    let first = gathered(Seq::empty(), windows_of(columns), visible);
    gathered_facts(Seq::empty(), windows_of(columns), visible);
    gathered_facts(first, visible, visible);
}

fn gather(acc: &mut Vec<ClientKey>, keys: &[ClientKey], visible: &[ClientKey])
    ensures
        final(acc)@ == gathered(old(acc)@, keys@, visible@),
{
    let ghost start = acc@;
    let mut i: usize = 0;
    while i < keys.len()
        invariant
            i <= keys@.len(),
            acc@ == gathered(start, keys@.take(i as int), visible@),
        decreases keys@.len() - i,
    {
        proof {
            assert(keys@.take(i + 1).drop_last() =~= keys@.take(i as int));
        }
        if holds(visible, keys[i]) && !holds(acc.as_slice(), keys[i]) {
            acc.push(keys[i]);
        }
        i = i + 1;
    }
    assert(keys@.take(i as int) =~= keys@);
}

/// Gathering from two lists in turn is gathering from both together.
proof fn gathered_in_turn(
    acc: Seq<ClientKey>,
    a: Seq<ClientKey>,
    b: Seq<ClientKey>,
    visible: Seq<ClientKey>,
)
    ensures
        gathered(gathered(acc, a, visible), b, visible) == gathered(acc, a + b, visible),
    decreases b.len(),
{
    if b.len() == 0 {
        assert(a + b =~= a);
    } else {
        gathered_in_turn(acc, a, b.drop_last(), visible);
        assert((a + b).drop_last() =~= a + b.drop_last());
    }
}

/// Where one window stands in the overview: in row `row` of the `rows` of its
/// column. A column past the last one of the strip is made up for a window that
/// no column holds.
#[derive(Debug, Clone, Copy, PartialEq, Eq, Structural)]
pub struct OverviewSlot {
    pub client: ClientKey,
    pub column_index: usize,
    pub row: usize,
    pub rows: usize,
    pub focused_column: bool,
}

/// Those of `keys` that are visible.
pub open spec fn visible_in(keys: Seq<ClientKey>, visible: Seq<ClientKey>) -> Seq<ClientKey>
    decreases keys.len(),
{
    if keys.len() == 0 {
        Seq::empty()
    } else {
        let before = visible_in(keys.drop_last(), visible);
        if visible.contains(keys.last()) {
            before.push(keys.last())
        } else {
            before
        }
    }
}

/// The visible windows of column `i`, one row each.
pub open spec fn column_slots(
    column: Seq<ClientKey>,
    visible: Seq<ClientKey>,
    i: int,
    focused: bool,
) -> Seq<OverviewSlot> {
    let shown = visible_in(column, visible);
    Seq::new(
        shown.len(),
        |row: int|
            OverviewSlot {
                client: shown[row],
                column_index: i as usize,
                row: row as usize,
                rows: shown.len() as usize,
                focused_column: focused,
            },
    )
}

/// The visible windows of the first `n` columns.
pub open spec fn strip_slots(
    columns: Seq<Seq<ClientKey>>,
    visible: Seq<ClientKey>,
    focused: Option<usize>,
    n: int,
) -> Seq<OverviewSlot>
    decreases n,
{
    if n <= 0 {
        Seq::empty()
    } else {
        strip_slots(columns, visible, focused, n - 1) + column_slots(
            columns[n - 1],
            visible,
            n - 1,
            focused == Some((n - 1) as usize),
        )
    }
}

/// Whether a window has a slot.
pub open spec fn has_slot(slots: Seq<OverviewSlot>, key: ClientKey) -> bool {
    exists|i: int| 0 <= i < slots.len() && (#[trigger] slots[i]).client == key
}

/// `slots` with a column of its own, from `next` on, for each of `keys` that
/// has no slot yet.
pub open spec fn with_strays(
    slots: Seq<OverviewSlot>,
    keys: Seq<ClientKey>,
    next: int,
) -> (Seq<OverviewSlot>, int)
    decreases keys.len(),
{
    if keys.len() == 0 {
        (slots, next)
    } else {
        let (before, column) = with_strays(slots, keys.drop_last(), next);
        if has_slot(before, keys.last()) {
            (before, column)
        } else {
            (
                before.push(
                    OverviewSlot {
                        client: keys.last(),
                        column_index: column as usize,
                        row: 0,
                        rows: 1,
                        focused_column: false,
                    },
                ),
                column + 1,
            )
        }
    }
}

/// The slots of the overview: the strip, and after it the strays.
pub open spec fn overview(strip: Strip, visible: Seq<ClientKey>) -> Seq<OverviewSlot> {
    with_strays(
        strip_slots(
            strip.columns,
            visible,
            strip.focused_index(),
            strip.columns.len() as int,
        ),
        visible,
        strip.columns.len() as int,
    ).0
}

/// How many of `keys` no column holds.
pub open spec fn strays_in(columns: Seq<Seq<ClientKey>>, keys: Seq<ClientKey>) -> nat
    decreases keys.len(),
{
    if keys.len() == 0 {
        0
    } else {
        strays_in(columns, keys.drop_last()) + if column_with(columns, keys.last(), 0) is None {
            1nat
        } else {
            0
        }
    }
}

fn slotted(slots: &Vec<OverviewSlot>, key: ClientKey) -> (r: bool)
    ensures
        r == has_slot(slots@, key),
{
    let mut i: usize = 0;
    while i < slots.len()
        invariant
            i <= slots@.len(),
            forall|j: int| 0 <= j < i ==> (#[trigger] slots@[j]).client != key,
        decreases slots@.len() - i,
    {
        if slots[i].client == key {
            return true;
        }
        i = i + 1;
    }
    false
}

fn visible_of(keys: &Vec<ClientKey>, visible: &[ClientKey]) -> (r: Vec<ClientKey>)
    ensures
        r@ == visible_in(keys@, visible@),
{
    let mut r: Vec<ClientKey> = Vec::new();
    let mut i: usize = 0;
    while i < keys.len()
        invariant
            i <= keys@.len(),
            r@ == visible_in(keys@.take(i as int), visible@),
        decreases keys@.len() - i,
    {
        proof {
            assert(keys@.take(i + 1).drop_last() =~= keys@.take(i as int));
        }
        if holds(visible, keys[i]) {
            r.push(keys[i]);
        }
        i = i + 1;
    }
    assert(keys@.take(i as int) =~= keys@);
    r
}

impl ScrollingState {
    /// The visible windows in the order of the strip.
    pub fn ordered_visible_clients(&self, visible_clients: &[ClientKey]) -> (r: Vec<ClientKey>)
        ensures
            r@ == ordered(self@.columns, visible_clients@),
    {
        let mut r: Vec<ClientKey> = Vec::new();
        let mut i: usize = 0;
        while i < self.columns.len()
            invariant
                i <= self.columns@.len(),
                r@ == gathered(
                    Seq::empty(),
                    windows_of(self@.columns.take(i as int)),
                    visible_clients@,
                ),
            decreases self.columns@.len() - i,
        {
            gather(&mut r, self.columns[i].as_slice(), visible_clients);
            proof {
                let t = self@.columns.take(i + 1);
                assert(t.drop_last() =~= self@.columns.take(i as int));
                gathered_in_turn(
                    Seq::empty(),
                    windows_of(t.drop_last()),
                    t.last(),
                    visible_clients@,
                );
            }
            i = i + 1;
        }
        assert(self@.columns.take(i as int) =~= self@.columns);
        gather(&mut r, visible_clients, visible_clients);
        r
    }

    /// The rows and columns of the overview of the strip.
    pub fn overview_slots(&self, visible_clients: &[ClientKey]) -> (r: Vec<OverviewSlot>)
        requires
            self@.columns.len() + visible_clients@.len() <= usize::MAX,
        ensures
            r@ == overview(self@, visible_clients@),
    {
        let focused: Option<usize> = self.focused_column_index();
        let mut slots: Vec<OverviewSlot> = Vec::new();
        let mut i: usize = 0;
        while i < self.columns.len()
            invariant
                i <= self.columns@.len(),
                focused == self@.focused_index(),
                slots@ == strip_slots(self@.columns, visible_clients@, focused, i as int),
            decreases self.columns@.len() - i,
        {
            let shown = visible_of(&self.columns[i], visible_clients);
            let at_focus: bool = match focused {
                Some(f) => f == i,
                None => false,
            };
            let ghost before = slots@;
            let ghost whole = column_slots(
                self@.columns[i as int],
                visible_clients@,
                i as int,
                at_focus,
            );
            let mut row: usize = 0;
            while row < shown.len()
                invariant
                    row <= shown@.len(),
                    i < self.columns@.len(),
                    shown@ == visible_in(self@.columns[i as int], visible_clients@),
                    whole == column_slots(
                        self@.columns[i as int],
                        visible_clients@,
                        i as int,
                        at_focus,
                    ),
                    slots@ == before + whole.take(row as int),
                decreases shown@.len() - row,
            {
                slots.push(
                    OverviewSlot {
                        client: shown[row],
                        column_index: i,
                        row,
                        rows: shown.len(),
                        focused_column: at_focus,
                    },
                );
                proof {
                    assert(before + whole.take(row + 1) =~= (before + whole.take(row as int)).push(
                        whole[row as int],
                    ));
                }
                row = row + 1;
            }
            assert(whole.take(row as int) =~= whole);
            i = i + 1;
        }
        let ghost strip = slots@;
        let mut next: usize = self.columns.len();
        let mut k: usize = 0;
        assert(visible_clients@.take(0) =~= Seq::empty());
        while k < visible_clients.len()
            invariant
                k <= visible_clients@.len(),
                self@.columns.len() + visible_clients@.len() <= usize::MAX,
                next <= self@.columns.len() + k,
                (slots@, next as int) == with_strays(
                    strip,
                    visible_clients@.take(k as int),
                    self@.columns.len() as int,
                ),
            decreases visible_clients@.len() - k,
        {
            proof {
                assert(visible_clients@.take(k + 1).drop_last() =~= visible_clients@.take(k as int));
            }
            let client: ClientKey = visible_clients[k];
            if !slotted(&slots, client) {
                slots.push(
                    OverviewSlot {
                        client,
                        column_index: next,
                        row: 0,
                        rows: 1,
                        focused_column: false,
                    },
                );
                next = next + 1;
            }
            k = k + 1;
        }
        assert(visible_clients@.take(k as int) =~= visible_clients@);
        slots
    }

    /// How many of the windows no column holds.
    pub fn stray_count(&self, visible_clients: &[ClientKey]) -> (r: usize)
        ensures
            r == strays_in(self@.columns, visible_clients@),
    {
        let mut r: usize = 0;
        let mut i: usize = 0;
        while i < visible_clients.len()
            invariant
                r <= i <= visible_clients@.len(),
                r == strays_in(self@.columns, visible_clients@.take(i as int)),
            decreases visible_clients@.len() - i,
        {
            proof {
                assert(visible_clients@.take(i + 1).drop_last() =~= visible_clients@.take(i as int));
            }
            if self.find_column(visible_clients[i]).is_none() {
                r = r + 1;
            }
            i = i + 1;
        }
        assert(visible_clients@.take(i as int) =~= visible_clients@);
        r
    }
}

/// Every operation leaves a strip whose lists run beside its columns.
pub open spec fn well_kept(strip: Strip) -> bool {
    strip.widths.len() == strip.columns.len() && strip.focuses.len() == strip.columns.len()
}

proof fn beside_filled_facts(columns: Seq<Seq<ClientKey>>, focuses: Seq<Option<ClientKey>>, n: int)
    requires
        0 <= n <= columns.len() == focuses.len(),
        forall|i: int|
            0 <= i < columns.len() && columns[i].len() > 0 ==> (#[trigger] focuses[i]) is Some
                && columns[i].contains(focuses[i]->0),
    ensures
        ({
            let c = beside_filled(columns, columns, n);
            let f = beside_filled(columns, focuses, n);
            &&& c.len() == f.len()
            &&& forall|i: int|
                0 <= i < c.len() ==> (#[trigger] c[i]).len() > 0 && f[i] is Some && c[i].contains(
                    f[i]->0,
                )
            &&& windows_of(c) == windows_of(columns.take(n))
        }),
    decreases n,
{
    let c = beside_filled(columns, columns, n);
    let f = beside_filled(columns, focuses, n);
    if n == 0 {
        assert(columns.take(0) =~= Seq::empty());
    } else {
        beside_filled_facts(columns, focuses, n - 1);
        assert(columns.take(n).drop_last() =~= columns.take(n - 1));
        if columns[n - 1].len() > 0 {
            let c0 = beside_filled(columns, columns, n - 1);
            let f0 = beside_filled(columns, focuses, n - 1);
            assert(c.drop_last() =~= c0);
            assert(focuses[n - 1] is Some);
            assert forall|i: int| 0 <= i < c.len() implies (#[trigger] c[i]).len() > 0
                && f[i] is Some && c[i].contains(f[i]->0) by {
                if i < c0.len() {
                    assert(c[i] == c0[i] && f[i] == f0[i]);
                }
            }
        } else {
            assert(windows_of(columns.take(n)) =~= windows_of(columns.take(n - 1)));
        }
    }
}

/// Dropping empty columns loses no window and changes no order; every column
/// that stays holds a window and gives the focus to one of its own, and one of
/// the columns has the focus.
pub proof fn compacting_loses_nothing(strip: Strip)
    requires
        strip.columns.len() <= usize::MAX,
    ensures
        windows_of(strip.compacted().columns) == windows_of(strip.columns),
        well_kept(strip.compacted()),
        forall|i: int|
            0 <= i < strip.compacted().columns.len() ==> {
                &&& (#[trigger] strip.compacted().columns[i]).len() > 0
                &&& strip.compacted().focuses[i] is Some
                &&& strip.compacted().columns[i].contains(strip.compacted().focuses[i]->0)
            },
        strip.compacted().columns.len() > 0 ==> strip.compacted().focused_index() is Some,
{
    let n = strip.columns.len() as int;
    let a = strip.aligned();
    let focuses = Seq::new(n as nat, |i: int| focus_in(strip.columns[i], a.focuses[i]));
    assert forall|i: int| 0 <= i < n && strip.columns[i].len() > 0 implies (
    #[trigger] focuses[i]) is Some && strip.columns[i].contains(focuses[i]->0) by {
        assert(strip.columns[i].contains(strip.columns[i][0]));
    }
    beside_filled_facts(strip.columns, focuses, n);
    assert(strip.columns.take(n) =~= strip.columns);
    filled_count(strip.columns, strip.columns, n);
    filled_count(strip.columns, a.widths, n);
    if let Some(i) = strip.focused {
        if i < n && strip.columns[i as int].len() > 0 {
            filled_grows(strip.columns, i as int, n);
            filled_count(strip.columns, strip.columns, i as int);
        }
    }
}

proof fn filled_grows(columns: Seq<Seq<ClientKey>>, i: int, n: int)
    requires
        0 <= i < n <= columns.len(),
        columns[i].len() > 0,
    ensures
        filled_before(columns, i) < filled_before(columns, n),
    decreases n,
{
    if i < n - 1 {
        filled_grows(columns, i, n - 1);
    }
}

/// A new window is in the strip, in the focused column, and has its focus.
pub proof fn new_windows_get_the_focus(strip: Strip, key: ClientKey)
    requires
        strip.columns.len() < usize::MAX,
    ensures
        ({
            let after = strip.inserted(key);
            &&& well_kept(after)
            &&& after.focused_index() is Some
            &&& after.target(after.focused_index()->0 as int) == Some(key)
        }),
{
    let after = strip.inserted(key);
    let i = after.focused->0 as int;
    assert(after.columns[i].last() == key);
    assert(after.columns[i].contains(key));
}

} // verus!
