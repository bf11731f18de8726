//! Editing the text of a configuration file: the block of per-tag layouts that
//! is written back, and the comments that list available options.
use super::literals::{literal_is_one_line, toml_literal, toml_string_literal};
use super::types::{Config, LayoutTagConfig};
use crate::text::{
    are_pieces, begins_with, chars_of, decimal, is_ended, is_piece, is_space, join_lines, one_line,
    pieces, pieces_make_the_text, pieces_round_trip, proper_lines, push_int, push_nat,
    put_together, split_pieces, str_eq, together, together_in_turn, trim, trim_end_of,
    trim_start_of, trimmed, unlines, views, with_feeds, written_lines_are_pieces,
};
use vstd::prelude::*;

verus! {

/// The comment above the block of per-tag layouts, written and recognized
/// verbatim.
pub open spec fn layout_tags_header() -> Seq<Seq<char>> {
    seq![
        "# --- per-tag layout, saved by jwm ---"@,
        "# Rewritten when a tag's layout changes; set layout.persist_tags"@,
        "# to false to keep this block under your own hand."@,
    ]
}

/// Whether a line is one of the header.
pub open spec fn is_header(line: Seq<char>) -> bool {
    ||| trimmed(line) == "# --- per-tag layout, saved by jwm ---"@
    ||| trimmed(line) == "# Rewritten when a tag's layout changes; set layout.persist_tags"@
    ||| trimmed(line) == "# to false to keep this block under your own hand."@
}

/// Whether a line is the first of the header.
pub open spec fn is_title(line: Seq<char>) -> bool {
    trimmed(line) == "# --- per-tag layout, saved by jwm ---"@
}

/// The blank line that a save puts before the block.
pub open spec fn separator() -> Seq<char> {
    seq!['\n']
}

/// Whether a line opens an entry of the block.
pub open spec fn is_entry_start(line: Seq<char>) -> bool {
    trimmed(line) == "[[layout.tags]]"@
}

/// Whether a line is a table header.
pub open spec fn is_table(line: Seq<char>) -> bool {
    trimmed(line).len() > 0 && trimmed(line)[0] == '['
}

/// The lines kept of a document, and whether the last line lies in an entry of
/// the block. An entry runs up to the next table header. The blank line right
/// before the header goes with it.
pub open spec fn kept_state(lines: Seq<Seq<char>>) -> (Seq<Seq<char>>, bool)
    decreases lines.len(),
{
    if lines.len() == 0 {
        (Seq::empty(), false)
    } else {
        let (kept, inside) = kept_state(lines.drop_last());
        let line = lines.last();
        if is_title(line) && !inside && lines.len() > 1 && lines[lines.len() - 2] == separator() {
            (kept.drop_last(), inside)
        } else if is_header(line) {
            (kept, inside)
        } else if is_entry_start(line) {
            (kept, true)
        } else if inside && !is_table(line) {
            (kept, true)
        } else {
            (kept.push(line), false)
        }
    }
}

/// A document without the block of per-tag layouts.
pub open spec fn without_block(text: Seq<char>) -> Seq<char> {
    together(kept_state(pieces(text)).0)
}

/// A document whose last line is closed by a line feed.
pub open spec fn ended(text: Seq<char>) -> Seq<char> {
    if is_ended(text) {
        text
    } else {
        text.push('\n')
    }
}

/// A line of a name and its value.
pub open spec fn assignment(name: &str, value: Seq<char>) -> Seq<char> {
    name@ + value
}

/// The lines of one entry; `fact` is the decimal text of its master fraction.
pub open spec fn entry_lines(e: LayoutTagConfig, fact: Seq<char>) -> Seq<Seq<char>> {
    let l = Seq::empty().push("[[layout.tags]]"@).push(
        assignment("tag = ", decimal(e.tag as int)),
    ).push(assignment("monitor = ", decimal(e.monitor as int)));
    let l = if e.layout@.len() == 0 {
        l
    } else {
        l.push(assignment("layout = ", toml_literal(e.layout@)))
    };
    let l = if e.alt@.len() == 0 {
        l
    } else {
        l.push(assignment("alt = ", toml_literal(e.alt@)))
    };
    let l = match e.n_master {
        Some(v) => l.push(assignment("n_master = ", decimal(v as int))),
        None => l,
    };
    let l = match e.m_fact {
        Some(v) => if v.finite() {
            l.push(assignment("m_fact = ", fact))
        } else {
            l
        },
        None => l,
    };
    match e.gap {
        Some(v) => l.push(assignment("gap = ", decimal(v as int))),
        None => l,
    }
}

/// The lines of the first `count` entries.
pub open spec fn entries_lines(
    entries: Seq<LayoutTagConfig>,
    facts: Seq<Seq<char>>,
    count: int,
) -> Seq<Seq<char>>
    decreases count,
{
    if count <= 0 {
        Seq::empty()
    } else {
        entries_lines(entries, facts, count - 1) + entry_lines(
            entries[count - 1],
            facts[count - 1],
        )
    }
}

/// The lines of the block: its header and its entries, or nothing when there
/// are none.
pub open spec fn block_lines(
    entries: Seq<LayoutTagConfig>,
    facts: Seq<Seq<char>>,
) -> Seq<Seq<char>> {
    if entries.len() == 0 {
        Seq::empty()
    } else {
        layout_tags_header() + entries_lines(entries, facts, entries.len() as int)
    }
}

/// A document with its block of per-tag layouts replaced: what stays, a blank
/// line, and the block. Without entries what stays is all there is.
pub open spec fn with_block(
    text: Seq<char>,
    entries: Seq<LayoutTagConfig>,
    facts: Seq<Seq<char>>,
) -> Seq<char> {
    if entries.len() == 0 {
        without_block(text)
    } else {
        ended(without_block(text)) + separator() + unlines(block_lines(entries, facts))
    }
}

fn title_line(line: &str) -> (r: bool)
    ensures
        r == is_title(line@),
{
    str_eq(trim(line).as_str(), "# --- per-tag layout, saved by jwm ---")
}

fn header_line(line: &str) -> (r: bool)
    ensures
        r == is_header(line@),
{
    let text = trim(line);
    let text = text.as_str();
    str_eq(text, "# --- per-tag layout, saved by jwm ---") || str_eq(
        text,
        "# Rewritten when a tag's layout changes; set layout.persist_tags",
    ) || str_eq(text, "# to false to keep this block under your own hand.")
}

fn entry_start(line: &str) -> (r: bool)
    ensures
        r == is_entry_start(line@),
{
    str_eq(trim(line).as_str(), "[[layout.tags]]")
}

fn table_line(line: &str) -> (r: bool)
    ensures
        r == is_table(line@),
{
    let chars = chars_of(trim(line).as_str());
    chars.len() > 0 && chars[0] == '['
}

fn is_separator(line: &str) -> (r: bool)
    ensures
        r == (line@ == separator()),
{
    let chars = chars_of(line);
    let r = chars.len() == 1 && chars[0] == '\n';
    assert(r ==> line@ == separator());
    r
}

fn push_line(lines: &mut Vec<String>, line: String)
    ensures
        views(final(lines)@) == views(old(lines)@).push(line@),
{
    lines.push(line);
    assert(views(lines@) == views(old(lines)@).push(line@));
}

fn push_assignment(lines: &mut Vec<String>, name: &str, value: &str)
    ensures
        views(final(lines)@) == views(old(lines)@).push(assignment(name, value@)),
{
    push_line(lines, name.to_string().concat(value));
}

fn push_entry(lines: &mut Vec<String>, e: &LayoutTagConfig, fact: &str)
    ensures
        views(final(lines)@) == views(old(lines)@) + entry_lines(*e, fact@),
{
    let ghost start = views(lines@);
    push_line(lines, "[[layout.tags]]".to_string());
    let mut tag = String::new();
    push_nat(&mut tag, e.tag as u64);
    assert(tag@ == decimal(e.tag as int));
    push_assignment(lines, "tag = ", tag.as_str());
    let mut monitor = String::new();
    push_int(&mut monitor, e.monitor as i64);
    assert(monitor@ == decimal(e.monitor as int));
    push_assignment(lines, "monitor = ", monitor.as_str());
    if !e.layout.as_str().is_empty() {
        push_assignment(lines, "layout = ", toml_string_literal(e.layout.as_str()).as_str());
    }
    if !e.alt.as_str().is_empty() {
        push_assignment(lines, "alt = ", toml_string_literal(e.alt.as_str()).as_str());
    }
    if let Some(v) = e.n_master {
        let mut n_master = String::new();
        push_nat(&mut n_master, v as u64);
        assert(n_master@ == decimal(v as int));
        push_assignment(lines, "n_master = ", n_master.as_str());
    }
    if let Some(v) = e.m_fact {
        if v.is_finite() {
            push_assignment(lines, "m_fact = ", fact);
        }
    }
    if let Some(v) = e.gap {
        let mut gap = String::new();
        push_int(&mut gap, v as i64);
        assert(gap@ == decimal(v as int));
        push_assignment(lines, "gap = ", gap.as_str());
    }
    assert(views(lines@) == start + entry_lines(*e, fact@));
}

impl Config {
    /// Removes the block of per-tag layouts from a document, with its header and
    /// the blank line that a save put before it. Everything else is untouched.
    pub fn strip_layout_tag_blocks(text: &str) -> (r: String)
        ensures
            r@ == without_block(text@),
            !has_block(text@) ==> r@ == text@,
    {
        let lines = split_pieces(text);
        let ghost all = views(lines@);
        let mut kept: Vec<String> = Vec::new();
        let mut inside = false;
        let mut i: usize = 0;
        assert(all.take(0) == Seq::<Seq<char>>::empty());
        assert(views(kept@) == Seq::<Seq<char>>::empty());
        while i < lines.len()
            invariant
                i <= lines@.len(),
                all == views(lines@),
                views(kept@) == kept_state(all.take(i as int)).0,
                inside == kept_state(all.take(i as int)).1,
            decreases lines@.len() - i,
        {
            let ghost before = all.take(i as int);
            let ghost now = all.take(i + 1);
            assert(now.drop_last() == before);
            assert(now.last() == lines@[i as int]@);
            let line = lines[i].as_str();
            let blank = i > 0 && is_separator(lines[i - 1].as_str());
            assert(i > 0 ==> now[now.len() - 2] == lines@[i - 1]@);
            if title_line(line) && !inside && blank {
                let ghost so_far = views(kept@);
                proof {
                    separator_is_kept(before);
                }
                kept.pop();
                assert(views(kept@) == so_far.drop_last());
            } else if header_line(line) {
            } else if entry_start(line) {
                inside = true;
            } else if inside && !table_line(line) {
            } else {
                inside = false;
                push_line(&mut kept, lines[i].clone());
            }
            i += 1;
        }
        assert(all.take(all.len() as int) == all);
        proof {
            if !has_block(text@) {
                clean_is_kept(pieces(text@));
                pieces_make_the_text(text@);
            }
        }
        put_together(&kept)
    }

    /// The lines of the block of per-tag layouts; `facts` are the decimal texts
    /// of the master fractions.
    fn rendered_lines(entries: &[LayoutTagConfig], facts: &[String]) -> (r: Vec<String>)
        requires
            facts@.len() == entries@.len(),
        ensures
            views(r@) == block_lines(entries@, views(facts@)),
    {
        let mut lines: Vec<String> = Vec::new();
        assert(views(lines@) == Seq::<Seq<char>>::empty());
        if entries.len() == 0 {
            return lines;
        }
        push_line(&mut lines, "# --- per-tag layout, saved by jwm ---".to_string());
        push_line(
            &mut lines,
            "# Rewritten when a tag's layout changes; set layout.persist_tags".to_string(),
        );
        push_line(&mut lines, "# to false to keep this block under your own hand.".to_string());
        assert(views(lines@) == layout_tags_header());
        let mut i: usize = 0;
        assert(layout_tags_header() + Seq::<Seq<char>>::empty() == layout_tags_header());
        while i < entries.len()
            invariant
                i <= entries@.len(),
                facts@.len() == entries@.len(),
                views(lines@) == layout_tags_header() + entries_lines(
                    entries@,
                    views(facts@),
                    i as int,
                ),
            decreases entries@.len() - i,
        {
            push_entry(&mut lines, &entries[i], facts[i].as_str());
            assert(views(lines@) == layout_tags_header() + entries_lines(
                entries@,
                views(facts@),
                i + 1,
            ));
            i += 1;
        }
        lines
    }

    /// The block of per-tag layouts as text; `facts` are the decimal texts of
    /// the master fractions. A fraction that is not finite is not written.
    pub fn render_layout_tag_blocks(entries: &[LayoutTagConfig], facts: &[String]) -> (r: String)
        requires
            facts@.len() == entries@.len(),
        ensures
            r@ == unlines(block_lines(entries@, views(facts@))),
    {
        let lines = Self::rendered_lines(entries, facts);
        join_lines(&lines)
    }

    /// A document with its block of per-tag layouts replaced, every other byte
    /// being left as it was; `facts` are the decimal texts of the master
    /// fractions. Only a missing line feed at the end is put in before a block.
    pub fn replace_layout_tag_blocks(
        existing: &str,
        entries: &[LayoutTagConfig],
        facts: &[String],
    ) -> (r: String)
        requires
            facts@.len() == entries@.len(),
        ensures
            r@ == with_block(existing@, entries@, views(facts@)),
            entries@.len() == 0 && !has_block(existing@) ==> r@ == existing@,
    {
        let mut text = Self::strip_layout_tag_blocks(existing);
        if entries.len() > 0 {
            let chars = chars_of(text.as_str());
            if chars.len() > 0 && chars[chars.len() - 1] != '\n' {
                text.push('\n');
            }
            let ghost kept = text@;
            text.push('\n');
            text.append(Self::render_layout_tag_blocks(entries, facts).as_str());
            assert(kept.push('\n') == kept + separator());
        }
        text
    }
}

proof fn trim_end_keeps_first(s: Seq<char>)
    requires
        s.len() > 0,
        !is_space(s[0]),
    ensures
        trim_end_of(s).len() > 0,
        trim_end_of(s)[0] == s[0],
    decreases s.len(),
{
    if is_space(s.last()) {
        assert(s.len() > 1);
        trim_end_keeps_first(s.drop_last());
    }
}

/// A line that begins with a visible character keeps it when trimmed.
proof fn trimmed_keeps_first(s: Seq<char>)
    requires
        s.len() > 0,
        !is_space(s[0]),
    ensures
        trimmed(s).len() > 0,
        trimmed(s)[0] == s[0],
{
    trim_end_keeps_first(s);
}

proof fn reveal_header()
    ensures
        "# --- per-tag layout, saved by jwm ---"@.len() > 0,
        "# --- per-tag layout, saved by jwm ---"@[0] == '#',
        "# --- per-tag layout, saved by jwm ---"@.last() == '-',
        "# Rewritten when a tag's layout changes; set layout.persist_tags"@.len() > 0,
        "# Rewritten when a tag's layout changes; set layout.persist_tags"@[0] == '#',
        "# Rewritten when a tag's layout changes; set layout.persist_tags"@.last() == 's',
        "# to false to keep this block under your own hand."@.len() > 0,
        "# to false to keep this block under your own hand."@[0] == '#',
        "# to false to keep this block under your own hand."@.last() == '.',
        "[[layout.tags]]"@.len() > 0,
        "[[layout.tags]]"@[0] == '[',
        "[[layout.tags]]"@.last() == ']',
{
    reveal_strlit("# --- per-tag layout, saved by jwm ---");
    reveal_strlit("# Rewritten when a tag's layout changes; set layout.persist_tags");
    reveal_strlit("# to false to keep this block under your own hand.");
    reveal_strlit("[[layout.tags]]");
}

/// A line that an open entry absorbs.
pub open spec fn absorbed(line: Seq<char>) -> bool {
    !is_header(line) && !is_entry_start(line) && !is_table(line)
}

proof fn plain_line_is_absorbed(line: Seq<char>)
    requires
        line.len() > 0,
        !is_space(line[0]),
        line[0] != '#',
        line[0] != '[',
    ensures
        absorbed(line),
{
    trimmed_keeps_first(line);
    reveal_header();
}

/// Whether lines are entries of the block, one after the other.
pub open spec fn are_entries(lines: Seq<Seq<char>>) -> bool {
    &&& lines.len() > 0
    &&& is_entry_start(lines[0])
    &&& forall|i: int|
        0 <= i < lines.len() ==> is_entry_start(#[trigger] lines[i]) || absorbed(lines[i])
}

proof fn entries_are_dropped(a: Seq<Seq<char>>, b: Seq<Seq<char>>)
    requires
        are_entries(b),
    ensures
        kept_state(a + b) == (kept_state(a).0, true),
    decreases b.len(),
{
    reveal_header();
    let rest = b.drop_last();
    assert((a + b).drop_last() == a + rest);
    assert((a + b).last() == b[b.len() - 1]);
    if rest.len() == 0 {
        assert(a + rest == a);
        assert(b[b.len() - 1] == b[0]);
    } else {
        assert forall|i: int| 0 <= i < rest.len() implies is_entry_start(#[trigger] rest[i])
            || absorbed(rest[i]) by {
            assert(rest[i] == b[i]);
        }
        entries_are_dropped(a, rest);
    }
}

/// Whether lines hold no line of the header and open no entry.
pub open spec fn clean(lines: Seq<Seq<char>>) -> bool {
    forall|i: int|
        0 <= i < lines.len() ==> !is_header(#[trigger] lines[i]) && !is_entry_start(lines[i])
}

/// Whether a document holds a block of per-tag layouts, or a part of one.
pub open spec fn has_block(text: Seq<char>) -> bool {
    !clean(pieces(text))
}

/// The separator is kept wherever no entry is open.
proof fn separator_is_kept(lines: Seq<Seq<char>>)
    requires
        lines.len() > 0,
        lines.last() == separator(),
        !kept_state(lines).1,
    ensures
        kept_state(lines).0.len() > 0,
        kept_state(lines).0.drop_last() == kept_state(lines.drop_last()).0,
        kept_state(lines).0.last() == separator(),
        !kept_state(lines.drop_last()).1 || is_table(separator()),
{
    reveal_header();
    let line = separator();
    assert(line.drop_first() == Seq::<char>::empty());
    assert(trim_start_of(line) == Seq::<char>::empty()) by {
        reveal_with_fuel(trim_start_of, 2);
    }
    assert(trimmed(line) == Seq::<char>::empty());
    let kept = kept_state(lines.drop_last()).0;
    assert(kept.push(line).drop_last() == kept);
}

proof fn kept_is_clean(lines: Seq<Seq<char>>)
    requires
        are_pieces(lines),
    ensures
        clean(kept_state(lines).0),
        are_pieces(kept_state(lines).0),
        lines.len() > 0 && lines.last().last() == '\n' ==> forall|i: int|
            0 <= i < kept_state(lines).0.len() ==> (#[trigger] kept_state(lines).0[i]).last()
                == '\n',
    decreases lines.len(),
{
    if lines.len() > 0 {
        let rest = lines.drop_last();
        assert forall|i: int| 0 <= i < rest.len() implies is_piece(#[trigger] rest[i])
            && rest[i].last() == '\n' by {
            assert(rest[i] == lines[i]);
        }
        kept_is_clean(rest);
        let (before, inside) = kept_state(rest);
        if rest.len() == 0 {
            assert(before == Seq::<Seq<char>>::empty());
        }
        let kept = kept_state(lines).0;
        if is_title(lines.last()) && !inside && lines.len() > 1 && lines[lines.len() - 2]
            == separator() {
            assert(rest.last() == lines[lines.len() - 2]);
            separator_is_kept(rest);
        }
        assert(is_piece(lines[lines.len() - 1]));
        assert forall|i: int| 0 <= i < kept.len() implies !is_header(#[trigger] kept[i])
            && !is_entry_start(kept[i]) && is_piece(kept[i]) && (i < kept.len() - 1
            || lines.last().last() == '\n' ==> kept[i].last() == '\n') by {
            if i < before.len() {
                assert(kept[i] == before[i]);
                assert(before[i].last() == '\n');
            }
        }
    }
}

proof fn clean_lines_follow(a: Seq<Seq<char>>, b: Seq<Seq<char>>)
    requires
        clean(b),
        b.len() > 0 && kept_state(a).1 ==> is_table(b[0]),
    ensures
        kept_state(a + b).0 == kept_state(a).0 + b,
        b.len() > 0 ==> !kept_state(a + b).1,
    decreases b.len(),
{
    if b.len() == 0 {
        assert(a + b == a);
        assert(kept_state(a).0 + b == kept_state(a).0);
    } else {
        let rest = b.drop_last();
        assert forall|i: int| 0 <= i < rest.len() implies !is_header(#[trigger] rest[i])
            && !is_entry_start(rest[i]) by {
            assert(rest[i] == b[i]);
        }
        clean_lines_follow(a, rest);
        assert((a + b).drop_last() == a + rest);
        assert((a + b).last() == b[b.len() - 1]);
        if rest.len() == 0 {
            assert(a + rest == a);
        }
        assert((kept_state(a).0 + rest).push(b.last()) == kept_state(a).0 + b);
    }
}

proof fn clean_is_kept(lines: Seq<Seq<char>>)
    requires
        clean(lines),
    ensures
        kept_state(lines) == (lines, false),
{
    let none = Seq::<Seq<char>>::empty();
    clean_lines_follow(none, lines);
    assert(none + lines == lines);
}

proof fn feed_is_trimmed(s: Seq<char>)
    ensures
        trimmed(s.push('\n')) == trimmed(s),
    decreases s.len(),
{
    let t = s.push('\n');
    if s.len() == 0 {
        assert(t.drop_first() == s);
    } else if is_space(s[0]) {
        feed_is_trimmed(s.drop_first());
        assert(t.drop_first() == s.drop_first().push('\n'));
    } else {
        assert(t.drop_last() == s);
    }
}

proof fn header_is_dropped(a: Seq<Seq<char>>)
    requires
        !kept_state(a).1,
    ensures
        kept_state(a.push(separator()) + with_feeds(layout_tags_header())) == kept_state(a),
{
    reveal_header();
    let lines = layout_tags_header();
    let h = with_feeds(lines);
    feed_is_trimmed(lines[0]);
    feed_is_trimmed(lines[1]);
    feed_is_trimmed(lines[2]);
    assert(trimmed(h[0]) == lines[0]);
    assert(trimmed(h[1]) == lines[1]);
    assert(trimmed(h[2]) == lines[2]);
    let blank = a.push(separator());
    let a1 = blank.push(h[0]);
    let a2 = a1.push(h[1]);
    let a3 = a2.push(h[2]);
    assert(blank.drop_last() == a);
    assert(a1.drop_last() == blank);
    assert(a1[a1.len() - 2] == separator());
    assert(a2.drop_last() == a1);
    assert(a3.drop_last() == a2);
    feed_is_trimmed(Seq::empty());
    assert(Seq::<char>::empty().push('\n') == separator());
    assert(trimmed(separator()).len() == 0);
    assert(!kept_state(blank).1);
    separator_is_kept(blank);
    assert(kept_state(a1) == kept_state(a));
    assert(kept_state(a2) == kept_state(a1));
    assert(kept_state(a3) == kept_state(a2));
    assert(blank + h == a3);
}

proof fn entry_lines_are_entries(e: LayoutTagConfig, fact: Seq<char>)
    ensures
        are_entries(with_feeds(entry_lines(e, fact))),
{
    reveal_header();
    reveal_strlit("tag = ");
    reveal_strlit("monitor = ");
    reveal_strlit("layout = ");
    reveal_strlit("alt = ");
    reveal_strlit("n_master = ");
    reveal_strlit("m_fact = ");
    reveal_strlit("gap = ");
    let lines = entry_lines(e, fact);
    let fed = with_feeds(lines);
    feed_is_trimmed(lines[0]);
    assert(trimmed(lines[0]) == "[[layout.tags]]"@);
    assert forall|i: int| 0 <= i < fed.len() implies is_entry_start(#[trigger] fed[i])
        || absorbed(fed[i]) by {
        if i > 0 {
            assert(fed[i] == lines[i].push('\n'));
            plain_line_is_absorbed(fed[i]);
        }
    }
}

proof fn entries_lines_are_entries(
    entries: Seq<LayoutTagConfig>,
    facts: Seq<Seq<char>>,
    count: int,
)
    requires
        0 < count <= entries.len(),
    ensures
        are_entries(with_feeds(entries_lines(entries, facts, count))),
    decreases count,
{
    let last = entry_lines(entries[count - 1], facts[count - 1]);
    let before = entries_lines(entries, facts, count - 1);
    let fed = with_feeds(entries_lines(entries, facts, count));
    entry_lines_are_entries(entries[count - 1], facts[count - 1]);
    assert(fed == with_feeds(before) + with_feeds(last));
    if count > 1 {
        entries_lines_are_entries(entries, facts, count - 1);
    } else {
        assert(fed == with_feeds(last));
    }
    assert forall|i: int| 0 <= i < fed.len() implies is_entry_start(#[trigger] fed[i])
        || absorbed(fed[i]) by {
        if i < before.len() {
            assert(fed[i] == with_feeds(before)[i]);
        } else {
            assert(fed[i] == with_feeds(last)[i - before.len()]);
        }
    }
}

proof fn decimal_is_one_line(v: int)
    ensures
        one_line(decimal(v)),
{
    if v < 0 {
        numeral_is_one_line((-v) as nat);
        let d = decimal(v);
        if d.contains('\n') {
            let k = choose|k: int| 0 <= k < d.len() && d[k] == '\n';
            assert(k > 0);
            assert(crate::text::numeral((-v) as nat, 10)[k - 1] == '\n');
        }
    } else {
        numeral_is_one_line(v as nat);
    }
}

proof fn numeral_is_one_line(v: nat)
    ensures
        one_line(crate::text::numeral(v, 10)),
    decreases v,
{
    let d = crate::text::numeral(v, 10);
    if v >= 10 {
        numeral_is_one_line(v / 10);
        if d.contains('\n') {
            let k = choose|k: int| 0 <= k < d.len() && d[k] == '\n';
            if k < d.len() - 1 {
                assert(crate::text::numeral(v / 10, 10)[k] == '\n');
            }
        }
    }
}

proof fn joined_lines_are_one(a: Seq<char>, b: Seq<char>)
    requires
        one_line(a),
        one_line(b),
    ensures
        one_line(a + b),
{
    if (a + b).contains('\n') {
        let k = choose|k: int| 0 <= k < (a + b).len() && (a + b)[k] == '\n';
        if k < a.len() {
            assert(a[k] == '\n');
        } else {
            assert(b[k - a.len()] == '\n');
        }
    }
}

proof fn entry_lines_are_proper(e: LayoutTagConfig, fact: Seq<char>)
    requires
        one_line(fact),
    ensures
        proper_lines(entry_lines(e, fact)),
{
    reveal_strlit("[[layout.tags]]");
    reveal_strlit("tag = ");
    reveal_strlit("monitor = ");
    reveal_strlit("layout = ");
    reveal_strlit("alt = ");
    reveal_strlit("n_master = ");
    reveal_strlit("m_fact = ");
    reveal_strlit("gap = ");
    decimal_is_one_line(e.tag as int);
    decimal_is_one_line(e.monitor as int);
    literal_is_one_line(e.layout@);
    literal_is_one_line(e.alt@);
    joined_lines_are_one("tag = "@, decimal(e.tag as int));
    joined_lines_are_one("monitor = "@, decimal(e.monitor as int));
    joined_lines_are_one("layout = "@, toml_literal(e.layout@));
    joined_lines_are_one("alt = "@, toml_literal(e.alt@));
    joined_lines_are_one("m_fact = "@, fact);
    if let Some(v) = e.n_master {
        decimal_is_one_line(v as int);
        joined_lines_are_one("n_master = "@, decimal(v as int));
    }
    if let Some(v) = e.gap {
        decimal_is_one_line(v as int);
        joined_lines_are_one("gap = "@, decimal(v as int));
    }
}

proof fn entries_lines_are_proper(
    entries: Seq<LayoutTagConfig>,
    facts: Seq<Seq<char>>,
    count: int,
)
    requires
        0 <= count <= entries.len(),
        facts.len() == entries.len(),
        proper_lines(facts),
    ensures
        proper_lines(entries_lines(entries, facts, count)),
    decreases count,
{
    if count > 0 {
        entries_lines_are_proper(entries, facts, count - 1);
        assert(one_line(facts[count - 1]));
        entry_lines_are_proper(entries[count - 1], facts[count - 1]);
        let a = entries_lines(entries, facts, count - 1);
        let b = entry_lines(entries[count - 1], facts[count - 1]);
        assert forall|i: int| 0 <= i < (a + b).len() implies one_line(#[trigger] (a + b)[i]) by {
            if i < a.len() {
                assert((a + b)[i] == a[i]);
            } else {
                assert((a + b)[i] == b[i - a.len()]);
            }
        }
    }
}

/// The lines of a saved block, with the blank line before it.
pub open spec fn saved_block(
    entries: Seq<LayoutTagConfig>,
    facts: Seq<Seq<char>>,
) -> Seq<Seq<char>> {
    seq![separator()] + with_feeds(block_lines(entries, facts))
}

proof fn saved_block_is_text(entries: Seq<LayoutTagConfig>, facts: Seq<Seq<char>>)
    requires
        entries.len() > 0,
        facts.len() == entries.len(),
        proper_lines(facts),
    ensures
        closed_pieces(saved_block(entries, facts)),
        together(saved_block(entries, facts)) == separator() + unlines(
            block_lines(entries, facts),
        ),
{
    let lines = block_lines(entries, facts);
    let rest = entries_lines(entries, facts, entries.len() as int);
    entries_lines_are_proper(entries, facts, entries.len() as int);
    reveal_strlit("# --- per-tag layout, saved by jwm ---");
    reveal_strlit("# Rewritten when a tag's layout changes; set layout.persist_tags");
    reveal_strlit("# to false to keep this block under your own hand.");
    assert forall|i: int| 0 <= i < lines.len() implies one_line(#[trigger] lines[i]) by {
        if i < 3 {
            assert(lines[i] == layout_tags_header()[i]);
        } else {
            assert(lines[i] == rest[i - 3]);
        }
    }
    written_lines_are_pieces(lines);
    let fed = with_feeds(lines);
    let first = seq![separator()];
    together_in_turn(first, fed);
    assert(first.drop_last() == Seq::<Seq<char>>::empty());
    assert(together(first) == separator()) by {
        reveal_with_fuel(together, 2);
    }
    let all = saved_block(entries, facts);
    assert(separator().drop_last() == Seq::<char>::empty());
    assert forall|i: int| 0 <= i < all.len() implies is_piece(#[trigger] all[i]) && all[i].last()
        == '\n' by {
        if i > 0 {
            assert(all[i] == fed[i - 1]);
            assert(fed[i - 1] == lines[i - 1].push('\n'));
            assert(is_piece(fed[i - 1]));
        }
    }
}

proof fn saved_block_is_dropped(
    a: Seq<Seq<char>>,
    entries: Seq<LayoutTagConfig>,
    facts: Seq<Seq<char>>,
)
    requires
        entries.len() > 0,
        !kept_state(a).1,
    ensures
        kept_state(a + saved_block(entries, facts)) == (kept_state(a).0, true),
{
    let head = with_feeds(layout_tags_header());
    let body = with_feeds(entries_lines(entries, facts, entries.len() as int));
    header_is_dropped(a);
    entries_lines_are_entries(entries, facts, entries.len() as int);
    let headed = a.push(separator()) + head;
    entries_are_dropped(headed, body);
    assert(with_feeds(block_lines(entries, facts)) == head + body);
    assert(a + saved_block(entries, facts) == headed + body);
}

/// Whether parts are lines, each closed by its line feed.
pub open spec fn closed_pieces(parts: Seq<Seq<char>>) -> bool {
    forall|i: int|
        0 <= i < parts.len() ==> is_piece(#[trigger] parts[i]) && parts[i].last() == '\n'
}

/// The pieces of a text with lines between its two halves.
proof fn pieces_in_turn(before: Seq<char>, between: Seq<Seq<char>>, after: Seq<char>)
    requires
        is_ended(before),
        closed_pieces(between),
    ensures
        pieces(before + together(between) + after) == pieces(before) + between + pieces(after),
{
    let a = pieces(before);
    let b = pieces(after);
    pieces_make_the_text(before);
    pieces_make_the_text(after);
    let all = a + between + b;
    together_in_turn(a, between);
    together_in_turn(a + between, b);
    if a.len() > 0 {
        assert(together(a).last() == a.last().last()) by {
            assert(is_piece(a[a.len() - 1]));
        }
    }
    assert forall|i: int| 0 <= i < all.len() implies is_piece(#[trigger] all[i]) && (i < all.len()
        - 1 ==> all[i].last() == '\n') by {
        if i < a.len() {
            assert(all[i] == a[i]);
            if i == a.len() - 1 {
                assert(a.last() == a[i]);
            }
        } else if i < a.len() + between.len() {
            assert(all[i] == between[i - a.len()]);
        } else {
            assert(all[i] == b[i - a.len() - between.len()]);
        }
    }
    pieces_round_trip(all);
}

proof fn ending_keeps_clean(text: Seq<char>)
    requires
        !has_block(text),
    ensures
        is_ended(ended(text)),
        !has_block(ended(text)),
{
    if !is_ended(text) {
        let before = pieces(text);
        let all = pieces(ended(text));
        pieces_make_the_text(text);
        assert(ended(text).drop_last() == text);
        assert(before.len() > 0);
        assert(is_piece(before[before.len() - 1]));
        assert(together(before).last() == before.last().last());
        feed_is_trimmed(before.last());
        assert forall|i: int| 0 <= i < all.len() implies !is_header(#[trigger] all[i])
            && !is_entry_start(all[i]) by {
            assert(!is_header(before[i]));
        }
    }
}

/// What is left of a document holds no block.
pub proof fn what_stays_has_no_block(text: Seq<char>)
    ensures
        !has_block(without_block(text)),
{
    pieces_make_the_text(text);
    kept_is_clean(pieces(text));
    pieces_round_trip(kept_state(pieces(text)).0);
}

/// Saving replaces the saved block rather than adding to it: after a save, a
/// second one gives what it would have given on the document before. Saving
/// the same layouts twice therefore changes nothing, and saving none gives back
/// what was there, but for a missing line feed at its end, which the save put
/// in.
pub proof fn saving_replaces(
    text: Seq<char>,
    first: Seq<LayoutTagConfig>,
    first_facts: Seq<Seq<char>>,
    second: Seq<LayoutTagConfig>,
    second_facts: Seq<Seq<char>>,
)
    requires
        first_facts.len() == first.len(),
        proper_lines(first_facts),
    ensures
        second.len() > 0 ==> with_block(
            with_block(text, first, first_facts),
            second,
            second_facts,
        ) == with_block(text, second, second_facts),
        without_block(with_block(text, first, first_facts)) == if first.len() == 0 {
            without_block(text)
        } else {
            ended(without_block(text))
        },
{
    let kept = without_block(text);
    what_stays_has_no_block(text);
    if first.len() == 0 {
        saving_leaves_the_rest_alone(kept, second, second_facts);
    } else {
        ending_keeps_clean(kept);
        saved_block_is_text(first, first_facts);
        only_the_block_is_taken(ended(kept), Seq::empty(), first, first_facts);
        let saved = with_block(text, first, first_facts);
        assert(ended(kept) + separator() + unlines(block_lines(first, first_facts))
            + Seq::<char>::empty() == saved);
        assert(ended(kept) + Seq::<char>::empty() == ended(kept));
    }
}

/// A document without such a block is left as it is, to the byte: with nothing
/// to save it is the same, and what is saved comes after it.
pub proof fn saving_leaves_the_rest_alone(
    text: Seq<char>,
    entries: Seq<LayoutTagConfig>,
    facts: Seq<Seq<char>>,
)
    requires
        !has_block(text),
    ensures
        without_block(text) == text,
        entries.len() == 0 ==> with_block(text, entries, facts) == text,
        entries.len() > 0 ==> with_block(text, entries, facts) == ended(text) + separator()
            + unlines(block_lines(entries, facts)),
        begins_with(with_block(text, entries, facts), text),
{
    clean_is_kept(pieces(text));
    pieces_make_the_text(text);
    let saved = with_block(text, entries, facts);
    assert(saved.take(text.len() as int) == text);
}

/// Wherever a saved block stands in a document, taking it out takes its lines
/// and the blank line before it, and leaves every other byte.
pub proof fn only_the_block_is_taken(
    before: Seq<char>,
    after: Seq<char>,
    entries: Seq<LayoutTagConfig>,
    facts: Seq<Seq<char>>,
)
    requires
        is_ended(before),
        !has_block(before),
        !has_block(after),
        after.len() > 0 ==> is_table(pieces(after)[0]),
        entries.len() > 0,
        facts.len() == entries.len(),
        proper_lines(facts),
    ensures
        without_block(
            before + separator() + unlines(block_lines(entries, facts)) + after,
        ) == before + after,
{
    let block = saved_block(entries, facts);
    saved_block_is_text(entries, facts);
    let a = pieces(before);
    clean_is_kept(a);
    saved_block_is_dropped(a, entries, facts);
    block_between(before, block, after);
    assert(before + together(block) + after == before + separator() + unlines(
        block_lines(entries, facts),
    ) + after);
}

/// Wherever entries without the header stand in a document, taking them out
/// takes their lines and leaves every other byte.
pub proof fn only_the_entries_are_taken(
    before: Seq<char>,
    entries: Seq<Seq<char>>,
    after: Seq<char>,
)
    requires
        is_ended(before),
        !has_block(before),
        !has_block(after),
        after.len() > 0 ==> is_table(pieces(after)[0]),
        are_entries(entries),
        closed_pieces(entries),
    ensures
        without_block(before + together(entries) + after) == before + after,
{
    clean_is_kept(pieces(before));
    entries_are_dropped(pieces(before), entries);
    block_between(before, entries, after);
}

proof fn block_between(before: Seq<char>, block: Seq<Seq<char>>, after: Seq<char>)
    requires
        is_ended(before),
        closed_pieces(block),
        kept_state(pieces(before) + block).0 == pieces(before),
        !has_block(after),
        after.len() > 0 ==> is_table(pieces(after)[0]),
    ensures
        without_block(before + together(block) + after) == before + after,
{
    pieces_in_turn(before, block, after);
    pieces_make_the_text(before);
    pieces_make_the_text(after);
    clean_lines_follow(pieces(before) + block, pieces(after));
    together_in_turn(pieces(before), pieces(after));
}

/// Whether one of the lines states this value under this name.
pub open spec fn states(lines: Seq<Seq<char>>, name: Seq<char>, value: Seq<char>) -> bool {
    exists|i: int| 0 <= i < lines.len() && #[trigger] lines[i] == name + value
}

/// A saved entry states everything that is kept of its tag, under the name of
/// each, and leaves out what is not; nothing else is written.
pub proof fn saved_entries_state_what_is_kept(e: LayoutTagConfig, fact: Seq<char>)
    ensures
        ({
            let l = entry_lines(e, fact);
            let has_layout = e.layout@.len() > 0;
            let has_alt = e.alt@.len() > 0;
            let has_fact = e.m_fact is Some && e.m_fact->0.finite();
            let one = |b: bool|
                if b {
                    1int
                } else {
                    0int
                };
            &&& l[0] == "[[layout.tags]]"@
            &&& states(l, "tag = "@, decimal(e.tag as int))
            &&& states(l, "monitor = "@, decimal(e.monitor as int))
            &&& has_layout ==> states(l, "layout = "@, toml_literal(e.layout@))
            &&& has_alt ==> states(l, "alt = "@, toml_literal(e.alt@))
            &&& e.n_master is Some ==> states(l, "n_master = "@, decimal(e.n_master->0 as int))
            &&& has_fact ==> states(l, "m_fact = "@, fact)
            &&& e.gap is Some ==> states(l, "gap = "@, decimal(e.gap->0 as int))
            &&& l.len() == 3 + one(has_layout) + one(has_alt) + one(e.n_master is Some) + one(
                has_fact,
            ) + one(e.gap is Some)
        }),
{
    let l = entry_lines(e, fact);
    assert(l[1] == "tag = "@ + decimal(e.tag as int));
    assert(l[2] == "monitor = "@ + decimal(e.monitor as int));
    let k = 3int;
    if e.layout@.len() > 0 {
        assert(l[k] == "layout = "@ + toml_literal(e.layout@));
    }
    let k = if e.layout@.len() > 0 {
        k + 1
    } else {
        k
    };
    if e.alt@.len() > 0 {
        assert(l[k] == "alt = "@ + toml_literal(e.alt@));
    }
    let k = if e.alt@.len() > 0 {
        k + 1
    } else {
        k
    };
    if e.n_master is Some {
        assert(l[k] == "n_master = "@ + decimal(e.n_master->0 as int));
    }
    let k = if e.n_master is Some {
        k + 1
    } else {
        k
    };
    if e.m_fact is Some && e.m_fact->0.finite() {
        assert(l[k] == "m_fact = "@ + fact);
    }
    let k = if e.m_fact is Some && e.m_fact->0.finite() {
        k + 1
    } else {
        k
    };
    if e.gap is Some {
        assert(l[k] == "gap = "@ + decimal(e.gap->0 as int));
    }
}

/// The entries are saved one after the other, in their order.
pub proof fn entries_are_saved_in_order(
    entries: Seq<LayoutTagConfig>,
    facts: Seq<Seq<char>>,
    count: int,
    i: int,
)
    requires
        0 <= i < count <= entries.len() == facts.len(),
    ensures
        ({
            let all = entries_lines(entries, facts, count);
            let from = entries_lines(entries, facts, i).len() as int;
            let own = entry_lines(entries[i], facts[i]);
            &&& from + own.len() <= all.len()
            &&& all.subrange(from, from + own.len()) == own
        }),
    decreases count,
{
    let all = entries_lines(entries, facts, count);
    let before = entries_lines(entries, facts, count - 1);
    let from = entries_lines(entries, facts, i).len() as int;
    let own = entry_lines(entries[i], facts[i]);
    if i < count - 1 {
        entries_are_saved_in_order(entries, facts, count - 1, i);
        assert(all.subrange(from, from + own.len()) =~= before.subrange(from, from + own.len()));
    } else {
        assert(all.subrange(from, from + own.len()) =~= own);
    }
}

} // verus!
