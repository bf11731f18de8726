//! Text primitives over Unicode scalar values.
//!
//! A `&str` or `String` is specified by its view, the sequence of its
//! characters.
use vstd::prelude::*;

verus! {

/// `String::push` appends exactly the given character.
pub assume_specification[ std::string::String::push ](s: &mut std::string::String, c: char)
    ensures
        final(s)@ == old(s)@.push(c),
;

/// The Unicode `White_Space` property.
pub open spec fn is_space(c: char) -> bool {
    let n = c as u32;
    ||| 0x09 <= n <= 0x0d
    ||| n == 0x20
    ||| n == 0x85
    ||| n == 0xa0
    ||| n == 0x1680
    ||| 0x2000 <= n <= 0x200a
    ||| n == 0x2028
    ||| n == 0x2029
    ||| n == 0x202f
    ||| n == 0x205f
    ||| n == 0x3000
}

/// Whether `c` is white space.
pub fn space(c: char) -> (r: bool)
    ensures
        r == is_space(c),
{
    let n: u32 = c as u32;
    (0x09 <= n && n <= 0x0d) || n == 0x20 || n == 0x85 || n == 0xa0 || n == 0x1680 || (0x2000 <= n
        && n <= 0x200a) || n == 0x2028 || n == 0x2029 || n == 0x202f || n == 0x205f || n == 0x3000
}

/// `s` without its leading white space.
pub open spec fn trim_start_of(s: Seq<char>) -> Seq<char>
    decreases s.len(),
{
    if s.len() > 0 && is_space(s[0]) {
        trim_start_of(s.drop_first())
    } else {
        s
    }
}

/// `s` without its trailing white space.
pub open spec fn trim_end_of(s: Seq<char>) -> Seq<char>
    decreases s.len(),
{
    if s.len() > 0 && is_space(s.last()) {
        trim_end_of(s.drop_last())
    } else {
        s
    }
}

/// `s` without surrounding white space.
pub open spec fn trimmed(s: Seq<char>) -> Seq<char> {
    trim_end_of(trim_start_of(s))
}

proof fn trimmed_start(s: Seq<char>)
    ensures
        trim_start_of(s).len() > 0 ==> !is_space(trim_start_of(s)[0]),
    decreases s.len(),
{
    if s.len() > 0 && is_space(s[0]) {
        trimmed_start(s.drop_first());
    }
}

proof fn trimmed_end(s: Seq<char>)
    ensures
        trim_end_of(s).len() > 0 ==> !is_space(trim_end_of(s).last()) && trim_end_of(s)[0] == s[0],
    decreases s.len(),
{
    if s.len() > 0 && is_space(s.last()) {
        trimmed_end(s.drop_last());
    }
}

/// What is trimmed has no white space around it to trim again.
pub proof fn trimming_twice_is_once(s: Seq<char>)
    ensures
        trimmed(trimmed(s)) == trimmed(s),
{
    trimmed_start(s);
    trimmed_end(trim_start_of(s));
}

/// The characters of `s`.
pub fn chars_of(s: &str) -> (r: Vec<char>)
    ensures
        r@ == s@,
{
    let mut out: Vec<char> = Vec::new();
    for c in it: s.chars()
        invariant
            it.seq() == s@,
            out@ == s@.take(it.index()),
    {
        out.push(c);
    }
    assert(s@.take(s@.len() as int) == s@);
    out
}

/// The string made of `chars[from..to]`.
pub fn string_of(chars: &Vec<char>, from: usize, to: usize) -> (r: String)
    requires
        from <= to <= chars@.len(),
    ensures
        r@ == chars@.subrange(from as int, to as int),
{
    let mut out = String::new();
    let mut i: usize = from;
    while i < to
        invariant
            from <= i <= to <= chars@.len(),
            out@ == chars@.subrange(from as int, i as int),
        decreases to - i,
    {
        out.push(chars[i]);
        i += 1;
    }
    out
}

/// Trims surrounding white space.
pub fn trim(s: &str) -> (r: String)
    ensures
        r@ == trimmed(s@),
{
    let chars = chars_of(s);
    let mut from: usize = 0;
    assert(chars@.skip(0) == chars@);
    while from < chars.len() && space(chars[from])
        invariant
            from <= chars@.len(),
            trim_start_of(s@) == trim_start_of(chars@.skip(from as int)),
            chars@ == s@,
        decreases chars@.len() - from,
    {
        assert(chars@.skip(from as int).drop_first() == chars@.skip(from + 1));
        from += 1;
    }
    let mut to: usize = chars.len();
    let ghost rest = chars@.skip(from as int);
    assert(rest.take(to - from) == rest);
    while from < to && space(chars[to - 1])
        invariant
            from <= to <= chars@.len(),
            rest == chars@.skip(from as int),
            trim_end_of(rest) == trim_end_of(rest.take(to - from)),
        decreases to,
    {
        assert(rest.take(to - from).drop_last() == rest.take(to - from - 1));
        to -= 1;
    }
    assert(rest.take(to - from) == chars@.subrange(from as int, to as int));
    string_of(&chars, from, to)
}

/// Whether two strings hold the same characters.
pub fn str_eq(a: &str, b: &str) -> (r: bool)
    ensures
        r == (a@ == b@),
{
    let want = chars_of(b);
    let mut i: usize = 0;
    for c in it: a.chars()
        invariant
            it.seq() == a@,
            i == it.index(),
            i <= want@.len(),
            want@ == b@,
            a@.take(i as int) == b@.take(i as int),
    {
        if i >= want.len() || want[i] != c {
            return false;
        }
        i += 1;
    }
    assert(a@.take(a@.len() as int) == a@);
    if i == want.len() {
        assert(b@.take(b@.len() as int) == b@);
        true
    } else {
        false
    }
}

/// Whether `s` is one of `choices`.
pub open spec fn among(s: Seq<char>, choices: Seq<&str>) -> bool {
    exists|i: int| 0 <= i < choices.len() && #[trigger] choices[i]@ == s
}

/// Whether `s` is one of `choices`.
pub fn one_of(s: &str, choices: &[&str]) -> (r: bool)
    ensures
        r == among(s@, choices@),
{
    let mut i: usize = 0;
    while i < choices.len()
        invariant
            i <= choices@.len(),
            forall|j: int| 0 <= j < i ==> #[trigger] choices@[j]@ != s@,
        decreases choices@.len() - i,
    {
        if str_eq(choices[i], s) {
            return true;
        }
        i += 1;
    }
    false
}

/// The ASCII lower-case form of one character.
pub open spec fn lower_char(c: char) -> char {
    if 'A' <= c <= 'Z' {
        ((c as u8) + 32) as char
    } else {
        c
    }
}

/// `s` with every ASCII upper-case letter lowered.
pub open spec fn lowered(s: Seq<char>) -> Seq<char> {
    s.map_values(|c: char| lower_char(c))
}

/// The ASCII lower-case form of `s`.
pub fn to_ascii_lower(s: &str) -> (r: String)
    ensures
        r@ == lowered(s@),
{
    let mut out = String::new();
    for c in it: s.chars()
        invariant
            it.seq() == s@,
            out@ == lowered(s@.take(it.index())),
    {
        let l: char = if 'A' <= c && c <= 'Z' {
            ((c as u8) + 32) as char
        } else {
            c
        };
        out.push(l);
        assert(out@ == lowered(s@.take(it.index() + 1)));
    }
    assert(s@.take(s@.len() as int) == s@);
    out
}

/// Whether two texts agree up to ASCII case.
pub open spec fn same_ignoring_case(a: Seq<char>, b: Seq<char>) -> bool {
    lowered(a) == lowered(b)
}

/// Whether `s` is one of `choices` up to ASCII case.
pub open spec fn among_ignoring_case(s: Seq<char>, choices: Seq<&str>) -> bool {
    exists|i: int| 0 <= i < choices.len() && same_ignoring_case(#[trigger] choices[i]@, s)
}

/// Whether two strings agree up to ASCII case.
pub fn eq_ignore_case(a: &str, b: &str) -> (r: bool)
    ensures
        r == same_ignoring_case(a@, b@),
{
    let la = to_ascii_lower(a);
    let lb = to_ascii_lower(b);
    str_eq(la.as_str(), lb.as_str())
}

/// Whether `s` is one of `choices` up to ASCII case.
pub fn one_of_ignore_case(s: &str, choices: &[&str]) -> (r: bool)
    ensures
        r == among_ignoring_case(s@, choices@),
{
    let mut i: usize = 0;
    while i < choices.len()
        invariant
            i <= choices@.len(),
            forall|j: int| 0 <= j < i ==> !same_ignoring_case(#[trigger] choices@[j]@, s@),
        decreases choices@.len() - i,
    {
        if eq_ignore_case(choices[i], s) {
            return true;
        }
        i += 1;
    }
    false
}

/// `s` with every `from` replaced by `to`.
pub open spec fn replaced(s: Seq<char>, from: char, to: char) -> Seq<char> {
    s.map_values(
        |c: char|
            if c == from {
                to
            } else {
                c
            },
    )
}

/// Replaces every `from` by `to`.
pub fn replace_char(s: &str, from: char, to: char) -> (r: String)
    ensures
        r@ == replaced(s@, from, to),
{
    let mut out = String::new();
    for c in it: s.chars()
        invariant
            it.seq() == s@,
            out@ == replaced(s@.take(it.index()), from, to),
    {
        let d: char = if c == from {
            to
        } else {
            c
        };
        out.push(d);
        assert(out@ == replaced(s@.take(it.index() + 1), from, to));
    }
    assert(s@.take(s@.len() as int) == s@);
    out
}

/// Whether `s` begins with `prefix`.
pub open spec fn begins_with(s: Seq<char>, prefix: Seq<char>) -> bool {
    prefix.len() <= s.len() && s.take(prefix.len() as int) == prefix
}

/// Whether `s` begins with `prefix`.
pub fn starts_with(s: &str, prefix: &str) -> (r: bool)
    ensures
        r == begins_with(s@, prefix@),
{
    let chars = chars_of(s);
    let mut i: usize = 0;
    for c in it: prefix.chars()
        invariant
            it.seq() == prefix@,
            chars@ == s@,
            i == it.index(),
            i <= s@.len(),
            s@.take(i as int) == prefix@.take(i as int),
    {
        if i >= chars.len() || chars[i] != c {
            assert(begins_with(s@, prefix@) ==> s@.take(prefix@.len() as int)[i as int] == c);
            return false;
        }
        i += 1;
    }
    assert(prefix@.take(prefix@.len() as int) == prefix@);
    true
}

/// The position of the first `c` in `s`, or `s.len()`.
pub open spec fn position(s: Seq<char>, c: char) -> int
    decreases s.len(),
{
    if s.len() == 0 || s[0] == c {
        0
    } else {
        1 + position(s.drop_first(), c)
    }
}

/// `position` is the least index at which `c` stands.
pub proof fn position_is_first(s: Seq<char>, c: char)
    ensures
        0 <= position(s, c) <= s.len(),
        forall|j: int| 0 <= j < position(s, c) ==> s[j] != c,
        position(s, c) < s.len() ==> s[position(s, c)] == c,
    decreases s.len(),
{
    if s.len() > 0 && s[0] != c {
        position_is_first(s.drop_first(), c);
        assert forall|j: int| 0 <= j < position(s, c) implies s[j] != c by {
            if j > 0 {
                assert(s.drop_first()[j - 1] == s[j]);
            }
        }
    }
}

/// Splits `s` at the first `c` into what stands before and after it.
pub open spec fn split_at_first(s: Seq<char>, c: char) -> Option<(Seq<char>, Seq<char>)> {
    if position(s, c) < s.len() {
        Some((s.take(position(s, c)), s.skip(position(s, c) + 1)))
    } else {
        None
    }
}

/// Splits `s` at the first `c` into what stands before and after it.
pub fn split_once(s: &str, c: char) -> (r: Option<(String, String)>)
    ensures
        match r {
            Some((before, after)) => split_at_first(s@, c) == Some((before@, after@)),
            None => split_at_first(s@, c) is None,
        },
{
    let chars = chars_of(s);
    let mut i: usize = 0;
    while i < chars.len() && chars[i] != c
        invariant
            i <= chars@.len(),
            forall|j: int| 0 <= j < i ==> chars@[j] != c,
        decreases chars@.len() - i,
    {
        i += 1;
    }
    proof {
        position_is_first(s@, c);
    }
    if i == chars.len() {
        None
    } else {
        let before = string_of(&chars, 0, i);
        let after = string_of(&chars, i + 1, chars.len());
        assert(before@ == s@.take(i as int));
        assert(after@ == s@.skip(i + 1));
        Some((before, after))
    }
}

/// The character of one digit of a base up to sixteen.
pub open spec fn digit(n: int) -> char {
    if n < 10 {
        (48 + n) as char
    } else {
        (87 + n) as char
    }
}

/// `n` in base `base`, most significant digit first.
pub open spec fn numeral(n: nat, base: nat) -> Seq<char>
    decreases n,
{
    if base < 2 || n < base {
        seq![digit(n as int)]
    } else {
        proof {
            assert(n / base < n) by (nonlinear_arith)
                requires
                    n >= base,
                    base >= 2,
            ;
        }
        numeral(n / base, base).push(digit((n % base) as int))
    }
}

/// `n` in decimal.
pub open spec fn decimal(n: int) -> Seq<char> {
    if n < 0 {
        seq!['-'] + numeral((-n) as nat, 10)
    } else {
        numeral(n as nat, 10)
    }
}

/// Appends `n` in base `base`.
pub fn push_numeral(out: &mut String, n: u64, base: u64)
    requires
        2 <= base <= 16,
    ensures
        final(out)@ == old(out)@ + numeral(n as nat, base as nat),
    decreases n,
{
    if n >= base {
        assert(n / base < n) by (nonlinear_arith)
            requires
                n >= base,
                base >= 2,
        ;
        push_numeral(out, n / base, base);
    }
    let d: u64 = n % base;
    let b: u8 = if d < 10 {
        48 + d as u8
    } else {
        87 + d as u8
    };
    proof {
        if n < base {
            assert(n % base == n) by (nonlinear_arith)
                requires
                    n < base,
            ;
        }
    }
    out.push(b as char);
}

/// Appends `n` in decimal.
pub fn push_int(out: &mut String, n: i64)
    ensures
        final(out)@ == old(out)@ + decimal(n as int),
{
    if n < 0 {
        out.push('-');
        let m: u64 = if n == i64::MIN {
            0x8000_0000_0000_0000
        } else {
            (-n) as u64
        };
        push_numeral(out, m, 10);
    } else {
        push_numeral(out, n as u64, 10);
    }
}

/// Appends `n` in decimal.
pub fn push_nat(out: &mut String, n: u64)
    ensures
        final(out)@ == old(out)@ + decimal(n as int),
{
    push_numeral(out, n, 10);
}

/// The lines closed by a line feed so far, and the characters after the last
/// line feed. Line feeds belong to no line.
pub open spec fn line_state(s: Seq<char>) -> (Seq<Seq<char>>, Seq<char>)
    decreases s.len(),
{
    if s.len() == 0 {
        (Seq::empty(), Seq::empty())
    } else {
        let (done, open) = line_state(s.drop_last());
        if s.last() == '\n' {
            (done.push(open), Seq::empty())
        } else {
            (done, open.push(s.last()))
        }
    }
}

/// The views of strings.
pub open spec fn views(v: Seq<String>) -> Seq<Seq<char>> {
    v.map_values(|s: String| s@)
}

/// Every line followed by a line feed.
pub open spec fn unlines(lines: Seq<Seq<char>>) -> Seq<char>
    decreases lines.len(),
{
    if lines.len() == 0 {
        Seq::empty()
    } else {
        unlines(lines.drop_last()) + lines.last().push('\n')
    }
}

/// Every line followed by a line feed.
pub fn join_lines(lines: &Vec<String>) -> (r: String)
    ensures
        r@ == unlines(views(lines@)),
{
    let mut out = String::new();
    let mut i: usize = 0;
    assert(views(lines@).take(0) == Seq::<Seq<char>>::empty());
    while i < lines.len()
        invariant
            i <= lines@.len(),
            out@ == unlines(views(lines@).take(i as int)),
        decreases lines@.len() - i,
    {
        let ghost before = views(lines@).take(i as int);
        out.append(lines[i].as_str());
        out.push('\n');
        assert(views(lines@).take(i + 1).drop_last() == before);
        assert(out@ == unlines(before) + lines@[i as int]@.push('\n'));
        i += 1;
    }
    assert(views(lines@).take(lines@.len() as int) == views(lines@));
    out
}

/// Whether a text is one line: it holds no line feed.
pub open spec fn one_line(s: Seq<char>) -> bool {
    !s.contains('\n')
}

/// Whether every line holds no line feed.
pub open spec fn proper_lines(lines: Seq<Seq<char>>) -> bool {
    forall|i: int| 0 <= i < lines.len() ==> one_line(#[trigger] lines[i])
}

/// The pieces of `s`: each line with its line feed, and what follows the last
/// line feed unless that is empty.
pub open spec fn pieces(s: Seq<char>) -> Seq<Seq<char>>
    decreases s.len(),
{
    if s.len() == 0 {
        Seq::empty()
    } else {
        let before = pieces(s.drop_last());
        if before.len() > 0 && before.last().last() != '\n' {
            before.drop_last().push(before.last().push(s.last()))
        } else {
            before.push(seq![s.last()])
        }
    }
}

/// Parts one after the other.
pub open spec fn together(parts: Seq<Seq<char>>) -> Seq<char>
    decreases parts.len(),
{
    if parts.len() == 0 {
        Seq::empty()
    } else {
        together(parts.drop_last()) + parts.last()
    }
}

/// Whether `s` may be one piece of a text: its only line feed, if it has one,
/// ends it.
pub open spec fn is_piece(s: Seq<char>) -> bool {
    s.len() > 0 && one_line(s.drop_last())
}

/// Whether `parts` may be the pieces of a text: only the last may go without
/// its line feed.
pub open spec fn are_pieces(parts: Seq<Seq<char>>) -> bool {
    forall|i: int|
        0 <= i < parts.len() ==> is_piece(#[trigger] parts[i]) && (i < parts.len() - 1
            ==> parts[i].last() == '\n')
}

/// Whether nothing follows the last line feed of `s`.
pub open spec fn is_ended(s: Seq<char>) -> bool {
    s.len() == 0 || s.last() == '\n'
}

/// Splits `s` into its pieces.
pub fn split_pieces(s: &str) -> (r: Vec<String>)
    ensures
        views(r@) == pieces(s@),
{
    let mut done: Vec<String> = Vec::new();
    let mut open = String::new();
    for c in it: s.chars()
        invariant
            it.seq() == s@,
            pieces(s@.take(it.index())) == if open@.len() == 0 {
                views(done@)
            } else {
                views(done@).push(open@)
            },
            open@.len() > 0 ==> open@.last() != '\n',
            done@.len() > 0 ==> views(done@).last().last() == '\n',
    {
        let ghost before = views(done@);
        let ghost line = open@;
        let ghost shorter = s@.take(it.index());
        assert(s@.take(it.index() + 1).drop_last() == shorter);
        assert(before.push(line).drop_last() == before);
        open.push(c);
        assert(line.len() == 0 ==> open@ == seq![c]);
        assert(pieces(s@.take(it.index() + 1)) == before.push(open@));
        if c == '\n' {
            done.push(open);
            assert(views(done@) == before.push(line.push(c)));
            open = String::new();
        }
    }
    assert(s@.take(s@.len() as int) == s@);
    if !open.as_str().is_empty() {
        let ghost before = views(done@);
        done.push(open);
        assert(views(done@) == before.push(open@));
    }
    done
}

/// Writes parts one after the other.
pub fn put_together(parts: &Vec<String>) -> (r: String)
    ensures
        r@ == together(views(parts@)),
{
    let mut out = String::new();
    let mut i: usize = 0;
    assert(views(parts@).take(0) == Seq::<Seq<char>>::empty());
    while i < parts.len()
        invariant
            i <= parts@.len(),
            out@ == together(views(parts@).take(i as int)),
        decreases parts@.len() - i,
    {
        let ghost before = views(parts@).take(i as int);
        out.append(parts[i].as_str());
        assert(views(parts@).take(i + 1).drop_last() == before);
        i += 1;
    }
    assert(views(parts@).take(parts@.len() as int) == views(parts@));
    out
}

/// A text is its pieces together.
pub proof fn pieces_make_the_text(s: Seq<char>)
    ensures
        together(pieces(s)) == s,
        are_pieces(pieces(s)),
    decreases s.len(),
{
    if s.len() > 0 {
        let rest = s.drop_last();
        let c = s.last();
        pieces_make_the_text(rest);
        let before = pieces(rest);
        let all = pieces(s);
        assert(rest.push(c) == s);
        if before.len() > 0 && before.last().last() != '\n' {
            let line = before.last();
            assert(is_piece(before[before.len() - 1]));
            assert(all.drop_last() == before.drop_last());
            assert(line.push(c).drop_last() == line);
            assert(one_line(line)) by {
                if line.contains('\n') {
                    let k = choose|k: int| 0 <= k < line.len() && line[k] == '\n';
                    assert(line.drop_last()[k] == '\n');
                }
            }
            assert(together(all) == together(before.drop_last()) + line.push(c));
            assert(together(all) == together(before).push(c));
        } else {
            assert(all.drop_last() == before);
            assert(seq![c].drop_last() == Seq::<char>::empty());
            assert(together(before) + seq![c] == together(before).push(c));
        }
        assert forall|i: int| 0 <= i < all.len() implies is_piece(#[trigger] all[i]) && (i
            < all.len() - 1 ==> all[i].last() == '\n') by {
            if i < before.len() {
                assert(is_piece(before[i]));
            }
        }
    }
}

proof fn piece_at_the_end(s: Seq<char>, piece: Seq<char>)
    requires
        pieces(s).len() > 0 ==> pieces(s).last().last() == '\n',
        is_piece(piece),
    ensures
        pieces(s + piece) == pieces(s).push(piece),
    decreases piece.len(),
{
    let rest = piece.drop_last();
    let c = piece.last();
    assert((s + piece).drop_last() == s + rest);
    assert((s + piece).last() == c);
    if rest.len() == 0 {
        assert(s + rest == s);
        assert(seq![c] == piece);
    } else {
        assert(is_piece(rest)) by {
            if rest.drop_last().contains('\n') {
                let most = rest.drop_last();
                let k = choose|k: int| 0 <= k < most.len() && most[k] == '\n';
                assert(rest[k] == '\n');
            }
        }
        piece_at_the_end(s, rest);
        assert(rest.last() != '\n') by {
            assert(rest[rest.len() - 1] == rest.last());
        }
        assert(pieces(s).push(rest).drop_last() == pieces(s));
        assert(rest.push(c) == piece);
    }
}

/// What may be the pieces of a text are its pieces.
pub proof fn pieces_round_trip(parts: Seq<Seq<char>>)
    requires
        are_pieces(parts),
    ensures
        pieces(together(parts)) == parts,
    decreases parts.len(),
{
    if parts.len() == 0 {
        assert(parts == Seq::<Seq<char>>::empty());
    } else {
        let rest = parts.drop_last();
        assert forall|i: int| 0 <= i < rest.len() implies is_piece(#[trigger] rest[i]) && (i
            < rest.len() - 1 ==> rest[i].last() == '\n') by {
            assert(rest[i] == parts[i]);
        }
        pieces_round_trip(rest);
        if rest.len() > 0 {
            assert(parts[parts.len() - 2].last() == '\n');
        }
        assert(is_piece(parts[parts.len() - 1]));
        piece_at_the_end(together(rest), parts.last());
        assert(rest.push(parts.last()) == parts);
    }
}

/// Two lists of parts together are the one and the other.
pub proof fn together_in_turn(a: Seq<Seq<char>>, b: Seq<Seq<char>>)
    ensures
        together(a + b) == together(a) + together(b),
    decreases b.len(),
{
    if b.len() == 0 {
        assert(a + b == a);
        assert(together(a) + together(b) == together(a));
    } else {
        together_in_turn(a, b.drop_last());
        assert((a + b).drop_last() == a + b.drop_last());
        assert(together(a + b) == together(a) + together(b));
    }
}

/// Lines with their line feeds.
pub open spec fn with_feeds(lines: Seq<Seq<char>>) -> Seq<Seq<char>> {
    Seq::new(lines.len(), |i: int| lines[i].push('\n'))
}

/// Lines written out are their pieces together.
pub proof fn written_lines_are_pieces(lines: Seq<Seq<char>>)
    requires
        proper_lines(lines),
    ensures
        are_pieces(with_feeds(lines)),
        together(with_feeds(lines)) == unlines(lines),
    decreases lines.len(),
{
    let parts = with_feeds(lines);
    assert forall|i: int| 0 <= i < parts.len() implies is_piece(#[trigger] parts[i])
        && parts[i].last() == '\n' by {
        assert(one_line(lines[i]));
        assert(parts[i].drop_last() == lines[i]);
    }
    if lines.len() > 0 {
        let rest = lines.drop_last();
        assert forall|i: int| 0 <= i < rest.len() implies one_line(#[trigger] rest[i]) by {
            assert(rest[i] == lines[i]);
        }
        written_lines_are_pieces(rest);
        assert(parts.drop_last() == with_feeds(rest));
    }
}

/// A line without the carriage return in front of its line feed.
pub open spec fn chomped(line: Seq<char>) -> Seq<char> {
    if line.len() > 0 && line.last() == '\r' {
        line.drop_last()
    } else {
        line
    }
}

/// The lines of `s`, a carriage return in front of a line feed belonging to
/// the line ending.
pub open spec fn text_lines_of(s: Seq<char>) -> Seq<Seq<char>> {
    let (done, open) = line_state(s);
    let lines = done.map_values(|line: Seq<char>| chomped(line));
    if open.len() == 0 {
        lines
    } else {
        lines.push(open)
    }
}

/// The lines of `s`, a carriage return in front of a line feed belonging to
/// the line ending.
pub fn split_text_lines(s: &str) -> (r: Vec<String>)
    ensures
        views(r@) == text_lines_of(s@),
{
    let mut done: Vec<String> = Vec::new();
    let mut open: Vec<char> = Vec::new();
    for c in it: s.chars()
        invariant
            it.seq() == s@,
            views(done@) == line_state(s@.take(it.index())).0.map_values(
                |line: Seq<char>| chomped(line),
            ),
            open@ == line_state(s@.take(it.index())).1,
    {
        assert(s@.take(it.index() + 1).drop_last() == s@.take(it.index()));
        let ghost prefix = line_state(s@.take(it.index())).0;
        if c == '\n' {
            let ghost before = views(done@);
            let end: usize = if open.len() > 0 && open[open.len() - 1] == '\r' {
                open.len() - 1
            } else {
                open.len()
            };
            let line = string_of(&open, 0, end);
            assert(line@ == chomped(open@));
            done.push(line);
            assert(views(done@) == before.push(chomped(open@)));
            assert(prefix.push(open@).map_values(|line: Seq<char>| chomped(line))
                == prefix.map_values(|line: Seq<char>| chomped(line)).push(chomped(open@)));
            open = Vec::new();
        } else {
            open.push(c);
        }
    }
    assert(s@.take(s@.len() as int) == s@);
    if open.len() > 0 {
        let ghost before = views(done@);
        let line = string_of(&open, 0, open.len());
        assert(line@ == open@);
        done.push(line);
        assert(views(done@) == before.push(open@));
    }
    done
}

/// `parts` with `sep` between neighbours.
pub open spec fn joined(parts: Seq<Seq<char>>, sep: Seq<char>) -> Seq<char>
    decreases parts.len(),
{
    if parts.len() == 0 {
        Seq::empty()
    } else if parts.len() == 1 {
        parts[0]
    } else {
        joined(parts.drop_last(), sep) + sep + parts.last()
    }
}

/// The views of string slices.
pub open spec fn str_views(v: Seq<&str>) -> Seq<Seq<char>> {
    v.map_values(|s: &str| s@)
}

/// Joins `parts` with `sep` between neighbours.
pub fn join(parts: &[&str], sep: &str) -> (r: String)
    ensures
        r@ == joined(str_views(parts@), sep@),
{
    let mut out = String::new();
    let mut i: usize = 0;
    while i < parts.len()
        invariant
            i <= parts@.len(),
            out@ == joined(str_views(parts@).take(i as int), sep@),
        decreases parts@.len() - i,
    {
        let ghost before = str_views(parts@).take(i as int);
        if i > 0 {
            out.append(sep);
        }
        out.append(parts[i]);
        assert(str_views(parts@).take(i + 1).drop_last() == before);
        i += 1;
    }
    assert(str_views(parts@).take(parts@.len() as int) == str_views(parts@));
    out
}

/// Whether `c` is an ASCII decimal digit.
pub open spec fn is_digit(c: char) -> bool {
    '0' <= c <= '9'
}

/// The number that decimal digits denote.
pub open spec fn digits_value(s: Seq<char>) -> nat
    decreases s.len(),
{
    if s.len() == 0 {
        0
    } else {
        digits_value(s.drop_last()) * 10 + (s.last() as u32 - 48) as nat
    }
}

/// Whether every character of `s` is a decimal digit.
pub open spec fn all_digits(s: Seq<char>) -> bool {
    forall|i: int| 0 <= i < s.len() ==> is_digit(#[trigger] s[i])
}

/// `s` without one leading plus sign.
pub open spec fn unsigned_digits(s: Seq<char>) -> Seq<char> {
    if s.len() > 0 && s[0] == '+' {
        s.drop_first()
    } else {
        s
    }
}

/// The unsigned number up to `max` that `s` denotes: an optional plus sign and
/// at least one decimal digit.
pub open spec fn parsed_unsigned(s: Seq<char>, max: nat) -> Option<nat> {
    let d = unsigned_digits(s);
    if d.len() > 0 && all_digits(d) && digits_value(d) <= max {
        Some(digits_value(d))
    } else {
        None
    }
}

/// More digits never denote a smaller number.
pub proof fn digits_value_grows(s: Seq<char>, n: int)
    requires
        0 <= n <= s.len(),
    ensures
        digits_value(s.take(n)) <= digits_value(s),
    decreases s.len() - n,
{
    if n == s.len() {
        assert(s.take(n) == s);
    } else {
        digits_value_grows(s, n + 1);
        assert(s.take(n + 1).drop_last() == s.take(n));
    }
}

/// Parses an unsigned number of at most `max`.
pub fn parse_unsigned(s: &str, max: u32) -> (r: Option<u32>)
    ensures
        match r {
            Some(n) => parsed_unsigned(s@, max as nat) == Some(n as nat),
            None => parsed_unsigned(s@, max as nat) is None,
        },
{
    let chars = chars_of(s);
    let start: usize = if chars.len() > 0 && chars[0] == '+' {
        1
    } else {
        0
    };
    let ghost d = unsigned_digits(s@);
    assert(d == s@.skip(start as int));
    if start == chars.len() {
        return None;
    }
    let mut value: u64 = 0;
    let mut i: usize = start;
    assert(d.take(0) == Seq::<char>::empty());
    while i < chars.len()
        invariant
            start <= i <= chars@.len(),
            d == s@.skip(start as int),
            d == unsigned_digits(s@),
            chars@ == s@,
            value == digits_value(d.take(i - start)),
            value <= max,
            all_digits(d.take(i - start)),
        decreases chars@.len() - i,
    {
        let c: char = chars[i];
        assert(c == d[i - start]);
        assert(d.take(i - start + 1).drop_last() == d.take(i - start));
        if !('0' <= c && c <= '9') {
            assert(!is_digit(d[i - start]));
            return None;
        }
        value = value * 10 + (c as u32 - 48) as u64;
        if value > max as u64 {
            proof {
                digits_value_grows(d, i - start + 1);
            }
            return None;
        }
        assert forall|j: int| 0 <= j < i - start + 1 implies is_digit(
            #[trigger] d.take(i - start + 1)[j],
        ) by {
            if j < i - start {
                assert(d.take(i - start)[j] == d[j]);
            }
        }
        i += 1;
    }
    assert(d.take(d.len() as int) == d);
    Some(value as u32)
}

/// Whether `a` comes before `b` in the order of character codes.
pub open spec fn precedes(a: Seq<char>, b: Seq<char>) -> bool
    decreases a.len(),
{
    if b.len() == 0 {
        false
    } else if a.len() == 0 {
        true
    } else if a[0] != b[0] {
        a[0] < b[0]
    } else {
        precedes(a.drop_first(), b.drop_first())
    }
}

/// `precedes` is a strict total order.
pub proof fn precedes_is_total(a: Seq<char>, b: Seq<char>)
    ensures
        precedes(a, b) || precedes(b, a) || a == b,
        !(precedes(a, b) && precedes(b, a)),
        a == b ==> !precedes(a, b),
    decreases a.len(),
{
    if a.len() == 0 || b.len() == 0 {
        if a.len() == 0 && b.len() == 0 {
            assert(a == b);
        }
    } else if a[0] == b[0] {
        precedes_is_total(a.drop_first(), b.drop_first());
        if a.drop_first() == b.drop_first() {
            assert(a == seq![a[0]] + a.drop_first());
            assert(b == seq![b[0]] + b.drop_first());
        }
    }
}

/// `precedes` is transitive.
pub proof fn precedes_is_transitive(a: Seq<char>, b: Seq<char>, c: Seq<char>)
    requires
        precedes(a, b),
        precedes(b, c),
    ensures
        precedes(a, c),
    decreases a.len(),
{
    if a.len() > 0 && a[0] == b[0] && b[0] == c[0] {
        precedes_is_transitive(a.drop_first(), b.drop_first(), c.drop_first());
    }
}

/// Whether `a` comes before `b` in the order of character codes.
pub fn is_before(a: &str, b: &str) -> (r: bool)
    ensures
        r == precedes(a@, b@),
{
    let x = chars_of(a);
    let y = chars_of(b);
    let mut i: usize = 0;
    assert(a@.skip(0) == a@ && b@.skip(0) == b@);
    while i < x.len() && i < y.len() && x[i] == y[i]
        invariant
            x@ == a@,
            y@ == b@,
            i <= a@.len(),
            i <= b@.len(),
            precedes(a@, b@) == precedes(a@.skip(i as int), b@.skip(i as int)),
        decreases a@.len() - i,
    {
        assert(a@.skip(i as int).drop_first() == a@.skip(i + 1));
        assert(b@.skip(i as int).drop_first() == b@.skip(i + 1));
        i += 1;
    }
    if i == y.len() {
        false
    } else if i == x.len() {
        true
    } else {
        x[i] < y[i]
    }
}

/// Whether `names` are strictly ascending, and so without repetition.
pub open spec fn ascending(names: Seq<&str>) -> bool {
    forall|i: int, j: int|
        0 <= i < j < names.len() ==> precedes(#[trigger] names[i]@, #[trigger] names[j]@)
}

/// A text comes before another that is greater at the first place where they
/// differ, or goes on where it ends.
pub proof fn first_difference(a: Seq<char>, b: Seq<char>, k: int)
    requires
        0 <= k <= a.len(),
        k < b.len(),
        forall|i: int| 0 <= i < k ==> #[trigger] a[i] == b[i],
        k < a.len() ==> a[k] < b[k],
    ensures
        precedes(a, b),
    decreases k,
{
    if k > 0 {
        assert(a[0] == b[0]);
        let (c, d) = (a.drop_first(), b.drop_first());
        assert forall|i: int| 0 <= i < k - 1 implies #[trigger] c[i] == d[i] by {
            assert(a[i + 1] == b[i + 1]);
        }
        first_difference(c, d, k - 1);
    }
}

/// Names are ascending where each comes before the next.
pub proof fn neighbours_ascend(names: Seq<&str>, i: int, j: int)
    requires
        0 <= i < j < names.len(),
        forall|k: int| 0 < k < names.len() ==> precedes(names[k - 1]@, #[trigger] names[k]@),
    ensures
        precedes(names[i]@, names[j]@),
    decreases j - i,
{
    assert(precedes(names[j - 1]@, names[j]@));
    if i < j - 1 {
        neighbours_ascend(names, i, j - 1);
        precedes_is_transitive(names[i]@, names[j - 1]@, names[j]@);
    }
}

/// Inserting a choice adds exactly that choice.
proof fn inserted_choices(choices: Seq<&str>, i: int, name: &str, s: Seq<char>)
    requires
        0 <= i <= choices.len(),
    ensures
        among(s, choices.insert(i, name)) <==> among(s, choices) || s == name@,
{
    let more = choices.insert(i, name);
    if among(s, more) {
        let k = choose|k: int| 0 <= k < more.len() && #[trigger] more[k]@ == s;
        if k < i {
            assert(choices[k]@ == s);
        } else if k > i {
            assert(choices[k - 1]@ == s);
        }
    }
    if among(s, choices) {
        let k = choose|k: int| 0 <= k < choices.len() && #[trigger] choices[k]@ == s;
        if k < i {
            assert(more[k]@ == s);
        } else {
            assert(more[k + 1]@ == s);
        }
    }
    if s == name@ {
        assert(more[i]@ == s);
    }
}

/// Adds `name` to ascending names unless it is among them.
pub fn insert_sorted(names: &mut Vec<&'static str>, name: &'static str)
    requires
        ascending(old(names)@),
    ensures
        ascending(final(names)@),
        forall|s: Seq<char>|
            #![trigger among(s, final(names)@)]
            among(s, final(names)@) <==> among(s, old(names)@) || s == name@,
{
    let mut i: usize = 0;
    while i < names.len() && is_before(names[i], name)
        invariant
            i <= names@.len(),
            forall|j: int| 0 <= j < i ==> precedes(#[trigger] names@[j]@, name@),
        decreases names@.len() - i,
    {
        i += 1;
    }
    let ghost before = names@;
    if i < names.len() && str_eq(names[i], name) {
        assert(among(name@, before)) by {
            assert(before[i as int]@ == name@);
        }
        return;
    }
    proof {
        if i < before.len() {
            precedes_is_total(before[i as int]@, name@);
            assert forall|j: int| i <= j < before.len() implies precedes(
                name@,
                #[trigger] before[j]@,
            ) by {
                if j > i {
                    precedes_is_transitive(name@, before[i as int]@, before[j]@);
                }
            }
        }
    }
    names.insert(i, name);
    proof {
        assert(names@ == before.insert(i as int, name));
        assert forall|s: Seq<char>| #![trigger among(s, names@)] among(s, names@) <==> among(
            s,
            before,
        ) || s == name@ by {
            inserted_choices(before, i as int, name, s);
        }
        assert forall|j: int, k: int| 0 <= j < k < names@.len() implies precedes(
            #[trigger] names@[j]@,
            #[trigger] names@[k]@,
        ) by {
            let a = if j < i { before[j]@ } else if j == i { name@ } else { before[j - 1]@ };
            let b = if k < i { before[k]@ } else if k == i { name@ } else { before[k - 1]@ };
            assert(names@[j]@ == a && names@[k]@ == b);
        }
    }
}

proof fn numeral_reads_back(n: nat)
    ensures
        numeral(n, 10).len() > 0,
        all_digits(numeral(n, 10)),
        digits_value(numeral(n, 10)) == n,
    decreases n,
{
    let s = numeral(n, 10);
    if n < 10 {
        assert(s.drop_last() =~= Seq::empty());
        assert(digits_value(s.drop_last()) == 0);
    } else {
        numeral_reads_back(n / 10);
        let front = numeral(n / 10, 10);
        assert(s.drop_last() =~= front);
        assert forall|i: int| 0 <= i < s.len() implies is_digit(#[trigger] s[i]) by {
            if i < front.len() {
                assert(s[i] == front[i]);
            }
        }
    }
}

/// A number that is written is read back, unless it is greater than allowed; a
/// negative one is written with a sign before it.
pub proof fn numbers_read_back(n: nat, max: nat)
    ensures
        parsed_unsigned(decimal(n as int), max) == (if n <= max {
            Some(n)
        } else {
            None
        }),
        n > 0 ==> decimal(-n) == seq!['-'] + decimal(n as int),
        n > 0 ==> parsed_unsigned(decimal(-n), max) is None,
{
    numeral_reads_back(n);
    let s = decimal(n as int);
    assert(is_digit(s[0]));
    assert(unsigned_digits(s) == s);
    if n > 0 {
        let m = decimal(-n);
        assert(m[0] == '-');
        assert(!is_digit(unsigned_digits(m)[0]));
    }
}

proof fn start_is_dropped(s: Seq<char>)
    ensures
        ({
            let r = trim_start_of(s);
            let i = s.len() - r.len();
            &&& 0 <= i
            &&& r == s.skip(i)
            &&& forall|k: int| 0 <= k < i ==> is_space(#[trigger] s[k])
        }),
    decreases s.len(),
{
    if s.len() > 0 && is_space(s[0]) {
        let rest = s.drop_first();
        start_is_dropped(rest);
        let i = s.len() - trim_start_of(s).len();
        assert(rest.skip(i - 1) =~= s.skip(i));
        assert(forall|k: int| 1 <= k < s.len() ==> #[trigger] s[k] == rest[k - 1]);
    } else {
        assert(s.skip(0) =~= s);
    }
}

proof fn end_is_dropped(s: Seq<char>)
    ensures
        ({
            let r = trim_end_of(s);
            &&& r.len() <= s.len()
            &&& r == s.take(r.len() as int)
            &&& forall|k: int| r.len() <= k < s.len() ==> is_space(#[trigger] s[k])
        }),
    decreases s.len(),
{
    if s.len() > 0 && is_space(s.last()) {
        let front = s.drop_last();
        end_is_dropped(front);
        let r = trim_end_of(s);
        assert(front.take(r.len() as int) =~= s.take(r.len() as int));
        assert(forall|k: int| 0 <= k < front.len() ==> #[trigger] s[k] == front[k]);
    } else {
        assert(s.take(s.len() as int) =~= s);
    }
}

/// Trimming takes the white space around a text and nothing else: what stays is
/// one stretch of it that neither begins nor ends with white space.
pub proof fn trimming_takes_white_space(s: Seq<char>)
    ensures
        trimmed(s).len() > 0 ==> !is_space(trimmed(s)[0]) && !is_space(trimmed(s).last()),
        exists|i: int|
            #![trigger s.skip(i)]
            {
                &&& 0 <= i
                &&& i + trimmed(s).len() <= s.len()
                &&& trimmed(s) == s.skip(i).take(trimmed(s).len() as int)
                &&& forall|k: int| 0 <= k < i ==> is_space(#[trigger] s[k])
                &&& forall|k: int| i + trimmed(s).len() <= k < s.len() ==> is_space(#[trigger] s[k])
            },
{
    trimmed_start(s);
    trimmed_end(trim_start_of(s));
    start_is_dropped(s);
    let r = trim_start_of(s);
    end_is_dropped(r);
    let i = s.len() - r.len();
    assert(r == s.skip(i));
    assert(forall|k: int| i <= k < s.len() ==> #[trigger] s[k] == r[k - i]);
}

/// Lowering changes ASCII capitals to the small letters that they are, and
/// nothing else.
pub proof fn lowering_changes_capitals(s: Seq<char>, i: int)
    requires
        0 <= i < s.len(),
    ensures
        lowered(s).len() == s.len(),
        'A' <= s[i] <= 'Z' ==> lowered(s)[i] as u32 == s[i] as u32 + 32,
        !('A' <= s[i] <= 'Z') ==> lowered(s)[i] == s[i],
        lowered(lowered(s)) == lowered(s),
{
    assert(lowered(lowered(s)) =~= lowered(s));
}

/// A text is what stands before the first separator, the separator, and what
/// stands behind it.
pub proof fn splitting_loses_nothing(s: Seq<char>, c: char)
    ensures
        match split_at_first(s, c) {
            Some((a, b)) => s == a + seq![c] + b && !a.contains(c),
            None => !s.contains(c),
        },
{
    position_is_first(s, c);
    if let Some((a, b)) = split_at_first(s, c) {
        assert(s =~= a + seq![c] + b);
    }
}

proof fn line_goes_on(s: Seq<char>, line: Seq<char>)
    requires
        one_line(line),
    ensures
        line_state(s + line) == (line_state(s).0, line_state(s).1 + line),
    decreases line.len(),
{
    if line.len() == 0 {
        assert(s + line =~= s);
        assert(line_state(s).1 + line =~= line_state(s).1);
    } else {
        let front = line.drop_last();
        assert(!front.contains('\n')) by {
            if front.contains('\n') {
                let k = choose|k: int| 0 <= k < front.len() && front[k] == '\n';
                assert(line[k] == '\n');
            }
        }
        line_goes_on(s, front);
        assert((s + line).drop_last() =~= s + front);
        assert(line[line.len() - 1] != '\n') by {
            assert(line.contains(line[line.len() - 1]));
        }
        assert((line_state(s).1 + front).push(line.last()) =~= line_state(s).1 + line);
    }
}

/// Lines that are written are read back, where none holds a line feed or ends
/// with a carriage return.
pub proof fn lines_read_back(lines: Seq<Seq<char>>)
    requires
        proper_lines(lines),
        forall|i: int| 0 <= i < lines.len() ==> chomped(#[trigger] lines[i]) == lines[i],
    ensures
        text_lines_of(unlines(lines)) == lines,
{
    states_of_lines(lines);
    let (done, open) = line_state(unlines(lines));
    assert(done.map_values(|line: Seq<char>| chomped(line)) =~= lines);
}

proof fn states_of_lines(lines: Seq<Seq<char>>)
    requires
        proper_lines(lines),
    ensures
        line_state(unlines(lines)) == (lines, Seq::<char>::empty()),
    decreases lines.len(),
{
    if lines.len() == 0 {
        assert(lines =~= Seq::empty());
    } else {
        let front = lines.drop_last();
        let last = lines.last();
        assert forall|i: int| 0 <= i < front.len() implies one_line(#[trigger] front[i]) by {
            assert(lines[i] == front[i]);
        }
        states_of_lines(front);
        assert(one_line(lines[lines.len() - 1]));
        line_goes_on(unlines(front), last);
        assert(Seq::<char>::empty() + last =~= last);
        let all = unlines(lines);
        assert(all.drop_last() =~= unlines(front) + last);
        assert(all.last() == '\n');
        assert(front.push(last) =~= lines);
    }
}

} // verus!
