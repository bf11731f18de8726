//! Texts as TOML basic strings.
use crate::text::one_line;
use vstd::prelude::*;

verus! {

/// One character of a TOML basic string.
pub open spec fn escaped(c: char) -> Seq<char> {
    if c == '"' {
        seq!['\\', '"']
    } else if c == '\\' {
        seq!['\\', '\\']
    } else if c == '\n' {
        seq!['\\', 'n']
    } else if c == '\r' {
        seq!['\\', 'r']
    } else if c == '\t' {
        seq!['\\', 't']
    } else if (c as u32) < 0x20 || c as u32 == 0x7f {
        seq!['\\', 'u', '0', '0', upper_digit((c as u32) / 16), upper_digit((c as u32) % 16)]
    } else {
        seq![c]
    }
}

/// A hexadecimal digit in upper case.
pub open spec fn upper_digit(d: u32) -> char {
    if d < 10 {
        ((48 + d) as u8) as char
    } else {
        ((55 + d) as u8) as char
    }
}

/// The characters of a TOML basic string.
pub open spec fn escaped_text(s: Seq<char>) -> Seq<char>
    decreases s.len(),
{
    if s.len() == 0 {
        Seq::empty()
    } else {
        escaped_text(s.drop_last()) + escaped(s.last())
    }
}

/// A text as a TOML basic string.
pub open spec fn toml_literal(s: Seq<char>) -> Seq<char> {
    seq!['"'] + escaped_text(s) + seq!['"']
}

/// Quotes a text as a TOML basic string.
pub fn toml_string_literal(value: &str) -> (r: String)
    ensures
        r@ == toml_literal(value@),
{
    let mut out = String::new();
    out.push('"');
    assert(out@ == seq!['"']);
    for c in it: value.chars()
        invariant
            it.seq() == value@,
            out@ == seq!['"'] + escaped_text(value@.take(it.index())),
    {
        let ghost before = out@;
        assert(value@.take(it.index() + 1).drop_last() == value@.take(it.index()));
        if c == '"' {
            out.push('\\');
            out.push('"');
        } else if c == '\\' {
            out.push('\\');
            out.push('\\');
        } else if c == '\n' {
            out.push('\\');
            out.push('n');
        } else if c == '\r' {
            out.push('\\');
            out.push('r');
        } else if c == '\t' {
            out.push('\\');
            out.push('t');
        } else if (c as u32) < 0x20 || c as u32 == 0x7f {
            let high: u32 = (c as u32) / 16;
            let low: u32 = (c as u32) % 16;
            let high_digit: char = if high < 10 {
                ((48 + high) as u8) as char
            } else {
                ((55 + high) as u8) as char
            };
            let low_digit: char = if low < 10 {
                ((48 + low) as u8) as char
            } else {
                ((55 + low) as u8) as char
            };
            out.push('\\');
            out.push('u');
            out.push('0');
            out.push('0');
            out.push(high_digit);
            out.push(low_digit);
        } else {
            out.push(c);
        }
        assert(out@ == before + escaped(c));
        assert(out@ == seq!['"'] + escaped_text(value@.take(it.index() + 1)));
    }
    assert(value@.take(value@.len() as int) == value@);
    out.push('"');
    assert(out@ == toml_literal(value@));
    out
}

proof fn escaped_text_is_one_line(s: Seq<char>)
    ensures
        one_line(escaped_text(s)),
    decreases s.len(),
{
    if s.len() > 0 {
        escaped_text_is_one_line(s.drop_last());
        let e = escaped(s.last());
        assert(!e.contains('\n')) by {
            if e.contains('\n') {
                let k = choose|k: int| 0 <= k < e.len() && e[k] == '\n';
            }
        }
        let a = escaped_text(s.drop_last());
        if (a + e).contains('\n') {
            let k = choose|k: int| 0 <= k < (a + e).len() && (a + e)[k] == '\n';
            if k < a.len() {
                assert(a[k] == '\n');
            } else {
                assert(e[k - a.len()] == '\n');
            }
        }
    }
}

/// A quoted text stays on one line, whatever it holds.
pub proof fn literal_is_one_line(s: Seq<char>)
    ensures
        one_line(toml_literal(s)),
{
    escaped_text_is_one_line(s);
    let l = toml_literal(s);
    if l.contains('\n') {
        let k = choose|k: int| 0 <= k < l.len() && l[k] == '\n';
        assert(0 < k < l.len() - 1);
        assert(escaped_text(s)[k - 1] == '\n');
    }
}

/// The value of a hexadecimal digit.
pub open spec fn digit_value(c: char) -> Option<int> {
    if '0' <= c && c <= '9' {
        Some(c as int - '0' as int)
    } else if 'A' <= c && c <= 'F' {
        Some(c as int - 'A' as int + 10)
    } else if 'a' <= c && c <= 'f' {
        Some(c as int - 'a' as int + 10)
    } else {
        None
    }
}

/// The number of four hexadecimal digits from place `at` on.
pub open spec fn code_at(s: Seq<char>, at: int) -> Option<int> {
    if at + 4 <= s.len() && digit_value(s[at]) is Some && digit_value(s[at + 1]) is Some
        && digit_value(s[at + 2]) is Some && digit_value(s[at + 3]) is Some {
        Some(
            digit_value(s[at])->0 * 4096 + digit_value(s[at + 1])->0 * 256 + digit_value(
                s[at + 2],
            )->0 * 16 + digit_value(s[at + 3])->0,
        )
    } else {
        None
    }
}

/// What a backslash and this character stand for in a TOML basic string.
pub open spec fn short_escape(c: char) -> Option<char> {
    if c == '"' {
        Some('"')
    } else if c == '\\' {
        Some('\\')
    } else if c == 'n' {
        Some('\n')
    } else if c == 'r' {
        Some('\r')
    } else if c == 't' {
        Some('\t')
    } else {
        None
    }
}

/// `c` in front of a text that was read.
pub open spec fn led_by(c: char, rest: Option<Seq<char>>) -> Option<Seq<char>> {
    match rest {
        Some(text) => Some(seq![c] + text),
        None => None,
    }
}

/// What the inside of a TOML basic string reads as, or `None` where it holds a
/// quote, a control character or an escape that is not one.
pub open spec fn read_escaped(s: Seq<char>) -> Option<Seq<char>>
    decreases s.len(),
{
    if s.len() == 0 {
        Some(Seq::empty())
    } else if s[0] == '\\' {
        if s.len() >= 2 && short_escape(s[1]) is Some {
            led_by(short_escape(s[1])->0, read_escaped(s.skip(2)))
        } else if s.len() >= 2 && s[1] == 'u' && code_at(s, 2) is Some {
            led_by((code_at(s, 2)->0) as char, read_escaped(s.skip(6)))
        } else {
            None
        }
    } else if s[0] == '"' || ((s[0] as u32) < 0x20 && s[0] != '\t') || s[0] as u32 == 0x7f {
        None
    } else {
        led_by(s[0], read_escaped(s.skip(1)))
    }
}

proof fn escaped_from_the_front(s: Seq<char>)
    requires
        s.len() > 0,
    ensures
        escaped_text(s) == escaped(s[0]) + escaped_text(s.skip(1)),
    decreases s.len(),
{
    if s.len() == 1 {
        assert(s.drop_last() =~= Seq::empty());
        assert(s.skip(1) =~= Seq::empty());
        assert(escaped_text(Seq::<char>::empty()) =~= Seq::empty());
        assert(escaped_text(s) =~= escaped(s[0]));
        assert(escaped(s[0]) + Seq::<char>::empty() =~= escaped(s[0]));
    } else {
        escaped_from_the_front(s.drop_last());
        assert(s.drop_last().skip(1) =~= s.skip(1).drop_last());
        assert(escaped_text(s) =~= escaped(s[0]) + escaped_text(s.skip(1)));
    }
}

proof fn digits_have_their_value(d: u32)
    requires
        d < 16,
    ensures
        digit_value(upper_digit(d)) == Some(d as int),
{
}

proof fn code_is_the_character(c: char)
    ensures
        c as u32 == c as int,
        (c as int) as char == c,
{
}

/// A quoted text reads as the text, whatever it holds: a document that names a
/// layout can be loaded again.
pub proof fn literals_read_back(s: Seq<char>)
    ensures
        read_escaped(escaped_text(s)) == Some(s),
    decreases s.len(),
{
    if s.len() == 0 {
        assert(s =~= Seq::empty());
    } else {
        let c = s[0];
        let rest = escaped_text(s.skip(1));
        escaped_from_the_front(s);
        literals_read_back(s.skip(1));
        let text = escaped(c) + rest;
        assert(seq![c] + s.skip(1) =~= s);
        if escaped(c).len() == 1 {
            assert(text.skip(1) =~= rest);
        } else if escaped(c).len() == 2 {
            assert(text.skip(2) =~= rest);
        } else {
            digits_have_their_value((c as u32) / 16);
            digits_have_their_value((c as u32) % 16);
            assert(text[1] == 'u' && text[2] == '0' && text[3] == '0');
            assert(text[4] == upper_digit((c as u32) / 16));
            assert(text[5] == upper_digit((c as u32) % 16));
            assert(digit_value('0') == Some(0int));
            code_is_the_character(c);
            assert(code_at(text, 2) == Some(c as int));
            assert(text.skip(6) =~= rest);
        }
    }
}

} // verus!
