//! Splitting a command line into an argument vector without a shell.
//!
//! White space separates arguments, single and double quotes preserve it, and
//! every other character, shell operators among them, stands for itself.
use crate::text::{is_space, space, views};
use vstd::prelude::*;

verus! {

/// Why a command line cannot be split.
#[derive(Debug, Clone, Copy, PartialEq, Eq, Structural)]
pub enum CommandLineError {
    /// A quote is never closed.
    UnterminatedQuote,
}

impl CommandLineError {
    /// The error as a sentence fragment.
    pub fn message(&self) -> (r: String)
        ensures
            r@ == "unterminated quote in command line"@,
    {
        "unterminated quote in command line".to_string()
    }
}

/// The splitter after some prefix of the line: the finished arguments, the
/// argument being read, and the quote it is inside of.
pub struct Splitter {
    pub words: Seq<Seq<char>>,
    pub word: Option<Seq<char>>,
    pub quote: Option<char>,
}

/// The characters of the argument being read.
pub open spec fn open_word(word: Option<Seq<char>>) -> Seq<char> {
    match word {
        Some(w) => w,
        None => Seq::empty(),
    }
}

/// One character further.
pub open spec fn split_step(s: Splitter, c: char) -> Splitter {
    match s.quote {
        Some(q) => if c == q {
            Splitter { quote: None, ..s }
        } else {
            Splitter { word: Some(open_word(s.word).push(c)), ..s }
        },
        None => if is_space(c) {
            match s.word {
                Some(w) => Splitter { words: s.words.push(w), word: None, ..s },
                None => s,
            }
        } else if c == '\'' || c == '"' {
            Splitter { word: Some(open_word(s.word)), quote: Some(c), ..s }
        } else {
            Splitter { word: Some(open_word(s.word).push(c)), ..s }
        },
    }
}

/// The splitter after all of `line`.
pub open spec fn split_state(line: Seq<char>) -> Splitter
    decreases line.len(),
{
    if line.len() == 0 {
        Splitter { words: Seq::empty(), word: None, quote: None }
    } else {
        split_step(split_state(line.drop_last()), line.last())
    }
}

/// The arguments of `line`, or `None` when a quote stays open.
pub open spec fn argv_of(line: Seq<char>) -> Option<Seq<Seq<char>>> {
    let s = split_state(line);
    if s.quote is Some {
        None
    } else {
        match s.word {
            Some(w) => Some(s.words.push(w)),
            None => Some(s.words),
        }
    }
}

/// Splits a command line into its arguments.
pub fn split_command_line(line: &str) -> (r: Result<Vec<String>, CommandLineError>)
    ensures
        match r {
            Ok(argv) => argv_of(line@) == Some(views(argv@)),
            Err(_) => argv_of(line@) is None,
        },
{
    let mut words: Vec<String> = Vec::new();
    let mut word = String::new();
    let mut reading = false;
    let mut quote: Option<char> = None;
    for c in it: line.chars()
        invariant
            it.seq() == line@,
            views(words@) == split_state(line@.take(it.index())).words,
            reading == split_state(line@.take(it.index())).word is Some,
            word@ == open_word(split_state(line@.take(it.index())).word),
            quote == split_state(line@.take(it.index())).quote,
    {
        assert(line@.take(it.index() + 1).drop_last() == line@.take(it.index()));
        match quote {
            Some(q) => {
                if c == q {
                    quote = None;
                } else {
                    reading = true;
                    word.push(c);
                }
            },
            None => {
                if space(c) {
                    if reading {
                        let ghost before = views(words@);
                        words.push(word);
                        assert(views(words@) == before.push(word@));
                        word = String::new();
                        reading = false;
                    }
                } else if c == '\'' || c == '"' {
                    quote = Some(c);
                    reading = true;
                } else {
                    reading = true;
                    word.push(c);
                }
            },
        }
    }
    assert(line@.take(line@.len() as int) == line@);
    if quote.is_some() {
        return Err(CommandLineError::UnterminatedQuote);
    }
    if reading {
        let ghost before = views(words@);
        words.push(word);
        assert(views(words@) == before.push(word@));
    }
    Ok(words)
}

/// The splitter after `more`, from a given state on.
spec fn split_on(s: Splitter, more: Seq<char>) -> Splitter
    decreases more.len(),
{
    if more.len() == 0 {
        s
    } else {
        split_step(split_on(s, more.drop_last()), more.last())
    }
}

proof fn split_goes_on(line: Seq<char>, more: Seq<char>)
    ensures
        split_state(line + more) == split_on(split_state(line), more),
    decreases more.len(),
{
    if more.len() == 0 {
        assert(line + more =~= line);
    } else {
        split_goes_on(line, more.drop_last());
        assert((line + more).drop_last() =~= line + more.drop_last());
    }
}

proof fn quoted_text_is_taken(s: Splitter, q: char, text: Seq<char>)
    requires
        s.quote == Some(q),
        s.word is Some,
        !text.contains(q),
    ensures
        split_on(s, text) == (Splitter { word: Some(s.word->0 + text), ..s }),
    decreases text.len(),
{
    if text.len() == 0 {
        assert(s.word->0 + text =~= s.word->0);
    } else {
        let front = text.drop_last();
        assert forall|i: int| 0 <= i < front.len() implies front[i] != q by {
            assert(text[i] == front[i]);
        }
        quoted_text_is_taken(s, q, front);
        assert(text[text.len() - 1] != q);
        assert((s.word->0 + front).push(text.last()) =~= s.word->0 + text);
    }
}

proof fn plain_text_is_taken(s: Splitter, text: Seq<char>)
    requires
        s.quote is None,
        forall|i: int|
            0 <= i < text.len() ==> !is_space(#[trigger] text[i]) && text[i] != '\'' && text[i]
                != '"',
    ensures
        split_on(s, text) == if text.len() == 0 {
            s
        } else {
            Splitter { word: Some(open_word(s.word) + text), ..s }
        },
    decreases text.len(),
{
    if text.len() > 0 {
        let front = text.drop_last();
        assert(forall|i: int| 0 <= i < front.len() ==> #[trigger] front[i] == text[i]);
        plain_text_is_taken(s, front);
        assert(text[text.len() - 1] == text.last());
        if front.len() == 0 {
            assert(open_word(s.word).push(text.last()) =~= open_word(s.word) + text);
        } else {
            assert((open_word(s.word) + front).push(text.last()) =~= open_word(s.word) + text);
        }
    }
}

/// `line` and one more argument, in quotes of the given kind.
pub open spec fn with_quoted(line: Seq<char>, q: char, word: Seq<char>) -> Seq<char> {
    line + (seq![q] + word + seq![q, ' '])
}

/// `line` and one more argument, as it stands.
pub open spec fn with_plain(line: Seq<char>, word: Seq<char>) -> Seq<char> {
    line + (word + seq![' '])
}

/// A line of finished arguments is split into one more when an argument in
/// quotes follows: with everything between the quotes, white space and the other
/// quote among it.
pub proof fn quoted_arguments_are_whole(line: Seq<char>, q: char, word: Seq<char>)
    requires
        q == '\'' || q == '"',
        !word.contains(q),
        split_state(line).word is None,
        split_state(line).quote is None,
    ensures
        argv_of(with_quoted(line, q, word)) == Some(argv_of(line)->0.push(word)),
        split_state(with_quoted(line, q, word)).word is None,
        split_state(with_quoted(line, q, word)).quote is None,
{
    let s = split_state(line);
    let opened = Splitter { word: Some(Seq::empty()), quote: Some(q), ..s };
    let a = line + seq![q];
    assert(a.drop_last() =~= line);
    assert(split_state(a) == opened);
    split_goes_on(a, word);
    quoted_text_is_taken(opened, q, word);
    assert(Seq::<char>::empty() + word =~= word);
    let b = a + word;
    let c = b + seq![q];
    assert(c.drop_last() =~= b);
    assert(split_state(b) == (Splitter { word: Some(word), quote: Some(q), ..s }));
    assert(split_state(c) == (Splitter { word: Some(word), quote: None, ..s }));
    let d = c + seq![' '];
    assert(d.drop_last() =~= c);
    assert(d.last() == ' ');
    assert(split_state(d).words == s.words.push(word));
    assert(d =~= with_quoted(line, q, word));
}

/// A line of finished arguments is split into one more when a word follows that
/// holds neither white space nor quotes.
pub proof fn plain_arguments_are_whole(line: Seq<char>, word: Seq<char>)
    requires
        word.len() > 0,
        forall|i: int|
            0 <= i < word.len() ==> !is_space(#[trigger] word[i]) && word[i] != '\'' && word[i]
                != '"',
        split_state(line).word is None,
        split_state(line).quote is None,
    ensures
        argv_of(with_plain(line, word)) == Some(argv_of(line)->0.push(word)),
        split_state(with_plain(line, word)).word is None,
        split_state(with_plain(line, word)).quote is None,
{
    let s = split_state(line);
    split_goes_on(line, word);
    plain_text_is_taken(s, word);
    assert(Seq::<char>::empty() + word =~= word);
    let b = line + word;
    let c = b + seq![' '];
    assert(c.drop_last() =~= b);
    assert(c =~= with_plain(line, word));
}

/// A line whose last quote is not closed has no arguments.
pub proof fn open_quotes_are_refused(line: Seq<char>, q: char, text: Seq<char>)
    requires
        q == '\'' || q == '"',
        !text.contains(q),
        split_state(line).quote is None,
    ensures
        argv_of(line + seq![q] + text) is None,
{
    let s = split_state(line);
    let a = line + seq![q];
    assert(a.drop_last() =~= line);
    split_goes_on(a, text);
    quoted_text_is_taken(split_state(a), q, text);
}

} // verus!
