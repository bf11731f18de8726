//! Messages made of fragments.
//!
//! A real number and a quoted text stay what they are until the message is
//! shown, so that whoever shows it renders them.
use crate::ieee::{F32, F64};
use crate::text::{decimal, numeral, push_int, push_nat, push_numeral};
use vstd::prelude::*;

verus! {

/// A piece of a message.
#[derive(Debug, Clone, PartialEq, Eq)]
pub enum Fragment {
    /// Shown as it is.
    Text(String),
    /// Shown in quotes, with control characters escaped.
    Quoted(String),
    /// A single-precision number.
    Single(F32),
    /// A double-precision number.
    Double(F64),
}

/// A piece of a message as a mathematical value.
pub enum FragmentView {
    Text(Seq<char>),
    Quoted(Seq<char>),
    Single(F32),
    Double(F64),
}

impl View for Fragment {
    type V = FragmentView;

    open spec fn view(&self) -> FragmentView {
        match *self {
            Fragment::Text(s) => FragmentView::Text(s@),
            Fragment::Quoted(s) => FragmentView::Quoted(s@),
            Fragment::Single(x) => FragmentView::Single(x),
            Fragment::Double(x) => FragmentView::Double(x),
        }
    }
}

/// A message.
#[derive(Debug, Clone, PartialEq, Eq)]
pub struct Message {
    pub parts: Vec<Fragment>,
}

impl View for Message {
    type V = Seq<FragmentView>;

    open spec fn view(&self) -> Seq<FragmentView> {
        self.parts@.map_values(|f: Fragment| f@)
    }
}

/// A fixed text as a fragment.
pub open spec fn t(s: &str) -> FragmentView {
    FragmentView::Text(s@)
}

/// A text as a fragment.
pub open spec fn w(s: Seq<char>) -> FragmentView {
    FragmentView::Text(s)
}

/// A quoted text as a fragment.
pub open spec fn q(s: Seq<char>) -> FragmentView {
    FragmentView::Quoted(s)
}

/// A number as a fragment.
pub open spec fn n(i: int) -> FragmentView {
    FragmentView::Text(decimal(i))
}

/// A single as a fragment.
pub open spec fn x(value: F32) -> FragmentView {
    FragmentView::Single(value)
}

/// A message of one fragment.
pub open spec fn m1(a: FragmentView) -> Seq<FragmentView> {
    Seq::empty().push(a)
}

/// A message of two fragments.
pub open spec fn m2(a: FragmentView, b: FragmentView) -> Seq<FragmentView> {
    Seq::empty().push(a).push(b)
}

/// A message of three fragments.
pub open spec fn m3(a: FragmentView, b: FragmentView, c: FragmentView) -> Seq<FragmentView> {
    Seq::empty().push(a).push(b).push(c)
}

/// A message of four fragments.
pub open spec fn m4(a: FragmentView, b: FragmentView, c: FragmentView, d: FragmentView) -> Seq<FragmentView> {
    Seq::empty().push(a).push(b).push(c).push(d)
}

/// A message of five fragments.
pub open spec fn m5(a: FragmentView, b: FragmentView, c: FragmentView, d: FragmentView, e: FragmentView) -> Seq<FragmentView> {
    Seq::empty().push(a).push(b).push(c).push(d).push(e)
}

/// A message of seven fragments.
pub open spec fn m7(a: FragmentView, b: FragmentView, c: FragmentView, d: FragmentView, e: FragmentView, f: FragmentView, g: FragmentView) -> Seq<FragmentView> {
    Seq::empty().push(a).push(b).push(c).push(d).push(e).push(f).push(g)
}

/// A message of nine fragments.
pub open spec fn m9(a: FragmentView, b: FragmentView, c: FragmentView, d: FragmentView, e: FragmentView, f: FragmentView, g: FragmentView, h: FragmentView, i: FragmentView) -> Seq<FragmentView> {
    Seq::empty().push(a).push(b).push(c).push(d).push(e).push(f).push(g).push(h).push(i)
}

impl Message {
    /// The empty message.
    pub fn new() -> (r: Message)
        ensures
            r@ == Seq::<FragmentView>::empty(),
    {
        let m = Message { parts: Vec::new() };
        assert(m@ == Seq::<FragmentView>::empty());
        m
    }

    fn with(self, f: Fragment) -> (r: Message)
        ensures
            r@ == self@.push(f@),
    {
        let mut parts = self.parts;
        parts.push(f);
        let m = Message { parts };
        assert(m@ == self@.push(f@));
        m
    }

    /// Followed by a text.
    pub fn text(self, s: &str) -> (r: Message)
        ensures
            r@ == self@.push(w(s@)),
    {
        self.with(Fragment::Text(s.to_string()))
    }

    /// Followed by a quoted text.
    pub fn quoted(self, s: &str) -> (r: Message)
        ensures
            r@ == self@.push(q(s@)),
    {
        self.with(Fragment::Quoted(s.to_string()))
    }

    /// Followed by a number.
    pub fn number(self, i: u64) -> (r: Message)
        ensures
            r@ == self@.push(n(i as int)),
    {
        let mut s = String::new();
        push_nat(&mut s, i);
        assert(s@ == decimal(i as int));
        self.with(Fragment::Text(s))
    }

    /// Followed by a number.
    pub fn signed(self, i: i64) -> (r: Message)
        ensures
            r@ == self@.push(n(i as int)),
    {
        let mut s = String::new();
        push_int(&mut s, i);
        assert(s@ == decimal(i as int));
        self.with(Fragment::Text(s))
    }

    /// Followed by a number in base sixteen.
    pub fn hex(self, i: u64) -> (r: Message)
        ensures
            r@ == self@.push(w(numeral(i as nat, 16))),
    {
        let mut s = String::new();
        push_numeral(&mut s, i, 16);
        assert(s@ == numeral(i as nat, 16));
        self.with(Fragment::Text(s))
    }

    /// Followed by a single-precision number.
    pub fn single(self, value: F32) -> (r: Message)
        ensures
            r@ == self@.push(x(value)),
    {
        self.with(Fragment::Single(value))
    }

    /// Followed by a double-precision number.
    pub fn double(self, value: F64) -> (r: Message)
        ensures
            r@ == self@.push(FragmentView::Double(value)),
    {
        self.with(Fragment::Double(value))
    }

    /// Followed by another message.
    pub fn followed_by(self, other: &Message) -> (r: Message)
        ensures
            r@ == self@ + other@,
    {
        let mut parts = self.parts;
        let ghost start = self@;
        let mut i: usize = 0;
        while i < other.parts.len()
            invariant
                i <= other.parts@.len(),
                (Message { parts })@ == start + other@.take(i as int),
            decreases other.parts@.len() - i,
        {
            let ghost before = (Message { parts })@;
            let copy = match &other.parts[i] {
                Fragment::Text(s) => Fragment::Text(s.clone()),
                Fragment::Quoted(s) => Fragment::Quoted(s.clone()),
                Fragment::Single(v) => Fragment::Single(*v),
                Fragment::Double(v) => Fragment::Double(*v),
            };
            parts.push(copy);
            assert((Message { parts })@ == before.push(copy@));
            assert(other@.take(i + 1) == other@.take(i as int).push(other@[i as int]));
            i += 1;
        }
        assert(other@.take(other@.len() as int) == other@);
        Message { parts }
    }
}

} // verus!
