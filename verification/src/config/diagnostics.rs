//! What configuration diagnostics consist of.
use crate::message::{m4, m5, n, t, w, FragmentView, Message};
use crate::text::{decimal, push_nat};
use vstd::prelude::*;

verus! {

/// How grave an issue is.
#[derive(Clone, Copy, Debug, PartialEq, Eq, Structural)]
pub enum ConfigDiagnosticLevel {
    Error,
    Warning,
}

impl ConfigDiagnosticLevel {
    /// The level in lower case.
    pub open spec fn text(self) -> Seq<char> {
        match self {
            ConfigDiagnosticLevel::Error => "error"@,
            ConfigDiagnosticLevel::Warning => "warning"@,
        }
    }

    /// The level in lower case.
    pub fn name(&self) -> (r: &'static str)
        ensures
            r@ == self.text(),
    {
        match *self {
            ConfigDiagnosticLevel::Error => "error",
            ConfigDiagnosticLevel::Warning => "warning",
        }
    }
}

/// One issue: where, what, and what to do about it.
#[derive(Clone, Debug, PartialEq, Eq)]
pub struct ConfigDiagnostic {
    pub level: ConfigDiagnosticLevel,
    pub path: String,
    pub message: Message,
    pub hint: Option<Message>,
}

/// An issue as a mathematical value.
pub struct IssueView {
    pub level: ConfigDiagnosticLevel,
    pub path: Seq<char>,
    pub message: Seq<FragmentView>,
    pub hint: Option<Seq<FragmentView>>,
}

impl View for ConfigDiagnostic {
    type V = IssueView;

    open spec fn view(&self) -> IssueView {
        IssueView {
            level: self.level,
            path: self.path@,
            message: self.message@,
            hint: match self.hint {
                Some(h) => Some(h@),
                None => None,
            },
        }
    }
}

/// An error without a hint.
pub open spec fn error(path: Seq<char>, message: Seq<FragmentView>) -> IssueView {
    IssueView { level: ConfigDiagnosticLevel::Error, path, message, hint: None }
}

/// A warning without a hint.
pub open spec fn warning(path: Seq<char>, message: Seq<FragmentView>) -> IssueView {
    IssueView { level: ConfigDiagnosticLevel::Warning, path, message, hint: None }
}

/// An issue with a hint.
pub open spec fn hinted(issue: IssueView, hint: Seq<FragmentView>) -> IssueView {
    IssueView { hint: Some(hint), ..issue }
}

/// How many issues have this level.
pub open spec fn count_level(issues: Seq<IssueView>, level: ConfigDiagnosticLevel) -> nat
    decreases issues.len(),
{
    if issues.len() == 0 {
        0
    } else {
        count_level(issues.drop_last(), level) + if issues.last().level == level {
            1nat
        } else {
            0nat
        }
    }
}

/// The issues of a configuration, in the order they were found.
#[derive(Clone, Debug, PartialEq, Eq)]
pub struct ConfigDiagnostics {
    issues: Vec<ConfigDiagnostic>,
}

impl View for ConfigDiagnostics {
    type V = Seq<IssueView>;

    closed spec fn view(&self) -> Seq<IssueView> {
        self.issues@.map_values(|i: ConfigDiagnostic| i@)
    }
}

impl Default for ConfigDiagnostics {
    /// No issues.
    fn default() -> (r: ConfigDiagnostics)
        ensures
            r@ == Seq::<IssueView>::empty(),
    {
        let d = ConfigDiagnostics { issues: Vec::new() };
        assert(d@ == Seq::<IssueView>::empty());
        d
    }
}

impl ConfigDiagnostic {
    /// The issue as a message.
    pub open spec fn described(issue: IssueView) -> Seq<FragmentView> {
        let head = m4(w(issue.level.text()), t(" ["), w(issue.path), t("]: ")) + issue.message;
        match issue.hint {
            Some(hint) => (head.push(t(" (hint: ")) + hint).push(t(")")),
            None => head,
        }
    }

    /// The issue as a message: level, path, message and hint.
    pub fn describe(&self) -> (r: Message)
        ensures
            r@ == Self::described(self@),
    {
        let head = Message::new().text(self.level.name()).text(" [").text(
            self.path.as_str(),
        ).text("]: ").followed_by(&self.message);
        match &self.hint {
            Some(hint) => head.text(" (hint: ").followed_by(hint).text(")"),
            None => head,
        }
    }
}

impl ConfigDiagnostics {
    /// The issues, in the order they were found.
    pub fn issues(&self) -> (r: &[ConfigDiagnostic])
        ensures
            r@.map_values(|i: ConfigDiagnostic| i@) == self@,
    {
        self.issues.as_slice()
    }

    /// Whether there is no issue.
    pub fn is_empty(&self) -> (r: bool)
        ensures
            r == (self@.len() == 0),
    {
        self.issues.len() == 0
    }

    /// The number of issues.
    pub fn len(&self) -> (r: usize)
        ensures
            r == self@.len(),
    {
        self.issues.len()
    }

    fn count(&self, level: ConfigDiagnosticLevel) -> (r: usize)
        ensures
            r == count_level(self@, level),
            r <= self@.len(),
    {
        let mut found: usize = 0;
        let mut i: usize = 0;
        while i < self.issues.len()
            invariant
                i <= self@.len(),
                self@.len() == self.issues@.len(),
                found <= i,
                found == count_level(self@.take(i as int), level),
            decreases self.issues@.len() - i,
        {
            assert(self@.take(i + 1).drop_last() == self@.take(i as int));
            assert(self@[i as int] == self.issues@[i as int]@);
            if self.issues[i].level == level {
                found += 1;
            }
            i += 1;
        }
        assert(self@.take(self@.len() as int) == self@);
        found
    }

    /// The number of errors.
    pub fn error_count(&self) -> (r: usize)
        ensures
            r == count_level(self@, ConfigDiagnosticLevel::Error),
    {
        self.count(ConfigDiagnosticLevel::Error)
    }

    /// The number of warnings.
    pub fn warning_count(&self) -> (r: usize)
        ensures
            r == count_level(self@, ConfigDiagnosticLevel::Warning),
    {
        self.count(ConfigDiagnosticLevel::Warning)
    }

    /// Whether an error is among the issues.
    pub fn has_errors(&self) -> (r: bool)
        ensures
            r == (exists|i: int|
                0 <= i < self@.len() && (#[trigger] self@[i]).level
                    == ConfigDiagnosticLevel::Error),
    {
        proof {
            counted_when_present(self@, ConfigDiagnosticLevel::Error);
        }
        self.error_count() != 0
    }

    /// The issues as one message: a summary line, then a line for each.
    pub open spec fn described(issues: Seq<IssueView>, n_shown: int) -> Seq<FragmentView>
        decreases n_shown,
    {
        if n_shown <= 0 {
            m5(
                t("configuration has "),
                n(count_level(issues, ConfigDiagnosticLevel::Error) as int),
                t(" error(s) and "),
                n(count_level(issues, ConfigDiagnosticLevel::Warning) as int),
                t(" warning(s)"),
            )
        } else {
            Self::described(issues, n_shown - 1).push(t("\n  - ")) + ConfigDiagnostic::described(
                issues[n_shown - 1],
            )
        }
    }

    /// The issues as one message: a summary line, then a line for each.
    pub fn describe(&self) -> (r: Message)
        ensures
            r@ == Self::described(self@, self@.len() as int),
    {
        let mut m = Message::new().text("configuration has ").number(
            self.error_count() as u64,
        ).text(" error(s) and ").number(self.warning_count() as u64).text(" warning(s)");
        let mut i: usize = 0;
        while i < self.issues.len()
            invariant
                i <= self@.len(),
                self@.len() == self.issues@.len(),
                m@ == Self::described(self@, i as int),
            decreases self.issues@.len() - i,
        {
            assert(self@[i as int] == self.issues@[i as int]@);
            let line = self.issues[i].describe();
            m = m.text("\n  - ").followed_by(&line);
            i += 1;
        }
        m
    }

    fn push(&mut self, issue: ConfigDiagnostic)
        ensures
            final(self)@ == old(self)@.push(issue@),
    {
        self.issues.push(issue);
        assert(self@ == old(self)@.push(issue@));
    }

    pub(crate) fn error(&mut self, path: &str, message: Message)
        ensures
            final(self)@ == old(self)@.push(error(path@, message@)),
    {
        self.push(
            ConfigDiagnostic {
                level: ConfigDiagnosticLevel::Error,
                path: path.to_string(),
                message,
                hint: None,
            },
        );
    }

    pub(crate) fn error_hint(&mut self, path: &str, message: Message, hint: Message)
        ensures
            final(self)@ == old(self)@.push(hinted(error(path@, message@), hint@)),
    {
        self.push(
            ConfigDiagnostic {
                level: ConfigDiagnosticLevel::Error,
                path: path.to_string(),
                message,
                hint: Some(hint),
            },
        );
    }

    pub(crate) fn warning(&mut self, path: &str, message: Message)
        ensures
            final(self)@ == old(self)@.push(warning(path@, message@)),
    {
        self.push(
            ConfigDiagnostic {
                level: ConfigDiagnosticLevel::Warning,
                path: path.to_string(),
                message,
                hint: None,
            },
        );
    }

    pub(crate) fn warning_hint(&mut self, path: &str, message: Message, hint: Message)
        ensures
            final(self)@ == old(self)@.push(hinted(warning(path@, message@), hint@)),
    {
        self.push(
            ConfigDiagnostic {
                level: ConfigDiagnosticLevel::Warning,
                path: path.to_string(),
                message,
                hint: Some(hint),
            },
        );
    }
}

proof fn counted_when_present(issues: Seq<IssueView>, level: ConfigDiagnosticLevel)
    ensures
        count_level(issues, level) != 0 <==> exists|i: int|
            0 <= i < issues.len() && (#[trigger] issues[i]).level == level,
    decreases issues.len(),
{
    if issues.len() > 0 {
        let rest = issues.drop_last();
        counted_when_present(rest, level);
        if issues.last().level == level {
            assert(issues[issues.len() - 1].level == level);
        }
        if count_level(rest, level) != 0 {
            let i = choose|i: int| 0 <= i < rest.len() && (#[trigger] rest[i]).level == level;
            assert(issues[i].level == level);
        }
        if exists|i: int| 0 <= i < issues.len() && (#[trigger] issues[i]).level == level {
            let i = choose|i: int| 0 <= i < issues.len() && (#[trigger] issues[i]).level == level;
            if i < rest.len() {
                assert(rest[i].level == level);
            }
        }
    }
}

/// Every issue is an error or a warning and counted as one of them.
pub proof fn errors_and_warnings_are_all(issues: Seq<IssueView>)
    ensures
        count_level(issues, ConfigDiagnosticLevel::Error) + count_level(
            issues,
            ConfigDiagnosticLevel::Warning,
        ) == issues.len(),
    decreases issues.len(),
{
    if issues.len() > 0 {
        errors_and_warnings_are_all(issues.drop_last());
    }
}

/// `path` with an index.
pub open spec fn indexed(path: Seq<char>, i: int) -> Seq<char> {
    path + "["@ + decimal(i) + "]"@
}

/// `path` with an index.
pub fn at_index(path: &str, i: usize) -> (r: String)
    ensures
        r@ == indexed(path@, i as int),
{
    let mut out = path.to_string();
    out.append("[");
    push_nat(&mut out, i as u64);
    out.append("]");
    out
}

/// `path` followed by `rest`.
pub fn below(path: &str, rest: &str) -> (r: String)
    ensures
        r@ == path@ + rest@,
{
    path.to_string().concat(rest)
}

} // verus!
