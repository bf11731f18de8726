//! What the rest of the window manager asks of a configuration.
use super::bindings::{
    button_views, configured_button, configured_key, key_views, mods_of, parse_modifiers, tag_count,
};
use super::defaults::{button_entries, default_buttons};
use super::diagnostics::{ConfigDiagnosticLevel, ConfigDiagnostics};
use super::types::{
    BackendFamily, BehaviorConfig, ButtonConfig, ClientMoveResize, ColorsConfig, Config, KeyConfig,
    LayoutTagConfig, NewClientPosition, StatusBarConfig, TomlConfig,
};
use crate::actions::{keysym_named, ButtonView, KeyView, Mods, WMButton, WMKey, WMRule};
use crate::animation::{AnimationSpeed, Easing};
use crate::ieee::F32;
use crate::terminals::EnvValue;
use crate::text::{
    begins_with, chars_of, lowered, parse_unsigned, parsed_unsigned, split_text_lines, starts_with,
    str_eq, string_of, text_lines_of, to_ascii_lower, trim, trimmed, unlines, views,
};
use vstd::arithmetic::power2::pow2;
use vstd::prelude::*;

verus! {

/// Whether a configuration file is read at all.
pub const LOAD_LOCAL_CONFIG: bool = true;

/// The monitor of a per-tag entry that holds on every monitor.
pub const ANY_MONITOR: i32 = -1;

/// Largest cursor in pixels.
pub const MAX_CURSOR_SIZE: u32 = 512;

/// Cursor size when neither the document nor the environment states one.
pub const DEFAULT_CURSOR_SIZE: u32 = 24;

/// Whether the scene-linear render path is in effect. It depends on the
/// per-surface color management: without that there is no source transfer
/// function to decode from.
pub fn scene_linear_render_path_requested(
    color_management_render_path: bool,
    scene_linear_compositing: bool,
) -> (r: bool)
    ensures
        r == (color_management_render_path && scene_linear_compositing),
{
    color_management_render_path && scene_linear_compositing
}

impl NewClientPosition {
    /// The place a name stands for; any other name is the head of the list.
    pub open spec fn named(s: Seq<char>) -> NewClientPosition {
        if lowered(trimmed(s)) == "tail"@ {
            NewClientPosition::Tail
        } else if lowered(trimmed(s)) == "after_focused"@ {
            NewClientPosition::AfterFocused
        } else {
            NewClientPosition::Master
        }
    }

    /// The place a name stands for; any other name is the head of the list.
    pub fn from_str(s: &str) -> (r: NewClientPosition)
        ensures
            r == NewClientPosition::named(s@),
    {
        let name = to_ascii_lower(trim(s).as_str());
        if str_eq(name.as_str(), "tail") {
            NewClientPosition::Tail
        } else if str_eq(name.as_str(), "after_focused") {
            NewClientPosition::AfterFocused
        } else {
            NewClientPosition::Master
        }
    }
}

impl ClientMoveResize {
    /// The policy a name stands for; any other name admits floating windows
    /// only.
    pub open spec fn named(s: Seq<char>) -> ClientMoveResize {
        if lowered(trimmed(s)) == "always"@ {
            ClientMoveResize::Always
        } else if lowered(trimmed(s)) == "never"@ {
            ClientMoveResize::Never
        } else {
            ClientMoveResize::FloatingOnly
        }
    }

    /// The policy a name stands for; any other name admits floating windows
    /// only.
    pub fn from_str(s: &str) -> (r: ClientMoveResize)
        ensures
            r == ClientMoveResize::named(s@),
    {
        let name = to_ascii_lower(trim(s).as_str());
        if str_eq(name.as_str(), "always") {
            ClientMoveResize::Always
        } else if str_eq(name.as_str(), "never") {
            ClientMoveResize::Never
        } else {
            ClientMoveResize::FloatingOnly
        }
    }
}

/// The cursor size in effect: the configured one, at most the largest; else a
/// number in range from the environment; else the default.
pub open spec fn cursor_size_of(configured: u32, environment: EnvValue) -> int {
    if configured != 0 {
        if configured > MAX_CURSOR_SIZE {
            MAX_CURSOR_SIZE as int
        } else {
            configured as int
        }
    } else {
        match environment {
            EnvValue::Text(text) => match parsed_unsigned(trimmed(text@), u32::MAX as nat) {
                Some(size) => if 1 <= size <= MAX_CURSOR_SIZE {
                    size as int
                } else {
                    DEFAULT_CURSOR_SIZE as int
                },
                None => DEFAULT_CURSOR_SIZE as int,
            },
            _ => DEFAULT_CURSOR_SIZE as int,
        }
    }
}

/// The cursor size in effect.
pub fn resolve_cursor_size(configured: u32, environment: &EnvValue) -> (r: u32)
    ensures
        r == cursor_size_of(configured, *environment),
        1 <= r <= MAX_CURSOR_SIZE,
{
    if configured != 0 {
        return if configured > MAX_CURSOR_SIZE {
            MAX_CURSOR_SIZE
        } else {
            configured
        };
    }
    match environment {
        EnvValue::Text(text) => match parse_unsigned(trim(text.as_str()).as_str(), u32::MAX) {
            Some(size) => if 1 <= size && size <= MAX_CURSOR_SIZE {
                size
            } else {
                DEFAULT_CURSOR_SIZE
            },
            None => DEFAULT_CURSOR_SIZE,
        },
        _ => DEFAULT_CURSOR_SIZE,
    }
}

/// The name of the configuration file of a backend family.
pub fn config_file_name(family: BackendFamily) -> (r: &'static str)
    ensures
        r@ == match family {
            BackendFamily::X11 => "config_x11.toml"@,
            BackendFamily::Wayland => "config_wayland.toml"@,
        },
{
    match family {
        BackendFamily::X11 => "config_x11.toml",
        BackendFamily::Wayland => "config_wayland.toml",
    }
}

/// A two-step shortcut prefix ready for use.
#[derive(Debug)]
pub struct CompiledChord {
    pub leader: (Mods, u32),
    /// Milliseconds that the chord stays armed.
    pub timeout_ms: u64,
    pub bindings: Vec<WMKey>,
}

/// The bindings of the first `count` entries, without those that do not
/// compile.
pub open spec fn configured_keys(keys: Seq<KeyConfig>, count: int) -> Seq<KeyView>
    decreases count,
{
    if count <= 0 {
        Seq::empty()
    } else {
        match configured_key(keys[count - 1]) {
            Some(k) => configured_keys(keys, count - 1).push(k),
            None => configured_keys(keys, count - 1),
        }
    }
}

/// The mouse bindings of the first `count` entries, without those that do not
/// compile.
pub open spec fn configured_buttons(buttons: Seq<ButtonConfig>, count: int) -> Seq<ButtonView>
    decreases count,
{
    if count <= 0 {
        Seq::empty()
    } else {
        match configured_button(buttons[count - 1]) {
            Some(b) => configured_buttons(buttons, count - 1).push(b),
            None => configured_buttons(buttons, count - 1),
        }
    }
}

/// The first entry for a tag that satisfies a condition on its monitor.
pub open spec fn first_entry(
    entries: Seq<LayoutTagConfig>,
    tag: usize,
    monitor: spec_fn(i32) -> bool,
) -> Option<int>
    decreases entries.len(),
{
    if entries.len() == 0 {
        None
    } else if entries[0].tag == tag && monitor(entries[0].monitor) {
        Some(0)
    } else {
        match first_entry(entries.drop_first(), tag, monitor) {
            Some(i) => Some(i + 1),
            None => None,
        }
    }
}

proof fn first_entry_at(
    entries: Seq<LayoutTagConfig>,
    tag: usize,
    monitor: spec_fn(i32) -> bool,
    at: int,
)
    requires
        0 <= at <= entries.len(),
        forall|i: int|
            0 <= i < at ==> !((#[trigger] entries[i]).tag == tag && monitor(entries[i].monitor)),
        at < entries.len() ==> entries[at].tag == tag && monitor(entries[at].monitor),
    ensures
        first_entry(entries, tag, monitor) == if at < entries.len() {
            Some(at)
        } else {
            None::<int>
        },
    decreases at,
{
    if at > 0 {
        assert(!(entries[0].tag == tag && monitor(entries[0].monitor)));
        let rest = entries.drop_first();
        assert forall|i: int| 0 <= i < at - 1 implies !((#[trigger] rest[i]).tag == tag && monitor(
            rest[i].monitor,
        )) by {
            assert(rest[i] == entries[i + 1]);
        }
        first_entry_at(rest, tag, monitor, at - 1);
    }
}

/// The comment that lists the options of a setting in a section.
pub open spec fn option_comment(section: Seq<char>, line: Seq<char>) -> Option<Seq<char>> {
    if section == "behavior"@ && begins_with(line, "transition_mode"@) {
        Some("# available: slide, cube, fade, flip, zoom, stack, blinds, coverflow, helix, portal, book"@)
    } else if section == "behavior"@ && begins_with(line, "wallpaper_mode"@) {
        Some("# available: fill, fit, stretch, center"@)
    } else if section == "behavior"@ && begins_with(line, "new_client_position"@) {
        Some("# available: master, tail, after_focused"@)
    } else if section == "behavior"@ && begins_with(line, "colorblind_mode"@) {
        Some("# available: \"\" (disabled), deuteranopia, protanopia, tritanopia"@)
    } else if section == "animation"@ && begins_with(line, "easing"@) {
        Some("# available: linear, ease-out, ease-in, ease-in-out, bounce, elastic"@)
    } else if section == "animation"@ && begins_with(line, "speed"@) {
        Some("# available: slow, normal, fast, instant"@)
    } else {
        None
    }
}

fn option_comment_for(section: &str, line: &str) -> (r: Option<&'static str>)
    ensures
        match r {
            Some(c) => option_comment(section@, line@) == Some(c@),
            None => option_comment(section@, line@) is None,
        },
{
    let behavior = str_eq(section, "behavior");
    let animation = str_eq(section, "animation");
    if behavior && starts_with(line, "transition_mode") {
        Some("# available: slide, cube, fade, flip, zoom, stack, blinds, coverflow, helix, portal, book")
    } else if behavior && starts_with(line, "wallpaper_mode") {
        Some("# available: fill, fit, stretch, center")
    } else if behavior && starts_with(line, "new_client_position") {
        Some("# available: master, tail, after_focused")
    } else if behavior && starts_with(line, "colorblind_mode") {
        Some("# available: \"\" (disabled), deuteranopia, protanopia, tritanopia")
    } else if animation && starts_with(line, "easing") {
        Some("# available: linear, ease-out, ease-in, ease-in-out, bounce, elastic")
    } else if animation && starts_with(line, "speed") {
        Some("# available: slow, normal, fast, instant")
    } else {
        None
    }
}

/// Whether a character is a square bracket.
pub open spec fn is_bracket(c: char) -> bool {
    c == '[' || c == ']'
}

/// `s` without leading square brackets.
pub open spec fn without_leading_brackets(s: Seq<char>) -> Seq<char>
    decreases s.len(),
{
    if s.len() > 0 && is_bracket(s[0]) {
        without_leading_brackets(s.drop_first())
    } else {
        s
    }
}

/// `s` without trailing square brackets.
pub open spec fn without_trailing_brackets(s: Seq<char>) -> Seq<char>
    decreases s.len(),
{
    if s.len() > 0 && is_bracket(s.last()) {
        without_trailing_brackets(s.drop_last())
    } else {
        s
    }
}

/// The name in a table header.
pub open spec fn table_name(line: Seq<char>) -> Seq<char> {
    without_trailing_brackets(without_leading_brackets(line))
}

fn table_name_of(line: &str) -> (r: String)
    ensures
        r@ == table_name(line@),
{
    let chars = chars_of(line);
    let mut from: usize = 0;
    assert(chars@.skip(0) == chars@);
    while from < chars.len() && (chars[from] == '[' || chars[from] == ']')
        invariant
            from <= chars@.len(),
            chars@ == line@,
            without_leading_brackets(line@) == without_leading_brackets(chars@.skip(from as int)),
        decreases chars@.len() - from,
    {
        assert(chars@.skip(from as int).drop_first() == chars@.skip(from + 1));
        from += 1;
    }
    let mut to: usize = chars.len();
    let ghost rest = chars@.skip(from as int);
    assert(rest.take(to - from) == rest);
    while from < to && (chars[to - 1] == '[' || chars[to - 1] == ']')
        invariant
            from <= to <= chars@.len(),
            rest == chars@.skip(from as int),
            without_trailing_brackets(rest) == without_trailing_brackets(rest.take(to - from)),
        decreases to,
    {
        assert(rest.take(to - from).drop_last() == rest.take(to - from - 1));
        to -= 1;
    }
    assert(rest.take(to - from) == chars@.subrange(from as int, to as int));
    string_of(&chars, from, to)
}

/// Whether a line opens a table, not an array of tables.
pub open spec fn opens_table(line: Seq<char>) -> bool {
    begins_with(line, "["@) && !begins_with(line, "[["@)
}

/// The annotated lines, and the section that the last line stands in.
pub open spec fn annotated_state(lines: Seq<Seq<char>>) -> (Seq<Seq<char>>, Seq<char>)
    decreases lines.len(),
{
    if lines.len() == 0 {
        (Seq::empty(), Seq::empty())
    } else {
        let (out, section) = annotated_state(lines.drop_last());
        let line = lines.last();
        let section = if opens_table(trimmed(line)) {
            table_name(trimmed(line))
        } else {
            section
        };
        match option_comment(section, trimmed(line)) {
            Some(comment) => (out.push(comment).push(line), section),
            None => (out.push(line), section),
        }
    }
}

/// A document with a comment of the available options above each setting that
/// takes one of a list.
pub open spec fn annotated(text: Seq<char>) -> Seq<char> {
    unlines(annotated_state(text_lines_of(text)).0)
}

fn push_text(lines: &mut Vec<String>, line: &str)
    ensures
        views(final(lines)@) == views(old(lines)@).push(line@),
{
    lines.push(line.to_string());
    assert(views(lines@) == views(old(lines)@).push(line@));
}

impl Config {
    /// Adds a comment of the available options above each setting that takes
    /// one of a list.
    pub fn add_option_comments(toml: &str) -> (r: String)
        ensures
            r@ == annotated(toml@),
    {
        let lines = split_text_lines(toml);
        let ghost all = views(lines@);
        let mut out: Vec<String> = Vec::new();
        let mut section = String::new();
        let mut i: usize = 0;
        assert(all.take(0) == Seq::<Seq<char>>::empty());
        assert(views(out@) == Seq::<Seq<char>>::empty());
        while i < lines.len()
            invariant
                i <= lines@.len(),
                all == views(lines@),
                views(out@) == annotated_state(all.take(i as int)).0,
                section@ == annotated_state(all.take(i as int)).1,
            decreases lines@.len() - i,
        {
            assert(all.take(i + 1).drop_last() == all.take(i as int));
            assert(all.take(i + 1).last() == lines@[i as int]@);
            let line = lines[i].as_str();
            let text = trim(line);
            if starts_with(text.as_str(), "[") && !starts_with(text.as_str(), "[[") {
                section = table_name_of(text.as_str());
            }
            if let Some(comment) = option_comment_for(section.as_str(), text.as_str()) {
                push_text(&mut out, comment);
            }
            push_text(&mut out, line);
            i += 1;
        }
        assert(all.take(all.len() as int) == all);
        crate::text::join_lines(&out)
    }

    /// A document as a configuration, unless a check finds an error in it.
    pub fn validated(inner: TomlConfig, factors: &Vec<Option<F32>>) -> (r: Result<
        Config,
        ConfigDiagnostics,
    >)
        ensures
            ({
                let issues = (Config { inner }).all_issues(factors@);
                let refused = exists|i: int|
                    0 <= i < issues.len() && (#[trigger] issues[i]).level
                        == ConfigDiagnosticLevel::Error;
                match r {
                    Ok(config) => config.inner == inner && !refused,
                    Err(d) => d@ == issues && refused,
                }
            }),
    {
        let config = Config { inner };
        let diagnostics = config.diagnostics(factors);
        if diagnostics.has_errors() {
            Err(diagnostics)
        } else {
            Ok(config)
        }
    }

    /// The configured cursor theme, or the environment's, or `default`; and
    /// the cursor size in effect.
    pub fn resolved_cursor(&self, theme: &EnvValue, size: &EnvValue) -> (r: (String, u32))
        ensures
            r.0@ == if trimmed(self.inner.appearance.cursor_theme@).len() > 0 {
                self.inner.appearance.cursor_theme@
            } else {
                match *theme {
                    EnvValue::Text(name) => name@,
                    _ => "default"@,
                }
            },
            r.1 == cursor_size_of(self.inner.appearance.cursor_size, *size),
    {
        let configured = self.inner.appearance.cursor_theme.as_str();
        let name = if trim(configured).as_str().is_empty() {
            match theme {
                EnvValue::Text(name) => name.clone(),
                _ => "default".to_string(),
            }
        } else {
            configured.to_string()
        };
        (name, resolve_cursor_size(self.inner.appearance.cursor_size, size))
    }

    /// One bit for each tag in use.
    pub fn tagmask(&self) -> (r: u32)
        ensures
            r == pow2(tag_count(self.inner.layout.tags_length) as nat) - 1,
    {
        let count: usize = self.tags_length();
        proof {
            vstd::arithmetic::power2::lemma2_to64();
            vstd::arithmetic::power2::lemma_pow2_strictly_increases(count as nat, 32);
            vstd::arithmetic::power2::lemma_pow2_pos(count as nat);
            vstd::bits::lemma_u32_shl_is_mul(1, count as u32);
        }
        (1u32 << (count as u32)) - 1
    }

    /// The stored layout of a tag on a monitor: an entry for that monitor
    /// before one for any monitor, and the first of several.
    pub fn layout_for_tag(&self, monitor: i32, tag: usize) -> (r: Option<&LayoutTagConfig>)
        ensures
            ({
                let entries = self.inner.layout.tags@;
                let own = first_entry(entries, tag, |m: i32| m == monitor);
                let shared = first_entry(entries, tag, |m: i32| m < 0);
                match (own, shared) {
                    (Some(i), _) => r == Some(&entries[i]),
                    (None, Some(i)) => r == Some(&entries[i]),
                    (None, None) => r is None,
                }
            }),
    {
        let entries = &self.inner.layout.tags;
        let ghost is_own = |m: i32| m == monitor;
        let ghost is_shared = |m: i32| m < 0;
        let mut i: usize = 0;
        while i < entries.len() && !(entries[i].tag == tag && entries[i].monitor == monitor)
            invariant
                i <= entries@.len(),
                is_own == (|m: i32| m == monitor),
                forall|k: int|
                    0 <= k < i ==> !((#[trigger] entries@[k]).tag == tag && is_own(
                        entries@[k].monitor,
                    )),
            decreases entries@.len() - i,
        {
            i += 1;
        }
        proof {
            first_entry_at(entries@, tag, is_own, i as int);
        }
        if i < entries.len() {
            return Some(&entries[i]);
        }
        let mut j: usize = 0;
        while j < entries.len() && !(entries[j].tag == tag && entries[j].monitor < 0)
            invariant
                j <= entries@.len(),
                is_shared == (|m: i32| m < 0),
                forall|k: int|
                    0 <= k < j ==> !((#[trigger] entries@[k]).tag == tag && is_shared(
                        entries@[k].monitor,
                    )),
            decreases entries@.len() - j,
        {
            j += 1;
        }
        proof {
            first_entry_at(entries@, tag, is_shared, j as int);
        }
        if j < entries.len() {
            Some(&entries[j])
        } else {
            None
        }
    }

    /// Replaces the stored per-tag layouts in memory.
    pub fn set_layout_tags(&mut self, tags: Vec<LayoutTagConfig>)
        ensures
            final(self).inner.layout.tags == tags,
            final(self).inner.layout.m_fact == old(self).inner.layout.m_fact,
            final(self).inner.layout.n_master == old(self).inner.layout.n_master,
            final(self).inner.layout.tags_length == old(self).inner.layout.tags_length,
            final(self).inner.layout.persist_tags == old(self).inner.layout.persist_tags,
            final(self).inner == (TomlConfig {
                layout: final(self).inner.layout,
                ..old(self).inner
            }),
    {
        self.inner.layout.tags = tags;
    }

    /// Replaces the whole document.
    pub fn merge_config(&mut self, other: TomlConfig)
        ensures
            final(self).inner == other,
    {
        self.inner = other;
    }

    /// The two-step shortcuts ready for use, or `None` when there is no leader
    /// key or it is not known. They stay armed for at least 100 milliseconds.
    pub fn compile_chord(&self) -> (r: Option<CompiledChord>)
        ensures
            ({
                let c = self.inner.keybindings.chord;
                match r {
                    Some(chord) => {
                        &&& c.leader_key@.len() > 0
                        &&& chord.leader.0 == mods_of(c.leader_modifier@)
                        &&& keysym_named(c.leader_key@) == Some(chord.leader.1)
                        &&& chord.timeout_ms == if c.timeout_ms < 100 {
                            100
                        } else {
                            c.timeout_ms
                        }
                        &&& key_views(chord.bindings@) == configured_keys(
                            c.bindings@,
                            c.bindings@.len() as int,
                        )
                    },
                    None => c.leader_key@.len() == 0 || keysym_named(c.leader_key@) is None,
                }
            }),
    {
        let chord = &self.inner.keybindings.chord;
        if chord.leader_key.as_str().is_empty() {
            return None;
        }
        let key_sym: u32 = match self.parse_keysym(chord.leader_key.as_str()) {
            Some(k) => k,
            None => return None,
        };
        let mut bindings: Vec<WMKey> = Vec::new();
        assert(key_views(bindings@) == Seq::<KeyView>::empty());
        let mut i: usize = 0;
        while i < chord.bindings.len()
            invariant
                i <= chord.bindings@.len(),
                key_views(bindings@) == configured_keys(chord.bindings@, i as int),
            decreases chord.bindings@.len() - i,
        {
            if let Some(key) = self.convert_key_config(&chord.bindings[i]) {
                let ghost before = key_views(bindings@);
                bindings.push(key);
                assert(key_views(bindings@) == before.push(key@));
            }
            i += 1;
        }
        Some(
            CompiledChord {
                leader: (parse_modifiers(chord.leader_modifier.as_slice()), key_sym),
                timeout_ms: if chord.timeout_ms < 100 {
                    100
                } else {
                    chord.timeout_ms
                },
                bindings,
            },
        )
    }

    fn convert_buttons(&self, configs: &Vec<ButtonConfig>) -> (r: Vec<WMButton>)
        ensures
            button_views(r@) == configured_buttons(configs@, configs@.len() as int),
    {
        let mut buttons: Vec<WMButton> = Vec::new();
        assert(button_views(buttons@) == Seq::<ButtonView>::empty());
        let mut i: usize = 0;
        while i < configs.len()
            invariant
                i <= configs@.len(),
                button_views(buttons@) == configured_buttons(configs@, i as int),
            decreases configs@.len() - i,
        {
            if let Some(button) = self.convert_button_config(&configs[i]) {
                let ghost before = button_views(buttons@);
                buttons.push(button);
                assert(button_views(buttons@) == before.push(button@));
            }
            i += 1;
        }
        buttons
    }

    /// The mouse bindings; the built-in ones when the document has none.
    pub fn get_buttons(&self) -> (r: Vec<WMButton>)
        ensures
            ({
                let own = self.inner.mouse_bindings.buttons@;
                if own.len() == 0 {
                    exists|configs: Seq<ButtonConfig>| #[trigger]
                        button_entries(configs) == default_buttons() && button_views(r@)
                            == configured_buttons(configs, configs.len() as int)
                } else {
                    button_views(r@) == configured_buttons(own, own.len() as int)
                }
            }),
    {
        if self.inner.mouse_bindings.buttons.len() == 0 {
            let configs = Self::get_default_button_configs();
            self.convert_buttons(&configs)
        } else {
            self.convert_buttons(&self.inner.mouse_bindings.buttons)
        }
    }

    /// The placement rules, one for each entry.
    pub fn get_rules(&self) -> (r: Vec<WMRule>)
        ensures
            r@.len() == self.inner.rules@.len(),
            forall|i: int|
                0 <= i < r@.len() ==> {
                    let rule = self.inner.rules@[i];
                    #[trigger] r@[i] == (WMRule {
                        class: rule.class,
                        instance: rule.instance,
                        name: rule.name,
                        tags: rule.tags,
                        is_floating: rule.is_floating,
                        monitor: rule.monitor,
                    })
                },
    {
        let mut rules: Vec<WMRule> = Vec::new();
        let mut i: usize = 0;
        while i < self.inner.rules.len()
            invariant
                i <= self.inner.rules@.len(),
                rules@.len() == i,
                forall|k: int|
                    0 <= k < i ==> {
                        let rule = self.inner.rules@[k];
                        #[trigger] rules@[k] == (WMRule {
                            class: rule.class,
                            instance: rule.instance,
                            name: rule.name,
                            tags: rule.tags,
                            is_floating: rule.is_floating,
                            monitor: rule.monitor,
                        })
                    },
            decreases self.inner.rules@.len() - i,
        {
            let rule = &self.inner.rules[i];
            rules.push(
                WMRule {
                    class: rule.class.clone(),
                    instance: rule.instance.clone(),
                    name: rule.name.clone(),
                    tags: rule.tags,
                    is_floating: rule.is_floating,
                    monitor: rule.monitor,
                },
            );
            i += 1;
        }
        rules
    }
}

impl Config {
    /// Border width in pixels.
    pub fn border_px(&self) -> (r: u32)
        ensures
            r == self.inner.appearance.border_px,
    {
        self.inner.appearance.border_px
    }

    /// Gap between windows in pixels.
    pub fn gap_px(&self) -> (r: u32)
        ensures
            r == self.inner.appearance.gap_px,
    {
        self.inner.appearance.gap_px
    }

    /// Snap distance in pixels.
    pub fn snap(&self) -> (r: u32)
        ensures
            r == self.inner.appearance.snap,
    {
        self.inner.appearance.snap
    }

    /// Padding around the status bar.
    pub fn status_bar_padding(&self) -> (r: i32)
        ensures
            r == self.inner.appearance.status_bar_padding,
    {
        self.inner.appearance.status_bar_padding
    }

    /// Height of the status bar.
    pub fn status_bar_height(&self) -> (r: i32)
        ensures
            r == self.inner.appearance.status_bar_height,
    {
        self.inner.appearance.status_bar_height
    }

    /// Configured pointer size in pixels, or 0 to defer to the environment.
    pub fn cursor_size(&self) -> (r: u32)
        ensures
            r == self.inner.appearance.cursor_size,
    {
        self.inner.appearance.cursor_size
    }

    /// Whether the status bar is shown.
    pub fn show_bar(&self) -> (r: bool)
        ensures
            r == self.inner.status_bar.show_bar,
    {
        self.inner.status_bar.show_bar
    }

    /// Drag dead zone in pixels.
    pub fn drag_threshold_px(&self) -> (r: u32)
        ensures
            r == self.inner.behavior.drag_threshold_px,
    {
        self.inner.behavior.drag_threshold_px
    }

    /// Whether the compositor runs.
    pub fn compositor_enabled(&self) -> (r: bool)
        ensures
            r == self.inner.behavior.compositor,
    {
        self.inner.behavior.compositor
    }

    /// Share of the screen the master area takes.
    pub fn m_fact(&self) -> (r: F32)
        ensures
            r == self.inner.layout.m_fact,
    {
        self.inner.layout.m_fact
    }

    /// Windows in the master area.
    pub fn n_master(&self) -> (r: u32)
        ensures
            r == self.inner.layout.n_master,
    {
        self.inner.layout.n_master
    }

    /// Whether a layout change is written back to the document.
    pub fn layout_persist_tags(&self) -> (r: bool)
        ensures
            r == self.inner.layout.persist_tags,
    {
        self.inner.layout.persist_tags
    }

    /// Whether windows are animated.
    pub fn animation_enabled(&self) -> (r: bool)
        ensures
            r == self.inner.animation.enabled,
    {
        self.inner.animation.enabled
    }

    /// Font of the window manager's own surfaces.
    pub fn system_ui_font(&self) -> (r: &str)
        ensures
            r@ == self.inner.appearance.system_ui_font@,
    {
        self.inner.appearance.system_ui_font.as_str()
    }

    /// Configured cursor theme, or empty to defer to the environment.
    pub fn cursor_theme(&self) -> (r: &str)
        ensures
            r@ == self.inner.appearance.cursor_theme@,
    {
        self.inner.appearance.cursor_theme.as_str()
    }

    /// Design language of the window manager's own surfaces.
    pub fn ui_theme(&self) -> (r: &str)
        ensures
            r@ == self.inner.appearance.ui_theme@,
    {
        self.inner.appearance.ui_theme.as_str()
    }

    /// Executable of the status bar.
    pub fn status_bar_name(&self) -> (r: &str)
        ensures
            r@ == self.inner.status_bar.name@,
    {
        self.inner.status_bar.name.as_str()
    }

    /// The status-bar section.
    pub fn status_bar_config(&self) -> (r: &StatusBarConfig)
        ensures
            *r == self.inner.status_bar,
    {
        &self.inner.status_bar
    }

    /// The colour section.
    pub fn colors(&self) -> (r: &ColorsConfig)
        ensures
            *r == self.inner.colors,
    {
        &self.inner.colors
    }

    /// The behaviour section.
    pub fn behavior(&self) -> (r: &BehaviorConfig)
        ensures
            *r == self.inner.behavior,
    {
        &self.inner.behavior
    }

    /// The key entries of the document.
    pub fn key_configs(&self) -> (r: &[KeyConfig])
        ensures
            r@ == self.inner.keybindings.keys@,
    {
        self.inner.keybindings.keys.as_slice()
    }

    /// Every stored per-tag layout, in document order.
    pub fn layout_tags(&self) -> (r: &[LayoutTagConfig])
        ensures
            r@ == self.inner.layout.tags@,
    {
        self.inner.layout.tags.as_slice()
    }

    /// Which windows a client may move or resize.
    pub fn client_moveresize(&self) -> (r: ClientMoveResize)
        ensures
            r == ClientMoveResize::named(self.inner.behavior.client_moveresize@),
    {
        ClientMoveResize::from_str(self.inner.behavior.client_moveresize.as_str())
    }

    /// Where a new window goes.
    pub fn new_client_position(&self) -> (r: NewClientPosition)
        ensures
            r == NewClientPosition::named(self.inner.behavior.new_client_position@),
    {
        NewClientPosition::from_str(self.inner.behavior.new_client_position.as_str())
    }

    /// The preset animation speed.
    pub fn animation_speed(&self) -> (r: AnimationSpeed)
        ensures
            r == AnimationSpeed::named(self.inner.animation.speed@),
    {
        AnimationSpeed::from_str(self.inner.animation.speed.as_str())
    }

    /// The duration of an animation in milliseconds, at the preset speed.
    pub fn animation_duration(&self) -> (r: u64)
        ensures
            r == AnimationSpeed::named(self.inner.animation.speed@).scaled(
                self.inner.animation.duration_ms as nat,
            ),
    {
        self.animation_speed().apply_duration(self.inner.animation.duration_ms)
    }

    /// The easing curve of animations.
    pub fn animation_easing(&self) -> (r: Easing)
        ensures
            r == Easing::named(self.inner.animation.easing@),
    {
        Easing::from_str(self.inner.animation.easing.as_str())
    }
}

} // verus!
