//! Semantic configuration diagnostics.
//!
//! A document of the expected shape may still hold unreachable shortcuts,
//! unsafe ranges, or misspelled choices. Keeping those checks here gives
//! startup, the explicit check and live reload one source of truth.
use super::bindings::{
    canonical_modifier, held, holds, modifier_named, spawn_argv, spawn_command, Modifier,
};
use super::diagnostics::{
    at_index, below, error, hinted, indexed, warning, ConfigDiagnostics, IssueView,
};
use super::types::KeyConfig;
use crate::actions::{function_by_name, function_named, keysym_by_name, keysym_named};
use crate::ieee::{F32, F64};
use crate::message::{m1, m2, m3, m5, m7, n, q, t, w, x, FragmentView, Message};
use crate::text::{
    among, among_ignoring_case, chars_of, join, joined, one_of, one_of_ignore_case, parse_unsigned,
    parsed_unsigned, split_at_first, split_once, str_eq, str_views,
};
use vstd::prelude::*;

verus! {

pub const ZERO: u32 = 0x0000_0000;  // 0.0

pub const ONE: u32 = 0x3f80_0000;  // 1.0

pub const FACT_MIN: u32 = 0x3d4c_cccd;  // 0.05

pub const FACT_MAX: u32 = 0x3f73_3333;  // 0.95

pub const RADIUS_MAX: u32 = 0x4280_0000;  // 64.0

/// Widest glow around a window, in pixels.
pub const MAX_WINDOW_GLOW_RADIUS: u32 = 0x42c0_0000;  // 96.0

/// Strongest glow around a window.
pub const MAX_WINDOW_GLOW_INTENSITY: u32 = 0x4080_0000;  // 4.0

pub const TENTH: u32 = 0x3dcc_cccd;  // 0.1

pub const HUNDRED: u32 = 0x42c8_0000;  // 100.0

pub const THOUSAND: u32 = 0x447a_0000;  // 1000.0

pub const TEN_THOUSAND: u32 = 0x461c_4000;  // 10000.0

pub const MINUS_TEN_THOUSAND: u32 = 0xc61c_4000;  // -10000.0

pub const TILT_MAX: u32 = 0x3eb3_3333;  // 0.35

pub const TWO: u32 = 0x4000_0000;  // 2.0

pub const BAR_MAX: u32 = 0x4380_0000;  // 256.0

pub const SECONDS_MAX: u32 = 0x41f0_0000;  // 30.0

/// Most subdivisions of a wobbling window.
pub const MAX_WOBBLY_SUBDIVISIONS: u32 = 32;

/// The single with this bit pattern.
pub open spec fn real_of(bits: u32) -> F32 {
    F32 { bits }
}

/// A finite number greater than zero.
pub open spec fn positive(value: F32) -> bool {
    value.finite() && real_of(ZERO).below(value)
}

/// A finite number of at least zero.
pub open spec fn nonnegative(value: F32) -> bool {
    value.finite() && !value.below(real_of(ZERO))
}

pub(crate) fn is_positive(value: F32) -> (r: bool)
    ensures
        r == positive(value),
{
    value.is_finite() && (F32 { bits: ZERO }).lt(value)
}

pub(crate) fn is_nonnegative(value: F32) -> (r: bool)
    ensures
        r == nonnegative(value),
{
    value.is_finite() && !value.lt(F32 { bits: ZERO })
}

/// An error for a number that is not finite, a warning for one out of range.
pub open spec fn range_check(
    d: Seq<IssueView>,
    path: Seq<char>,
    value: F32,
    min: u32,
    max: u32,
) -> Seq<IssueView> {
    let min = real_of(min);
    let max = real_of(max);
    if !value.finite() {
        d.push(
            hinted(
                error(path, m3(t("value "), x(value), t(" is not finite"))),
                m5(t("use a number in ["), x(min), t(", "), x(max), t("]")),
            ),
        )
    } else if !value.within(min, max) {
        d.push(
            warning(
                path,
                m7(
                    t("value "),
                    x(value),
                    t(" is outside the supported range ["),
                    x(min),
                    t(", "),
                    x(max),
                    t("]"),
                ),
            ),
        )
    } else {
        d
    }
}

pub(crate) fn validate_f32_range(d: &mut ConfigDiagnostics, path: &str, value: F32, min: u32, max: u32)
    ensures
        final(d)@ == range_check(old(d)@, path@, value, min, max),
{
    let min = F32 { bits: min };
    let max = F32 { bits: max };
    if !value.is_finite() {
        d.error_hint(
            path,
            Message::new().text("value ").single(value).text(" is not finite"),
            Message::new().text("use a number in [").single(min).text(", ").single(max).text("]"),
        );
    } else if !value.in_range(min, max) {
        d.warning(
            path,
            Message::new().text("value ").single(value).text(
                " is outside the supported range [",
            ).single(min).text(", ").single(max).text("]"),
        );
    }
}

/// An error for a number that is not finite or out of range.
pub open spec fn required_range_check(
    d: Seq<IssueView>,
    path: Seq<char>,
    value: F32,
    min: u32,
    max: u32,
) -> Seq<IssueView> {
    let min = real_of(min);
    let max = real_of(max);
    if !value.finite() || !value.within(min, max) {
        d.push(
            error(
                path,
                m7(
                    t("value "),
                    x(value),
                    t(" is outside the required range ["),
                    x(min),
                    t(", "),
                    x(max),
                    t("]"),
                ),
            ),
        )
    } else {
        d
    }
}

pub(crate) fn require_f32_range(d: &mut ConfigDiagnostics, path: &str, value: F32, min: u32, max: u32)
    ensures
        final(d)@ == required_range_check(old(d)@, path@, value, min, max),
{
    let min = F32 { bits: min };
    let max = F32 { bits: max };
    if !value.is_finite() || !value.in_range(min, max) {
        d.error(
            path,
            Message::new().text("value ").single(value).text(
                " is outside the required range [",
            ).single(min).text(", ").single(max).text("]"),
        );
    }
}

/// An error unless the number is finite and positive.
pub open spec fn positive_check(d: Seq<IssueView>, path: Seq<char>, value: F32) -> Seq<IssueView> {
    if positive(value) {
        d
    } else {
        d.push(
            error(path, m3(t("value "), x(value), t(" must be a finite positive number"))),
        )
    }
}

pub(crate) fn validate_positive_f32(d: &mut ConfigDiagnostics, path: &str, value: F32)
    ensures
        final(d)@ == positive_check(old(d)@, path@, value),
{
    if !is_positive(value) {
        d.error(
            path,
            Message::new().text("value ").single(value).text(" must be a finite positive number"),
        );
    }
}

/// An error unless the number is finite and positive.
pub open spec fn positive_double_check(
    d: Seq<IssueView>,
    path: Seq<char>,
    value: F64,
) -> Seq<IssueView> {
    if value.finite_positive() {
        d
    } else {
        d.push(
            error(
                path,
                m3(
                    t("value "),
                    FragmentView::Double(value),
                    t(" must be a finite positive number"),
                ),
            ),
        )
    }
}

pub(crate) fn validate_positive_f64(d: &mut ConfigDiagnostics, path: &str, value: F64)
    ensures
        final(d)@ == positive_double_check(old(d)@, path@, value),
{
    if !value.is_finite_positive() {
        d.error(
            path,
            Message::new().text("value ").double(value).text(" must be a finite positive number"),
        );
    }
}

/// An error unless the number is finite and at least zero.
pub open spec fn nonnegative_check(
    d: Seq<IssueView>,
    path: Seq<char>,
    value: F32,
) -> Seq<IssueView> {
    if nonnegative(value) {
        d
    } else {
        d.push(
            error(path, m3(t("value "), x(value), t(" must be a finite non-negative number"))),
        )
    }
}

pub(crate) fn validate_nonnegative_f32(d: &mut ConfigDiagnostics, path: &str, value: F32)
    ensures
        final(d)@ == nonnegative_check(old(d)@, path@, value),
{
    if !is_nonnegative(value) {
        d.error(
            path,
            Message::new().text("value ").single(value).text(
                " must be a finite non-negative number",
            ),
        );
    }
}

/// Positive while the effect is enabled, and never negative.
pub open spec fn sign_check(
    d: Seq<IssueView>,
    path: Seq<char>,
    value: F32,
    enabled: bool,
) -> Seq<IssueView> {
    if enabled {
        positive_check(d, path, value)
    } else {
        nonnegative_check(d, path, value)
    }
}

pub(crate) fn validate_sign(d: &mut ConfigDiagnostics, path: &str, value: F32, enabled: bool)
    ensures
        final(d)@ == sign_check(old(d)@, path@, value, enabled),
{
    if enabled {
        validate_positive_f32(d, path, value);
    } else {
        validate_nonnegative_f32(d, path, value);
    }
}

/// Each component of a colour lies between 0 and 1.
pub open spec fn rgba_check(
    d: Seq<IssueView>,
    path: Seq<char>,
    rgba: Seq<F32>,
) -> Seq<IssueView> {
    let d = range_check(d, indexed(path, 0), rgba[0], ZERO, ONE);
    let d = range_check(d, indexed(path, 1), rgba[1], ZERO, ONE);
    let d = range_check(d, indexed(path, 2), rgba[2], ZERO, ONE);
    range_check(d, indexed(path, 3), rgba[3], ZERO, ONE)
}

pub(crate) fn validate_rgba(d: &mut ConfigDiagnostics, path: &str, rgba: &[F32; 4])
    ensures
        final(d)@ == rgba_check(old(d)@, path@, rgba@),
{
    validate_f32_range(d, at_index(path, 0).as_str(), rgba[0], ZERO, ONE);
    validate_f32_range(d, at_index(path, 1).as_str(), rgba[1], ZERO, ONE);
    validate_f32_range(d, at_index(path, 2).as_str(), rgba[2], ZERO, ONE);
    validate_f32_range(d, at_index(path, 3).as_str(), rgba[3], ZERO, ONE);
}

/// The warning for a value that is none of the choices.
pub open spec fn unknown_choice(
    path: Seq<char>,
    value: Seq<char>,
    choices: Seq<&str>,
) -> IssueView {
    hinted(
        warning(path, m2(t("unknown value "), q(value))),
        m2(t("expected one of: "), w(joined(str_views(choices), ", "@))),
    )
}

/// A warning unless the value is one of the choices.
pub open spec fn choice_check(
    d: Seq<IssueView>,
    path: Seq<char>,
    value: Seq<char>,
    choices: Seq<&str>,
) -> Seq<IssueView> {
    if among(value, choices) {
        d
    } else {
        d.push(unknown_choice(path, value, choices))
    }
}

/// A warning unless the value is one of the choices up to ASCII case.
pub open spec fn choice_check_ignoring_case(
    d: Seq<IssueView>,
    path: Seq<char>,
    value: Seq<char>,
    choices: Seq<&str>,
) -> Seq<IssueView> {
    if among_ignoring_case(value, choices) {
        d
    } else {
        d.push(unknown_choice(path, value, choices))
    }
}

pub(crate) fn warn_unknown_choice(d: &mut ConfigDiagnostics, path: &str, value: &str, choices: &[&str])
    ensures
        final(d)@ == old(d)@.push(unknown_choice(path@, value@, choices@)),
{
    d.warning_hint(
        path,
        Message::new().text("unknown value ").quoted(value),
        Message::new().text("expected one of: ").text(join(choices, ", ").as_str()),
    );
}

pub(crate) fn validate_choice(d: &mut ConfigDiagnostics, path: &str, value: &str, choices: &[&str])
    ensures
        final(d)@ == choice_check(old(d)@, path@, value@, choices@),
{
    if !one_of(value, choices) {
        warn_unknown_choice(d, path, value, choices);
    }
}

pub(crate) fn validate_choice_ignore_ascii_case(
    d: &mut ConfigDiagnostics,
    path: &str,
    value: &str,
    choices: &[&str],
)
    ensures
        final(d)@ == choice_check_ignoring_case(old(d)@, path@, value@, choices@),
{
    if !one_of_ignore_case(value, choices) {
        warn_unknown_choice(d, path, value, choices);
    }
}

/// `text` when `names` hold `modifier`, else nothing.
pub open spec fn held_text(names: Seq<String>, modifier: Modifier, text: Seq<char>) -> Seq<char> {
    if holds(names, modifier) {
        text
    } else {
        ""@
    }
}

/// A chord in canonical form: each modifier once, under its canonical name, in
/// alphabetical order, then the key, joined by plus signs.
pub open spec fn chord_text(names: Seq<String>, key: Seq<char>) -> Seq<char> {
    held_text(names, Modifier::Alt, "Alt+"@) + held_text(names, Modifier::CapsLock, "CapsLock+"@)
        + held_text(names, Modifier::Control, "Control+"@) + held_text(
        names,
        Modifier::Mod2,
        "Mod2+"@,
    ) + held_text(names, Modifier::Mod3, "Mod3+"@) + held_text(names, Modifier::Mod5, "Mod5+"@)
        + held_text(names, Modifier::Shift, "Shift+"@) + held_text(
        names,
        Modifier::Super,
        "Super+"@,
    ) + key
}

fn append_held(out: &mut String, names: &[String], modifier: Modifier, text: &str)
    ensures
        final(out)@ == old(out)@ + held_text(names@, modifier, text@),
{
    if held(names, modifier) {
        out.append(text);
    } else {
        proof {
            reveal_strlit("");
            assert(""@ =~= Seq::<char>::empty());
            assert(out@ + ""@ == out@);
        }
    }
}

/// A chord in canonical form.
pub fn canonical_chord(names: &[String], key: &str) -> (r: String)
    ensures
        r@ == chord_text(names@, key@),
{
    let mut out = String::new();
    append_held(&mut out, names, Modifier::Alt, "Alt+");
    assert(out@ == held_text(names@, Modifier::Alt, "Alt+"@));
    append_held(&mut out, names, Modifier::CapsLock, "CapsLock+");
    append_held(&mut out, names, Modifier::Control, "Control+");
    append_held(&mut out, names, Modifier::Mod2, "Mod2+");
    append_held(&mut out, names, Modifier::Mod3, "Mod3+");
    append_held(&mut out, names, Modifier::Mod5, "Mod5+");
    append_held(&mut out, names, Modifier::Shift, "Shift+");
    append_held(&mut out, names, Modifier::Super, "Super+");
    out.append(key);
    out
}

/// The check of one modifier: known, and not a repetition.
pub open spec fn modifier_check(
    d: Seq<IssueView>,
    path: Seq<char>,
    names: Seq<String>,
    i: int,
) -> Seq<IssueView> {
    let name = names[i]@;
    match modifier_named(name) {
        None => d.push(
            hinted(
                error(indexed(path, i), m2(t("unknown modifier "), q(name))),
                m1(t("use Alt, Super, Control, Shift, CapsLock, or Mod1..Mod5")),
            ),
        ),
        Some(m) => if holds(names.take(i), m) {
            d.push(
                warning(indexed(path, i), m3(t("modifier "), q(name), t(" is duplicated"))),
            )
        } else {
            d
        },
    }
}

/// The checks of the first `count` modifiers.
pub open spec fn modifiers_check(
    d: Seq<IssueView>,
    path: Seq<char>,
    names: Seq<String>,
    count: int,
) -> Seq<IssueView>
    decreases count,
{
    if count <= 0 {
        d
    } else {
        modifier_check(modifiers_check(d, path, names, count - 1), path, names, count - 1)
    }
}

fn held_before(names: &[String], count: usize, modifier: Modifier) -> (r: bool)
    requires
        count <= names@.len(),
    ensures
        r == holds(names@.take(count as int), modifier),
{
    let mut i: usize = 0;
    while i < count
        invariant
            i <= count <= names@.len(),
            forall|k: int| 0 <= k < i ==> modifier_named(#[trigger] names@[k]@) != Some(modifier),
        decreases count - i,
    {
        if canonical_modifier(names[i].as_str()) == Some(modifier) {
            assert(names@.take(count as int)[i as int] == names@[i as int]);
            return true;
        }
        i += 1;
    }
    assert forall|k: int| 0 <= k < count implies modifier_named(
        #[trigger] names@.take(count as int)[k]@,
    ) != Some(modifier) by {
        assert(names@.take(count as int)[k] == names@[k]);
    }
    false
}

pub(crate) fn validate_modifiers(d: &mut ConfigDiagnostics, path: &str, names: &[String])
    ensures
        final(d)@ == modifiers_check(old(d)@, path@, names@, names@.len() as int),
{
    let ghost start = d@;
    let mut i: usize = 0;
    while i < names.len()
        invariant
            i <= names@.len(),
            d@ == modifiers_check(start, path@, names@, i as int),
        decreases names@.len() - i,
    {
        let name = names[i].as_str();
        match canonical_modifier(name) {
            None => {
                d.error_hint(
                    at_index(path, i).as_str(),
                    Message::new().text("unknown modifier ").quoted(name),
                    Message::new().text("use Alt, Super, Control, Shift, CapsLock, or Mod1..Mod5"),
                );
            },
            Some(m) => {
                if held_before(names, i, m) {
                    d.warning(
                        at_index(path, i).as_str(),
                        Message::new().text("modifier ").quoted(name).text(" is duplicated"),
                    );
                }
            },
        }
        i += 1;
    }
}

/// The checks of a key binding.
pub open spec fn binding_check(d: Seq<IssueView>, path: Seq<char>, k: KeyConfig) -> Seq<IssueView> {
    let d = modifiers_check(d, path + ".modifier"@, k.modifier@, k.modifier@.len() as int);
    let d = if keysym_named(k.key@) is None {
        d.push(
            warning(
                path + ".key"@,
                m3(t("unknown key "), q(k.key@), t("; this binding will be ignored")),
            ),
        )
    } else {
        d
    };
    let d = if function_named(k.function@) is None {
        d.push(
            warning(
                path + ".function"@,
                m3(t("unknown function "), q(k.function@), t("; this binding will be ignored")),
            ),
        )
    } else {
        d
    };
    if k.function@ == "spawn"@ && spawn_argv(k.argument) is None {
        d.push(
            hinted(
                error(
                    path + ".argument"@,
                    m1(t("spawn requires a non-empty command string or array")),
                ),
                m1(t("examples: \"alacritty\" or [\"alacritty\", \"--option\"]")),
            ),
        )
    } else {
        d
    }
}

pub(crate) fn validate_binding(d: &mut ConfigDiagnostics, path: &str, k: &KeyConfig)
    ensures
        final(d)@ == binding_check(old(d)@, path@, *k),
{
    validate_modifiers(d, below(path, ".modifier").as_str(), k.modifier.as_slice());
    let key = k.key.as_str();
    if keysym_by_name(key).is_none() {
        d.warning(
            below(path, ".key").as_str(),
            Message::new().text("unknown key ").quoted(key).text("; this binding will be ignored"),
        );
    }
    let function = k.function.as_str();
    if function_by_name(function).is_none() {
        d.warning(
            below(path, ".function").as_str(),
            Message::new().text("unknown function ").quoted(function).text(
                "; this binding will be ignored",
            ),
        );
    }
    if str_eq(function, "spawn") && spawn_command(&k.argument).is_none() {
        d.error_hint(
            below(path, ".argument").as_str(),
            Message::new().text("spawn requires a non-empty command string or array"),
            Message::new().text("examples: \"alacritty\" or [\"alacritty\", \"--option\"]"),
        );
    }
}

/// Whether a text is a number below `limit` in two characters.
pub open spec fn two_digit(s: Seq<char>, limit: nat) -> bool {
    &&& s.len() == 2
    &&& parsed_unsigned(s, 255) is Some
    &&& parsed_unsigned(s, 255)->0 < limit
}

/// Whether a text is a time of day, `HH:MM` in 24 hours.
pub open spec fn is_time(s: Seq<char>) -> bool {
    match split_at_first(s, ':') {
        Some((hour, minute)) => two_digit(hour, 24) && two_digit(minute, 60),
        None => false,
    }
}

/// A warning unless the value is a time of day.
pub open spec fn time_check(d: Seq<IssueView>, path: Seq<char>, value: Seq<char>) -> Seq<IssueView> {
    if is_time(value) {
        d
    } else {
        d.push(
            hinted(
                warning(path, m2(t("invalid time "), q(value))),
                m1(t("use 24-hour HH:MM format")),
            ),
        )
    }
}

fn is_two_digit(s: &str, limit: u32) -> (r: bool)
    ensures
        r == two_digit(s@, limit as nat),
{
    chars_of(s).len() == 2 && match parse_unsigned(s, 255) {
        Some(n) => n < limit,
        None => false,
    }
}

pub(crate) fn validate_time(d: &mut ConfigDiagnostics, path: &str, value: &str)
    ensures
        final(d)@ == time_check(old(d)@, path@, value@),
{
    let valid = match split_once(value, ':') {
        Some((hour, minute)) => is_two_digit(hour.as_str(), 24) && is_two_digit(
            minute.as_str(),
            60,
        ),
        None => false,
    };
    if !valid {
        d.warning_hint(
            path,
            Message::new().text("invalid time ").quoted(value),
            Message::new().text("use 24-hour HH:MM format"),
        );
    }
}

} // verus!
