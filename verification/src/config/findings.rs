//! What the checks of a document find.
use super::bindings::{configured_key, holds, modifier_named, mods_of};
use super::checks::{
    beyond_tags, border_check, entry_chord, gap_check, grid_check, key_check, latest_on,
    layout_check, millis_check, monitor_check, rule_check, work_check,
};
use super::diagnostics::{indexed, ConfigDiagnosticLevel, IssueView};
use super::hot::{stated, HotKey};
use super::overrides::{setting_name, settings_go_by_their_names};
use super::types::{KeyConfig, RuleConfig, TomlConfig};
use super::validation::{
    binding_check, choice_check, is_time, modifier_check, modifiers_check, nonnegative_check,
    positive_check, range_check, required_range_check, time_check, FACT_MAX, FACT_MIN, ONE, RADIUS_MAX,
    ZERO,
};
use crate::ieee::F32;
use crate::json::JsonValue;
use crate::text::{
    all_digits, among, digits_value, is_digit, parsed_unsigned, position_is_first, split_at_first,
    unsigned_digits,
};
use vstd::arithmetic::power2::pow2;
use vstd::prelude::*;

verus! {

/// Whether a check found nothing.
pub open spec fn nothing_found(before: Seq<IssueView>, after: Seq<IssueView>) -> bool {
    after == before
}

/// Whether a check found one thing, at this place and so serious.
pub open spec fn one_found(
    before: Seq<IssueView>,
    after: Seq<IssueView>,
    path: Seq<char>,
    level: ConfigDiagnosticLevel,
) -> bool {
    &&& after.len() == before.len() + 1
    &&& before == after.drop_last()
    &&& after.last().path == path
    &&& after.last().level == level
}

/// A number in its range passes; one beside it is warned of, or refused where
/// the range is required; what is no finite number is always refused.
pub proof fn ranges_are_checked(
    d: Seq<IssueView>,
    path: Seq<char>,
    value: F32,
    min: u32,
    max: u32,
)
    ensures
        ({
            let inside = value.finite() && value.within(F32 { bits: min }, F32 { bits: max });
            let soft = range_check(d, path, value, min, max);
            let hard = required_range_check(d, path, value, min, max);
            &&& inside ==> nothing_found(d, soft) && nothing_found(d, hard)
            &&& !inside && value.finite() ==> one_found(d, soft, path, ConfigDiagnosticLevel::Warning)
            &&& !value.finite() ==> one_found(d, soft, path, ConfigDiagnosticLevel::Error)
            &&& !inside ==> one_found(d, hard, path, ConfigDiagnosticLevel::Error)
        }),
{
    let soft = range_check(d, path, value, min, max);
    let hard = required_range_check(d, path, value, min, max);
    assert(soft.len() > d.len() ==> soft.drop_last() =~= d);
    assert(hard.len() > d.len() ==> hard.drop_last() =~= d);
}

/// A number that must be positive is refused unless it is above zero, and one
/// that must not be negative unless it is zero or above; neither may be infinite.
pub proof fn signs_are_checked(d: Seq<IssueView>, path: Seq<char>, value: F32)
    ensures
        ({
            let above = 0 < value.bits < 0x7f80_0000;
            let zero = value.bits == 0 || value.bits == 0x8000_0000;
            let strict = positive_check(d, path, value);
            let loose = nonnegative_check(d, path, value);
            &&& above ==> nothing_found(d, strict) && nothing_found(d, loose)
            &&& zero ==> nothing_found(d, loose)
            &&& !above ==> one_found(d, strict, path, ConfigDiagnosticLevel::Error)
            &&& !above && !zero ==> one_found(d, loose, path, ConfigDiagnosticLevel::Error)
        }),
{
    let strict = positive_check(d, path, value);
    let loose = nonnegative_check(d, path, value);
    assert(strict.len() > d.len() ==> strict.drop_last() =~= d);
    assert(loose.len() > d.len() ==> loose.drop_last() =~= d);
}

/// A value that is one of the choices passes, and any other is warned of.
pub proof fn choices_are_checked(
    d: Seq<IssueView>,
    path: Seq<char>,
    value: Seq<char>,
    choices: Seq<&str>,
)
    ensures
        ({
            let r = choice_check(d, path, value, choices);
            &&& among(value, choices) ==> nothing_found(d, r)
            &&& !among(value, choices) ==> one_found(d, r, path, ConfigDiagnosticLevel::Warning)
        }),
{
    let r = choice_check(d, path, value, choices);
    assert(r.len() > d.len() ==> r.drop_last() =~= d);
}

/// A modifier passes where it is known and stands for none named before; an
/// unknown one is refused, a repeated one warned of.
pub proof fn modifiers_are_checked(
    d: Seq<IssueView>,
    path: Seq<char>,
    names: Seq<String>,
    i: int,
)
    requires
        0 <= i < names.len(),
    ensures
        ({
            let r = modifier_check(d, path, names, i);
            let m = modifier_named(names[i]@);
            let before = exists|k: int|
                0 <= k < i && modifier_named(#[trigger] names[k]@) == m;
            &&& m is None ==> one_found(d, r, indexed(path, i), ConfigDiagnosticLevel::Error)
            &&& m is Some && before ==> one_found(
                d,
                r,
                indexed(path, i),
                ConfigDiagnosticLevel::Warning,
            )
            &&& m is Some && !before ==> nothing_found(d, r)
        }),
{
    let r = modifier_check(d, path, names, i);
    assert(r.len() > d.len() ==> r.drop_last() =~= d);
    if let Some(m) = modifier_named(names[i]@) {
        let earlier = names.take(i);
        if holds(earlier, m) {
            let k = choose|k: int|
                0 <= k < earlier.len() && modifier_named(#[trigger] earlier[k]@) == Some(m);
            assert(names[k]@ == earlier[k]@);
        }
        if exists|k: int| 0 <= k < i && modifier_named(#[trigger] names[k]@) == Some(m) {
            let k = choose|k: int| 0 <= k < i && modifier_named(#[trigger] names[k]@) == Some(m);
            assert(earlier[k]@ == names[k]@);
        }
    }
}

/// Nothing is found in a binding just where it takes effect, as far as its
/// modifiers are in order.
pub proof fn bindings_without_findings_take_effect(d: Seq<IssueView>, path: Seq<char>, k: KeyConfig)
    requires
        modifiers_check(d, path + ".modifier"@, k.modifier@, k.modifier@.len() as int) == d,
    ensures
        nothing_found(d, binding_check(d, path, k)) <==> configured_key(k) is Some,
        binding_check(d, path, k).len() >= d.len(),
{
}

/// The entry that is reported as the former owner of a chord is the last one
/// before that has it, and there is none just where no entry before has it.
pub proof fn former_owners_are_the_latest(keys: Seq<KeyConfig>, chord: Seq<char>, count: int)
    requires
        0 <= count <= keys.len(),
    ensures
        match latest_on(keys, chord, count) {
            Some(p) => {
                &&& 0 <= p < count
                &&& entry_chord(keys[p]) == chord
                &&& forall|k: int| p < k < count ==> entry_chord(#[trigger] keys[k]) != chord
            },
            None => forall|k: int| 0 <= k < count ==> entry_chord(#[trigger] keys[k]) != chord,
        },
    decreases count,
{
    if count > 0 && entry_chord(keys[count - 1]) != chord {
        former_owners_are_the_latest(keys, chord, count - 1);
    }
}

/// An entry on a chord of an earlier one is warned of once more than what is
/// wrong with the entry itself, and an entry on a new chord is not.
pub proof fn repeated_chords_are_found(d: Seq<IssueView>, keys: Seq<KeyConfig>, i: int)
    requires
        0 <= i < keys.len(),
    ensures
        ({
            let path = indexed("keybindings.keys"@, i);
            let own = binding_check(d, path, keys[i]);
            let r = key_check(d, keys, i);
            let repeated = exists|k: int|
                0 <= k < i && entry_chord(#[trigger] keys[k]) == entry_chord(keys[i]);
            &&& repeated ==> one_found(own, r, path, ConfigDiagnosticLevel::Warning)
            &&& !repeated ==> nothing_found(own, r)
        }),
{
    former_owners_are_the_latest(keys, entry_chord(keys[i]), i);
    let path = indexed("keybindings.keys"@, i);
    let own = binding_check(d, path, keys[i]);
    let r = key_check(d, keys, i);
    assert(r.len() > own.len() ==> r.drop_last() =~= own);
}

/// Two entries with the same modifiers, whatever their names and order, and the
/// same key are on the same chord.
pub proof fn chords_do_not_depend_on_names(a: KeyConfig, b: KeyConfig)
    requires
        mods_of(a.modifier@) == mods_of(b.modifier@),
        a.key@ == b.key@,
    ensures
        entry_chord(a) == entry_chord(b),
{
}

/// A time of day is two characters for the hour, a colon and two for the
/// minute; two digits each below 24 and 60 are one.
pub proof fn times_have_two_parts(s: Seq<char>)
    ensures
        is_time(s) ==> s.len() == 5 && s[2] == ':',
        s.len() == 5 && is_digit(s[0]) && is_digit(s[1]) && s[2] == ':' && is_digit(s[3])
            && is_digit(s[4]) ==> (is_time(s) <==> 10 * (s[0] as u32 - 48) + (s[1] as u32 - 48)
            < 24 && s[3] < '6'),
{
    position_is_first(s, ':');
    if let Some((hour, minute)) = split_at_first(s, ':') {
        if s.len() == 5 && is_digit(s[0]) && is_digit(s[1]) && s[2] == ':' && is_digit(s[3])
            && is_digit(s[4]) {
            assert(hour =~= seq![s[0], s[1]]);
            assert(minute =~= seq![s[3], s[4]]);
            two_digits(s[0], s[1]);
            two_digits(s[3], s[4]);
        }
    }
}

proof fn two_digits(a: char, b: char)
    requires
        is_digit(a),
        is_digit(b),
    ensures
        parsed_unsigned(seq![a, b], 255) == Some(
            (10 * (a as u32 - 48) + (b as u32 - 48)) as nat,
        ),
{
    let s = seq![a, b];
    assert(s.drop_last() =~= seq![a]);
    assert(seq![a].drop_last() =~= Seq::empty());
    reveal_with_fuel(digits_value, 3);
    assert(unsigned_digits(s) == s);
    assert(all_digits(s));
}

/// A mask names a tag beyond the last one just where a bit from there on is
/// set.
pub proof fn masks_stay_below_the_tags(mask: usize, tags: usize)
    requires
        1 <= tags <= 31,
    ensures
        beyond_tags(mask, tags) <==> mask / (pow2(tags as nat) as usize) > 0,
{
    vstd::arithmetic::power2::lemma2_to64();
    vstd::arithmetic::power2::lemma_pow2_strictly_increases(tags as nat, 32);
    vstd::arithmetic::power2::lemma_pow2_pos(tags as nat);
    let p = pow2(tags as nat) as int;
    let q = mask as int / p;
    vstd::arithmetic::div_mod::lemma_fundamental_div_mod(mask as int, p);
    vstd::arithmetic::div_mod::lemma_mod_bound(mask as int, p);
    assert(q > 0 ==> p * q >= p) by (nonlinear_arith)
        requires
            p > 0,
    ;
    assert(q <= 0 ==> p * q <= 0) by (nonlinear_arith)
        requires
            p > 0,
    ;
}

/// Borders and gaps pass while they leave room on a screen, are warned of above
/// that, and refused where no coordinate holds them.
pub proof fn widths_are_checked(d: Seq<IssueView>, value: u32)
    ensures
        value <= 64 ==> nothing_found(d, border_check(d, value)),
        64 < value <= i32::MAX ==> one_found(
            d,
            border_check(d, value),
            "appearance.border_px"@,
            ConfigDiagnosticLevel::Warning,
        ),
        value > i32::MAX ==> one_found(
            d,
            border_check(d, value),
            "appearance.border_px"@,
            ConfigDiagnosticLevel::Error,
        ),
        value <= 512 ==> nothing_found(d, gap_check(d, value)),
        512 < value <= i32::MAX ==> one_found(
            d,
            gap_check(d, value),
            "appearance.gap_px"@,
            ConfigDiagnosticLevel::Warning,
        ),
        value > i32::MAX ==> one_found(
            d,
            gap_check(d, value),
            "appearance.gap_px"@,
            ConfigDiagnosticLevel::Error,
        ),
{
    let b = border_check(d, value);
    let g = gap_check(d, value);
    assert(b.len() > d.len() ==> b.drop_last() =~= d);
    assert(g.len() > d.len() ==> g.drop_last() =~= d);
}

/// What a live override accepts, the checks of a document pass.
pub proof fn accepted_overrides_pass_the_checks(
    d: Seq<IssueView>,
    path: Seq<char>,
    key: HotKey,
    value: JsonValue,
)
    requires
        stated(setting_name(key), value) is Ok,
        stated(setting_name(key), value)->Ok_0 is Real,
    ensures
        ({
            let v = stated(setting_name(key), value)->Ok_0->Real_0;
            if key == HotKey::MFact {
                nothing_found(d, required_range_check(d, path, v, FACT_MIN, FACT_MAX))
            } else if key == HotKey::CornerRadius {
                nothing_found(d, range_check(d, path, v, ZERO, RADIUS_MAX))
            } else {
                nothing_found(d, range_check(d, path, v, ZERO, ONE))
            }
        }),
{
    settings_go_by_their_names(key, setting_name(key));
}

/// A duration must be above zero while its effect is on, and is warned of above
/// thirty seconds.
pub proof fn durations_are_checked(
    d: Seq<IssueView>,
    path: Seq<char>,
    value: u64,
    enabled: bool,
)
    ensures
        ({
            let r = millis_check(d, path, value, enabled);
            &&& enabled && value == 0 ==> one_found(d, r, path, ConfigDiagnosticLevel::Error)
            &&& value > 30000 ==> one_found(d, r, path, ConfigDiagnosticLevel::Warning)
            &&& value <= 30000 && (value > 0 || !enabled) ==> nothing_found(d, r)
        }),
{
    let r = millis_check(d, path, value, enabled);
    assert(r.len() > d.len() ==> r.drop_last() =~= d);
}

/// An amount of work passes up to its greatest, and is warned of above; a grid
/// needs a part; a monitor is numbered from zero, or stands for any.
pub proof fn amounts_are_checked(
    d: Seq<IssueView>,
    path: Seq<char>,
    value: u32,
    max: u32,
    monitor: i32,
)
    ensures
        value <= max ==> nothing_found(d, work_check(d, path, value, max)),
        value > max ==> one_found(
            d,
            work_check(d, path, value, max),
            path,
            ConfigDiagnosticLevel::Warning,
        ),
        value > 0 ==> nothing_found(d, grid_check(d, path, value)),
        value == 0 ==> one_found(
            d,
            grid_check(d, path, value),
            path,
            ConfigDiagnosticLevel::Warning,
        ),
        monitor >= -1 ==> nothing_found(d, monitor_check(d, path, monitor)),
        monitor < -1 ==> one_found(
            d,
            monitor_check(d, path, monitor),
            path,
            ConfigDiagnosticLevel::Warning,
        ),
{
    let a = work_check(d, path, value, max);
    let b = grid_check(d, path, value);
    let c = monitor_check(d, path, monitor);
    assert(a.len() > d.len() ==> a.drop_last() =~= d);
    assert(b.len() > d.len() ==> b.drop_last() =~= d);
    assert(c.len() > d.len() ==> c.drop_last() =~= d);
}

/// As many tags as a mask holds pass, and any other number is refused.
pub proof fn tag_counts_are_checked(d: Seq<IssueView>, c: TomlConfig)
    requires
        c.layout.m_fact.within(F32 { bits: 0x3d4c_cccd }, F32 { bits: 0x3f73_3333 }),
    ensures
        1 <= c.layout.tags_length <= 31 ==> nothing_found(d, layout_check(d, c)),
        !(1 <= c.layout.tags_length <= 31) ==> one_found(
            d,
            layout_check(d, c),
            "layout.tags_length"@,
            ConfigDiagnosticLevel::Error,
        ),
{
    let r = layout_check(d, c);
    assert(r.len() > d.len() ==> r.drop_last() =~= d);
}

/// A placement rule passes where its tags are in use and its monitor can be; each
/// of the two is warned of by itself.
pub proof fn rules_are_checked(d: Seq<IssueView>, tags: usize, rule: RuleConfig, i: int)
    ensures
        ({
            let r = rule_check(d, tags, rule, i);
            &&& !beyond_tags(rule.tags, tags) && rule.monitor >= -1 ==> nothing_found(d, r)
            &&& beyond_tags(rule.tags, tags) && rule.monitor >= -1 ==> r.len() == d.len() + 1
            &&& !beyond_tags(rule.tags, tags) && rule.monitor < -1 ==> r.len() == d.len() + 1
            &&& beyond_tags(rule.tags, tags) && rule.monitor < -1 ==> r.len() == d.len() + 2
        }),
{
}

/// A text that is a time passes, and any other is warned of.
pub proof fn times_are_checked(d: Seq<IssueView>, path: Seq<char>, value: Seq<char>)
    ensures
        is_time(value) ==> nothing_found(d, time_check(d, path, value)),
        !is_time(value) ==> one_found(
            d,
            time_check(d, path, value),
            path,
            ConfigDiagnosticLevel::Warning,
        ),
{
    let r = time_check(d, path, value);
    assert(r.len() > d.len() ==> r.drop_last() =~= d);
}

} // verus!
