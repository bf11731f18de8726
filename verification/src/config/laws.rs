//! What the key bindings come to.
use super::access::{annotated_state, configured_keys, cursor_size_of, first_entry, option_comment};
use super::bindings::{
    binding_argument, binds_action, chord_taken, click_named, configured_button, configured_key,
    effective_key, effective_keys, migrated, modifier_named, mods_of, present_name, repeatable,
    tag_bindings, tag_count, tag_keys, with_fallback, Modifier,
};
use super::types::{
    ArgumentConfig, ButtonConfig, ClientMoveResize, Config, KeyConfig, LayoutTagConfig,
    NewClientPosition,
};
use crate::actions::{function_named, keysym_named, ArgView, KeyView, Mods, WMClickType, WMFunc};
use crate::terminals::EnvValue;
use crate::text::{lowered, parsed_unsigned, trimmed};
use crate::vocabulary::{action_name, names_stand_for_one_action};
use vstd::arithmetic::power2::pow2;
use vstd::prelude::*;

verus! {

/// The tag mask a binding carries.
pub open spec fn carries(key: KeyView, mask: u32) -> bool {
    key.arg == ArgView::UInt(mask as int)
}

/// Whether a mask holds one tag and no other.
pub open spec fn just_tag(mask: u32, tag: int) -> bool {
    forall|k: u32| k < 32 ==> (mask & #[trigger] (1u32 << k) != 0 <==> k == tag)
}

/// Whether the four bindings of a tag begin at `at`: all on the key of its
/// digit, all with the mask of this tag alone, on the modifier key, with Control,
/// with Shift, and with both.
pub open spec fn on_digit(keys: Seq<KeyView>, at: int, modkey: Mods, tag: int) -> bool {
    &&& 0 <= at
    &&& at + 4 <= keys.len()
    &&& exists|mask: u32|
        {
            &&& #[trigger] just_tag(mask, tag)
            &&& forall|k: int|
                at <= k < at + 4 ==> {
                    &&& carries(#[trigger] keys[k], mask)
                    &&& keys[k].key_sym == '1' as u32 + tag
                    &&& !keys[k].repeatable
                }
        }
    &&& keys[at].func == WMFunc::View && keys[at].mask == modkey
    &&& keys[at + 1].func == WMFunc::Toggleview && keys[at + 1].mask == (Mods {
        control: true,
        ..modkey
    })
    &&& keys[at + 2].func == WMFunc::Tag && keys[at + 2].mask == (Mods { shift: true, ..modkey })
    &&& keys[at + 3].func == WMFunc::Toggletag && keys[at + 3].mask == (Mods {
        control: true,
        shift: true,
        ..modkey
    })
}

proof fn one_bit(tag: u32)
    requires
        tag < 32,
    ensures
        just_tag(1u32 << tag, tag as int),
{
    assert forall|k: u32| k < 32 implies ((1u32 << tag) & #[trigger] (1u32 << k) != 0 <==> k
        == tag) by {
        assert((1u32 << tag) & (1u32 << k) != 0 <==> k == tag) by (bit_vector)
            requires
                tag < 32,
                k < 32,
        ;
    }
}

proof fn tag_keys_stand(modkey: Mods, n: int, tag: int)
    requires
        0 <= tag < n,
        tag < 9,
    ensures
        tag_keys(modkey, n).len() == 4 * (if n < 9 {
            n
        } else {
            9
        }),
        on_digit(tag_keys(modkey, n), 4 * tag, modkey, tag),
    decreases n,
{
    let before = tag_keys(modkey, n - 1);
    let all = tag_keys(modkey, n);
    let own = tag_bindings(modkey, n - 1);
    assert(all == before + own);
    if n > 1 {
        tag_keys_stand(modkey, n - 1, if tag == n - 1 {
            0
        } else {
            tag
        });
    }
    if tag == n - 1 {
        one_bit(tag as u32);
        assert(forall|k: int| 0 <= k < 4 ==> all[4 * tag + k] == #[trigger] own[k]);
        assert(own[0] == all[4 * tag] && own[1] == all[4 * tag + 1]);
        assert(own[2] == all[4 * tag + 2] && own[3] == all[4 * tag + 3]);
        assert forall|k: int| 4 * tag <= k < 4 * tag + 4 implies {
            &&& carries(#[trigger] all[k], 1u32 << (tag as u32))
            &&& all[k].key_sym == '1' as u32 + tag
            &&& !all[k].repeatable
        } by {
            assert(all[k] == own[k - 4 * tag]);
        }
    } else {
        assert(on_digit(before, 4 * tag, modkey, tag));
        let mask = choose|mask: u32|
            {
                &&& #[trigger] just_tag(mask, tag)
                &&& forall|k: int|
                    4 * tag <= k < 4 * tag + 4 ==> {
                        &&& carries(#[trigger] before[k], mask)
                        &&& before[k].key_sym == '1' as u32 + tag
                        &&& !before[k].repeatable
                    }
            };
        assert(forall|k: int| 0 <= k < before.len() ==> all[k] == #[trigger] before[k]);
        assert forall|k: int| 4 * tag <= k < 4 * tag + 4 implies {
            &&& carries(#[trigger] all[k], mask)
            &&& all[k].key_sym == '1' as u32 + tag
            &&& !all[k].repeatable
        } by {
            assert(all[k] == before[k]);
        }
        assert(all[4 * tag] == before[4 * tag] && all[4 * tag + 1] == before[4 * tag + 1]);
        assert(all[4 * tag + 2] == before[4 * tag + 2] && all[4 * tag + 3] == before[4 * tag + 3]);
    }
}

/// The bindings end with four for each of the first nine tags: the key of the
/// tag's digit shows, adds, moves to or toggles this tag and no other.
pub proof fn digit_keys_carry_their_tags(config: Config, tag: int)
    requires
        0 <= tag < 9,
        tag < tag_count(config.inner.layout.tags_length),
    ensures
        ({
            let n = tag_count(config.inner.layout.tags_length);
            let keys = config.all_keys();
            let modkey = mods_of(seq![config.inner.keybindings.modkey]);
            let digits = if n < 9 {
                n
            } else {
                9
            };
            on_digit(keys, keys.len() - 4 * digits + 4 * tag, modkey, tag)
        }),
{
    let n = tag_count(config.inner.layout.tags_length);
    let keys = config.all_keys();
    let modkey = mods_of(seq![config.inner.keybindings.modkey]);
    tag_keys_stand(modkey, n, tag);
    let tags = tag_keys(modkey, n);
    super::bindings::own_bindings_are_not_overridden(config);
    let start = keys.len() - tags.len();
    assert(tags == keys.skip(start));
    let at = start + 4 * tag;
    let mask = choose|mask: u32|
        {
            &&& #[trigger] just_tag(mask, tag)
            &&& forall|k: int|
                4 * tag <= k < 4 * tag + 4 ==> {
                    &&& carries(#[trigger] tags[k], mask)
                    &&& tags[k].key_sym == '1' as u32 + tag
                    &&& !tags[k].repeatable
                }
        };
    assert forall|k: int| at <= k < at + 4 implies {
        &&& carries(#[trigger] keys[k], mask)
        &&& keys[k].key_sym == '1' as u32 + tag
        &&& !keys[k].repeatable
    } by {
        assert(keys[k] == tags[k - start]);
    }
    assert(keys[at] == tags[4 * tag] && keys[at + 1] == tags[4 * tag + 1]);
    assert(keys[at + 2] == tags[4 * tag + 2] && keys[at + 3] == tags[4 * tag + 3]);
}

/// The masks of two tags share no tag, and each lies within the tags in use.
pub proof fn tag_masks_stay_apart(a: u32, b: u32, i: int, j: int, n: u32)
    requires
        just_tag(a, i),
        just_tag(b, j),
        0 <= i < n,
        0 <= j < n,
        n <= 31,
    ensures
        i != j ==> a & b == 0,
        i == j ==> a == b,
        a != 0,
        a <= pow2(n as nat) - 1,
        a & !((pow2(n as nat) - 1) as u32) == 0,
{
    let x = i as u32;
    let y = j as u32;
    same_bits(a, 1u32 << x, x);
    same_bits(b, 1u32 << y, y);
    vstd::arithmetic::power2::lemma2_to64();
    vstd::arithmetic::power2::lemma_pow2_strictly_increases(n as nat, 32);
    vstd::bits::lemma_u32_shl_is_mul(1, n);
    let all = ((1u32 << n) - 1) as u32;
    assert((1u32 << n) >= 1 && (1u32 << x) <= (1u32 << n) - 1 && (1u32 << x) & !all == 0 && (1u32
        << x) != 0 && (x != y ==> (1u32 << x) & (1u32 << y) == 0)) by (bit_vector)
        requires
            x < n,
            y < n,
            n <= 31,
            all == ((1u32 << n) - 1) as u32,
    ;
}

proof fn same_bits(mask: u32, bit: u32, tag: u32)
    requires
        just_tag(mask, tag as int),
        tag < 32,
        bit == 1u32 << tag,
    ensures
        mask == bit,
{
    let d = mask ^ bit;
    vstd::std_specs::bits::axiom_u32_trailing_zeros(d);
    let z = vstd::std_specs::bits::u32_trailing_zeros(d);
    one_bit(tag);
    if d != 0 {
        assert((mask & (1u32 << z) != 0) != (bit & (1u32 << z) != 0)) by (bit_vector)
            requires
                z < 32,
                ((mask ^ bit) >> z) & 1u32 == 1u32,
        ;
    }
    assert(mask ^ bit == 0 ==> mask == bit) by (bit_vector);
}

/// Whether a modifier is held.
pub open spec fn is_held(mods: Mods, modifier: Modifier) -> bool {
    match modifier {
        Modifier::Alt => mods.alt,
        Modifier::CapsLock => mods.caps,
        Modifier::Control => mods.control,
        Modifier::Mod2 => mods.mod2,
        Modifier::Mod3 => mods.mod3,
        Modifier::Mod5 => mods.mod5,
        Modifier::Shift => mods.shift,
        Modifier::Super => mods.sup,
    }
}

/// A modifier is held just where one of the names stands for it, whatever
/// the order of the names and however often one occurs.
pub proof fn modifiers_are_those_named(names: Seq<String>, modifier: Modifier)
    ensures
        is_held(mods_of(names), modifier) <==> exists|i: int|
            0 <= i < names.len() && modifier_named(#[trigger] names[i]@) == Some(modifier),
{
}

/// The name of a modifier, and its other name where it has one.
pub open spec fn modifier_names(modifier: Modifier) -> (Seq<char>, Seq<char>) {
    match modifier {
        Modifier::Alt => ("Alt"@, "Mod1"@),
        Modifier::CapsLock => ("CapsLock"@, "Lock"@),
        Modifier::Control => ("Control"@, "Ctrl"@),
        Modifier::Mod2 => ("Mod2"@, "Mod2"@),
        Modifier::Mod3 => ("Mod3"@, "Mod3"@),
        Modifier::Mod5 => ("Mod5"@, "Mod5"@),
        Modifier::Shift => ("Shift"@, "Shift"@),
        Modifier::Super => ("Super"@, "Mod4"@),
    }
}

/// Every modifier goes by its names, and no name stands for another.
pub proof fn modifiers_go_by_their_names(modifier: Modifier, name: Seq<char>)
    ensures
        modifier_named(modifier_names(modifier).0) == Some(modifier),
        modifier_named(modifier_names(modifier).1) == Some(modifier),
        modifier_named(name) == Some(modifier) ==> name == modifier_names(modifier).0 || name
            == modifier_names(modifier).1 || name == "Win"@ && modifier == Modifier::Super,
{
    reveal_strlit("Alt");
    reveal_strlit("Mod1");
    reveal_strlit("CapsLock");
    reveal_strlit("Lock");
    reveal_strlit("Control");
    reveal_strlit("Ctrl");
    reveal_strlit("Mod2");
    reveal_strlit("Mod3");
    reveal_strlit("Mod5");
    reveal_strlit("Shift");
    reveal_strlit("Super");
    reveal_strlit("Mod4");
    reveal_strlit("Win");
    assert("Alt"@.len() == 3 && "Alt"@[0] == 'A');
    assert("Mod1"@.len() == 4 && "Mod1"@[0] == 'M' && "Mod1"@[3] == '1');
    assert("CapsLock"@.len() == 8);
    assert("Lock"@.len() == 4 && "Lock"@[0] == 'L' && "Lock"@[3] == 'k');
    assert("Control"@.len() == 7);
    assert("Ctrl"@.len() == 4 && "Ctrl"@[0] == 'C' && "Ctrl"@[3] == 'l');
    assert("Mod2"@.len() == 4 && "Mod2"@[0] == 'M' && "Mod2"@[3] == '2');
    assert("Mod3"@.len() == 4 && "Mod3"@[0] == 'M' && "Mod3"@[3] == '3');
    assert("Mod5"@.len() == 4 && "Mod5"@[0] == 'M' && "Mod5"@[3] == '5');
    assert("Shift"@.len() == 5 && "Shift"@[1] == 'h');
    assert("Super"@.len() == 5 && "Super"@[1] == 'u');
    assert("Mod4"@.len() == 4 && "Mod4"@[0] == 'M' && "Mod4"@[3] == '4');
    assert("Win"@.len() == 3 && "Win"@[0] == 'W');
}

/// Two names of keys never stand for the same key symbol.
pub proof fn keys_differ(a: Seq<char>, b: Seq<char>)
    requires
        keysym_named(a) is Some,
        keysym_named(b) is Some,
    ensures
        keysym_named(a) == keysym_named(b) <==> a == b,
{
}

/// The symbol of a letter or digit key is its character.
#[verifier::rlimit(50)]
pub proof fn characters_are_their_symbols(key: Seq<char>)
    requires
        key.len() == 1,
        'a' <= key[0] <= 'z' || '0' <= key[0] <= '9',
    ensures
        keysym_named(key) == Some(key[0] as u32),
{
    reveal_strlit("Return");
    reveal_strlit("Tab");
    reveal_strlit("space");
    reveal_strlit("Page_Up");
    reveal_strlit("Page_Down");
    reveal_strlit("comma");
    reveal_strlit("period");
    reveal_strlit("a");
    reveal_strlit("b");
    reveal_strlit("c");
    reveal_strlit("d");
    reveal_strlit("e");
    reveal_strlit("f");
    reveal_strlit("g");
    reveal_strlit("h");
    reveal_strlit("i");
    reveal_strlit("j");
    reveal_strlit("k");
    reveal_strlit("l");
    reveal_strlit("m");
    reveal_strlit("n");
    reveal_strlit("o");
    reveal_strlit("p");
    reveal_strlit("q");
    reveal_strlit("r");
    reveal_strlit("s");
    reveal_strlit("t");
    reveal_strlit("u");
    reveal_strlit("v");
    reveal_strlit("w");
    reveal_strlit("x");
    reveal_strlit("y");
    reveal_strlit("z");
    reveal_strlit("0");
    reveal_strlit("1");
    reveal_strlit("2");
    reveal_strlit("3");
    reveal_strlit("4");
    reveal_strlit("5");
    reveal_strlit("6");
    reveal_strlit("7");
    reveal_strlit("8");
    reveal_strlit("9");
    assert("Return"@.len() == 6);
    assert("Tab"@.len() == 3);
    assert("space"@.len() == 5);
    assert("Page_Up"@.len() == 7);
    assert("Page_Down"@.len() == 9);
    assert("comma"@.len() == 5);
    assert("period"@.len() == 6);
    assert("a"@[0] == 'a');
    assert("b"@[0] == 'b');
    assert("c"@[0] == 'c');
    assert("d"@[0] == 'd');
    assert("e"@[0] == 'e');
    assert("f"@[0] == 'f');
    assert("g"@[0] == 'g');
    assert("h"@[0] == 'h');
    assert("i"@[0] == 'i');
    assert("j"@[0] == 'j');
    assert("k"@[0] == 'k');
    assert("l"@[0] == 'l');
    assert("m"@[0] == 'm');
    assert("n"@[0] == 'n');
    assert("o"@[0] == 'o');
    assert("p"@[0] == 'p');
    assert("q"@[0] == 'q');
    assert("r"@[0] == 'r');
    assert("s"@[0] == 's');
    assert("t"@[0] == 't');
    assert("u"@[0] == 'u');
    assert("v"@[0] == 'v');
    assert("w"@[0] == 'w');
    assert("x"@[0] == 'x');
    assert("y"@[0] == 'y');
    assert("z"@[0] == 'z');
    assert("0"@[0] == '0');
    assert("1"@[0] == '1');
    assert("2"@[0] == '2');
    assert("3"@[0] == '3');
    assert("4"@[0] == '4');
    assert("5"@[0] == '5');
    assert("6"@[0] == '6');
    assert("7"@[0] == '7');
    assert("8"@[0] == '8');
    assert("9"@[0] == '9');
    assert(key[0] == 'a' ==> key =~= "a"@);
    assert(key[0] == 'b' ==> key =~= "b"@);
    assert(key[0] == 'c' ==> key =~= "c"@);
    assert(key[0] == 'd' ==> key =~= "d"@);
    assert(key[0] == 'e' ==> key =~= "e"@);
    assert(key[0] == 'f' ==> key =~= "f"@);
    assert(key[0] == 'g' ==> key =~= "g"@);
    assert(key[0] == 'h' ==> key =~= "h"@);
    assert(key[0] == 'i' ==> key =~= "i"@);
    assert(key[0] == 'j' ==> key =~= "j"@);
    assert(key[0] == 'k' ==> key =~= "k"@);
    assert(key[0] == 'l' ==> key =~= "l"@);
    assert(key[0] == 'm' ==> key =~= "m"@);
    assert(key[0] == 'n' ==> key =~= "n"@);
    assert(key[0] == 'o' ==> key =~= "o"@);
    assert(key[0] == 'p' ==> key =~= "p"@);
    assert(key[0] == 'q' ==> key =~= "q"@);
    assert(key[0] == 'r' ==> key =~= "r"@);
    assert(key[0] == 's' ==> key =~= "s"@);
    assert(key[0] == 't' ==> key =~= "t"@);
    assert(key[0] == 'u' ==> key =~= "u"@);
    assert(key[0] == 'v' ==> key =~= "v"@);
    assert(key[0] == 'w' ==> key =~= "w"@);
    assert(key[0] == 'x' ==> key =~= "x"@);
    assert(key[0] == 'y' ==> key =~= "y"@);
    assert(key[0] == 'z' ==> key =~= "z"@);
    assert(key[0] == '0' ==> key =~= "0"@);
    assert(key[0] == '1' ==> key =~= "1"@);
    assert(key[0] == '2' ==> key =~= "2"@);
    assert(key[0] == '3' ==> key =~= "3"@);
    assert(key[0] == '4' ==> key =~= "4"@);
    assert(key[0] == '5' ==> key =~= "5"@);
    assert(key[0] == '6' ==> key =~= "6"@);
    assert(key[0] == '7' ==> key =~= "7"@);
    assert(key[0] == '8' ==> key =~= "8"@);
    assert(key[0] == '9' ==> key =~= "9"@);
}

/// Renaming a terminal changes the program of a command and nothing else, and
/// is done once for all.
pub proof fn renaming_changes_the_program(function: Seq<char>, argv: Seq<Seq<char>>, i: int)
    requires
        0 <= i < argv.len(),
    ensures
        ({
            let once = migrated(function, ArgView::StringVec(argv));
            &&& once is StringVec
            &&& once->StringVec_0.len() == argv.len()
            &&& once->StringVec_0[i] != argv[i] ==> {
                &&& present_name(argv[i]) == Some(once->StringVec_0[i])
                &&& i == 0 && function == "spawn"@ || i == 1 && function == "togglescratchpad"@
            }
            &&& migrated(function, once) == once
            &&& function == "spawn"@ && present_name(argv[0]) is Some ==> once->StringVec_0[0]
                == present_name(argv[0])->0
            &&& function == "togglescratchpad"@ && argv.len() > 1 && present_name(argv[1]) is Some
                ==> once->StringVec_0[1] == present_name(argv[1])->0
        }),
{
    reveal_strlit("jterm1");
    reveal_strlit("jterm2");
    reveal_strlit("jterm3");
    reveal_strlit("jterm4");
    reveal_strlit("forge");
    reveal_strlit("anvil");
    reveal_strlit("ember");
    reveal_strlit("frost");
    reveal_strlit("spawn");
    reveal_strlit("togglescratchpad");
    assert("jterm1"@.len() == 6 && "jterm2"@.len() == 6 && "jterm3"@.len() == 6 && "jterm4"@.len()
        == 6);
    assert("forge"@.len() == 5 && "anvil"@.len() == 5 && "ember"@.len() == 5 && "frost"@.len()
        == 5);
    assert("spawn"@.len() == 5 && "togglescratchpad"@.len() == 16);
}

/// The four renamed terminals have four names.
pub proof fn renamed_terminals_differ(a: Seq<char>, b: Seq<char>)
    requires
        present_name(a) is Some,
        present_name(a) == present_name(b),
    ensures
        a == b,
{
    reveal_strlit("forge");
    reveal_strlit("anvil");
    reveal_strlit("ember");
    reveal_strlit("frost");
    assert("forge"@[0] == 'f' && "forge"@[1] == 'o');
    assert("anvil"@[0] == 'a' && "ember"@[0] == 'e');
    assert("frost"@[0] == 'f' && "frost"@[1] == 'r');
}

/// A command to start has a program, and as many words as were given.
pub proof fn commands_have_a_program(words: Vec<String>)
    ensures
        ({
            let r = binding_argument("spawn"@, ArgumentConfig::StringVec(words));
            &&& r is Some <==> words@.len() > 0 && trimmed(words@[0]@).len() > 0
            &&& r is Some ==> r->0 is StringVec && r->0->StringVec_0.len() == words@.len()
            &&& r is Some ==> forall|i: int|
                1 <= i < words@.len() ==> (#[trigger] r->0->StringVec_0[i]) == words@[i]@
        }),
{
}

/// Whether a held key repeats an action: one that goes a step further each time.
pub open spec fn goes_on(func: WMFunc) -> bool {
    match func {
        WMFunc::Focusstack | WMFunc::Movestack | WMFunc::Loopview | WMFunc::Incnmaster => true,
        WMFunc::Setmfact | WMFunc::Setcfact => true,
        WMFunc::VolumeAdjust | WMFunc::BrightnessAdjust => true,
        WMFunc::Cyclelayout | WMFunc::LayoutPicker => true,
        WMFunc::ScrollingFocusColumn | WMFunc::ScrollingMoveColumn => true,
        WMFunc::ScrollingConsume | WMFunc::ScrollingExpel | WMFunc::ScrollingFocusWindow => true,
        _ => false,
    }
}

/// A held key repeats just the actions that go a step further each time.
pub proof fn steps_are_repeated(func: WMFunc)
    ensures
        repeatable(action_name(func)) <==> goes_on(func),
{
    assert forall|other: WMFunc| action_name(func) == #[trigger] action_name(other) implies func
        == other by {
        names_stand_for_one_action(action_name(func), func, other);
    }
    assert(action_name(WMFunc::Focusstack) == "focusstack"@);
    assert(action_name(WMFunc::Loopview) == "loopview"@);
    assert(action_name(WMFunc::Setmfact) == "setmfact"@);
    assert(action_name(WMFunc::Setcfact) == "setcfact"@);
    assert(action_name(WMFunc::Incnmaster) == "incnmaster"@);
    assert(action_name(WMFunc::Movestack) == "movestack"@);
    assert(action_name(WMFunc::VolumeAdjust) == "volume_adjust"@);
    assert(action_name(WMFunc::BrightnessAdjust) == "brightness_adjust"@);
    assert(action_name(WMFunc::Cyclelayout) == "cyclelayout"@);
    assert(action_name(WMFunc::LayoutPicker) == "layout_picker"@);
    assert(action_name(WMFunc::ScrollingFocusColumn) == "scrolling_focus_column"@);
    assert(action_name(WMFunc::ScrollingMoveColumn) == "scrolling_move_column"@);
    assert(action_name(WMFunc::ScrollingConsume) == "scrolling_consume"@);
    assert(action_name(WMFunc::ScrollingExpel) == "scrolling_expel"@);
    assert(action_name(WMFunc::ScrollingFocusWindow) == "scrolling_focus_window"@);
}

/// A binding of the document takes effect as it is stated; only the modifiers
/// of the two moved shortcuts differ, and nothing else of them.
pub proof fn entries_take_effect_as_stated(keys: Seq<KeyConfig>, k: KeyConfig)
    ensures
        ({
            let r = effective_key(keys, k);
            let own = configured_key(k);
            &&& r is Some <==> own is Some
            &&& r is Some ==> {
                &&& r->0.key_sym == own->0.key_sym
                &&& r->0.func == own->0.func
                &&& r->0.arg == own->0.arg
                &&& r->0.repeatable == own->0.repeatable
                &&& r->0.mask == own->0.mask || own->0.mask.alt && own->0.mask.shift
                    && !own->0.mask.control && r->0.mask.alt && r->0.mask.control
                    && !r->0.mask.shift
            }
            &&& r is Some ==> keysym_named(k.key@) == Some(r->0.key_sym) && function_named(
                k.function@,
            ) == Some(r->0.func)
        }),
{
}

/// The bindings of a document stand in the order of its entries, and only those
/// entries are left out that name no key, action or command.
pub proof fn bindings_stand_in_order(keys: Seq<KeyConfig>, n: int, i: int)
    requires
        0 <= i < n <= keys.len(),
    ensures
        effective_key(keys, keys[i]) is Some ==> {
            let at = effective_keys(keys, i).len() as int;
            &&& at < effective_keys(keys, n).len()
            &&& effective_keys(keys, n)[at] == effective_key(keys, keys[i])->0
        },
        effective_keys(keys, i + 1).len() == effective_keys(keys, i).len() + if effective_key(
            keys,
            keys[i],
        ) is Some {
            1int
        } else {
            0
        },
        configured_key(keys[i]) is Some ==> {
            let at = configured_keys(keys, i).len() as int;
            &&& at < configured_keys(keys, n).len()
            &&& configured_keys(keys, n)[at] == configured_key(keys[i])->0
        },
        configured_keys(keys, i + 1).len() == configured_keys(keys, i).len() + if configured_key(
            keys[i],
        ) is Some {
            1int
        } else {
            0
        },
    decreases n,
{
    if i < n - 1 {
        bindings_stand_in_order(keys, n - 1, i);
    }
}

/// The cursor has the configured size, no greater than the greatest; without
/// one the environment's, where that is in range.
pub proof fn cursors_have_a_size(configured: u32, environment: EnvValue, other: EnvValue)
    ensures
        1 <= cursor_size_of(configured, environment) <= 512,
        1 <= configured <= 512 ==> cursor_size_of(configured, environment) == configured,
        configured > 512 ==> cursor_size_of(configured, environment) == 512,
        configured > 0 ==> cursor_size_of(configured, environment) == cursor_size_of(
            configured,
            other,
        ),
        !(environment is Text) ==> cursor_size_of(0, environment) == 24,
        environment matches EnvValue::Text(text) ==> {
            let stated = parsed_unsigned(trimmed(text@), u32::MAX as nat);
            &&& stated is Some && 1 <= stated->0 <= 512 ==> cursor_size_of(0, environment)
                == stated->0
            &&& !(stated is Some && 1 <= stated->0 <= 512) ==> cursor_size_of(0, environment) == 24
        },
{
}

/// The entry for a tag is the first one for it that its monitor fits.
pub proof fn entries_are_found_in_order(
    entries: Seq<LayoutTagConfig>,
    tag: usize,
    monitor: spec_fn(i32) -> bool,
)
    ensures
        match first_entry(entries, tag, monitor) {
            Some(i) => {
                &&& 0 <= i < entries.len()
                &&& entries[i].tag == tag
                &&& monitor(entries[i].monitor)
                &&& forall|k: int|
                    0 <= k < i ==> !((#[trigger] entries[k]).tag == tag && monitor(
                        entries[k].monitor,
                    ))
            },
            None => forall|k: int|
                0 <= k < entries.len() ==> !((#[trigger] entries[k]).tag == tag && monitor(
                    entries[k].monitor,
                )),
        },
    decreases entries.len(),
{
    if entries.len() > 0 && !(entries[0].tag == tag && monitor(entries[0].monitor)) {
        let rest = entries.drop_first();
        entries_are_found_in_order(rest, tag, monitor);
        assert(forall|k: int| 1 <= k < entries.len() ==> #[trigger] entries[k] == rest[k - 1]);
    }
}

/// Annotating a document changes none of its lines: each one stays, in order,
/// with at most one comment above it.
pub proof fn annotating_keeps_every_line(lines: Seq<Seq<char>>, line: Seq<char>)
    ensures
        ({
            let before = annotated_state(lines).0;
            let after = annotated_state(lines.push(line)).0;
            &&& after.last() == line
            &&& after.len() == before.len() + 1 || after.len() == before.len() + 2
            &&& before == after.take(before.len() as int)
            &&& after.len() == before.len() + 2 ==> after[before.len() as int].len() > 0
                && after[before.len() as int][0] == '#'
        }),
{
    assert(lines.push(line).drop_last() =~= lines);
    let before = annotated_state(lines).0;
    let after = annotated_state(lines.push(line)).0;
    reveal_strlit(
        "# available: slide, cube, fade, flip, zoom, stack, blinds, coverflow, helix, portal, book",
    );
    reveal_strlit("# available: fill, fit, stretch, center");
    reveal_strlit("# available: master, tail, after_focused");
    reveal_strlit("# available: \"\" (disabled), deuteranopia, protanopia, tritanopia");
    reveal_strlit("# available: linear, ease-out, ease-in, ease-in-out, bounce, elastic");
    reveal_strlit("# available: slow, normal, fast, instant");
    assert(before =~= after.take(before.len() as int));
}

/// The name that a place for new windows goes by.
pub open spec fn place_name(place: NewClientPosition) -> Seq<char> {
    match place {
        NewClientPosition::Master => "master"@,
        NewClientPosition::Tail => "tail"@,
        NewClientPosition::AfterFocused => "after_focused"@,
    }
}

/// The name that a policy for moves and resizes goes by.
pub open spec fn policy_name(policy: ClientMoveResize) -> Seq<char> {
    match policy {
        ClientMoveResize::Always => "always"@,
        ClientMoveResize::FloatingOnly => "floating-only"@,
        ClientMoveResize::Never => "never"@,
    }
}

/// A text that reads as the name of a place or of a policy stands for it, in
/// whatever case and with whatever space around it.
pub proof fn places_and_policies_go_by_their_names(
    s: Seq<char>,
    place: NewClientPosition,
    policy: ClientMoveResize,
)
    ensures
        lowered(trimmed(s)) == place_name(place) ==> NewClientPosition::named(s) == place,
        lowered(trimmed(s)) == policy_name(policy) ==> ClientMoveResize::named(s) == policy,
{
    reveal_strlit("master");
    reveal_strlit("tail");
    reveal_strlit("after_focused");
    reveal_strlit("always");
    reveal_strlit("floating-only");
    reveal_strlit("never");
    assert("master"@.len() == 6);
    assert("tail"@.len() == 4);
    assert("after_focused"@.len() == 13);
    assert("always"@.len() == 6);
    assert("floating-only"@.len() == 13);
    assert("never"@.len() == 5);
}

/// The two places of a click go by different names, and no other name is one.
pub proof fn clicks_go_by_their_names(name: Seq<char>)
    ensures
        name == "ClkClientWin"@ <==> click_named(name) == Some(WMClickType::ClickClientWin),
        name == "ClkRootWin"@ <==> click_named(name) == Some(WMClickType::ClickRootWin),
        click_named(name) is None <==> name != "ClkClientWin"@ && name != "ClkRootWin"@,
{
    reveal_strlit("ClkClientWin");
    reveal_strlit("ClkRootWin");
    assert("ClkClientWin"@.len() == 12);
    assert("ClkRootWin"@.len() == 10);
}

/// Whether one of the bindings runs this action on Alt, Control and this letter.
pub open spec fn runs_on_letter(keys: Seq<KeyView>, func: WMFunc, letter: char) -> bool {
    exists|i: int|
        {
            &&& 0 <= i < keys.len()
            &&& (#[trigger] keys[i]).func == func
            &&& keys[i].key_sym == letter as u32
            &&& keys[i].mask == (Mods {
                shift: false,
                control: true,
                alt: true,
                sup: false,
                caps: false,
                mod2: false,
                mod3: false,
                mod5: false,
            })
        }
}

/// A document that binds neither the recorder nor the arrangement of monitors
/// has both nonetheless, on their own letters, where the letters are free.
pub proof fn missing_actions_are_bound(config: Config)
    ensures
        ({
            let stated = config.inner.keybindings.keys@;
            let own = effective_keys(stated, stated.len() as int);
            let all = config.all_keys();
            let free = Mods::alt_control();
            &&& !binds_action(stated, "toggle_audio_recording"@) && !chord_taken(
                own,
                free,
                'm' as u32,
            ) ==> runs_on_letter(all, WMFunc::ToggleAudioRecording, 'm')
            &&& !binds_action(stated, "monitor_layout"@) && !chord_taken(own, free, 'o' as u32)
                ==> runs_on_letter(all, WMFunc::MonitorLayout, 'o')
        }),
{
    let stated = config.inner.keybindings.keys@;
    let own = effective_keys(stated, stated.len() as int);
    let all = config.all_keys();
    let recorder = with_fallback(
        own,
        stated,
        "toggle_audio_recording"@,
        WMFunc::ToggleAudioRecording,
        0x6d,
    );
    let monitors = with_fallback(
        recorder,
        stated,
        "monitor_layout"@,
        WMFunc::MonitorLayout,
        0x6f,
    );
    if !binds_action(stated, "toggle_audio_recording"@) && !chord_taken(
        own,
        Mods::alt_control(),
        'm' as u32,
    ) {
        assert(all[own.len() as int].func == WMFunc::ToggleAudioRecording);
    }
    if !binds_action(stated, "monitor_layout"@) && !chord_taken(
        own,
        Mods::alt_control(),
        'o' as u32,
    ) {
        assert(!chord_taken(recorder, Mods::alt_control(), 0x6f)) by {
            assert(forall|i: int| 0 <= i < own.len() ==> #[trigger] recorder[i] == own[i]);
        }
        assert(all[recorder.len() as int].func == WMFunc::MonitorLayout);
    }
}

/// A setting with a fixed set of values is explained by a comment, which a reader
/// of the document passes over.
pub proof fn explanations_are_comments(section: Seq<char>, line: Seq<char>)
    ensures
        option_comment(section, line) is Some ==> {
            &&& option_comment(section, line)->0.len() > 0
            &&& option_comment(section, line)->0[0] == '#'
        },
{
    reveal_strlit(
        "# available: slide, cube, fade, flip, zoom, stack, blinds, coverflow, helix, portal, book",
    );
    reveal_strlit("# available: fill, fit, stretch, center");
    reveal_strlit("# available: master, tail, after_focused");
    reveal_strlit("# available: \"\" (disabled), deuteranopia, protanopia, tritanopia");
    reveal_strlit("# available: linear, ease-out, ease-in, ease-in-out, bounce, elastic");
    reveal_strlit("# available: slow, normal, fast, instant");
}

/// A mouse binding takes effect as it is stated, or not at all.
pub proof fn clicks_take_effect_as_stated(b: ButtonConfig)
    ensures
        configured_button(b) is Some ==> {
            let r = configured_button(b)->0;
            &&& click_named(b.click_type@) == Some(r.click_type)
            &&& function_named(b.function@) == Some(r.func)
            &&& binding_argument(b.function@, b.argument) == Some(r.arg)
            &&& r.button == b.button
            &&& r.mask == mods_of(b.modifier@)
        },
        configured_button(b) is None <==> click_named(b.click_type@) is None || function_named(
            b.function@,
        ) is None || binding_argument(b.function@, b.argument) is None,
{
}

} // verus!
